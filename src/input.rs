use vstd::prelude::*;
use vstd::bytes::{spec_u16_to_le_bytes, spec_u32_to_le_bytes, u16_from_le_bytes, u16_to_le_bytes, u32_from_le_bytes, u32_to_le_bytes, lemma_auto_spec_u16_to_from_le_bytes, lemma_auto_spec_u32_to_from_le_bytes};
use vstd::slice::slice_subrange;
use vstd::utf8::{is_scalar, char_u32_cast, char_is_scalar};

verus! {

/// A pointer button, or a scroll step.
#[derive(Clone, Copy, Debug, PartialEq, Eq, Structural)]
pub enum MouseButton {
    Left,
    Middle,
    Right,
    Back,
    Forward,
    ScrollUp,
    ScrollDown,
    ScrollLeft,
    ScrollRight,
}

/// A key that is not a character of the layout.
#[derive(Clone, Copy, Debug, PartialEq, Eq, Structural)]
pub enum NamedKey {
    Alt,
    Backspace,
    CapsLock,
    Control,
    Delete,
    DownArrow,
    End,
    Escape,
    F1,
    F2,
    F3,
    F4,
    F5,
    F6,
    F7,
    F8,
    F9,
    F10,
    F11,
    F12,
    Home,
    LeftArrow,
    Meta,
    PageDown,
    PageUp,
    Return,
    RightArrow,
    Shift,
    Space,
    Tab,
    UpArrow,
}

/// Wire code of a button.
pub open spec fn button_code(k: MouseButton) -> u8 {
    match k {
        MouseButton::Left => 0u8,
        MouseButton::Middle => 1u8,
        MouseButton::Right => 2u8,
        MouseButton::Back => 3u8,
        MouseButton::Forward => 4u8,
        MouseButton::ScrollUp => 5u8,
        MouseButton::ScrollDown => 6u8,
        MouseButton::ScrollLeft => 7u8,
        MouseButton::ScrollRight => 8u8,
    }
}

/// Wire code of a button.
pub fn encode_button(k: MouseButton) -> (r: u8)
    ensures
        r == button_code(k),
{
    match k {
        MouseButton::Left => 0,
        MouseButton::Middle => 1,
        MouseButton::Right => 2,
        MouseButton::Back => 3,
        MouseButton::Forward => 4,
        MouseButton::ScrollUp => 5,
        MouseButton::ScrollDown => 6,
        MouseButton::ScrollLeft => 7,
        MouseButton::ScrollRight => 8,
    }
}

/// The button with wire code `b`, if any.
pub fn decode_button(b: u8) -> (r: Option<MouseButton>)
    ensures
        r matches Some(k) ==> button_code(k) == b,
        r is None <==> b >= 9,
        forall|k: MouseButton| button_code(k) == b ==> r == Some(k),
{
    match b {
        0 => Some(MouseButton::Left),
        1 => Some(MouseButton::Middle),
        2 => Some(MouseButton::Right),
        3 => Some(MouseButton::Back),
        4 => Some(MouseButton::Forward),
        5 => Some(MouseButton::ScrollUp),
        6 => Some(MouseButton::ScrollDown),
        7 => Some(MouseButton::ScrollLeft),
        8 => Some(MouseButton::ScrollRight),
        _ => None,
    }
}

/// Wire code of a named key.
pub open spec fn named_key_code(k: NamedKey) -> u8 {
    match k {
        NamedKey::Alt => 0u8,
        NamedKey::Backspace => 1u8,
        NamedKey::CapsLock => 2u8,
        NamedKey::Control => 3u8,
        NamedKey::Delete => 4u8,
        NamedKey::DownArrow => 5u8,
        NamedKey::End => 6u8,
        NamedKey::Escape => 7u8,
        NamedKey::F1 => 8u8,
        NamedKey::F2 => 9u8,
        NamedKey::F3 => 10u8,
        NamedKey::F4 => 11u8,
        NamedKey::F5 => 12u8,
        NamedKey::F6 => 13u8,
        NamedKey::F7 => 14u8,
        NamedKey::F8 => 15u8,
        NamedKey::F9 => 16u8,
        NamedKey::F10 => 17u8,
        NamedKey::F11 => 18u8,
        NamedKey::F12 => 19u8,
        NamedKey::Home => 20u8,
        NamedKey::LeftArrow => 21u8,
        NamedKey::Meta => 22u8,
        NamedKey::PageDown => 23u8,
        NamedKey::PageUp => 24u8,
        NamedKey::Return => 25u8,
        NamedKey::RightArrow => 26u8,
        NamedKey::Shift => 27u8,
        NamedKey::Space => 28u8,
        NamedKey::Tab => 29u8,
        NamedKey::UpArrow => 30u8,
    }
}

/// Wire code of a named key.
pub fn encode_named_key(k: NamedKey) -> (r: u8)
    ensures
        r == named_key_code(k),
{
    match k {
        NamedKey::Alt => 0,
        NamedKey::Backspace => 1,
        NamedKey::CapsLock => 2,
        NamedKey::Control => 3,
        NamedKey::Delete => 4,
        NamedKey::DownArrow => 5,
        NamedKey::End => 6,
        NamedKey::Escape => 7,
        NamedKey::F1 => 8,
        NamedKey::F2 => 9,
        NamedKey::F3 => 10,
        NamedKey::F4 => 11,
        NamedKey::F5 => 12,
        NamedKey::F6 => 13,
        NamedKey::F7 => 14,
        NamedKey::F8 => 15,
        NamedKey::F9 => 16,
        NamedKey::F10 => 17,
        NamedKey::F11 => 18,
        NamedKey::F12 => 19,
        NamedKey::Home => 20,
        NamedKey::LeftArrow => 21,
        NamedKey::Meta => 22,
        NamedKey::PageDown => 23,
        NamedKey::PageUp => 24,
        NamedKey::Return => 25,
        NamedKey::RightArrow => 26,
        NamedKey::Shift => 27,
        NamedKey::Space => 28,
        NamedKey::Tab => 29,
        NamedKey::UpArrow => 30,
    }
}

/// The named key with wire code `b`, if any.
pub fn decode_named_key(b: u8) -> (r: Option<NamedKey>)
    ensures
        r matches Some(k) ==> named_key_code(k) == b,
        r is None <==> b >= 31,
        forall|k: NamedKey| named_key_code(k) == b ==> r == Some(k),
{
    match b {
        0 => Some(NamedKey::Alt),
        1 => Some(NamedKey::Backspace),
        2 => Some(NamedKey::CapsLock),
        3 => Some(NamedKey::Control),
        4 => Some(NamedKey::Delete),
        5 => Some(NamedKey::DownArrow),
        6 => Some(NamedKey::End),
        7 => Some(NamedKey::Escape),
        8 => Some(NamedKey::F1),
        9 => Some(NamedKey::F2),
        10 => Some(NamedKey::F3),
        11 => Some(NamedKey::F4),
        12 => Some(NamedKey::F5),
        13 => Some(NamedKey::F6),
        14 => Some(NamedKey::F7),
        15 => Some(NamedKey::F8),
        16 => Some(NamedKey::F9),
        17 => Some(NamedKey::F10),
        18 => Some(NamedKey::F11),
        19 => Some(NamedKey::F12),
        20 => Some(NamedKey::Home),
        21 => Some(NamedKey::LeftArrow),
        22 => Some(NamedKey::Meta),
        23 => Some(NamedKey::PageDown),
        24 => Some(NamedKey::PageUp),
        25 => Some(NamedKey::Return),
        26 => Some(NamedKey::RightArrow),
        27 => Some(NamedKey::Shift),
        28 => Some(NamedKey::Space),
        29 => Some(NamedKey::Tab),
        30 => Some(NamedKey::UpArrow),
        _ => None,
    }
}


/// A key: a character of the keyboard layout, a raw platform key code, or
/// a named key.
#[derive(Clone, Copy, Debug, PartialEq, Eq, Structural)]
pub enum Key {
    Layout(char),
    Raw(u16),
    Named(NamedKey),
}

/// An input event relayed from the controller to the controlled host.
#[derive(Clone, Copy, Debug, PartialEq, Eq, Structural)]
pub enum InputEvent {
    MouseMove { x: i32, y: i32 },
    MouseClick { button: MouseButton },
    KeyPress { key: Key },
}

/// A control message that is not the encoding of any input event.
#[derive(Clone, Copy, Debug, PartialEq, Eq, Structural)]
pub struct MalformedEvent;

/// Bytes of a key: a kind byte, then the character as a little-endian
/// `u32`, the raw code as a little-endian `u16`, or the key's code.
pub open spec fn key_bytes(k: Key) -> Seq<u8> {
    match k {
        Key::Layout(c) => seq![0u8] + spec_u32_to_le_bytes(c as u32),
        Key::Raw(r) => seq![1u8] + spec_u16_to_le_bytes(r),
        Key::Named(n) => seq![2u8, named_key_code(n)],
    }
}

/// The control-channel message of an event: a kind byte, then the
/// coordinates as little-endian two's-complement `u32`s, the button code,
/// or the key.
pub open spec fn event_bytes(e: InputEvent) -> Seq<u8> {
    match e {
        InputEvent::MouseMove { x, y } => seq![0u8] + spec_u32_to_le_bytes(x as u32)
            + spec_u32_to_le_bytes(y as u32),
        InputEvent::MouseClick { button } => seq![1u8, button_code(button)],
        InputEvent::KeyPress { key } => seq![2u8] + key_bytes(key),
    }
}

proof fn lemma_i32_through_u32(x: i32)
    ensures
        (x as u32) as i32 == x,
{
    assert((x as u32) as i32 == x) by (bit_vector);
}

/// The layout of every event message, field by field.
proof fn lemma_event_bytes_layout()
    ensures
        forall|e: InputEvent| #![trigger event_bytes(e)] match e {
            InputEvent::MouseMove { x, y } => {
                &&& event_bytes(e).len() == 9 && event_bytes(e)[0] == 0
                &&& event_bytes(e).subrange(1, 5) == spec_u32_to_le_bytes(x as u32)
                &&& event_bytes(e).subrange(5, 9) == spec_u32_to_le_bytes(y as u32)
            },
            InputEvent::MouseClick { button } => {
                &&& event_bytes(e).len() == 2 && event_bytes(e)[0] == 1
                &&& event_bytes(e)[1] == button_code(button)
            },
            InputEvent::KeyPress { key: Key::Layout(c) } => {
                &&& event_bytes(e).len() == 6 && event_bytes(e)[0] == 2 && event_bytes(e)[1] == 0
                &&& event_bytes(e).subrange(2, 6) == spec_u32_to_le_bytes(c as u32)
            },
            InputEvent::KeyPress { key: Key::Raw(r) } => {
                &&& event_bytes(e).len() == 4 && event_bytes(e)[0] == 2 && event_bytes(e)[1] == 1
                &&& event_bytes(e).subrange(2, 4) == spec_u16_to_le_bytes(r)
            },
            InputEvent::KeyPress { key: Key::Named(n) } => {
                &&& event_bytes(e).len() == 3 && event_bytes(e)[0] == 2 && event_bytes(e)[1] == 2
                &&& event_bytes(e)[2] == named_key_code(n)
            },
        },
{
    lemma_auto_spec_u32_to_from_le_bytes();
    lemma_auto_spec_u16_to_from_le_bytes();
    assert forall|e: InputEvent| #![trigger event_bytes(e)] match e {
        InputEvent::MouseMove { x, y } => {
            &&& event_bytes(e).len() == 9 && event_bytes(e)[0] == 0
            &&& event_bytes(e).subrange(1, 5) == spec_u32_to_le_bytes(x as u32)
            &&& event_bytes(e).subrange(5, 9) == spec_u32_to_le_bytes(y as u32)
        },
        InputEvent::MouseClick { button } => {
            &&& event_bytes(e).len() == 2 && event_bytes(e)[0] == 1
            &&& event_bytes(e)[1] == button_code(button)
        },
        InputEvent::KeyPress { key: Key::Layout(c) } => {
            &&& event_bytes(e).len() == 6 && event_bytes(e)[0] == 2 && event_bytes(e)[1] == 0
            &&& event_bytes(e).subrange(2, 6) == spec_u32_to_le_bytes(c as u32)
        },
        InputEvent::KeyPress { key: Key::Raw(r) } => {
            &&& event_bytes(e).len() == 4 && event_bytes(e)[0] == 2 && event_bytes(e)[1] == 1
            &&& event_bytes(e).subrange(2, 4) == spec_u16_to_le_bytes(r)
        },
        InputEvent::KeyPress { key: Key::Named(n) } => {
            &&& event_bytes(e).len() == 3 && event_bytes(e)[0] == 2 && event_bytes(e)[1] == 2
            &&& event_bytes(e)[2] == named_key_code(n)
        },
    } by {
        match e {
            InputEvent::MouseMove { x, y } => {
                let a = spec_u32_to_le_bytes(x as u32);
                let b = spec_u32_to_le_bytes(y as u32);
                assert(event_bytes(e).subrange(1, 5) =~= a);
                assert(event_bytes(e).subrange(5, 9) =~= b);
            },
            InputEvent::KeyPress { key: Key::Layout(c) } => {
                assert(event_bytes(e).subrange(2, 6) =~= spec_u32_to_le_bytes(c as u32));
            },
            InputEvent::KeyPress { key: Key::Raw(r) } => {
                assert(event_bytes(e).subrange(2, 4) =~= spec_u16_to_le_bytes(r));
            },
            _ => {},
        }
    }
}

/// Relies on std's `char::from_u32`: it returns the character with that
/// code exactly when the value is a Unicode scalar value, `None` otherwise.
#[verifier::external_body]
fn char_from_u32(u: u32) -> (r: Option<char>)
    ensures
        r is Some <==> is_scalar(u),
        r matches Some(c) ==> c as u32 == u,
{
    char::from_u32(u)
}

/// Encodes an event as one control-channel message.
pub fn encode_event(e: InputEvent) -> (r: Vec<u8>)
    ensures
        r@ == event_bytes(e),
{
    let mut out: Vec<u8> = Vec::new();
    match e {
        InputEvent::MouseMove { x, y } => {
            out.push(0u8);
            let mut bx = u32_to_le_bytes(x as u32);
            let mut by = u32_to_le_bytes(y as u32);
            out.append(&mut bx);
            out.append(&mut by);
        },
        InputEvent::MouseClick { button } => {
            out.push(1u8);
            out.push(encode_button(button));
        },
        InputEvent::KeyPress { key } => {
            out.push(2u8);
            match key {
                Key::Layout(c) => {
                    out.push(0u8);
                    let mut bc = u32_to_le_bytes(c as u32);
                    out.append(&mut bc);
                },
                Key::Raw(code) => {
                    out.push(1u8);
                    let mut bc = u16_to_le_bytes(code);
                    out.append(&mut bc);
                },
                Key::Named(n) => {
                    out.push(2u8);
                    out.push(encode_named_key(n));
                },
            }
        },
    }
    assert(out@ =~= event_bytes(e));
    out
}

/// Decodes one control-channel message. It succeeds exactly on the
/// encodings of events, and gives back the event encoded.
pub fn decode_event(b: &Vec<u8>) -> (r: Result<InputEvent, MalformedEvent>)
    ensures
        r matches Ok(e) ==> event_bytes(e) == b@,
        forall|e: InputEvent| #[trigger] event_bytes(e) == b@ ==> r == Ok::<InputEvent, MalformedEvent>(e),
{
    proof {
        lemma_event_bytes_layout();
        lemma_auto_spec_u32_to_from_le_bytes();
        lemma_auto_spec_u16_to_from_le_bytes();
    }
    let n = b.len();
    if n == 0 {
        return Err(MalformedEvent);
    }
    let tag = b[0];
    if tag == 0 {
        if n != 9 {
            return Err(MalformedEvent);
        }
        let ux = u32_from_le_bytes(slice_subrange(b.as_slice(), 1, 5));
        let uy = u32_from_le_bytes(slice_subrange(b.as_slice(), 5, 9));
        let e = InputEvent::MouseMove { x: ux as i32, y: uy as i32 };
        proof {
            assert(spec_u32_to_le_bytes(ux) == b@.subrange(1, 5));
            assert(spec_u32_to_le_bytes(uy) == b@.subrange(5, 9));
            assert((ux as i32) as u32 == ux) by (bit_vector);
            assert((uy as i32) as u32 == uy) by (bit_vector);
            assert(event_bytes(e) =~= b@) by {
                assert(event_bytes(e).subrange(1, 5) == b@.subrange(1, 5));
                assert(event_bytes(e).subrange(5, 9) == b@.subrange(5, 9));
                assert forall|i: int| 0 <= i < 9 implies event_bytes(e)[i] == b@[i] by {
                    if 1 <= i < 5 {
                        assert(event_bytes(e)[i] == event_bytes(e).subrange(1, 5)[i - 1]);
                        assert(b@[i] == b@.subrange(1, 5)[i - 1]);
                    } else if 5 <= i < 9 {
                        assert(event_bytes(e)[i] == event_bytes(e).subrange(5, 9)[i - 5]);
                        assert(b@[i] == b@.subrange(5, 9)[i - 5]);
                    }
                }
            }
            assert forall|e2: InputEvent| #[trigger] event_bytes(e2) == b@ implies e2 == e by {
                if let InputEvent::MouseMove { x, y } = e2 {
                    lemma_i32_through_u32(x);
                    lemma_i32_through_u32(y);
                }
            }
        }
        return Ok(e);
    } else if tag == 1 {
        if n != 2 {
            return Err(MalformedEvent);
        }
        return match decode_button(b[1]) {
            Some(button) => Ok(InputEvent::MouseClick { button }),
            None => Err(MalformedEvent),
        };
    } else if tag == 2 {
        if n < 2 {
            return Err(MalformedEvent);
        }
        let kind = b[1];
        if kind == 0 {
            if n != 6 {
                return Err(MalformedEvent);
            }
            let u = u32_from_le_bytes(slice_subrange(b.as_slice(), 2, 6));
            match char_from_u32(u) {
                Some(c) => {
                    let e = InputEvent::KeyPress { key: Key::Layout(c) };
                    proof {
                        assert(spec_u32_to_le_bytes(u) == b@.subrange(2, 6));
                        assert(event_bytes(e) =~= b@) by {
                            assert forall|i: int| 0 <= i < 6 implies event_bytes(e)[i] == b@[i] by {
                                if 2 <= i {
                                    assert(event_bytes(e)[i] == event_bytes(e).subrange(2, 6)[i - 2]);
                                    assert(b@[i] == b@.subrange(2, 6)[i - 2]);
                                }
                            }
                        }
                        assert forall|e2: InputEvent| #[trigger] event_bytes(e2) == b@ implies e2 == e by {
                            if let InputEvent::KeyPress { key: Key::Layout(c2) } = e2 {
                                char_u32_cast(c2, c2 as u32);
                                char_u32_cast(c, c as u32);
                            }
                        }
                    }
                    return Ok(e);
                },
                None => {
                    proof {
                        assert forall|e2: InputEvent| #[trigger] event_bytes(e2) == b@ implies false by {
                            if let InputEvent::KeyPress { key: Key::Layout(c2) } = e2 {
                                char_is_scalar(c2);
                            }
                        }
                    }
                    return Err(MalformedEvent);
                },
            }
        } else if kind == 1 {
            if n != 4 {
                return Err(MalformedEvent);
            }
            let code = u16_from_le_bytes(slice_subrange(b.as_slice(), 2, 4));
            let e = InputEvent::KeyPress { key: Key::Raw(code) };
            proof {
                assert(spec_u16_to_le_bytes(code) == b@.subrange(2, 4));
                assert(event_bytes(e) =~= b@) by {
                    assert forall|i: int| 0 <= i < 4 implies event_bytes(e)[i] == b@[i] by {
                        if 2 <= i {
                            assert(event_bytes(e)[i] == event_bytes(e).subrange(2, 4)[i - 2]);
                            assert(b@[i] == b@.subrange(2, 4)[i - 2]);
                        }
                    }
                }
            }
            return Ok(e);
        } else if kind == 2 {
            if n != 3 {
                return Err(MalformedEvent);
            }
            return match decode_named_key(b[2]) {
                Some(k) => {
                    let e = InputEvent::KeyPress { key: Key::Named(k) };
                    assert(event_bytes(e) =~= b@);
                    Ok(e)
                },
                None => Err(MalformedEvent),
            };
        }
        return Err(MalformedEvent);
    }
    Err(MalformedEvent)
}

/// Messages determine events: two events with the same message are equal.
/// With `decode_event` this gives the round trip, decoding an encoded event
/// yields it back.
pub proof fn lemma_event_bytes_injective(e1: InputEvent, e2: InputEvent)
    requires
        event_bytes(e1) == event_bytes(e2),
    ensures
        e1 == e2,
{
    lemma_event_bytes_layout();
    lemma_auto_spec_u32_to_from_le_bytes();
    lemma_auto_spec_u16_to_from_le_bytes();
    let b = event_bytes(e1);
    match e1 {
        InputEvent::MouseMove { x, y } => {
            if let InputEvent::MouseMove { x: x2, y: y2 } = e2 {
                lemma_i32_through_u32(x);
                lemma_i32_through_u32(y);
                lemma_i32_through_u32(x2);
                lemma_i32_through_u32(y2);
            }
        },
        InputEvent::KeyPress { key: Key::Layout(c) } => {
            if let InputEvent::KeyPress { key: Key::Layout(c2) } = e2 {
                char_u32_cast(c, c as u32);
                char_u32_cast(c2, c2 as u32);
            }
        },
        _ => {},
    }
}

/// A run of messages, delivered in order, decodes to the events sent, in
/// the order they were sent: the message sequence determines the event
/// sequence.
pub proof fn lemma_event_order_recovered(sent: Seq<InputEvent>, received: Seq<InputEvent>)
    requires
        sent.map_values(|e: InputEvent| event_bytes(e)) == received.map_values(|e: InputEvent| event_bytes(e)),
    ensures
        sent == received,
{
    assert(sent.len() == received.map_values(|e: InputEvent| event_bytes(e)).len());
    assert forall|i: int| 0 <= i < sent.len() implies sent[i] == received[i] by {
        assert(sent.map_values(|e: InputEvent| event_bytes(e))[i] == event_bytes(sent[i]));
        assert(received.map_values(|e: InputEvent| event_bytes(e))[i] == event_bytes(received[i]));
        lemma_event_bytes_injective(sent[i], received[i]);
    }
    assert(sent =~= received);
}

/// What the dispatcher knows: events received and not yet injected, in
/// arrival order, the pointer position its moves put the host pointer
/// at, and the injections that failed.
pub struct DispatcherModel {
    pub pending: Seq<InputEvent>,
    pub pointer: Option<(i32, i32)>,
    pub failures: u64,
}

/// The dispatcher after the event `e` arrived.
pub open spec fn received(m: DispatcherModel, e: InputEvent) -> DispatcherModel {
    DispatcherModel { pending: m.pending.push(e), ..m }
}

/// The dispatcher after the oldest pending event was handed out for
/// injection, and that event.
pub open spec fn dispatched(m: DispatcherModel) -> Option<(InputEvent, DispatcherModel)> {
    if m.pending.len() == 0 {
        None
    } else {
        let e = m.pending[0];
        Some((e, DispatcherModel {
            pending: m.pending.drop_first(),
            pointer: match e {
                InputEvent::MouseMove { x, y } => Some((x, y)),
                _ => m.pointer,
            },
            ..m
        }))
    }
}

/// The dispatcher after a run of events arrived.
pub open spec fn received_all(m: DispatcherModel, es: Seq<InputEvent>) -> DispatcherModel
    decreases es.len(),
{
    if es.len() == 0 {
        m
    } else {
        received(received_all(m, es.drop_last()), es.last())
    }
}

/// Turns control-channel messages into injections on the controlled host,
/// one at a time and in arrival order. A failed injection is counted and
/// the next event goes on.
pub struct InputDispatcher {
    pending: Vec<InputEvent>,
    pointer: Option<(i32, i32)>,
    failures: u64,
}

impl View for InputDispatcher {
    type V = DispatcherModel;

    closed spec fn view(&self) -> DispatcherModel {
        DispatcherModel { pending: self.pending@, pointer: self.pointer, failures: self.failures }
    }
}

impl InputDispatcher {
    pub fn new() -> (r: InputDispatcher)
        ensures
            r@.pending.len() == 0,
            r@.pointer is None,
            r@.failures == 0,
    {
        InputDispatcher { pending: Vec::new(), pointer: None, failures: 0 }
    }

    /// Where the last injected move put the pointer.
    pub fn pointer(&self) -> (r: Option<(i32, i32)>)
        ensures
            r == self@.pointer,
    {
        self.pointer
    }

    pub fn pending(&self) -> (r: usize)
        ensures
            r == self@.pending.len(),
    {
        self.pending.len()
    }

    pub fn failures(&self) -> (r: u64)
        ensures
            r == self@.failures,
    {
        self.failures
    }

    /// Takes one control-channel message; a malformed one is refused and
    /// changes nothing.
    pub fn receive(&mut self, message: &Vec<u8>) -> (r: Result<(), MalformedEvent>)
        ensures
            r is Ok <==> exists|e: InputEvent| event_bytes(e) == message@,
            forall|e: InputEvent| #[trigger] event_bytes(e) == message@ ==> final(self)@ == received(old(self)@, e),
            r is Err ==> final(self)@ == old(self)@,
    {
        match decode_event(message) {
            Ok(e) => {
                self.pending.push(e);
                Ok(())
            },
            Err(err) => Err(err),
        }
    }

    /// Hands out the oldest pending event for injection.
    pub fn next(&mut self) -> (r: Option<InputEvent>)
        ensures
            match dispatched(old(self)@) {
                None => r is None && final(self)@ == old(self)@,
                Some((e, m)) => r == Some(e) && final(self)@ == m,
            },
    {
        if self.pending.len() == 0 {
            return None;
        }
        let e = self.pending.remove(0);
        if let InputEvent::MouseMove { x, y } = e {
            self.pointer = Some((x, y));
        }
        Some(e)
    }

    /// Records that an injection failed; the session and the pending
    /// events are untouched.
    pub fn injection_failed(&mut self)
        ensures
            final(self)@ == (DispatcherModel {
                failures: if old(self)@.failures < u64::MAX { (old(self)@.failures + 1) as u64 } else { old(self)@.failures },
                ..old(self)@
            }),
    {
        if self.failures < u64::MAX {
            self.failures = self.failures + 1;
        }
    }
}

/// A move relayed to the controlled host puts its pointer where it was
/// sent: once the events before it are injected, the move is handed out
/// and the pointer is at `(x, y)`.
pub proof fn lemma_move_sets_pointer(m: DispatcherModel, x: i32, y: i32)
    requires
        m.pending.len() == 0,
    ensures
        ({
            let m1 = received(m, InputEvent::MouseMove { x, y });
            &&& dispatched(m1) matches Some((e, m2))
            &&& e == InputEvent::MouseMove { x, y }
            &&& m2.pointer == Some((x, y))
        }),
{
}

/// Events leave the dispatcher in the order they arrived.
pub proof fn lemma_dispatch_keeps_arrival_order(m: DispatcherModel, es: Seq<InputEvent>)
    ensures
        received_all(m, es).pending == m.pending + es,
    decreases es.len(),
{
    if es.len() > 0 {
        lemma_dispatch_keeps_arrival_order(m, es.drop_last());
        assert(m.pending + es =~= (m.pending + es.drop_last()).push(es.last()));
    } else {
        assert(m.pending + es =~= m.pending);
    }
}

} // verus!
