use remote_core::input::{
    decode_button, decode_event, decode_named_key, encode_button, encode_event, encode_named_key, InputDispatcher,
    InputEvent, Key, MalformedEvent, MouseButton, NamedKey,
};

#[test]
fn mouse_move_wire_format() {
    let bytes = encode_event(InputEvent::MouseMove { x: 1, y: -1 });
    assert_eq!(bytes, vec![0, 1, 0, 0, 0, 255, 255, 255, 255]);
    assert_eq!(decode_event(&bytes), Ok(InputEvent::MouseMove { x: 1, y: -1 }));
}

#[test]
fn events_round_trip() {
    let events = vec![
        InputEvent::MouseMove { x: i32::MIN, y: i32::MAX },
        InputEvent::MouseMove { x: 0, y: 0 },
        InputEvent::MouseClick { button: MouseButton::Right },
        InputEvent::MouseClick { button: MouseButton::ScrollRight },
        InputEvent::KeyPress { key: Key::Layout('a') },
        InputEvent::KeyPress { key: Key::Layout('\u{1F600}') },
        InputEvent::KeyPress { key: Key::Raw(0xBEEF) },
        InputEvent::KeyPress { key: Key::Named(NamedKey::Return) },
        InputEvent::KeyPress { key: Key::Named(NamedKey::UpArrow) },
    ];
    for e in events {
        assert_eq!(decode_event(&encode_event(e)), Ok(e));
    }
}

#[test]
fn key_and_button_formats() {
    assert_eq!(encode_event(InputEvent::MouseClick { button: MouseButton::Middle }), vec![1, 1]);
    assert_eq!(encode_event(InputEvent::KeyPress { key: Key::Layout('A') }), vec![2, 0, 65, 0, 0, 0]);
    assert_eq!(encode_event(InputEvent::KeyPress { key: Key::Raw(0x0102) }), vec![2, 1, 2, 1]);
    assert_eq!(encode_event(InputEvent::KeyPress { key: Key::Named(NamedKey::Alt) }), vec![2, 2, 0]);
    assert_eq!(encode_button(MouseButton::ScrollRight), 8);
    assert_eq!(decode_button(9), None);
    assert_eq!(decode_button(3), Some(MouseButton::Back));
    assert_eq!(encode_named_key(NamedKey::UpArrow), 30);
    assert_eq!(decode_named_key(31), None);
    assert_eq!(decode_named_key(8), Some(NamedKey::F1));
}

#[test]
fn malformed_messages_are_refused() {
    let bad: Vec<Vec<u8>> = vec![
        vec![],
        vec![3],
        vec![0, 1, 2],
        vec![1, 9],
        vec![1, 0, 0],
        vec![2],
        vec![2, 3, 0],
        vec![2, 0, 0, 0xD8, 0, 0],
        vec![2, 0, 0, 0, 0x11, 0],
        vec![2, 2, 40],
        vec![2, 1, 0],
    ];
    for b in bad {
        assert_eq!(decode_event(&b), Err(MalformedEvent));
    }
}

#[test]
fn relayed_move_sets_pointer_and_order_is_kept() {
    let mut d = InputDispatcher::new();
    assert_eq!(d.pointer(), None);
    let sent = vec![
        InputEvent::MouseMove { x: 100, y: 200 },
        InputEvent::KeyPress { key: Key::Layout('z') },
        InputEvent::MouseMove { x: -5, y: 7 },
    ];
    for e in &sent {
        d.receive(&encode_event(*e)).unwrap();
    }
    assert_eq!(d.receive(&vec![7]), Err(MalformedEvent));
    assert_eq!(d.pending(), 3);
    let mut got = Vec::new();
    while let Some(e) = d.next() {
        if got.is_empty() {
            assert_eq!(d.pointer(), Some((100, 200)));
        }
        got.push(e);
    }
    assert_eq!(got, sent);
    assert_eq!(d.pointer(), Some((-5, 7)));
}

#[test]
fn failed_injection_does_not_block() {
    let mut d = InputDispatcher::new();
    d.receive(&encode_event(InputEvent::MouseClick { button: MouseButton::Left })).unwrap();
    d.receive(&encode_event(InputEvent::MouseMove { x: 3, y: 4 })).unwrap();
    assert!(d.next().is_some());
    d.injection_failed();
    assert_eq!(d.failures(), 1);
    assert_eq!(d.next(), Some(InputEvent::MouseMove { x: 3, y: 4 }));
    assert_eq!(d.pointer(), Some((3, 4)));
}
