use vstd::prelude::*;

verus! {

/// Time between two captures, and the presentation duration of a frame.
pub const FRAME_INTERVAL_MS: u64 = 16;

/// Failures of the media path.
#[derive(Clone, Copy, Debug, PartialEq, Eq, Structural)]
pub enum PipelineError {
    EncoderUnavailable,
    CaptureError,
    TransmitError,
}

/// Number of encoders in the preference list.
pub const ENCODER_COUNT: usize = 3;

/// The encoders tried, most preferred first: two hardware ones, then a
/// software fallback.
pub open spec fn encoder_name_spec(i: int) -> Seq<char> {
    if i == 0 {
        "hevc_nvenc"@
    } else if i == 1 {
        "hevc_vaapi"@
    } else {
        "libx265"@
    }
}

/// Name of the `i`-th encoder in the preference list.
pub fn encoder_name(i: usize) -> (r: &'static str)
    requires
        i < ENCODER_COUNT,
    ensures
        r@ == encoder_name_spec(i as int),
{
    if i == 0 {
        "hevc_nvenc"
    } else if i == 1 {
        "hevc_vaapi"
    } else {
        "libx265"
    }
}

/// Picks the first encoder of the preference list that initialised;
/// `available[i]` tells whether the `i`-th one did.
pub fn select_encoder(available: &Vec<bool>) -> (r: Result<usize, PipelineError>)
    ensures
        r matches Ok(i) ==> i < available@.len() && i < ENCODER_COUNT && available@[i as int]
            && forall|j: int| 0 <= j < i ==> !available@[j],
        r is Err <==> forall|j: int| 0 <= j < available@.len() && j < ENCODER_COUNT ==> !available@[j],
        r matches Err(e) ==> e == PipelineError::EncoderUnavailable,
{
    let mut i: usize = 0;
    while i < available.len() && i < ENCODER_COUNT
        invariant
            i <= available@.len(),
            i <= ENCODER_COUNT,
            forall|j: int| 0 <= j < i ==> !available@[j],
        decreases ENCODER_COUNT - i,
    {
        if available[i] {
            return Ok(i);
        }
        i = i + 1;
    }
    Err(PipelineError::EncoderUnavailable)
}

/// A captured frame with its capture sequence number.
pub struct Frame {
    pub seq: u64,
    pub data: Vec<u8>,
}

/// What became of a frame handed to the queue.
#[derive(Clone, Copy, Debug, PartialEq, Eq, Structural)]
pub enum Handoff {
    Queued(u64),
    Dropped,
}

/// What the hand-off queue holds: (sequence number, bytes) of each
/// waiting frame, in capture order.
pub struct FrameQueueModel {
    pub capacity: nat,
    pub frames: Seq<(u64, Seq<u8>)>,
    pub next_seq: u64,
    pub dropped: u64,
    pub floor: u64,
}

/// Frames wait in capture order; every waiting frame was captured and not
/// yet handed on (`floor` is one past the last frame handed on).
pub open spec fn queue_wf(m: FrameQueueModel) -> bool {
    &&& m.capacity > 0
    &&& m.frames.len() <= m.capacity
    &&& m.floor <= m.next_seq
    &&& forall|i: int, j: int| 0 <= i < j < m.frames.len() ==> (#[trigger] m.frames[i]).0 < (#[trigger] m.frames[j]).0
    &&& forall|i: int| 0 <= i < m.frames.len() ==> m.floor <= (#[trigger] m.frames[i]).0 < m.next_seq
}

/// The queue after a capture of `data`: appended if there is room (and a
/// sequence number left), dropped otherwise. Capture never waits.
pub open spec fn offered(m: FrameQueueModel, data: Seq<u8>) -> FrameQueueModel {
    if m.frames.len() < m.capacity && m.next_seq < u64::MAX {
        FrameQueueModel {
            frames: m.frames.push((m.next_seq, data)),
            next_seq: (m.next_seq + 1) as u64,
            ..m
        }
    } else {
        FrameQueueModel {
            next_seq: if m.next_seq < u64::MAX { (m.next_seq + 1) as u64 } else { m.next_seq },
            dropped: if m.dropped < u64::MAX { (m.dropped + 1) as u64 } else { m.dropped },
            ..m
        }
    }
}

/// The queue after the oldest waiting frame was handed on, and that frame.
pub open spec fn taken(m: FrameQueueModel) -> Option<((u64, Seq<u8>), FrameQueueModel)> {
    if m.frames.len() == 0 {
        None
    } else {
        Some((m.frames[0], FrameQueueModel {
            frames: m.frames.drop_first(),
            floor: (m.frames[0].0 + 1) as u64,
            ..m
        }))
    }
}

/// The queue after a run of captures.
pub open spec fn offered_all(m: FrameQueueModel, ds: Seq<Seq<u8>>) -> FrameQueueModel
    decreases ds.len(),
{
    if ds.len() == 0 {
        m
    } else {
        offered(offered_all(m, ds.drop_last()), ds.last())
    }
}

/// The bounded hand-off between the capture loop and the encode loop.
/// When it is full the newest frame is dropped, so capture never blocks.
pub struct FrameQueue {
    capacity: usize,
    frames: Vec<Frame>,
    next_seq: u64,
    dropped: u64,
    floor: u64,
}

impl View for FrameQueue {
    type V = FrameQueueModel;

    closed spec fn view(&self) -> FrameQueueModel {
        FrameQueueModel {
            capacity: self.capacity as nat,
            frames: self.frames@.map_values(|f: Frame| (f.seq, f.data@)),
            next_seq: self.next_seq,
            dropped: self.dropped,
            floor: self.floor,
        }
    }
}

impl FrameQueue {
    /// An empty queue holding at most `capacity` frames.
    pub fn new(capacity: usize) -> (r: FrameQueue)
        requires
            capacity > 0,
        ensures
            r@.capacity == capacity,
            r@.frames.len() == 0,
            r@.next_seq == 0 && r@.dropped == 0 && r@.floor == 0,
            queue_wf(r@),
    {
        let r = FrameQueue { capacity, frames: Vec::new(), next_seq: 0, dropped: 0, floor: 0 };
        assert(r@.frames =~= Seq::<(u64, Seq<u8>)>::empty());
        r
    }

    pub fn len(&self) -> (r: usize)
        ensures
            r == self@.frames.len(),
    {
        self.frames.len()
    }

    /// Frames dropped because the queue was full.
    pub fn dropped(&self) -> (r: u64)
        ensures
            r == self@.dropped,
    {
        self.dropped
    }

    /// Hands a captured frame to the queue without waiting.
    pub fn offer(&mut self, data: Vec<u8>) -> (r: Handoff)
        requires
            queue_wf(old(self)@),
        ensures
            final(self)@ == offered(old(self)@, data@),
            queue_wf(final(self)@),
            r == (if old(self)@.frames.len() < old(self)@.capacity && old(self)@.next_seq < u64::MAX {
                Handoff::Queued(old(self)@.next_seq)
            } else {
                Handoff::Dropped
            }),
    {
        let ghost m = self@;
        if self.frames.len() < self.capacity && self.next_seq < u64::MAX {
            let seq = self.next_seq;
            let ghost d = data@;
            self.frames.push(Frame { seq, data });
            self.next_seq = seq + 1;
            assert(self@.frames =~= m.frames.push((seq, d)));
            Handoff::Queued(seq)
        } else {
            if self.next_seq < u64::MAX {
                self.next_seq = self.next_seq + 1;
            }
            if self.dropped < u64::MAX {
                self.dropped = self.dropped + 1;
            }
            assert(self@.frames =~= m.frames);
            Handoff::Dropped
        }
    }

    /// Takes the oldest waiting frame, if any.
    pub fn take(&mut self) -> (r: Option<Frame>)
        requires
            queue_wf(old(self)@),
        ensures
            queue_wf(final(self)@),
            match taken(old(self)@) {
                None => r is None && final(self)@ == old(self)@,
                Some((f, m)) => r matches Some(fr) && (fr.seq, fr.data@) == f && final(self)@ == m,
            },
    {
        if self.frames.len() == 0 {
            return None;
        }
        let ghost m = self@;
        let f = self.frames.remove(0);
        self.floor = f.seq + 1;
        assert(self@.frames =~= m.frames.drop_first());
        Some(f)
    }
}

/// Frames leave the queue in capture order: after a frame is handed on,
/// whatever further captures come, the next frame handed on was captured
/// later. Under saturation frames are dropped, never reordered.
pub proof fn lemma_frames_leave_in_capture_order(m: FrameQueueModel, ds: Seq<Seq<u8>>)
    requires
        queue_wf(m),
        taken(m) is Some,
    ensures
        ({
            let (f1, m1) = taken(m)->0;
            let m2 = offered_all(m1, ds);
            &&& queue_wf(m1)
            &&& queue_wf(m2)
            &&& taken(m2) matches Some((f2, _)) ==> f1.0 < f2.0
        }),
{
    let (f1, m1) = taken(m)->0;
    assert(queue_wf(m1)) by {
        assert forall|i: int| 0 <= i < m1.frames.len() implies m1.floor <= (#[trigger] m1.frames[i]).0 by {
            assert(m1.frames[i] == m.frames[i + 1]);
        }
    }
    lemma_offers_keep_floor(m1, ds);
}

/// Captures keep the queue well formed and do not move its floor.
proof fn lemma_offers_keep_floor(m: FrameQueueModel, ds: Seq<Seq<u8>>)
    requires
        queue_wf(m),
    ensures
        queue_wf(offered_all(m, ds)),
        offered_all(m, ds).floor == m.floor,
    decreases ds.len(),
{
    if ds.len() > 0 {
        lemma_offers_keep_floor(m, ds.drop_last());
        let p = offered_all(m, ds.drop_last());
        let q = offered(p, ds.last());
        assert(queue_wf(q)) by {
            if p.frames.len() < p.capacity && p.next_seq < u64::MAX {
                assert forall|i: int| 0 <= i < q.frames.len() implies q.floor <= (#[trigger] q.frames[i]).0 < q.next_seq by {
                    if i < p.frames.len() {
                        assert(q.frames[i] == p.frames[i]);
                    }
                }
            }
        }
    }
}

/// Whether a capture/encode pair is running, and which run it is.
#[derive(Clone, Copy, Debug, PartialEq, Eq, Structural)]
pub enum StreamState {
    Idle,
    Streaming(u64),
}

/// What the driver must do after `start`.
#[derive(Clone, Copy, Debug, PartialEq, Eq, Structural)]
pub enum StartDecision {
    /// Spawn one capture loop and one encode loop, tagged with this run.
    Spawn(u64),
    /// A pair is already running: spawn nothing.
    AlreadyStreaming,
}

/// What the driver must do after `stop`.
#[derive(Clone, Copy, Debug, PartialEq, Eq, Structural)]
pub enum StopDecision {
    /// End the loops of this run and release its capture handle and encoder.
    Release(u64),
    /// Nothing was running.
    NotStreaming,
}

/// What the lifecycle guard knows.
pub struct LifecycleModel {
    pub state: StreamState,
    pub next_run: u64,
    pub frames_sent: u64,
    pub transmit_errors: u64,
}

/// Number of capture/encode pairs the guard allows to run.
pub open spec fn active_runs(m: LifecycleModel) -> nat {
    match m.state {
        StreamState::Idle => 0,
        StreamState::Streaming(_) => 1,
    }
}

/// Whether the loops of `run` may still capture and write frames.
pub open spec fn run_is_current(m: LifecycleModel, run: u64) -> bool {
    m.state == StreamState::Streaming(run)
}

/// The guard after `start`, and its decision.
pub open spec fn started(m: LifecycleModel) -> (LifecycleModel, StartDecision) {
    match m.state {
        StreamState::Streaming(_) => (m, StartDecision::AlreadyStreaming),
        StreamState::Idle => (
            LifecycleModel {
                state: StreamState::Streaming(m.next_run),
                next_run: m.next_run.wrapping_add(1),
                ..m
            },
            StartDecision::Spawn(m.next_run),
        ),
    }
}

/// The guard after `stop`, and its decision.
pub open spec fn stopped(m: LifecycleModel) -> (LifecycleModel, StopDecision) {
    match m.state {
        StreamState::Idle => (m, StopDecision::NotStreaming),
        StreamState::Streaming(run) => (
            LifecycleModel { state: StreamState::Idle, ..m },
            StopDecision::Release(run),
        ),
    }
}

/// Guards the streaming lifecycle: at most one capture/encode pair runs,
/// and the loops of a stopped run see that they must end.
pub struct StreamLifecycle {
    state: StreamState,
    next_run: u64,
    frames_sent: u64,
    transmit_errors: u64,
}

impl View for StreamLifecycle {
    type V = LifecycleModel;

    closed spec fn view(&self) -> LifecycleModel {
        LifecycleModel {
            state: self.state,
            next_run: self.next_run,
            frames_sent: self.frames_sent,
            transmit_errors: self.transmit_errors,
        }
    }
}

impl StreamLifecycle {
    pub fn new() -> (r: StreamLifecycle)
        ensures
            r@.state == StreamState::Idle,
            r@.next_run == 0,
            r@.frames_sent == 0,
            r@.transmit_errors == 0,
    {
        StreamLifecycle { state: StreamState::Idle, next_run: 0, frames_sent: 0, transmit_errors: 0 }
    }

    pub fn frames_sent(&self) -> (r: u64)
        ensures
            r == self@.frames_sent,
    {
        self.frames_sent
    }

    pub fn transmit_errors(&self) -> (r: u64)
        ensures
            r == self@.transmit_errors,
    {
        self.transmit_errors
    }

    /// Records the outcome of writing one frame. A failed write is counted
    /// and streaming goes on: the run is unchanged.
    pub fn record_transmit(&mut self, outcome: Result<(), PipelineError>)
        ensures
            final(self)@.state == old(self)@.state,
            final(self)@.next_run == old(self)@.next_run,
            final(self)@.frames_sent == (if outcome is Ok && old(self)@.frames_sent < u64::MAX {
                (old(self)@.frames_sent + 1) as u64
            } else {
                old(self)@.frames_sent
            }),
            final(self)@.transmit_errors == (if outcome is Err && old(self)@.transmit_errors < u64::MAX {
                (old(self)@.transmit_errors + 1) as u64
            } else {
                old(self)@.transmit_errors
            }),
    {
        match outcome {
            Ok(()) => {
                if self.frames_sent < u64::MAX {
                    self.frames_sent = self.frames_sent + 1;
                }
            },
            Err(_) => {
                if self.transmit_errors < u64::MAX {
                    self.transmit_errors = self.transmit_errors + 1;
                }
            },
        }
    }

    pub fn state(&self) -> (r: StreamState)
        ensures
            r == self@.state,
    {
        self.state
    }

    /// Asks to start streaming; spawns a pair only when none runs.
    pub fn start(&mut self) -> (r: StartDecision)
        ensures
            (final(self)@, r) == started(old(self)@),
    {
        match self.state {
            StreamState::Streaming(_) => StartDecision::AlreadyStreaming,
            StreamState::Idle => {
                let run = self.next_run;
                self.state = StreamState::Streaming(run);
                self.next_run = run.wrapping_add(1);
                StartDecision::Spawn(run)
            },
        }
    }

    /// Asks to stop streaming.
    pub fn stop(&mut self) -> (r: StopDecision)
        ensures
            (final(self)@, r) == stopped(old(self)@),
    {
        match self.state {
            StreamState::Idle => StopDecision::NotStreaming,
            StreamState::Streaming(run) => {
                self.state = StreamState::Idle;
                StopDecision::Release(run)
            },
        }
    }

    /// Polled by the loops of `run` before each capture and each write.
    pub fn is_current(&self, run: u64) -> (r: bool)
        ensures
            r == run_is_current(self@, run),
    {
        self.state == StreamState::Streaming(run)
    }
}

/// Restarting streaming leaves exactly one capture/encode pair: after
/// `stop` then `start`, one run is active, it is a new run, and the run
/// stopped (if any) is released and no longer current.
pub proof fn lemma_restart_runs_one_pair(m: LifecycleModel)
    ensures
        ({
            let (m1, d1) = stopped(m);
            let (m2, d2) = started(m1);
            &&& active_runs(m1) == 0
            &&& active_runs(m2) == 1
            &&& d2 == StartDecision::Spawn(m1.next_run)
            &&& run_is_current(m2, m1.next_run)
            &&& (m.state matches StreamState::Streaming(old_run) ==> d1 == StopDecision::Release(old_run)
                && (old_run != m1.next_run ==> !run_is_current(m2, old_run)))
        }),
{
}

/// Starting twice runs one pair: the second start spawns nothing.
pub proof fn lemma_start_is_guarded(m: LifecycleModel)
    ensures
        ({
            let (m1, _) = started(m);
            let (m2, d2) = started(m1);
            &&& active_runs(m1) == 1
            &&& m2 == m1
            &&& d2 == StartDecision::AlreadyStreaming
        }),
{
}

} // verus!
