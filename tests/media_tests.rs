use remote_core::pipeline::{
    encoder_name, select_encoder, FrameQueue, Handoff, PipelineError, StartDecision, StopDecision, StreamLifecycle,
    StreamState, ENCODER_COUNT, FRAME_INTERVAL_MS,
};

#[test]
fn encoder_preference_order() {
    assert_eq!(ENCODER_COUNT, 3);
    assert_eq!(encoder_name(0), "hevc_nvenc");
    assert_eq!(encoder_name(1), "hevc_vaapi");
    assert_eq!(encoder_name(2), "libx265");
    assert_eq!(select_encoder(&vec![true, true, true]), Ok(0));
    assert_eq!(select_encoder(&vec![false, true, true]), Ok(1));
    assert_eq!(select_encoder(&vec![false, false, true]), Ok(2));
}

#[test]
fn encoder_unavailable_when_none_initialises() {
    assert_eq!(select_encoder(&vec![false, false, false]), Err(PipelineError::EncoderUnavailable));
    assert_eq!(select_encoder(&vec![]), Err(PipelineError::EncoderUnavailable));
    assert_eq!(select_encoder(&vec![false, false, false, true]), Err(PipelineError::EncoderUnavailable));
}

#[test]
fn frame_interval() {
    assert_eq!(FRAME_INTERVAL_MS, 16);
}

#[test]
fn saturated_queue_drops_newest_and_keeps_order() {
    let mut q = FrameQueue::new(2);
    assert_eq!(q.offer(vec![10]), Handoff::Queued(0));
    assert_eq!(q.offer(vec![11]), Handoff::Queued(1));
    assert_eq!(q.offer(vec![12]), Handoff::Dropped);
    assert_eq!(q.offer(vec![13]), Handoff::Dropped);
    assert_eq!(q.dropped(), 2);
    assert_eq!(q.len(), 2);
    let a = q.take().unwrap();
    assert_eq!((a.seq, a.data), (0, vec![10]));
    assert_eq!(q.offer(vec![14]), Handoff::Queued(4));
    let b = q.take().unwrap();
    let c = q.take().unwrap();
    assert_eq!((b.seq, b.data), (1, vec![11]));
    assert_eq!((c.seq, c.data), (4, vec![14]));
    assert!(q.take().is_none());
}

#[test]
fn sustained_saturation_never_reorders() {
    let mut q = FrameQueue::new(3);
    let mut last: Option<u64> = None;
    for i in 0..100u8 {
        q.offer(vec![i]);
        q.offer(vec![i]);
        if let Some(f) = q.take() {
            if let Some(l) = last {
                assert!(f.seq > l);
            }
            last = Some(f.seq);
        }
    }
    assert!(q.dropped() > 0);
    assert!(q.len() <= 3);
}

#[test]
fn stop_then_start_runs_one_pair() {
    let mut l = StreamLifecycle::new();
    assert_eq!(l.stop(), StopDecision::NotStreaming);
    assert_eq!(l.start(), StartDecision::Spawn(0));
    assert_eq!(l.start(), StartDecision::AlreadyStreaming);
    assert!(l.is_current(0));
    assert_eq!(l.stop(), StopDecision::Release(0));
    assert!(!l.is_current(0));
    assert_eq!(l.state(), StreamState::Idle);
    assert_eq!(l.start(), StartDecision::Spawn(1));
    assert!(l.is_current(1));
    assert!(!l.is_current(0));
    assert_eq!(l.state(), StreamState::Streaming(1));
}

#[test]
fn transmit_errors_are_counted_and_streaming_goes_on() {
    let mut l = StreamLifecycle::new();
    assert_eq!(l.start(), StartDecision::Spawn(0));
    l.record_transmit(Ok(()));
    l.record_transmit(Err(PipelineError::TransmitError));
    l.record_transmit(Ok(()));
    assert_eq!(l.frames_sent(), 2);
    assert_eq!(l.transmit_errors(), 1);
    assert!(l.is_current(0));
    assert_eq!(l.state(), StreamState::Streaming(0));
}
