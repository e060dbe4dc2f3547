use remote_core::descriptor::{ConnectionInfo, NegotiationError, NegotiationStage};
use remote_core::negotiation::{next_on_transport, ConnectionState, Negotiator, Role, TransportState};
use remote_core::session::{SessionContext, SessionError};

fn offerer_with_offer(sdp: &str) -> Negotiator {
    let mut n = Negotiator::new(Role::Offerer);
    n.local_applied(sdp.to_string()).unwrap();
    n
}

#[test]
fn descriptor_requires_description() {
    let err = ConnectionInfo::new(String::new(), vec!["c".to_string()]).unwrap_err();
    assert_eq!(err, NegotiationError { stage: NegotiationStage::ValidateDescriptor });
    let ok = ConnectionInfo::new("v=0".to_string(), vec![]).unwrap();
    assert_eq!(ok.offer, "v=0");
    assert!(ok.ice_candidates.is_empty());
    assert!(ok.validate().is_ok());
}

#[test]
fn no_descriptor_while_gathering() {
    let mut n = offerer_with_offer("offer-sdp");
    n.on_candidate(Some("cand-1".to_string()));
    assert!(n.local_descriptor().is_none());
    n.on_candidate(Some("cand-2".to_string()));
    n.on_candidate(None);
    let d = n.local_descriptor().unwrap();
    assert_eq!(d.offer, "offer-sdp");
    assert_eq!(d.ice_candidates, vec!["cand-1".to_string(), "cand-2".to_string()]);
    n.on_candidate(Some("late".to_string()));
    assert_eq!(n.local_descriptor().unwrap().ice_candidates.len(), 2);
}

#[test]
fn gathering_timeout_completes_with_found_candidates() {
    let mut n = offerer_with_offer("o");
    n.on_candidate(Some("only".to_string()));
    n.on_gathering_timeout();
    assert!(n.gathering_complete());
    assert_eq!(n.local_descriptor().unwrap().ice_candidates, vec!["only".to_string()]);
}

#[test]
fn no_descriptor_without_local_description() {
    let mut n = Negotiator::new(Role::Answerer);
    n.on_candidate(None);
    assert!(n.local_descriptor().is_none());
}

#[test]
fn round_trip_reaches_connected() {
    let mut offerer = offerer_with_offer("offer");
    assert_eq!(offerer.state(), ConnectionState::HaveLocalOffer);
    offerer.on_candidate(None);
    let offer = offerer.local_descriptor().unwrap();

    let mut answerer = Negotiator::new(Role::Answerer);
    assert!(answerer.check_remote(&offer).is_ok());
    answerer.remote_applied().unwrap();
    assert_eq!(answerer.state(), ConnectionState::New);
    answerer.local_applied("answer".to_string()).unwrap();
    assert_eq!(answerer.state(), ConnectionState::HaveLocalAnswer);
    answerer.on_candidate(Some("a1".to_string()));
    answerer.on_candidate(None);
    let answer = answerer.local_descriptor().unwrap();
    assert_eq!(answer.offer, "answer");

    assert!(offerer.check_remote(&answer).is_ok());
    offerer.remote_applied().unwrap();
    assert_eq!(offerer.state(), ConnectionState::Negotiating);
    for n in [&mut offerer, &mut answerer] {
        n.on_transport_state(TransportState::Connecting);
        assert_ne!(n.state(), ConnectionState::Failed);
        n.on_transport_state(TransportState::Connected);
        assert_eq!(n.state(), ConnectionState::Connected);
    }
}

#[test]
fn out_of_order_steps_are_refused() {
    let mut answerer = Negotiator::new(Role::Answerer);
    let err = answerer.local_applied("answer".to_string()).unwrap_err();
    assert_eq!(err.stage, NegotiationStage::SetLocalDescription);
    assert_eq!(answerer.state(), ConnectionState::New);

    let mut offerer = Negotiator::new(Role::Offerer);
    assert_eq!(offerer.remote_applied().unwrap_err().stage, NegotiationStage::SetRemoteDescription);
    assert_eq!(offerer.local_applied(String::new()).unwrap_err().stage, NegotiationStage::SetLocalDescription);
    let info = ConnectionInfo::new("x".to_string(), vec![]).unwrap();
    assert_eq!(offerer.check_remote(&info).unwrap_err().stage, NegotiationStage::SetRemoteDescription);
    let bad = ConnectionInfo { offer: String::new(), ice_candidates: vec![] };
    assert_eq!(offerer.check_remote(&bad).unwrap_err().stage, NegotiationStage::ValidateDescriptor);
}

#[test]
fn failure_is_terminal() {
    let mut n = offerer_with_offer("o");
    let e = n.fail(NegotiationStage::AddCandidate);
    assert_eq!(e.stage, NegotiationStage::AddCandidate);
    assert_eq!(n.state(), ConnectionState::Failed);
    n.on_transport_state(TransportState::Connected);
    assert_eq!(n.state(), ConnectionState::Failed);
    n.on_candidate(None);
    assert!(n.local_descriptor().is_none());
}

#[test]
fn transport_transitions() {
    assert_eq!(next_on_transport(ConnectionState::Connected, TransportState::Disconnected), ConnectionState::Disconnected);
    assert_eq!(next_on_transport(ConnectionState::Disconnected, TransportState::Connected), ConnectionState::Connected);
    assert_eq!(next_on_transport(ConnectionState::Connected, TransportState::Failed), ConnectionState::Failed);
    assert_eq!(next_on_transport(ConnectionState::Negotiating, TransportState::Closed), ConnectionState::Closed);
    assert_eq!(next_on_transport(ConnectionState::Closed, TransportState::Connected), ConnectionState::Closed);
    assert_eq!(next_on_transport(ConnectionState::HaveLocalOffer, TransportState::Connected), ConnectionState::HaveLocalOffer);
    assert_eq!(next_on_transport(ConnectionState::New, TransportState::New), ConnectionState::New);
}

#[test]
fn complete_without_offer_is_no_active_session() {
    let ctx: SessionContext<u32, ()> = SessionContext::new();
    let answer = ConnectionInfo::new("answer".to_string(), vec![]).unwrap();
    assert_eq!(ctx.prepare_completion(&answer).unwrap_err(), SessionError::NoActiveSession);
    assert!(!ctx.has_session());
    assert!(ctx.connection_state().is_none());

    let mut ctx2: SessionContext<u32, ()> = SessionContext::new();
    assert_eq!(ctx2.completion_applied().unwrap_err(), SessionError::NoActiveSession);
    assert!(!ctx2.has_session());
    ctx2.install_session(5, Negotiator::new(Role::Answerer));
    assert_eq!(ctx2.prepare_completion(&answer).unwrap_err(), SessionError::NoActiveSession);
    assert_eq!(ctx2.completion_applied().unwrap_err(), SessionError::NoActiveSession);
    assert_eq!(ctx2.connection_state(), Some(ConnectionState::New));
}

#[test]
fn complete_after_offer() {
    let mut ctx: SessionContext<u32, &str> = SessionContext::new();
    ctx.install_session(7, offerer_with_offer("o"));
    let bad = ConnectionInfo { offer: String::new(), ice_candidates: vec![] };
    assert_eq!(
        ctx.prepare_completion(&bad).unwrap_err(),
        SessionError::Negotiation(NegotiationError { stage: NegotiationStage::ValidateDescriptor })
    );
    let answer = ConnectionInfo::new("answer".to_string(), vec!["c".to_string()]).unwrap();
    assert_eq!(*ctx.prepare_completion(&answer).unwrap(), 7);
    ctx.completion_applied().unwrap();
    assert_eq!(ctx.connection_state(), Some(ConnectionState::Negotiating));
    assert_eq!(ctx.prepare_completion(&answer).unwrap_err(), SessionError::NoActiveSession);
    ctx.on_transport_state(TransportState::Connected);
    assert_eq!(ctx.connection_state(), Some(ConnectionState::Connected));
    ctx.install_media("pipeline");
    assert_eq!(ctx.media(), Some(&"pipeline"));
}

#[test]
fn failed_negotiation_marks_session() {
    let mut ctx: SessionContext<u32, ()> = SessionContext::new();
    assert_eq!(ctx.negotiation_failed(NegotiationStage::CreateOffer), SessionError::NoActiveSession);
    ctx.install_session(1, Negotiator::new(Role::Offerer));
    assert_eq!(
        ctx.negotiation_failed(NegotiationStage::CreateOffer),
        SessionError::Negotiation(NegotiationError { stage: NegotiationStage::CreateOffer })
    );
    assert_eq!(ctx.connection_state(), Some(ConnectionState::Failed));
    ctx.install_session(2, Negotiator::new(Role::Offerer));
    assert_eq!(ctx.connection_state(), Some(ConnectionState::New));
}

#[test]
fn context_handle_follows_session() {
    let mut ctx: SessionContext<u32, ()> = SessionContext::new();
    assert_eq!(ctx.handle(), None);
    ctx.install_session(3, Negotiator::new(Role::Offerer));
    assert_eq!(ctx.handle(), Some(&3));
    ctx.install_session(4, Negotiator::new(Role::Answerer));
    assert_eq!(ctx.handle(), Some(&4));
}
