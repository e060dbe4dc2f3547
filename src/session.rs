use vstd::prelude::*;
use crate::descriptor::{ConnectionInfo, NegotiationError, NegotiationStage};
use crate::negotiation::{
    ConnectionState, Negotiator, NegotiatorModel, Role, TransportState, after_remote, after_transport,
    may_apply_remote,
};

verus! {

/// Errors of the operations on the current session.
#[derive(Clone, Copy, Debug, PartialEq, Eq, Structural)]
pub enum SessionError {
    /// No session was started by an offer, so there is nothing to complete.
    NoActiveSession,
    Negotiation(NegotiationError),
}

/// The current session: the peer handle `H` that the driver owns, and its
/// negotiator.
pub struct Session<H> {
    pub handle: H,
    pub negotiator: Negotiator,
}

/// What the session context holds.
pub struct ContextModel<H, M> {
    pub session: Option<(H, NegotiatorModel)>,
    pub media: Option<M>,
}

/// A completion may go ahead: the current session made an offer and has
/// not yet applied an answer.
pub open spec fn may_complete<H, M>(c: ContextModel<H, M>) -> bool {
    c.session matches Some((_, n)) && n.role == Role::Offerer && may_apply_remote(n)
}

/// The process-wide holder of the current session and of its media and
/// input side (`M`): at most one of each, replaced whole when a new
/// negotiation starts.
pub struct SessionContext<H, M> {
    session: Option<Session<H>>,
    media: Option<M>,
}

impl<H, M> View for SessionContext<H, M> {
    type V = ContextModel<H, M>;

    closed spec fn view(&self) -> ContextModel<H, M> {
        ContextModel {
            session: match self.session {
                Some(s) => Some((s.handle, s.negotiator@)),
                None => None,
            },
            media: self.media,
        }
    }
}

impl<H, M> SessionContext<H, M> {
    pub fn new() -> (r: SessionContext<H, M>)
        ensures
            r@.session is None,
            r@.media is None,
    {
        SessionContext { session: None, media: None }
    }

    /// Starts a new session, dropping the one before.
    pub fn install_session(&mut self, handle: H, negotiator: Negotiator)
        ensures
            final(self)@.session == Some((handle, negotiator@)),
            final(self)@.media == old(self)@.media,
    {
        self.session = Some(Session { handle, negotiator });
    }

    /// Sets the media and input side of the session, dropping the one before.
    pub fn install_media(&mut self, media: M)
        ensures
            final(self)@.media == Some(media),
            final(self)@.session == old(self)@.session,
    {
        self.media = Some(media);
    }

    pub fn has_session(&self) -> (r: bool)
        ensures
            r == self@.session is Some,
    {
        self.session.is_some()
    }

    /// The state of the current session, if any.
    pub fn connection_state(&self) -> (r: Option<ConnectionState>)
        ensures
            match self@.session {
                Some((_, n)) => r == Some(n.state),
                None => r is None,
            },
    {
        match &self.session {
            Some(s) => Some(s.negotiator.state()),
            None => None,
        }
    }

    /// The peer handle of the current session, if any.
    pub fn handle(&self) -> (r: Option<&H>)
        ensures
            match self@.session {
                Some((h, _)) => r == Some(&h),
                None => r is None,
            },
    {
        match &self.session {
            Some(s) => Some(&s.handle),
            None => None,
        }
    }

    pub fn media(&self) -> (r: Option<&M>)
        ensures
            match self@.media {
                Some(m) => r == Some(&m),
                None => r is None,
            },
    {
        match &self.media {
            Some(m) => Some(m),
            None => None,
        }
    }

    /// Checks that the answer `answer` may be applied to the current
    /// session, and gives the handle to apply it on. Without a session that
    /// made an offer, fails with `NoActiveSession`. Changes nothing.
    pub fn prepare_completion(&self, answer: &ConnectionInfo) -> (r: Result<&H, SessionError>)
        ensures
            !may_complete(self@) <==> r == Err::<&H, SessionError>(SessionError::NoActiveSession),
            may_complete(self@) ==> (r is Ok <==> answer.wf()),
            may_complete(self@) && !answer.wf() ==> r == Err::<&H, SessionError>(
                SessionError::Negotiation(NegotiationError { stage: NegotiationStage::ValidateDescriptor })),
            r matches Ok(h) ==> self@.session matches Some((h2, _)) && *h == h2,
    {
        match &self.session {
            None => Err(SessionError::NoActiveSession),
            Some(s) => {
                if s.negotiator.role() != Role::Offerer || !s.negotiator.awaits_remote() {
                    return Err(SessionError::NoActiveSession);
                }
                match answer.validate() {
                    Ok(()) => Ok(&s.handle),
                    Err(e) => Err(SessionError::Negotiation(e)),
                }
            },
        }
    }

    /// Records that the answer was applied to the current session.
    pub fn completion_applied(&mut self) -> (r: Result<(), SessionError>)
        ensures
            r is Ok <==> may_complete(old(self)@),
            r is Err ==> final(self)@ == old(self)@ && r == Err::<(), SessionError>(SessionError::NoActiveSession),
            r is Ok ==> (old(self)@.session matches Some((h, n)) && final(self)@ == (ContextModel {
                session: Some((h, after_remote(n))),
                ..old(self)@
            })),
    {
        match &mut self.session {
            None => Err(SessionError::NoActiveSession),
            Some(s) => {
                if s.negotiator.role() != Role::Offerer {
                    return Err(SessionError::NoActiveSession);
                }
                match s.negotiator.remote_applied() {
                    Ok(()) => Ok(()),
                    Err(_) => Err(SessionError::NoActiveSession),
                }
            },
        }
    }

    /// A network call on the current session failed at `stage`; the
    /// session is left `Failed`.
    pub fn negotiation_failed(&mut self, stage: NegotiationStage) -> (r: SessionError)
        ensures
            r == (if old(self)@.session is Some {
                SessionError::Negotiation(NegotiationError { stage })
            } else {
                SessionError::NoActiveSession
            }),
            old(self)@.session is None ==> final(self)@ == old(self)@,
            final(self)@.media == old(self)@.media,
            old(self)@.session matches Some((h, n)) ==> final(self)@.session matches Some((h2, n2))
                && h2 == h && n2.state == (if n.state == ConnectionState::Closed || n.state == ConnectionState::Failed {
                    n.state
                } else {
                    ConnectionState::Failed
                }),
    {
        match &mut self.session {
            None => SessionError::NoActiveSession,
            Some(s) => SessionError::Negotiation(s.negotiator.fail(stage)),
        }
    }

    /// The transport of the current session reported `t`.
    pub fn on_transport_state(&mut self, t: TransportState)
        ensures
            final(self)@.media == old(self)@.media,
            match old(self)@.session {
                None => final(self)@ == old(self)@,
                Some((h, n)) => final(self)@.session == Some((h, after_transport(n, t))),
            },
    {
        if let Some(s) = &mut self.session {
            s.negotiator.on_transport_state(t);
        }
    }
}

/// Completing without an offer fails with `NoActiveSession` and leaves the
/// context as it was: a context with no session, or whose session did not
/// make an offer, refuses both steps of a completion.
pub proof fn lemma_completion_needs_offer<H, M>(c: ContextModel<H, M>)
    requires
        c.session is None || (c.session matches Some((_, n)) && n.role == Role::Answerer),
    ensures
        !may_complete(c),
{
}

} // verus!
