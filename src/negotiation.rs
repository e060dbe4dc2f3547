use vstd::prelude::*;
use crate::descriptor::{ConnectionInfo, NegotiationError, NegotiationStage, clone_strings};

verus! {

/// Which side of the negotiation a peer plays; fixed for a session.
#[derive(Clone, Copy, Debug, PartialEq, Eq, Structural)]
pub enum Role {
    Offerer,
    Answerer,
}

/// The connection state machine of one peer connection.
#[derive(Clone, Copy, Debug, PartialEq, Eq, Structural)]
pub enum ConnectionState {
    New,
    HaveLocalOffer,
    HaveLocalAnswer,
    Negotiating,
    Connected,
    Disconnected,
    Failed,
    Closed,
}

/// A state reported by the underlying transport.
#[derive(Clone, Copy, Debug, PartialEq, Eq, Structural)]
pub enum TransportState {
    New,
    Connecting,
    Connected,
    Disconnected,
    Failed,
    Closed,
}

/// `Failed` and `Closed` end a session: nothing leaves them.
pub open spec fn is_terminal(s: ConnectionState) -> bool {
    s == ConnectionState::Failed || s == ConnectionState::Closed
}

/// The state after the transport reports `t`.
pub open spec fn transport_next(s: ConnectionState, t: TransportState) -> ConnectionState {
    if is_terminal(s) {
        s
    } else {
        match t {
            TransportState::Failed => ConnectionState::Failed,
            TransportState::Closed => ConnectionState::Closed,
            TransportState::Connecting => match s {
                ConnectionState::HaveLocalAnswer | ConnectionState::Negotiating => ConnectionState::Negotiating,
                _ => s,
            },
            TransportState::Connected => match s {
                ConnectionState::HaveLocalAnswer | ConnectionState::Negotiating
                | ConnectionState::Disconnected => ConnectionState::Connected,
                _ => s,
            },
            TransportState::Disconnected => match s {
                ConnectionState::Connected => ConnectionState::Disconnected,
                _ => s,
            },
            TransportState::New => s,
        }
    }
}

/// Computes `transport_next`.
pub fn next_on_transport(s: ConnectionState, t: TransportState) -> (r: ConnectionState)
    ensures
        r == transport_next(s, t),
{
    if s == ConnectionState::Failed || s == ConnectionState::Closed {
        return s;
    }
    match t {
        TransportState::Failed => ConnectionState::Failed,
        TransportState::Closed => ConnectionState::Closed,
        TransportState::Connecting => match s {
            ConnectionState::HaveLocalAnswer | ConnectionState::Negotiating => ConnectionState::Negotiating,
            _ => s,
        },
        TransportState::Connected => match s {
            ConnectionState::HaveLocalAnswer | ConnectionState::Negotiating
            | ConnectionState::Disconnected => ConnectionState::Connected,
            _ => s,
        },
        TransportState::Disconnected => match s {
            ConnectionState::Connected => ConnectionState::Disconnected,
            _ => s,
        },
        TransportState::New => s,
    }
}

/// What a negotiator knows about its session.
pub struct NegotiatorModel {
    pub role: Role,
    pub state: ConnectionState,
    pub local: Option<Seq<char>>,
    pub remote_applied: bool,
    pub candidates: Seq<Seq<char>>,
    pub gathering_complete: bool,
}

/// A fresh negotiation for `role`.
pub open spec fn fresh(role: Role) -> NegotiatorModel {
    NegotiatorModel {
        role,
        state: ConnectionState::New,
        local: None,
        remote_applied: false,
        candidates: Seq::empty(),
        gathering_complete: false,
    }
}

/// A local description may be applied: the offerer does so first, the
/// answerer once the remote offer is in.
pub open spec fn may_apply_local(m: NegotiatorModel) -> bool {
    m.state == ConnectionState::New && (m.role == Role::Offerer || m.remote_applied)
}

/// A remote description may be applied: the answerer's offer before its
/// answer, the offerer's answer after its own offer.
pub open spec fn may_apply_remote(m: NegotiatorModel) -> bool {
    !m.remote_applied && match m.role {
        Role::Answerer => m.state == ConnectionState::New,
        Role::Offerer => m.state == ConnectionState::HaveLocalOffer,
    }
}

/// The model after the local description `sdp` was applied.
pub open spec fn after_local(m: NegotiatorModel, sdp: Seq<char>) -> NegotiatorModel {
    NegotiatorModel {
        state: match m.role {
            Role::Offerer => ConnectionState::HaveLocalOffer,
            Role::Answerer => ConnectionState::HaveLocalAnswer,
        },
        local: Some(sdp),
        ..m
    }
}

/// The model after the remote description and its candidates were applied.
pub open spec fn after_remote(m: NegotiatorModel) -> NegotiatorModel {
    NegotiatorModel {
        state: match m.role {
            Role::Offerer => ConnectionState::Negotiating,
            Role::Answerer => m.state,
        },
        remote_applied: true,
        ..m
    }
}

/// The model after the transport reported `t`.
pub open spec fn after_transport(m: NegotiatorModel, t: TransportState) -> NegotiatorModel {
    NegotiatorModel { state: transport_next(m.state, t), ..m }
}

/// The model after gathering reported candidate `c`, or its end (`None`).
pub open spec fn after_candidate(m: NegotiatorModel, c: Option<Seq<char>>) -> NegotiatorModel {
    if m.gathering_complete {
        m
    } else {
        match c {
            Some(c) => NegotiatorModel { candidates: m.candidates.push(c), ..m },
            None => NegotiatorModel { gathering_complete: true, ..m },
        }
    }
}

/// The descriptor a negotiator hands out: only once gathering is over.
pub open spec fn descriptor_of(m: NegotiatorModel) -> Option<(Seq<char>, Seq<Seq<char>>)> {
    if m.gathering_complete && m.local is Some && m.local->0.len() > 0 && m.state != ConnectionState::Failed {
        Some((m.local->0, m.candidates))
    } else {
        None
    }
}

/// One side of a session negotiation. The network calls are made by the
/// caller; the negotiator decides which of them may come next, records
/// what they produced and builds the descriptor to exchange.
pub struct Negotiator {
    role: Role,
    state: ConnectionState,
    local: Option<String>,
    remote_applied: bool,
    candidates: Vec<String>,
    gathering_complete: bool,
}

impl View for Negotiator {
    type V = NegotiatorModel;

    closed spec fn view(&self) -> NegotiatorModel {
        NegotiatorModel {
            role: self.role,
            state: self.state,
            local: match self.local {
                Some(s) => Some(s@),
                None => None,
            },
            remote_applied: self.remote_applied,
            candidates: self.candidates@.map_values(|c: String| c@),
            gathering_complete: self.gathering_complete,
        }
    }
}

impl Negotiator {
    pub fn new(role: Role) -> (r: Negotiator)
        ensures
            r@ == fresh(role),
    {
        let r = Negotiator {
            role,
            state: ConnectionState::New,
            local: None,
            remote_applied: false,
            candidates: Vec::new(),
            gathering_complete: false,
        };
        assert(r@.candidates =~= Seq::<Seq<char>>::empty());
        r
    }

    pub fn role(&self) -> (r: Role)
        ensures
            r == self@.role,
    {
        self.role
    }

    pub fn state(&self) -> (r: ConnectionState)
        ensures
            r == self@.state,
    {
        self.state
    }

    pub fn gathering_complete(&self) -> (r: bool)
        ensures
            r == self@.gathering_complete,
    {
        self.gathering_complete
    }

    /// Records that the local description `sdp` was created and applied.
    /// Out of order, or with an empty description, nothing changes.
    pub fn local_applied(&mut self, sdp: String) -> (r: Result<(), NegotiationError>)
        ensures
            r is Ok <==> may_apply_local(old(self)@) && sdp@.len() > 0,
            r is Ok ==> final(self)@ == after_local(old(self)@, sdp@),
            r matches Err(e) ==> final(self)@ == old(self)@
                && e.stage == NegotiationStage::SetLocalDescription,
    {
        let allowed = self.state == ConnectionState::New
            && (self.role == Role::Offerer || self.remote_applied);
        if !allowed || sdp.as_str().is_empty() {
            return Err(NegotiationError { stage: NegotiationStage::SetLocalDescription });
        }
        self.state = match self.role {
            Role::Offerer => ConnectionState::HaveLocalOffer,
            Role::Answerer => ConnectionState::HaveLocalAnswer,
        };
        self.local = Some(sdp);
        Ok(())
    }

    /// Whether a remote description may be applied now.
    pub fn awaits_remote(&self) -> (r: bool)
        ensures
            r == may_apply_remote(self@),
    {
        !self.remote_applied && match self.role {
            Role::Answerer => self.state == ConnectionState::New,
            Role::Offerer => self.state == ConnectionState::HaveLocalOffer,
        }
    }

    /// Checks, before it is applied, that `remote` is well formed and
    /// that a remote description may come now.
    pub fn check_remote(&self, remote: &ConnectionInfo) -> (r: Result<(), NegotiationError>)
        ensures
            r is Ok <==> remote.wf() && may_apply_remote(self@),
            r matches Err(e) ==> (e.stage == NegotiationStage::ValidateDescriptor <==> !remote.wf()),
            r matches Err(e) ==> remote.wf() ==> e.stage == NegotiationStage::SetRemoteDescription,
    {
        if remote.offer.as_str().is_empty() {
            return Err(NegotiationError { stage: NegotiationStage::ValidateDescriptor });
        }
        let allowed = !self.remote_applied && match self.role {
            Role::Answerer => self.state == ConnectionState::New,
            Role::Offerer => self.state == ConnectionState::HaveLocalOffer,
        };
        if allowed {
            Ok(())
        } else {
            Err(NegotiationError { stage: NegotiationStage::SetRemoteDescription })
        }
    }

    /// Records that the remote description and all its candidates were
    /// applied. Out of order, nothing changes.
    pub fn remote_applied(&mut self) -> (r: Result<(), NegotiationError>)
        ensures
            r is Ok <==> may_apply_remote(old(self)@),
            r is Ok ==> final(self)@ == after_remote(old(self)@),
            r matches Err(e) ==> final(self)@ == old(self)@
                && e.stage == NegotiationStage::SetRemoteDescription,
    {
        let allowed = !self.remote_applied && match self.role {
            Role::Answerer => self.state == ConnectionState::New,
            Role::Offerer => self.state == ConnectionState::HaveLocalOffer,
        };
        if !allowed {
            return Err(NegotiationError { stage: NegotiationStage::SetRemoteDescription });
        }
        if self.role == Role::Offerer {
            self.state = ConnectionState::Negotiating;
        }
        self.remote_applied = true;
        Ok(())
    }

    /// A network call of stage `stage` failed: the session is `Failed`
    /// (unless already over) and must be discarded.
    pub fn fail(&mut self, stage: NegotiationStage) -> (r: NegotiationError)
        ensures
            r.stage == stage,
            final(self)@ == (NegotiatorModel {
                state: if is_terminal(old(self)@.state) { old(self)@.state } else { ConnectionState::Failed },
                ..old(self)@
            }),
    {
        if self.state != ConnectionState::Closed {
            self.state = ConnectionState::Failed;
        }
        NegotiationError { stage }
    }

    /// The transport reported state `t`.
    pub fn on_transport_state(&mut self, t: TransportState)
        ensures
            final(self)@ == after_transport(old(self)@, t),
    {
        self.state = next_on_transport(self.state, t);
    }

    /// Gathering found candidate `c`, or (`None`) is complete. Reports
    /// after completion are ignored.
    pub fn on_candidate(&mut self, c: Option<String>)
        ensures
            final(self)@ == after_candidate(old(self)@, match c { Some(s) => Some(s@), None => None }),
    {
        if self.gathering_complete {
            return;
        }
        match c {
            Some(s) => {
                self.candidates.push(s);
                assert(self@.candidates =~= old(self)@.candidates.push(s@));
            },
            None => {
                self.gathering_complete = true;
            },
        }
    }

    /// The bounded wait for gathering ran out: gathering counts as
    /// complete with the candidates found so far.
    pub fn on_gathering_timeout(&mut self)
        ensures
            final(self)@ == after_candidate(old(self)@, None),
    {
        self.gathering_complete = true;
    }

    /// The descriptor to send to the other peer: the local description and
    /// every candidate gathered, in order; none while gathering goes on.
    pub fn local_descriptor(&self) -> (r: Option<ConnectionInfo>)
        ensures
            match descriptor_of(self@) {
                Some((d, cs)) => r matches Some(info) && info.offer@ == d
                    && info.candidates_view() == cs,
                None => r is None,
            },
            r matches Some(info) ==> info.wf() && self@.gathering_complete,
    {
        if !self.gathering_complete || self.state == ConnectionState::Failed {
            return None;
        }
        match &self.local {
            Some(sdp) if !sdp.as_str().is_empty() => {
                let cs = clone_strings(&self.candidates);
                let info = ConnectionInfo { offer: sdp.clone(), ice_candidates: cs };
                assert(info.candidates_view() =~= self@.candidates);
                Some(info)
            },
            _ => None,
        }
    }
}

/// Negotiation round trip: an offerer applies its offer, then the
/// answerer's description; an answerer applies the offer, then its answer.
/// As the transport reports connecting and then connected, both go from
/// `New` to `Connected`, every step is allowed, and neither passes through
/// `Failed`.
pub proof fn lemma_round_trip_connects(offer: Seq<char>, answer: Seq<char>)
    ensures
        ({
            let o0 = fresh(Role::Offerer);
            let o1 = after_local(o0, offer);
            let o2 = after_remote(o1);
            let o3 = after_transport(o2, TransportState::Connecting);
            let o4 = after_transport(o3, TransportState::Connected);
            &&& o0.state == ConnectionState::New
            &&& may_apply_local(o0) && may_apply_remote(o1)
            &&& o1.state == ConnectionState::HaveLocalOffer
            &&& o2.state == ConnectionState::Negotiating
            &&& o3.state == ConnectionState::Negotiating
            &&& o4.state == ConnectionState::Connected
        }),
        ({
            let a0 = fresh(Role::Answerer);
            let a1 = after_remote(a0);
            let a2 = after_local(a1, answer);
            let a3 = after_transport(a2, TransportState::Connecting);
            let a4 = after_transport(a3, TransportState::Connected);
            &&& a0.state == ConnectionState::New
            &&& may_apply_remote(a0) && may_apply_local(a1)
            &&& a1.state == ConnectionState::New
            &&& a2.state == ConnectionState::HaveLocalAnswer
            &&& a3.state == ConnectionState::Negotiating
            &&& a4.state == ConnectionState::Connected
        }),
{
}

/// `Failed` and `Closed` are final: no transport report leaves them.
pub proof fn lemma_terminal_states_absorb(s: ConnectionState, t: TransportState)
    requires
        is_terminal(s),
    ensures
        transport_next(s, t) == s,
{
}

/// No descriptor is handed out mid-gather: a descriptor exists only once
/// gathering has completed, carries a non-empty description, and lists
/// exactly the candidates gathered, in the order found.
pub proof fn lemma_descriptor_only_after_gathering(m: NegotiatorModel)
    requires
        descriptor_of(m) is Some,
    ensures
        m.gathering_complete,
        descriptor_of(m) matches Some((d, cs)) && d.len() > 0 && cs == m.candidates,
{
}

} // verus!
