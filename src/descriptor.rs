use vstd::prelude::*;

verus! {

/// Where in the negotiation a transport-level failure happened.
#[derive(Clone, Copy, Debug, PartialEq, Eq, Structural)]
pub enum NegotiationStage {
    CreateOffer,
    CreateAnswer,
    SetLocalDescription,
    SetRemoteDescription,
    AddCandidate,
    GatherCandidates,
    ValidateDescriptor,
}

/// A negotiation failure, tagged with the stage it came from.
#[derive(Clone, Copy, Debug, PartialEq, Eq, Structural)]
pub struct NegotiationError {
    pub stage: NegotiationStage,
}

/// The value exchanged out of band between the two peers: a session
/// description (offer or answer) and the sender's network candidates.
#[derive(Clone, Debug)]
pub struct ConnectionInfo {
    pub offer: String,
    pub ice_candidates: Vec<String>,
}

impl ConnectionInfo {
    /// A descriptor is usable when it carries a description.
    pub open spec fn wf(&self) -> bool {
        self.offer@.len() > 0
    }

    /// The candidates, as a sequence of character sequences.
    pub open spec fn candidates_view(&self) -> Seq<Seq<char>> {
        self.ice_candidates@.map_values(|c: String| c@)
    }

    /// Builds a descriptor; an empty description is malformed.
    pub fn new(offer: String, ice_candidates: Vec<String>) -> (r: Result<ConnectionInfo, NegotiationError>)
        ensures
            offer@.len() > 0 <==> r is Ok,
            r matches Ok(info) ==> info.offer@ == offer@ && info.ice_candidates@ == ice_candidates@
                && info.wf(),
            r matches Err(e) ==> e.stage == NegotiationStage::ValidateDescriptor,
    {
        if offer.as_str().is_empty() {
            Err(NegotiationError { stage: NegotiationStage::ValidateDescriptor })
        } else {
            Ok(ConnectionInfo { offer, ice_candidates })
        }
    }

    /// Checks a descriptor received from the other peer before it is applied.
    pub fn validate(&self) -> (r: Result<(), NegotiationError>)
        ensures
            r is Ok <==> self.wf(),
            r matches Err(e) ==> e.stage == NegotiationStage::ValidateDescriptor,
    {
        if self.offer.as_str().is_empty() {
            Err(NegotiationError { stage: NegotiationStage::ValidateDescriptor })
        } else {
            Ok(())
        }
    }
}

} // verus!

verus! {

/// Copies a list of strings, element by element.
pub fn clone_strings(v: &Vec<String>) -> (r: Vec<String>)
    ensures
        r@ == v@,
{
    let mut r: Vec<String> = Vec::new();
    let mut i: usize = 0;
    while i < v.len()
        invariant
            i <= v@.len(),
            r@ == v@.subrange(0, i as int),
        decreases v@.len() - i,
    {
        r.push(v[i].clone());
        i = i + 1;
    }
    assert(r@ =~= v@);
    r
}

} // verus!
