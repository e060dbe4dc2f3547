//! Transport and control core of a peer-to-peer remote desktop: session
//! negotiation, the media hand-off path and the input relay, stated as
//! verified state machines that a driver runs around the network and
//! device calls.

pub mod descriptor;
pub mod negotiation;
pub mod pipeline;
pub mod input;
pub mod session;
