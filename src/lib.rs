//! Host-key discovery over the SSH transport layer: the client's algorithm
//! configuration, the name-list negotiation rule, the rendering of the
//! captured host key, and the state machine that drives one probe.

pub mod algos;
pub mod negotiate;
pub mod hostkey;
pub mod probe;
