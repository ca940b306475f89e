//! The ping operation: no input; the reply names the wire protocol version.
use vstd::prelude::*;

verus! {

/// Input of a ping: nothing.
#[derive(Clone, Copy, Debug, PartialEq, Eq, Structural)]
pub struct Operation {}

/// Reply to a ping.
#[derive(Clone, Copy, Debug, PartialEq, Eq, Structural)]
pub struct Result {
    pub wire_protocol_version_maj: u8,
    pub wire_protocol_version_min: u8,
}

} // verus!
