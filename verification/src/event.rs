//! The payload that travels over the channel.

use vstd::prelude::*;

verus! {

/// A type-erased event: the identifier of its kind and its encoded payload.
#[derive(Clone, Debug, PartialEq, Eq)]
pub struct InternalEvent {
    pub id: u16,
    pub data: Vec<u8>,
}

/// Why and how a connection was closed by the other side.
#[derive(Clone, Debug, PartialEq, Eq)]
pub struct CloseFrame {
    pub code: u16,
    pub reason: String,
}

} // verus!
