//! The events that a client's session hands over.

use crate::event::CloseFrame;
use crate::event::InternalEvent;
use vstd::prelude::*;

verus! {

/// Emitted by a client's session when it connects, disconnects or shuts down.
#[derive(Clone, Debug, PartialEq, Eq)]
pub enum ClientReport {
    /// The client connected to the server.
    Connected,
    /// The client disconnected from the server.
    Disconnected,
    /// The client was closed by the server.
    ClosedByServer(Option<CloseFrame>),
    /// The client closed itself.
    ClosedBySelf,
    /// The client has died and will not try to reconnect. Holds the ids of the
    /// requests that were still being sent.
    IsDead(Vec<u64>),
}

/// One event of a client's session, in the order of arrival.
#[derive(Clone, Debug, PartialEq, Eq)]
pub enum ClientEvent {
    /// A connection report.
    Report(ClientReport),
    /// A one-shot server message.
    Msg(InternalEvent),
    /// A response to the request with this id.
    Response(InternalEvent, u64),
    /// The server acknowledged the request with this id.
    Ack(u64),
    /// The server rejected the request with this id.
    Reject(u64),
    /// Sending the request with this id failed.
    SendFailed(u64),
    /// The server received the request with this id, but its reply was lost.
    ResponseLost(u64),
}

impl ClientReport {
    pub fn is_connected(&self) -> (r: bool)
        ensures
            r == (*self is Connected),
    {
        match self {
            ClientReport::Connected => true,
            _ => false,
        }
    }

    pub fn is_disconnected(&self) -> (r: bool)
        ensures
            r == (*self is Disconnected),
    {
        match self {
            ClientReport::Disconnected => true,
            _ => false,
        }
    }
}

} // verus!
