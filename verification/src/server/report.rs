//! The events that a server's session hands over.

use crate::event::InternalEvent;
use vstd::prelude::*;

verus! {

/// The kind of machine that a client runs on.
#[derive(Clone, Copy, Debug, PartialEq, Eq)]
pub enum EnvType {
    Native,
    Wasm,
}

/// Emitted by a server's session when a client connects or disconnects. `C`
/// is what a client says when it connects.
#[derive(Clone, Debug, PartialEq, Eq)]
pub enum ServerReport<C> {
    /// The client connected.
    Connected(EnvType, C),
    /// The client disconnected.
    Disconnected,
}

/// One event of a server's session. `K` is the token that the server answers
/// a request with.
#[derive(Debug)]
pub enum ServerEvent<C, K> {
    /// A report about a client connection.
    Report(ServerReport<C>),
    /// A one-shot client message.
    Msg(InternalEvent),
    /// A request to the server, with its token.
    Request(K, InternalEvent),
}

impl<C> ServerReport<C> {
    pub fn is_connected(&self) -> (r: bool)
        ensures
            r == (*self is Connected),
    {
        match self {
            ServerReport::Connected(_, _) => true,
            _ => false,
        }
    }

    pub fn is_disconnected(&self) -> (r: bool)
        ensures
            r == (*self is Disconnected),
    {
        match self {
            ServerReport::Disconnected => true,
            _ => false,
        }
    }
}

} // verus!
