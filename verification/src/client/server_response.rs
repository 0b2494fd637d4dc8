//! What a client learns of the fate of one of its requests.

use vstd::prelude::*;
use vstd::std_specs::cmp::PartialEqSpec;
use vstd::std_specs::cmp::PartialEqSpecImpl;

verus! {

/// The terminal reply to a request as it arrives, with the payload of a
/// response still encoded.
#[derive(Clone, Debug, PartialEq, Eq)]
pub enum PendingResponseData {
    Response(Vec<u8>),
    Ack,
    Reject,
    SendFailed,
    ResponseLost,
}

/// The terminal reply to a client request, tagged with the request's id.
#[derive(Clone, Debug)]
pub enum ServerResponse<T> {
    /// Response from the server.
    Response(T, u64),
    /// Request is acknowledged. No response will be sent.
    Ack(u64),
    /// Request is rejected. No response will be sent.
    Reject(u64),
    /// Sending a request failed.
    SendFailed(u64),
    /// The server received a request but the client failed to receive a response.
    ResponseLost(u64),
}

impl PendingResponseData {
    /// A reply that reports success: a response or an acknowledgement. Only
    /// these are replaced when their connection is gone.
    pub open spec fn spec_is_success(self) -> bool {
        self is Response || self is Ack
    }

    /// The reply that the application is shown for this data.
    pub open spec fn spec_into_response(self, request_id: u64) -> ServerResponse<Vec<u8>> {
        match self {
            PendingResponseData::Response(data) => ServerResponse::Response(data, request_id),
            PendingResponseData::Ack => ServerResponse::Ack(request_id),
            PendingResponseData::Reject => ServerResponse::Reject(request_id),
            PendingResponseData::SendFailed => ServerResponse::SendFailed(request_id),
            PendingResponseData::ResponseLost => ServerResponse::ResponseLost(request_id),
        }
    }

    /// The reply that the application is shown once the connection that the
    /// reply came over is gone (`stale`), or while it still stands.
    pub open spec fn spec_settle(self, request_id: u64, stale: bool) -> ServerResponse<Vec<u8>> {
        if stale && self.spec_is_success() {
            ServerResponse::ResponseLost(request_id)
        } else {
            self.spec_into_response(request_id)
        }
    }

    pub fn is_success(&self) -> (r: bool)
        ensures
            r == self.spec_is_success(),
    {
        match self {
            PendingResponseData::Response(_) => true,
            PendingResponseData::Ack => true,
            _ => false,
        }
    }

    /// Tags the reply with the id of the request that it ends.
    pub fn into_response(self, request_id: u64) -> (r: ServerResponse<Vec<u8>>)
        ensures
            r == self.spec_into_response(request_id),
    {
        match self {
            PendingResponseData::Response(data) => ServerResponse::Response(data, request_id),
            PendingResponseData::Ack => ServerResponse::Ack(request_id),
            PendingResponseData::Reject => ServerResponse::Reject(request_id),
            PendingResponseData::SendFailed => ServerResponse::SendFailed(request_id),
            PendingResponseData::ResponseLost => ServerResponse::ResponseLost(request_id),
        }
    }

    /// Tags the reply with its request id; a response or acknowledgement that
    /// is `stale` becomes a lost response.
    pub fn settle(self, request_id: u64, stale: bool) -> (r: ServerResponse<Vec<u8>>)
        ensures
            r == self.spec_settle(request_id, stale),
    {
        if stale && self.is_success() {
            ServerResponse::ResponseLost(request_id)
        } else {
            self.into_response(request_id)
        }
    }
}

impl<T> ServerResponse<T> {
    /// The id of the request that this reply ends.
    pub open spec fn spec_request_id(self) -> u64 {
        match self {
            ServerResponse::Response(_, request_id) => request_id,
            ServerResponse::Ack(request_id) => request_id,
            ServerResponse::Reject(request_id) => request_id,
            ServerResponse::SendFailed(request_id) => request_id,
            ServerResponse::ResponseLost(request_id) => request_id,
        }
    }

    /// A reply that reports success: a response or an acknowledgement.
    pub open spec fn spec_is_success(self) -> bool {
        self is Response || self is Ack
    }

    /// This reply once the connection that it came over is gone: a success
    /// becomes a lost response for the same request, anything else stays.
    pub open spec fn lost(self) -> ServerResponse<T> {
        if self.spec_is_success() {
            ServerResponse::ResponseLost(self.spec_request_id())
        } else {
            self
        }
    }

    /// Accesses the internal response if self is [`ServerResponse::Response`].
    pub fn response(&self) -> (r: Option<&T>)
        ensures
            r == (match *self {
                ServerResponse::Response(response, _) => Some(&response),
                _ => None,
            }),
    {
        match self {
            ServerResponse::Response(response, _) => Some(response),
            _ => None,
        }
    }

    /// Assesses the response's original request id.
    pub fn request_id(&self) -> (r: u64)
        ensures
            r == self.spec_request_id(),
    {
        match self {
            ServerResponse::Response(_, request_id) => *request_id,
            ServerResponse::Ack(request_id) => *request_id,
            ServerResponse::Reject(request_id) => *request_id,
            ServerResponse::SendFailed(request_id) => *request_id,
            ServerResponse::ResponseLost(request_id) => *request_id,
        }
    }

    pub fn is_success(&self) -> (r: bool)
        ensures
            r == self.spec_is_success(),
    {
        match self {
            ServerResponse::Response(_, _) => true,
            ServerResponse::Ack(_) => true,
            _ => false,
        }
    }
}

impl<T: PartialEq> PartialEq for ServerResponse<T> {
    fn eq(&self, other: &Self) -> (r: bool) {
        match (self, other) {
            (ServerResponse::Response(l0, l1), ServerResponse::Response(r0, r1)) => l0 == r0
                && *l1 == *r1,
            (ServerResponse::Ack(l0), ServerResponse::Ack(r0)) => *l0 == *r0,
            (ServerResponse::Reject(l0), ServerResponse::Reject(r0)) => *l0 == *r0,
            (ServerResponse::SendFailed(l0), ServerResponse::SendFailed(r0)) => *l0 == *r0,
            (ServerResponse::ResponseLost(l0), ServerResponse::ResponseLost(r0)) => *l0 == *r0,
            _ => false,
        }
    }
}

impl<T: PartialEq> PartialEqSpecImpl for ServerResponse<T> {
    open spec fn obeys_eq_spec() -> bool {
        T::obeys_eq_spec()
    }

    open spec fn eq_spec(&self, other: &ServerResponse<T>) -> bool {
        match (*self, *other) {
            (ServerResponse::Response(l0, l1), ServerResponse::Response(r0, r1)) => l0.eq_spec(&r0)
                && l1 == r1,
            (ServerResponse::Ack(l0), ServerResponse::Ack(r0)) => l0 == r0,
            (ServerResponse::Reject(l0), ServerResponse::Reject(r0)) => l0 == r0,
            (ServerResponse::SendFailed(l0), ServerResponse::SendFailed(r0)) => l0 == r0,
            (ServerResponse::ResponseLost(l0), ServerResponse::ResponseLost(r0)) => l0 == r0,
            _ => false,
        }
    }
}

impl<T: Eq> Eq for ServerResponse<T> {}

/// A success whose connection is gone is shown as a lost response that
/// carries the id of the original request, whatever the payload was.
pub proof fn lemma_stale_success_is_lost(data: PendingResponseData, request_id: u64)
    requires
        data.spec_is_success(),
    ensures
        data.spec_settle(request_id, true) == ServerResponse::<Vec<u8>>::ResponseLost(request_id),
        data.spec_settle(request_id, true).spec_request_id() == request_id,
{
}

/// A reply that already reports a failure is shown as it came, stale or not,
/// and so is every reply whose connection still stands.
pub proof fn lemma_failure_is_kept(data: PendingResponseData, request_id: u64, stale: bool)
    requires
        !data.spec_is_success() || !stale,
    ensures
        data.spec_settle(request_id, stale) == data.spec_into_response(request_id),
        data.spec_settle(request_id, stale).spec_request_id() == request_id,
{
}

} // verus!
