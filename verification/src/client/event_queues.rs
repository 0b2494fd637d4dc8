//! The queues that a client's readers consume.

use crate::client::report::ClientReport;
use crate::client::server_response::ServerResponse;
use vstd::prelude::*;

verus! {

/// The connection reports of the current pass, each with its counter.
pub struct ClientConnectionQueue {
    queue: Vec<(u64, ClientReport)>,
}

impl View for ClientConnectionQueue {
    type V = Seq<(u64, ClientReport)>;

    closed spec fn view(&self) -> Seq<(u64, ClientReport)> {
        self.queue@
    }
}

impl ClientConnectionQueue {
    pub fn new() -> (q: Self)
        ensures
            q@ == Seq::<(u64, ClientReport)>::empty(),
    {
        ClientConnectionQueue { queue: Vec::new() }
    }

    pub fn clear(&mut self)
        ensures
            final(self)@ == Seq::<(u64, ClientReport)>::empty(),
    {
        self.queue.clear();
    }

    pub fn send(&mut self, counter: u64, report: ClientReport)
        ensures
            final(self)@ == old(self)@.push((counter, report)),
    {
        self.queue.push((counter, report));
    }

    /// The queued reports, oldest first. Reading them removes nothing.
    pub fn iter(&self) -> (items: &Vec<(u64, ClientReport)>)
        ensures
            items@ == self@,
    {
        &self.queue
    }

    pub fn len(&self) -> (n: usize)
        ensures
            n == self@.len(),
    {
        self.queue.len()
    }
}

impl Default for ClientConnectionQueue {
    fn default() -> (q: Self)
        ensures
            q@ == Seq::<(u64, ClientReport)>::empty(),
    {
        ClientConnectionQueue::new()
    }
}

/// The messages of one kind that arrived in the current pass.
pub struct ClientMessageQueue<T> {
    queue: Vec<T>,
}

impl<T> View for ClientMessageQueue<T> {
    type V = Seq<T>;

    closed spec fn view(&self) -> Seq<T> {
        self.queue@
    }
}

impl<T> ClientMessageQueue<T> {
    pub fn new() -> (q: Self)
        ensures
            q@ == Seq::<T>::empty(),
    {
        ClientMessageQueue { queue: Vec::new() }
    }

    pub fn clear(&mut self)
        ensures
            final(self)@ == Seq::<T>::empty(),
    {
        self.queue.clear();
    }

    pub fn send(&mut self, message: T)
        ensures
            final(self)@ == old(self)@.push(message),
    {
        self.queue.push(message);
    }

    /// The queued messages, oldest first. Reading them removes nothing.
    pub fn iter(&self) -> (items: &Vec<T>)
        ensures
            items@ == self@,
    {
        &self.queue
    }

    pub fn len(&self) -> (n: usize)
        ensures
            n == self@.len(),
    {
        self.queue.len()
    }
}

impl<T> Default for ClientMessageQueue<T> {
    fn default() -> (q: Self)
        ensures
            q@ == Seq::<T>::empty(),
    {
        ClientMessageQueue::new()
    }
}

/// The replies to requests of one kind that arrived in the current pass.
pub struct ClientResponseQueue<T> {
    queue: Vec<ServerResponse<T>>,
}

impl<T> View for ClientResponseQueue<T> {
    type V = Seq<ServerResponse<T>>;

    closed spec fn view(&self) -> Seq<ServerResponse<T>> {
        self.queue@
    }
}

/// The replies once their connection is gone: every success has become a
/// lost response for the same request, in place.
pub open spec fn all_lost<T>(replies: Seq<ServerResponse<T>>) -> Seq<ServerResponse<T>> {
    Seq::new(replies.len(), |i: int| replies[i].lost())
}

impl<T> ClientResponseQueue<T> {
    pub fn new() -> (q: Self)
        ensures
            q@ == Seq::<ServerResponse<T>>::empty(),
    {
        ClientResponseQueue { queue: Vec::new() }
    }

    pub fn clear(&mut self)
        ensures
            final(self)@ == Seq::<ServerResponse<T>>::empty(),
    {
        self.queue.clear();
    }

    /// Replaces every queued response or acknowledgement by a lost response
    /// for the same request.
    pub fn reset(&mut self)
        ensures
            final(self)@ == all_lost(old(self)@),
    {
        let n: usize = self.queue.len();
        let mut i: usize = 0;
        while i < n
            invariant
                i <= n,
                self.queue.len() == n,
                old(self).queue.len() == n,
                forall|j: int| 0 <= j < i ==> self.queue[j] == old(self).queue[j].lost(),
                forall|j: int| i <= j < n ==> self.queue[j] == old(self).queue[j],
            decreases n - i,
        {
            if self.queue[i].is_success() {
                let id: u64 = self.queue[i].request_id();
                self.queue[i] = ServerResponse::ResponseLost(id);
            }
            i += 1;
        }
        assert(self.queue@ =~= all_lost(old(self).queue@));
    }

    pub fn send(&mut self, response: ServerResponse<T>)
        ensures
            final(self)@ == old(self)@.push(response),
    {
        self.queue.push(response);
    }

    /// The queued replies, oldest first. Reading them removes nothing.
    pub fn iter(&self) -> (items: &Vec<ServerResponse<T>>)
        ensures
            items@ == self@,
    {
        &self.queue
    }

    pub fn len(&self) -> (n: usize)
        ensures
            n == self@.len(),
    {
        self.queue.len()
    }
}

impl<T> Default for ClientResponseQueue<T> {
    fn default() -> (q: Self)
        ensures
            q@ == Seq::<ServerResponse<T>>::empty(),
    {
        ClientResponseQueue::new()
    }
}

/// After a reset no queued reply reports a success, and each still names the
/// request that it named before.
pub proof fn lemma_all_lost_holds_no_success<T>(replies: Seq<ServerResponse<T>>, i: int)
    requires
        0 <= i < replies.len(),
    ensures
        all_lost(replies).len() == replies.len(),
        !all_lost(replies)[i].spec_is_success(),
        all_lost(replies)[i].spec_request_id() == replies[i].spec_request_id(),
        replies[i].spec_is_success() ==> all_lost(replies)[i] == ServerResponse::<
            T,
        >::ResponseLost(replies[i].spec_request_id()),
        !replies[i].spec_is_success() ==> all_lost(replies)[i] == replies[i],
{
}

/// Resetting twice changes nothing more.
pub proof fn lemma_all_lost_idempotent<T>(replies: Seq<ServerResponse<T>>)
    ensures
        all_lost(all_lost(replies)) == all_lost(replies),
{
    assert(all_lost(all_lost(replies)) =~= all_lost(replies));
}

} // verus!
