//! The queues that a server's readers consume.

use crate::server::report::ServerReport;
use vstd::prelude::*;

verus! {

/// Tells of an item whether it comes from another client than this one.
pub open spec fn from_other_client<T>(client_id: u128) -> spec_fn((u128, T)) -> bool {
    |item: (u128, T)| item.0 != client_id
}

/// The items that do not come from this client, in their order.
pub open spec fn of_other_clients<T>(items: Seq<(u128, T)>, client_id: u128) -> Seq<(u128, T)> {
    items.filter(from_other_client(client_id))
}

/// Drops the items that come from one client and keeps the others in their
/// order.
pub fn without_client<T>(items: Vec<(u128, T)>, client_id: u128) -> (kept: Vec<(u128, T)>)
    ensures
        kept@ == of_other_clients(items@, client_id),
{
    let mut kept: Vec<(u128, T)> = Vec::new();
    proof {
        reveal(Seq::filter);
        assert(items@.take(0) =~= Seq::<(u128, T)>::empty());
    }
    for item in it: items
        invariant
            it.seq() == items@,
            kept@ == of_other_clients(items@.take(it.index() as int), client_id),
    {
        proof {
            reveal(Seq::filter);
            let upto = items@.take(it.index() + 1);
            assert(upto.drop_last() == items@.take(it.index() as int));
            assert(upto.last() == item);
        }
        if item.0 != client_id {
            kept.push(item);
        }
    }
    proof {
        assert(items@.take(items@.len() as int) == items@);
    }
    kept
}

/// What is kept holds nothing of the client, holds only what was there
/// before, and keeps everything of every other client.
pub proof fn lemma_of_other_clients<T>(items: Seq<(u128, T)>, client_id: u128)
    ensures
        forall|i: int|
            0 <= i < of_other_clients(items, client_id).len() ==> (#[trigger] of_other_clients(
                items,
                client_id,
            )[i]).0 != client_id,
        forall|i: int|
            0 <= i < of_other_clients(items, client_id).len() ==> items.contains(
                #[trigger] of_other_clients(items, client_id)[i],
            ),
        forall|i: int|
            0 <= i < items.len() && (#[trigger] items[i]).0 != client_id ==> of_other_clients(
                items,
                client_id,
            ).contains(items[i]),
        of_other_clients(of_other_clients(items, client_id), client_id) == of_other_clients(
            items,
            client_id,
        ),
{
    let keep = from_other_client::<T>(client_id);
    items.filter_lemma(keep);
    let kept = items.filter(keep);
    assert forall|i: int| 0 <= i < kept.len() implies items.contains(#[trigger] kept[i]) by {
        items.lemma_filter_contains_rev(keep, kept[i]);
    }
    lemma_keeping_all(kept, client_id);
}

/// Where nothing comes from the client, everything is kept.
proof fn lemma_keeping_all<T>(items: Seq<(u128, T)>, client_id: u128)
    requires
        forall|i: int| 0 <= i < items.len() ==> (#[trigger] items[i]).0 != client_id,
    ensures
        of_other_clients(items, client_id) == items,
    decreases items.len(),
{
    reveal(Seq::filter);
    if items.len() > 0 {
        let shorter = items.drop_last();
        assert forall|i: int| 0 <= i < shorter.len() implies (#[trigger] shorter[i]).0
            != client_id by {
            assert(shorter[i] == items[i]);
        }
        lemma_keeping_all(shorter, client_id);
        assert(items.last() == items[items.len() - 1]);
        assert(shorter.push(items.last()) =~= items);
    }
}

/// The connection reports of the current pass, each with its counter and the
/// id of the client that it is about.
pub struct ServerConnectionQueue<C> {
    queue: Vec<(u64, u128, ServerReport<C>)>,
}

impl<C> View for ServerConnectionQueue<C> {
    type V = Seq<(u64, u128, ServerReport<C>)>;

    closed spec fn view(&self) -> Seq<(u64, u128, ServerReport<C>)> {
        self.queue@
    }
}

impl<C> ServerConnectionQueue<C> {
    pub fn new() -> (q: Self)
        ensures
            q@ == Seq::<(u64, u128, ServerReport<C>)>::empty(),
    {
        ServerConnectionQueue { queue: Vec::new() }
    }

    pub fn clear(&mut self)
        ensures
            final(self)@ == Seq::<(u64, u128, ServerReport<C>)>::empty(),
    {
        self.queue.clear();
    }

    pub fn send(&mut self, counter: u64, client_id: u128, report: ServerReport<C>)
        ensures
            final(self)@ == old(self)@.push((counter, client_id, report)),
    {
        self.queue.push((counter, client_id, report));
    }

    /// The queued reports, oldest first. Reading them removes nothing.
    pub fn iter(&self) -> (items: &Vec<(u64, u128, ServerReport<C>)>)
        ensures
            items@ == self@,
    {
        &self.queue
    }

    pub fn len(&self) -> (n: usize)
        ensures
            n == self@.len(),
    {
        self.queue.len()
    }
}

impl<C> Default for ServerConnectionQueue<C> {
    fn default() -> (q: Self)
        ensures
            q@ == Seq::<(u64, u128, ServerReport<C>)>::empty(),
    {
        ServerConnectionQueue::new()
    }
}

/// The messages of one kind that arrived in the current pass, each with the
/// id of the client that sent it.
pub struct ServerMessageQueue<T> {
    queue: Vec<(u128, T)>,
}

impl<T> View for ServerMessageQueue<T> {
    type V = Seq<(u128, T)>;

    closed spec fn view(&self) -> Seq<(u128, T)> {
        self.queue@
    }
}

impl<T> ServerMessageQueue<T> {
    pub fn new() -> (q: Self)
        ensures
            q@ == Seq::<(u128, T)>::empty(),
    {
        ServerMessageQueue { queue: Vec::new() }
    }

    pub fn clear(&mut self)
        ensures
            final(self)@ == Seq::<(u128, T)>::empty(),
    {
        self.queue.clear();
    }

    /// Drops the messages of one client.
    pub fn clear_session(&mut self, client_id: u128)
        ensures
            final(self)@ == of_other_clients(old(self)@, client_id),
    {
        let mut items: Vec<(u128, T)> = Vec::new();
        std::mem::swap(&mut self.queue, &mut items);
        self.queue = without_client(items, client_id);
    }

    pub fn send(&mut self, client_id: u128, message: T)
        ensures
            final(self)@ == old(self)@.push((client_id, message)),
    {
        self.queue.push((client_id, message));
    }

    /// The queued messages, oldest first. Reading them removes nothing.
    pub fn iter(&self) -> (items: &Vec<(u128, T)>)
        ensures
            items@ == self@,
    {
        &self.queue
    }

    pub fn len(&self) -> (n: usize)
        ensures
            n == self@.len(),
    {
        self.queue.len()
    }
}

impl<T> Default for ServerMessageQueue<T> {
    fn default() -> (q: Self)
        ensures
            q@ == Seq::<(u128, T)>::empty(),
    {
        ServerMessageQueue::new()
    }
}

/// The requests of one kind that arrived in the current pass, each with the
/// id of the client that sent it and the token to answer it with.
pub struct ServerRequestQueue<K, T> {
    queue: Vec<(u128, (K, T))>,
}

impl<K, T> View for ServerRequestQueue<K, T> {
    type V = Seq<(u128, (K, T))>;

    closed spec fn view(&self) -> Seq<(u128, (K, T))> {
        self.queue@
    }
}

impl<K, T> ServerRequestQueue<K, T> {
    pub fn new() -> (q: Self)
        ensures
            q@ == Seq::<(u128, (K, T))>::empty(),
    {
        ServerRequestQueue { queue: Vec::new() }
    }

    pub fn clear(&mut self)
        ensures
            final(self)@ == Seq::<(u128, (K, T))>::empty(),
    {
        self.queue.clear();
    }

    /// Drops the requests of one client.
    pub fn clear_session(&mut self, client_id: u128)
        ensures
            final(self)@ == of_other_clients(old(self)@, client_id),
    {
        let mut items: Vec<(u128, (K, T))> = Vec::new();
        std::mem::swap(&mut self.queue, &mut items);
        self.queue = without_client(items, client_id);
    }

    pub fn send(&mut self, client_id: u128, request_token: K, request: T)
        ensures
            final(self)@ == old(self)@.push((client_id, (request_token, request))),
    {
        self.queue.push((client_id, (request_token, request)));
    }

    /// Takes every queued request out, oldest first.
    pub fn drain(&mut self) -> (items: Vec<(u128, (K, T))>)
        ensures
            items@ == old(self)@,
            final(self)@ == Seq::<(u128, (K, T))>::empty(),
    {
        let mut items: Vec<(u128, (K, T))> = Vec::new();
        std::mem::swap(&mut self.queue, &mut items);
        items
    }

    pub fn len(&self) -> (n: usize)
        ensures
            n == self@.len(),
    {
        self.queue.len()
    }
}

impl<K, T> Default for ServerRequestQueue<K, T> {
    fn default() -> (q: Self)
        ensures
            q@ == Seq::<(u128, (K, T))>::empty(),
    {
        ServerRequestQueue::new()
    }
}

} // verus!
