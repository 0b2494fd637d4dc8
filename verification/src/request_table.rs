//! The requests that wait for their reply.

use std::collections::HashMap;
use vstd::prelude::*;

verus! {

/// The entry of a request id, if it has one.
pub open spec fn entry_of(entries: Map<u64, (u16, u16)>, request_id: u64) -> Option<(u16, u16)> {
    if entries.contains_key(request_id) {
        Some(entries[request_id])
    } else {
        None
    }
}

/// Maps the id of each request that waits for its reply to the identifiers of
/// its kind of request and of its kind of response.
pub struct RequestTable {
    entries: HashMap<u64, (u16, u16)>,
}

impl View for RequestTable {
    type V = Map<u64, (u16, u16)>;

    closed spec fn view(&self) -> Map<u64, (u16, u16)> {
        self.entries@
    }
}

impl RequestTable {
    pub fn new() -> (table: Self)
        ensures
            table@ == Map::<u64, (u16, u16)>::empty(),
    {
        RequestTable { entries: HashMap::new() }
    }

    /// Tells whether the request with this id waits for its reply.
    pub fn contains(&self, request_id: u64) -> (r: bool)
        ensures
            r == self@.contains_key(request_id),
    {
        self.entries.contains_key(&request_id)
    }

    /// The number of requests that wait for their reply.
    pub fn len(&self) -> (n: usize)
        ensures
            n == self@.len(),
    {
        self.entries.len()
    }

    /// Enters a request that was sent. Its id must not be in use.
    pub fn record(&mut self, request_id: u64, request_event_id: u16, response_event_id: u16)
        requires
            !old(self)@.contains_key(request_id),
        ensures
            final(self)@ == old(self)@.insert(request_id, (request_event_id, response_event_id)),
    {
        self.entries.insert(request_id, (request_event_id, response_event_id));
    }

    /// Takes the entry of a request out, if it has one.
    pub fn resolve(&mut self, request_id: u64) -> (entry: Option<(u16, u16)>)
        ensures
            entry == entry_of(old(self)@, request_id),
            final(self)@ == old(self)@.remove(request_id),
    {
        self.entries.remove(&request_id)
    }
}

impl Default for RequestTable {
    fn default() -> (table: Self)
        ensures
            table@ == Map::<u64, (u16, u16)>::empty(),
    {
        RequestTable::new()
    }
}

/// No request is resolved twice: once its entry was taken out, it has none,
/// whether it had one before or not.
pub proof fn lemma_resolved_once(entries: Map<u64, (u16, u16)>, request_id: u64)
    ensures
        entry_of(entries.remove(request_id), request_id) is None,
{
}

/// A request that was entered is resolved to what was entered, and resolving
/// one request leaves the others as they were.
pub proof fn lemma_resolve_finds_what_was_recorded(
    entries: Map<u64, (u16, u16)>,
    request_id: u64,
    ids: (u16, u16),
    other: u64,
)
    requires
        other != request_id,
    ensures
        entry_of(entries.insert(request_id, ids), request_id) == Some(ids),
        entry_of(entries.insert(request_id, ids), other) == entry_of(entries, other),
        entry_of(entries.remove(request_id), other) == entry_of(entries, other),
{
}

} // verus!
