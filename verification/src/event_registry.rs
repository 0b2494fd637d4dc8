//! The identifiers of the kinds of event that a channel carries.

use std::collections::HashMap;
use std::collections::HashSet;
use vstd::prelude::*;

verus! {

/// What a registry holds. A kind is named by a key that the application
/// chooses; the registry gives out the identifiers that travel with events.
#[verifier::ext_equal]
pub struct Registry {
    /// The identifier given out last; zero while none was.
    pub assigned: u16,
    /// The identifier of each kind of message.
    pub messages: Map<u64, u16>,
    /// The identifiers of all kinds of message.
    pub message_ids: Set<u16>,
    /// The identifier of each kind of request.
    pub requests: Map<u64, u16>,
    /// The identifier that was last given to each kind of response.
    pub responses: Map<u64, u16>,
    /// The kind of response that each kind of request is answered with.
    pub request_responses: Map<u64, u64>,
    /// For the identifier of each kind of request, the identifier of the
    /// response that it was registered with.
    pub response_ids: Map<u16, u16>,
}

impl Registry {
    pub open spec fn empty() -> Registry {
        Registry {
            assigned: 0,
            messages: Map::empty(),
            message_ids: Set::empty(),
            requests: Map::empty(),
            responses: Map::empty(),
            request_responses: Map::empty(),
            response_ids: Map::empty(),
        }
    }

    /// Identifiers are given out in sequence from one, no identifier serves
    /// two purposes, and every kind of request has its kind of response.
    pub open spec fn wf(self) -> bool {
        &&& self.messages.dom().finite()
        &&& self.message_ids.finite()
        &&& self.requests.dom().finite()
        &&& self.responses.dom().finite()
        &&& self.request_responses.dom().finite()
        &&& self.response_ids.dom().finite()
        &&& forall|id: u16| #[trigger]
            self.message_ids.contains(id) ==> 1 <= id <= self.assigned
                && !self.response_ids.contains_key(id)
        &&& forall|kind: u64| #[trigger]
            self.messages.contains_key(kind) ==> self.message_ids.contains(self.messages[kind])
        &&& forall|a: u64, b: u64|
            self.messages.contains_key(a) && self.messages.contains_key(b) && #[trigger] self.messages[a]
                == #[trigger] self.messages[b] ==> a == b
        &&& forall|id: u16| #[trigger]
            self.response_ids.contains_key(id) ==> {
                &&& 1 <= id < self.assigned
                &&& self.response_ids[id] == id + 1
                &&& !self.message_ids.contains((id + 1) as u16)
                &&& !self.response_ids.contains_key((id + 1) as u16)
            }
        &&& forall|kind: u64| #[trigger]
            self.requests.contains_key(kind) ==> {
                &&& self.response_ids.contains_key(self.requests[kind])
                &&& self.request_responses.contains_key(kind)
                &&& self.responses.contains_key(self.request_responses[kind])
            }
        &&& forall|kind: u64| #[trigger]
            self.request_responses.contains_key(kind) ==> self.requests.contains_key(kind)
        &&& forall|a: u64, b: u64|
            self.requests.contains_key(a) && self.requests.contains_key(b) && #[trigger] self.requests[a]
                == #[trigger] self.requests[b] ==> a == b
        &&& forall|kind: u64| #[trigger]
            self.responses.contains_key(kind) ==> {
                &&& 2 <= self.responses[kind]
                &&& self.response_ids.contains_key((self.responses[kind] - 1) as u16)
            }
    }

    /// The registry after a kind of message was registered, and the
    /// identifier of that kind: the one it had, or else the next in sequence.
    pub open spec fn registered_message(self, kind: u64) -> (Registry, u16) {
        if self.messages.contains_key(kind) {
            (self, self.messages[kind])
        } else {
            let id = (self.assigned + 1) as u16;
            (
                Registry {
                    assigned: id,
                    messages: self.messages.insert(kind, id),
                    message_ids: self.message_ids.insert(id),
                    ..self
                },
                id,
            )
        }
    }

    /// The registry after a kind of request was registered with its kind of
    /// response, and their identifiers: the next two in sequence.
    pub open spec fn registered_request_response(self, request: u64, response: u64) -> (
        Registry,
        (u16, u16),
    ) {
        let request_id = (self.assigned + 1) as u16;
        let response_id = (self.assigned + 2) as u16;
        (
            Registry {
                assigned: response_id,
                requests: self.requests.insert(request, request_id),
                responses: self.responses.insert(response, response_id),
                request_responses: self.request_responses.insert(request, response),
                response_ids: self.response_ids.insert(request_id, response_id),
                ..self
            },
            (request_id, response_id),
        )
    }

    pub open spec fn message_id(self, kind: u64) -> Option<u16> {
        if self.messages.contains_key(kind) {
            Some(self.messages[kind])
        } else {
            None
        }
    }

    pub open spec fn request_id(self, kind: u64) -> Option<u16> {
        if self.requests.contains_key(kind) {
            Some(self.requests[kind])
        } else {
            None
        }
    }

    pub open spec fn response_id(self, kind: u64) -> Option<u16> {
        if self.responses.contains_key(kind) {
            Some(self.responses[kind])
        } else {
            None
        }
    }

    /// The identifier that the kind of response of this kind of request holds
    /// now.
    pub open spec fn response_id_from_request(self, request: u64) -> Option<u16> {
        if self.request_responses.contains_key(request) {
            self.response_id(self.request_responses[request])
        } else {
            None
        }
    }

    /// The identifier of the response that a request with this identifier was
    /// registered with.
    pub open spec fn response_id_from_request_id(self, request_event_id: u16) -> Option<u16> {
        if self.response_ids.contains_key(request_event_id) {
            Some(self.response_ids[request_event_id])
        } else {
            None
        }
    }
}

/// Used to register the kinds of event that can be sent over the network.
pub struct EventRegistry {
    id_counter: u16,
    message_map: HashMap<u64, u16>,
    message_ids: HashSet<u16>,
    request_map: HashMap<u64, u16>,
    response_map: HashMap<u64, u16>,
    request_response_map: HashMap<u64, u64>,
    request_response_ids: HashMap<u16, u16>,
}

impl View for EventRegistry {
    type V = Registry;

    closed spec fn view(&self) -> Registry {
        Registry {
            assigned: self.id_counter,
            messages: self.message_map@,
            message_ids: self.message_ids@,
            requests: self.request_map@,
            responses: self.response_map@,
            request_responses: self.request_response_map@,
            response_ids: self.request_response_ids@,
        }
    }
}

impl EventRegistry {
    pub fn new() -> (registry: Self)
        ensures
            registry@ == Registry::empty(),
            registry@.wf(),
    {
        EventRegistry {
            id_counter: 0,
            message_map: HashMap::new(),
            message_ids: HashSet::new(),
            request_map: HashMap::new(),
            response_map: HashMap::new(),
            request_response_map: HashMap::new(),
            request_response_ids: HashMap::new(),
        }
    }

    /// The identifier that was given out last; zero while none was.
    pub fn id_counter(&self) -> (n: u16)
        ensures
            n == self@.assigned,
    {
        self.id_counter
    }

    /// Registers a kind of message and returns its identifier. A kind that is
    /// registered already keeps the identifier that it has.
    pub fn register_message(&mut self, kind: u64) -> (id: u16)
        requires
            old(self)@.wf(),
            old(self)@.messages.contains_key(kind) || old(self)@.assigned < u16::MAX,
        ensures
            final(self)@.wf(),
            (final(self)@, id) == old(self)@.registered_message(kind),
    {
        if let Some(id) = self.message_map.get(&kind) {
            return *id;
        }
        self.id_counter += 1;
        let id: u16 = self.id_counter;
        self.message_map.insert(kind, id);
        self.message_ids.insert(id);
        proof {
            let before = old(self)@;
            let after = self@;
            assert(after =~= before.registered_message(kind).0);
            assert forall|other: u16| #[trigger] after.response_ids.contains_key(other) implies {
                &&& 1 <= other < after.assigned
                &&& after.response_ids[other] == other + 1
                &&& !after.message_ids.contains((other + 1) as u16)
                &&& !after.response_ids.contains_key((other + 1) as u16)
            } by {
                assert(before.response_ids.contains_key(other));
            }
            assert forall|a: u64, b: u64|
                after.messages.contains_key(a) && after.messages.contains_key(b)
                    && #[trigger] after.messages[a] == #[trigger] after.messages[b] implies a
                == b by {
                if a != kind {
                    assert(before.message_ids.contains(before.messages[a]));
                }
                if b != kind {
                    assert(before.message_ids.contains(before.messages[b]));
                }
            }
        }
        id
    }

    /// Registers a kind of request with the kind of response that answers it,
    /// and returns the identifiers of the two.
    pub fn register_request_response(&mut self, request: u64, response: u64) -> (ids: (u16, u16))
        requires
            old(self)@.wf(),
            !old(self)@.requests.contains_key(request),
            old(self)@.assigned + 2 <= u16::MAX,
        ensures
            final(self)@.wf(),
            (final(self)@, ids) == old(self)@.registered_request_response(request, response),
    {
        self.id_counter += 1;
        let req_id: u16 = self.id_counter;
        self.id_counter += 1;
        let resp_id: u16 = self.id_counter;
        self.request_map.insert(request, req_id);
        self.response_map.insert(response, resp_id);
        self.request_response_map.insert(request, response);
        self.request_response_ids.insert(req_id, resp_id);
        proof {
            let before = old(self)@;
            let after = self@;
            assert(after =~= before.registered_request_response(request, response).0);
            assert forall|id: u16| #[trigger] after.message_ids.contains(id) implies 1 <= id
                <= after.assigned && !after.response_ids.contains_key(id) by {
                assert(before.message_ids.contains(id));
            }
            assert forall|other: u16| #[trigger] after.response_ids.contains_key(other) implies {
                &&& 1 <= other < after.assigned
                &&& after.response_ids[other] == other + 1
                &&& !after.message_ids.contains((other + 1) as u16)
                &&& !after.response_ids.contains_key((other + 1) as u16)
            } by {
                if other != req_id {
                    assert(before.response_ids.contains_key(other));
                    if before.message_ids.contains((other + 1) as u16) {
                    }
                } else {
                    if before.message_ids.contains(resp_id) {
                    }
                    if before.response_ids.contains_key(resp_id) {
                    }
                }
            }
            assert forall|kind: u64| #[trigger] after.requests.contains_key(kind) implies {
                &&& after.response_ids.contains_key(after.requests[kind])
                &&& after.request_responses.contains_key(kind)
                &&& after.responses.contains_key(after.request_responses[kind])
            } by {
                if kind != request {
                    assert(before.requests.contains_key(kind));
                }
            }
            assert forall|a: u64, b: u64|
                after.requests.contains_key(a) && after.requests.contains_key(b)
                    && #[trigger] after.requests[a] == #[trigger] after.requests[b] implies a
                == b by {
                if a != request {
                    assert(before.response_ids.contains_key(before.requests[a]));
                }
                if b != request {
                    assert(before.response_ids.contains_key(before.requests[b]));
                }
            }
            assert forall|kind: u64| #[trigger] after.responses.contains_key(kind) implies {
                &&& 2 <= after.responses[kind]
                &&& after.response_ids.contains_key((after.responses[kind] - 1) as u16)
            } by {
                if kind != response {
                    assert(before.responses.contains_key(kind));
                }
            }
        }
        (req_id, resp_id)
    }

    pub fn get_message_id(&self, kind: u64) -> (id: Option<u16>)
        ensures
            id == self@.message_id(kind),
    {
        match self.message_map.get(&kind) {
            Some(id) => Some(*id),
            None => None,
        }
    }

    /// Tells whether some kind of message holds this identifier.
    pub fn has_message_id(&self, id: u16) -> (r: bool)
        ensures
            r == self@.message_ids.contains(id),
    {
        self.message_ids.contains(&id)
    }

    pub fn get_request_id(&self, kind: u64) -> (id: Option<u16>)
        ensures
            id == self@.request_id(kind),
    {
        match self.request_map.get(&kind) {
            Some(id) => Some(*id),
            None => None,
        }
    }

    pub fn get_response_id(&self, kind: u64) -> (id: Option<u16>)
        ensures
            id == self@.response_id(kind),
    {
        match self.response_map.get(&kind) {
            Some(id) => Some(*id),
            None => None,
        }
    }

    /// The identifier that the kind of response of this kind of request holds
    /// now.
    pub fn get_response_id_from_request(&self, request: u64) -> (id: Option<u16>)
        ensures
            id == self@.response_id_from_request(request),
    {
        match self.request_response_map.get(&request) {
            Some(response) => self.get_response_id(*response),
            None => None,
        }
    }

    /// The identifier of the response that a request with this identifier was
    /// registered with.
    pub fn get_response_id_from_request_id(&self, request_event_id: u16) -> (id: Option<u16>)
        ensures
            id == self@.response_id_from_request_id(request_event_id),
    {
        match self.request_response_ids.get(&request_event_id) {
            Some(id) => Some(*id),
            None => None,
        }
    }
}

impl Default for EventRegistry {
    fn default() -> (registry: Self)
        ensures
            registry@ == Registry::empty(),
            registry@.wf(),
    {
        EventRegistry::new()
    }
}

/// Registering the same kind of message twice yields the same identifier
/// both times, and the second registration changes nothing.
pub proof fn lemma_register_message_twice(registry: Registry, kind: u64)
    ensures
        ({
            let (once, first) = registry.registered_message(kind);
            let (twice, second) = once.registered_message(kind);
            first == second && twice == once
        }),
{
}

/// Two kinds of message never share an identifier, and neither do two kinds
/// of request.
pub proof fn lemma_kinds_have_their_own_ids(registry: Registry, a: u64, b: u64)
    requires
        registry.wf(),
        a != b,
    ensures
        registry.messages.contains_key(a) && registry.messages.contains_key(b)
            ==> registry.messages[a] != registry.messages[b],
        registry.requests.contains_key(a) && registry.requests.contains_key(b)
            ==> registry.requests[a] != registry.requests[b],
{
}

/// The identifier of a kind of message is that of no request and no response.
pub proof fn lemma_message_ids_stand_apart(registry: Registry, message: u64, request: u64)
    requires
        registry.wf(),
        registry.messages.contains_key(message),
        registry.requests.contains_key(request),
    ensures
        registry.messages[message] != registry.requests[request],
        registry.messages[message] != registry.response_ids[registry.requests[request]],
        registry.response_id_from_request_id(registry.requests[request]) == Some(
            (registry.requests[request] + 1) as u16,
        ),
{
    assert(registry.message_ids.contains(registry.messages[message]));
    assert(registry.response_ids.contains_key(registry.requests[request]));
}

/// Every registered kind of request has a kind of response with an
/// identifier.
pub proof fn lemma_request_has_response(registry: Registry, request: u64)
    requires
        registry.wf(),
        registry.requests.contains_key(request),
    ensures
        registry.response_id_from_request(request) is Some,
        registry.response_id_from_request_id(registry.requests[request]) is Some,
{
}

} // verus!
