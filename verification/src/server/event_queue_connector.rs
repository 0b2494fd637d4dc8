//! The server's queues, one per registered kind, and the way into them.

use crate::server::event_queues::of_other_clients;
use crate::server::event_queues::ServerConnectionQueue;
use crate::server::event_queues::ServerMessageQueue;
use crate::server::event_queues::ServerRequestQueue;
use crate::server::report::ServerReport;
use crate::slot::find_pair_slot;
use crate::slot::find_slot;
use crate::slot::keys_distinct;
use crate::slot::lemma_index_of;
use crate::slot::lemma_slot_map_push;
use crate::slot::lemma_slot_map_update;
use crate::slot::lemma_slot_map_values;
use crate::slot::slot_map;
use crate::slot::Slot;
use vstd::prelude::*;

verus! {

/// What the server's queues hold: the connection reports with their counters
/// and clients, the messages by kind, and the requests by the kinds of
/// response and request. Every message and request stands with the id of its
/// client, every request also with its token.
#[verifier::ext_equal]
pub struct ServerQueues<C, K> {
    pub connections: Seq<(u64, u128, ServerReport<C>)>,
    pub messages: Map<u16, Seq<(u128, Vec<u8>)>>,
    pub requests: Map<(u16, u16), Seq<(u128, (K, Vec<u8>))>>,
}

/// The key of the queue for requests of one kind.
pub open spec fn request_key(request_event_id: u16, response_event_id: u16) -> (u16, u16) {
    (response_event_id, request_event_id)
}

impl<C, K> ServerQueues<C, K> {
    /// No kind registered, nothing queued.
    pub open spec fn empty() -> ServerQueues<C, K> {
        ServerQueues { connections: Seq::empty(), messages: Map::empty(), requests: Map::empty() }
    }

    /// The same kinds, every queue empty.
    pub open spec fn cleared(self) -> ServerQueues<C, K> {
        ServerQueues {
            connections: Seq::empty(),
            messages: self.messages.map_values(
                |q: Seq<(u128, Vec<u8>)>| Seq::<(u128, Vec<u8>)>::empty(),
            ),
            requests: self.requests.map_values(
                |q: Seq<(u128, (K, Vec<u8>))>| Seq::<(u128, (K, Vec<u8>))>::empty(),
            ),
        }
    }

    /// The queues without the messages and requests of one client.
    pub open spec fn without_client(self, client_id: u128) -> ServerQueues<C, K> {
        ServerQueues {
            connections: self.connections,
            messages: self.messages.map_values(
                |q: Seq<(u128, Vec<u8>)>| of_other_clients(q, client_id),
            ),
            requests: self.requests.map_values(
                |q: Seq<(u128, (K, Vec<u8>))>| of_other_clients(q, client_id),
            ),
        }
    }

    pub open spec fn with_message_kind(self, message_event_id: u16) -> ServerQueues<C, K> {
        ServerQueues { messages: self.messages.insert(message_event_id, Seq::empty()), ..self }
    }

    pub open spec fn with_request_kind(
        self,
        request_event_id: u16,
        response_event_id: u16,
    ) -> ServerQueues<C, K> {
        ServerQueues {
            requests: self.requests.insert(
                request_key(request_event_id, response_event_id),
                Seq::empty(),
            ),
            ..self
        }
    }

    pub open spec fn with_connection(
        self,
        counter: u64,
        client_id: u128,
        report: ServerReport<C>,
    ) -> ServerQueues<C, K> {
        ServerQueues { connections: self.connections.push((counter, client_id, report)), ..self }
    }

    pub open spec fn has_message_kind(self, message_event_id: u16) -> bool {
        self.messages.contains_key(message_event_id)
    }

    pub open spec fn has_request_kind(self, request_event_id: u16, response_event_id: u16) -> bool {
        self.requests.contains_key(request_key(request_event_id, response_event_id))
    }

    /// The message at the end of the queue of its kind; nothing changes if
    /// the kind has no queue.
    pub open spec fn with_message(
        self,
        client_id: u128,
        message_event_id: u16,
        data: Vec<u8>,
    ) -> ServerQueues<C, K> {
        if self.has_message_kind(message_event_id) {
            ServerQueues {
                messages: self.messages.insert(
                    message_event_id,
                    self.messages[message_event_id].push((client_id, data)),
                ),
                ..self
            }
        } else {
            self
        }
    }

    /// The request at the end of the queue of its kinds; nothing changes if
    /// they have no queue.
    pub open spec fn with_request(
        self,
        request_event_id: u16,
        response_event_id: u16,
        client_id: u128,
        request_token: K,
        data: Vec<u8>,
    ) -> ServerQueues<C, K> {
        let key = request_key(request_event_id, response_event_id);
        if self.has_request_kind(request_event_id, response_event_id) {
            ServerQueues {
                requests: self.requests.insert(
                    key,
                    self.requests[key].push((client_id, (request_token, data))),
                ),
                ..self
            }
        } else {
            self
        }
    }

    /// The queues after the requests of one kind were taken out.
    pub open spec fn with_requests_drained(
        self,
        request_event_id: u16,
        response_event_id: u16,
    ) -> ServerQueues<C, K> {
        if self.has_request_kind(request_event_id, response_event_id) {
            ServerQueues {
                requests: self.requests.insert(
                    request_key(request_event_id, response_event_id),
                    Seq::empty(),
                ),
                ..self
            }
        } else {
            self
        }
    }
}

/// Provides access to the registered event queues of a server.
pub struct EventQueueConnectorServer<C, K> {
    connections: ServerConnectionQueue<C>,
    messages: Vec<Slot<u16, ServerMessageQueue<Vec<u8>>>>,
    requests: Vec<Slot<(u16, u16), ServerRequestQueue<K, Vec<u8>>>>,
}

impl<C, K> View for EventQueueConnectorServer<C, K> {
    type V = ServerQueues<C, K>;

    closed spec fn view(&self) -> ServerQueues<C, K> {
        ServerQueues {
            connections: self.connections@,
            messages: slot_map(self.messages@),
            requests: slot_map(self.requests@),
        }
    }
}

impl<C, K> EventQueueConnectorServer<C, K> {
    /// No kind has two queues.
    pub closed spec fn wf(&self) -> bool {
        &&& keys_distinct(self.messages@)
        &&& keys_distinct(self.requests@)
    }

    pub fn new() -> (connector: Self)
        ensures
            connector.wf(),
            connector@ == ServerQueues::<C, K>::empty(),
    {
        let connector = EventQueueConnectorServer {
            connections: ServerConnectionQueue::new(),
            messages: Vec::new(),
            requests: Vec::new(),
        };
        assert(connector@ =~= ServerQueues::<C, K>::empty());
        connector
    }

    pub fn has_message(&self, message_event_id: u16) -> (r: bool)
        requires
            self.wf(),
        ensures
            r == self@.has_message_kind(message_event_id),
    {
        find_slot(&self.messages, message_event_id).is_some()
    }

    pub fn has_request(&self, request_event_id: u16, response_event_id: u16) -> (r: bool)
        requires
            self.wf(),
        ensures
            r == self@.has_request_kind(request_event_id, response_event_id),
    {
        find_pair_slot(&self.requests, response_event_id, request_event_id).is_some()
    }

    /// Adds the queue for messages of one kind.
    pub fn register_message(&mut self, message_event_id: u16)
        requires
            old(self).wf(),
            !old(self)@.has_message_kind(message_event_id),
        ensures
            final(self).wf(),
            final(self)@ == old(self)@.with_message_kind(message_event_id),
    {
        let slot = Slot { key: message_event_id, queue: ServerMessageQueue::new() };
        proof {
            lemma_slot_map_push(self.messages@, slot);
        }
        self.messages.push(slot);
    }

    /// Adds the queue for requests of one kind.
    pub fn register_request(&mut self, request_event_id: u16, response_event_id: u16)
        requires
            old(self).wf(),
            !old(self)@.has_request_kind(request_event_id, response_event_id),
        ensures
            final(self).wf(),
            final(self)@ == old(self)@.with_request_kind(request_event_id, response_event_id),
    {
        let slot = Slot {
            key: (response_event_id, request_event_id),
            queue: ServerRequestQueue::new(),
        };
        proof {
            lemma_slot_map_push(self.requests@, slot);
        }
        self.requests.push(slot);
    }

    /// Empties the message queues, or only drops what one client sent.
    fn clear_message_queues(&mut self, client_id: Option<u128>)
        requires
            old(self).wf(),
        ensures
            final(self).wf(),
            final(self).connections == old(self).connections,
            final(self).requests == old(self).requests,
            final(self)@.messages == (match client_id {
                Some(client_id) => old(self)@.messages.map_values(
                    |q: Seq<(u128, Vec<u8>)>| of_other_clients(q, client_id),
                ),
                None => old(self)@.messages.map_values(
                    |q: Seq<(u128, Vec<u8>)>| Seq::<(u128, Vec<u8>)>::empty(),
                ),
            }),
    {
        let ghost change = match client_id {
            Some(client_id) => |q: Seq<(u128, Vec<u8>)>| of_other_clients(q, client_id),
            None => |q: Seq<(u128, Vec<u8>)>| Seq::<(u128, Vec<u8>)>::empty(),
        };
        let n: usize = self.messages.len();
        let mut i: usize = 0;
        while i < n
            invariant
                i <= n,
                self.messages.len() == n,
                old(self).messages.len() == n,
                self.connections == old(self).connections,
                self.requests == old(self).requests,
                change == (match client_id {
                    Some(client_id) => |q: Seq<(u128, Vec<u8>)>| of_other_clients(q, client_id),
                    None => |q: Seq<(u128, Vec<u8>)>| Seq::<(u128, Vec<u8>)>::empty(),
                }),
                forall|j: int| 0 <= j < n ==> self.messages[j].key == old(self).messages[j].key,
                forall|j: int|
                    0 <= j < i ==> self.messages[j].queue@ == change(old(self).messages[j].queue@),
                forall|j: int| i <= j < n ==> self.messages[j] == old(self).messages[j],
            decreases n - i,
        {
            match client_id {
                Some(client_id) => self.messages[i].queue.clear_session(client_id),
                None => self.messages[i].queue.clear(),
            }
            i += 1;
        }
        proof {
            lemma_slot_map_values(old(self).messages@, self.messages@, change);
        }
    }

    /// Empties the request queues, or only drops what one client sent.
    fn clear_request_queues(&mut self, client_id: Option<u128>)
        requires
            old(self).wf(),
        ensures
            final(self).wf(),
            final(self).connections == old(self).connections,
            final(self).messages == old(self).messages,
            final(self)@.requests == (match client_id {
                Some(client_id) => old(self)@.requests.map_values(
                    |q: Seq<(u128, (K, Vec<u8>))>| of_other_clients(q, client_id),
                ),
                None => old(self)@.requests.map_values(
                    |q: Seq<(u128, (K, Vec<u8>))>| Seq::<(u128, (K, Vec<u8>))>::empty(),
                ),
            }),
    {
        let ghost change = match client_id {
            Some(client_id) => |q: Seq<(u128, (K, Vec<u8>))>| of_other_clients(q, client_id),
            None => |q: Seq<(u128, (K, Vec<u8>))>| Seq::<(u128, (K, Vec<u8>))>::empty(),
        };
        let n: usize = self.requests.len();
        let mut i: usize = 0;
        while i < n
            invariant
                i <= n,
                self.requests.len() == n,
                old(self).requests.len() == n,
                self.connections == old(self).connections,
                self.messages == old(self).messages,
                change == (match client_id {
                    Some(client_id) => |q: Seq<(u128, (K, Vec<u8>))>| of_other_clients(
                        q,
                        client_id,
                    ),
                    None => |q: Seq<(u128, (K, Vec<u8>))>| Seq::<(u128, (K, Vec<u8>))>::empty(),
                }),
                forall|j: int| 0 <= j < n ==> self.requests[j].key == old(self).requests[j].key,
                forall|j: int|
                    0 <= j < i ==> self.requests[j].queue@ == change(old(self).requests[j].queue@),
                forall|j: int| i <= j < n ==> self.requests[j] == old(self).requests[j],
            decreases n - i,
        {
            match client_id {
                Some(client_id) => self.requests[i].queue.clear_session(client_id),
                None => self.requests[i].queue.clear(),
            }
            i += 1;
        }
        proof {
            lemma_slot_map_values(old(self).requests@, self.requests@, change);
        }
    }

    /// Empties every queue. The registered kinds stay.
    pub fn clear_all(&mut self)
        requires
            old(self).wf(),
        ensures
            final(self).wf(),
            final(self)@ == old(self)@.cleared(),
    {
        self.connections.clear();
        self.clear_message_queues(None);
        self.clear_request_queues(None);
    }

    /// Drops the queued messages and requests of a client that disconnected.
    pub fn handle_disconnect(&mut self, client_id: u128)
        requires
            old(self).wf(),
        ensures
            final(self).wf(),
            final(self)@ == old(self)@.without_client(client_id),
    {
        self.clear_message_queues(Some(client_id));
        self.clear_request_queues(Some(client_id));
    }

    /// Queues a connection report.
    pub fn send_connection(&mut self, counter: u64, client_id: u128, report: ServerReport<C>)
        requires
            old(self).wf(),
        ensures
            final(self).wf(),
            final(self)@ == old(self)@.with_connection(counter, client_id, report),
    {
        self.connections.send(counter, client_id, report);
    }

    /// Queues a message under its kind. Returns false, and queues nothing, if
    /// that kind has no queue.
    pub fn send_message(&mut self, client_id: u128, message_event_id: u16, data: Vec<u8>) -> (sent:
        bool)
        requires
            old(self).wf(),
        ensures
            final(self).wf(),
            sent == old(self)@.has_message_kind(message_event_id),
            final(self)@ == old(self)@.with_message(client_id, message_event_id, data),
    {
        match find_slot(&self.messages, message_event_id) {
            Some(i) => {
                self.messages[i].queue.send(client_id, data);
                proof {
                    lemma_slot_map_update(old(self).messages@, self.messages@, i as int);
                }
                true
            },
            None => false,
        }
    }

    /// Queues a request under the kinds of request and response. Returns
    /// false, and queues nothing, if they have no queue.
    pub fn send_request(
        &mut self,
        request_event_id: u16,
        response_event_id: u16,
        client_id: u128,
        request_token: K,
        data: Vec<u8>,
    ) -> (sent: bool)
        requires
            old(self).wf(),
        ensures
            final(self).wf(),
            sent == old(self)@.has_request_kind(request_event_id, response_event_id),
            final(self)@ == old(self)@.with_request(
                request_event_id,
                response_event_id,
                client_id,
                request_token,
                data,
            ),
    {
        match find_pair_slot(&self.requests, response_event_id, request_event_id) {
            Some(i) => {
                self.requests[i].queue.send(client_id, request_token, data);
                proof {
                    lemma_slot_map_update(old(self).requests@, self.requests@, i as int);
                }
                true
            },
            None => false,
        }
    }

    /// The connection reports of this pass with their counters and clients,
    /// oldest first.
    pub fn connections(&self) -> (items: &Vec<(u64, u128, ServerReport<C>)>)
        ensures
            items@ == self@.connections,
    {
        self.connections.iter()
    }

    /// The messages of one kind that this pass queued, oldest first; `None`
    /// if the kind has no queue.
    pub fn messages(&self, message_event_id: u16) -> (items: Option<&Vec<(u128, Vec<u8>)>>)
        requires
            self.wf(),
        ensures
            items is Some == self@.has_message_kind(message_event_id),
            items matches Some(queue) ==> queue@ == self@.messages[message_event_id],
    {
        match find_slot(&self.messages, message_event_id) {
            Some(i) => {
                proof {
                    lemma_index_of(self.messages@, i as int);
                }
                Some(self.messages[i].queue.iter())
            },
            None => None,
        }
    }

    /// The number of requests of one kind that wait to be taken out; `None`
    /// if the kinds have no queue.
    pub fn requests_len(&self, request_event_id: u16, response_event_id: u16) -> (n: Option<usize>)
        requires
            self.wf(),
        ensures
            n is Some == self@.has_request_kind(request_event_id, response_event_id),
            n matches Some(len) ==> len == self@.requests[request_key(
                request_event_id,
                response_event_id,
            )].len(),
    {
        match find_pair_slot(&self.requests, response_event_id, request_event_id) {
            Some(i) => {
                proof {
                    lemma_index_of(self.requests@, i as int);
                }
                Some(self.requests[i].queue.len())
            },
            None => None,
        }
    }

    /// Takes out the requests of one kind that this pass queued, oldest
    /// first; `None` if the kinds have no queue.
    pub fn drain_requests(&mut self, request_event_id: u16, response_event_id: u16) -> (items:
        Option<Vec<(u128, (K, Vec<u8>))>>)
        requires
            old(self).wf(),
        ensures
            final(self).wf(),
            items is Some == old(self)@.has_request_kind(request_event_id, response_event_id),
            items matches Some(queue) ==> queue@ == old(self)@.requests[request_key(
                request_event_id,
                response_event_id,
            )],
            final(self)@ == old(self)@.with_requests_drained(request_event_id, response_event_id),
    {
        match find_pair_slot(&self.requests, response_event_id, request_event_id) {
            Some(i) => {
                proof {
                    lemma_index_of(self.requests@, i as int);
                }
                let items = self.requests[i].queue.drain();
                proof {
                    lemma_slot_map_update(old(self).requests@, self.requests@, i as int);
                }
                Some(items)
            },
            None => None,
        }
    }
}

impl<C, K> Default for EventQueueConnectorServer<C, K> {
    fn default() -> (connector: Self)
        ensures
            connector.wf(),
            connector@ == ServerQueues::<C, K>::empty(),
    {
        EventQueueConnectorServer::new()
    }
}

} // verus!
