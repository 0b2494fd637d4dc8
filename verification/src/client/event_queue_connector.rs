//! The client's queues, one per registered kind, and the way into them.

use crate::client::event_queues::all_lost;
use crate::client::event_queues::ClientConnectionQueue;
use crate::client::event_queues::ClientMessageQueue;
use crate::client::event_queues::ClientResponseQueue;
use crate::client::report::ClientReport;
use crate::client::server_response::ServerResponse;
use crate::slot::find_pair_slot;
use crate::slot::find_slot;
use crate::slot::has_key;
use crate::slot::keys_distinct;
use crate::slot::lemma_slot_map_push;
use crate::slot::lemma_slot_map_update;
use crate::slot::lemma_slot_map_values;
use crate::slot::slot_map;
use crate::slot::Slot;
use vstd::prelude::*;

verus! {

/// What the client's queues hold: the connection reports with their
/// counters, the messages by kind, and the replies by the kinds of response
/// and request.
#[verifier::ext_equal]
pub struct ClientQueues {
    pub connections: Seq<(u64, ClientReport)>,
    pub messages: Map<u16, Seq<Vec<u8>>>,
    pub responses: Map<(u16, u16), Seq<ServerResponse<Vec<u8>>>>,
}

/// The key of the queue for replies to requests of one kind.
pub open spec fn reply_key(request_event_id: u16, response_event_id: u16) -> (u16, u16) {
    (response_event_id, request_event_id)
}

impl ClientQueues {
    /// No kind registered, nothing queued.
    pub open spec fn empty() -> ClientQueues {
        ClientQueues { connections: Seq::empty(), messages: Map::empty(), responses: Map::empty() }
    }

    /// The same kinds, every queue empty.
    pub open spec fn cleared(self) -> ClientQueues {
        ClientQueues {
            connections: Seq::empty(),
            messages: self.messages.map_values(|q: Seq<Vec<u8>>| Seq::<Vec<u8>>::empty()),
            responses: self.responses.map_values(
                |q: Seq<ServerResponse<Vec<u8>>>| Seq::<ServerResponse<Vec<u8>>>::empty(),
            ),
        }
    }

    /// The queues after a disconnect: no message is left, and every queued
    /// success has become a lost response.
    pub open spec fn disconnected(self) -> ClientQueues {
        ClientQueues {
            connections: self.connections,
            messages: self.messages.map_values(|q: Seq<Vec<u8>>| Seq::<Vec<u8>>::empty()),
            responses: self.responses.map_values(
                |q: Seq<ServerResponse<Vec<u8>>>| all_lost(q),
            ),
        }
    }

    pub open spec fn with_message_kind(self, message_event_id: u16) -> ClientQueues {
        ClientQueues { messages: self.messages.insert(message_event_id, Seq::empty()), ..self }
    }

    pub open spec fn with_response_kind(
        self,
        request_event_id: u16,
        response_event_id: u16,
    ) -> ClientQueues {
        ClientQueues {
            responses: self.responses.insert(
                reply_key(request_event_id, response_event_id),
                Seq::empty(),
            ),
            ..self
        }
    }

    pub open spec fn with_connection(self, counter: u64, report: ClientReport) -> ClientQueues {
        ClientQueues { connections: self.connections.push((counter, report)), ..self }
    }

    pub open spec fn has_message_kind(self, message_event_id: u16) -> bool {
        self.messages.contains_key(message_event_id)
    }

    pub open spec fn has_response_kind(self, request_event_id: u16, response_event_id: u16) -> bool {
        self.responses.contains_key(reply_key(request_event_id, response_event_id))
    }

    /// The message at the end of the queue of its kind; nothing changes if
    /// the kind has no queue.
    pub open spec fn with_message(self, message_event_id: u16, data: Vec<u8>) -> ClientQueues {
        if self.has_message_kind(message_event_id) {
            ClientQueues {
                messages: self.messages.insert(
                    message_event_id,
                    self.messages[message_event_id].push(data),
                ),
                ..self
            }
        } else {
            self
        }
    }

    /// The reply at the end of the queue of its kinds; nothing changes if
    /// they have no queue.
    pub open spec fn with_response(
        self,
        request_event_id: u16,
        response_event_id: u16,
        response: ServerResponse<Vec<u8>>,
    ) -> ClientQueues {
        let key = reply_key(request_event_id, response_event_id);
        if self.has_response_kind(request_event_id, response_event_id) {
            ClientQueues {
                responses: self.responses.insert(key, self.responses[key].push(response)),
                ..self
            }
        } else {
            self
        }
    }
}

/// Provides access to the registered event queues of a client.
pub struct EventQueueConnectorClient {
    connections: ClientConnectionQueue,
    messages: Vec<Slot<u16, ClientMessageQueue<Vec<u8>>>>,
    responses: Vec<Slot<(u16, u16), ClientResponseQueue<Vec<u8>>>>,
}

impl View for EventQueueConnectorClient {
    type V = ClientQueues;

    closed spec fn view(&self) -> ClientQueues {
        ClientQueues {
            connections: self.connections@,
            messages: slot_map(self.messages@),
            responses: slot_map(self.responses@),
        }
    }
}

impl EventQueueConnectorClient {
    /// No kind has two queues.
    pub closed spec fn wf(&self) -> bool {
        &&& keys_distinct(self.messages@)
        &&& keys_distinct(self.responses@)
    }

    pub fn new() -> (connector: Self)
        ensures
            connector.wf(),
            connector@ == ClientQueues::empty(),
    {
        let connector = EventQueueConnectorClient {
            connections: ClientConnectionQueue::new(),
            messages: Vec::new(),
            responses: Vec::new(),
        };
        assert(connector@ =~= ClientQueues::empty());
        connector
    }

    pub fn has_message(&self, message_event_id: u16) -> (r: bool)
        requires
            self.wf(),
        ensures
            r == self@.has_message_kind(message_event_id),
    {
        find_slot(&self.messages, message_event_id).is_some()
    }

    pub fn has_response(&self, request_event_id: u16, response_event_id: u16) -> (r: bool)
        requires
            self.wf(),
        ensures
            r == self@.has_response_kind(request_event_id, response_event_id),
    {
        find_pair_slot(&self.responses, response_event_id, request_event_id).is_some()
    }

    /// Adds the queue for messages of one kind.
    pub fn register_message(&mut self, message_event_id: u16)
        requires
            old(self).wf(),
            !old(self)@.has_message_kind(message_event_id),
        ensures
            final(self).wf(),
            final(self)@ == old(self)@.with_message_kind(message_event_id),
    {
        let slot = Slot { key: message_event_id, queue: ClientMessageQueue::new() };
        proof {
            lemma_slot_map_push(self.messages@, slot);
        }
        self.messages.push(slot);
    }

    /// Adds the queue for replies to requests of one kind.
    pub fn register_response(&mut self, request_event_id: u16, response_event_id: u16)
        requires
            old(self).wf(),
            !old(self)@.has_response_kind(request_event_id, response_event_id),
        ensures
            final(self).wf(),
            final(self)@ == old(self)@.with_response_kind(request_event_id, response_event_id),
    {
        let slot = Slot {
            key: (response_event_id, request_event_id),
            queue: ClientResponseQueue::new(),
        };
        proof {
            lemma_slot_map_push(self.responses@, slot);
        }
        self.responses.push(slot);
    }

    /// Empties the message queues.
    fn clear_messages(&mut self)
        requires
            old(self).wf(),
        ensures
            final(self).wf(),
            final(self).connections == old(self).connections,
            final(self).responses == old(self).responses,
            final(self)@.messages == old(self)@.messages.map_values(
                |q: Seq<Vec<u8>>| Seq::<Vec<u8>>::empty(),
            ),
    {
        let n: usize = self.messages.len();
        let mut i: usize = 0;
        while i < n
            invariant
                i <= n,
                self.messages.len() == n,
                old(self).messages.len() == n,
                self.connections == old(self).connections,
                self.responses == old(self).responses,
                forall|j: int| 0 <= j < n ==> self.messages[j].key == old(self).messages[j].key,
                forall|j: int| 0 <= j < i ==> self.messages[j].queue@ == Seq::<Vec<u8>>::empty(),
                forall|j: int| i <= j < n ==> self.messages[j] == old(self).messages[j],
            decreases n - i,
        {
            self.messages[i].queue.clear();
            i += 1;
        }
        proof {
            lemma_slot_map_values(
                old(self).messages@,
                self.messages@,
                |q: Seq<Vec<u8>>| Seq::<Vec<u8>>::empty(),
            );
        }
    }

    /// Empties the reply queues.
    fn clear_responses(&mut self)
        requires
            old(self).wf(),
        ensures
            final(self).wf(),
            final(self).connections == old(self).connections,
            final(self).messages == old(self).messages,
            final(self)@.responses == old(self)@.responses.map_values(
                |q: Seq<ServerResponse<Vec<u8>>>| Seq::<ServerResponse<Vec<u8>>>::empty(),
            ),
    {
        let n: usize = self.responses.len();
        let mut i: usize = 0;
        while i < n
            invariant
                i <= n,
                self.responses.len() == n,
                old(self).responses.len() == n,
                self.connections == old(self).connections,
                self.messages == old(self).messages,
                forall|j: int| 0 <= j < n ==> self.responses[j].key == old(self).responses[j].key,
                forall|j: int|
                    0 <= j < i ==> self.responses[j].queue@ == Seq::<
                        ServerResponse<Vec<u8>>,
                    >::empty(),
                forall|j: int| i <= j < n ==> self.responses[j] == old(self).responses[j],
            decreases n - i,
        {
            self.responses[i].queue.clear();
            i += 1;
        }
        proof {
            lemma_slot_map_values(
                old(self).responses@,
                self.responses@,
                |q: Seq<ServerResponse<Vec<u8>>>| Seq::<ServerResponse<Vec<u8>>>::empty(),
            );
        }
    }

    /// Turns every queued response or acknowledgement into a lost response.
    fn reset_responses(&mut self)
        requires
            old(self).wf(),
        ensures
            final(self).wf(),
            final(self).connections == old(self).connections,
            final(self).messages == old(self).messages,
            final(self)@.responses == old(self)@.responses.map_values(
                |q: Seq<ServerResponse<Vec<u8>>>| all_lost(q),
            ),
    {
        let n: usize = self.responses.len();
        let mut i: usize = 0;
        while i < n
            invariant
                i <= n,
                self.responses.len() == n,
                old(self).responses.len() == n,
                self.connections == old(self).connections,
                self.messages == old(self).messages,
                forall|j: int| 0 <= j < n ==> self.responses[j].key == old(self).responses[j].key,
                forall|j: int|
                    0 <= j < i ==> self.responses[j].queue@ == all_lost(
                        old(self).responses[j].queue@,
                    ),
                forall|j: int| i <= j < n ==> self.responses[j] == old(self).responses[j],
            decreases n - i,
        {
            self.responses[i].queue.reset();
            i += 1;
        }
        proof {
            lemma_slot_map_values(
                old(self).responses@,
                self.responses@,
                |q: Seq<ServerResponse<Vec<u8>>>| all_lost(q),
            );
        }
    }

    /// Empties every queue. The registered kinds stay.
    pub fn clear_all(&mut self)
        requires
            old(self).wf(),
        ensures
            final(self).wf(),
            final(self)@ == old(self)@.cleared(),
    {
        self.connections.clear();
        self.clear_messages();
        self.clear_responses();
    }

    /// Drops every queued message and turns every queued response or
    /// acknowledgement into a lost response.
    pub fn handle_disconnect(&mut self)
        requires
            old(self).wf(),
        ensures
            final(self).wf(),
            final(self)@ == old(self)@.disconnected(),
    {
        self.clear_messages();
        self.reset_responses();
    }

    /// Queues a connection report.
    pub fn send_connection(&mut self, counter: u64, report: ClientReport)
        requires
            old(self).wf(),
        ensures
            final(self).wf(),
            final(self)@ == old(self)@.with_connection(counter, report),
    {
        self.connections.send(counter, report);
    }

    /// Queues a message under its kind. Returns false, and queues nothing, if
    /// that kind has no queue.
    pub fn send_message(&mut self, message_event_id: u16, data: Vec<u8>) -> (sent: bool)
        requires
            old(self).wf(),
        ensures
            final(self).wf(),
            sent == old(self)@.has_message_kind(message_event_id),
            final(self)@ == old(self)@.with_message(message_event_id, data),
    {
        match find_slot(&self.messages, message_event_id) {
            Some(i) => {
                self.messages[i].queue.send(data);
                proof {
                    lemma_slot_map_update(old(self).messages@, self.messages@, i as int);
                }
                true
            },
            None => false,
        }
    }

    /// Queues a reply under the kinds of its request and response. Returns
    /// false, and queues nothing, if they have no queue.
    pub fn send_response(
        &mut self,
        request_event_id: u16,
        response_event_id: u16,
        response: ServerResponse<Vec<u8>>,
    ) -> (sent: bool)
        requires
            old(self).wf(),
        ensures
            final(self).wf(),
            sent == old(self)@.has_response_kind(request_event_id, response_event_id),
            final(self)@ == old(self)@.with_response(request_event_id, response_event_id, response),
    {
        match find_pair_slot(&self.responses, response_event_id, request_event_id) {
            Some(i) => {
                self.responses[i].queue.send(response);
                proof {
                    lemma_slot_map_update(old(self).responses@, self.responses@, i as int);
                }
                true
            },
            None => false,
        }
    }

    /// The connection reports of this pass with their counters, oldest first.
    pub fn connections(&self) -> (items: &Vec<(u64, ClientReport)>)
        ensures
            items@ == self@.connections,
    {
        self.connections.iter()
    }

    /// The messages of one kind that this pass queued, oldest first; `None`
    /// if the kind has no queue.
    pub fn messages(&self, message_event_id: u16) -> (items: Option<&Vec<Vec<u8>>>)
        requires
            self.wf(),
        ensures
            items is Some == self@.has_message_kind(message_event_id),
            items matches Some(queue) ==> queue@ == self@.messages[message_event_id],
    {
        match find_slot(&self.messages, message_event_id) {
            Some(i) => {
                proof {
                    crate::slot::lemma_index_of(self.messages@, i as int);
                }
                Some(self.messages[i].queue.iter())
            },
            None => None,
        }
    }

    /// The replies to requests of one kind that this pass queued, oldest
    /// first; `None` if the kinds have no queue.
    pub fn responses(&self, request_event_id: u16, response_event_id: u16) -> (items: Option<
        &Vec<ServerResponse<Vec<u8>>>,
    >)
        requires
            self.wf(),
        ensures
            items is Some == self@.has_response_kind(request_event_id, response_event_id),
            items matches Some(queue) ==> queue@ == self@.responses[reply_key(
                request_event_id,
                response_event_id,
            )],
    {
        match find_pair_slot(&self.responses, response_event_id, request_event_id) {
            Some(i) => {
                proof {
                    crate::slot::lemma_index_of(self.responses@, i as int);
                }
                Some(self.responses[i].queue.iter())
            },
            None => None,
        }
    }
}

impl Default for EventQueueConnectorClient {
    fn default() -> (connector: Self)
        ensures
            connector.wf(),
            connector@ == ClientQueues::empty(),
    {
        EventQueueConnectorClient::new()
    }
}

} // verus!
