//! The server's bookkeeping: the counter, the markers of every client, and
//! what is held back.

use crate::epoch_gate::EpochGate;
use crate::epoch_gate::SendError;
use crate::epoch_gate::Visibility;
use crate::event::InternalEvent;
use crate::event_registry::EventRegistry;
use crate::event_registry::Registry;
use crate::server::event_queue_connector::EventQueueConnectorServer;
use crate::server::event_queue_connector::ServerQueues;
use crate::server::event_queues::of_other_clients;
use crate::server::event_queues::without_client;
use crate::server::report::ServerEvent;
use crate::server::report::ServerReport;
use std::collections::HashMap;
use vstd::prelude::*;

verus! {

/// An inbound item that waits behind a connect report. `K` is the token that
/// a request is answered with.
#[derive(Debug)]
pub enum ServerHeldItem<K> {
    /// A message.
    Msg(InternalEvent),
    /// A request, with the kinds that it is queued under.
    Request { request_event_id: u16, response_event_id: u16, request_token: K, data: Vec<u8> },
}

/// An item that is held back, with the counter that it arrived under.
#[derive(Debug)]
pub struct ServerHeld<K> {
    pub counter: u64,
    pub item: ServerHeldItem<K>,
}

/// What became of one inbound event.
#[derive(Clone, Copy, Debug, PartialEq, Eq)]
pub enum ServerOutcome {
    /// A connection report was queued.
    Connection,
    /// A message or request was queued.
    Delivered,
    /// The item is held back behind a connect report that was not read.
    Withheld,
    /// The item was dropped: its connection is gone.
    Stale,
    /// The item was dropped: it lies between a read disconnect and an unread
    /// connect, where none should be.
    Misordered,
    /// The item was dropped: no kind is registered under its identifier.
    UnknownKind,
    /// The item was dropped: its kind has no queue.
    NoQueue,
}

/// What the server's bookkeeping holds.
#[verifier::ext_equal]
pub struct ServerCore<K> {
    /// The counter of the event that was classified last.
    pub counter: u64,
    /// The markers of every client that ever connected.
    pub gates: Map<u128, EpochGate>,
    /// What is held back, oldest first, each with the id of its client.
    pub withheld: Seq<(u128, ServerHeld<K>)>,
}

/// The whole of a server's state: its bookkeeping and its queues.
#[verifier::ext_equal]
pub struct ServerState<C, K> {
    pub core: ServerCore<K>,
    pub queues: ServerQueues<C, K>,
}

/// The markers of a client; those of a client that never connected are unset.
pub open spec fn gate_of(gates: Map<u128, EpochGate>, client_id: u128) -> EpochGate {
    if gates.contains_key(client_id) {
        gates[client_id]
    } else {
        EpochGate::spec_new()
    }
}

/// The event reports that a client connected.
pub open spec fn is_connect<C, K>(event: ServerEvent<C, K>) -> bool {
    event matches ServerEvent::Report(report) && report is Connected
}

impl<K> ServerCore<K> {
    pub open spec fn empty() -> ServerCore<K> {
        ServerCore { counter: 0, gates: Map::empty(), withheld: Seq::empty() }
    }

    /// The bookkeeping after the next event got its counter: the counter is
    /// one higher, and a connect report has set the pending-connect marker of
    /// its client to it.
    pub open spec fn stamped(self, client_id: u128, connect: bool) -> ServerCore<K> {
        let counter = (self.counter + 1) as u64;
        ServerCore {
            counter,
            gates: if connect {
                self.gates.insert(client_id, gate_of(self.gates, client_id).connected(counter))
            } else {
                self.gates
            },
            ..self
        }
    }
}

impl<C, K> ServerState<C, K> {
    /// The state with one more item held back.
    pub open spec fn hold(self, client_id: u128, held: ServerHeld<K>) -> ServerState<C, K> {
        ServerState {
            core: ServerCore { withheld: self.core.withheld.push((client_id, held)), ..self.core },
            ..self
        }
    }

    /// What becomes of a client's message with this counter: dropped if its
    /// kind has no queue, held back behind an unread connect report of the
    /// client, dropped if its connection is gone or it lies where no message
    /// should be, and queued under its kind otherwise.
    pub open spec fn route_message(self, client_id: u128, counter: u64, message: InternalEvent) -> (
        ServerState<C, K>,
        ServerOutcome,
    ) {
        if !self.queues.has_message_kind(message.id) {
            (self, ServerOutcome::NoQueue)
        } else {
            match gate_of(self.core.gates, client_id).spec_visibility(counter) {
                Visibility::Withhold => (
                    self.hold(client_id, ServerHeld { counter, item: ServerHeldItem::Msg(message) }),
                    ServerOutcome::Withheld,
                ),
                Visibility::Stale => (self, ServerOutcome::Stale),
                Visibility::Misordered => (self, ServerOutcome::Misordered),
                Visibility::Deliver => (
                    ServerState {
                        queues: self.queues.with_message(client_id, message.id, message.data),
                        ..self
                    },
                    ServerOutcome::Delivered,
                ),
            }
        }
    }

    /// What becomes of a client's request with this counter: as for a
    /// message, under the kinds of request and response.
    pub open spec fn route_request(
        self,
        client_id: u128,
        counter: u64,
        request_event_id: u16,
        response_event_id: u16,
        request_token: K,
        data: Vec<u8>,
    ) -> (ServerState<C, K>, ServerOutcome) {
        if !self.queues.has_request_kind(request_event_id, response_event_id) {
            (self, ServerOutcome::NoQueue)
        } else {
            match gate_of(self.core.gates, client_id).spec_visibility(counter) {
                Visibility::Withhold => (
                    self.hold(
                        client_id,
                        ServerHeld {
                            counter,
                            item: ServerHeldItem::Request {
                                request_event_id,
                                response_event_id,
                                request_token,
                                data,
                            },
                        },
                    ),
                    ServerOutcome::Withheld,
                ),
                Visibility::Stale => (self, ServerOutcome::Stale),
                Visibility::Misordered => (self, ServerOutcome::Misordered),
                Visibility::Deliver => (
                    ServerState {
                        queues: self.queues.with_request(
                            request_event_id,
                            response_event_id,
                            client_id,
                            request_token,
                            data,
                        ),
                        ..self
                    },
                    ServerOutcome::Delivered,
                ),
            }
        }
    }

    /// What becomes of an item that was held back, now that it is looked at
    /// again.
    pub open spec fn retry(self, client_id: u128, held: ServerHeld<K>) -> (
        ServerState<C, K>,
        ServerOutcome,
    ) {
        match held.item {
            ServerHeldItem::Msg(message) => self.route_message(client_id, held.counter, message),
            ServerHeldItem::Request {
                request_event_id,
                response_event_id,
                request_token,
                data,
            } => self.route_request(
                client_id,
                held.counter,
                request_event_id,
                response_event_id,
                request_token,
                data,
            ),
        }
    }

    /// The state without anything that waits for a client: neither queued
    /// nor held back.
    pub open spec fn purged(self, client_id: u128) -> ServerState<C, K> {
        ServerState {
            core: ServerCore {
                withheld: of_other_clients(self.core.withheld, client_id),
                ..self.core
            },
            queues: self.queues.without_client(client_id),
        }
    }

    /// What becomes of the next event of the session: it gets the next
    /// counter; a report is queued, and a disconnect report first drops what
    /// waits for its client; a message or request of a registered kind goes
    /// its way, one of no registered kind is dropped.
    pub open spec fn classify(self, registry: Registry, client_id: u128, event: ServerEvent<C, K>) -> (
        ServerState<C, K>,
        ServerOutcome,
    ) {
        let stamped = ServerState {
            core: self.core.stamped(client_id, is_connect(event)),
            ..self
        };
        let counter = stamped.core.counter;
        match event {
            ServerEvent::Report(report) => {
                let ready = if report is Disconnected {
                    stamped.purged(client_id)
                } else {
                    stamped
                };
                (
                    ServerState {
                        queues: ready.queues.with_connection(counter, client_id, report),
                        ..ready
                    },
                    ServerOutcome::Connection,
                )
            },
            ServerEvent::Msg(message) => {
                if registry.message_ids.contains(message.id) {
                    stamped.route_message(client_id, counter, message)
                } else {
                    (stamped, ServerOutcome::UnknownKind)
                }
            },
            ServerEvent::Request(request_token, request) => {
                match registry.response_id_from_request_id(request.id) {
                    Some(response_event_id) => stamped.route_request(
                        client_id,
                        counter,
                        request.id,
                        response_event_id,
                        request_token,
                        request.data,
                    ),
                    None => (stamped, ServerOutcome::UnknownKind),
                }
            },
        }
    }

    /// The state after the application read one connection report: the
    /// markers of its client follow, and a disconnect report drops what is
    /// queued of the client.
    pub open spec fn consumed(self, counter: u64, client_id: u128, disconnected: bool) -> ServerState<
        C,
        K,
    > {
        ServerState {
            core: ServerCore {
                gates: self.core.gates.insert(
                    client_id,
                    gate_of(self.core.gates, client_id).consumed(counter, disconnected),
                ),
                ..self.core
            },
            queues: if disconnected {
                self.queues.without_client(client_id)
            } else {
                self.queues
            },
        }
    }
}

/// Owns the server's bookkeeping.
pub struct EventServerCore<K> {
    counter: u64,
    gates: HashMap<u128, EpochGate>,
    withheld: Vec<(u128, ServerHeld<K>)>,
}

impl<K> View for EventServerCore<K> {
    type V = ServerCore<K>;

    closed spec fn view(&self) -> ServerCore<K> {
        ServerCore { counter: self.counter, gates: self.gates@, withheld: self.withheld@ }
    }
}

/// Both parts of a server's state seen as one.
pub open spec fn state_of<C, K>(
    server: &EventServerCore<K>,
    queues: &EventQueueConnectorServer<C, K>,
) -> ServerState<C, K> {
    ServerState { core: server@, queues: queues@ }
}

impl<K> EventServerCore<K> {
    /// Makes a new event server core.
    pub fn new() -> (server: Self)
        ensures
            server@ == ServerCore::<K>::empty(),
    {
        EventServerCore { counter: 0, gates: HashMap::new(), withheld: Vec::new() }
    }

    /// The counter of the event that was classified last.
    pub fn counter(&self) -> (n: u64)
        ensures
            n == self@.counter,
    {
        self.counter
    }

    /// The number of items that are held back.
    pub fn withheld_len(&self) -> (n: usize)
        ensures
            n == self@.withheld.len(),
    {
        self.withheld.len()
    }

    /// The markers of a client; unset for a client that never connected.
    pub fn gate(&self, client_id: u128) -> (gate: EpochGate)
        ensures
            gate == gate_of(self@.gates, client_id),
    {
        match self.gates.get(&client_id) {
            Some(gate) => *gate,
            None => EpochGate::new(),
        }
    }

    /// Accesses the pending connect counter for a client.
    pub fn pending_connect(&self, client_id: u128) -> (marker: Option<u64>)
        ensures
            marker == gate_of(self@.gates, client_id).pending_connect,
    {
        self.gate(client_id).pending_connect
    }

    /// Accesses the counter of the disconnect report of a client that was
    /// read last.
    pub fn recent_consumed_disconnect(&self, client_id: u128) -> (marker: Option<u64>)
        ensures
            marker == gate_of(self@.gates, client_id).recent_consumed_disconnect,
    {
        self.gate(client_id).recent_consumed_disconnect
    }

    /// Sets a new pending connect counter for a client. Does nothing if the
    /// client never connected.
    pub fn set_pending_connect(&mut self, client_id: u128, new: Option<u64>)
        ensures
            final(self)@ == (ServerCore {
                gates: if old(self)@.gates.contains_key(client_id) {
                    old(self)@.gates.insert(
                        client_id,
                        EpochGate { pending_connect: new, ..old(self)@.gates[client_id] },
                    )
                } else {
                    old(self)@.gates
                },
                ..old(self)@
            }),
    {
        let found: Option<EpochGate> = match self.gates.get(&client_id) {
            Some(gate) => Some(*gate),
            None => None,
        };
        if let Some(gate) = found {
            let mut gate: EpochGate = gate;
            gate.set_pending_connect(new);
            self.gates.insert(client_id, gate);
        }
    }

    /// Clears the pending connect counter for a client if the input counter
    /// equals it. Does nothing if the client never connected.
    pub fn try_clear_pending_connect(&mut self, client_id: u128, counter: u64)
        ensures
            final(self)@ == (ServerCore {
                gates: if old(self)@.gates.contains_key(client_id) {
                    old(self)@.gates.insert(
                        client_id,
                        old(self)@.gates[client_id].consumed(counter, false),
                    )
                } else {
                    old(self)@.gates
                },
                ..old(self)@
            }),
            gate_of(final(self)@.gates, client_id) == gate_of(old(self)@.gates, client_id).consumed(
                counter,
                false,
            ),
    {
        let found: Option<EpochGate> = match self.gates.get(&client_id) {
            Some(gate) => Some(*gate),
            None => None,
        };
        if let Some(gate) = found {
            let mut gate: EpochGate = gate;
            gate.try_clear_pending_connect(counter);
            self.gates.insert(client_id, gate);
        }
    }

    /// Tells whether messages and replies may be sent to a client now.
    pub fn can_send(&self, client_id: u128) -> (r: bool)
        ensures
            r == gate_of(self@.gates, client_id).spec_can_send(),
            r == (gate_of(self@.gates, client_id).pending_connect is None),
    {
        self.gate(client_id).can_send()
    }

    /// Decides whether a message of a registered kind may be sent to a client
    /// now, and under which identifier.
    pub fn send(&self, registry: &EventRegistry, client_id: u128, kind: u64) -> (r: Result<
        u16,
        SendError,
    >)
        requires
            registry@.messages.contains_key(kind),
        ensures
            r == (if gate_of(self@.gates, client_id).spec_can_send() {
                Ok::<u16, SendError>(registry@.messages[kind])
            } else {
                Err::<u16, SendError>(SendError::PendingConnect)
            }),
    {
        if !self.can_send(client_id) {
            return Err(SendError::PendingConnect);
        }
        Ok(registry.get_message_id(kind).unwrap())
    }

    /// Decides whether a response of a registered kind may be sent to a
    /// client now, and under which identifier.
    pub fn respond(&self, registry: &EventRegistry, client_id: u128, kind: u64) -> (r: Result<
        u16,
        SendError,
    >)
        requires
            registry@.responses.contains_key(kind),
        ensures
            r == (if gate_of(self@.gates, client_id).spec_can_send() {
                Ok::<u16, SendError>(registry@.responses[kind])
            } else {
                Err::<u16, SendError>(SendError::PendingConnect)
            }),
    {
        if !self.can_send(client_id) {
            return Err(SendError::PendingConnect);
        }
        Ok(registry.get_response_id(kind).unwrap())
    }

    /// Decides whether a request of a client may be acknowledged now.
    pub fn ack(&self, client_id: u128) -> (r: Result<(), SendError>)
        ensures
            r == (if gate_of(self@.gates, client_id).spec_can_send() {
                Ok::<(), SendError>(())
            } else {
                Err::<(), SendError>(SendError::PendingConnect)
            }),
    {
        if self.can_send(client_id) {
            Ok(())
        } else {
            Err(SendError::PendingConnect)
        }
    }

    /// Gives the next event its counter.
    pub fn next<C>(&mut self, client_id: u128, event: &ServerEvent<C, K>) -> (counter: u64)
        requires
            old(self)@.counter < u64::MAX,
        ensures
            final(self)@ == old(self)@.stamped(client_id, is_connect(*event)),
            counter == old(self)@.counter + 1,
    {
        self.counter += 1;
        if let ServerEvent::Report(report) = event {
            if report.is_connected() {
                let mut gate: EpochGate = self.gate(client_id);
                gate.note_connected(self.counter);
                self.gates.insert(client_id, gate);
            }
        }
        self.counter
    }

    /// Takes out everything that is held back.
    pub fn take_withheld(&mut self) -> (held: Vec<(u128, ServerHeld<K>)>)
        ensures
            held@ == old(self)@.withheld,
            final(self)@ == (ServerCore { withheld: Seq::empty(), ..old(self)@ }),
    {
        let mut held: Vec<(u128, ServerHeld<K>)> = Vec::new();
        std::mem::swap(&mut self.withheld, &mut held);
        held
    }

    /// Drops everything that waits for a client, queued or held back.
    pub fn purge<C>(&mut self, queues: &mut EventQueueConnectorServer<C, K>, client_id: u128)
        requires
            old(queues).wf(),
        ensures
            final(queues).wf(),
            state_of(final(self), final(queues)) == state_of(old(self), old(queues)).purged(
                client_id,
            ),
    {
        queues.handle_disconnect(client_id);
        let held = self.take_withheld();
        self.withheld = without_client(held, client_id);
    }

    /// Sends a client's message with this counter on its way.
    pub fn route_message<C>(
        &mut self,
        queues: &mut EventQueueConnectorServer<C, K>,
        client_id: u128,
        counter: u64,
        message: InternalEvent,
    ) -> (outcome: ServerOutcome)
        requires
            old(queues).wf(),
        ensures
            final(queues).wf(),
            (state_of(final(self), final(queues)), outcome) == state_of(
                old(self),
                old(queues),
            ).route_message(client_id, counter, message),
    {
        if !queues.has_message(message.id) {
            return ServerOutcome::NoQueue;
        }
        match self.gate(client_id).visibility(counter) {
            Visibility::Withhold => {
                self.withheld.push(
                    (client_id, ServerHeld { counter, item: ServerHeldItem::Msg(message) }),
                );
                ServerOutcome::Withheld
            },
            Visibility::Stale => ServerOutcome::Stale,
            Visibility::Misordered => ServerOutcome::Misordered,
            Visibility::Deliver => {
                queues.send_message(client_id, message.id, message.data);
                ServerOutcome::Delivered
            },
        }
    }

    /// Sends a client's request with this counter on its way.
    pub fn route_request<C>(
        &mut self,
        queues: &mut EventQueueConnectorServer<C, K>,
        client_id: u128,
        counter: u64,
        request_event_id: u16,
        response_event_id: u16,
        request_token: K,
        data: Vec<u8>,
    ) -> (outcome: ServerOutcome)
        requires
            old(queues).wf(),
        ensures
            final(queues).wf(),
            (state_of(final(self), final(queues)), outcome) == state_of(
                old(self),
                old(queues),
            ).route_request(
                client_id,
                counter,
                request_event_id,
                response_event_id,
                request_token,
                data,
            ),
    {
        if !queues.has_request(request_event_id, response_event_id) {
            return ServerOutcome::NoQueue;
        }
        match self.gate(client_id).visibility(counter) {
            Visibility::Withhold => {
                self.withheld.push(
                    (
                        client_id,
                        ServerHeld {
                            counter,
                            item: ServerHeldItem::Request {
                                request_event_id,
                                response_event_id,
                                request_token,
                                data,
                            },
                        },
                    ),
                );
                ServerOutcome::Withheld
            },
            Visibility::Stale => ServerOutcome::Stale,
            Visibility::Misordered => ServerOutcome::Misordered,
            Visibility::Deliver => {
                queues.send_request(
                    request_event_id,
                    response_event_id,
                    client_id,
                    request_token,
                    data,
                );
                ServerOutcome::Delivered
            },
        }
    }

    /// Looks again at an item that was held back.
    pub fn retry<C>(
        &mut self,
        queues: &mut EventQueueConnectorServer<C, K>,
        client_id: u128,
        held: ServerHeld<K>,
    ) -> (outcome: ServerOutcome)
        requires
            old(queues).wf(),
        ensures
            final(queues).wf(),
            (state_of(final(self), final(queues)), outcome) == state_of(old(self), old(queues)).retry(
                client_id,
                held,
            ),
    {
        let counter: u64 = held.counter;
        match held.item {
            ServerHeldItem::Msg(message) => self.route_message(queues, client_id, counter, message),
            ServerHeldItem::Request {
                request_event_id,
                response_event_id,
                request_token,
                data,
            } => self.route_request(
                queues,
                client_id,
                counter,
                request_event_id,
                response_event_id,
                request_token,
                data,
            ),
        }
    }

    /// Classifies the next event of the session.
    pub fn classify<C>(
        &mut self,
        registry: &EventRegistry,
        queues: &mut EventQueueConnectorServer<C, K>,
        client_id: u128,
        event: ServerEvent<C, K>,
    ) -> (outcome: ServerOutcome)
        requires
            old(queues).wf(),
            old(self)@.counter < u64::MAX,
        ensures
            final(queues).wf(),
            (state_of(final(self), final(queues)), outcome) == state_of(
                old(self),
                old(queues),
            ).classify(registry@, client_id, event),
    {
        let counter: u64 = self.next(client_id, &event);
        match event {
            ServerEvent::Report(report) => {
                if report.is_disconnected() {
                    self.purge(queues, client_id);
                }
                queues.send_connection(counter, client_id, report);
                ServerOutcome::Connection
            },
            ServerEvent::Msg(message) => {
                if !registry.has_message_id(message.id) {
                    return ServerOutcome::UnknownKind;
                }
                self.route_message(queues, client_id, counter, message)
            },
            ServerEvent::Request(request_token, request) => {
                match registry.get_response_id_from_request_id(request.id) {
                    Some(response_event_id) => self.route_request(
                        queues,
                        client_id,
                        counter,
                        request.id,
                        response_event_id,
                        request_token,
                        request.data,
                    ),
                    None => ServerOutcome::UnknownKind,
                }
            },
        }
    }

    /// Records that the application read one connection report.
    pub fn consume_connection<C>(
        &mut self,
        queues: &mut EventQueueConnectorServer<C, K>,
        counter: u64,
        client_id: u128,
        disconnected: bool,
    )
        requires
            old(queues).wf(),
        ensures
            final(queues).wf(),
            state_of(final(self), final(queues)) == state_of(old(self), old(queues)).consumed(
                counter,
                client_id,
                disconnected,
            ),
    {
        let mut gate: EpochGate = self.gate(client_id);
        gate.consume(counter, disconnected);
        self.gates.insert(client_id, gate);
        if disconnected {
            queues.handle_disconnect(client_id);
        }
    }
}

impl<K> Default for EventServerCore<K> {
    fn default() -> (server: Self)
        ensures
            server@ == ServerCore::<K>::empty(),
    {
        EventServerCore::new()
    }
}

} // verus!
