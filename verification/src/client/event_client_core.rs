//! The client's bookkeeping: the counter, the markers of its one peer, the
//! requests that wait for a reply, and what is held back.

use crate::client::event_queue_connector::ClientQueues;
use crate::client::event_queue_connector::EventQueueConnectorClient;
use crate::client::report::ClientEvent;
use crate::client::report::ClientReport;
use crate::client::server_response::PendingResponseData;
use crate::epoch_gate::EpochGate;
use crate::epoch_gate::SendError;
use crate::epoch_gate::Visibility;
use crate::event::InternalEvent;
use crate::event_registry::EventRegistry;
use crate::request_table::entry_of;
use crate::request_table::RequestTable;
use vstd::prelude::*;

verus! {

/// An inbound item that waits behind a connect report.
#[derive(Clone, Debug, PartialEq, Eq)]
pub enum HeldItem {
    /// A message.
    Msg(InternalEvent),
    /// The terminal reply to a request, with the kinds that the request was
    /// sent under.
    Reply {
        request_event_id: u16,
        response_event_id: u16,
        request_id: u64,
        data: PendingResponseData,
    },
}

/// An item that is held back, with the counter that it arrived under.
#[derive(Clone, Debug, PartialEq, Eq)]
pub struct Held {
    pub counter: u64,
    pub item: HeldItem,
}

/// What became of one inbound event.
#[derive(Clone, Copy, Debug, PartialEq, Eq)]
pub enum ClientOutcome {
    /// A connection report was queued.
    Connection,
    /// A message or reply was queued as it came.
    Delivered,
    /// A response or acknowledgement was queued as a lost response: its
    /// connection is gone.
    Lost,
    /// The item is held back behind a connect report that was not read.
    Withheld,
    /// A message was dropped: its connection is gone.
    Stale,
    /// A message was dropped: it lies between a read disconnect and an unread
    /// connect, where none should be.
    Misordered,
    /// A message was dropped: its kind has no queue.
    UnknownKind,
    /// A reply was dropped: no request with its id waits for one.
    UnknownRequest,
    /// A response was dropped: its kind is not the one that its request is
    /// answered with.
    MismatchedResponse,
    /// A reply was dropped: the kinds of its request and response have no
    /// queue.
    UnknownResponseKind,
}

/// What the client's bookkeeping holds.
#[verifier::ext_equal]
pub struct ClientCore {
    /// The counter of the event that was classified last.
    pub counter: u64,
    /// The markers of the server.
    pub gate: EpochGate,
    /// The requests that wait for their reply.
    pub requests: Map<u64, (u16, u16)>,
    /// What is held back, oldest first.
    pub withheld: Seq<Held>,
}

/// The whole of a client's state: its bookkeeping and its queues.
#[verifier::ext_equal]
pub struct ClientState {
    pub core: ClientCore,
    pub queues: ClientQueues,
}

/// A terminal reply as the session reports it: the id of the request, what
/// the reply says, and for a response the kind that it claims to be of.
pub open spec fn reply_of(event: ClientEvent) -> Option<(u64, PendingResponseData, Option<u16>)> {
    match event {
        ClientEvent::Report(_) => None,
        ClientEvent::Msg(_) => None,
        ClientEvent::Response(response, request_id) => Some(
            (request_id, PendingResponseData::Response(response.data), Some(response.id)),
        ),
        ClientEvent::Ack(request_id) => Some((request_id, PendingResponseData::Ack, None)),
        ClientEvent::Reject(request_id) => Some((request_id, PendingResponseData::Reject, None)),
        ClientEvent::SendFailed(request_id) => Some(
            (request_id, PendingResponseData::SendFailed, None),
        ),
        ClientEvent::ResponseLost(request_id) => Some(
            (request_id, PendingResponseData::ResponseLost, None),
        ),
    }
}

/// The id of the request that a terminal reply ends.
pub open spec fn replied_request(event: ClientEvent) -> Option<u64> {
    match reply_of(event) {
        Some((request_id, _, _)) => Some(request_id),
        None => None,
    }
}

impl ClientCore {
    pub open spec fn empty() -> ClientCore {
        ClientCore {
            counter: 0,
            gate: EpochGate::spec_new(),
            requests: Map::empty(),
            withheld: Seq::empty(),
        }
    }

    /// The bookkeeping after the next event got its counter: the counter is
    /// one higher, and a connect report has set the pending-connect marker to
    /// it.
    pub open spec fn stamped(self, event: ClientEvent) -> ClientCore {
        let counter = (self.counter + 1) as u64;
        ClientCore {
            counter,
            gate: if event == ClientEvent::Report(ClientReport::Connected) {
                self.gate.connected(counter)
            } else {
                self.gate
            },
            ..self
        }
    }
}

impl ClientState {
    /// The state with one more item held back.
    pub open spec fn hold(self, held: Held) -> ClientState {
        ClientState {
            core: ClientCore { withheld: self.core.withheld.push(held), ..self.core },
            ..self
        }
    }

    /// What becomes of a message with this counter: dropped if its kind has
    /// no queue, held back behind an unread connect report, dropped if its
    /// connection is gone or it lies where no message should be, and queued
    /// under its kind otherwise.
    pub open spec fn route_message(self, counter: u64, message: InternalEvent) -> (
        ClientState,
        ClientOutcome,
    ) {
        if !self.queues.has_message_kind(message.id) {
            (self, ClientOutcome::UnknownKind)
        } else {
            match self.core.gate.spec_visibility(counter) {
                Visibility::Withhold => (
                    self.hold(Held { counter, item: HeldItem::Msg(message) }),
                    ClientOutcome::Withheld,
                ),
                Visibility::Stale => (self, ClientOutcome::Stale),
                Visibility::Misordered => (self, ClientOutcome::Misordered),
                Visibility::Deliver => (
                    ClientState {
                        queues: self.queues.with_message(message.id, message.data),
                        ..self
                    },
                    ClientOutcome::Delivered,
                ),
            }
        }
    }

    /// What becomes of the terminal reply to a request: dropped if its kinds
    /// have no queue, held back behind an unread connect report, and queued
    /// otherwise; where its connection is gone, a response or acknowledgement
    /// is queued as a lost response.
    pub open spec fn route_reply(
        self,
        counter: u64,
        request_event_id: u16,
        response_event_id: u16,
        request_id: u64,
        data: PendingResponseData,
    ) -> (ClientState, ClientOutcome) {
        if !self.queues.has_response_kind(request_event_id, response_event_id) {
            (self, ClientOutcome::UnknownResponseKind)
        } else {
            let visibility = self.core.gate.spec_visibility(counter);
            if visibility == Visibility::Withhold {
                (
                    self.hold(
                        Held {
                            counter,
                            item: HeldItem::Reply {
                                request_event_id,
                                response_event_id,
                                request_id,
                                data,
                            },
                        },
                    ),
                    ClientOutcome::Withheld,
                )
            } else {
                let stale = visibility == Visibility::Stale;
                (
                    ClientState {
                        queues: self.queues.with_response(
                            request_event_id,
                            response_event_id,
                            data.spec_settle(request_id, stale),
                        ),
                        ..self
                    },
                    if stale && data.spec_is_success() {
                        ClientOutcome::Lost
                    } else {
                        ClientOutcome::Delivered
                    },
                )
            }
        }
    }

    /// What becomes of an item that was held back, now that it is looked at
    /// again.
    pub open spec fn retry(self, held: Held) -> (ClientState, ClientOutcome) {
        match held.item {
            HeldItem::Msg(message) => self.route_message(held.counter, message),
            HeldItem::Reply {
                request_event_id,
                response_event_id,
                request_id,
                data,
            } => self.route_reply(
                held.counter,
                request_event_id,
                response_event_id,
                request_id,
                data,
            ),
        }
    }

    /// What becomes of a terminal reply that has its counter already: the
    /// entry of its request is taken out; the reply is dropped if there was
    /// none, or if it is a response of another kind than the entry names.
    pub open spec fn resolve_reply(
        self,
        request_id: u64,
        data: PendingResponseData,
        claimed: Option<u16>,
    ) -> (ClientState, ClientOutcome) {
        match entry_of(self.core.requests, request_id) {
            None => (self, ClientOutcome::UnknownRequest),
            Some((request_event_id, response_event_id)) => {
                let taken = ClientState {
                    core: ClientCore {
                        requests: self.core.requests.remove(request_id),
                        ..self.core
                    },
                    ..self
                };
                if claimed is Some && claimed != Some(response_event_id) {
                    (taken, ClientOutcome::MismatchedResponse)
                } else {
                    taken.route_reply(
                        self.core.counter,
                        request_event_id,
                        response_event_id,
                        request_id,
                        data,
                    )
                }
            },
        }
    }

    /// What becomes of the next event of the session: it gets the next
    /// counter; a report is queued, a message or reply goes its way.
    pub open spec fn classify(self, event: ClientEvent) -> (ClientState, ClientOutcome) {
        let stamped = ClientState { core: self.core.stamped(event), ..self };
        match event {
            ClientEvent::Report(report) => (
                ClientState {
                    queues: stamped.queues.with_connection(stamped.core.counter, report),
                    ..stamped
                },
                ClientOutcome::Connection,
            ),
            ClientEvent::Msg(message) => stamped.route_message(stamped.core.counter, message),
            _ => {
                let (request_id, data, claimed) = reply_of(event)->0;
                stamped.resolve_reply(request_id, data, claimed)
            },
        }
    }

    /// The state after the application read one connection report: the
    /// markers follow, and a disconnect report empties the message queues and
    /// turns queued successes into lost responses.
    pub open spec fn consumed(self, counter: u64, report: ClientReport) -> ClientState {
        ClientState {
            core: ClientCore {
                gate: self.core.gate.consumed(counter, report is Disconnected),
                ..self.core
            },
            queues: if report is Disconnected {
                self.queues.disconnected()
            } else {
                self.queues
            },
        }
    }
}

/// Owns the client's bookkeeping.
pub struct EventClientCore {
    counter: u64,
    gate: EpochGate,
    requests: RequestTable,
    withheld: Vec<Held>,
}

impl View for EventClientCore {
    type V = ClientCore;

    closed spec fn view(&self) -> ClientCore {
        ClientCore {
            counter: self.counter,
            gate: self.gate,
            requests: self.requests@,
            withheld: self.withheld@,
        }
    }
}

/// Both parts of a client's state seen as one.
pub open spec fn state_of(
    client: &EventClientCore,
    queues: &EventQueueConnectorClient,
) -> ClientState {
    ClientState { core: client@, queues: queues@ }
}

impl EventClientCore {
    /// Makes a new event client core.
    pub fn new() -> (client: Self)
        ensures
            client@ == ClientCore::empty(),
    {
        EventClientCore {
            counter: 0,
            gate: EpochGate::new(),
            requests: RequestTable::new(),
            withheld: Vec::new(),
        }
    }

    /// The counter of the event that was classified last.
    pub fn counter(&self) -> (n: u64)
        ensures
            n == self@.counter,
    {
        self.counter
    }

    /// Accesses the pending connect counter.
    pub fn pending_connect(&self) -> (marker: Option<u64>)
        ensures
            marker == self@.gate.pending_connect,
    {
        self.gate.pending_connect
    }

    /// Accesses the counter of the disconnect report that was read last.
    pub fn recent_consumed_disconnect(&self) -> (marker: Option<u64>)
        ensures
            marker == self@.gate.recent_consumed_disconnect,
    {
        self.gate.recent_consumed_disconnect
    }

    /// The number of items that are held back.
    pub fn withheld_len(&self) -> (n: usize)
        ensures
            n == self@.withheld.len(),
    {
        self.withheld.len()
    }

    /// Sets a new pending connect counter.
    pub fn set_pending_connect(&mut self, new: Option<u64>)
        ensures
            final(self)@ == (ClientCore {
                gate: EpochGate { pending_connect: new, ..old(self)@.gate },
                ..old(self)@
            }),
    {
        self.gate.set_pending_connect(new);
    }

    /// Clears the pending connect counter if the input counter equals it.
    pub fn try_clear_pending_connect(&mut self, counter: u64)
        ensures
            final(self)@ == (ClientCore {
                gate: old(self)@.gate.consumed(counter, false),
                ..old(self)@
            }),
    {
        self.gate.try_clear_pending_connect(counter);
    }

    /// Tells whether messages and requests may be sent now.
    pub fn can_send(&self) -> (r: bool)
        ensures
            r == self@.gate.spec_can_send(),
            r == (self@.gate.pending_connect is None),
    {
        self.gate.can_send()
    }

    /// Decides whether a message of a registered kind may be sent now, and
    /// under which identifier.
    pub fn send(&self, registry: &EventRegistry, kind: u64) -> (r: Result<u16, SendError>)
        requires
            registry@.messages.contains_key(kind),
        ensures
            r == (if self@.gate.spec_can_send() {
                Ok::<u16, SendError>(registry@.messages[kind])
            } else {
                Err::<u16, SendError>(SendError::PendingConnect)
            }),
    {
        if !self.gate.can_send() {
            return Err(SendError::PendingConnect);
        }
        Ok(registry.get_message_id(kind).unwrap())
    }

    /// Decides whether a request of a registered kind may be sent now, and
    /// under which identifiers: that of the kind of request, and that of the
    /// response that it was registered with.
    pub fn request(&self, registry: &EventRegistry, kind: u64) -> (r: Result<(u16, u16), SendError>)
        requires
            registry@.wf(),
            registry@.requests.contains_key(kind),
        ensures
            r == (if self@.gate.spec_can_send() {
                Ok::<(u16, u16), SendError>(
                    (
                        registry@.requests[kind],
                        registry@.response_ids[registry@.requests[kind]],
                    ),
                )
            } else {
                Err::<(u16, u16), SendError>(SendError::PendingConnect)
            }),
    {
        if !self.gate.can_send() {
            return Err(SendError::PendingConnect);
        }
        let request_event_id: u16 = registry.get_request_id(kind).unwrap();
        let response_event_id: u16 = registry.get_response_id_from_request_id(
            request_event_id,
        ).unwrap();
        Ok((request_event_id, response_event_id))
    }

    /// Tells whether the request with this id waits for its reply.
    pub fn has_request(&self, request_id: u64) -> (r: bool)
        ensures
            r == self@.requests.contains_key(request_id),
    {
        self.requests.contains(request_id)
    }

    /// Enters a request that was sent, so that its reply finds its queue. The
    /// id must not be that of a request that still waits.
    pub fn add_request(&mut self, request_id: u64, request_event_id: u16, response_event_id: u16)
        requires
            !old(self)@.requests.contains_key(request_id),
        ensures
            final(self)@ == (ClientCore {
                requests: old(self)@.requests.insert(
                    request_id,
                    (request_event_id, response_event_id),
                ),
                ..old(self)@
            }),
    {
        self.requests.record(request_id, request_event_id, response_event_id);
    }

    /// Removes a request from the request tracker.
    pub fn remove_request(&mut self, request_id: u64) -> (entry: Option<(u16, u16)>)
        ensures
            entry == entry_of(old(self)@.requests, request_id),
            final(self)@ == (ClientCore {
                requests: old(self)@.requests.remove(request_id),
                ..old(self)@
            }),
    {
        self.requests.resolve(request_id)
    }

    /// Gives the next event its counter.
    pub fn next(&mut self, event: &ClientEvent) -> (counter: u64)
        requires
            old(self)@.counter < u64::MAX,
        ensures
            final(self)@ == old(self)@.stamped(*event),
            counter == old(self)@.counter + 1,
    {
        self.counter += 1;
        if let ClientEvent::Report(report) = event {
            if report.is_connected() {
                self.gate.note_connected(self.counter);
            }
        }
        self.counter
    }

    /// Takes out everything that is held back.
    pub fn take_withheld(&mut self) -> (held: Vec<Held>)
        ensures
            held@ == old(self)@.withheld,
            final(self)@ == (ClientCore { withheld: Seq::empty(), ..old(self)@ }),
    {
        let mut held: Vec<Held> = Vec::new();
        std::mem::swap(&mut self.withheld, &mut held);
        held
    }

    /// Sends a message with this counter on its way.
    pub fn route_message(
        &mut self,
        queues: &mut EventQueueConnectorClient,
        counter: u64,
        message: InternalEvent,
    ) -> (outcome: ClientOutcome)
        requires
            old(queues).wf(),
        ensures
            final(queues).wf(),
            (state_of(final(self), final(queues)), outcome) == state_of(
                old(self),
                old(queues),
            ).route_message(counter, message),
    {
        if !queues.has_message(message.id) {
            return ClientOutcome::UnknownKind;
        }
        match self.gate.visibility(counter) {
            Visibility::Withhold => {
                self.withheld.push(Held { counter, item: HeldItem::Msg(message) });
                ClientOutcome::Withheld
            },
            Visibility::Stale => ClientOutcome::Stale,
            Visibility::Misordered => ClientOutcome::Misordered,
            Visibility::Deliver => {
                queues.send_message(message.id, message.data);
                ClientOutcome::Delivered
            },
        }
    }

    /// Sends the terminal reply to a request on its way.
    pub fn route_reply(
        &mut self,
        queues: &mut EventQueueConnectorClient,
        counter: u64,
        request_event_id: u16,
        response_event_id: u16,
        request_id: u64,
        data: PendingResponseData,
    ) -> (outcome: ClientOutcome)
        requires
            old(queues).wf(),
        ensures
            final(queues).wf(),
            (state_of(final(self), final(queues)), outcome) == state_of(
                old(self),
                old(queues),
            ).route_reply(counter, request_event_id, response_event_id, request_id, data),
    {
        if !queues.has_response(request_event_id, response_event_id) {
            return ClientOutcome::UnknownResponseKind;
        }
        match self.gate.visibility(counter) {
            Visibility::Withhold => {
                self.withheld.push(
                    Held {
                        counter,
                        item: HeldItem::Reply {
                            request_event_id,
                            response_event_id,
                            request_id,
                            data,
                        },
                    },
                );
                ClientOutcome::Withheld
            },
            Visibility::Stale => {
                let lost: bool = data.is_success();
                queues.send_response(
                    request_event_id,
                    response_event_id,
                    data.settle(request_id, true),
                );
                if lost {
                    ClientOutcome::Lost
                } else {
                    ClientOutcome::Delivered
                }
            },
            _ => {
                queues.send_response(
                    request_event_id,
                    response_event_id,
                    data.settle(request_id, false),
                );
                ClientOutcome::Delivered
            },
        }
    }

    /// Looks again at an item that was held back.
    pub fn retry(&mut self, queues: &mut EventQueueConnectorClient, held: Held) -> (outcome:
        ClientOutcome)
        requires
            old(queues).wf(),
        ensures
            final(queues).wf(),
            (state_of(final(self), final(queues)), outcome) == state_of(old(self), old(queues)).retry(
                held,
            ),
    {
        let counter: u64 = held.counter;
        match held.item {
            HeldItem::Msg(message) => self.route_message(queues, counter, message),
            HeldItem::Reply {
                request_event_id,
                response_event_id,
                request_id,
                data,
            } => self.route_reply(
                queues,
                counter,
                request_event_id,
                response_event_id,
                request_id,
                data,
            ),
        }
    }

    /// Takes the entry of the request that a terminal reply ends, and sends
    /// the reply on its way under the counter that was given out last.
    pub fn resolve_reply(
        &mut self,
        queues: &mut EventQueueConnectorClient,
        request_id: u64,
        data: PendingResponseData,
        claimed: Option<u16>,
    ) -> (outcome: ClientOutcome)
        requires
            old(queues).wf(),
        ensures
            final(queues).wf(),
            (state_of(final(self), final(queues)), outcome) == state_of(
                old(self),
                old(queues),
            ).resolve_reply(request_id, data, claimed),
    {
        match self.requests.resolve(request_id) {
            None => {
                assert(self.requests@ =~= old(self).requests@);
                ClientOutcome::UnknownRequest
            },
            Some((request_event_id, response_event_id)) => {
                if let Some(id) = claimed {
                    if id != response_event_id {
                        return ClientOutcome::MismatchedResponse;
                    }
                }
                let counter: u64 = self.counter;
                self.route_reply(
                    queues,
                    counter,
                    request_event_id,
                    response_event_id,
                    request_id,
                    data,
                )
            },
        }
    }

    /// Classifies the next event of the session.
    pub fn classify(&mut self, queues: &mut EventQueueConnectorClient, event: ClientEvent) -> (outcome:
        ClientOutcome)
        requires
            old(queues).wf(),
            old(self)@.counter < u64::MAX,
        ensures
            final(queues).wf(),
            (state_of(final(self), final(queues)), outcome) == state_of(
                old(self),
                old(queues),
            ).classify(event),
    {
        let counter: u64 = self.next(&event);
        match event {
            ClientEvent::Report(report) => {
                queues.send_connection(counter, report);
                ClientOutcome::Connection
            },
            ClientEvent::Msg(message) => self.route_message(queues, counter, message),
            ClientEvent::Response(response, request_id) => self.resolve_reply(
                queues,
                request_id,
                PendingResponseData::Response(response.data),
                Some(response.id),
            ),
            ClientEvent::Ack(request_id) => self.resolve_reply(
                queues,
                request_id,
                PendingResponseData::Ack,
                None,
            ),
            ClientEvent::Reject(request_id) => self.resolve_reply(
                queues,
                request_id,
                PendingResponseData::Reject,
                None,
            ),
            ClientEvent::SendFailed(request_id) => self.resolve_reply(
                queues,
                request_id,
                PendingResponseData::SendFailed,
                None,
            ),
            ClientEvent::ResponseLost(request_id) => self.resolve_reply(
                queues,
                request_id,
                PendingResponseData::ResponseLost,
                None,
            ),
        }
    }

    /// Records that the application read one connection report.
    pub fn consume_connection(
        &mut self,
        queues: &mut EventQueueConnectorClient,
        counter: u64,
        report: &ClientReport,
    )
        requires
            old(queues).wf(),
        ensures
            final(queues).wf(),
            state_of(final(self), final(queues)) == state_of(old(self), old(queues)).consumed(
                counter,
                *report,
            ),
    {
        let disconnected: bool = report.is_disconnected();
        self.gate.consume(counter, disconnected);
        if disconnected {
            queues.handle_disconnect();
        }
    }
}

impl Default for EventClientCore {
    fn default() -> (client: Self)
        ensures
            client@ == ClientCore::empty(),
    {
        EventClientCore::new()
    }
}

} // verus!
