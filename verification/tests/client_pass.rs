use bevy_simplenet_events::client::event_client_core::ClientOutcome;
use bevy_simplenet_events::client::event_client_core::EventClientCore;
use bevy_simplenet_events::epoch_gate::SendError;
use bevy_simplenet_events::client::event_queue_connector::EventQueueConnectorClient;
use bevy_simplenet_events::client::refresh::drain_client;
use bevy_simplenet_events::client::refresh::read_connections;
use bevy_simplenet_events::client::report::ClientEvent;
use bevy_simplenet_events::client::report::ClientReport;
use bevy_simplenet_events::client::server_response::ServerResponse;
use bevy_simplenet_events::event::InternalEvent;
use bevy_simplenet_events::event_registry::EventRegistry;

const DEMO_MSG_1: u64 = 101;
const DEMO_MSG_2: u64 = 102;
const DEMO_REQUEST_1: u64 = 201;
const DEMO_REQUEST_2: u64 = 202;
const DEMO_RESPONSE_1: u64 = 301;
const UNIT: u64 = 300;

struct Demo {
    registry: EventRegistry,
    client: EventClientCore,
    queues: EventQueueConnectorClient,
    msg1: u16,
    msg2: u16,
    request1: (u16, u16),
    request2: (u16, u16),
}

fn demo() -> Demo {
    let mut registry = EventRegistry::new();
    let mut queues = EventQueueConnectorClient::new();
    let msg1 = registry.register_message(DEMO_MSG_1);
    let msg2 = registry.register_message(DEMO_MSG_2);
    queues.register_message(msg1);
    queues.register_message(msg2);
    let request1 = registry.register_request_response(DEMO_REQUEST_1, DEMO_RESPONSE_1);
    let request2 = registry.register_request_response(DEMO_REQUEST_2, UNIT);
    queues.register_response(request1.0, request1.1);
    queues.register_response(request2.0, request2.1);
    Demo { registry, client: EventClientCore::new(), queues, msg1, msg2, request1, request2 }
}

fn msg(id: u16, byte: u8) -> ClientEvent {
    ClientEvent::Msg(InternalEvent { id, data: vec![byte] })
}

fn connect(demo: &mut Demo) {
    let outcomes =
        drain_client(&mut demo.client, &mut demo.queues, vec![ClientEvent::Report(ClientReport::Connected)]);
    assert_eq!(outcomes, vec![ClientOutcome::Connection]);
}

#[test]
fn client_connection() {
    let mut demo = demo();
    connect(&mut demo);
    assert_eq!(demo.queues.connections().len(), 1);
    assert_eq!(demo.queues.connections()[0], (1, ClientReport::Connected));
    // a second reader sees the same report
    read_connections(&mut demo.client, &mut demo.queues);
    assert_eq!(demo.queues.connections().len(), 1);
    assert!(demo.queues.connections().iter().any(|(_, r)| *r == ClientReport::Connected));
}

#[test]
fn client_multisystem_reader() {
    let mut demo = demo();
    connect(&mut demo);
    read_connections(&mut demo.client, &mut demo.queues);
    let outcomes = drain_client(
        &mut demo.client,
        &mut demo.queues,
        vec![msg(demo.msg1, 10), msg(demo.msg2, 20)],
    );
    assert_eq!(outcomes, vec![ClientOutcome::Delivered, ClientOutcome::Delivered]);
    // reading removes nothing: two readers see the same
    for _ in 0..2 {
        assert_eq!(demo.queues.messages(demo.msg1).unwrap().len(), 1);
        assert_eq!(demo.queues.messages(demo.msg2).unwrap().len(), 1);
        assert_eq!(demo.queues.messages(demo.msg1).unwrap()[0], vec![10u8]);
        assert_eq!(demo.queues.messages(demo.msg2).unwrap()[0], vec![20u8]);
    }
    // the next pass starts with empty queues
    drain_client(&mut demo.client, &mut demo.queues, vec![]);
    assert_eq!(demo.queues.messages(demo.msg1).unwrap().len(), 0);
    assert_eq!(demo.queues.connections().len(), 0);
}

#[test]
fn client_send_blocked_until_read_connect() {
    let mut demo = demo();
    connect(&mut demo);
    assert!(!demo.client.can_send());
    assert_eq!(demo.client.send(&demo.registry, DEMO_MSG_1), Err(SendError::PendingConnect));
    assert_eq!(demo.client.request(&demo.registry, DEMO_REQUEST_1), Err(SendError::PendingConnect));
    assert_eq!(demo.queues.connections().len(), 1);
    read_connections(&mut demo.client, &mut demo.queues);
    assert!(demo.client.can_send());
    assert_eq!(demo.client.send(&demo.registry, DEMO_MSG_1), Ok(demo.msg1));
    assert_eq!(demo.client.request(&demo.registry, DEMO_REQUEST_1), Ok(demo.request1));
}

#[test]
fn client_request() {
    let mut demo = demo();
    connect(&mut demo);
    read_connections(&mut demo.client, &mut demo.queues);
    let (req, resp) = demo.client.request(&demo.registry, DEMO_REQUEST_1).unwrap();
    demo.client.add_request(7, req, resp);
    let outcomes = drain_client(
        &mut demo.client,
        &mut demo.queues,
        vec![ClientEvent::Response(InternalEvent { id: resp, data: vec![2] }, 7)],
    );
    assert_eq!(outcomes, vec![ClientOutcome::Delivered]);
    let replies = demo.queues.responses(req, resp).unwrap();
    assert_eq!(replies.len(), 1);
    assert!(replies[0] == ServerResponse::Response(vec![2u8], 7));
    assert_eq!(replies[0].request_id(), 7);
    assert_eq!(replies[0].response(), Some(&vec![2u8]));
    assert!(!demo.client.has_request(7));
}

#[test]
fn client_request_acked_rejected() {
    let mut demo = demo();
    connect(&mut demo);
    read_connections(&mut demo.client, &mut demo.queues);
    let (req, resp) = demo.client.request(&demo.registry, DEMO_REQUEST_2).unwrap();
    assert_eq!((req, resp), demo.request2);
    demo.client.add_request(2, req, resp);
    demo.client.add_request(22, req, resp);
    let outcomes =
        drain_client(&mut demo.client, &mut demo.queues, vec![ClientEvent::Ack(2), ClientEvent::Reject(22)]);
    assert_eq!(outcomes, vec![ClientOutcome::Delivered, ClientOutcome::Delivered]);
    let replies = demo.queues.responses(req, resp).unwrap();
    assert!(replies.iter().any(|r| *r == ServerResponse::Ack(2)));
    assert!(replies.iter().any(|r| *r == ServerResponse::Reject(22)));
    assert_eq!(replies.len(), 2);
}

#[test]
fn client_drops_old_server_msg() {
    let mut demo = demo();
    connect(&mut demo);
    read_connections(&mut demo.client, &mut demo.queues);
    let outcomes = drain_client(
        &mut demo.client,
        &mut demo.queues,
        vec![
            msg(demo.msg1, 1),
            ClientEvent::Report(ClientReport::Disconnected),
            ClientEvent::Report(ClientReport::Connected),
        ],
    );
    assert_eq!(
        outcomes,
        vec![ClientOutcome::Delivered, ClientOutcome::Connection, ClientOutcome::Connection]
    );
    assert_eq!(demo.queues.connections().len(), 2);
    read_connections(&mut demo.client, &mut demo.queues);
    assert_eq!(demo.queues.messages(demo.msg1).unwrap().len(), 0);
    assert_eq!(demo.client.recent_consumed_disconnect(), Some(3));
    assert_eq!(demo.client.pending_connect(), None);
}

#[test]
fn client_loses_old_server_response() {
    let mut demo = demo();
    connect(&mut demo);
    read_connections(&mut demo.client, &mut demo.queues);
    let (req, resp) = demo.client.request(&demo.registry, DEMO_REQUEST_1).unwrap();
    demo.client.add_request(1, req, resp);
    demo.client.add_request(2, req, resp);
    drain_client(
        &mut demo.client,
        &mut demo.queues,
        vec![
            ClientEvent::Response(InternalEvent { id: resp, data: vec![1] }, 1),
            ClientEvent::Ack(2),
            ClientEvent::Report(ClientReport::Disconnected),
            ClientEvent::Report(ClientReport::Connected),
        ],
    );
    assert_eq!(demo.queues.connections().len(), 2);
    read_connections(&mut demo.client, &mut demo.queues);
    let replies = demo.queues.responses(req, resp).unwrap();
    assert_eq!(replies.len(), 2);
    assert!(replies.iter().any(|r| *r == ServerResponse::ResponseLost(1)));
    assert!(replies.iter().any(|r| *r == ServerResponse::ResponseLost(2)));
}

#[test]
fn reply_behind_unread_connect_waits_until_connect_is_read() {
    let mut demo = demo();
    connect(&mut demo);
    read_connections(&mut demo.client, &mut demo.queues);
    let (req, resp) = demo.client.request(&demo.registry, DEMO_REQUEST_1).unwrap();
    demo.client.add_request(40, req, resp);
    // a connect report arrives, then the reply
    let outcomes = drain_client(
        &mut demo.client,
        &mut demo.queues,
        vec![
            ClientEvent::Report(ClientReport::Connected),
            ClientEvent::Response(InternalEvent { id: resp, data: vec![8] }, 40),
            msg(demo.msg1, 9),
        ],
    );
    assert_eq!(
        outcomes,
        vec![ClientOutcome::Connection, ClientOutcome::Withheld, ClientOutcome::Withheld]
    );
    // before the connect report is read, nothing newer is shown
    assert_eq!(demo.queues.responses(req, resp).unwrap().len(), 0);
    assert_eq!(demo.queues.messages(demo.msg1).unwrap().len(), 0);
    assert_eq!(demo.client.withheld_len(), 2);
    assert_eq!(demo.client.pending_connect(), Some(2));
    // another pass without reading changes nothing; the report itself is gone
    let outcomes = drain_client(&mut demo.client, &mut demo.queues, vec![]);
    assert_eq!(outcomes, vec![ClientOutcome::Withheld, ClientOutcome::Withheld]);
    assert_eq!(demo.queues.responses(req, resp).unwrap().len(), 0);
    assert_eq!(demo.client.withheld_len(), 2);
    // the report is read in the pass in which it was queued
    let mut demo = self::demo();
    connect(&mut demo);
    read_connections(&mut demo.client, &mut demo.queues);
    demo.client.add_request(40, req, resp);
    drain_client(
        &mut demo.client,
        &mut demo.queues,
        vec![
            ClientEvent::Report(ClientReport::Connected),
            ClientEvent::Response(InternalEvent { id: resp, data: vec![8] }, 40),
        ],
    );
    read_connections(&mut demo.client, &mut demo.queues);
    assert!(demo.client.can_send());
    // reading shows nothing by itself; the next pass does
    assert_eq!(demo.queues.responses(req, resp).unwrap().len(), 0);
    let outcomes = drain_client(&mut demo.client, &mut demo.queues, vec![]);
    assert_eq!(outcomes, vec![ClientOutcome::Delivered]);
    let replies = demo.queues.responses(req, resp).unwrap();
    assert_eq!(replies.len(), 1);
    assert!(replies[0] == ServerResponse::Response(vec![8u8], 40));
    assert_eq!(demo.client.withheld_len(), 0);
}

#[test]
fn messages_around_a_reconnect_are_seen_in_order() {
    let mut demo = demo();
    connect(&mut demo);
    read_connections(&mut demo.client, &mut demo.queues);
    // X, disconnect, connect, Y arrive in one pass
    let outcomes = drain_client(
        &mut demo.client,
        &mut demo.queues,
        vec![
            msg(demo.msg1, b'X'),
            ClientEvent::Report(ClientReport::Disconnected),
            ClientEvent::Report(ClientReport::Connected),
            msg(demo.msg1, b'Y'),
        ],
    );
    assert_eq!(
        outcomes,
        vec![
            ClientOutcome::Delivered,
            ClientOutcome::Connection,
            ClientOutcome::Connection,
            ClientOutcome::Withheld
        ]
    );
    // X is seen, Y is not
    assert_eq!(demo.queues.messages(demo.msg1).unwrap(), &vec![vec![b'X']]);
    assert_eq!(
        demo.queues.connections(),
        &vec![(3, ClientReport::Disconnected), (4, ClientReport::Connected)]
    );
    assert!(!demo.client.can_send());
    read_connections(&mut demo.client, &mut demo.queues);
    // never X after the disconnect was read, and Y not before the next pass
    assert_eq!(demo.queues.messages(demo.msg1).unwrap().len(), 0);
    assert!(demo.client.can_send());
    assert_eq!(demo.client.recent_consumed_disconnect(), Some(3));
    let outcomes = drain_client(&mut demo.client, &mut demo.queues, vec![]);
    assert_eq!(outcomes, vec![ClientOutcome::Delivered]);
    assert_eq!(demo.queues.messages(demo.msg1).unwrap(), &vec![vec![b'Y']]);
}

#[test]
fn message_is_never_shown_before_its_connect_is_read() {
    let mut demo = demo();
    let outcomes = drain_client(
        &mut demo.client,
        &mut demo.queues,
        vec![ClientEvent::Report(ClientReport::Connected), msg(demo.msg2, 1)],
    );
    assert_eq!(outcomes, vec![ClientOutcome::Connection, ClientOutcome::Withheld]);
    for _ in 0..3 {
        // the connect report is never read: the message is never shown
        let outcomes = drain_client(&mut demo.client, &mut demo.queues, vec![]);
        assert_eq!(outcomes, vec![ClientOutcome::Withheld]);
        assert_eq!(demo.queues.messages(demo.msg2).unwrap().len(), 0);
        assert!(!demo.client.can_send());
    }
}

#[test]
fn replies_of_a_lost_connection_are_seen_as_lost() {
    let mut demo = demo();
    connect(&mut demo);
    read_connections(&mut demo.client, &mut demo.queues);
    let (req, resp) = demo.request1;
    demo.client.add_request(1, req, resp);
    demo.client.add_request(2, req, resp);
    demo.client.add_request(3, req, resp);
    // a connect report holds the replies back; the disconnect follows them
    let outcomes = drain_client(
        &mut demo.client,
        &mut demo.queues,
        vec![
            ClientEvent::Report(ClientReport::Connected),
            ClientEvent::Ack(1),
            ClientEvent::Response(InternalEvent { id: resp, data: vec![7] }, 2),
            ClientEvent::Reject(3),
            ClientEvent::Report(ClientReport::Disconnected),
        ],
    );
    assert_eq!(
        outcomes,
        vec![
            ClientOutcome::Connection,
            ClientOutcome::Withheld,
            ClientOutcome::Withheld,
            ClientOutcome::Withheld,
            ClientOutcome::Connection
        ]
    );
    read_connections(&mut demo.client, &mut demo.queues);
    assert_eq!(demo.client.pending_connect(), None);
    assert_eq!(demo.client.recent_consumed_disconnect(), Some(6));
    let outcomes = drain_client(&mut demo.client, &mut demo.queues, vec![]);
    assert_eq!(outcomes, vec![ClientOutcome::Lost, ClientOutcome::Lost, ClientOutcome::Delivered]);
    let replies = demo.queues.responses(req, resp).unwrap();
    assert_eq!(replies.len(), 3);
    assert!(replies[0] == ServerResponse::ResponseLost(1));
    assert!(replies[1] == ServerResponse::ResponseLost(2));
    assert!(replies[2] == ServerResponse::Reject(3));
}

#[test]
fn stale_message_is_dropped_when_looked_at_again() {
    let mut demo = demo();
    let outcomes = drain_client(
        &mut demo.client,
        &mut demo.queues,
        vec![
            ClientEvent::Report(ClientReport::Connected),
            msg(demo.msg1, 1),
            ClientEvent::Report(ClientReport::Disconnected),
        ],
    );
    assert_eq!(
        outcomes,
        vec![ClientOutcome::Connection, ClientOutcome::Withheld, ClientOutcome::Connection]
    );
    read_connections(&mut demo.client, &mut demo.queues);
    let outcomes = drain_client(&mut demo.client, &mut demo.queues, vec![msg(demo.msg1, 2)]);
    assert_eq!(outcomes, vec![ClientOutcome::Stale, ClientOutcome::Delivered]);
    assert_eq!(demo.queues.messages(demo.msg1).unwrap(), &vec![vec![2u8]]);
    assert_eq!(demo.client.withheld_len(), 0);
}

#[test]
fn message_between_read_disconnect_and_unread_connect_is_dropped() {
    let mut demo = demo();
    drain_client(
        &mut demo.client,
        &mut demo.queues,
        vec![ClientEvent::Report(ClientReport::Disconnected)],
    );
    read_connections(&mut demo.client, &mut demo.queues);
    assert_eq!(demo.client.recent_consumed_disconnect(), Some(1));
    demo.client.set_pending_connect(Some(10));
    let message = InternalEvent { id: demo.msg1, data: vec![1] };
    assert_eq!(demo.client.route_message(&mut demo.queues, 5, message), ClientOutcome::Misordered);
    assert_eq!(demo.queues.messages(demo.msg1).unwrap().len(), 0);
    assert_eq!(demo.client.withheld_len(), 0);
    let message = InternalEvent { id: demo.msg1, data: vec![1] };
    assert_eq!(demo.client.route_message(&mut demo.queues, 1, message), ClientOutcome::Stale);
    let message = InternalEvent { id: demo.msg1, data: vec![1] };
    assert_eq!(demo.client.route_message(&mut demo.queues, 10, message), ClientOutcome::Withheld);
    assert_eq!(demo.client.withheld_len(), 1);
}

#[test]
fn message_of_unknown_kind_is_dropped() {
    let mut demo = demo();
    let outcomes = drain_client(
        &mut demo.client,
        &mut demo.queues,
        vec![msg(999, 1), ClientEvent::Report(ClientReport::Connected), msg(999, 2)],
    );
    assert_eq!(
        outcomes,
        vec![ClientOutcome::UnknownKind, ClientOutcome::Connection, ClientOutcome::UnknownKind]
    );
    assert_eq!(demo.client.withheld_len(), 0);
    assert_eq!(demo.client.counter(), 3);
}

#[test]
fn reply_to_unknown_request_is_reported_once_per_occurrence() {
    let mut demo = demo();
    let (req, resp) = demo.request1;
    demo.client.add_request(5, req, resp);
    let outcomes = drain_client(
        &mut demo.client,
        &mut demo.queues,
        vec![
            ClientEvent::Ack(4),
            ClientEvent::Ack(5),
            ClientEvent::Ack(5),
            ClientEvent::Reject(5),
            ClientEvent::ResponseLost(6),
            ClientEvent::SendFailed(7),
            ClientEvent::Response(InternalEvent { id: resp, data: vec![] }, 8),
        ],
    );
    assert_eq!(
        outcomes,
        vec![
            ClientOutcome::UnknownRequest,
            ClientOutcome::Delivered,
            ClientOutcome::UnknownRequest,
            ClientOutcome::UnknownRequest,
            ClientOutcome::UnknownRequest,
            ClientOutcome::UnknownRequest,
            ClientOutcome::UnknownRequest
        ]
    );
    let replies = demo.queues.responses(req, resp).unwrap();
    assert_eq!(replies.len(), 1);
    assert!(replies[0] == ServerResponse::Ack(5));
    // every event was counted
    assert_eq!(demo.client.counter(), 7);
}

#[test]
fn response_of_another_kind_than_requested_is_dropped() {
    let mut demo = demo();
    let (req, resp) = demo.request1;
    demo.client.add_request(5, req, resp);
    let outcomes = drain_client(
        &mut demo.client,
        &mut demo.queues,
        vec![ClientEvent::Response(InternalEvent { id: demo.request2.1, data: vec![1] }, 5)],
    );
    assert_eq!(outcomes, vec![ClientOutcome::MismatchedResponse]);
    assert_eq!(demo.queues.responses(req, resp).unwrap().len(), 0);
    assert_eq!(demo.queues.responses(demo.request2.0, demo.request2.1).unwrap().len(), 0);
    // the request is ended all the same
    assert!(!demo.client.has_request(5));
}

#[test]
fn reply_for_kinds_without_queue_is_dropped() {
    let mut demo = demo();
    demo.client.add_request(5, 70, 71);
    let outcomes = drain_client(&mut demo.client, &mut demo.queues, vec![ClientEvent::Ack(5)]);
    assert_eq!(outcomes, vec![ClientOutcome::UnknownResponseKind]);
    assert!(!demo.client.has_request(5));
}

#[test]
fn send_failed_and_response_lost_are_shown_as_they_come() {
    let mut demo = demo();
    let (req, resp) = demo.request2;
    demo.client.add_request(1, req, resp);
    demo.client.add_request(2, req, resp);
    let outcomes = drain_client(
        &mut demo.client,
        &mut demo.queues,
        vec![ClientEvent::SendFailed(1), ClientEvent::ResponseLost(2)],
    );
    assert_eq!(outcomes, vec![ClientOutcome::Delivered, ClientOutcome::Delivered]);
    let replies = demo.queues.responses(req, resp).unwrap();
    assert!(replies[0] == ServerResponse::SendFailed(1));
    assert!(replies[1] == ServerResponse::ResponseLost(2));
}

#[test]
fn counter_counts_every_event_once() {
    let mut demo = demo();
    assert_eq!(demo.client.counter(), 0);
    let ready = ClientEvent::Report(ClientReport::ClosedBySelf);
    assert_eq!(demo.client.next(&ready), 1);
    assert_eq!(demo.client.pending_connect(), None);
    assert_eq!(demo.client.next(&ClientEvent::Report(ClientReport::Connected)), 2);
    assert_eq!(demo.client.pending_connect(), Some(2));
    assert_eq!(demo.client.next(&ClientEvent::Ack(1)), 3);
    assert_eq!(demo.client.pending_connect(), Some(2));
    assert_eq!(demo.client.next(&ClientEvent::Report(ClientReport::Connected)), 4);
    assert_eq!(demo.client.pending_connect(), Some(4));
    assert_eq!(demo.client.counter(), 4);
}

#[test]
fn other_reports_change_no_marker() {
    let mut demo = demo();
    let outcomes = drain_client(
        &mut demo.client,
        &mut demo.queues,
        vec![
            ClientEvent::Report(ClientReport::ClosedBySelf),
            ClientEvent::Report(ClientReport::ClosedByServer(None)),
            ClientEvent::Report(ClientReport::IsDead(vec![1, 2])),
            msg(demo.msg1, 1),
        ],
    );
    assert_eq!(outcomes.len(), 4);
    assert_eq!(outcomes[3], ClientOutcome::Delivered);
    read_connections(&mut demo.client, &mut demo.queues);
    assert_eq!(demo.client.pending_connect(), None);
    assert_eq!(demo.client.recent_consumed_disconnect(), None);
    assert_eq!(demo.queues.messages(demo.msg1).unwrap().len(), 1);
    assert_eq!(demo.queues.connections().len(), 3);
}

#[test]
fn remove_request_takes_the_entry_out() {
    let mut client = EventClientCore::new();
    client.add_request(3, 1, 2);
    assert!(client.has_request(3));
    assert_eq!(client.remove_request(4), None);
    assert_eq!(client.remove_request(3), Some((1, 2)));
    assert_eq!(client.remove_request(3), None);
    assert!(!client.has_request(3));
}

#[test]
fn try_clear_pending_connect_needs_the_exact_counter() {
    let mut client = EventClientCore::new();
    client.set_pending_connect(Some(5));
    client.try_clear_pending_connect(4);
    assert_eq!(client.pending_connect(), Some(5));
    assert!(!client.can_send());
    client.try_clear_pending_connect(5);
    assert_eq!(client.pending_connect(), None);
    assert!(client.can_send());
}

#[test]
fn requests_that_share_a_response_kind_keep_their_own_queues() {
    let mut registry = EventRegistry::new();
    let mut queues = EventQueueConnectorClient::new();
    let first = registry.register_request_response(1, 9);
    let second = registry.register_request_response(2, 9);
    assert_eq!((first, second), ((1, 2), (3, 4)));
    queues.register_response(first.0, first.1);
    queues.register_response(second.0, second.1);
    let mut client = EventClientCore::new();
    // each request goes out under the identifiers that it was registered with
    assert_eq!(client.request(&registry, 1), Ok(first));
    assert_eq!(client.request(&registry, 2), Ok(second));
    client.add_request(10, first.0, first.1);
    client.add_request(11, second.0, second.1);
    let outcomes = drain_client(&mut client, &mut queues, vec![ClientEvent::Ack(10), ClientEvent::Reject(11)]);
    assert_eq!(outcomes, vec![ClientOutcome::Delivered, ClientOutcome::Delivered]);
    assert!(queues.responses(first.0, first.1).unwrap()[0] == ServerResponse::Ack(10));
    assert!(queues.responses(second.0, second.1).unwrap()[0] == ServerResponse::Reject(11));
    assert_eq!(queues.responses(first.0, first.1).unwrap().len(), 1);
    assert_eq!(queues.responses(second.0, second.1).unwrap().len(), 1);
}
