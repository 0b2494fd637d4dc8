use bevy_simplenet_events::client::event_client_core::ClientOutcome;
use bevy_simplenet_events::client::event_client_core::EventClientCore;
use bevy_simplenet_events::client::event_queue_connector::EventQueueConnectorClient;
use bevy_simplenet_events::client::refresh::drain_client;
use bevy_simplenet_events::client::report::ClientEvent;
use bevy_simplenet_events::client::report::ClientReport;
use bevy_simplenet_events::epoch_gate::EpochGate;
use bevy_simplenet_events::epoch_gate::SendError;
use bevy_simplenet_events::event::InternalEvent;
use bevy_simplenet_events::event_registry::EventRegistry;
use bevy_simplenet_events::server::event_queue_connector::EventQueueConnectorServer;
use bevy_simplenet_events::server::event_server_core::EventServerCore;
use bevy_simplenet_events::server::event_server_core::ServerOutcome;
use bevy_simplenet_events::server::refresh::drain_server;
use bevy_simplenet_events::server::refresh::read_connections;
use bevy_simplenet_events::server::report::EnvType;
use bevy_simplenet_events::server::report::ServerEvent;
use bevy_simplenet_events::server::report::ServerReport;

const DEMO_MSG_1: u64 = 101;
const DEMO_MSG_2: u64 = 102;
const DEMO_REQUEST_1: u64 = 201;
const DEMO_RESPONSE_1: u64 = 301;
const MSG1: u16 = 1;
const MSG2: u16 = 2;
const REQ1: (u16, u16) = (3, 4);

type Token = (u128, u64);
type Event = ServerEvent<String, Token>;

struct Demo {
    registry: EventRegistry,
    server: EventServerCore<Token>,
    queues: EventQueueConnectorServer<String, Token>,
}

fn demo() -> Demo {
    let mut registry = EventRegistry::new();
    let mut queues = EventQueueConnectorServer::new();
    let msg1 = registry.register_message(DEMO_MSG_1);
    let msg2 = registry.register_message(DEMO_MSG_2);
    queues.register_message(msg1);
    queues.register_message(msg2);
    let request1 = registry.register_request_response(DEMO_REQUEST_1, DEMO_RESPONSE_1);
    queues.register_request(request1.0, request1.1);
    assert_eq!((msg1, msg2, request1), (MSG1, MSG2, REQ1));
    Demo { registry, server: EventServerCore::new(), queues }
}

fn connected() -> Event {
    ServerEvent::Report(ServerReport::Connected(EnvType::Native, String::new()))
}

fn disconnected() -> Event {
    ServerEvent::Report(ServerReport::Disconnected)
}

fn msg(id: u16, byte: u8) -> Event {
    ServerEvent::Msg(InternalEvent { id, data: vec![byte] })
}

fn request(token: Token, id: u16, byte: u8) -> Event {
    ServerEvent::Request(token, InternalEvent { id, data: vec![byte] })
}

fn pass(demo: &mut Demo, events: Vec<(u128, Event)>) -> Vec<ServerOutcome> {
    drain_server(&mut demo.server, &demo.registry, &mut demo.queues, events)
}

#[test]
fn server_multisystem_reader() {
    let mut demo = demo();
    let outcomes = pass(&mut demo, vec![(0, connected()), (1, connected())]);
    assert_eq!(outcomes, vec![ServerOutcome::Connection, ServerOutcome::Connection]);
    assert_eq!(demo.queues.connections().len(), 2);
    read_connections(&mut demo.server, &mut demo.queues);
    let outcomes = pass(&mut demo, vec![(0, msg(MSG1, 10)), (0, msg(MSG2, 20))]);
    assert_eq!(outcomes, vec![ServerOutcome::Delivered, ServerOutcome::Delivered]);
    // reading removes nothing: two readers see the same
    for _ in 0..2 {
        assert_eq!(demo.queues.messages(MSG1).unwrap(), &vec![(0u128, vec![10u8])]);
        assert_eq!(demo.queues.messages(MSG2).unwrap(), &vec![(0u128, vec![20u8])]);
    }
}

#[test]
fn server_send_blocked_until_read_connect() {
    let mut demo = demo();
    pass(&mut demo, vec![(0, connected()), (1, connected())]);
    assert!(!demo.server.can_send(0));
    assert_eq!(demo.server.send(&demo.registry, 0, DEMO_MSG_1), Err(SendError::PendingConnect));
    assert_eq!(demo.server.respond(&demo.registry, 0, DEMO_RESPONSE_1), Err(SendError::PendingConnect));
    assert_eq!(demo.server.ack(0), Err(SendError::PendingConnect));
    assert_eq!(demo.server.pending_connect(0), Some(1));
    assert_eq!(demo.server.pending_connect(1), Some(2));
    // a client that never connected is not blocked by this core
    assert!(demo.server.can_send(5));
    assert_eq!(demo.queues.connections().len(), 2);
    read_connections(&mut demo.server, &mut demo.queues);
    assert!(demo.server.can_send(0));
    assert!(demo.server.can_send(1));
    assert_eq!(demo.server.send(&demo.registry, 0, DEMO_MSG_1), Ok(MSG1));
    assert_eq!(demo.server.respond(&demo.registry, 0, DEMO_RESPONSE_1), Ok(REQ1.1));
    assert_eq!(demo.server.ack(0), Ok(()));
}

#[test]
fn server_drops_old_client_msg() {
    let mut demo = demo();
    pass(&mut demo, vec![(0, connected())]);
    read_connections(&mut demo.server, &mut demo.queues);
    let outcomes = pass(
        &mut demo,
        vec![
            (0, msg(MSG1, 1)),
            (0, request((0, 1), REQ1.0, 11)),
            (0, disconnected()),
        ],
    );
    assert_eq!(
        outcomes,
        vec![ServerOutcome::Delivered, ServerOutcome::Delivered, ServerOutcome::Connection]
    );
    assert_eq!(demo.queues.connections().len(), 1);
    assert_eq!(demo.queues.messages(MSG1).unwrap().len(), 0);
    assert_eq!(demo.queues.requests_len(REQ1.0, REQ1.1), Some(0));
}

#[test]
fn server_disconnect_purges_one_client_only() {
    let mut demo = demo();
    pass(&mut demo, vec![(0, connected()), (1, connected())]);
    read_connections(&mut demo.server, &mut demo.queues);
    pass(
        &mut demo,
        vec![
            (0, msg(MSG1, 1)),
            (1, msg(MSG1, 2)),
            (1, request((1, 9), REQ1.0, 3)),
            (0, disconnected()),
        ],
    );
    assert_eq!(demo.queues.messages(MSG1).unwrap(), &vec![(1u128, vec![2u8])]);
    let requests = demo.queues.drain_requests(REQ1.0, REQ1.1).unwrap();
    assert_eq!(requests, vec![(1u128, ((1u128, 9u64), vec![3u8]))]);
    // drained requests are gone
    assert_eq!(demo.queues.requests_len(REQ1.0, REQ1.1), Some(0));
}

#[test]
fn server_holds_back_what_follows_an_unread_connect() {
    let mut demo = demo();
    let outcomes = pass(
        &mut demo,
        vec![
            (0, connected()),
            (0, msg(MSG1, 1)),
            (0, request((0, 1), REQ1.0, 2)),
            (1, connected()),
            (1, msg(MSG1, 3)),
        ],
    );
    assert_eq!(
        outcomes,
        vec![
            ServerOutcome::Connection,
            ServerOutcome::Withheld,
            ServerOutcome::Withheld,
            ServerOutcome::Connection,
            ServerOutcome::Withheld
        ]
    );
    assert_eq!(demo.server.withheld_len(), 3);
    assert_eq!(demo.queues.messages(MSG1).unwrap().len(), 0);
    // only the connect of client 0 is read
    demo.server.consume_connection(&mut demo.queues, 1, 0, false);
    assert!(demo.server.can_send(0));
    assert!(!demo.server.can_send(1));
    let outcomes = pass(&mut demo, vec![]);
    assert_eq!(
        outcomes,
        vec![ServerOutcome::Delivered, ServerOutcome::Delivered, ServerOutcome::Withheld]
    );
    assert_eq!(demo.queues.messages(MSG1).unwrap(), &vec![(0u128, vec![1u8])]);
    assert_eq!(demo.queues.requests_len(REQ1.0, REQ1.1), Some(1));
    assert_eq!(demo.server.withheld_len(), 1);
}

#[test]
fn server_disconnect_drops_what_was_held_back_for_the_client() {
    let mut demo = demo();
    pass(
        &mut demo,
        vec![(0, connected()), (0, msg(MSG1, 1)), (1, connected()), (1, msg(MSG1, 2))],
    );
    assert_eq!(demo.server.withheld_len(), 2);
    let outcomes = pass(&mut demo, vec![(0, disconnected())]);
    assert_eq!(
        outcomes,
        vec![ServerOutcome::Withheld, ServerOutcome::Withheld, ServerOutcome::Connection]
    );
    assert_eq!(demo.server.withheld_len(), 1);
    read_connections(&mut demo.server, &mut demo.queues);
    assert_eq!(demo.server.recent_consumed_disconnect(0), Some(5));
    // the disconnect changed no marker when it was classified, and reading it
    // clears no pending connect of another counter
    assert_eq!(demo.server.pending_connect(0), Some(1));
    assert_eq!(demo.server.pending_connect(1), Some(3));
}

#[test]
fn server_drops_events_of_unregistered_kinds() {
    let mut demo = demo();
    let outcomes = pass(
        &mut demo,
        vec![
            (0, msg(77, 1)),
            (0, request((0, 1), 77, 1)),
            // the identifier of a request is no message, and the other way round
            (0, msg(REQ1.0, 1)),
            (0, request((0, 2), MSG1, 1)),
            (0, request((0, 3), REQ1.1, 1)),
        ],
    );
    assert_eq!(outcomes, vec![ServerOutcome::UnknownKind; 5]);
    assert_eq!(demo.server.counter(), 5);
}

#[test]
fn server_drops_events_of_kinds_without_queue() {
    let mut registry = EventRegistry::new();
    let msg1 = registry.register_message(DEMO_MSG_1);
    let request1 = registry.register_request_response(DEMO_REQUEST_1, DEMO_RESPONSE_1);
    let mut server: EventServerCore<Token> = EventServerCore::new();
    let mut queues: EventQueueConnectorServer<String, Token> = EventQueueConnectorServer::new();
    let outcomes = drain_server(
        &mut server,
        &registry,
        &mut queues,
        vec![(0, msg(msg1, 1)), (0, request((0, 1), request1.0, 1))],
    );
    assert_eq!(outcomes, vec![ServerOutcome::NoQueue, ServerOutcome::NoQueue]);
}

#[test]
fn server_markers_are_kept_per_client() {
    let mut server: EventServerCore<Token> = EventServerCore::new();
    assert_eq!(server.gate(3), EpochGate::new());
    // nothing happens for a client that never connected
    server.set_pending_connect(3, Some(9));
    assert_eq!(server.pending_connect(3), None);
    server.try_clear_pending_connect(3, 9);
    assert_eq!(server.pending_connect(3), None);
    let event: Event = connected();
    assert_eq!(server.next(3, &event), 1);
    assert_eq!(server.pending_connect(3), Some(1));
    assert_eq!(server.pending_connect(4), None);
    server.set_pending_connect(3, Some(9));
    assert_eq!(server.pending_connect(3), Some(9));
    server.try_clear_pending_connect(3, 1);
    assert_eq!(server.pending_connect(3), Some(9));
    server.try_clear_pending_connect(3, 9);
    assert_eq!(server.pending_connect(3), None);
    server.set_pending_connect(3, None);
    assert_eq!(server.gate(3), EpochGate::new());
    let event: Event = disconnected();
    assert_eq!(server.next(3, &event), 2);
    let event: Event = msg(1, 1);
    assert_eq!(server.next(3, &event), 3);
    assert_eq!(server.pending_connect(3), None);
    assert_eq!(server.counter(), 3);
}

#[test]
fn server_reading_a_disconnect_marks_the_client_and_drops_its_items() {
    let mut demo = demo();
    pass(&mut demo, vec![(0, disconnected()), (0, msg(MSG1, 1)), (1, msg(MSG1, 2))]);
    assert_eq!(demo.queues.messages(MSG1).unwrap().len(), 2);
    read_connections(&mut demo.server, &mut demo.queues);
    assert_eq!(demo.server.recent_consumed_disconnect(0), Some(1));
    assert_eq!(demo.server.recent_consumed_disconnect(1), None);
    assert_eq!(demo.queues.messages(MSG1).unwrap(), &vec![(1u128, vec![2u8])]);
    // a message of the client that is no newer than the marker is stale
    let message = InternalEvent { id: MSG1, data: vec![3] };
    assert_eq!(demo.server.route_message(&mut demo.queues, 0, 1, message), ServerOutcome::Stale);
    let message = InternalEvent { id: MSG1, data: vec![3] };
    assert_eq!(demo.server.route_message(&mut demo.queues, 1, 1, message), ServerOutcome::Delivered);
    demo.server.set_pending_connect(0, Some(10));
    assert_eq!(
        demo.server.route_request(&mut demo.queues, 0, 5, REQ1.0, REQ1.1, (0, 1), vec![]),
        ServerOutcome::Misordered
    );
    assert_eq!(
        demo.server.route_request(&mut demo.queues, 0, 1, REQ1.0, REQ1.1, (0, 1), vec![]),
        ServerOutcome::Stale
    );
}

#[test]
fn client_server_shared_app() {
    // both sides register the same kinds in the same order
    let mut registry = EventRegistry::new();
    let msg1 = registry.register_message(DEMO_MSG_1);
    let mut demo = demo();
    assert_eq!(msg1, MSG1);
    let mut client = EventClientCore::new();
    let mut client_queues = EventQueueConnectorClient::new();
    client_queues.register_message(msg1);

    pass(&mut demo, vec![(0, connected())]);
    drain_client(&mut client, &mut client_queues, vec![ClientEvent::Report(ClientReport::Connected)]);
    assert_eq!(demo.queues.connections().len(), 1);
    assert_eq!(client_queues.connections().len(), 1);
    read_connections(&mut demo.server, &mut demo.queues);
    bevy_simplenet_events::client::refresh::read_connections(&mut client, &mut client_queues);

    // each side sends under the identifier that the other side knows
    let to_client = InternalEvent { id: demo.server.send(&demo.registry, 0, DEMO_MSG_1).unwrap(), data: vec![1] };
    let to_server = InternalEvent { id: client.send(&registry, DEMO_MSG_1).unwrap(), data: vec![11] };
    let outcomes = pass(&mut demo, vec![(0, ServerEvent::Msg(to_server))]);
    assert_eq!(outcomes, vec![ServerOutcome::Delivered]);
    let outcomes = drain_client(&mut client, &mut client_queues, vec![ClientEvent::Msg(to_client)]);
    assert_eq!(outcomes, vec![ClientOutcome::Delivered]);
    assert_eq!(demo.queues.messages(msg1).unwrap(), &vec![(0u128, vec![11u8])]);
    assert_eq!(client_queues.messages(msg1).unwrap(), &vec![vec![1u8]]);
}
