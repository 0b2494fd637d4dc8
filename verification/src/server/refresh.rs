//! One pass of the server: what was queued goes, what was held back is looked
//! at again, and the new events of the session are classified.

use crate::epoch_gate::Visibility;
use crate::event::InternalEvent;
use crate::event_registry::EventRegistry;
use crate::event_registry::Registry;
use crate::server::event_queue_connector::EventQueueConnectorServer;
use crate::server::event_queues::lemma_of_other_clients;
use crate::server::event_server_core::gate_of;
use crate::server::event_server_core::state_of;
use crate::server::event_server_core::EventServerCore;
use crate::server::event_server_core::ServerCore;
use crate::server::event_server_core::ServerHeld;
use crate::server::event_server_core::ServerOutcome;
use crate::server::event_server_core::ServerState;
use crate::server::report::ServerEvent;
use crate::server::report::ServerReport;
use vstd::prelude::*;

verus! {

/// The state after these events, each with the id of its client, were
/// classified one after the other, and what became of each.
pub open spec fn classify_all<C, K>(
    state: ServerState<C, K>,
    registry: Registry,
    events: Seq<(u128, ServerEvent<C, K>)>,
) -> (ServerState<C, K>, Seq<ServerOutcome>)
    decreases events.len(),
{
    if events.len() == 0 {
        (state, Seq::empty())
    } else {
        let (before, outcomes) = classify_all(state, registry, events.drop_last());
        let (after, outcome) = before.classify(registry, events.last().0, events.last().1);
        (after, outcomes.push(outcome))
    }
}

/// The state after these items, which were held back, were looked at again
/// one after the other, and what became of each.
pub open spec fn retry_all<C, K>(state: ServerState<C, K>, items: Seq<(u128, ServerHeld<K>)>) -> (
    ServerState<C, K>,
    Seq<ServerOutcome>,
)
    decreases items.len(),
{
    if items.len() == 0 {
        (state, Seq::empty())
    } else {
        let (before, outcomes) = retry_all(state, items.drop_last());
        let (after, outcome) = before.retry(items.last().0, items.last().1);
        (after, outcomes.push(outcome))
    }
}

/// The state at the start of a pass: every queue is empty, and nothing is
/// held back yet.
pub open spec fn pass_begun<C, K>(state: ServerState<C, K>) -> ServerState<C, K> {
    ServerState {
        core: ServerCore { withheld: Seq::empty(), ..state.core },
        queues: state.queues.cleared(),
    }
}

/// One pass: the queues are emptied, the items that were held back are
/// looked at again, oldest first, and then the new events are classified in
/// the order of their arrival. The outcomes tell what became of each held
/// item and then of each event.
pub open spec fn refreshed<C, K>(
    state: ServerState<C, K>,
    registry: Registry,
    events: Seq<(u128, ServerEvent<C, K>)>,
) -> (ServerState<C, K>, Seq<ServerOutcome>) {
    let (retried, first) = retry_all(pass_begun(state), state.core.withheld);
    let (classified, second) = classify_all(retried, registry, events);
    (classified, first + second)
}

/// The state after the application read these connection reports one after
/// the other.
pub open spec fn consumed_all<C, K>(
    state: ServerState<C, K>,
    reports: Seq<(u64, u128, ServerReport<C>)>,
) -> ServerState<C, K>
    decreases reports.len(),
{
    if reports.len() == 0 {
        state
    } else {
        consumed_all(state, reports.drop_last()).consumed(
            reports.last().0,
            reports.last().1,
            reports.last().2 is Disconnected,
        )
    }
}

/// Runs one pass of the server over the events that its session has ready,
/// each with the id of the client that it comes from.
pub fn drain_server<C, K>(
    server: &mut EventServerCore<K>,
    registry: &EventRegistry,
    queues: &mut EventQueueConnectorServer<C, K>,
    events: Vec<(u128, ServerEvent<C, K>)>,
) -> (outcomes: Vec<ServerOutcome>)
    requires
        old(queues).wf(),
        old(server)@.counter + events.len() <= u64::MAX,
    ensures
        final(queues).wf(),
        (state_of(final(server), final(queues)), outcomes@) == refreshed(
            state_of(old(server), old(queues)),
            registry@,
            events@,
        ),
{
    let ghost begun = pass_begun(state_of(server, queues));
    let ghost counter = server@.counter;
    queues.clear_all();
    let held = server.take_withheld();
    assert(state_of(server, queues) == begun);
    let mut outcomes: Vec<ServerOutcome> = Vec::new();
    for item in it: held
        invariant
            queues.wf(),
            it.seq() == held@,
            server@.counter == counter,
            (state_of(server, queues), outcomes@) == retry_all(
                begun,
                held@.take(it.index() as int),
            ),
    {
        proof {
            let upto = held@.take(it.index() + 1);
            assert(upto.drop_last() == held@.take(it.index() as int));
            assert(upto.last() == item);
            lemma_retry_keeps_markers(
                retry_all(begun, held@.take(it.index() as int)).0,
                item.0,
                item.1,
            );
        }
        let outcome = server.retry(queues, item.0, item.1);
        outcomes.push(outcome);
    }
    proof {
        assert(held@.take(held@.len() as int) == held@);
    }
    let ghost retried = state_of(server, queues);
    let ghost first = outcomes@;
    for event in it: events
        invariant
            queues.wf(),
            it.seq() == events@,
            server@.counter == counter + it.index(),
            counter + events@.len() <= u64::MAX,
            retry_all(begun, held@) == (retried, first),
            outcomes@.len() == first.len() + it.index(),
            outcomes@.take(first.len() as int) == first,
            (state_of(server, queues), outcomes@.skip(first.len() as int)) == classify_all(
                retried,
                registry@,
                events@.take(it.index() as int),
            ),
    {
        proof {
            let upto = events@.take(it.index() + 1);
            assert(upto.drop_last() == events@.take(it.index() as int));
            assert(upto.last() == event);
        }
        let ghost before = outcomes@;
        let outcome = server.classify(registry, queues, event.0, event.1);
        outcomes.push(outcome);
        proof {
            assert(outcomes@.skip(first.len() as int) == before.skip(first.len() as int).push(
                outcome,
            ));
            assert(outcomes@.take(first.len() as int) == before.take(first.len() as int));
        }
    }
    proof {
        assert(events@.take(events@.len() as int) == events@);
        assert(outcomes@ == outcomes@.take(first.len() as int) + outcomes@.skip(
            first.len() as int,
        ));
    }
    outcomes
}

/// Records that the application read the connection reports that are
/// queued, oldest first. The reports stay queued for other readers.
pub fn read_connections<C, K>(
    server: &mut EventServerCore<K>,
    queues: &mut EventQueueConnectorServer<C, K>,
)
    requires
        old(queues).wf(),
    ensures
        final(queues).wf(),
        state_of(final(server), final(queues)) == consumed_all(
            state_of(old(server), old(queues)),
            old(queues)@.connections,
        ),
{
    let ghost start = state_of(server, queues);
    let ghost reports = queues@.connections;
    let n: usize = queues.connections().len();
    let mut i: usize = 0;
    while i < n
        invariant
            i <= n,
            n == reports.len(),
            queues.wf(),
            queues@.connections == reports,
            state_of(server, queues) == consumed_all(start, reports.take(i as int)),
        decreases n - i,
    {
        let counter: u64 = queues.connections()[i].0;
        let client_id: u128 = queues.connections()[i].1;
        let disconnected: bool = queues.connections()[i].2.is_disconnected();
        proof {
            let upto = reports.take(i + 1);
            assert(upto.drop_last() == reports.take(i as int));
            assert(upto.last() == reports[i as int]);
        }
        server.consume_connection(queues, counter, client_id, disconnected);
        i += 1;
    }
    proof {
        assert(reports.take(n as int) == reports);
    }
}

/// Looking again at an item that was held back gives out no counter and
/// changes no marker.
pub proof fn lemma_retry_keeps_markers<C, K>(
    state: ServerState<C, K>,
    client_id: u128,
    held: ServerHeld<K>,
)
    ensures
        state.retry(client_id, held).0.core.counter == state.core.counter,
        state.retry(client_id, held).0.core.gates == state.core.gates,
{
}

/// Looking again at what was held back changes no marker and gives out no
/// counter, and tells of each item what became of it.
pub proof fn lemma_retry_all_keeps_markers<C, K>(
    state: ServerState<C, K>,
    items: Seq<(u128, ServerHeld<K>)>,
)
    ensures
        retry_all(state, items).0.core.gates == state.core.gates,
        retry_all(state, items).0.core.counter == state.core.counter,
        retry_all(state, items).1.len() == items.len(),
    decreases items.len(),
{
    if items.len() > 0 {
        lemma_retry_all_keeps_markers(state, items.drop_last());
        lemma_retry_keeps_markers(
            retry_all(state, items.drop_last()).0,
            items.last().0,
            items.last().1,
        );
    }
}

/// Classifying an event gives it the next counter and leaves a connect report
/// of any client that waits to be read waiting: only reading unblocks
/// sending. No marker of a disconnect that was read changes.
pub proof fn lemma_classify_keeps_send_blocked<C, K>(
    state: ServerState<C, K>,
    registry: Registry,
    client_id: u128,
    event: ServerEvent<C, K>,
    peer: u128,
)
    ensures
        state.classify(registry, client_id, event).0.core.counter == (state.core.counter
            + 1) as u64,
        gate_of(state.core.gates, peer).pending_connect is Some ==> gate_of(
            state.classify(registry, client_id, event).0.core.gates,
            peer,
        ).pending_connect is Some,
        gate_of(
            state.classify(registry, client_id, event).0.core.gates,
            peer,
        ).recent_consumed_disconnect == gate_of(state.core.gates, peer).recent_consumed_disconnect,
        event matches ServerEvent::Report(report) && report is Connected ==> gate_of(
            state.classify(registry, client_id, event).0.core.gates,
            client_id,
        ).pending_connect == Some((state.core.counter + 1) as u64),
{
}

/// Classifying events one after the other leaves a connect report that waits
/// to be read waiting, counts every event once, and tells of each event what
/// became of it.
pub proof fn lemma_classify_all_keeps_send_blocked<C, K>(
    state: ServerState<C, K>,
    registry: Registry,
    events: Seq<(u128, ServerEvent<C, K>)>,
    peer: u128,
)
    requires
        state.core.counter + events.len() <= u64::MAX,
    ensures
        gate_of(state.core.gates, peer).pending_connect is Some ==> gate_of(
            classify_all(state, registry, events).0.core.gates,
            peer,
        ).pending_connect is Some,
        gate_of(
            classify_all(state, registry, events).0.core.gates,
            peer,
        ).recent_consumed_disconnect == gate_of(state.core.gates, peer).recent_consumed_disconnect,
        classify_all(state, registry, events).0.core.counter == state.core.counter + events.len(),
        classify_all(state, registry, events).1.len() == events.len(),
    decreases events.len(),
{
    if events.len() > 0 {
        lemma_classify_all_keeps_send_blocked(state, registry, events.drop_last(), peer);
        lemma_classify_keeps_send_blocked(
            classify_all(state, registry, events.drop_last()).0,
            registry,
            events.last().0,
            events.last().1,
            peer,
        );
    }
}

/// A whole pass leaves a connect report of any client that waits to be read
/// waiting, leaves the marker of the last disconnect that was read as it is,
/// counts every event once, and tells of each held item and each event what
/// became of it.
pub proof fn lemma_pass_keeps_send_blocked<C, K>(
    state: ServerState<C, K>,
    registry: Registry,
    events: Seq<(u128, ServerEvent<C, K>)>,
    peer: u128,
)
    requires
        state.core.counter + events.len() <= u64::MAX,
    ensures
        gate_of(state.core.gates, peer).pending_connect is Some ==> gate_of(
            refreshed(state, registry, events).0.core.gates,
            peer,
        ).pending_connect is Some,
        gate_of(
            refreshed(state, registry, events).0.core.gates,
            peer,
        ).recent_consumed_disconnect == gate_of(state.core.gates, peer).recent_consumed_disconnect,
        refreshed(state, registry, events).0.core.counter == state.core.counter + events.len(),
        refreshed(state, registry, events).1.len() == state.core.withheld.len() + events.len(),
{
    lemma_retry_all_keeps_markers(pass_begun(state), state.core.withheld);
    lemma_classify_all_keeps_send_blocked(
        retry_all(pass_begun(state), state.core.withheld).0,
        registry,
        events,
        peer,
    );
}

/// Reading connection reports clears the pending-connect marker of a client
/// exactly if the very report that it names is among them; nothing else that
/// is read clears it, and nothing that is read sets it.
pub proof fn lemma_reading_clears_pending_connect<C, K>(
    state: ServerState<C, K>,
    reports: Seq<(u64, u128, ServerReport<C>)>,
    peer: u128,
)
    ensures
        gate_of(state.core.gates, peer).pending_connect is None ==> gate_of(
            consumed_all(state, reports).core.gates,
            peer,
        ).pending_connect is None,
        gate_of(state.core.gates, peer).pending_connect matches Some(pending) ==> gate_of(
            consumed_all(state, reports).core.gates,
            peer,
        ).pending_connect == (if exists|i: int|
            0 <= i < reports.len() && (#[trigger] reports[i]).0 == pending && reports[i].1 == peer {
            None::<u64>
        } else {
            Some(pending)
        }),
        consumed_all(state, reports).core.counter == state.core.counter,
        consumed_all(state, reports).core.withheld == state.core.withheld,
        consumed_all(state, reports).queues.connections == state.queues.connections,
    decreases reports.len(),
{
    if reports.len() > 0 {
        let shorter = reports.drop_last();
        lemma_reading_clears_pending_connect(state, shorter, peer);
        if let Some(pending) = gate_of(state.core.gates, peer).pending_connect {
            if exists|i: int|
                0 <= i < shorter.len() && (#[trigger] shorter[i]).0 == pending && shorter[i].1
                    == peer {
                let i = choose|i: int|
                    0 <= i < shorter.len() && (#[trigger] shorter[i]).0 == pending && shorter[i].1
                        == peer;
                assert(reports[i].0 == pending && reports[i].1 == peer);
            } else if reports.last().0 == pending && reports.last().1 == peer {
                assert(reports[reports.len() - 1].0 == pending);
            } else {
                assert forall|i: int| 0 <= i < reports.len() implies !((#[trigger] reports[i]).0
                    == pending && reports[i].1 == peer) by {
                    if i < shorter.len() {
                        assert(shorter[i] == reports[i]);
                    }
                }
            }
        }
    }
}

/// A client's message that is no newer than the last disconnect of the
/// client that was read is never queued: it is dropped, or held back while a
/// connect report of the client waits.
pub proof fn lemma_stale_message_is_not_queued<C, K>(
    state: ServerState<C, K>,
    client_id: u128,
    marker: u64,
    counter: u64,
    message: InternalEvent,
)
    requires
        gate_of(state.core.gates, client_id).recent_consumed_disconnect == Some(marker),
        counter <= marker,
    ensures
        state.route_message(client_id, counter, message).0.queues == state.queues,
        state.route_message(client_id, counter, message).1 != ServerOutcome::Delivered,
        gate_of(state.core.gates, client_id).pending_connect is None ==> state.route_message(
            client_id,
            counter,
            message,
        ).0 == state,
{
}

/// A client's request that is no newer than the last disconnect of the
/// client that was read is never queued.
pub proof fn lemma_stale_request_is_not_queued<C, K>(
    state: ServerState<C, K>,
    client_id: u128,
    marker: u64,
    counter: u64,
    request_event_id: u16,
    response_event_id: u16,
    request_token: K,
    data: Vec<u8>,
)
    requires
        gate_of(state.core.gates, client_id).recent_consumed_disconnect == Some(marker),
        counter <= marker,
    ensures
        state.route_request(
            client_id,
            counter,
            request_event_id,
            response_event_id,
            request_token,
            data,
        ).0.queues == state.queues,
        state.route_request(
            client_id,
            counter,
            request_event_id,
            response_event_id,
            request_token,
            data,
        ).1 != ServerOutcome::Delivered,
{
}

/// Once a disconnect report of a client is classified, nothing of that
/// client is held back any more, and no queue of messages holds anything of
/// it.
pub proof fn lemma_disconnect_purges_client<C, K>(
    state: ServerState<C, K>,
    registry: Registry,
    client_id: u128,
    kind: u16,
)
    ensures
        ({
            let after = state.classify(
                registry,
                client_id,
                ServerEvent::Report(ServerReport::Disconnected),
            ).0;
            &&& forall|i: int|
                0 <= i < after.core.withheld.len() ==> (#[trigger] after.core.withheld[i]).0
                    != client_id
            &&& after.queues.has_message_kind(kind) == state.queues.has_message_kind(kind)
            &&& after.queues.has_message_kind(kind) ==> forall|i: int|
                0 <= i < after.queues.messages[kind].len() ==> (
                #[trigger] after.queues.messages[kind][i]).0 != client_id
        }),
{
    lemma_of_other_clients(state.core.withheld, client_id);
    if state.queues.has_message_kind(kind) {
        lemma_of_other_clients(state.queues.messages[kind], client_id);
    }
}

} // verus!
