//! One pass of the client: what was queued goes, what was held back is looked
//! at again, and the new events of the session are classified.

use crate::client::event_client_core::state_of;
use crate::client::event_client_core::ClientCore;
use crate::client::event_client_core::ClientOutcome;
use crate::client::event_client_core::ClientState;
use crate::client::event_client_core::EventClientCore;
use crate::client::event_client_core::Held;
use crate::client::event_queue_connector::EventQueueConnectorClient;
use crate::client::report::ClientEvent;
use crate::client::report::ClientReport;
use crate::client::server_response::PendingResponseData;
use crate::client::server_response::ServerResponse;
use crate::client::event_client_core::replied_request;
use crate::epoch_gate::Visibility;
use crate::event::InternalEvent;
use crate::request_table::entry_of;
use vstd::prelude::*;

verus! {

/// The state after these events were classified one after the other, and
/// what became of each.
pub open spec fn classify_all(state: ClientState, events: Seq<ClientEvent>) -> (
    ClientState,
    Seq<ClientOutcome>,
)
    decreases events.len(),
{
    if events.len() == 0 {
        (state, Seq::empty())
    } else {
        let (before, outcomes) = classify_all(state, events.drop_last());
        let (after, outcome) = before.classify(events.last());
        (after, outcomes.push(outcome))
    }
}

/// The state after these items, which were held back, were looked at again
/// one after the other, and what became of each.
pub open spec fn retry_all(state: ClientState, items: Seq<Held>) -> (
    ClientState,
    Seq<ClientOutcome>,
)
    decreases items.len(),
{
    if items.len() == 0 {
        (state, Seq::empty())
    } else {
        let (before, outcomes) = retry_all(state, items.drop_last());
        let (after, outcome) = before.retry(items.last());
        (after, outcomes.push(outcome))
    }
}

/// The state at the start of a pass: every queue is empty, and nothing is
/// held back yet.
pub open spec fn pass_begun(state: ClientState) -> ClientState {
    ClientState {
        core: ClientCore { withheld: Seq::empty(), ..state.core },
        queues: state.queues.cleared(),
    }
}

/// One pass: the queues are emptied, the items that were held back are
/// looked at again, oldest first, and then the new events are classified in
/// the order of their arrival. The outcomes tell what became of each held
/// item and then of each event.
pub open spec fn refreshed(state: ClientState, events: Seq<ClientEvent>) -> (
    ClientState,
    Seq<ClientOutcome>,
) {
    let (retried, first) = retry_all(pass_begun(state), state.core.withheld);
    let (classified, second) = classify_all(retried, events);
    (classified, first + second)
}

/// The state after the application read these connection reports one after
/// the other.
pub open spec fn consumed_all(state: ClientState, reports: Seq<(u64, ClientReport)>) -> ClientState
    decreases reports.len(),
{
    if reports.len() == 0 {
        state
    } else {
        consumed_all(state, reports.drop_last()).consumed(reports.last().0, reports.last().1)
    }
}

/// Runs one pass of the client over the events that its session has ready.
pub fn drain_client(
    client: &mut EventClientCore,
    queues: &mut EventQueueConnectorClient,
    events: Vec<ClientEvent>,
) -> (outcomes: Vec<ClientOutcome>)
    requires
        old(queues).wf(),
        old(client)@.counter + events.len() <= u64::MAX,
    ensures
        final(queues).wf(),
        (state_of(final(client), final(queues)), outcomes@) == refreshed(
            state_of(old(client), old(queues)),
            events@,
        ),
{
    let ghost begun = pass_begun(state_of(client, queues));
    let ghost counter = client@.counter;
    queues.clear_all();
    let held = client.take_withheld();
    assert(state_of(client, queues) == begun);
    let mut outcomes: Vec<ClientOutcome> = Vec::new();
    for item in it: held
        invariant
            queues.wf(),
            it.seq() == held@,
            client@.counter == counter,
            (state_of(client, queues), outcomes@) == retry_all(
                begun,
                held@.take(it.index() as int),
            ),
    {
        proof {
            let upto = held@.take(it.index() + 1);
            assert(upto.drop_last() == held@.take(it.index() as int));
            assert(upto.last() == item);
        }
        let outcome = client.retry(queues, item);
        outcomes.push(outcome);
        proof {
            lemma_retry_keeps_counter(
                retry_all(begun, held@.take(it.index() as int)).0,
                item,
            );
        }
    }
    proof {
        assert(held@.take(held@.len() as int) == held@);
    }
    let ghost retried = state_of(client, queues);
    let ghost first = outcomes@;
    for event in it: events
        invariant
            queues.wf(),
            it.seq() == events@,
            client@.counter == counter + it.index(),
            counter + events@.len() <= u64::MAX,
            retry_all(begun, held@) == (retried, first),
            outcomes@.len() == first.len() + it.index(),
            outcomes@.take(first.len() as int) == first,
            (state_of(client, queues), outcomes@.skip(first.len() as int)) == classify_all(
                retried,
                events@.take(it.index() as int),
            ),
    {
        proof {
            let upto = events@.take(it.index() + 1);
            assert(upto.drop_last() == events@.take(it.index() as int));
            assert(upto.last() == event);
        }
        let ghost before = outcomes@;
        let outcome = client.classify(queues, event);
        outcomes.push(outcome);
        proof {
            assert(outcomes@.skip(first.len() as int) == before.skip(first.len() as int).push(
                outcome,
            ));
            assert(outcomes@.take(first.len() as int) == before.take(first.len() as int));
        }
    }
    proof {
        assert(events@.take(events@.len() as int) == events@);
        assert(outcomes@ == outcomes@.take(first.len() as int) + outcomes@.skip(
            first.len() as int,
        ));
    }
    outcomes
}

/// Records that the application read the connection reports that are
/// queued, oldest first. The reports stay queued for other readers.
pub fn read_connections(client: &mut EventClientCore, queues: &mut EventQueueConnectorClient)
    requires
        old(queues).wf(),
    ensures
        final(queues).wf(),
        state_of(final(client), final(queues)) == consumed_all(
            state_of(old(client), old(queues)),
            old(queues)@.connections,
        ),
{
    let ghost start = state_of(client, queues);
    let ghost reports = queues@.connections;
    let n: usize = queues.connections().len();
    let mut i: usize = 0;
    while i < n
        invariant
            i <= n,
            n == reports.len(),
            queues.wf(),
            queues@.connections == reports,
            state_of(client, queues) == consumed_all(start, reports.take(i as int)),
        decreases n - i,
    {
        let counter: u64 = queues.connections()[i].0;
        let disconnected: bool = queues.connections()[i].1.is_disconnected();
        proof {
            let upto = reports.take(i + 1);
            assert(upto.drop_last() == reports.take(i as int));
            assert(upto.last() == reports[i as int]);
        }
        if disconnected {
            client.consume_connection(queues, counter, &ClientReport::Disconnected);
        } else {
            client.try_clear_pending_connect(counter);
        }
        i += 1;
    }
    proof {
        assert(reports.take(n as int) == reports);
    }
}

/// Looking again at an item that was held back gives out no counter.
pub proof fn lemma_retry_keeps_counter(state: ClientState, held: Held)
    ensures
        state.retry(held).0.core.counter == state.core.counter,
        state.retry(held).0.core.gate == state.core.gate,
        state.retry(held).0.core.requests == state.core.requests,
{
}

/// Classifying an event gives it the next counter, and leaves a connect
/// report that waits to be read waiting: only reading unblocks sending.
pub proof fn lemma_classify_keeps_send_blocked(state: ClientState, event: ClientEvent)
    ensures
        state.classify(event).0.core.counter == (state.core.counter + 1) as u64,
        state.core.gate.pending_connect is Some ==> state.classify(
            event,
        ).0.core.gate.pending_connect is Some,
        event == ClientEvent::Report(ClientReport::Connected) ==> state.classify(
            event,
        ).0.core.gate.pending_connect == Some((state.core.counter + 1) as u64),
        state.classify(event).0.core.gate.recent_consumed_disconnect
            == state.core.gate.recent_consumed_disconnect,
{
}

/// A whole pass leaves a connect report that waits to be read waiting, leaves
/// the marker of the last disconnect that was read as it is, counts every
/// event once, and tells of each held item and each event what became of it.
pub proof fn lemma_pass_keeps_send_blocked(state: ClientState, events: Seq<ClientEvent>)
    requires
        state.core.counter + events.len() <= u64::MAX,
    ensures
        state.core.gate.pending_connect is Some ==> refreshed(
            state,
            events,
        ).0.core.gate.pending_connect is Some,
        refreshed(state, events).0.core.gate.recent_consumed_disconnect
            == state.core.gate.recent_consumed_disconnect,
        refreshed(state, events).0.core.counter == state.core.counter + events.len(),
        refreshed(state, events).1.len() == state.core.withheld.len() + events.len(),
{
    lemma_retry_all_keeps_markers(pass_begun(state), state.core.withheld);
    lemma_classify_all_keeps_send_blocked(
        retry_all(pass_begun(state), state.core.withheld).0,
        events,
    );
}

/// Looking again at what was held back changes no marker and gives out no
/// counter, and tells of each item what became of it.
pub proof fn lemma_retry_all_keeps_markers(state: ClientState, items: Seq<Held>)
    ensures
        retry_all(state, items).0.core.gate == state.core.gate,
        retry_all(state, items).0.core.counter == state.core.counter,
        retry_all(state, items).0.core.requests == state.core.requests,
        retry_all(state, items).1.len() == items.len(),
    decreases items.len(),
{
    if items.len() > 0 {
        lemma_retry_all_keeps_markers(state, items.drop_last());
        lemma_retry_keeps_counter(retry_all(state, items.drop_last()).0, items.last());
    }
}

/// Classifying events one after the other leaves a connect report that waits
/// to be read waiting, counts every event once, and tells of each event what
/// became of it.
pub proof fn lemma_classify_all_keeps_send_blocked(state: ClientState, events: Seq<ClientEvent>)
    requires
        state.core.counter + events.len() <= u64::MAX,
    ensures
        state.core.gate.pending_connect is Some ==> classify_all(
            state,
            events,
        ).0.core.gate.pending_connect is Some,
        classify_all(state, events).0.core.gate.recent_consumed_disconnect
            == state.core.gate.recent_consumed_disconnect,
        classify_all(state, events).0.core.counter == state.core.counter + events.len(),
        classify_all(state, events).1.len() == events.len(),
    decreases events.len(),
{
    if events.len() > 0 {
        lemma_classify_all_keeps_send_blocked(state, events.drop_last());
        lemma_classify_keeps_send_blocked(classify_all(state, events.drop_last()).0, events.last());
    }
}

/// Reading connection reports clears the pending-connect marker exactly if
/// the very report that it names is among them; nothing else that is read
/// clears it, and nothing that is read sets it.
pub proof fn lemma_reading_clears_pending_connect(
    state: ClientState,
    reports: Seq<(u64, ClientReport)>,
)
    ensures
        state.core.gate.pending_connect is None ==> consumed_all(
            state,
            reports,
        ).core.gate.pending_connect is None,
        state.core.gate.pending_connect matches Some(pending) ==> consumed_all(
            state,
            reports,
        ).core.gate.pending_connect == (if exists|i: int|
            0 <= i < reports.len() && (#[trigger] reports[i]).0 == pending {
            None::<u64>
        } else {
            Some(pending)
        }),
        consumed_all(state, reports).core.counter == state.core.counter,
        consumed_all(state, reports).core.requests == state.core.requests,
        consumed_all(state, reports).core.withheld == state.core.withheld,
        consumed_all(state, reports).queues.connections == state.queues.connections,
    decreases reports.len(),
{
    if reports.len() > 0 {
        let shorter = reports.drop_last();
        lemma_reading_clears_pending_connect(state, shorter);
        if let Some(pending) = state.core.gate.pending_connect {
            if exists|i: int| 0 <= i < shorter.len() && (#[trigger] shorter[i]).0 == pending {
                let i = choose|i: int| 0 <= i < shorter.len() && (#[trigger] shorter[i]).0 == pending;
                assert(reports[i].0 == pending);
            } else if reports.last().0 == pending {
                assert(reports[reports.len() - 1].0 == pending);
            } else {
                assert forall|i: int| 0 <= i < reports.len() implies (#[trigger] reports[i]).0
                    != pending by {
                    if i < shorter.len() {
                        assert(shorter[i].0 == reports[i].0);
                    }
                }
            }
        }
    }
}

/// Reading connection reports sets the marker of the last disconnect that
/// was read to the counter of the last disconnect report among them, and
/// leaves it as it is if there is none.
pub proof fn lemma_reading_marks_last_disconnect(
    state: ClientState,
    reports: Seq<(u64, ClientReport)>,
    last: int,
)
    requires
        0 <= last < reports.len(),
        reports[last].1 is Disconnected,
        forall|i: int| last < i < reports.len() ==> !((#[trigger] reports[i]).1 is Disconnected),
    ensures
        consumed_all(state, reports).core.gate.recent_consumed_disconnect == Some(reports[last].0),
    decreases reports.len(),
{
    if last < reports.len() - 1 {
        let shorter = reports.drop_last();
        assert(shorter[last] == reports[last]);
        assert forall|i: int| last < i < shorter.len() implies !((#[trigger] shorter[i]).1
            is Disconnected) by {
            assert(shorter[i] == reports[i]);
        }
        lemma_reading_marks_last_disconnect(state, shorter, last);
        assert(!(reports[reports.len() - 1].1 is Disconnected));
    }
}

/// A message that is no newer than the last disconnect that was read is
/// never queued: it is dropped, or held back while a connect report waits.
pub proof fn lemma_stale_message_is_not_queued(
    state: ClientState,
    marker: u64,
    counter: u64,
    message: InternalEvent,
)
    requires
        state.core.gate.recent_consumed_disconnect == Some(marker),
        counter <= marker,
    ensures
        state.route_message(counter, message).0.queues == state.queues,
        state.route_message(counter, message).1 != ClientOutcome::Delivered,
        state.core.gate.pending_connect is None ==> state.route_message(counter, message).0
            == state,
{
}

/// A response or acknowledgement that is no newer than the last disconnect
/// that was read is never queued as it came: unless it is held back while a
/// connect report waits, what is queued is a lost response that carries the
/// id of its request.
pub proof fn lemma_stale_success_is_queued_as_lost(
    state: ClientState,
    marker: u64,
    counter: u64,
    request_event_id: u16,
    response_event_id: u16,
    request_id: u64,
    data: PendingResponseData,
)
    requires
        state.core.gate.recent_consumed_disconnect == Some(marker),
        counter <= marker,
        data.spec_is_success(),
        state.queues.has_response_kind(request_event_id, response_event_id),
    ensures
        ({
            let (after, outcome) = state.route_reply(
                counter,
                request_event_id,
                response_event_id,
                request_id,
                data,
            );
            if state.core.gate.spec_visibility(counter) == Visibility::Withhold {
                outcome == ClientOutcome::Withheld && after.queues == state.queues
            } else {
                outcome == ClientOutcome::Lost && after.core == state.core && after.queues
                    == state.queues.with_response(
                    request_event_id,
                    response_event_id,
                    ServerResponse::ResponseLost(request_id),
                )
            }
        }),
{
}

/// A terminal reply ends its request: afterwards the request has no entry.
/// A reply whose request has no entry is reported as such, once, and changes
/// nothing but the counter.
pub proof fn lemma_reply_ends_its_request(state: ClientState, event: ClientEvent)
    requires
        replied_request(event) is Some,
    ensures
        ({
            let request_id = replied_request(event)->0;
            let (after, outcome) = state.classify(event);
            &&& entry_of(after.core.requests, request_id) is None
            &&& after.core.requests == state.core.requests.remove(request_id)
            &&& outcome == ClientOutcome::UnknownRequest <==> !state.core.requests.contains_key(
                request_id,
            )
            &&& outcome == ClientOutcome::UnknownRequest ==> after == (ClientState {
                core: state.core.stamped(event),
                ..state
            })
        }),
{
    let request_id = replied_request(event)->0;
    if !state.core.requests.contains_key(request_id) {
        assert(state.core.requests.remove(request_id) =~= state.core.requests);
    }
}

/// Of two terminal replies for the same request that arrive one after the
/// other, the second finds no entry.
pub proof fn lemma_second_reply_finds_no_request(
    state: ClientState,
    first: ClientEvent,
    second: ClientEvent,
)
    requires
        replied_request(first) is Some,
        replied_request(second) is Some,
        replied_request(first) == replied_request(second),
    ensures
        state.classify(first).0.classify(second).1 == ClientOutcome::UnknownRequest,
{
    lemma_reply_ends_its_request(state, first);
}

/// Once a disconnect report is read, no message is queued any more, and no
/// queued reply reports a success: each that did has become a lost response
/// for the same request.
pub proof fn lemma_reading_disconnect_empties_queues(
    state: ClientState,
    counter: u64,
    kind: u16,
    request_event_id: u16,
    response_event_id: u16,
    i: int,
)
    ensures
        ({
            let after = state.consumed(counter, ClientReport::Disconnected);
            let key = (response_event_id, request_event_id);
            &&& after.core.gate.recent_consumed_disconnect == Some(counter)
            &&& after.queues.has_message_kind(kind) == state.queues.has_message_kind(kind)
            &&& after.queues.has_message_kind(kind) ==> after.queues.messages[kind].len() == 0
            &&& after.queues.has_response_kind(request_event_id, response_event_id)
                == state.queues.has_response_kind(request_event_id, response_event_id)
            &&& state.queues.has_response_kind(request_event_id, response_event_id) && 0 <= i
                < state.queues.responses[key].len() ==> {
                &&& after.queues.responses[key].len() == state.queues.responses[key].len()
                &&& after.queues.responses[key][i] == state.queues.responses[key][i].lost()
                &&& !after.queues.responses[key][i].spec_is_success()
            }
        }),
{
}

} // verus!
