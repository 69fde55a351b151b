//! What every user of the event router can rely on.
use crate::event::{
    ends_stream, is_archive, is_unarchive, requires_delivery, AppServerEvent, ServerNotification, ServerRequest,
    TargetModel, TurnCompletedParams,
};
use crate::runtime::mailbox::{lag_marker, PendingModel, TryRecvError};
use crate::runtime::mailbox_laws::{law_receives_in_order, law_required_events_are_kept, law_terminal_event_is_last};
use crate::runtime::route_lemmas::{
    lemma_deliver, lemma_deliver_ignores_in_flight, lemma_detach, lemma_dismantle, lemma_drop_first,
    lemma_filter_deliveries, lemma_owned_route_is_open, lemma_place_frame, lemma_pump, lemma_pump_changes_no_taking,
    lemma_pump_keeps_routes, lemma_recv, lemma_recv_changes_no_taking, lemma_release, lemma_start_lag,
    lemma_with_mailbox, lemma_without,
};
use crate::runtime::route_model::{
    not_to, phase_after, starting_phase, AttachRefusal, AttachmentPhase, Delivery, OwnerModel, RouterModel, TerminalSource,
    ThreadAttachmentKind, ThreadRouteModel, INACTIVE_ROUTE_CAPACITY,
};
use vstd::prelude::*;

verus! {

/// A thread's events change no other stream, nor the runtime's route.
pub proof fn law_thread_events_stay_with_their_thread(m: RouterModel, id: Seq<char>, event: AppServerEvent, slot: usize)
    requires
        m.wf(),
        m.blocked is None,
        m.attachments.contains_key(slot),
        m.attachments[slot].owner != OwnerModel::Thread(id),
    ensures
        m.route_to(TargetModel::Thread(id), event).attachments.contains_key(slot),
        m.route_to(TargetModel::Thread(id), event).attachments[slot] == m.attachments[slot],
        m.route_to(TargetModel::Thread(id), event).runtime == m.runtime,
{
    if !m.closed {
        if m.threads.contains_key(id) {
            assert(m.thread_wf(id));
        }
        if ends_stream(event) {
            if m.threads.contains_key(id) {
                lemma_place_frame(m, id, m.threads[id].close_thread(event, TerminalSource::Notification));
            }
        } else if !m.threads.contains_key(id) {
            lemma_place_frame(m, id, ThreadRouteModel::Pending(PendingModel::empty()));
        }
    }
}

/// An event that belongs to no thread changes no thread's route or stream.
pub proof fn law_runtime_events_stay_with_the_runtime(m: RouterModel, event: AppServerEvent, slot: usize)
    requires
        m.wf(),
        m.blocked is None,
        m.attachments.contains_key(slot),
        m.attachments[slot].owner != OwnerModel::Runtime,
    ensures
        m.route_to(TargetModel::Runtime, event).threads == m.threads,
        m.route_to(TargetModel::Runtime, event).attachments.contains_key(slot),
        m.route_to(TargetModel::Runtime, event).attachments[slot] == m.attachments[slot],
{
}

/// An event that does not end the thread reaches the stream that owns it: a
/// required one always, after a marker for what was lost before it. The
/// stream stays open.
pub proof fn law_owned_threads_receive_their_events(m: RouterModel, id: Seq<char>, event: AppServerEvent)
    requires
        m.wf(),
        m.blocked is None,
        !m.closed,
        m.threads.contains_key(id),
        m.threads[id] is Active,
        !ends_stream(event),
    ensures
        ({
            let slot = m.threads[id]->Active_slot;
            let after = m.route_to(TargetModel::Thread(id), event);
            &&& after.threads.contains_key(id)
            &&& after.threads[id] is Active
            &&& after.threads[id]->Active_slot == slot
            &&& after.threads[id]->Active_generation == m.threads[id]->Active_generation
            &&& after.attachments.contains_key(slot)
            &&& !after.attachments[slot].mailbox.closed
            &&& after.attachments[slot].mailbox == m.attachments[slot].mailbox.forward(event, requires_delivery(event))
            &&& requires_delivery(event) ==> after.attachments[slot].mailbox.backlog()
                == m.attachments[slot].mailbox.backlog() + lag_marker(m.attachments[slot].mailbox.skipped) + seq![event]
        }),
{
    assert(m.thread_wf(id));
    let slot = m.threads[id]->Active_slot;
    assert(m.attachment_wf(slot));
    law_required_events_are_kept(m.attachments[slot].mailbox, event);
}

/// An event that belongs to no thread reaches the owner of the runtime stream:
/// a required one always, after a marker for what was lost before it. The
/// stream stays open.
pub proof fn law_runtime_owner_receives_its_events(m: RouterModel, event: AppServerEvent)
    requires
        m.wf(),
        m.blocked is None,
        m.runtime is Active,
    ensures
        ({
            let slot = m.runtime->Active_slot;
            let after = m.route_to(TargetModel::Runtime, event);
            &&& after.runtime == m.runtime
            &&& after.attachments.contains_key(slot)
            &&& !after.attachments[slot].mailbox.closed
            &&& after.attachments[slot].mailbox == m.attachments[slot].mailbox.forward(event, requires_delivery(event))
            &&& requires_delivery(event) ==> after.attachments[slot].mailbox.backlog()
                == m.attachments[slot].mailbox.backlog() + lag_marker(m.attachments[slot].mailbox.skipped) + seq![event]
        }),
{
    let slot = m.runtime->Active_slot;
    assert(m.attachment_wf(slot));
    law_required_events_are_kept(m.attachments[slot].mailbox, event);
}

/// A stream gives out its oldest event, and no other stream changes by that.
pub proof fn law_receiving_takes_the_oldest_event(m: RouterModel, slot: usize, other: usize)
    requires
        m.wf(),
        m.in_flight.len() == 0,
        m.attachments.contains_key(slot),
        m.attachments[slot].mailbox.backlog().len() > 0,
    ensures
        ({
            let before = m.attachments[slot].mailbox;
            let after = m.recv(slot);
            &&& before.received() == Ok::<AppServerEvent, TryRecvError>(before.backlog()[0])
            &&& after.attachments.contains_key(slot)
            &&& after.attachments[slot].mailbox.backlog() == before.backlog().drop_first()
            &&& after.threads == m.threads
            &&& after.runtime == m.runtime
            &&& other != slot ==> after.attachments.contains_key(other) == m.attachments.contains_key(other)
            &&& other != slot && m.attachments.contains_key(other) ==> after.attachments[other]
                == m.attachments[other]
        }),
{
    assert(m.attachment_wf(slot));
    law_receives_in_order(m.attachments[slot].mailbox);
}

/// The end of a turn is an ordinary event of its thread: it must be delivered,
/// and it does not end the stream. Server requests must be delivered too.
pub proof fn law_turns_end_without_ending_their_stream(params: TurnCompletedParams, request: ServerRequest)
    ensures
        ({
            let completed = AppServerEvent::ServerNotification(ServerNotification::TurnCompleted(params));
            requires_delivery(completed) && !ends_stream(completed)
        }),
        requires_delivery(AppServerEvent::ServerRequest(request)),
        !ends_stream(AppServerEvent::ServerRequest(request)),
{
}

/// An event that ends a thread is the last one of the stream that owns it, and
/// everything before it is given out first.
pub proof fn law_terminal_events_end_their_stream(
    m: RouterModel,
    id: Seq<char>,
    event: AppServerEvent,
    source: TerminalSource,
)
    requires
        m.wf(),
        !m.closed,
        m.threads.contains_key(id),
        m.threads[id] is Active,
        source == TerminalSource::Authoritative || !is_archive(event) || m.threads[id]->Active_phase
            == AttachmentPhase::Ready,
    ensures
        ({
            let slot = m.threads[id]->Active_slot;
            let after = m.close_thread(id, event, source);
            &&& after.threads.contains_key(id)
            &&& after.threads[id] is Terminated
            &&& after.attachments.contains_key(slot)
            &&& after.attachments[slot].mailbox.closed
            &&& after.attachments[slot].mailbox.backlog() == m.attachments[slot].mailbox.backlog() + lag_marker(
                m.attachments[slot].mailbox.skipped,
            ) + seq![event]
        }),
{
    assert(m.thread_wf(id));
    let slot = m.threads[id]->Active_slot;
    assert(m.attachment_wf(slot));
    lemma_place_frame(m, id, ThreadRouteModel::Terminated);
    law_terminal_event_is_last(m.attachments[slot].mailbox, event);
}

/// Once a thread has ended, another event that would end it reaches no stream.
pub proof fn law_late_terminal_events_are_dropped(
    m: RouterModel,
    id: Seq<char>,
    event: AppServerEvent,
    source: TerminalSource,
)
    requires
        m.wf(),
        !m.closed,
        m.threads.contains_key(id),
        m.threads[id] is Terminated,
    ensures
        m.close_thread(id, event, source).attachments == m.attachments,
        m.close_thread(id, event, source).threads.contains_key(id),
        m.close_thread(id, event, source).threads[id] is Terminated,
{
    lemma_place_frame(m, id, ThreadRouteModel::Terminated);
}

/// A thread that waits for its unarchive ignores an archive notification from
/// before it. Only the successful response to a new archive request ends it.
pub proof fn law_stale_archives_are_ignored(m: RouterModel, id: Seq<char>, event: AppServerEvent)
    requires
        m.wf(),
        !m.closed,
        is_archive(event),
        m.threads.contains_key(id),
        m.threads[id] is Active && m.threads[id]->Active_phase == AttachmentPhase::AwaitingUnarchive
            || m.threads[id] is Reserved && m.threads[id]->Reserved_phase == AttachmentPhase::AwaitingUnarchive,
    ensures
        m.route_to(TargetModel::Thread(id), event) == m,
        m.threads[id] is Active ==> m.close_thread(id, event, TerminalSource::Authoritative).threads[id] is Terminated,
{
    assert(!m.inactive.contains(id));
    lemma_without(m.inactive, id);
    assert(m.threads.insert(id, m.threads[id]) =~= m.threads);
    assert(m.route_to(TargetModel::Thread(id), event) =~= m);
    lemma_place_frame(m, id, ThreadRouteModel::Terminated);
}

/// The unarchive notification is the boundary: from there on archive
/// notifications count again.
pub proof fn law_unarchive_is_the_boundary(route: ThreadRouteModel, event: AppServerEvent)
    requires
        is_unarchive(event),
    ensures
        route is Active ==> route.enqueue(event)->Active_phase == AttachmentPhase::Ready,
        route is Reserved ==> route.enqueue(event)->Reserved_phase == AttachmentPhase::Ready,
{
}

/// A thread's stream has one owner: while it is taken, or a lifecycle request
/// has reserved it, nobody else gets it.
pub proof fn law_each_thread_has_one_owner(m: RouterModel, id: Seq<char>, slot: usize, kind: ThreadAttachmentKind)
    requires
        m.wf(),
        m.attach_refusal(id) is None,
    ensures
        !(m.threads.contains_key(id) && m.threads[id] is Closed) ==> m.take_thread(id, slot).attach_refusal(id) == Some(
            AttachRefusal::StreamTaken,
        ),
        m.reserve(id, kind).attach_refusal(id) == Some(AttachRefusal::LifecycleInProgress),
        m.reserve(id, kind).claim(id, m.next_generation, slot).attach_refusal(id) == Some(AttachRefusal::StreamTaken),
{
    let generation = m.next_generation;
    lemma_place_frame(m, id, ThreadRouteModel::Active { generation, slot, phase: AttachmentPhase::Ready });
    let reserved = m.reserve(id, kind);
    lemma_place_frame(
        m,
        id,
        ThreadRouteModel::Reserved {
            generation,
            pending: m.reservable(id),
            phase: starting_phase(kind),
        },
    );
    lemma_place_frame(
        reserved,
        id,
        ThreadRouteModel::Active { generation, slot, phase: reserved.threads[id]->Reserved_phase },
    );
}

/// A thread that has ended, or whose owner is gone, can be attached again.
pub proof fn law_ended_threads_can_be_attached_again(m: RouterModel, id: Seq<char>)
    requires
        !m.closed,
        m.threads.contains_key(id) ==> m.threads[id].is_inactive(),
    ensures
        m.attach_refusal(id) is None,
{
}

/// The runtime stream is taken once: whatever happens afterwards, it cannot be
/// taken again.
pub proof fn law_runtime_stream_is_taken_once(
    m: RouterModel,
    target: TargetModel,
    event: AppServerEvent,
    id: Seq<char>,
    slot: usize,
    generation: u64,
    kind: ThreadAttachmentKind,
    source: TerminalSource,
    order: Seq<Seq<char>>,
    skipped: usize,
)
    requires
        m.wf(),
        !(m.runtime is Pending),
    ensures
        !m.runtime_is_free(),
        !m.route_to(target, event).runtime_is_free(),
        !m.broadcast_lag(order, skipped).runtime_is_free(),
        !m.take_runtime(slot).runtime_is_free(),
        !m.close(event).runtime_is_free(),
        !m.close_thread(id, event, source).runtime_is_free(),
        !m.take_thread(id, slot).runtime_is_free(),
        !m.reserve(id, kind).runtime_is_free(),
        !m.claim(id, generation, slot).runtime_is_free(),
        !m.cancel(id, generation).runtime_is_free(),
        !m.touch(id).runtime_is_free(),
        !m.recv(slot).runtime_is_free(),
        !m.release(slot).runtime_is_free(),
        !m.abandon().runtime_is_free(),
{
    lemma_pump_changes_no_taking(m.start_lag(order, skipped));
    lemma_recv_changes_no_taking(m, slot);
    lemma_pump_changes_no_taking(m.dismantle(slot));
}

/// While nobody takes the runtime stream and the router stays open, the stream
/// can be taken, whatever else happens.
pub proof fn law_untaken_runtime_stream_stays_free(
    m: RouterModel,
    target: TargetModel,
    event: AppServerEvent,
    id: Seq<char>,
    slot: usize,
    generation: u64,
    kind: ThreadAttachmentKind,
    source: TerminalSource,
    order: Seq<Seq<char>>,
    skipped: usize,
)
    requires
        m.runtime_is_free(),
    ensures
        m.route_to(target, event).runtime_is_free(),
        m.broadcast_lag(order, skipped).runtime_is_free(),
        m.close_thread(id, event, source).runtime_is_free(),
        m.take_thread(id, slot).runtime_is_free(),
        m.reserve(id, kind).runtime_is_free(),
        m.claim(id, generation, slot).runtime_is_free(),
        m.cancel(id, generation).runtime_is_free(),
        m.touch(id).runtime_is_free(),
        m.recv(slot).runtime_is_free(),
        m.release(slot).runtime_is_free(),
        m.abandon().runtime_is_free(),
{
    lemma_pump_changes_no_taking(m.start_lag(order, skipped));
    lemma_recv_changes_no_taking(m, slot);
    lemma_pump_changes_no_taking(m.dismantle(slot));
}

/// An open router keeps no more than a fixed number of routes that nobody
/// owns.
pub proof fn law_unowned_routes_are_bounded(m: RouterModel)
    requires
        m.wf(),
        !m.closed,
    ensures
        ({
            let unowned = m.threads.dom().filter(|id: Seq<char>| m.threads[id].is_inactive());
            unowned.finite() && unowned.len() <= INACTIVE_ROUTE_CAPACITY
        }),
{
    let unowned = m.threads.dom().filter(|id: Seq<char>| m.threads[id].is_inactive());
    m.inactive.unique_seq_to_set();
    assert(unowned =~= m.inactive.to_set()) by {
        assert forall|id: Seq<char>| unowned.contains(id) <==> m.inactive.to_set().contains(id) by {
            if unowned.contains(id) {
                assert(m.threads.contains_key(id));
            }
            if m.inactive.to_set().contains(id) {
                assert(m.inactive.contains(id));
            }
        }
    }
}

/// Where the routes that nobody owns are as many as can be kept, an event for
/// a new thread costs the oldest of them and no other.
pub proof fn law_oldest_unowned_route_gives_way(m: RouterModel, id: Seq<char>, event: AppServerEvent, other: Seq<char>)
    requires
        m.wf(),
        !m.closed,
        m.inactive.len() == INACTIVE_ROUTE_CAPACITY,
        !m.threads.contains_key(id),
        !ends_stream(event),
        other != id,
    ensures
        ({
            let after = m.route_to(TargetModel::Thread(id), event);
            &&& !after.threads.contains_key(m.inactive[0])
            &&& other != m.inactive[0] ==> after.threads.contains_key(other) == m.threads.contains_key(other)
            &&& other != m.inactive[0] && m.threads.contains_key(other) ==> after.threads[other] == m.threads[other]
            &&& after.threads.contains_key(id)
            &&& after.threads[id] == ThreadRouteModel::Pending(PendingModel::empty().push(event))
        }),
{
    let oldest = m.inactive[0];
    assert(m.inactive.contains(oldest));
    if m.inactive.contains(id) {
        assert(m.threads.contains_key(id));
    }
    lemma_without(m.inactive, id);
    assert(m.inactive.push(id)[0] == oldest);
}

/// A route that a stream or a lifecycle request owns is not lost to another
/// thread's events.
pub proof fn law_owned_routes_are_kept(m: RouterModel, id: Seq<char>, other: Seq<char>, event: AppServerEvent)
    requires
        m.wf(),
        m.blocked is None,
        m.threads.contains_key(id),
        !m.threads[id].is_inactive(),
        other != id,
    ensures
        m.route_to(TargetModel::Thread(other), event).threads.contains_key(id),
        m.route_to(TargetModel::Thread(other), event).threads[id] == m.threads[id],
{
    lemma_owned_route_is_open(m, id);
    if m.threads.contains_key(other) {
        assert(m.thread_wf(other));
        lemma_place_frame(m, other, m.threads[other].close_thread(event, TerminalSource::Notification));
    } else {
        lemma_place_frame(m, other, ThreadRouteModel::Pending(PendingModel::empty()));
    }
}

/// The end of the connection is the last event of every stream that owns a
/// route, and a stream that owns none is not touched.
pub proof fn law_disconnect_reaches_every_owner(m: RouterModel, event: AppServerEvent, slot: usize)
    requires
        m.wf(),
        !m.closed,
        m.attachments.contains_key(slot),
    ensures
        ({
            let after = m.close(event);
            let before = m.attachments[slot];
            &&& after.attachments.contains_key(slot)
            &&& m.serves(before.owner, slot) ==> after.attachments[slot].mailbox.closed
                && after.attachments[slot].mailbox.backlog() == before.mailbox.backlog() + lag_marker(
                before.mailbox.skipped,
            ) + seq![event]
            &&& !m.serves(before.owner, slot) ==> after.attachments[slot] == before
        }),
{
    assert(m.attachment_wf(slot));
    let before = m.attachments[slot];
    if m.serves(before.owner, slot) {
        if let OwnerModel::Thread(id) = before.owner {
            assert(m.thread_wf(id));
        }
        law_terminal_event_is_last(before.mailbox, event);
    }
}

/// A closed router refuses every attachment and takes no more events in.
pub proof fn law_closed_routers_stay_closed(
    m: RouterModel,
    event: AppServerEvent,
    target: TargetModel,
    other: AppServerEvent,
    id: Seq<char>,
)
    requires
        m.wf(),
    ensures
        m.close(event).closed,
        m.close(event).attach_refusal(id) == Some(AttachRefusal::RuntimeClosed),
        !m.close(event).runtime_is_free(),
        m.close(event).route_to(target, other) == m.close(event),
        m.close(event).close(other) == m.close(event),
{
}

/// A reservation that is given up drops the events that come late, and the
/// next reservation starts empty.
pub proof fn law_cancelled_reservations_drop_late_events(
    m: RouterModel,
    id: Seq<char>,
    generation: u64,
    event: AppServerEvent,
)
    requires
        m.wf(),
        m.holds_reservation(id, generation),
        !ends_stream(event),
    ensures
        ({
            let cancelled = m.cancel(id, generation);
            &&& cancelled.threads.contains_key(id)
            &&& cancelled.threads[id] is Detached
            &&& cancelled.route_to(TargetModel::Thread(id), event) == cancelled
            &&& cancelled.attach_refusal(id) is None
            &&& cancelled.reservable(id) == PendingModel::empty()
        }),
{
    lemma_owned_route_is_open(m, id);
    lemma_place_frame(m, id, ThreadRouteModel::Detached);
    let cancelled = m.cancel(id, generation);
    assert(cancelled.threads.insert(id, cancelled.threads[id]) =~= cancelled.threads);
    assert(cancelled.route_to(TargetModel::Thread(id), event) =~= cancelled);
}

/// A stream that is given back leaves a route that drops what comes late.
pub proof fn law_released_streams_detach_their_route(m: RouterModel, id: Seq<char>)
    requires
        m.wf(),
        m.threads.contains_key(id),
        m.threads[id] is Active,
    ensures
        ({
            let slot = m.threads[id]->Active_slot;
            let after = m.release(slot);
            &&& !after.attachments.contains_key(slot)
            &&& after.threads.contains_key(id)
            &&& after.threads[id] is Detached
        }),
{
    assert(m.thread_wf(id));
    lemma_owned_route_is_open(m, id);
    lemma_place_frame(m, id, ThreadRouteModel::Detached);
    let slot = m.threads[id]->Active_slot;
    lemma_dismantle(m, slot);
    lemma_pump_keeps_routes(m.dismantle(slot));
    lemma_pump(m.dismantle(slot));
    assert(!m.dismantle(slot).attachments.dom().contains(slot));
}

/// Every delivery goes to another slot.
pub open spec fn slots_are_unique(queue: Seq<Delivery>) -> bool {
    forall|i: int, j: int|
        0 <= i < queue.len() && 0 <= j < queue.len() && #[trigger] queue[i].slot == #[trigger] queue[j].slot ==> i == j
}

/// What the pump makes of one of several deliveries.
proof fn lemma_pump_delivers(m: RouterModel, slot: usize, event: AppServerEvent)
    requires
        m.settled_wf(),
        slots_are_unique(m.in_flight),
        m.attachments.contains_key(slot),
        !m.attachments[slot].mailbox.closed,
        forall|i: int| 0 <= i < m.in_flight.len() && #[trigger] m.in_flight[i].slot == slot ==> m.in_flight[i].event == event,
    ensures
        m.pump().attachments.contains_key(slot),
        (forall|i: int| 0 <= i < m.in_flight.len() ==> #[trigger] m.in_flight[i].slot != slot) ==> m.pump().attachments[slot]
            == m.attachments[slot],
        m.in_flight.contains(Delivery { slot, event }) ==> {
            ||| m.pump().in_flight.contains(Delivery { slot, event }) && m.pump().attachments[slot]
                == m.attachments[slot]
            ||| m.pump().attachments[slot].mailbox == m.attachments[slot].mailbox.forward(
                event,
                requires_delivery(event),
            )
        },
    decreases m.in_flight.len(),
{
    if m.blocked is None && m.in_flight.len() > 0 {
        let next = m.in_flight[0];
        let queue = m.in_flight.drop_first();
        lemma_deliver(m, next.slot, next.event);
        lemma_drop_first(m);
        lemma_deliver_ignores_in_flight(m, queue, next.slot, next.event);
        lemma_deliver(RouterModel { in_flight: queue, ..m }, next.slot, next.event);
        let rest = RouterModel { in_flight: queue, ..m.deliver(next.slot, next.event) };
        assert(m.attachments.dom().contains(slot));
        assert(rest.attachments.dom().contains(slot));
        assert forall|i: int, j: int|
            0 <= i < queue.len() && 0 <= j < queue.len() && #[trigger] queue[i].slot
                == #[trigger] queue[j].slot implies i == j by {
            assert(m.in_flight[i + 1].slot == m.in_flight[j + 1].slot);
        }
        assert forall|i: int| 0 <= i < queue.len() && #[trigger] queue[i].slot == slot implies queue[i].event
            == event by {
            assert(m.in_flight[i + 1].slot == slot);
        }
        lemma_pump_delivers(rest, slot, event);
        if m.in_flight.contains(Delivery { slot, event }) && next.slot != slot {
            let i = choose|i: int| 0 <= i < m.in_flight.len() && m.in_flight[i] == (Delivery { slot, event });
            assert(queue[i - 1] == (Delivery { slot, event }));
        }
        if next.slot == slot {
            assert forall|i: int| 0 <= i < queue.len() implies #[trigger] queue[i].slot != slot by {
                assert(m.in_flight[i + 1].slot == queue[i].slot);
                assert(m.in_flight[0].slot == slot);
            }
        } else {
            assert forall|i: int|
                (forall|k: int| 0 <= k < m.in_flight.len() ==> #[trigger] m.in_flight[k].slot != slot) && 0 <= i
                    < queue.len() implies #[trigger] queue[i].slot != slot by {
                assert(m.in_flight[i + 1].slot == queue[i].slot);
            }
        }
    }
}

/// The deliveries of a broadcast: one for each thread that a stream owns.
proof fn lemma_thread_deliveries_reach(m: RouterModel, order: Seq<Seq<char>>, event: AppServerEvent)
    requires
        m.settled_wf(),
        order.no_duplicates(),
        forall|i: int| 0 <= i < order.len() ==> m.threads.contains_key(#[trigger] order[i]),
    ensures
        slots_are_unique(m.thread_deliveries(order, event)),
        forall|i: int|
            0 <= i < m.thread_deliveries(order, event).len() ==> {
                let delivery = #[trigger] m.thread_deliveries(order, event)[i];
                &&& delivery.event == event
                &&& m.attachments[delivery.slot].owner matches OwnerModel::Thread(id)
                &&& order.contains(id)
            },
        forall|id: Seq<char>|
            #![trigger order.contains(id)]
            order.contains(id) && m.threads[id] is Active ==> m.thread_deliveries(order, event).contains(
                Delivery { slot: m.threads[id]->Active_slot, event },
            ),
    decreases order.len(),
{
    if order.len() > 0 {
        let front = order.drop_last();
        let last = order.last();
        assert forall|i: int| 0 <= i < front.len() implies m.threads.contains_key(#[trigger] front[i]) by {
            assert(front[i] == order[i]);
        }
        lemma_thread_deliveries_reach(m, front, event);
        assert(order[order.len() - 1] == last);
        assert(m.thread_wf(last));
        let before = m.thread_deliveries(front, event);
        let all = m.thread_deliveries(order, event);
        assert forall|id: Seq<char>| #[trigger] front.contains(id) implies order.contains(id) && id != last by {
            let i = choose|i: int| 0 <= i < front.len() && front[i] == id;
            assert(order[i] == id);
        }
        assert(order.contains(last));
        if let Some(slot) = m.threads[last].active_slot() {
            assert(all == before.push(Delivery { slot, event }));
            assert(slots_are_unique(all)) by {
                assert forall|i: int, j: int|
                    0 <= i < all.len() && 0 <= j < all.len() && #[trigger] all[i].slot
                        == #[trigger] all[j].slot implies i == j by {
                    if i < before.len() {
                        assert(before[i] == all[i]);
                    }
                    if j < before.len() {
                        assert(before[j] == all[j]);
                    }
                }
            }
            assert(all[before.len() as int] == (Delivery { slot, event }));
        }
        assert forall|i: int| 0 <= i < all.len() implies {
            let delivery = #[trigger] all[i];
            &&& delivery.event == event
            &&& m.attachments[delivery.slot].owner matches OwnerModel::Thread(id)
            &&& order.contains(id)
        } by {
            if i < before.len() {
                assert(before[i] == all[i]);
            }
        }
        assert forall|id: Seq<char>|
            #![trigger order.contains(id)]
            order.contains(id) && m.threads[id] is Active implies all.contains(
            Delivery { slot: m.threads[id]->Active_slot, event },
        ) by {
            if id != last {
                let i = choose|i: int| 0 <= i < order.len() && order[i] == id;
                assert(front[i] == id);
                assert(front.contains(id));
                let j = choose|j: int|
                    0 <= j < before.len() && before[j] == (Delivery { slot: m.threads[id]->Active_slot, event });
                assert(all[j] == before[j]);
            }
        }
    }
}

/// The marker for lost events reaches every stream that owns a route, or is
/// still on its way to it; when the pump no longer waits it has reached all.
pub proof fn law_lag_reaches_every_owner(m: RouterModel, order: Seq<Seq<char>>, skipped: usize, slot: usize)
    requires
        m.wf(),
        m.blocked is None,
        !m.closed,
        m.lists_threads(order),
        m.attachments.contains_key(slot),
        m.serves(m.attachments[slot].owner, slot),
    ensures
        ({
            let event = AppServerEvent::Lagged { skipped };
            let after = m.broadcast_lag(order, skipped);
            let before = m.attachments[slot].mailbox;
            let reached = after.attachments[slot].mailbox.backlog() == before.backlog() + lag_marker(before.skipped)
                + seq![event];
            &&& after.attachments.contains_key(slot)
            &&& reached || after.in_flight.contains(Delivery { slot, event }) && after.attachments[slot].mailbox == before
            &&& after.blocked is None ==> reached
        }),
{
    let event = AppServerEvent::Lagged { skipped };
    let start = m.start_lag(order, skipped);
    let owner = m.attachments[slot].owner;
    lemma_start_lag(m, order, skipped);
    assert forall|i: int| 0 <= i < order.len() implies m.threads.contains_key(#[trigger] order[i]) by {
        assert(order.contains(order[i]));
    }
    lemma_thread_deliveries_reach(m, order, event);
    let first = m.runtime_delivery(event);
    let others = m.thread_deliveries(order, event);
    if let OwnerModel::Thread(id) = owner {
        assert(m.thread_wf(id));
        assert(order.contains(id));
        let j = choose|j: int| 0 <= j < others.len() && others[j] == (Delivery { slot, event });
        assert(start.in_flight[first.len() + j] == (Delivery { slot, event }));
    } else {
        assert(start.in_flight[0] == (Delivery { slot, event }));
    }
    assert(slots_are_unique(start.in_flight)) by {
        assert forall|i: int, j: int|
            0 <= i < start.in_flight.len() && 0 <= j < start.in_flight.len() && #[trigger] start.in_flight[i].slot
                == #[trigger] start.in_flight[j].slot implies i == j by {
            if i >= first.len() {
                assert(start.in_flight[i] == others[i - first.len()]);
            }
            if j >= first.len() {
                assert(start.in_flight[j] == others[j - first.len()]);
            }
        }
    }
    assert forall|i: int| 0 <= i < start.in_flight.len() && #[trigger] start.in_flight[i].slot == slot implies start.in_flight[i].event
        == event by {
        if i >= first.len() {
            assert(start.in_flight[i] == others[i - first.len()]);
        }
    }
    lemma_pump_delivers(start, slot, event);
    lemma_pump(start);
    assert(m.attachment_wf(slot));
    law_required_events_are_kept(m.attachments[slot].mailbox, event);
}

/// An event that would end a thread without a route makes no route.
pub proof fn law_unknown_terminal_events_make_no_route(m: RouterModel, id: Seq<char>, event: AppServerEvent)
    requires
        !m.threads.contains_key(id),
        ends_stream(event),
    ensures
        m.route_to(TargetModel::Thread(id), event) == m,
{
}

/// A thread's events from before it was attached are replayed in order, and a
/// thread that has ended by then ends its stream after them.
pub proof fn law_early_events_are_replayed(m: RouterModel, id: Seq<char>, slot: usize)
    requires
        m.wf(),
        m.attach_refusal(id) is None,
        m.threads.contains_key(id),
    ensures
        m.threads[id] is Pending ==> {
            let mailbox = m.take_thread(id, slot).attachments[slot].mailbox;
            mailbox.backlog() == m.threads[id].replayable().replay() && !mailbox.closed
        },
        m.threads[id] is Closed ==> {
            let mailbox = m.take_thread(id, slot).attachments[slot].mailbox;
            mailbox.backlog() == m.threads[id].replayable().replay() && mailbox.closed
        },
{
    let mailbox = m.take_thread(id, slot).attachments[slot].mailbox;
    assert(mailbox.backlog() =~= mailbox.replay);
}

/// A reservation keeps the events that came before it.
pub proof fn law_reservations_keep_early_events(m: RouterModel, id: Seq<char>, kind: ThreadAttachmentKind)
    requires
        m.wf(),
        !m.closed,
    ensures
        m.reserve(id, kind).holds_reservation(id, m.next_generation),
        m.reserve(id, kind).threads[id].replayable() == m.reservable(id),
{
    lemma_place_frame(
        m,
        id,
        ThreadRouteModel::Reserved {
            generation: m.next_generation,
            pending: m.reservable(id),
            phase: starting_phase(kind),
        },
    );
}

/// A claimed reservation replays the thread's events from before it in order.
pub proof fn law_claims_replay_early_events(m: RouterModel, id: Seq<char>, generation: u64, slot: usize)
    requires
        m.wf(),
        m.holds_reservation(id, generation),
    ensures
        ({
            let after = m.claim(id, generation, slot);
            let mailbox = after.attachments[slot].mailbox;
            &&& after.serves(OwnerModel::Thread(id), slot)
            &&& mailbox.backlog() == m.threads[id].replayable().replay()
            &&& !mailbox.closed
        }),
{
    lemma_owned_route_is_open(m, id);
    lemma_place_frame(
        m,
        id,
        ThreadRouteModel::Active { generation, slot, phase: m.threads[id]->Reserved_phase },
    );
    let mailbox = m.claim(id, generation, slot).attachments[slot].mailbox;
    assert(mailbox.backlog() =~= mailbox.replay);
}

/// An event that comes before its thread is attached joins the events to
/// replay, and one that ends the thread is the last of them. A thread that is
/// reserved stays reserved until such an event; an archive notification from
/// before the unarchive that it waits for changes nothing.
pub proof fn law_early_events_are_kept(m: RouterModel, id: Seq<char>, event: AppServerEvent)
    requires
        m.wf(),
        m.blocked is None,
        !m.closed,
        m.threads.contains_key(id),
        m.threads[id] is Pending || m.threads[id] is Reserved,
    ensures
        ({
            let before = m.threads[id];
            let after = m.route_to(TargetModel::Thread(id), event);
            &&& after.threads.contains_key(id)
            &&& after.threads[id] == match before {
                ThreadRouteModel::Reserved { generation, pending, phase } => if ends_stream(event) {
                    if is_archive(event) && phase == AttachmentPhase::AwaitingUnarchive {
                        before
                    } else {
                        ThreadRouteModel::Closed(pending.push(event))
                    }
                } else {
                    ThreadRouteModel::Reserved {
                        generation,
                        pending: pending.push(event),
                        phase: phase_after(phase, event),
                    }
                },
                _ => if ends_stream(event) {
                    ThreadRouteModel::Closed(before.replayable().push(event))
                } else {
                    ThreadRouteModel::Pending(before.replayable().push(event))
                },
            }
        }),
{
    if ends_stream(event) {
        lemma_place_frame(m, id, m.threads[id].close_thread(event, TerminalSource::Notification));
    }
}

proof fn lemma_kept_slots_are_unique(queue: Seq<Delivery>, slot: usize)
    requires
        slots_are_unique(queue),
    ensures
        slots_are_unique(not_to(queue, slot)),
    decreases queue.len(),
{
    reveal(Seq::filter);
    if queue.len() > 0 {
        let front = queue.drop_last();
        assert forall|i: int, j: int|
            0 <= i < front.len() && 0 <= j < front.len() && #[trigger] front[i].slot
                == #[trigger] front[j].slot implies i == j by {
            assert(queue[i].slot == queue[j].slot);
        }
        lemma_kept_slots_are_unique(front, slot);
        lemma_filter_deliveries(front, slot);
        let before = not_to(front, slot);
        let kept = not_to(queue, slot);
        let last = queue.len() - 1;
        assert forall|i: int, j: int|
            0 <= i < kept.len() && 0 <= j < kept.len() && #[trigger] kept[i].slot
                == #[trigger] kept[j].slot implies i == j by {
            if i < before.len() && j < before.len() {
                assert(before[i].slot == before[j].slot);
            } else if i < before.len() {
                assert(front.contains(before[i]));
                let k = choose|k: int| 0 <= k < front.len() && front[k] == before[i];
                assert(queue[k].slot == queue[last].slot);
            } else if j < before.len() {
                assert(front.contains(before[j]));
                let k = choose|k: int| 0 <= k < front.len() && front[k] == before[j];
                assert(queue[k].slot == queue[last].slot);
            }
        }
    }
}

/// What is on its way to a stream while the pump waits for another gets there:
/// when the other is read or given back, it has reached the stream, or it is
/// still on its way. Once the pump no longer waits it has reached it.
pub proof fn law_deliveries_arrive_when_the_pump_goes_on(
    m: RouterModel,
    slot: usize,
    other: usize,
    event: AppServerEvent,
)
    requires
        m.wf(),
        slots_are_unique(m.in_flight),
        m.blocked == Some(slot),
        other != slot,
        m.attachments.contains_key(other),
        !m.attachments[other].mailbox.closed,
        m.in_flight.contains(Delivery { slot: other, event }),
    ensures
        ({
            let reached = m.attachments[other].mailbox.forward(event, requires_delivery(event));
            let read = m.recv(slot);
            let left = m.release(slot);
            &&& read.attachments.contains_key(other) && left.attachments.contains_key(other)
            &&& read.attachments[other].mailbox == reached || read.in_flight.contains(Delivery { slot: other, event })
                && read.attachments[other] == m.attachments[other]
            &&& read.blocked is None ==> read.attachments[other].mailbox == reached
            &&& left.attachments[other].mailbox == reached || left.in_flight.contains(Delivery { slot: other, event })
                && left.attachments[other] == m.attachments[other]
            &&& left.blocked is None ==> left.attachments[other].mailbox == reached
        }),
{
    let delivery = Delivery { slot: other, event };
    let at = choose|at: int| 0 <= at < m.in_flight.len() && m.in_flight[at] == delivery;
    assert(m.attachment_wf(slot));
    let mailbox = m.attachments[slot].mailbox.after_recv();
    let blocked: Option<usize> = if mailbox.waiting.len() == 0 {
        None
    } else {
        m.blocked
    };
    let start = RouterModel { blocked, ..m.with_mailbox(slot, mailbox) };
    lemma_with_mailbox(m, slot, mailbox, blocked);
    assert forall|i: int| 0 <= i < start.in_flight.len() && #[trigger] start.in_flight[i].slot
        == other implies start.in_flight[i].event == event by {
        assert(m.in_flight[i].slot == m.in_flight[at].slot);
    }
    lemma_pump_delivers(start, other, event);
    lemma_pump(start);
    let rest = m.dismantle(slot);
    lemma_dismantle(m, slot);
    lemma_kept_slots_are_unique(m.in_flight, slot);
    lemma_filter_deliveries(m.in_flight, slot);
    let others = |kept: Delivery| kept.slot != slot;
    m.in_flight.lemma_filter_contains(others, at);
    assert(rest.in_flight.contains(delivery));
    assert forall|i: int| 0 <= i < rest.in_flight.len() && #[trigger] rest.in_flight[i].slot
        == other implies rest.in_flight[i].event == event by {
        assert(m.in_flight.contains(rest.in_flight[i]));
        let k = choose|k: int| 0 <= k < m.in_flight.len() && m.in_flight[k] == rest.in_flight[i];
        assert(m.in_flight[k].slot == m.in_flight[at].slot);
    }
    lemma_detach(m, m.attachments[slot].owner, m.attachments[slot].generation);
    assert(rest.attachments[other] == m.attachments[other]);
    lemma_pump_delivers(rest, other, event);
    lemma_pump(rest);
}

/// While the pump does not wait, nothing is on its way: whatever happens to
/// the streams, what was on its way goes on with the pump.
pub proof fn law_idle_pumps_have_nothing_on_the_way(m: RouterModel, slot: usize)
    requires
        m.wf(),
    ensures
        m.recv(slot).blocked is None ==> m.recv(slot).in_flight.len() == 0,
        m.release(slot).blocked is None ==> m.release(slot).in_flight.len() == 0,
        m.release(slot).blocked != Some(slot) || !m.attachments.contains_key(slot),
{
    lemma_recv(m, slot);
    lemma_release(m, slot);
    if m.attachments.contains_key(slot) {
        lemma_dismantle(m, slot);
        lemma_pump(m.dismantle(slot));
        assert(!m.dismantle(slot).attachments.dom().contains(slot));
    }
}

} // verus!
