//! Who gets which stream, and what the others are told.
use crate::error::{Error, Result};
use crate::event::{ends_stream, AppServerEvent, EventTarget, ServerNotification, TargetModel};
use crate::runtime::events::{archived_event, EventReceiver, EventRouter, ThreadEventReservation};
use crate::runtime::mailbox::{PendingModel, TryRecvError};
use crate::runtime::mailbox_laws::law_terminal_event_is_last;
use crate::runtime::route_lemmas::{
    lemma_owned_route_is_open, lemma_place_frame, lemma_pump_keeps_routes, lemma_start_lag, lemma_without,
};
use crate::runtime::route_model::{
    is_stale, next_generation_after, phase_after, starting_phase, without, AttachmentModel, AttachmentPhase, Delivery,
    OwnerModel, RouterModel, RuntimeRouteModel, TerminalSource, ThreadAttachmentKind, ThreadRouteModel,
};
use crate::thread_id::canonical_thread_id;
use vstd::prelude::*;

verus! {

/// A thread whose stream has an owner.
pub open spec fn is_owned(m: RouterModel, id: Seq<char>) -> bool {
    m.threads.contains_key(id) && m.threads[id] is Active
}

/// A thread that a lifecycle request has reserved.
pub open spec fn is_reserved(m: RouterModel, id: Seq<char>) -> bool {
    m.threads.contains_key(id) && m.threads[id] is Reserved
}

/// A thread that has events which came before its stream was taken.
pub open spec fn has_early_events(m: RouterModel, id: Seq<char>) -> bool {
    m.threads.contains_key(id) && m.threads[id] is Pending
}

/// A thread that has ended before its stream was taken.
pub open spec fn has_ended_early(m: RouterModel, id: Seq<char>) -> bool {
    m.threads.contains_key(id) && m.threads[id] is Closed
}

/// A stream is refused with the reason: the id is none, the runtime is closed,
/// somebody has the stream, or a lifecycle request has reserved it. In every
/// other case it is given out. A refusal changes nothing.
pub proof fn law_refused_streams_say_why(router: &mut EventRouter, thread_id: &str, taken: Result<EventReceiver>)
    requires
        router.wf(),
        call_ensures(EventRouter::take_thread, (router, thread_id), taken),
    ensures
        canonical_thread_id(thread_id@) is None ==> (taken matches Err(Error::InvalidThreadId { thread_id: told })
            && told@ == thread_id@),
        canonical_thread_id(thread_id@) is Some ==> ({
            let id = canonical_thread_id(thread_id@)->0;
            let m = old(router)@;
            &&& m.closed ==> taken == Err::<EventReceiver, Error>(Error::RuntimeClosed)
            &&& !m.closed && is_owned(m, id) ==> (taken matches Err(Error::ThreadEventStreamTaken { thread_id: told })
                && told@ == id)
            &&& !m.closed && is_reserved(m, id) ==> (taken matches Err(
                Error::ThreadLifecycleInProgress { thread_id: told },
            ) && told@ == id)
            &&& !m.closed && !is_owned(m, id) && !is_reserved(m, id) ==> taken is Ok
        }),
        taken is Err ==> final(router)@ == old(router)@,
{
}

/// A reservation is refused with the reason, as a stream is.
pub proof fn law_refused_reservations_say_why(
    router: &mut EventRouter,
    thread_id: &str,
    kind: ThreadAttachmentKind,
    reserved: Result<ThreadEventReservation>,
)
    requires
        router.wf(),
        call_ensures(EventRouter::prepare_thread, (router, thread_id, kind), reserved),
    ensures
        canonical_thread_id(thread_id@) is None ==> (reserved matches Err(Error::InvalidThreadId { thread_id: told })
            && told@ == thread_id@),
        canonical_thread_id(thread_id@) is Some ==> ({
            let id = canonical_thread_id(thread_id@)->0;
            let m = old(router)@;
            &&& m.closed ==> reserved == Err::<ThreadEventReservation, Error>(Error::RuntimeClosed)
            &&& !m.closed && is_owned(m, id) ==> (reserved matches Err(
                Error::ThreadEventStreamTaken { thread_id: told },
            ) && told@ == id)
            &&& !m.closed && is_reserved(m, id) ==> (reserved matches Err(
                Error::ThreadLifecycleInProgress { thread_id: told },
            ) && told@ == id)
            &&& !m.closed && !is_owned(m, id) && !is_reserved(m, id) ==> reserved is Ok
        }),
        reserved is Err ==> final(router)@ == old(router)@,
{
}

/// Who takes a thread's stream becomes its owner. The stream starts with the
/// events that came before, and with nothing where the thread had none or an
/// earlier owner. A thread that has ended by then gives its events out and is
/// over. Nobody else's stream changes.
pub proof fn law_takers_own_the_stream(
    router: &mut EventRouter,
    thread_id: &str,
    receiver: EventReceiver,
    other: usize,
)
    requires
        router.wf(),
        canonical_thread_id(thread_id@) is Some,
        call_ensures(EventRouter::take_thread, (router, thread_id), Ok(receiver)),
    ensures
        ({
            let id = canonical_thread_id(thread_id@)->0;
            let before = old(router)@;
            let after = final(router)@;
            let slot = receiver.slot();
            let attachment = after.attachments[slot];
            &&& !before.attachments.contains_key(slot)
            &&& after.attachments.contains_key(slot)
            &&& attachment.owner == OwnerModel::Thread(id)
            &&& attachment.mailbox.skipped == 0
            &&& has_ended_early(before, id) ==> attachment.mailbox.closed && attachment.mailbox.backlog()
                == before.threads[id].replayable().replay() && after.threads.contains_key(id)
                && after.threads[id] is Terminated
            &&& !has_ended_early(before, id) ==> !attachment.mailbox.closed && is_owned(after, id)
                && after.threads[id]->Active_slot == slot && after.threads[id]->Active_phase == AttachmentPhase::Ready
                && after.threads[id]->Active_generation == attachment.generation && attachment.mailbox.capacity
                == before.stream_capacity
            &&& has_early_events(before, id) ==> attachment.mailbox.backlog()
                == before.threads[id].replayable().replay()
            &&& !has_ended_early(before, id) && !has_early_events(before, id) ==> attachment.mailbox.backlog().len()
                == 0
            &&& before.attachments.contains_key(other) ==> after.attachments.contains_key(other)
                && after.attachments[other] == before.attachments[other]
            &&& after.runtime == before.runtime
            &&& after.next_generation != before.next_generation
        }),
{
    let id = canonical_thread_id(thread_id@)->0;
    let m = router@;
    let slot = receiver.slot();
    let mailbox = final(router)@.attachments[slot].mailbox;
    assert(mailbox.backlog() =~= mailbox.replay);
    lemma_place_frame(m, id, ThreadRouteModel::Terminated);
    lemma_place_frame(
        m,
        id,
        ThreadRouteModel::Active { generation: m.next_generation, slot, phase: AttachmentPhase::Ready },
    );
}

/// A reservation holds the thread for one request. It keeps the events that
/// came before, and an unarchive request waits for the notification that the
/// thread is back.
pub proof fn law_reservations_hold_the_thread(
    router: &mut EventRouter,
    thread_id: &str,
    kind: ThreadAttachmentKind,
    reservation: ThreadEventReservation,
)
    requires
        router.wf(),
        canonical_thread_id(thread_id@) is Some,
        call_ensures(EventRouter::prepare_thread, (router, thread_id, kind), Ok(reservation)),
    ensures
        ({
            let id = canonical_thread_id(thread_id@)->0;
            let before = old(router)@;
            let after = final(router)@;
            &&& reservation.thread_id() == id
            &&& is_reserved(after, id)
            &&& after.threads[id]->Reserved_generation == reservation.generation()
            &&& kind == ThreadAttachmentKind::Resume ==> after.threads[id]->Reserved_phase == AttachmentPhase::Ready
            &&& kind == ThreadAttachmentKind::Unarchive ==> after.threads[id]->Reserved_phase
                == AttachmentPhase::AwaitingUnarchive
            &&& has_early_events(before, id) ==> after.threads[id]->Reserved_pending == before.threads[id]->Pending_0
            &&& !has_early_events(before, id) ==> after.threads[id]->Reserved_pending.events.len() == 0
                && after.threads[id]->Reserved_pending.skipped == 0
            &&& after.attachments == before.attachments
            &&& after.runtime == before.runtime
            &&& after.next_generation != before.next_generation
            &&& after.next_generation != 0
        }),
{
    let id = canonical_thread_id(thread_id@)->0;
    let m = router@;
    lemma_place_frame(
        m,
        id,
        ThreadRouteModel::Reserved {
            generation: m.next_generation,
            pending: m.reservable(id),
            phase: starting_phase(kind),
        },
    );
}

/// Generations are never zero, and each is another than the one before.
pub proof fn law_generations_change(generation: u64)
    requires
        generation >= 1,
    ensures
        next_generation_after(generation) >= 1,
        next_generation_after(generation) != generation,
        generation < u64::MAX ==> next_generation_after(generation) == generation + 1,
{
}

/// Who holds the reservation gets the stream, with the events that came
/// meanwhile. Who does not is told that a request is under way, and no stream
/// changes. A closed runtime gives nothing out.
pub proof fn law_reservations_are_claimed_once(
    router: &mut EventRouter,
    reservation: ThreadEventReservation,
    claimed: Result<EventReceiver>,
)
    requires
        router.wf(),
        call_ensures(ThreadEventReservation::claim, (reservation, router), claimed),
    ensures
        ({
            let id = reservation.thread_id();
            let before = old(router)@;
            let after = final(router)@;
            let held = is_reserved(before, id) && before.threads[id]->Reserved_generation == reservation.generation();
            &&& before.closed ==> claimed == Err::<EventReceiver, Error>(Error::RuntimeClosed) && after == before
            &&& !before.closed && !held ==> (claimed matches Err(
                Error::ThreadLifecycleInProgress { thread_id: told },
            ) && told@ == id) && after.attachments == before.attachments
            &&& !before.closed && held ==> claimed is Ok
            &&& claimed matches Ok(receiver) ==> {
                &&& held
                &&& !before.attachments.contains_key(receiver.slot())
                &&& is_owned(after, id)
                &&& after.threads[id]->Active_slot == receiver.slot()
                &&& after.threads[id]->Active_generation == reservation.generation()
                &&& after.threads[id]->Active_phase == before.threads[id]->Reserved_phase
                &&& after.attachments[receiver.slot()].owner == OwnerModel::Thread(id)
                &&& after.attachments[receiver.slot()].mailbox.backlog()
                    == before.threads[id]->Reserved_pending.replay()
                &&& !after.attachments[receiver.slot()].mailbox.closed
                &&& after.attachments[receiver.slot()].mailbox.capacity == before.stream_capacity
            }
        }),
{
    let id = reservation.thread_id();
    let m = router@;
    if let Ok(receiver) = claimed {
        let slot = receiver.slot();
        let mailbox = final(router)@.attachments[slot].mailbox;
        assert(mailbox.backlog() =~= mailbox.replay);
        lemma_place_frame(
            m,
            id,
            ThreadRouteModel::Active {
                generation: reservation.generation(),
                slot,
                phase: m.threads[id]->Reserved_phase,
            },
        );
    } else if !m.closed && m.threads.contains_key(id) {
        lemma_place_frame(m, id, m.threads[id]);
    }
}

/// Who gives a reservation up leaves the thread without an owner. A
/// reservation that does not stand any more changes nothing.
pub proof fn law_only_standing_reservations_are_cancelled(router: &mut EventRouter, reservation: ThreadEventReservation)
    requires
        router.wf(),
        call_ensures(ThreadEventReservation::cancel, (reservation, router), ()),
    ensures
        ({
            let id = reservation.thread_id();
            let before = old(router)@;
            let after = final(router)@;
            let held = is_reserved(before, id) && before.threads[id]->Reserved_generation == reservation.generation();
            &&& held ==> after.threads.contains_key(id) && after.threads[id] is Detached
            &&& !held ==> after == before
            &&& after.attachments == before.attachments
        }),
{
    let id = reservation.thread_id();
    let m = router@;
    if m.holds_reservation(id, reservation.generation()) {
        lemma_owned_route_is_open(m, id);
        lemma_place_frame(m, id, ThreadRouteModel::Detached);
    }
}

/// The runtime stream goes to the first who asks, with the events that came
/// before. Everybody else is told that it is taken, or that the runtime is
/// closed.
pub proof fn law_runtime_stream_goes_to_the_first(router: &mut EventRouter, taken: Result<EventReceiver>)
    requires
        router.wf(),
        call_ensures(EventRouter::take_runtime, (router,), taken),
    ensures
        ({
            let before = old(router)@;
            let after = final(router)@;
            &&& before.closed ==> taken == Err::<EventReceiver, Error>(Error::RuntimeClosed)
            &&& !before.closed && !(before.runtime is Pending) ==> taken == Err::<EventReceiver, Error>(
                Error::CodexEventStreamTaken,
            )
            &&& !before.closed && before.runtime is Pending ==> taken is Ok
            &&& taken is Err ==> after == before
            &&& taken matches Ok(receiver) ==> {
                let attachment = after.attachments[receiver.slot()];
                &&& after.attachments.contains_key(receiver.slot())
                &&& !before.attachments.contains_key(receiver.slot())
                &&& after.runtime is Active
                &&& after.runtime->Active_slot == receiver.slot()
                &&& attachment.owner == OwnerModel::Runtime
                &&& attachment.mailbox.backlog() == before.runtime->Pending_0.replay()
                &&& !attachment.mailbox.closed
                &&& attachment.mailbox.capacity == before.stream_capacity
                &&& after.threads == before.threads
            }
        }),
{
    if let Ok(receiver) = taken {
        let mailbox = final(router)@.attachments[receiver.slot()].mailbox;
        assert(mailbox.backlog() =~= mailbox.replay);
    }
}

/// Runtime events that come before the stream is taken are kept for its owner.
/// Those that come after its owner has left are dropped.
pub proof fn law_runtime_events_wait_for_the_owner(router: &mut EventRouter, event: AppServerEvent)
    requires
        router.wf(),
        router@.blocked is None,
        !router@.closed,
        call_ensures(EventRouter::route_to, (router, EventTarget::Runtime, event), ()),
    ensures
        old(router)@.runtime is Pending ==> final(router)@.runtime == RuntimeRouteModel::Pending(
            old(router)@.runtime->Pending_0.push(event),
        ),
        old(router)@.runtime is Detached ==> final(router)@ == old(router)@,
        final(router)@.threads == old(router)@.threads,
{
}

/// The first event of a thread that nobody has asked for is kept for whoever
/// does.
pub proof fn law_first_events_are_kept(router: &mut EventRouter, thread_id: String, event: AppServerEvent)
    requires
        router.wf(),
        router@.blocked is None,
        !router@.closed,
        !router@.threads.contains_key(thread_id@),
        !ends_stream(event),
        call_ensures(EventRouter::route_to, (router, EventTarget::Thread(thread_id), event), ()),
    ensures
        has_early_events(final(router)@, thread_id@),
        final(router)@.threads[thread_id@].replayable().replay() == seq![event],
        final(router)@.attachments == old(router)@.attachments,
        final(router)@.runtime == old(router)@.runtime,
{
    let m = router@;
    lemma_place_frame(m, thread_id@, ThreadRouteModel::Pending(PendingModel::empty()));
    let pending = PendingModel::empty().push(event);
    assert(pending.events =~= seq![event]);
    assert(pending.replay() =~= seq![event]);
}

/// What comes for a thread that has ended, or whose owner has left, is
/// dropped, and so is what names no thread.
pub proof fn law_late_events_are_dropped(router: &mut EventRouter, target: EventTarget, event: AppServerEvent)
    requires
        router.wf(),
        router@.blocked is None,
        !ends_stream(event),
        target is Thread && router@.threads.contains_key(target->Thread_0@) && (
        router@.threads[target->Thread_0@] is Terminated || router@.threads[target->Thread_0@] is Detached
            || router@.threads[target->Thread_0@] is Closed) || target is InvalidThread,
        call_ensures(EventRouter::route_to, (router, target, event), ()),
    ensures
        final(router)@ == old(router)@,
{
    let m = router@;
    if target is Thread {
        let id = target->Thread_0@;
        assert(m.threads.insert(id, m.threads[id]) =~= m.threads);
        assert(final(router)@ =~= m);
    }
}

/// No more than one thousand and twenty-four routes that nobody owns are kept,
/// and while there are fewer a new one costs no other.
pub proof fn law_unowned_routes_have_a_bound(m: RouterModel, id: Seq<char>, event: AppServerEvent, other: Seq<char>)
    requires
        m.wf(),
        !m.closed,
        !m.threads.contains_key(id),
        !ends_stream(event),
        other != id,
    ensures
        m.inactive.len() <= 1024,
        m.inactive.len() < 1024 ==> ({
            let after = m.route_to(TargetModel::Thread(id), event);
            &&& after.threads.contains_key(other) == m.threads.contains_key(other)
            &&& m.threads.contains_key(other) ==> after.threads[other] == m.threads[other]
        }),
{
    lemma_without(m.inactive, id);
}

/// The successful response to an archive request ends the thread's stream with
/// the notification of the archive, even where an archive notification would
/// not count. An id that is none is refused.
pub proof fn law_archive_responses_end_the_stream(router: &mut EventRouter, thread_id: &str, completed: Result<()>)
    requires
        router.wf(),
        call_ensures(EventRouter::complete_archive, (router, thread_id), completed),
    ensures
        canonical_thread_id(thread_id@) is None ==> (completed matches Err(
            Error::InvalidThreadId { thread_id: told },
        ) && told@ == thread_id@) && final(router)@ == old(router)@,
        canonical_thread_id(thread_id@) is Some ==> completed is Ok,
        canonical_thread_id(thread_id@) is Some && !old(router)@.closed && is_owned(
            old(router)@,
            canonical_thread_id(thread_id@)->0,
        ) ==> ({
            let id = canonical_thread_id(thread_id@)->0;
            let slot = old(router)@.threads[id]->Active_slot;
            let after = final(router)@;
            let mailbox = after.attachments[slot].mailbox;
            &&& after.threads[id] is Terminated
            &&& mailbox.closed
            &&& mailbox.backlog().len() > 0
            &&& mailbox.backlog().last() matches AppServerEvent::ServerNotification(
                ServerNotification::ThreadArchived(params),
            ) && params.thread_id@ == id
        }),
{
    if canonical_thread_id(thread_id@) is Some {
        let id = canonical_thread_id(thread_id@)->0;
        let m = router@;
        if !m.closed && is_owned(m, id) {
            let text = choose|text: String|
                text@ == id && final(router)@ == #[trigger] m.close_thread(
                    id,
                    archived_event(text),
                    TerminalSource::Authoritative,
                );
            assert(m.thread_wf(id));
            let slot = m.threads[id]->Active_slot;
            assert(m.attachment_wf(slot));
            lemma_place_frame(m, id, ThreadRouteModel::Terminated);
            law_terminal_event_is_last(m.attachments[slot].mailbox, archived_event(text));
        }
    }
}

/// An archive notification is late exactly where its thread still waits for
/// the unarchive. The response to a request is never late, and neither is any
/// other event.
pub proof fn law_only_notifications_can_be_late(event: AppServerEvent, source: TerminalSource, phase: AttachmentPhase)
    ensures
        is_stale(event, source, phase) <==> {
            &&& source == TerminalSource::Notification
            &&& event matches AppServerEvent::ServerNotification(ServerNotification::ThreadArchived(_))
            &&& phase == AttachmentPhase::AwaitingUnarchive
        },
{
}

/// A thread stops waiting for its unarchive with the notification of it, and
/// with nothing else.
pub proof fn law_only_the_unarchive_ends_the_wait(event: AppServerEvent, phase: AttachmentPhase)
    ensures
        phase_after(phase, event) == AttachmentPhase::AwaitingUnarchive <==> phase == AttachmentPhase::AwaitingUnarchive
            && !(event matches AppServerEvent::ServerNotification(ServerNotification::ThreadUnarchived(_))),
{
}

/// The marker for lost events joins what is kept for threads that nobody has
/// asked for yet, and for the runtime stream before it is taken.
pub proof fn law_lag_is_kept_for_later_owners(router: &mut EventRouter, skipped: usize, id: Seq<char>)
    requires
        router.wf(),
        router@.blocked is None,
        !router@.closed,
        call_ensures(EventRouter::route, (router, AppServerEvent::Lagged { skipped }), ()),
    ensures
        has_early_events(old(router)@, id) ==> has_early_events(final(router)@, id)
            && final(router)@.threads[id].replayable() == old(router)@.threads[id].replayable().push(
            AppServerEvent::Lagged { skipped },
        ),
        is_reserved(old(router)@, id) ==> is_reserved(final(router)@, id) && final(router)@.threads[id].replayable()
            == old(router)@.threads[id].replayable().push(AppServerEvent::Lagged { skipped }),
        old(router)@.runtime is Pending ==> final(router)@.runtime == RuntimeRouteModel::Pending(
            old(router)@.runtime->Pending_0.push(AppServerEvent::Lagged { skipped }),
        ),
{
    let m = router@;
    let order = choose|order: Seq<Seq<char>>|
        m.lists_threads(order) && final(router)@ == #[trigger] m.broadcast_lag(order, skipped);
    assert forall|i: int| 0 <= i < order.len() implies m.threads.contains_key(#[trigger] order[i]) by {
        assert(order.contains(order[i]));
    }
    lemma_start_lag(m, order, skipped);
    lemma_pump_keeps_routes(m.start_lag(order, skipped));
}

/// The end of the connection closes the router, whatever it says.
pub proof fn law_disconnects_close_the_router(router: &mut EventRouter, message: String)
    requires
        router.wf(),
        router@.blocked is None,
        call_ensures(EventRouter::route, (router, AppServerEvent::Disconnected { message }), ()),
    ensures
        final(router)@.closed,
        !old(router)@.closed ==> final(router)@.runtime is Detached,
{
}

/// Who holds a stream receives its oldest event. A stream that was given back
/// has ended for its holder.
pub proof fn law_holders_receive_their_events(
    router: &mut EventRouter,
    receiver: EventReceiver,
    received: std::result::Result<AppServerEvent, TryRecvError>,
)
    requires
        router.wf(),
        call_ensures(EventRouter::try_recv, (router, &receiver), received),
    ensures
        ({
            let slot = receiver.slot();
            let mailbox = old(router)@.attachments[slot].mailbox;
            &&& !old(router)@.attachments.contains_key(slot) ==> (received matches Err(error) && error is Disconnected)
                && final(router)@ == old(router)@
            &&& old(router)@.attachments.contains_key(slot) && mailbox.backlog().len() > 0 ==> received == Ok::<
                AppServerEvent,
                TryRecvError,
            >(mailbox.backlog()[0])
            &&& old(router)@.attachments.contains_key(slot) && mailbox.backlog().len() == 0 && mailbox.closed ==> (
            received matches Err(error) && error is Disconnected)
            &&& old(router)@.attachments.contains_key(slot) && mailbox.backlog().len() == 0 && !mailbox.closed ==> (
            received matches Err(error) && error is Empty)
        }),
{
}

/// The runtime stream that is given back is gone for good, and a thread's
/// stream leaves a route that drops what comes late. Giving back a stream that
/// is not there changes nothing.
pub proof fn law_given_back_streams_are_gone(router: &mut EventRouter, receiver: EventReceiver)
    requires
        router.wf(),
        call_ensures(EventRouter::release, (router, receiver), ()),
    ensures
        !old(router)@.attachments.contains_key(receiver.slot()) ==> final(router)@ == old(router)@,
        old(router)@.attachments.contains_key(receiver.slot()) && old(router)@.in_flight.len() == 0
            ==> !final(router)@.attachments.contains_key(receiver.slot()),
        old(router)@.runtime is Active && old(router)@.runtime->Active_slot == receiver.slot()
            && old(router)@.in_flight.len() == 0 ==> final(router)@.runtime is Detached,
{
    let m = router@;
    let slot = receiver.slot();
    if m.attachments.contains_key(slot) && m.in_flight.len() == 0 {
        reveal(Seq::filter);
        assert(m.dismantle(slot).in_flight.len() == 0);
        assert(m.dismantle(slot).pump() == m.dismantle(slot));
    }
}

/// A new router has seen nothing: the runtime stream is free and empty, no
/// thread is known, and streams hold as many live events as was asked for, and
/// at least one.
pub proof fn law_new_routers_have_seen_nothing(stream_capacity: usize, router: EventRouter, id: Seq<char>)
    requires
        call_ensures(EventRouter::new, (stream_capacity,), router),
    ensures
        router@.runtime is Pending,
        router@.runtime->Pending_0.replay().len() == 0,
        !router@.threads.contains_key(id),
        !router@.closed,
        router@.blocked is None,
        router@.in_flight.len() == 0,
        router@.inactive.len() == 0,
        router@.next_generation == 1,
        stream_capacity > 0 ==> router@.stream_capacity == stream_capacity,
        stream_capacity == 0 ==> router@.stream_capacity == 1,
        router@.attachments == Map::<usize, AttachmentModel>::empty(),
{
}

/// When a stream is given back, what is on its way to the others stays on its
/// way, and nothing else joins it.
pub proof fn law_other_deliveries_stay_on_their_way(m: RouterModel, slot: usize, delivery: Delivery)
    requires
        m.attachments.contains_key(slot),
    ensures
        delivery.slot != slot ==> (m.dismantle(slot).in_flight.contains(delivery) <==> m.in_flight.contains(delivery)),
        delivery.slot == slot ==> !m.dismantle(slot).in_flight.contains(delivery),
{
    let others = |other: Delivery| other.slot != slot;
    let kept = m.in_flight.filter(others);
    assert(m.dismantle(slot).in_flight == kept);
    if m.in_flight.contains(delivery) && delivery.slot != slot {
        let i = choose|i: int| 0 <= i < m.in_flight.len() && m.in_flight[i] == delivery;
        m.in_flight.lemma_filter_contains(others, i);
    }
    if kept.contains(delivery) {
        let i = choose|i: int| 0 <= i < kept.len() && kept[i] == delivery;
        m.in_flight.lemma_filter_pred(others, i);
        lemma_kept_was_there(m.in_flight, others, delivery);
    }
}

proof fn lemma_kept_was_there(list: Seq<Delivery>, keep: spec_fn(Delivery) -> bool, delivery: Delivery)
    requires
        list.filter(keep).contains(delivery),
    ensures
        list.contains(delivery),
    decreases list.len(),
{
    reveal(Seq::filter);
    if list.len() > 0 {
        let front = list.drop_last();
        let i = choose|i: int| 0 <= i < list.filter(keep).len() && list.filter(keep)[i] == delivery;
        if i < front.filter(keep).len() {
            assert(front.filter(keep)[i] == delivery);
            lemma_kept_was_there(front, keep, delivery);
            let j = choose|j: int| 0 <= j < front.len() && front[j] == delivery;
            assert(list[j] == delivery);
        } else {
            assert(list[list.len() - 1] == delivery);
        }
    }
}

/// A shutdown gives up the events that wait for room, and what was to be
/// delivered after them. No other stream and no route changes.
pub proof fn law_shutdowns_give_up_what_waits(router: &mut EventRouter, other: usize)
    requires
        router.wf(),
        call_ensures(EventRouter::abandon, (router,), ()),
    ensures
        final(router)@.blocked is None,
        final(router)@.in_flight.len() == 0,
        final(router)@.threads == old(router)@.threads,
        final(router)@.runtime == old(router)@.runtime,
        final(router)@.closed == old(router)@.closed,
        old(router)@.blocked is None ==> final(router)@ == old(router)@,
        old(router)@.blocked matches Some(slot) ==> {
            let before = old(router)@.attachments[slot].mailbox;
            let after = final(router)@.attachments[slot].mailbox;
            &&& after.waiting.len() == 0
            &&& after.live == before.live
            &&& after.replay == before.replay
            &&& after.closed == before.closed
        },
        old(router)@.blocked != Some(other) && old(router)@.attachments.contains_key(other)
            ==> final(router)@.attachments.contains_key(other) && final(router)@.attachments[other]
            == old(router)@.attachments[other],
{
}

/// A thread whose reservation was not found counts as used just now: of the
/// routes that nobody owns it is the newest.
pub proof fn law_missed_claims_renew_the_route(m: RouterModel, id: Seq<char>)
    requires
        m.wf(),
        !m.closed,
        m.threads.contains_key(id),
        m.threads[id].is_inactive(),
    ensures
        m.touch(id).inactive.len() == m.inactive.len(),
        m.touch(id).inactive.last() == id,
        m.touch(id).threads == m.threads,
{
    lemma_without(m.inactive, id);
    assert(m.inactive.contains(id));
    lemma_without_len(m.inactive, id);
    assert(m.threads.insert(id, m.threads[id]) =~= m.threads);
}

proof fn lemma_without_len(list: Seq<Seq<char>>, id: Seq<char>)
    requires
        list.no_duplicates(),
    ensures
        without(list, id).len() == list.len() - (if list.contains(id) {
            1int
        } else {
            0int
        }),
    decreases list.len(),
{
    reveal(Seq::filter);
    if list.len() > 0 {
        let front = list.drop_last();
        lemma_without_len(front, id);
        if front.contains(id) {
            let i = choose|i: int| 0 <= i < front.len() && front[i] == id;
            assert(list[i] == id);
            assert(list[list.len() - 1] != id);
        } else if list.contains(id) {
            let i = choose|i: int| 0 <= i < list.len() && list[i] == id;
            if i < front.len() {
                assert(front[i] == id);
            }
        }
        if list.last() == id {
            assert(list[list.len() - 1] == id);
        }
    }
}

/// An event that ends a thread whose owner has left marks the thread as ended,
/// and reaches no stream.
pub proof fn law_left_threads_can_still_end(router: &mut EventRouter, thread_id: String, event: AppServerEvent)
    requires
        router.wf(),
        router@.blocked is None,
        !router@.closed,
        router@.threads.contains_key(thread_id@),
        router@.threads[thread_id@] is Detached || router@.threads[thread_id@] is Terminated,
        ends_stream(event),
        call_ensures(EventRouter::route_to, (router, EventTarget::Thread(thread_id), event), ()),
    ensures
        final(router)@.threads.contains_key(thread_id@),
        final(router)@.threads[thread_id@] is Terminated,
        final(router)@.attachments == old(router)@.attachments,
{
    lemma_place_frame(router@, thread_id@, ThreadRouteModel::Terminated);
}

/// The end of the connection ends every thread: with an owner it is over, and
/// without one its events are kept with the end of the connection last. No
/// thread is forgotten.
pub proof fn law_disconnects_end_every_thread(router: &mut EventRouter, message: String, id: Seq<char>)
    requires
        router.wf(),
        !router@.closed,
        call_ensures(EventRouter::close, (router, message), ()),
    ensures
        ({
            let before = old(router)@;
            let after = final(router)@;
            let event = AppServerEvent::Disconnected { message };
            &&& after.threads.contains_key(id) == before.threads.contains_key(id)
            &&& is_owned(before, id) ==> after.threads[id] is Terminated
            &&& is_reserved(before, id) ==> after.threads[id] == ThreadRouteModel::Closed(
                before.threads[id]->Reserved_pending.push(event),
            )
            &&& has_early_events(before, id) ==> after.threads[id] == ThreadRouteModel::Closed(
                before.threads[id]->Pending_0.push(event),
            )
            &&& has_ended_early(before, id) ==> after.threads[id] == ThreadRouteModel::Closed(
                before.threads[id]->Closed_0.push(event),
            )
            &&& before.threads.contains_key(id) && (before.threads[id] is Detached || before.threads[id] is Terminated)
                ==> after.threads[id] is Terminated
        }),
{
}

} // verus!
