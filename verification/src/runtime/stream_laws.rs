//! What streams keep and lose, event by event.
use crate::event::AppServerEvent;
use crate::runtime::mailbox::{
    count_one, lag_marker, Mailbox, MailboxModel, PendingEvents, PendingModel, TryRecvError,
};
use std::collections::VecDeque;
use vstd::prelude::*;

verus! {

/// Counting a lost event adds one, up to the largest count there is.
pub proof fn law_counts_go_up_by_one(count: usize)
    ensures
        count < usize::MAX ==> count_one(count) == count + 1,
        count == usize::MAX ==> count_one(count) == usize::MAX,
{
}

/// Lost events are reported by one marker that says how many there were, and
/// where none was lost there is no marker.
pub proof fn law_markers_say_how_many_were_lost(skipped: usize)
    ensures
        skipped == 0 ==> lag_marker(skipped).len() == 0,
        skipped > 0 ==> lag_marker(skipped).len() == 1 && lag_marker(skipped)[0] == (AppServerEvent::Lagged { skipped }),
{
}

/// An open stream with room takes an event whether or not it is required,
/// after a marker for what was lost before it.
pub proof fn law_events_with_room_are_kept(
    mailbox: &mut Mailbox,
    event: AppServerEvent,
    required: bool,
    accepted: bool,
)
    requires
        mailbox@.wf(),
        !mailbox@.closed,
        mailbox@.live.len() + lag_marker(mailbox@.skipped).len() < mailbox@.capacity,
        call_ensures(Mailbox::forward, (mailbox, event, required), accepted),
    ensures
        accepted,
        final(mailbox)@.backlog() == old(mailbox)@.backlog() + lag_marker(old(mailbox)@.skipped) + seq![event],
        final(mailbox)@.skipped == 0,
        !final(mailbox)@.closed,
{
    assert(final(mailbox)@.backlog() =~= mailbox@.backlog() + lag_marker(mailbox@.skipped) + seq![event]);
}

/// A full open stream loses an event that is not required, and counts it.
/// Nothing else of the stream changes.
pub proof fn law_full_streams_lose_and_count(mailbox: &mut Mailbox, event: AppServerEvent, accepted: bool)
    requires
        mailbox@.wf(),
        !mailbox@.closed,
        mailbox@.live.len() == mailbox@.capacity,
        call_ensures(Mailbox::forward, (mailbox, event, false), accepted),
    ensures
        accepted,
        final(mailbox)@.backlog() == old(mailbox)@.backlog(),
        old(mailbox)@.skipped < usize::MAX ==> final(mailbox)@.skipped == old(mailbox)@.skipped + 1,
        old(mailbox)@.skipped == usize::MAX ==> final(mailbox)@.skipped == usize::MAX,
        !final(mailbox)@.closed,
{
}

/// Where the last place is needed to report what was lost, an event that is
/// not required is lost itself.
pub proof fn law_markers_come_before_events(mailbox: &mut Mailbox, event: AppServerEvent, accepted: bool)
    requires
        mailbox@.wf(),
        !mailbox@.closed,
        mailbox@.skipped > 0,
        mailbox@.live.len() + 1 == mailbox@.capacity,
        call_ensures(Mailbox::forward, (mailbox, event, false), accepted),
    ensures
        final(mailbox)@.backlog() == old(mailbox)@.backlog().push(
            AppServerEvent::Lagged { skipped: old(mailbox)@.skipped },
        ),
        final(mailbox)@.skipped == 1,
{
    assert(final(mailbox)@.backlog() =~= mailbox@.backlog().push(AppServerEvent::Lagged { skipped: mailbox@.skipped }));
}

/// A required event is never lost: it joins the backlog of an open stream,
/// however full that is, after a marker for what was lost before it.
pub proof fn law_required_events_always_join(mailbox: &mut Mailbox, event: AppServerEvent, accepted: bool)
    requires
        mailbox@.wf(),
        !mailbox@.closed,
        call_ensures(Mailbox::forward, (mailbox, event, true), accepted),
    ensures
        accepted,
        final(mailbox)@.backlog() == old(mailbox)@.backlog() + lag_marker(old(mailbox)@.skipped) + seq![event],
        final(mailbox)@.skipped == 0,
{
    assert(final(mailbox)@.backlog() =~= mailbox@.backlog() + lag_marker(mailbox@.skipped) + seq![event]);
}

/// A closed stream refuses every event and stays as it is.
pub proof fn law_closed_streams_refuse(mailbox: &mut Mailbox, event: AppServerEvent, required: bool, accepted: bool)
    requires
        mailbox@.wf(),
        mailbox@.closed,
        call_ensures(Mailbox::forward, (mailbox, event, required), accepted),
    ensures
        !accepted,
        final(mailbox)@ == old(mailbox)@,
{
}

/// A receive gives out the oldest event of the backlog and leaves the others.
/// With nothing left, a closed stream has ended, and an open one waits.
pub proof fn law_receives_give_the_oldest_event(
    mailbox: &mut Mailbox,
    received: Result<AppServerEvent, TryRecvError>,
)
    requires
        mailbox@.wf(),
        call_ensures(Mailbox::try_recv, (mailbox,), received),
    ensures
        old(mailbox)@.backlog().len() > 0 ==> received == Ok::<AppServerEvent, TryRecvError>(
            old(mailbox)@.backlog()[0],
        ) && final(mailbox)@.backlog() == old(mailbox)@.backlog().drop_first(),
        old(mailbox)@.backlog().len() == 0 && old(mailbox)@.closed ==> (received matches Err(error) && error
            is Disconnected),
        old(mailbox)@.backlog().len() == 0 && !old(mailbox)@.closed ==> (received matches Err(error) && error
            is Empty),
        final(mailbox)@.closed == old(mailbox)@.closed,
        final(mailbox)@.skipped == old(mailbox)@.skipped,
        final(mailbox)@.capacity == old(mailbox)@.capacity,
{
    if mailbox@.backlog().len() > 0 {
        assert(final(mailbox)@.backlog() =~= mailbox@.backlog().drop_first());
    }
}

/// The event that ends a stream is its last one, after a marker for what was
/// lost before it.
pub proof fn law_ends_come_last(mailbox: &mut Mailbox, event: AppServerEvent)
    requires
        mailbox@.wf(),
        !mailbox@.closed,
        call_ensures(Mailbox::close, (mailbox, event), ()),
    ensures
        final(mailbox)@.closed,
        final(mailbox)@.backlog() == old(mailbox)@.backlog() + lag_marker(old(mailbox)@.skipped) + seq![event],
        final(mailbox)@.skipped == 0,
{
    assert(final(mailbox)@.backlog() =~= mailbox@.backlog() + lag_marker(mailbox@.skipped) + seq![event]);
}

/// What a stream gives up at a shutdown is the events that wait for room, and
/// nothing else.
pub proof fn law_only_waiting_events_are_given_up(mailbox: &mut Mailbox)
    requires
        mailbox@.wf(),
        call_ensures(Mailbox::abandon, (mailbox,), ()),
    ensures
        final(mailbox)@.waiting.len() == 0,
        final(mailbox)@.backlog() == old(mailbox)@.replay + old(mailbox)@.live + old(mailbox)@.terminal,
        final(mailbox)@.skipped == old(mailbox)@.skipped,
        final(mailbox)@.closed == old(mailbox)@.closed,
{
    assert(final(mailbox)@.backlog() =~= mailbox@.replay + mailbox@.live + mailbox@.terminal);
}

/// The replay buffer keeps up to thirty-two thousand seven hundred and
/// sixty-eight events. A full one loses its oldest event for a new one, and
/// counts it.
pub proof fn law_replay_buffers_keep_the_newest(pending: &mut PendingEvents, event: AppServerEvent)
    requires
        pending@.wf(),
        call_ensures(PendingEvents::push, (pending, event), ()),
    ensures
        old(pending)@.events.len() < 32_768 ==> final(pending)@.events == old(pending)@.events.push(event)
            && final(pending)@.skipped == old(pending)@.skipped,
        old(pending)@.events.len() == 32_768 ==> final(pending)@.events == old(pending)@.events.drop_first().push(event),
        old(pending)@.events.len() == 32_768 && old(pending)@.skipped < usize::MAX ==> final(pending)@.skipped
            == old(pending)@.skipped + 1,
        final(pending)@.events.len() <= 32_768,
{
}

/// What is replayed is the kept events in order, after one marker for the lost
/// ones where there are any.
pub proof fn law_replays_report_what_was_lost(pending: PendingEvents, events: VecDeque<AppServerEvent>)
    requires
        call_ensures(PendingEvents::into_events, (pending,), events),
    ensures
        pending@.skipped == 0 ==> events@ == pending@.events,
        pending@.skipped > 0 ==> events@ == seq![AppServerEvent::Lagged { skipped: pending@.skipped }]
            + pending@.events,
{
    if pending@.skipped == 0 {
        assert(events@ =~= pending@.events);
    }
}

/// A new stream gives out what is to be replayed, has lost nothing, and takes
/// as many live events as it was made for.
pub proof fn law_new_streams_start_with_the_replay(capacity: nat, pending: PendingModel)
    ensures
        ({
            let open = MailboxModel::opened(capacity, pending);
            let ended = MailboxModel::ended(pending);
            &&& open.backlog() == lag_marker(pending.skipped) + pending.events
            &&& ended.backlog() == lag_marker(pending.skipped) + pending.events
            &&& open.capacity == capacity
            &&& open.live.len() == 0
            &&& open.skipped == 0
            &&& ended.skipped == 0
            &&& !open.closed
            &&& ended.closed
        }),
{
    assert(MailboxModel::opened(capacity, pending).backlog() =~= lag_marker(pending.skipped) + pending.events);
    assert(MailboxModel::ended(pending).backlog() =~= lag_marker(pending.skipped) + pending.events);
}

/// A stream gives out what is to be replayed first, then its live events in
/// the order in which they came, then those that wait for room, and last the
/// event that ends it.
pub proof fn law_replayed_events_come_first(mailbox: MailboxModel, i: int)
    ensures
        ({
            let backlog = mailbox.backlog();
            let live = mailbox.replay.len() as int;
            let waiting = live + mailbox.live.len();
            let terminal = waiting + mailbox.waiting.len();
            &&& backlog.len() == terminal + mailbox.terminal.len()
            &&& 0 <= i < mailbox.replay.len() ==> backlog[i] == mailbox.replay[i]
            &&& 0 <= i < mailbox.live.len() ==> backlog[live + i] == mailbox.live[i]
            &&& 0 <= i < mailbox.waiting.len() ==> backlog[waiting + i] == mailbox.waiting[i]
            &&& 0 <= i < mailbox.terminal.len() ==> backlog[terminal + i] == mailbox.terminal[i]
        }),
{
}

} // verus!
