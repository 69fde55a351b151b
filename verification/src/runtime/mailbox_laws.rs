//! What every stream can rely on.
use crate::event::AppServerEvent;
use crate::runtime::mailbox::{
    count_one, lag_marker, MailboxModel, PendingModel, TryRecvError, PENDING_EVENT_CAPACITY,
};
use vstd::prelude::*;

verus! {

/// A stream gives its backlog out one by one and in order.
pub proof fn law_receives_in_order(mailbox: MailboxModel)
    requires
        mailbox.wf(),
        mailbox.backlog().len() > 0,
    ensures
        mailbox.received() == Ok::<AppServerEvent, TryRecvError>(mailbox.backlog()[0]),
        mailbox.after_recv().backlog() == mailbox.backlog().drop_first(),
        mailbox.after_recv().wf(),
{
    assert(mailbox.after_recv().backlog() =~= mailbox.backlog().drop_first());
}

/// A stream after `count` receives.
pub open spec fn received_from(mailbox: MailboxModel, count: nat) -> MailboxModel
    decreases count,
{
    if count == 0 {
        mailbox
    } else {
        received_from(mailbox, (count - 1) as nat).after_recv()
    }
}

/// The event at every place of the backlog is what that many receives later
/// comes out, whatever else is in the stream.
pub proof fn law_every_event_of_the_backlog_comes_out(mailbox: MailboxModel, place: nat)
    requires
        mailbox.wf(),
        place < mailbox.backlog().len(),
    ensures
        received_from(mailbox, place).received() == Ok::<AppServerEvent, TryRecvError>(mailbox.backlog()[place as int]),
        received_from(mailbox, place).backlog() == mailbox.backlog().skip(place as int),
        received_from(mailbox, place).wf(),
    decreases place,
{
    if place == 0 {
        assert(mailbox.backlog().skip(0) =~= mailbox.backlog());
    } else {
        let before = received_from(mailbox, (place - 1) as nat);
        law_every_event_of_the_backlog_comes_out(mailbox, (place - 1) as nat);
        law_receives_in_order(before);
        assert(mailbox.backlog().skip(place - 1).drop_first() =~= mailbox.backlog().skip(place as int));
    }
}

/// A closed stream whose backlog is empty has ended for good, and one that is
/// not closed only has nothing yet.
pub proof fn law_ends_after_the_backlog(mailbox: MailboxModel)
    requires
        mailbox.wf(),
        mailbox.backlog().len() == 0,
    ensures
        mailbox.closed ==> mailbox.received() == Err::<AppServerEvent, TryRecvError>(TryRecvError::Disconnected),
        !mailbox.closed ==> mailbox.received() == Err::<AppServerEvent, TryRecvError>(TryRecvError::Empty),
        mailbox.after_recv() == mailbox,
{
}

/// A required event is never lost: it joins the backlog of an open stream,
/// after a marker for what was lost before it.
pub proof fn law_required_events_are_kept(mailbox: MailboxModel, event: AppServerEvent)
    requires
        mailbox.wf(),
        !mailbox.closed,
    ensures
        mailbox.forward(event, true).backlog() == mailbox.backlog() + lag_marker(mailbox.skipped) + seq![event],
        mailbox.forward(event, true).skipped == 0,
{
    assert(mailbox.forward(event, true).backlog() =~= mailbox.backlog() + lag_marker(mailbox.skipped) + seq![event]);
}

/// Of a best-effort event an open stream keeps the event, or only the marker
/// for what was lost before it, or nothing. What it loses it counts.
pub proof fn law_lost_events_are_counted(mailbox: MailboxModel, event: AppServerEvent)
    requires
        mailbox.wf(),
        !mailbox.closed,
    ensures
        ({
            let after = mailbox.forward(event, false);
            let marker = lag_marker(mailbox.skipped);
            ||| after.backlog() == mailbox.backlog() + marker + seq![event] && after.skipped == 0
            ||| after.backlog() == mailbox.backlog() + marker && marker.len() == 1 && after.skipped == 1
            ||| after.backlog() == mailbox.backlog() && after.skipped == count_one(mailbox.skipped)
        }),
{
    let after = mailbox.forward(event, false);
    let marker = lag_marker(mailbox.skipped);
    assert(after.backlog() =~= mailbox.backlog() + marker + seq![event] || after.backlog() =~= mailbox.backlog()
        + marker || after.backlog() =~= mailbox.backlog());
}

/// An event that a stream is to pass on.
pub struct Offer {
    pub event: AppServerEvent,
    pub required: bool,
}

/// What happens to a stream that stays open.
pub enum StreamStep {
    /// An event is passed on.
    Forward(Offer),
    /// The owner of the stream asks for an event.
    Receive,
}

/// A stream after `steps`.
pub open spec fn streamed(mailbox: MailboxModel, steps: Seq<StreamStep>) -> MailboxModel
    decreases steps.len(),
{
    if steps.len() == 0 {
        mailbox
    } else {
        let before = streamed(mailbox, steps.drop_last());
        match steps.last() {
            StreamStep::Forward(offer) => before.forward(offer.event, offer.required),
            StreamStep::Receive => before.after_recv(),
        }
    }
}

/// What a stream has given out in the course of `steps`.
pub open spec fn given_out(mailbox: MailboxModel, steps: Seq<StreamStep>) -> Seq<AppServerEvent>
    decreases steps.len(),
{
    if steps.len() == 0 {
        Seq::empty()
    } else {
        let before = given_out(mailbox, steps.drop_last());
        match steps.last() {
            StreamStep::Forward(_) => before,
            StreamStep::Receive => match streamed(mailbox, steps.drop_last()).received() {
                Ok(event) => before.push(event),
                Err(_) => before,
            },
        }
    }
}

/// The events that were to be passed on in the course of `steps`.
pub open spec fn offered(steps: Seq<StreamStep>) -> Seq<Offer>
    decreases steps.len(),
{
    if steps.len() == 0 {
        Seq::empty()
    } else {
        let before = offered(steps.drop_last());
        match steps.last() {
            StreamStep::Forward(offer) => before.push(offer),
            StreamStep::Receive => before,
        }
    }
}

/// Where something that a stream gives out comes from.
pub enum Entry {
    /// It is the event that was offered at the place `place`.
    Kept { place: int, offer: Offer },
    /// It is a marker for lost events.
    Marker { skipped: usize },
}

impl Entry {
    /// What the stream gives out.
    pub open spec fn event(self) -> AppServerEvent {
        match self {
            Entry::Kept { offer, .. } => offer.event,
            Entry::Marker { skipped } => AppServerEvent::Lagged { skipped },
        }
    }
}

/// What a stream gives out according to `entries`.
pub open spec fn told(entries: Seq<Entry>) -> Seq<AppServerEvent> {
    entries.map_values(|entry: Entry| entry.event())
}

/// How many offered events are among `entries`.
pub open spec fn kept(entries: Seq<Entry>) -> nat
    decreases entries.len(),
{
    if entries.len() == 0 {
        0
    } else if entries.last() is Kept {
        kept(entries.drop_last()) + 1
    } else {
        kept(entries.drop_last())
    }
}

/// How many offered events that are not required are among `entries`.
pub open spec fn kept_best_effort(entries: Seq<Entry>) -> nat
    decreases entries.len(),
{
    if entries.len() == 0 {
        0
    } else if entries.last() is Kept && !entries.last()->Kept_offer.required {
        kept_best_effort(entries.drop_last()) + 1
    } else {
        kept_best_effort(entries.drop_last())
    }
}

/// How many lost events the markers among `entries` report.
pub open spec fn reported(entries: Seq<Entry>) -> nat
    decreases entries.len(),
{
    if entries.len() == 0 {
        0
    } else {
        reported(entries.drop_last()) + match entries.last() {
            Entry::Kept { .. } => 0,
            Entry::Marker { skipped } => skipped as nat,
        }
    }
}

/// How many of `offers` are not required.
pub open spec fn best_effort(offers: Seq<Offer>) -> nat
    decreases offers.len(),
{
    if offers.len() == 0 {
        0
    } else if offers.last().required {
        best_effort(offers.drop_last())
    } else {
        best_effort(offers.drop_last()) + 1
    }
}

/// The entry at `at` is in order: an offered event is the one of its place,
/// and the markers before it report exactly what was lost before it.
pub open spec fn entry_fits(entries: Seq<Entry>, offers: Seq<Offer>, at: int) -> bool {
    match entries[at] {
        Entry::Kept { place, offer } => 0 <= place < offers.len() && offers[place] == offer && kept(entries.take(at))
            + reported(entries.take(at)) == place,
        Entry::Marker { skipped } => skipped > 0,
    }
}

/// `entries` is what becomes of `offers` where `unreported` lost events are
/// still to be reported: every entry is in order, offered events keep their
/// order, no required one is missing, and every other one is kept, reported
/// as lost, or still to be reported.
pub open spec fn accounts_for(entries: Seq<Entry>, offers: Seq<Offer>, unreported: usize) -> bool {
    &&& forall|at: int| 0 <= at < entries.len() ==> #[trigger] entry_fits(entries, offers, at)
    &&& forall|at: int, later: int|
        #![trigger entries[at], entries[later]]
        0 <= at < later < entries.len() && entries[at] is Kept && entries[later] is Kept ==> entries[at]->Kept_place
            < entries[later]->Kept_place
    &&& forall|place: int|
        #![trigger offers[place]]
        0 <= place < offers.len() && offers[place].required ==> entries.contains(
            Entry::Kept { place, offer: offers[place] },
        )
    &&& best_effort(offers) == kept_best_effort(entries) + reported(entries) + unreported
    &&& offers.len() == kept(entries) + reported(entries) + unreported
}

/// A marker can join an account.
proof fn lemma_account_marker(entries: Seq<Entry>, offers: Seq<Offer>, unreported: usize)
    requires
        accounts_for(entries, offers, unreported),
        unreported > 0,
    ensures
        accounts_for(entries.push(Entry::Marker { skipped: unreported }), offers, 0),
        told(entries.push(Entry::Marker { skipped: unreported })) == told(entries).push(
            AppServerEvent::Lagged { skipped: unreported },
        ),
{
    let entry = Entry::Marker { skipped: unreported };
    let longer = entries.push(entry);
    lemma_account_grows(entries, offers, offers, entry);
    assert(told(longer) =~= told(entries).push(AppServerEvent::Lagged { skipped: unreported }));
}

/// What an account says of its entries and of the required events stays true
/// when it grows.
proof fn lemma_account_grows(entries: Seq<Entry>, offers: Seq<Offer>, more: Seq<Offer>, entry: Entry)
    requires
        forall|at: int| 0 <= at < entries.len() ==> #[trigger] entry_fits(entries, offers, at),
        forall|place: int|
            #![trigger offers[place]]
            0 <= place < offers.len() && offers[place].required ==> entries.contains(
                Entry::Kept { place, offer: offers[place] },
            ),
        offers.len() <= more.len(),
        forall|place: int| 0 <= place < offers.len() ==> more[place] == #[trigger] offers[place],
    ensures
        ({
            let longer = entries.push(entry);
            &&& longer.drop_last() == entries
            &&& longer.take(entries.len() as int) == entries
            &&& forall|at: int| 0 <= at < entries.len() ==> #[trigger] entry_fits(longer, more, at)
            &&& forall|place: int|
                #![trigger more[place]]
                0 <= place < offers.len() && more[place].required ==> longer.contains(
                    Entry::Kept { place, offer: more[place] },
                )
        }),
{
    let longer = entries.push(entry);
    assert(longer.drop_last() =~= entries);
    assert(longer.take(entries.len() as int) =~= entries);
    assert forall|at: int| 0 <= at < entries.len() implies #[trigger] entry_fits(longer, more, at) by {
        assert(entry_fits(entries, offers, at));
        assert(longer.take(at) =~= entries.take(at));
        assert(longer[at] == entries[at]);
    }
    assert forall|place: int|
        #![trigger more[place]]
        0 <= place < offers.len() && more[place].required implies longer.contains(
        Entry::Kept { place, offer: more[place] },
    ) by {
        assert(more[place] == offers[place]);
        let wanted = Entry::Kept { place, offer: offers[place] };
        let at = choose|at: int| 0 <= at < entries.len() && entries[at] == wanted;
        assert(longer[at] == wanted);
    }
}

/// An offered event can join an account that has reported every loss.
proof fn lemma_account_kept(entries: Seq<Entry>, offers: Seq<Offer>, offer: Offer)
    requires
        accounts_for(entries, offers, 0),
    ensures
        ({
            let entry = Entry::Kept { place: offers.len() as int, offer };
            &&& accounts_for(entries.push(entry), offers.push(offer), 0)
            &&& told(entries.push(entry)) == told(entries).push(offer.event)
        }),
{
    let entry = Entry::Kept { place: offers.len() as int, offer };
    let longer = entries.push(entry);
    let more = offers.push(offer);
    lemma_account_grows(entries, offers, more, entry);
    assert(more.drop_last() =~= offers);
    assert(longer[entries.len() as int] == entry);
    assert(more[offers.len() as int] == offer);
    assert(entry_fits(longer, more, entries.len() as int));
    assert forall|at: int, later: int|
        #![trigger longer[at], longer[later]]
        0 <= at < later < longer.len() && longer[at] is Kept && longer[later] is Kept implies longer[at]->Kept_place
        < longer[later]->Kept_place by {
        assert(entries[at] == longer[at]);
        assert(entry_fits(entries, offers, at));
        if later < entries.len() {
            assert(entries[later] == longer[later]);
        }
    }
    assert(told(longer) =~= told(entries).push(offer.event));
}

/// An account stays right when an event is lost.
proof fn lemma_account_lost(entries: Seq<Entry>, offers: Seq<Offer>, unreported: usize, offer: Offer)
    requires
        accounts_for(entries, offers, unreported),
        !offer.required,
        offers.len() < usize::MAX,
    ensures
        accounts_for(entries, offers.push(offer), count_one(unreported)),
{
    let more = offers.push(offer);
    assert(more.drop_last() =~= offers);
    assert forall|at: int| 0 <= at < entries.len() implies #[trigger] entry_fits(entries, more, at) by {
        assert(entry_fits(entries, offers, at));
    }
    assert forall|place: int|
        #![trigger more[place]]
        0 <= place < more.len() && more[place].required implies entries.contains(
        Entry::Kept { place, offer: more[place] },
    ) by {
        assert(more[place] == offers[place]);
    }
}

/// What was given out and what is still to be given is what was held at the
/// start and then what `entries` say.
spec fn agrees(
    entries: Seq<Entry>,
    start: Seq<AppServerEvent>,
    given: Seq<AppServerEvent>,
    backlog: Seq<AppServerEvent>,
) -> bool {
    given + backlog == start + told(entries)
}

/// An account can be carried on when the stream passes an event on.
#[verifier::rlimit(40)]
proof fn lemma_account_forward(
    before: MailboxModel,
    entries: Seq<Entry>,
    offers: Seq<Offer>,
    offer: Offer,
    start: Seq<AppServerEvent>,
    given: Seq<AppServerEvent>,
) -> (longer: Seq<Entry>)
    requires
        before.wf(),
        !before.closed,
        accounts_for(entries, offers, before.skipped),
        agrees(entries, start, given, before.backlog()),
        offers.len() < usize::MAX,
    ensures
        accounts_for(longer, offers.push(offer), before.forward(offer.event, offer.required).skipped),
        agrees(longer, start, given, before.forward(offer.event, offer.required).backlog()),
{
    let after = before.forward(offer.event, offer.required);
    let marker = lag_marker(before.skipped);
    let marked = if before.skipped > 0 {
        entries.push(Entry::Marker { skipped: before.skipped })
    } else {
        entries
    };
    if before.skipped > 0 {
        lemma_account_marker(entries, offers, before.skipped);
    }
    assert(told(marked) =~= told(entries) + marker);
    lemma_account_kept(marked, offers, offer);
    let longer = marked.push(Entry::Kept { place: offers.len() as int, offer });
    if offer.required {
        law_required_events_are_kept(before, offer.event);
    } else {
        law_lost_events_are_counted(before, offer.event);
        lemma_account_lost(entries, offers, before.skipped, offer);
        lemma_account_lost(marked, offers, 0, offer);
    }
    let full = before.backlog() + marker + seq![offer.event];
    if after.backlog() == full && after.skipped == 0 {
        assert(given + full =~= (given + before.backlog()) + marker + seq![offer.event]);
        assert(start + told(longer) =~= (start + told(entries)) + marker + seq![offer.event]);
        longer
    } else if after.backlog() == before.backlog() + marker && marker.len() == 1 && after.skipped == 1 {
        assert(given + (before.backlog() + marker) =~= (given + before.backlog()) + marker);
        assert(start + told(marked) =~= (start + told(entries)) + marker);
        marked
    } else {
        entries
    }
}

/// Passing an event on keeps an open stream open and in order.
proof fn lemma_forward(mailbox: MailboxModel, event: AppServerEvent, required: bool)
    requires
        mailbox.wf(),
        !mailbox.closed,
    ensures
        mailbox.forward(event, required).wf(),
        !mailbox.forward(event, required).closed,
{
}

/// A stream that stays open takes every event that is passed on, whatever its
/// owner receives in between. What it gives out in the course of `steps`, and
/// what it has still to give, is what it held at the start and then the
/// offered events in their order, with markers between them. It loses no
/// required event. Of the others it keeps an event, reports it in a marker, or
/// has still to report it, and each marker stands before the first event that
/// is given out after the losses it reports.
pub proof fn law_open_streams_account_for_every_event(mailbox: MailboxModel, steps: Seq<StreamStep>)
    requires
        mailbox.wf(),
        !mailbox.closed,
        mailbox.skipped == 0,
        offered(steps).len() <= usize::MAX,
    ensures
        streamed(mailbox, steps).wf(),
        !streamed(mailbox, steps).closed,
        exists|entries: Seq<Entry>| #[trigger]
            accounts_for(entries, offered(steps), streamed(mailbox, steps).skipped) && given_out(mailbox, steps)
                + streamed(mailbox, steps).backlog() == mailbox.backlog() + told(entries),
{
    let entries = lemma_account(mailbox, steps);
}

proof fn lemma_account(mailbox: MailboxModel, steps: Seq<StreamStep>) -> (entries: Seq<Entry>)
    requires
        mailbox.wf(),
        !mailbox.closed,
        mailbox.skipped == 0,
        offered(steps).len() <= usize::MAX,
    ensures
        streamed(mailbox, steps).wf(),
        !streamed(mailbox, steps).closed,
        accounts_for(entries, offered(steps), streamed(mailbox, steps).skipped),
        agrees(entries, mailbox.backlog(), given_out(mailbox, steps), streamed(mailbox, steps).backlog()),
    decreases steps.len(),
{
    let start = mailbox.backlog();
    if steps.len() == 0 {
        let entries = Seq::<Entry>::empty();
        assert(Seq::<AppServerEvent>::empty() + start =~= start + told(entries));
        entries
    } else {
        let earlier = steps.drop_last();
        let entries = lemma_account(mailbox, earlier);
        let before = streamed(mailbox, earlier);
        let given = given_out(mailbox, earlier);
        match steps.last() {
            StreamStep::Receive => {
                if before.backlog().len() > 0 {
                    law_receives_in_order(before);
                    let first = before.backlog()[0];
                    assert(given.push(first) + before.backlog().drop_first() =~= given + before.backlog());
                } else {
                    law_ends_after_the_backlog(before);
                }
                entries
            },
            StreamStep::Forward(offer) => {
                lemma_forward(before, offer.event, offer.required);
                lemma_account_forward(before, entries, offered(earlier), offer, start, given)
            },
        }
    }
}

/// The event that ends a stream is its last one, however full the live queue
/// is, and everything before it is still given out first.
pub proof fn law_terminal_event_is_last(mailbox: MailboxModel, event: AppServerEvent)
    requires
        mailbox.wf(),
        !mailbox.closed,
    ensures
        mailbox.close(event).backlog() == mailbox.backlog() + lag_marker(mailbox.skipped) + seq![event],
        mailbox.close(event).closed,
        mailbox.close(event).wf(),
{
    assert(mailbox.close(event).backlog() =~= mailbox.backlog() + lag_marker(mailbox.skipped) + seq![event]);
}

/// A closed stream takes nothing more in.
pub proof fn law_closed_streams_stay_as_they_are(mailbox: MailboxModel, event: AppServerEvent, required: bool)
    requires
        mailbox.closed,
    ensures
        mailbox.forward(event, required) == mailbox,
        mailbox.close(event) == mailbox,
{
}

/// A new stream starts with what is to be replayed.
pub proof fn law_opened_streams_replay(capacity: nat, pending: PendingModel)
    ensures
        MailboxModel::opened(capacity, pending).backlog() == pending.replay(),
        MailboxModel::ended(pending).backlog() == pending.replay(),
{
    assert(MailboxModel::opened(capacity, pending).backlog() =~= pending.replay());
    assert(MailboxModel::ended(pending).backlog() =~= pending.replay());
}

/// The replay buffer `pending` after `events` were put in, one after the
/// other.
pub open spec fn pushed_onto(pending: PendingModel, events: Seq<AppServerEvent>) -> PendingModel
    decreases events.len(),
{
    if events.len() == 0 {
        pending
    } else {
        pushed_onto(pending, events.drop_last()).push(events.last())
    }
}

/// A replay buffer after `events` were put in, one after the other.
pub open spec fn pushed_all(events: Seq<AppServerEvent>) -> PendingModel {
    pushed_onto(PendingModel::empty(), events)
}

/// A replay buffer does not depend on when its events came.
pub proof fn law_replay_goes_on(pending: PendingModel, first: Seq<AppServerEvent>, second: Seq<AppServerEvent>)
    ensures
        pushed_onto(pushed_onto(pending, first), second) == pushed_onto(pending, first + second),
    decreases second.len(),
{
    if second.len() == 0 {
        assert(first + second =~= first);
    } else {
        law_replay_goes_on(pending, first, second.drop_last());
        assert((first + second).drop_last() =~= first + second.drop_last());
    }
}

/// A replay buffer keeps the newest events in order and counts the others.
pub proof fn law_replay_keeps_the_newest(events: Seq<AppServerEvent>)
    ensures
        events.len() <= PENDING_EVENT_CAPACITY ==> pushed_all(events).replay() == events,
        events.len() > PENDING_EVENT_CAPACITY ==> {
            let lost = events.len() - PENDING_EVENT_CAPACITY;
            pushed_all(events).replay() == seq![
                AppServerEvent::Lagged { skipped: if lost > usize::MAX { usize::MAX } else { lost as usize } },
            ] + events.skip(lost)
        },
{
    lemma_pushed_all(events);
    if events.len() <= PENDING_EVENT_CAPACITY {
        assert(pushed_all(events).replay() =~= events);
    }
}

proof fn lemma_pushed_all(events: Seq<AppServerEvent>)
    ensures
        events.len() <= PENDING_EVENT_CAPACITY ==> pushed_all(events).events == events && pushed_all(events).skipped
            == 0,
        events.len() > PENDING_EVENT_CAPACITY ==> {
            let lost = events.len() - PENDING_EVENT_CAPACITY;
            &&& pushed_all(events).events == events.skip(lost)
            &&& pushed_all(events).skipped == (if lost > usize::MAX { usize::MAX as int } else { lost })
        },
    decreases events.len(),
{
    if events.len() > 0 {
        let front = events.drop_last();
        lemma_pushed_all(front);
        assert(front.push(events.last()) =~= events);
        if events.len() > PENDING_EVENT_CAPACITY {
            let lost = events.len() - PENDING_EVENT_CAPACITY;
            if front.len() > PENDING_EVENT_CAPACITY {
                assert(front.skip(lost - 1).drop_first().push(events.last()) =~= events.skip(lost));
            } else {
                assert(front.drop_first().push(events.last()) =~= events.skip(lost));
            }
        }
    }
}

} // verus!
