//! The router's operations keep its state in order.
use crate::event::{ends_stream, requires_delivery, AppServerEvent, TargetModel};
use crate::runtime::mailbox::{MailboxModel, PendingModel};
use crate::runtime::route_model::{
    not_to, starting_phase, without, AttachmentPhase, Delivery, OwnerModel, RouterModel, RuntimeRouteModel,
    TerminalSource, ThreadAttachmentKind, ThreadRouteModel, INACTIVE_ROUTE_CAPACITY,
};
use vstd::prelude::*;

verus! {

/// Filtering `id` out of a list keeps everything else, in order.
pub proof fn lemma_without(list: Seq<Seq<char>>, id: Seq<char>)
    ensures
        forall|k: Seq<char>| #[trigger]
            without(list, id).contains(k) <==> list.contains(k) && k != id,
        list.no_duplicates() ==> without(list, id).no_duplicates(),
        without(list, id).len() <= list.len(),
        !list.contains(id) ==> without(list, id) == list,
    decreases list.len(),
{
    reveal(Seq::filter);
    let kept = without(list, id);
    if list.len() > 0 {
        let front = list.drop_last();
        let last = list.last();
        lemma_without(front, id);
        let front_kept = without(front, id);
        assert(list =~= front.push(last));
        assert(kept == if last != id { front_kept.push(last) } else { front_kept });
        assert forall|k: Seq<char>| #[trigger] kept.contains(k) <==> list.contains(k) && k != id by {
            if kept.contains(k) {
                let i = choose|i: int| 0 <= i < kept.len() && kept[i] == k;
                if i < front_kept.len() {
                    assert(front_kept[i] == k);
                    assert(front_kept.contains(k));
                    let j = choose|j: int| 0 <= j < front.len() && front[j] == k;
                    assert(list[j] == k);
                } else {
                    assert(list[list.len() - 1] == k);
                }
            }
            if list.contains(k) && k != id {
                let j = choose|j: int| 0 <= j < list.len() && list[j] == k;
                if j < front.len() {
                    assert(front[j] == k);
                    assert(front_kept.contains(k));
                    let i = choose|i: int| 0 <= i < front_kept.len() && front_kept[i] == k;
                    assert(kept[i] == k);
                } else {
                    assert(kept[kept.len() - 1] == k);
                }
            }
        }
        if list.no_duplicates() {
            assert(front.no_duplicates());
            assert(!front_kept.contains(last)) by {
                if front_kept.contains(last) {
                    assert(front.contains(last));
                    let j = choose|j: int| 0 <= j < front.len() && front[j] == last;
                    assert(list[j] == list[list.len() - 1]);
                }
            }
            assert(kept.no_duplicates()) by {
                assert forall|i: int, j: int| 0 <= i < kept.len() && 0 <= j < kept.len() && i != j implies kept[i]
                    != kept[j] by {
                    if i < front_kept.len() {
                        assert(front_kept.contains(kept[i]));
                    }
                    if j < front_kept.len() {
                        assert(front_kept.contains(kept[j]));
                    }
                }
            }
        }
        if !list.contains(id) {
            assert(!front.contains(id)) by {
                if front.contains(id) {
                    let j = choose|j: int| 0 <= j < front.len() && front[j] == id;
                    assert(list[j] == id);
                }
            }
            assert(list[list.len() - 1] == last);
        }
    } else {
        assert(kept =~= list);
    }
}

/// Placing a route changes nothing but the thread routes, and of those only
/// the placed one and one that nobody owns.
pub proof fn lemma_place_frame(m: RouterModel, id: Seq<char>, route: ThreadRouteModel)
    requires
        m.inactive_wf(),
        !m.closed,
    ensures
        ({
            let p = m.place(id, route);
            &&& p.runtime == m.runtime
            &&& p.next_generation == m.next_generation
            &&& p.closed == m.closed
            &&& p.attachments == m.attachments
            &&& p.blocked == m.blocked
            &&& p.in_flight == m.in_flight
            &&& p.stream_capacity == m.stream_capacity
            &&& p.threads.contains_key(id) && p.threads[id] == route
            &&& forall|k: Seq<char>|
                k != id && #[trigger] p.threads.contains_key(k) ==> m.threads.contains_key(k) && p.threads[k]
                    == m.threads[k]
            &&& forall|k: Seq<char>|
                k != id && #[trigger] m.threads.contains_key(k) && !m.threads[k].is_inactive()
                    ==> p.threads.contains_key(k) && p.threads[k] == m.threads[k]
            &&& p.inactive_wf()
        }),
{
    lemma_without(m.inactive, id);
    let kept = without(m.inactive, id);
    let p = m.place(id, route);
    if route.is_inactive() {
        let inactive = kept.push(id);
        assert forall|k: Seq<char>| #[trigger] inactive.contains(k) <==> kept.contains(k) || k == id by {
            if kept.contains(k) {
                let i = choose|i: int| 0 <= i < kept.len() && kept[i] == k;
                assert(inactive[i] == k);
            }
            if k == id {
                assert(inactive[kept.len() as int] == k);
            }
        }
        assert(inactive.no_duplicates()) by {
            assert forall|i: int, j: int| 0 <= i < inactive.len() && 0 <= j < inactive.len() && i != j implies inactive[i]
                != inactive[j] by {
                if i < kept.len() {
                    assert(kept.contains(inactive[i]));
                }
                if j < kept.len() {
                    assert(kept.contains(inactive[j]));
                }
            }
        }
        if inactive.len() > INACTIVE_ROUTE_CAPACITY {
            let evicted = inactive[0];
            assert(inactive.contains(evicted));
            assert(inactive[kept.len() as int] == id);
            assert(evicted != id);
            assert(kept.contains(evicted));
            let rest = inactive.drop_first();
            assert forall|k: Seq<char>| #[trigger] rest.contains(k) <==> inactive.contains(k) && k != evicted by {
                if rest.contains(k) {
                    let i = choose|i: int| 0 <= i < rest.len() && rest[i] == k;
                    assert(inactive[i + 1] == k);
                }
                if inactive.contains(k) && k != evicted {
                    let i = choose|i: int| 0 <= i < inactive.len() && inactive[i] == k;
                    assert(rest[i - 1] == k);
                }
            }
            assert(rest.no_duplicates());
            assert(p.threads == m.threads.insert(id, route).remove(evicted));
        }
    }
}

/// Placing a route keeps the state in order.
pub proof fn lemma_place(m: RouterModel, id: Seq<char>, route: ThreadRouteModel)
    requires
        m.settled_wf(),
        !m.closed,
        route.wf(),
        route matches ThreadRouteModel::Active { generation, slot, .. } ==> m.serves_well(
            OwnerModel::Thread(id),
            generation,
            slot,
        ),
    ensures
        m.place(id, route).settled_wf(),
{
    lemma_place_frame(m, id, route);
    let p = m.place(id, route);
    assert forall|k: Seq<char>| #[trigger] p.threads.contains_key(k) implies p.thread_wf(k) by {
        if k != id {
            assert(m.thread_wf(k));
        }
    }
    assert forall|slot: usize| #[trigger] p.attachments.contains_key(slot) implies p.attachment_wf(slot) by {
        assert(m.attachment_wf(slot));
    }
}

/// A new attachment keeps the state in order.
pub proof fn lemma_attach(m: RouterModel, slot: usize, owner: OwnerModel, generation: u64, mailbox: MailboxModel)
    requires
        m.settled_wf(),
        !m.attachments.contains_key(slot),
        mailbox.wf(),
        mailbox.waiting.len() == 0,
    ensures
        m.attach(slot, owner, generation, mailbox).settled_wf(),
{
    let a = m.attach(slot, owner, generation, mailbox);
    assert forall|k: Seq<char>| #[trigger] a.threads.contains_key(k) implies a.thread_wf(k) by {
        assert(m.thread_wf(k));
    }
    assert forall|s: usize| #[trigger] a.attachments.contains_key(s) implies a.attachment_wf(s) by {
        if s != slot {
            assert(m.attachment_wf(s));
        }
    }
}

/// Activating a thread keeps the state in order.
pub proof fn lemma_activate(
    m: RouterModel,
    id: Seq<char>,
    pending: PendingModel,
    generation: u64,
    phase: AttachmentPhase,
    slot: usize,
)
    requires
        m.settled_wf(),
        !m.closed,
        !m.attachments.contains_key(slot),
    ensures
        m.activate(id, pending, generation, phase, slot).settled_wf(),
{
    let mailbox = MailboxModel::opened(m.stream_capacity, pending);
    let route = ThreadRouteModel::Active { generation, slot, phase };
    lemma_attach(m, slot, OwnerModel::Thread(id), generation, mailbox);
    let a = m.attach(slot, OwnerModel::Thread(id), generation, mailbox);
    lemma_place(a, id, route);
    assert(m.activate(id, pending, generation, phase, slot) =~= a.place(id, route));
}

/// Reserving a thread keeps the state in order.
pub proof fn lemma_reserve(m: RouterModel, id: Seq<char>, kind: ThreadAttachmentKind)
    requires
        m.wf(),
        !m.closed,
    ensures
        m.reserve(id, kind).wf(),
{
    if m.threads.contains_key(id) {
        assert(m.thread_wf(id));
    }
    let route = ThreadRouteModel::Reserved {
        generation: m.next_generation,
        pending: m.reservable(id),
        phase: starting_phase(kind),
    };
    lemma_place(m, id, route);
    lemma_place_frame(m, id, route);
    lemma_advance(m.place(id, route));
}

/// Using up a generation keeps the state in order.
pub proof fn lemma_advance(m: RouterModel)
    requires
        m.settled_wf(),
    ensures
        m.advance_generation().settled_wf(),
        m.wf() ==> m.advance_generation().wf(),
{
    let a = m.advance_generation();
    assert forall|k: Seq<char>| #[trigger] a.threads.contains_key(k) implies a.thread_wf(k) by {
        assert(m.thread_wf(k));
    }
    assert forall|s: usize| #[trigger] a.attachments.contains_key(s) implies a.attachment_wf(s) by {
        assert(m.attachment_wf(s));
    }
}

/// Taking a thread's stream keeps the state in order.
pub proof fn lemma_take_thread(m: RouterModel, id: Seq<char>, slot: usize)
    requires
        m.wf(),
        !m.closed,
        !m.attachments.contains_key(slot),
    ensures
        m.take_thread(id, slot).wf(),
{
    let generation = m.next_generation;
    if m.threads.contains_key(id) && m.threads[id] is Closed {
        assert(m.thread_wf(id));
        lemma_place(m, id, ThreadRouteModel::Terminated);
        lemma_place_frame(m, id, ThreadRouteModel::Terminated);
        let p = m.place(id, ThreadRouteModel::Terminated);
        let mailbox = MailboxModel::ended(m.threads[id].replayable());
        lemma_attach(p, slot, OwnerModel::Thread(id), generation, mailbox);
        lemma_advance(p.attach(slot, OwnerModel::Thread(id), generation, mailbox));
    } else {
        let pending = m.reservable(id);
        lemma_activate(m, id, pending, generation, AttachmentPhase::Ready, slot);
        lemma_place_frame(m, id, ThreadRouteModel::Active { generation, slot, phase: AttachmentPhase::Ready });
        lemma_advance(m.activate(id, pending, generation, AttachmentPhase::Ready, slot));
    }
}

/// Taking the runtime stream keeps the state in order.
pub proof fn lemma_take_runtime(m: RouterModel, slot: usize)
    requires
        m.wf(),
        m.runtime_is_free(),
        !m.attachments.contains_key(slot),
    ensures
        m.take_runtime(slot).wf(),
{
    let generation = m.next_generation;
    let mailbox = MailboxModel::opened(m.stream_capacity, m.runtime->Pending_0);
    lemma_attach(m, slot, OwnerModel::Runtime, generation, mailbox);
    let a = m.attach(slot, OwnerModel::Runtime, generation, mailbox);
    let r = RouterModel { runtime: RuntimeRouteModel::Active { generation, slot }, ..a };
    assert(m.take_runtime(slot) =~= r.advance_generation());
    assert forall|k: Seq<char>| #[trigger] r.threads.contains_key(k) implies r.thread_wf(k) by {
        assert(a.thread_wf(k));
    }
    assert forall|s: usize| #[trigger] r.attachments.contains_key(s) implies r.attachment_wf(s) by {
        assert(a.attachment_wf(s));
    }
    lemma_advance(r);
}

/// Claiming a reservation keeps the state in order.
pub proof fn lemma_claim(m: RouterModel, id: Seq<char>, generation: u64, slot: usize)
    requires
        m.wf(),
        !m.closed,
        m.holds_reservation(id, generation),
        !m.attachments.contains_key(slot),
    ensures
        m.claim(id, generation, slot).wf(),
{
    let route = m.threads[id];
    lemma_activate(m, id, route->Reserved_pending, generation, route->Reserved_phase, slot);
    lemma_place_frame(
        m,
        id,
        ThreadRouteModel::Active { generation, slot, phase: route->Reserved_phase },
    );
}

/// Taking the owner away from a route keeps the state in order.
pub proof fn lemma_detach_route(m: RouterModel, owner: OwnerModel)
    requires
        m.settled_wf(),
        owner is Thread ==> !m.closed,
    ensures
        m.detach_route(owner).settled_wf(),
        m.detach_route(owner).attachments == m.attachments,
        m.detach_route(owner).blocked == m.blocked,
        m.detach_route(owner).in_flight == m.in_flight,
        m.detach_route(owner).closed == m.closed,
{
    let d = m.detach_route(owner);
    match owner {
        OwnerModel::Runtime => {
            assert forall|k: Seq<char>| #[trigger] d.threads.contains_key(k) implies d.thread_wf(k) by {
                assert(m.thread_wf(k));
            }
            assert forall|s: usize| #[trigger] d.attachments.contains_key(s) implies d.attachment_wf(s) by {
                assert(m.attachment_wf(s));
            }
        },
        OwnerModel::Thread(id) => {
            lemma_place(m, id, ThreadRouteModel::Detached);
            lemma_place_frame(m, id, ThreadRouteModel::Detached);
        },
    }
}

/// An owned thread route is only found while the router is open.
pub proof fn lemma_owned_route_is_open(m: RouterModel, id: Seq<char>)
    requires
        m.settled_wf(),
        m.threads.contains_key(id),
        !m.threads[id].is_inactive(),
    ensures
        !m.closed,
{
    assert(m.thread_wf(id));
}

/// Giving up a reservation keeps the state in order.
pub proof fn lemma_cancel(m: RouterModel, id: Seq<char>, generation: u64)
    requires
        m.wf(),
    ensures
        m.cancel(id, generation).wf(),
{
    if m.holds_reservation(id, generation) {
        lemma_owned_route_is_open(m, id);
        lemma_detach_route(m, OwnerModel::Thread(id));
    }
}

/// Losing an owner keeps the state in order.
pub proof fn lemma_detach(m: RouterModel, owner: OwnerModel, generation: u64)
    requires
        m.settled_wf(),
    ensures
        m.detach(owner, generation).settled_wf(),
        m.wf() ==> m.detach(owner, generation).wf(),
        m.detach(owner, generation).attachments == m.attachments,
        m.detach(owner, generation).blocked == m.blocked,
        m.detach(owner, generation).in_flight == m.in_flight,
{
    if m.is_attached(owner, generation) {
        if owner is Thread {
            lemma_owned_route_is_open(m, owner->Thread_0);
        }
        lemma_detach_route(m, owner);
    }
}

/// A mailbox may change as long as it accepts events for as long as a route
/// relies on it.
pub proof fn lemma_with_mailbox(m: RouterModel, slot: usize, mailbox: MailboxModel, blocked: Option<usize>)
    requires
        m.settled_wf(),
        m.attachments.contains_key(slot),
        mailbox.wf(),
        mailbox.closed ==> m.attachments[slot].mailbox.closed || !m.serves(m.attachments[slot].owner, slot),
        blocked == (if mailbox.waiting.len() > 0 {
            Some(slot)
        } else if m.blocked == Some(slot) {
            None
        } else {
            m.blocked
        }),
        mailbox.waiting.len() > 0 ==> m.blocked is None || m.blocked == Some(slot),
    ensures
        (RouterModel { blocked, ..m.with_mailbox(slot, mailbox) }).settled_wf(),
{
    let w = RouterModel { blocked, ..m.with_mailbox(slot, mailbox) };
    assert forall|k: Seq<char>| #[trigger] w.threads.contains_key(k) implies w.thread_wf(k) by {
        assert(m.thread_wf(k));
    }
    assert forall|s: usize| #[trigger] w.attachments.contains_key(s) implies w.attachment_wf(s) by {
        assert(m.attachment_wf(s));
    }
}

/// Passing an event on keeps the state in order.
pub proof fn lemma_deliver(m: RouterModel, slot: usize, event: AppServerEvent)
    requires
        m.settled_wf(),
        m.blocked is None,
        m.attachments.contains_key(slot),
    ensures
        m.deliver(slot, event).settled_wf(),
        m.deliver(slot, event).in_flight == m.in_flight,
        m.deliver(slot, event).attachments.dom() == m.attachments.dom(),
        m.deliver(slot, event).closed == m.closed,
{
    assert(m.attachment_wf(slot));
    let attachment = m.attachments[slot];
    let mailbox = attachment.mailbox.forward(event, requires_delivery(event));
    let blocked: Option<usize> = if mailbox.waiting.len() > 0 {
        Some(slot)
    } else {
        None
    };
    lemma_with_mailbox(m, slot, mailbox, blocked);
    let passed = RouterModel { blocked, ..m.with_mailbox(slot, mailbox) };
    assert(passed.attachments.dom() =~= m.attachments.dom());
    if attachment.mailbox.closed && passed.serves(attachment.owner, slot) {
        if attachment.owner is Thread {
            lemma_owned_route_is_open(passed, attachment.owner->Thread_0);
        }
        lemma_detach_route(passed, attachment.owner);
    }
}

/// Taking the next delivery out keeps the state in order.
pub proof fn lemma_drop_first(m: RouterModel)
    requires
        m.settled_wf(),
        m.in_flight.len() > 0,
    ensures
        (RouterModel { in_flight: m.in_flight.drop_first(), ..m }).settled_wf(),
        m.attachments.contains_key(m.in_flight[0].slot),
{
    let d = RouterModel { in_flight: m.in_flight.drop_first(), ..m };
    assert forall|k: Seq<char>| #[trigger] d.threads.contains_key(k) implies d.thread_wf(k) by {
        assert(m.thread_wf(k));
    }
    assert forall|s: usize| #[trigger] d.attachments.contains_key(s) implies d.attachment_wf(s) by {
        assert(m.attachment_wf(s));
    }
    assert forall|i: int| 0 <= i < d.in_flight.len() implies d.attachments.contains_key(
        (#[trigger] d.in_flight[i]).slot,
    ) by {
        assert(d.in_flight[i] == m.in_flight[i + 1]);
    }
}

/// Delivering one event does not depend on what is in flight.
pub proof fn lemma_deliver_ignores_in_flight(
    m: RouterModel,
    in_flight: Seq<Delivery>,
    slot: usize,
    event: AppServerEvent,
)
    ensures
        (RouterModel { in_flight, ..m }).deliver(slot, event) == (RouterModel { in_flight, ..m.deliver(slot, event) }),
{
    let with = RouterModel { in_flight, ..m };
    let attachment = m.attachments[slot];
    let mailbox = attachment.mailbox.forward(event, requires_delivery(event));
    let blocked: Option<usize> = if mailbox.waiting.len() > 0 {
        Some(slot)
    } else {
        None
    };
    let passed = RouterModel { blocked, ..m.with_mailbox(slot, mailbox) };
    let passed_with = RouterModel { blocked, ..with.with_mailbox(slot, mailbox) };
    assert(passed_with =~= (RouterModel { in_flight, ..passed }));
    assert(passed_with.detach_active(attachment.owner, slot) =~= (RouterModel {
        in_flight,
        ..passed.detach_active(attachment.owner, slot)
    }));
}

/// The pump leaves the state in order.
pub proof fn lemma_pump(m: RouterModel)
    requires
        m.settled_wf(),
    ensures
        m.pump().wf(),
        m.pump().attachments.dom() == m.attachments.dom(),
        m.pump().closed == m.closed,
    decreases m.in_flight.len(),
{
    if m.blocked is Some || m.in_flight.len() == 0 {
    } else {
        let next = m.in_flight[0];
        lemma_deliver(m, next.slot, next.event);
        let d = m.deliver(next.slot, next.event);
        let rest = RouterModel { in_flight: m.in_flight.drop_first(), ..d };
        assert forall|k: Seq<char>| #[trigger] rest.threads.contains_key(k) implies rest.thread_wf(k) by {
            assert(d.thread_wf(k));
        }
        assert forall|s: usize| #[trigger] rest.attachments.contains_key(s) implies rest.attachment_wf(s) by {
            assert(d.attachment_wf(s));
        }
        assert forall|i: int| 0 <= i < rest.in_flight.len() implies rest.attachments.contains_key(
            (#[trigger] rest.in_flight[i]).slot,
        ) by {
            assert(rest.in_flight[i] == m.in_flight[i + 1]);
            assert(m.attachments.dom().contains(m.in_flight[i + 1].slot));
            assert(d.attachments.dom().contains(m.in_flight[i + 1].slot));
        }
        lemma_pump(rest);
    }
}

/// Passing an event on changes no route.
pub proof fn lemma_deliver_keeps_routes(m: RouterModel, slot: usize, event: AppServerEvent)
    requires
        m.settled_wf(),
        m.attachments.contains_key(slot),
    ensures
        m.deliver(slot, event).threads == m.threads,
        m.deliver(slot, event).runtime == m.runtime,
        m.deliver(slot, event).inactive == m.inactive,
{
    let attachment = m.attachments[slot];
    assert(attachment.mailbox.closed ==> !m.serves(attachment.owner, slot)) by {
        if let OwnerModel::Thread(id) = attachment.owner {
            if m.threads.contains_key(id) {
                assert(m.thread_wf(id));
            }
        }
    }
}

/// Delivering what is in flight changes no route.
pub proof fn lemma_pump_keeps_routes(m: RouterModel)
    requires
        m.settled_wf(),
    ensures
        m.pump().threads == m.threads,
        m.pump().runtime == m.runtime,
        m.pump().inactive == m.inactive,
    decreases m.in_flight.len(),
{
    if m.blocked is None && m.in_flight.len() > 0 {
        let next = m.in_flight[0];
        let queue = m.in_flight.drop_first();
        lemma_drop_first(m);
        lemma_deliver_keeps_routes(m, next.slot, next.event);
        lemma_deliver_ignores_in_flight(m, queue, next.slot, next.event);
        lemma_deliver(RouterModel { in_flight: queue, ..m }, next.slot, next.event);
        lemma_pump_keeps_routes(RouterModel { in_flight: queue, ..m.deliver(next.slot, next.event) });
    }
}

/// Delivering what is in flight neither closes the router nor takes the
/// runtime stream, nor does it free a stream that was taken.
pub proof fn lemma_pump_changes_no_taking(m: RouterModel)
    ensures
        m.pump().closed == m.closed,
        m.runtime is Pending ==> m.pump().runtime == m.runtime,
        !(m.runtime is Pending) ==> !(m.pump().runtime is Pending),
    decreases m.in_flight.len(),
{
    if m.blocked is None && m.in_flight.len() > 0 {
        let next = m.in_flight[0];
        lemma_pump_changes_no_taking(
            RouterModel { in_flight: m.in_flight.drop_first(), ..m.deliver(next.slot, next.event) },
        );
    }
}

/// Receiving neither closes the router nor takes the runtime stream, nor does
/// it free a stream that was taken.
pub proof fn lemma_recv_changes_no_taking(m: RouterModel, slot: usize)
    ensures
        m.recv(slot).closed == m.closed,
        m.runtime is Pending ==> m.recv(slot).runtime == m.runtime,
        !(m.runtime is Pending) ==> !(m.recv(slot).runtime is Pending),
{
    let mailbox = m.attachments[slot].mailbox.after_recv();
    let blocked: Option<usize> = if m.blocked == Some(slot) && mailbox.waiting.len() == 0 {
        None
    } else {
        m.blocked
    };
    lemma_pump_changes_no_taking(RouterModel { blocked, ..m.with_mailbox(slot, mailbox) });
}

/// A change of a thread's route that keeps it with its owner keeps the state
/// in order.
pub proof fn lemma_update_thread(m: RouterModel, id: Seq<char>, route: ThreadRouteModel)
    requires
        m.settled_wf(),
        m.threads.contains_key(id),
        route.wf(),
        route.is_inactive() == m.threads[id].is_inactive(),
        route matches ThreadRouteModel::Active { generation, slot, .. } ==> m.serves_well(
            OwnerModel::Thread(id),
            generation,
            slot,
        ),
    ensures
        (RouterModel { threads: m.threads.insert(id, route), ..m }).settled_wf(),
{
    let u = RouterModel { threads: m.threads.insert(id, route), ..m };
    assert(m.thread_wf(id));
    assert forall|k: Seq<char>| #[trigger] u.threads.contains_key(k) implies u.thread_wf(k) by {
        assert(m.threads.contains_key(k));
        assert(m.thread_wf(k));
    }
    assert forall|s: usize| #[trigger] u.attachments.contains_key(s) implies u.attachment_wf(s) by {
        assert(m.attachment_wf(s));
    }
    assert forall|k: Seq<char>| #[trigger] u.inactive.contains(k) implies u.threads.contains_key(k)
        && u.threads[k].is_inactive() by {
        assert(m.inactive.contains(k));
    }
}

/// A route after an event that does not end it is in order.
pub proof fn lemma_enqueue_route(route: ThreadRouteModel, event: AppServerEvent)
    requires
        route.wf(),
    ensures
        route.enqueue(event).wf(),
        route.enqueue(event).is_inactive() == route.is_inactive(),
        route.enqueue(event).active_slot() == route.active_slot(),
{
}

/// Bringing an event to a thread keeps the state in order.
pub proof fn lemma_enqueue_thread(m: RouterModel, id: Seq<char>, event: AppServerEvent)
    requires
        m.wf(),
        m.blocked is None,
    ensures
        m.enqueue_thread(id, event).wf(),
{
    if !m.closed {
        let fresh = ThreadRouteModel::Pending(PendingModel::empty());
        let known = if m.threads.contains_key(id) {
            m
        } else {
            m.set_inactive(id, fresh)
        };
        if !m.threads.contains_key(id) {
            lemma_place(m, id, fresh);
            lemma_place_frame(m, id, fresh);
        }
        assert(known.thread_wf(id));
        let route = known.threads[id];
        lemma_enqueue_route(route, event);
        lemma_update_thread(known, id, route.enqueue(event));
        let queued = RouterModel { threads: known.threads.insert(id, route.enqueue(event)), ..known };
        if let Some(slot) = route.active_slot() {
            lemma_deliver(queued, slot, event);
        }
    }
}

/// Bringing an event to the runtime stream keeps the state in order.
pub proof fn lemma_enqueue_runtime(m: RouterModel, event: AppServerEvent)
    requires
        m.wf(),
        m.blocked is None,
    ensures
        m.enqueue_runtime(event).wf(),
{
    if !m.closed {
        match m.runtime {
            RuntimeRouteModel::Pending(pending) => {
                let r = m.enqueue_runtime(event);
                assert forall|k: Seq<char>| #[trigger] r.threads.contains_key(k) implies r.thread_wf(k) by {
                    assert(m.thread_wf(k));
                }
                assert forall|s: usize| #[trigger] r.attachments.contains_key(s) implies r.attachment_wf(s) by {
                    assert(m.attachment_wf(s));
                }
            },
            RuntimeRouteModel::Active { slot, .. } => {
                lemma_deliver(m, slot, event);
            },
            RuntimeRouteModel::Detached => {},
        }
    }
}

/// Ending a thread keeps the state in order.
pub proof fn lemma_close_thread(m: RouterModel, id: Seq<char>, event: AppServerEvent, source: TerminalSource)
    requires
        m.wf(),
    ensures
        m.close_thread(id, event, source).wf(),
{
    if !m.closed && m.threads.contains_key(id) {
        assert(m.thread_wf(id));
        let route = m.threads[id];
        let next = route.close_thread(event, source);
        lemma_place(m, id, next);
        lemma_place_frame(m, id, next);
        let settled = m.place(id, next);
        if let Some(slot) = route.ended_slot(event, source) {
            assert(m.attachment_wf(slot));
            let mailbox = m.attachments[slot].mailbox.close(event);
            lemma_with_mailbox(settled, slot, mailbox, settled.blocked);
            let c = RouterModel { blocked: settled.blocked, ..settled.with_mailbox(slot, mailbox) };
            assert(c == m.close_thread(id, event, source));
            assert(c.attachments.dom() =~= m.attachments.dom());
        }
    }
}

/// Ending every route keeps the state in order.
pub proof fn lemma_close(m: RouterModel, event: AppServerEvent)
    requires
        m.wf(),
    ensures
        m.close(event).wf(),
{
    if !m.closed {
        let c = m.close(event);
        assert forall|k: Seq<char>| #[trigger] c.threads.contains_key(k) implies c.thread_wf(k) by {
            assert(m.threads.contains_key(k));
            assert(m.thread_wf(k));
        }
        assert forall|s: usize| #[trigger] c.attachments.contains_key(s) implies c.attachment_wf(s) by {
            assert(m.attachments.contains_key(s));
            assert(m.attachment_wf(s));
        }
        assert forall|k: Seq<char>| #[trigger] c.inactive.contains(k) implies c.threads.contains_key(k)
            && c.threads[k].is_inactive() by {
            assert(m.inactive.contains(k));
            assert(m.threads.contains_key(k));
        }
        assert(c.attachments.dom() =~= m.attachments.dom());
    }
}

/// Every delivery of a broadcast goes to an attachment that serves a route.
pub proof fn lemma_thread_deliveries(m: RouterModel, order: Seq<Seq<char>>, event: AppServerEvent)
    requires
        m.settled_wf(),
        forall|i: int| 0 <= i < order.len() ==> m.threads.contains_key(#[trigger] order[i]),
    ensures
        forall|i: int|
            0 <= i < m.thread_deliveries(order, event).len() ==> m.attachments.contains_key(
                (#[trigger] m.thread_deliveries(order, event)[i]).slot,
            ),
    decreases order.len(),
{
    if order.len() > 0 {
        let front = order.drop_last();
        assert forall|i: int| 0 <= i < front.len() implies m.threads.contains_key(#[trigger] front[i]) by {
            assert(front[i] == order[i]);
        }
        lemma_thread_deliveries(m, front, event);
        assert(m.threads.contains_key(order[order.len() - 1]));
        assert(m.thread_wf(order.last()));
    }
}

/// Putting the marker for lost events on its way keeps the state in order.
pub proof fn lemma_start_lag(m: RouterModel, order: Seq<Seq<char>>, skipped: usize)
    requires
        m.wf(),
        m.blocked is None,
        m.lists_threads(order),
        !m.closed,
    ensures
        m.start_lag(order, skipped).settled_wf(),
{
    let event = AppServerEvent::Lagged { skipped };
    let b = m.start_lag(order, skipped);
    assert forall|i: int| 0 <= i < order.len() implies m.threads.contains_key(#[trigger] order[i]) by {
        assert(order.contains(order[i]));
    }
    lemma_thread_deliveries(m, order, event);
    assert forall|k: Seq<char>| #[trigger] b.threads.contains_key(k) implies b.thread_wf(k) by {
        assert(m.threads.contains_key(k));
        assert(m.thread_wf(k));
        lemma_enqueue_route(m.threads[k], event);
    }
    assert forall|s: usize| #[trigger] b.attachments.contains_key(s) implies b.attachment_wf(s) by {
        assert(m.attachment_wf(s));
    }
    assert forall|k: Seq<char>| #[trigger] b.inactive.contains(k) implies b.threads.contains_key(k)
        && b.threads[k].is_inactive() by {
        assert(m.inactive.contains(k));
        assert(m.threads.contains_key(k));
        assert(m.thread_wf(k));
        lemma_enqueue_route(m.threads[k], event);
    }
    assert forall|k: Seq<char>|
        #[trigger] b.threads.contains_key(k) && b.threads[k].is_inactive() implies b.inactive.contains(k) by {
        assert(m.threads.contains_key(k));
        assert(m.thread_wf(k));
        lemma_enqueue_route(m.threads[k], event);
    }
    assert(b.in_flight_wf()) by {
        assert forall|i: int| 0 <= i < b.in_flight.len() implies b.attachments.contains_key(
            (#[trigger] b.in_flight[i]).slot,
        ) by {
            let first = m.runtime_delivery(event).len();
            if i >= first {
                assert(b.in_flight[i] == m.thread_deliveries(order, event)[i - first]);
            }
        }
    }
}

/// Reporting lost events to every route keeps the state in order.
pub proof fn lemma_broadcast_lag(m: RouterModel, order: Seq<Seq<char>>, skipped: usize)
    requires
        m.wf(),
        m.blocked is None,
        m.lists_threads(order),
    ensures
        m.broadcast_lag(order, skipped).wf(),
{
    if !m.closed {
        lemma_start_lag(m, order, skipped);
        lemma_pump(m.start_lag(order, skipped));
    }
}

/// Receiving keeps the state in order.
pub proof fn lemma_recv(m: RouterModel, slot: usize)
    requires
        m.wf(),
    ensures
        m.recv(slot).wf(),
{
    if m.attachments.contains_key(slot) {
        assert(m.attachment_wf(slot));
        let before = m.attachments[slot].mailbox;
        let mailbox = before.after_recv();
        let blocked: Option<usize> = if m.blocked == Some(slot) && mailbox.waiting.len() == 0 {
            None
        } else {
            m.blocked
        };
        lemma_with_mailbox(m, slot, mailbox, blocked);
        lemma_pump(RouterModel { blocked, ..m.with_mailbox(slot, mailbox) });
    }
}

/// What is left of a delivery queue after the deliveries to one attachment
/// were dropped.
pub proof fn lemma_filter_deliveries(queue: Seq<Delivery>, slot: usize)
    ensures
        forall|i: int|
            0 <= i < not_to(queue, slot).len() ==> queue.contains(
                #[trigger] not_to(queue, slot)[i],
            ) && not_to(queue, slot)[i].slot != slot,
    decreases queue.len(),
{
    reveal(Seq::filter);
    if queue.len() > 0 {
        let front = queue.drop_last();
        lemma_filter_deliveries(front, slot);
        assert forall|i: int| 0 <= i < not_to(queue, slot).len() implies queue.contains(
            #[trigger] not_to(queue, slot)[i],
        ) && not_to(queue, slot)[i].slot != slot by {
            let kept = not_to(front, slot);
            if i < kept.len() {
                assert(not_to(queue, slot)[i] == kept[i]);
                assert(front.contains(kept[i]));
                let j = choose|j: int| 0 <= j < front.len() && front[j] == kept[i];
                assert(queue[j] == kept[i]);
            } else {
                assert(queue[queue.len() - 1] == queue.last());
            }
        }
    }
}

/// Taking an attachment away keeps the state in order.
pub proof fn lemma_dismantle(m: RouterModel, slot: usize)
    requires
        m.wf(),
        m.attachments.contains_key(slot),
    ensures
        m.dismantle(slot).settled_wf(),
{
    let attachment = m.attachments[slot];
    let d = m.detach(attachment.owner, attachment.generation);
    lemma_detach(m, attachment.owner, attachment.generation);
    let blocked: Option<usize> = if m.blocked == Some(slot) {
        None
    } else {
        m.blocked
    };
    let r = RouterModel {
        attachments: d.attachments.remove(slot),
        blocked,
        in_flight: not_to(m.in_flight, slot),
        ..d
    };
    assert(!d.serves(attachment.owner, slot)) by {
        match attachment.owner {
            OwnerModel::Runtime => {},
            OwnerModel::Thread(id) => {
                if m.threads.contains_key(id) {
                    assert(m.thread_wf(id));
                }
                if m.is_attached(attachment.owner, attachment.generation) {
                    lemma_owned_route_is_open(m, id);
                    lemma_place_frame(m, id, ThreadRouteModel::Detached);
                }
            },
        }
    }
    assert forall|k: Seq<char>| #[trigger] r.threads.contains_key(k) implies r.thread_wf(k) by {
        assert(d.thread_wf(k));
    }
    assert forall|s: usize| #[trigger] r.attachments.contains_key(s) implies r.attachment_wf(s) by {
        assert(d.attachment_wf(s));
    }
    lemma_filter_deliveries(m.in_flight, slot);
    assert(r.in_flight_wf()) by {
        assert forall|i: int| 0 <= i < r.in_flight.len() implies r.attachments.contains_key(
            (#[trigger] r.in_flight[i]).slot,
        ) by {
            assert(m.in_flight.contains(r.in_flight[i]));
            let j = choose|j: int| 0 <= j < m.in_flight.len() && m.in_flight[j] == r.in_flight[i];
            assert(m.attachments.contains_key(m.in_flight[j].slot));
        }
    }
    assert(r == m.dismantle(slot));
}

/// Ending an attachment keeps the state in order.
pub proof fn lemma_release(m: RouterModel, slot: usize)
    requires
        m.wf(),
    ensures
        m.release(slot).wf(),
{
    if m.attachments.contains_key(slot) {
        lemma_dismantle(m, slot);
        lemma_pump(m.dismantle(slot));
    }
}

/// Giving up what has not been delivered keeps the state in order.
pub proof fn lemma_abandon(m: RouterModel)
    requires
        m.wf(),
    ensures
        m.abandon().wf(),
{
    if let Some(slot) = m.blocked {
        assert(m.attachment_wf(slot));
        let mailbox = m.attachments[slot].mailbox.abandon();
        lemma_with_mailbox(m, slot, mailbox, None);
        let w = RouterModel { blocked: None, ..m.with_mailbox(slot, mailbox) };
        let a = m.abandon();
        assert forall|k: Seq<char>| #[trigger] a.threads.contains_key(k) implies a.thread_wf(k) by {
            assert(w.thread_wf(k));
        }
        assert forall|s: usize| #[trigger] a.attachments.contains_key(s) implies a.attachment_wf(s) by {
            assert(w.attachment_wf(s));
        }
    }
}

/// Looking for a reservation in vain keeps the state in order.
pub proof fn lemma_touch(m: RouterModel, id: Seq<char>)
    requires
        m.wf(),
    ensures
        m.touch(id).wf(),
{
    if !m.closed && m.threads.contains_key(id) {
        assert(m.thread_wf(id));
        lemma_place(m, id, m.threads[id]);
        lemma_place_frame(m, id, m.threads[id]);
    }
}

} // verus!
