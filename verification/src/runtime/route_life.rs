//! What holds over the whole life of a router, whatever steps it is made of.
use crate::event::{ends_stream, requires_delivery, AppServerEvent, TargetModel};
use crate::runtime::mailbox::{PendingModel, PENDING_EVENT_CAPACITY};
use crate::runtime::mailbox_laws::{
    law_opened_streams_replay, law_replay_goes_on, law_replay_keeps_the_newest, pushed_all, pushed_onto,
};
use crate::runtime::route_laws::{
    law_claims_replay_early_events, law_owned_threads_receive_their_events, law_reservations_keep_early_events,
};
use crate::runtime::route_lemmas::{
    lemma_abandon, lemma_broadcast_lag, lemma_cancel, lemma_claim, lemma_close, lemma_close_thread,
    lemma_deliver_keeps_routes, lemma_dismantle, lemma_enqueue_route, lemma_enqueue_runtime, lemma_enqueue_thread,
    lemma_owned_route_is_open, lemma_place_frame, lemma_pump_changes_no_taking, lemma_pump_keeps_routes,
    lemma_recv, lemma_recv_changes_no_taking, lemma_release, lemma_reserve, lemma_start_lag, lemma_take_runtime,
    lemma_take_thread, lemma_touch, lemma_update_thread, lemma_with_mailbox, lemma_without,
};
use crate::runtime::route_model::{
    starting_phase, without, AttachmentPhase, OwnerModel, RouterModel, RuntimeRouteModel, TerminalSource,
    ThreadAttachmentKind, ThreadRouteModel, INACTIVE_ROUTE_CAPACITY,
};
use vstd::prelude::*;

verus! {

/// One thing that can happen to a router.
pub enum RouterStep {
    /// An event is brought to its route.
    Route { target: TargetModel, event: AppServerEvent },
    /// Lost events are reported to every route.
    Lag { order: Seq<Seq<char>>, skipped: usize },
    /// The connection ends.
    Close { event: AppServerEvent },
    /// A thread ends.
    EndThread { id: Seq<char>, event: AppServerEvent, source: TerminalSource },
    /// Somebody asks for a thread's stream.
    TakeThread { id: Seq<char>, slot: usize },
    /// A lifecycle request asks for a thread's next attachment.
    Reserve { id: Seq<char>, kind: ThreadAttachmentKind },
    /// A lifecycle request that has succeeded asks for what it reserved.
    Claim { id: Seq<char>, generation: u64, slot: usize },
    /// A lifecycle request gives up what it reserved.
    Cancel { id: Seq<char>, generation: u64 },
    /// Somebody asks for the runtime stream.
    TakeRuntime { slot: usize },
    /// The owner of a stream asks for an event.
    Recv { slot: usize },
    /// The owner of a stream gives it back.
    Release { slot: usize },
    /// What has not been delivered yet is given up.
    Abandon,
}

impl RouterStep {
    /// Whether the step can be taken now: the pump brings the next event when
    /// it no longer waits, a report of lost events goes to every thread that
    /// has a route, and a new stream gets a slot of its own.
    pub open spec fn fits(self, m: RouterModel) -> bool {
        match self {
            RouterStep::Route { .. } => m.blocked is None,
            RouterStep::Lag { order, .. } => m.blocked is None && m.lists_threads(order),
            RouterStep::TakeThread { slot, .. } => !m.attachments.contains_key(slot),
            RouterStep::Claim { slot, .. } => !m.attachments.contains_key(slot),
            RouterStep::TakeRuntime { slot } => !m.attachments.contains_key(slot),
            _ => true,
        }
    }

    /// The router after the step. A request that is refused changes nothing,
    /// but for a claim that finds no reservation.
    pub open spec fn apply(self, m: RouterModel) -> RouterModel {
        match self {
            RouterStep::Route { target, event } => m.route_to(target, event),
            RouterStep::Lag { order, skipped } => m.broadcast_lag(order, skipped),
            RouterStep::Close { event } => m.close(event),
            RouterStep::EndThread { id, event, source } => m.close_thread(id, event, source),
            RouterStep::TakeThread { id, slot } => if m.attach_refusal(id) is None {
                m.take_thread(id, slot)
            } else {
                m
            },
            RouterStep::Reserve { id, kind } => if m.attach_refusal(id) is None {
                m.reserve(id, kind)
            } else {
                m
            },
            RouterStep::Claim { id, generation, slot } => if m.closed {
                m
            } else if m.holds_reservation(id, generation) {
                m.claim(id, generation, slot)
            } else {
                m.touch(id)
            },
            RouterStep::Cancel { id, generation } => m.cancel(id, generation),
            RouterStep::TakeRuntime { slot } => if m.runtime_is_free() {
                m.take_runtime(slot)
            } else {
                m
            },
            RouterStep::Recv { slot } => m.recv(slot),
            RouterStep::Release { slot } => m.release(slot),
            RouterStep::Abandon => m.abandon(),
        }
    }

    /// The thread whose route the step makes the newest of those that nobody
    /// owns.
    pub open spec fn frees(self, m: RouterModel) -> Option<Seq<char>> {
        match self {
            RouterStep::Route { target: TargetModel::Thread(id), event } => if ends_stream(event) {
                ended_by(m, id, event, TerminalSource::Notification)
            } else if !m.closed && !m.threads.contains_key(id) {
                Some(id)
            } else {
                None
            },
            RouterStep::EndThread { id, event, source } => ended_by(m, id, event, source),
            RouterStep::TakeThread { id, .. } => if m.attach_refusal(id) is None && m.threads.contains_key(id)
                && m.threads[id] is Closed {
                Some(id)
            } else {
                None
            },
            RouterStep::Claim { id, .. } => if !m.closed && m.threads.contains_key(id)
                && m.threads[id].is_inactive() {
                Some(id)
            } else {
                None
            },
            RouterStep::Cancel { id, generation } => if m.holds_reservation(id, generation) {
                Some(id)
            } else {
                None
            },
            RouterStep::Release { slot } => if m.attachments.contains_key(slot) && m.is_attached(
                m.attachments[slot].owner,
                m.attachments[slot].generation,
            ) {
                match m.attachments[slot].owner {
                    OwnerModel::Thread(id) => Some(id),
                    OwnerModel::Runtime => None,
                }
            } else {
                None
            },
            _ => None,
        }
    }

    /// The step is no request for the stream of `id`, and does not end it.
    pub open spec fn leaves_alone(self, id: Seq<char>) -> bool {
        match self {
            RouterStep::Route { target, event } => target == TargetModel::Thread(id) ==> !ends_stream(event),
            RouterStep::Close { .. } => false,
            RouterStep::EndThread { id: other, .. } => other != id,
            RouterStep::TakeThread { id: other, .. } => other != id,
            RouterStep::Reserve { id: other, .. } => other != id,
            RouterStep::Claim { id: other, .. } => other != id,
            RouterStep::Cancel { id: other, .. } => other != id,
            _ => true,
        }
    }

    /// What the step brings to the route of `id`, where there is one or the
    /// step makes one.
    pub open spec fn brings(self, id: Seq<char>, known: bool) -> Seq<AppServerEvent> {
        match self {
            RouterStep::Route { target, event } => if target == TargetModel::Thread(id) {
                seq![event]
            } else {
                Seq::empty()
            },
            RouterStep::Lag { skipped, .. } => if known {
                seq![AppServerEvent::Lagged { skipped }]
            } else {
                Seq::empty()
            },
            _ => Seq::empty(),
        }
    }

    /// What the step brings to the runtime stream.
    pub open spec fn brings_runtime(self) -> Seq<AppServerEvent> {
        match self {
            RouterStep::Route { target: TargetModel::Runtime, event } => seq![event],
            RouterStep::Lag { skipped, .. } => seq![AppServerEvent::Lagged { skipped }],
            _ => Seq::empty(),
        }
    }
}

/// The thread `id` where `event` ends it and nobody owns its route then.
pub open spec fn ended_by(
    m: RouterModel,
    id: Seq<char>,
    event: AppServerEvent,
    source: TerminalSource,
) -> Option<Seq<char>> {
    if !m.closed && m.threads.contains_key(id) && m.threads[id].close_thread(event, source).is_inactive() {
        Some(id)
    } else {
        None
    }
}

/// A router after `steps`.
pub open spec fn lived(m: RouterModel, steps: Seq<RouterStep>) -> RouterModel
    decreases steps.len(),
{
    if steps.len() == 0 {
        m
    } else {
        steps.last().apply(lived(m, steps.drop_last()))
    }
}

/// Each of `steps` can be taken when its turn comes.
pub open spec fn all_fit(m: RouterModel, steps: Seq<RouterStep>) -> bool
    decreases steps.len(),
{
    steps.len() == 0 || all_fit(m, steps.drop_last()) && steps.last().fits(lived(m, steps.drop_last()))
}

/// What `steps` bring to the route of `id`, in order. `known` says whether
/// there is a route at the start; where there is none, the first event of the
/// thread makes it.
pub open spec fn brought(steps: Seq<RouterStep>, id: Seq<char>, known: bool) -> Seq<AppServerEvent>
    decreases steps.len(),
{
    if steps.len() == 0 {
        Seq::empty()
    } else {
        let before = brought(steps.drop_last(), id, known);
        before + steps.last().brings(id, known || before.len() > 0)
    }
}

/// What `steps` bring to the runtime stream, in order.
pub open spec fn brought_runtime(steps: Seq<RouterStep>) -> Seq<AppServerEvent>
    decreases steps.len(),
{
    if steps.len() == 0 {
        Seq::empty()
    } else {
        brought_runtime(steps.drop_last()) + steps.last().brings_runtime()
    }
}

/// How often, in the course of `steps`, the route of another thread than `id`
/// becomes the newest of those that nobody owns.
pub open spec fn others_freed(m: RouterModel, steps: Seq<RouterStep>, id: Seq<char>) -> nat
    decreases steps.len(),
{
    if steps.len() == 0 {
        0
    } else {
        others_freed(m, steps.drop_last(), id) + freed_by(lived(m, steps.drop_last()), steps.last(), id)
    }
}

/// Whether `step` makes the route of another thread than `id` the newest of
/// those that nobody owns.
pub open spec fn freed_by(m: RouterModel, step: RouterStep, id: Seq<char>) -> nat {
    match step.frees(m) {
        Some(other) => if other != id {
            1
        } else {
            0
        },
        None => 0,
    }
}

/// Each of `steps` leaves the stream of `id` alone.
pub open spec fn all_leave_alone(steps: Seq<RouterStep>, id: Seq<char>) -> bool {
    forall|i: int| 0 <= i < steps.len() ==> (#[trigger] steps[i]).leaves_alone(id)
}

proof fn lemma_step(m: RouterModel, step: RouterStep)
    requires
        m.wf(),
        step.fits(m),
    ensures
        step.apply(m).wf(),
{
    match step {
        RouterStep::Route { target, event } => match target {
            TargetModel::Thread(id) => {
                lemma_close_thread(m, id, event, TerminalSource::Notification);
                lemma_enqueue_thread(m, id, event);
            },
            TargetModel::Runtime => lemma_enqueue_runtime(m, event),
            TargetModel::InvalidThread => {},
        },
        RouterStep::Lag { order, skipped } => lemma_broadcast_lag(m, order, skipped),
        RouterStep::Close { event } => lemma_close(m, event),
        RouterStep::EndThread { id, event, source } => lemma_close_thread(m, id, event, source),
        RouterStep::TakeThread { id, slot } => if m.attach_refusal(id) is None {
            lemma_take_thread(m, id, slot);
        },
        RouterStep::Reserve { id, kind } => if m.attach_refusal(id) is None {
            lemma_reserve(m, id, kind);
        },
        RouterStep::Claim { id, generation, slot } => {
            lemma_touch(m, id);
            if !m.closed && m.holds_reservation(id, generation) {
                lemma_claim(m, id, generation, slot);
            }
        },
        RouterStep::Cancel { id, generation } => lemma_cancel(m, id, generation),
        RouterStep::TakeRuntime { slot } => if m.runtime_is_free() {
            lemma_take_runtime(m, slot);
        },
        RouterStep::Recv { slot } => lemma_recv(m, slot),
        RouterStep::Release { slot } => lemma_release(m, slot),
        RouterStep::Abandon => lemma_abandon(m),
    }
}

/// A router is in order all its life.
pub proof fn law_routers_stay_in_order(m: RouterModel, steps: Seq<RouterStep>)
    requires
        m.wf(),
        all_fit(m, steps),
    ensures
        lived(m, steps).wf(),
    decreases steps.len(),
{
    if steps.len() > 0 {
        law_routers_stay_in_order(m, steps.drop_last());
        lemma_step(lived(m, steps.drop_last()), steps.last());
    }
}

/// What one step does to the runtime route.
proof fn lemma_step_runtime(m: RouterModel, step: RouterStep)
    ensures
        step.apply(m).closed == (m.closed || step is Close),
        !(m.runtime is Pending) ==> !(step.apply(m).runtime is Pending),
        m.runtime_is_free() && !(step is Close) && !(step is TakeRuntime) ==> step.apply(m).runtime
            == RuntimeRouteModel::Pending(pushed_onto(m.runtime->Pending_0, step.brings_runtime())),
        m.runtime_is_free() && step is TakeRuntime ==> step.apply(m).runtime is Active,
{
    reveal_with_fuel(pushed_onto, 2);
    match step {
        RouterStep::Route { target, event } => {
            assert(seq![event].drop_last() =~= Seq::<AppServerEvent>::empty());
        },
        RouterStep::Lag { order, skipped } => {
            assert(seq![AppServerEvent::Lagged { skipped }].drop_last() =~= Seq::<AppServerEvent>::empty());
            lemma_pump_changes_no_taking(m.start_lag(order, skipped));
        },
        RouterStep::Recv { slot } => lemma_recv_changes_no_taking(m, slot),
        RouterStep::Release { slot } => lemma_pump_changes_no_taking(m.dismantle(slot)),
        _ => {},
    }
}

/// Whether the step at `i` is a request for the runtime stream that succeeds.
pub open spec fn takes_runtime(m: RouterModel, steps: Seq<RouterStep>, i: int) -> bool {
    0 <= i < steps.len() && steps[i] is TakeRuntime && lived(m, steps.take(i)).runtime_is_free()
}

/// Over the life of a router the runtime stream is taken at most once. A
/// request for it succeeds exactly while the router is open and no earlier
/// request has succeeded, whatever has become of the stream since. It then
/// replays what was brought to it so far.
pub proof fn law_runtime_stream_has_one_taker(capacity: nat, steps: Seq<RouterStep>, slot: usize)
    ensures
        ({
            let fresh = RouterModel::fresh(capacity);
            let m = lived(fresh, steps);
            let events = brought_runtime(steps);
            &&& m.closed <==> exists|i: int| 0 <= i < steps.len() && (#[trigger] steps[i]) is Close
            &&& !m.closed ==> (m.runtime is Pending <==> forall|i: int|
                0 <= i < steps.len() ==> !#[trigger] takes_runtime(fresh, steps, i))
            &&& m.runtime_is_free() ==> m.take_runtime(slot).attachments[slot].mailbox.backlog() == pushed_all(
                events,
            ).replay()
            &&& forall|i: int, j: int|
                #[trigger] takes_runtime(fresh, steps, i) && #[trigger] takes_runtime(fresh, steps, j) ==> i == j
        }),
{
    let fresh = RouterModel::fresh(capacity);
    let m = lived(fresh, steps);
    lemma_runtime_life(capacity, steps);
    if m.runtime_is_free() {
        law_opened_streams_replay(m.stream_capacity, m.runtime->Pending_0);
    }
    assert forall|i: int, j: int|
        #[trigger] takes_runtime(fresh, steps, i) && #[trigger] takes_runtime(fresh, steps, j) implies i == j by {
        if i < j {
            lemma_taken_before(capacity, steps, i, j);
        } else if j < i {
            lemma_taken_before(capacity, steps, j, i);
        }
    }
}

proof fn lemma_taken_before(capacity: nat, steps: Seq<RouterStep>, i: int, j: int)
    requires
        0 <= i < j < steps.len(),
        takes_runtime(RouterModel::fresh(capacity), steps, i),
    ensures
        !takes_runtime(RouterModel::fresh(capacity), steps, j),
{
    let fresh = RouterModel::fresh(capacity);
    let before = steps.take(j);
    lemma_runtime_life(capacity, before);
    assert(before.take(i) =~= steps.take(i));
    assert(takes_runtime(fresh, before, i));
}

proof fn lemma_runtime_life(capacity: nat, steps: Seq<RouterStep>)
    ensures
        ({
            let fresh = RouterModel::fresh(capacity);
            let m = lived(fresh, steps);
            &&& m.closed <==> exists|i: int| 0 <= i < steps.len() && (#[trigger] steps[i]) is Close
            &&& !m.closed ==> (m.runtime is Pending <==> forall|i: int|
                0 <= i < steps.len() ==> !#[trigger] takes_runtime(fresh, steps, i))
            &&& m.runtime_is_free() ==> m.runtime == RuntimeRouteModel::Pending(pushed_all(brought_runtime(steps)))
        }),
    decreases steps.len(),
{
    let fresh = RouterModel::fresh(capacity);
    if steps.len() > 0 {
        let before = steps.drop_last();
        let step = steps.last();
        let last = steps.len() - 1;
        let m = lived(fresh, before);
        let after = lived(fresh, steps);
        lemma_runtime_life(capacity, before);
        lemma_step_runtime(m, step);
        assert(steps.take(last) =~= before);
        assert(steps[last] == step);
        assert forall|i: int| 0 <= i < last implies takes_runtime(fresh, before, i) == #[trigger] takes_runtime(
            fresh,
            steps,
            i,
        ) by {
            assert(before.take(i) =~= steps.take(i));
            assert(before[i] == steps[i]);
        }
        if m.closed {
            let i = choose|i: int| 0 <= i < before.len() && (#[trigger] before[i]) is Close;
            assert(steps[i] is Close);
        }
        if exists|i: int| 0 <= i < steps.len() && (#[trigger] steps[i]) is Close {
            let i = choose|i: int| 0 <= i < steps.len() && (#[trigger] steps[i]) is Close;
            if i < last {
                assert(before[i] is Close);
            }
        }
        if !after.closed {
            if after.runtime is Pending {
                assert forall|i: int| 0 <= i < steps.len() implies !#[trigger] takes_runtime(fresh, steps, i) by {
                    if i < last {
                        assert(!takes_runtime(fresh, before, i));
                    }
                }
            } else if !(m.runtime is Pending) {
                let i = choose|i: int| 0 <= i < before.len() && #[trigger] takes_runtime(fresh, before, i);
                assert(takes_runtime(fresh, steps, i));
            } else {
                assert(takes_runtime(fresh, steps, last));
            }
        }
        if after.runtime_is_free() {
            law_replay_goes_on(PendingModel::empty(), brought_runtime(before), step.brings_runtime());
        }
    }
}

/// `id` is in `list`, with no more than `newer` entries after it.
spec fn is_recent(list: Seq<Seq<char>>, id: Seq<char>, newer: nat) -> bool {
    exists|i: int| 0 <= i < list.len() && #[trigger] list[i] == id && list.len() - 1 - i <= newer
}

/// Filtering another entry out leaves no more entries after `id`.
proof fn lemma_without_recent(list: Seq<Seq<char>>, other: Seq<char>, id: Seq<char>, newer: nat)
    requires
        is_recent(list, id, newer),
        other != id,
    ensures
        is_recent(without(list, other), id, newer),
    decreases list.len(),
{
    reveal(Seq::filter);
    let i = choose|i: int| 0 <= i < list.len() && #[trigger] list[i] == id && list.len() - 1 - i <= newer;
    let front = list.drop_last();
    let kept = without(list, other);
    let front_kept = without(front, other);
    assert(kept == if list.last() != other {
        front_kept.push(list.last())
    } else {
        front_kept
    });
    if i == list.len() - 1 {
        assert(kept[kept.len() - 1] == id);
    } else {
        assert(front[i] == id);
        let fewer = (newer - 1) as nat;
        assert(is_recent(front, id, fewer));
        lemma_without_recent(front, other, id, fewer);
        let j = choose|j: int|
            0 <= j < front_kept.len() && #[trigger] front_kept[j] == id && front_kept.len() - 1 - j <= fewer;
        assert(kept[j] == id);
    }
}

/// Placing another thread's route costs no recent route that nobody owns.
proof fn lemma_place_recent(m: RouterModel, other: Seq<char>, route: ThreadRouteModel, id: Seq<char>, newer: nat)
    requires
        m.inactive_wf(),
        !m.closed,
        other != id,
        is_recent(m.inactive, id, newer),
        route.is_inactive() ==> newer + 1 < INACTIVE_ROUTE_CAPACITY,
    ensures
        ({
            let placed = m.place(other, route);
            &&& placed.threads.contains_key(id)
            &&& placed.threads[id] == m.threads[id]
            &&& is_recent(placed.inactive, id, newer + if route.is_inactive() { 1nat } else { 0nat })
        }),
{
    lemma_without(m.inactive, other);
    lemma_without_recent(m.inactive, other, id, newer);
    let kept = without(m.inactive, other);
    let placed = m.place(other, route);
    let j = choose|j: int| 0 <= j < kept.len() && #[trigger] kept[j] == id && kept.len() - 1 - j <= newer;
    assert(kept.contains(id));
    if route.is_inactive() {
        let inactive = kept.push(other);
        assert(inactive[j] == id);
        if inactive.len() > INACTIVE_ROUTE_CAPACITY {
            assert(kept[0] != id);
            assert(placed.inactive[j - 1] == id);
        } else {
            assert(placed.inactive[j] == id);
        }
    }
}

/// What one step that leaves a thread alone does to its events from before
/// somebody attaches it.
proof fn lemma_step_early(m: RouterModel, step: RouterStep, id: Seq<char>, newer: nat)
    requires
        m.wf(),
        !m.closed,
        step.fits(m),
        step.leaves_alone(id),
        m.threads.contains_key(id),
        m.threads[id] is Pending,
        is_recent(m.inactive, id, newer),
        newer + freed_by(m, step, id) < INACTIVE_ROUTE_CAPACITY,
    ensures
        ({
            let after = step.apply(m);
            &&& !after.closed
            &&& after.threads.contains_key(id)
            &&& after.threads[id] == ThreadRouteModel::Pending(
                pushed_onto(m.threads[id].replayable(), step.brings(id, true)),
            )
            &&& is_recent(after.inactive, id, newer + freed_by(m, step, id))
        }),
{
    lemma_step_runtime(m, step);
    reveal_with_fuel(pushed_onto, 2);
    match step {
        RouterStep::Route { target, event } => {
            assert(seq![event].drop_last() =~= Seq::<AppServerEvent>::empty());
            lemma_route_early(m, target, event, id, newer);
        },
        RouterStep::Lag { order, skipped } => {
            let event = AppServerEvent::Lagged { skipped };
            assert(seq![event].drop_last() =~= Seq::<AppServerEvent>::empty());
            lemma_start_lag(m, order, skipped);
            lemma_pump_keeps_routes(m.start_lag(order, skipped));
        },
        RouterStep::EndThread { id: other, event, source } => lemma_close_thread_early(
            m,
            other,
            event,
            source,
            id,
            newer,
        ),
        RouterStep::TakeThread { id: other, slot } => if m.attach_refusal(other) is None {
            if m.threads.contains_key(other) && m.threads[other] is Closed {
                lemma_place_recent(m, other, ThreadRouteModel::Terminated, id, newer);
            } else {
                let route = ThreadRouteModel::Active {
                    generation: m.next_generation,
                    slot,
                    phase: AttachmentPhase::Ready,
                };
                lemma_place_recent(m, other, route, id, newer);
            }
        },
        RouterStep::Reserve { id: other, kind } => if m.attach_refusal(other) is None {
            let route = ThreadRouteModel::Reserved {
                generation: m.next_generation,
                pending: m.reservable(other),
                phase: starting_phase(kind),
            };
            lemma_place_recent(m, other, route, id, newer);
        },
        RouterStep::Claim { id: other, generation, slot } => {
            if m.holds_reservation(other, generation) {
                let route = ThreadRouteModel::Active { generation, slot, phase: m.threads[other]->Reserved_phase };
                lemma_place_recent(m, other, route, id, newer);
            } else if m.threads.contains_key(other) {
                lemma_place_recent(m, other, m.threads[other], id, newer);
            }
        },
        RouterStep::Cancel { id: other, generation } => if m.holds_reservation(other, generation) {
            lemma_place_recent(m, other, ThreadRouteModel::Detached, id, newer);
        },
        RouterStep::Recv { slot } => lemma_recv_keeps_routes(m, slot),
        RouterStep::Release { slot } => if m.attachments.contains_key(slot) {
            let attachment = m.attachments[slot];
            lemma_dismantle(m, slot);
            lemma_pump_keeps_routes(m.dismantle(slot));
            if let OwnerModel::Thread(other) = attachment.owner {
                if m.is_attached(attachment.owner, attachment.generation) {
                    lemma_place_recent(m, other, ThreadRouteModel::Detached, id, newer);
                }
            }
        },
        _ => {},
    }
}

proof fn lemma_close_thread_early(
    m: RouterModel,
    other: Seq<char>,
    event: AppServerEvent,
    source: TerminalSource,
    id: Seq<char>,
    newer: nat,
)
    requires
        m.inactive_wf(),
        !m.closed,
        other != id,
        m.threads.contains_key(id),
        is_recent(m.inactive, id, newer),
        ended_by(m, other, event, source) is Some ==> newer + 1 < INACTIVE_ROUTE_CAPACITY,
    ensures
        ({
            let after = m.close_thread(other, event, source);
            let freed = if ended_by(m, other, event, source) is Some { 1nat } else { 0nat };
            &&& after.threads.contains_key(id)
            &&& after.threads[id] == m.threads[id]
            &&& is_recent(after.inactive, id, newer + freed)
        }),
{
    if m.threads.contains_key(other) {
        lemma_place_recent(m, other, m.threads[other].close_thread(event, source), id, newer);
    }
}

proof fn lemma_route_early(m: RouterModel, target: TargetModel, event: AppServerEvent, id: Seq<char>, newer: nat)
    requires
        m.wf(),
        !m.closed,
        m.blocked is None,
        target == TargetModel::Thread(id) ==> !ends_stream(event),
        m.threads.contains_key(id),
        m.threads[id] is Pending,
        is_recent(m.inactive, id, newer),
        newer + freed_by(m, RouterStep::Route { target, event }, id) < INACTIVE_ROUTE_CAPACITY,
    ensures
        ({
            let after = m.route_to(target, event);
            let before = m.threads[id].replayable();
            &&& after.threads.contains_key(id)
            &&& after.threads[id] == ThreadRouteModel::Pending(
                if target == TargetModel::Thread(id) {
                    before.push(event)
                } else {
                    before
                },
            )
            &&& is_recent(after.inactive, id, newer + freed_by(m, RouterStep::Route { target, event }, id))
        }),
{
    match target {
        TargetModel::Thread(other) => if other != id {
            if ends_stream(event) {
                lemma_close_thread_early(m, other, event, TerminalSource::Notification, id, newer);
            } else if m.threads.contains_key(other) {
                lemma_enqueue_owned(m, other, event);
            } else {
                lemma_place_recent(m, other, ThreadRouteModel::Pending(PendingModel::empty()), id, newer);
            }
        },
        TargetModel::Runtime => if let RuntimeRouteModel::Active { slot, .. } = m.runtime {
            lemma_deliver_keeps_routes(m, slot, event);
        },
        TargetModel::InvalidThread => {},
    }
}

/// Bringing an event to a thread that has a route changes no other route.
proof fn lemma_enqueue_owned(m: RouterModel, id: Seq<char>, event: AppServerEvent)
    requires
        m.wf(),
        !m.closed,
        m.blocked is None,
        m.threads.contains_key(id),
    ensures
        m.enqueue_thread(id, event).threads == m.threads.insert(id, m.threads[id].enqueue(event)),
        m.enqueue_thread(id, event).inactive == m.inactive,
{
    assert(m.thread_wf(id));
    let route = m.threads[id];
    if let Some(slot) = route.active_slot() {
        lemma_enqueue_route(route, event);
        lemma_update_thread(m, id, route.enqueue(event));
        let queued = RouterModel { threads: m.threads.insert(id, route.enqueue(event)), ..m };
        lemma_deliver_keeps_routes(queued, slot, event);
    }
}

/// Receiving changes no route.
proof fn lemma_recv_keeps_routes(m: RouterModel, slot: usize)
    requires
        m.wf(),
    ensures
        m.recv(slot).threads == m.threads,
        m.recv(slot).inactive == m.inactive,
{
    if m.attachments.contains_key(slot) {
        assert(m.attachment_wf(slot));
        let mailbox = m.attachments[slot].mailbox.after_recv();
        let blocked: Option<usize> = if m.blocked == Some(slot) && mailbox.waiting.len() == 0 {
            None
        } else {
            m.blocked
        };
        lemma_with_mailbox(m, slot, mailbox, blocked);
        lemma_pump_keeps_routes(RouterModel { blocked, ..m.with_mailbox(slot, mailbox) });
    }
}

/// A step that leaves a thread alone and brings it nothing makes it no route,
/// and keeps its reservation.
proof fn lemma_step_frame(m: RouterModel, step: RouterStep, id: Seq<char>)
    requires
        m.wf(),
        !m.closed,
        step.fits(m),
        step.leaves_alone(id),
        step.brings(id, true).len() == 0,
    ensures
        !m.threads.contains_key(id) ==> !step.apply(m).threads.contains_key(id),
        m.threads.contains_key(id) && m.threads[id] is Reserved ==> step.apply(m).threads.contains_key(id)
            && step.apply(m).threads[id] == m.threads[id],
{
    match step {
        RouterStep::Route { target, event } => match target {
            TargetModel::Thread(other) => if ends_stream(event) {
                if m.threads.contains_key(other) {
                    lemma_place_frame(m, other, m.threads[other].close_thread(event, TerminalSource::Notification));
                }
            } else if m.threads.contains_key(other) {
                lemma_enqueue_owned(m, other, event);
            } else {
                lemma_place_frame(m, other, ThreadRouteModel::Pending(PendingModel::empty()));
            },
            TargetModel::Runtime => if let RuntimeRouteModel::Active { slot, .. } = m.runtime {
                lemma_deliver_keeps_routes(m, slot, event);
            },
            TargetModel::InvalidThread => {},
        },
        RouterStep::EndThread { id: other, event, source } => if m.threads.contains_key(other) {
            lemma_place_frame(m, other, m.threads[other].close_thread(event, source));
        },
        RouterStep::TakeThread { id: other, slot } => {
            let generation = m.next_generation;
            lemma_place_frame(m, other, ThreadRouteModel::Terminated);
            lemma_place_frame(m, other, ThreadRouteModel::Active { generation, slot, phase: AttachmentPhase::Ready });
        },
        RouterStep::Reserve { id: other, kind } => lemma_place_frame(
            m,
            other,
            ThreadRouteModel::Reserved {
                generation: m.next_generation,
                pending: m.reservable(other),
                phase: starting_phase(kind),
            },
        ),
        RouterStep::Claim { id: other, generation, slot } => {
            let phase = m.threads[other]->Reserved_phase;
            lemma_place_frame(m, other, ThreadRouteModel::Active { generation, slot, phase });
            lemma_place_frame(m, other, m.threads[other]);
        },
        RouterStep::Cancel { id: other, generation } => lemma_place_frame(m, other, ThreadRouteModel::Detached),
        RouterStep::Recv { slot } => lemma_recv_keeps_routes(m, slot),
        RouterStep::Release { slot } => if m.attachments.contains_key(slot) {
            lemma_dismantle(m, slot);
            lemma_pump_keeps_routes(m.dismantle(slot));
            if let OwnerModel::Thread(other) = m.attachments[slot].owner {
                lemma_place_frame(m, other, ThreadRouteModel::Detached);
            }
        },
        _ => {},
    }
}

/// A step that leaves a thread without a route alone makes it a route exactly
/// when it brings the thread an event.
proof fn lemma_step_unknown(m: RouterModel, step: RouterStep, id: Seq<char>)
    requires
        m.wf(),
        !m.closed,
        step.fits(m),
        step.leaves_alone(id),
        !m.threads.contains_key(id),
    ensures
        ({
            let after = step.apply(m);
            let events = step.brings(id, false);
            &&& !after.closed
            &&& events.len() == 0 ==> !after.threads.contains_key(id)
            &&& events.len() > 0 ==> after.threads.contains_key(id) && after.threads[id]
                == ThreadRouteModel::Pending(pushed_all(events)) && is_recent(after.inactive, id, 0)
        }),
{
    lemma_step_runtime(m, step);
    if step.brings(id, true).len() == 0 {
        lemma_step_frame(m, step, id);
    } else {
        match step {
            RouterStep::Route { target, event } => {
                reveal_with_fuel(pushed_onto, 2);
                assert(seq![event].drop_last() =~= Seq::<AppServerEvent>::empty());
                lemma_place_frame(m, id, ThreadRouteModel::Pending(PendingModel::empty()));
                let inactive = m.route_to(target, event).inactive;
                assert(inactive[inactive.len() - 1] == id);
            },
            RouterStep::Lag { order, skipped } => {
                lemma_start_lag(m, order, skipped);
                lemma_pump_keeps_routes(m.start_lag(order, skipped));
            },
            _ => {},
        }
    }
}

/// What one step that leaves a thread alone does to the events of a thread
/// that is reserved.
proof fn lemma_step_reserved(m: RouterModel, step: RouterStep, id: Seq<char>, generation: u64)
    requires
        m.wf(),
        step.fits(m),
        step.leaves_alone(id),
        m.holds_reservation(id, generation),
    ensures
        ({
            let after = step.apply(m);
            &&& after.holds_reservation(id, generation)
            &&& after.threads[id].replayable() == pushed_onto(m.threads[id].replayable(), step.brings(id, true))
        }),
{
    lemma_owned_route_is_open(m, id);
    if step.brings(id, true).len() == 0 {
        lemma_step_frame(m, step, id);
    } else {
        reveal_with_fuel(pushed_onto, 2);
        assert(step.brings(id, true).drop_last() =~= Seq::<AppServerEvent>::empty());
        if let RouterStep::Lag { order, skipped } = step {
            lemma_start_lag(m, order, skipped);
            lemma_pump_keeps_routes(m.start_lag(order, skipped));
        }
    }
}

/// The events of a thread that nobody has attached are kept while other things
/// happen.
proof fn lemma_early_life(m: RouterModel, steps: Seq<RouterStep>, id: Seq<char>)
    requires
        m.wf(),
        !m.closed,
        !m.threads.contains_key(id),
        all_fit(m, steps),
        all_leave_alone(steps, id),
        others_freed(m, steps, id) < INACTIVE_ROUTE_CAPACITY,
    ensures
        ({
            let after = lived(m, steps);
            let events = brought(steps, id, false);
            &&& after.wf()
            &&& !after.closed
            &&& events.len() == 0 ==> !after.threads.contains_key(id)
            &&& events.len() > 0 ==> after.threads.contains_key(id) && after.threads[id] == ThreadRouteModel::Pending(
                pushed_all(events),
            ) && is_recent(after.inactive, id, others_freed(m, steps, id))
        }),
    decreases steps.len(),
{
    law_routers_stay_in_order(m, steps);
    if steps.len() > 0 {
        let before = steps.drop_last();
        let step = steps.last();
        assert(all_leave_alone(before, id)) by {
            assert forall|i: int| 0 <= i < before.len() implies (#[trigger] before[i]).leaves_alone(id) by {
                assert(before[i] == steps[i]);
            }
        }
        assert(steps[steps.len() - 1] == step);
        lemma_early_life(m, before, id);
        law_routers_stay_in_order(m, before);
        let now = lived(m, before);
        let events = brought(before, id, false);
        if events.len() > 0 {
            lemma_step_early(now, step, id, others_freed(m, before, id));
            law_replay_goes_on(PendingModel::empty(), events, step.brings(id, true));
        } else {
            lemma_step_unknown(now, step, id);
            assert(brought(steps, id, false) =~= step.brings(id, false));
        }
    }
}

/// What comes for a thread before anybody attaches it is replayed to the one
/// who does, whatever else happens in between: in order, from the newest that
/// the replay buffer holds, after one marker for what it could not hold, and
/// before everything that comes later. This holds as long as the routes of
/// other threads do not become unowned so often that this one, as the oldest,
/// has to give way.
#[verifier::rlimit(40)]
pub proof fn law_early_events_reach_the_first_owner(
    m: RouterModel,
    steps: Seq<RouterStep>,
    id: Seq<char>,
    slot: usize,
    next: AppServerEvent,
)
    requires
        m.wf(),
        !m.closed,
        !m.threads.contains_key(id),
        all_fit(m, steps),
        all_leave_alone(steps, id),
        others_freed(m, steps, id) < INACTIVE_ROUTE_CAPACITY,
        !lived(m, steps).attachments.contains_key(slot),
    ensures
        ({
            let before = lived(m, steps);
            let events = brought(steps, id, false);
            let taken = before.take_thread(id, slot);
            let mailbox = taken.attachments[slot].mailbox;
            let lost = events.len() - PENDING_EVENT_CAPACITY;
            let live = taken.route_to(TargetModel::Thread(id), next).attachments[slot].mailbox;
            &&& before.attach_refusal(id) is None
            &&& taken.serves(OwnerModel::Thread(id), slot)
            &&& !mailbox.closed
            &&& mailbox.backlog() == pushed_all(events).replay()
            &&& lost <= 0 ==> mailbox.backlog() == events
            &&& 0 < lost <= usize::MAX ==> mailbox.backlog() == seq![
                AppServerEvent::Lagged { skipped: lost as usize },
            ] + events.skip(lost)
            &&& taken.blocked is None && requires_delivery(next) && !ends_stream(next) ==> live.backlog()
                == mailbox.backlog() + seq![next]
        }),
{
    lemma_early_life(m, steps, id);
    let before = lived(m, steps);
    let events = brought(steps, id, false);
    let generation = before.next_generation;
    lemma_place_frame(before, id, ThreadRouteModel::Active { generation, slot, phase: AttachmentPhase::Ready });
    law_opened_streams_replay(before.stream_capacity, before.reservable(id));
    law_replay_keeps_the_newest(events);
    lemma_take_thread(before, id, slot);
    let taken = before.take_thread(id, slot);
    if taken.blocked is None && !ends_stream(next) {
        law_owned_threads_receive_their_events(taken, id, next);
        if requires_delivery(next) {
            let mailbox = taken.attachments[slot].mailbox;
            let live = taken.route_to(TargetModel::Thread(id), next).attachments[slot].mailbox;
            assert(live.backlog() =~= mailbox.backlog() + seq![next]);
        }
    }
}

/// A reserved thread keeps what comes for it, whatever else happens, until
/// the reservation is claimed or given up or the thread ends.
pub proof fn law_reserved_threads_keep_their_events(
    m: RouterModel,
    steps: Seq<RouterStep>,
    id: Seq<char>,
    generation: u64,
)
    requires
        m.wf(),
        m.holds_reservation(id, generation),
        all_fit(m, steps),
        all_leave_alone(steps, id),
    ensures
        ({
            let after = lived(m, steps);
            &&& after.wf()
            &&& after.holds_reservation(id, generation)
            &&& after.threads[id].replayable() == pushed_onto(m.threads[id].replayable(), brought(steps, id, true))
        }),
    decreases steps.len(),
{
    law_routers_stay_in_order(m, steps);
    if steps.len() > 0 {
        let before = steps.drop_last();
        let step = steps.last();
        assert(all_leave_alone(before, id)) by {
            assert forall|i: int| 0 <= i < before.len() implies (#[trigger] before[i]).leaves_alone(id) by {
                assert(before[i] == steps[i]);
            }
        }
        assert(steps[steps.len() - 1] == step);
        law_reserved_threads_keep_their_events(m, before, id, generation);
        lemma_step_reserved(lived(m, before), step, id, generation);
        law_replay_goes_on(m.threads[id].replayable(), brought(before, id, true), step.brings(id, true));
    }
}

/// A thread that is reserved after events of it have come, and claimed after
/// more have come, replays all of them as one sequence.
#[verifier::rlimit(40)]
pub proof fn law_early_events_reach_the_claim(
    m: RouterModel,
    steps: Seq<RouterStep>,
    id: Seq<char>,
    kind: ThreadAttachmentKind,
    more: Seq<RouterStep>,
    slot: usize,
)
    requires
        m.wf(),
        !m.closed,
        !m.threads.contains_key(id),
        all_fit(m, steps),
        all_leave_alone(steps, id),
        others_freed(m, steps, id) < INACTIVE_ROUTE_CAPACITY,
        all_fit(lived(m, steps).reserve(id, kind), more),
        all_leave_alone(more, id),
    ensures
        ({
            let generation = lived(m, steps).next_generation;
            let waiting = lived(lived(m, steps).reserve(id, kind), more);
            let events = brought(steps, id, false) + brought(more, id, true);
            let mailbox = waiting.claim(id, generation, slot).attachments[slot].mailbox;
            let lost = events.len() - PENDING_EVENT_CAPACITY;
            &&& lived(m, steps).attach_refusal(id) is None
            &&& waiting.holds_reservation(id, generation)
            &&& !mailbox.closed
            &&& mailbox.backlog() == pushed_all(events).replay()
            &&& lost <= 0 ==> mailbox.backlog() == events
            &&& 0 < lost <= usize::MAX ==> mailbox.backlog() == seq![
                AppServerEvent::Lagged { skipped: lost as usize },
            ] + events.skip(lost)
        }),
{
    lemma_early_life(m, steps, id);
    let early = lived(m, steps);
    let generation = early.next_generation;
    let reserved = early.reserve(id, kind);
    lemma_reserve(early, id, kind);
    law_reservations_keep_early_events(early, id, kind);
    law_reserved_threads_keep_their_events(reserved, more, id, generation);
    law_claims_replay_early_events(lived(reserved, more), id, generation, slot);
    let first = brought(steps, id, false);
    let second = brought(more, id, true);
    assert(reserved.threads[id].replayable() == pushed_all(first));
    law_replay_goes_on(PendingModel::empty(), first, second);
    law_replay_keeps_the_newest(first + second);
}

} // verus!
