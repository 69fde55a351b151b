//! Routes app-server events to the single stream that owns each of them.
use crate::error::{Error, Result};
use crate::event::{
    event_requires_delivery, event_target, target_of, thread_event_terminates_stream, AppServerEvent, EventTarget,
    ServerNotification, ThreadIdParams,
};
use crate::runtime::attachments::{Attachment, Attachments, RouteTarget};
use crate::runtime::live_queue::MAX_QUEUE_CAPACITY;
use crate::runtime::mailbox::{closed_mailbox, open_mailbox, PendingEvents, PendingModel, TryRecvError};
use crate::runtime::route_lemmas::{
    lemma_abandon, lemma_broadcast_lag, lemma_cancel, lemma_claim, lemma_close, lemma_close_thread, lemma_deliver,
    lemma_deliver_ignores_in_flight, lemma_dismantle, lemma_drop_first, lemma_enqueue_route, lemma_enqueue_runtime,
    lemma_enqueue_thread, lemma_place, lemma_place_frame, lemma_pump, lemma_recv, lemma_release, lemma_reserve,
    lemma_start_lag, lemma_take_runtime, lemma_take_thread, lemma_touch, lemma_update_thread, lemma_with_mailbox,
    lemma_without,
};
use crate::runtime::route_model::{
    not_to, without, AttachRefusal, AttachmentModel, AttachmentPhase, Delivery, OwnerModel, RouterModel,
    TerminalSource, ThreadAttachmentKind, ThreadRouteModel, INACTIVE_ROUTE_CAPACITY,
};
use crate::runtime::routes::{RuntimeRoute, ThreadRoute};
use crate::text::texts;
use crate::text_map::TextMap;
use crate::thread_id::{canonical_thread_id, parse_native_thread_id};
use std::collections::VecDeque;
use vstd::prelude::*;

verus! {

/// The right to receive one stream's events. Given back with
/// [`EventRouter::release`].
pub struct EventReceiver {
    slot: usize,
}

impl EventReceiver {
    /// The attachment that the receiver stands for.
    pub closed spec fn slot(self) -> usize {
        self.slot
    }
}

/// The right to attach a thread once its lifecycle request has succeeded.
pub struct ThreadEventReservation {
    thread_id: String,
    generation: u64,
}

impl ThreadEventReservation {
    /// The canonical id of the reserved thread.
    pub closed spec fn thread_id(self) -> Seq<char> {
        self.thread_id@
    }

    /// The generation of the reservation.
    pub closed spec fn generation(self) -> u64 {
        self.generation
    }
}

impl ThreadEventReservation {
    /// Attaches the reserved thread. A reservation that does not stand any
    /// more is used up all the same.
    pub fn claim(self, router: &mut EventRouter) -> (claimed: Result<EventReceiver>)
        requires
            old(router).wf(),
        ensures
            final(router).wf(),
            thread_claimed(old(router)@, final(router)@, claimed, self.thread_id(), self.generation()),
    {
        router.claim_reserved_thread(self.thread_id, self.generation)
    }

    /// Gives the reservation up.
    pub fn cancel(self, router: &mut EventRouter)
        requires
            old(router).wf(),
        ensures
            final(router).wf(),
            final(router)@ == old(router)@.cancel(self.thread_id(), self.generation()),
    {
        router.cancel_reserved_thread(self.thread_id, self.generation)
    }
}

/// Routes app-server events to their single owning stream.
pub struct EventRouter {
    runtime: RuntimeRoute,
    threads: TextMap<ThreadRoute>,
    inactive: VecDeque<String>,
    next_generation: u64,
    closed: bool,
    attachments: Attachments,
    blocked: Option<usize>,
    in_flight: VecDeque<Delivery>,
    stream_capacity: usize,
}

/// What a map of routes stands for.
pub open spec fn routes_model(threads: Map<Seq<char>, ThreadRoute>) -> Map<Seq<char>, ThreadRouteModel> {
    threads.map_values(|route: ThreadRoute| route@)
}

impl View for EventRouter {
    type V = RouterModel;

    closed spec fn view(&self) -> RouterModel {
        RouterModel {
            runtime: self.runtime@,
            threads: routes_model(self.threads@),
            inactive: texts(self.inactive@),
            next_generation: self.next_generation,
            closed: self.closed,
            attachments: self.attachments@,
            blocked: self.blocked,
            in_flight: self.in_flight@,
            stream_capacity: self.stream_capacity as nat,
        }
    }
}

/// The error with which an attachment of `id` is refused.
pub open spec fn refused_with(error: Error, refusal: AttachRefusal, id: Seq<char>) -> bool {
    match refusal {
        AttachRefusal::RuntimeClosed => error is RuntimeClosed,
        AttachRefusal::StreamTaken => error matches Error::ThreadEventStreamTaken { thread_id } && thread_id@ == id,
        AttachRefusal::LifecycleInProgress => error matches Error::ThreadLifecycleInProgress { thread_id }
            && thread_id@ == id,
    }
}

/// The error with which a thread id that does not parse is refused.
pub open spec fn is_invalid_id(error: Error, text: Seq<char>) -> bool {
    error matches Error::InvalidThreadId { thread_id } && thread_id@ == text
}

/// What taking the stream of the thread `id` does.
pub open spec fn thread_taken(
    before: RouterModel,
    after: RouterModel,
    taken: Result<EventReceiver>,
    id: Seq<char>,
) -> bool {
    match before.attach_refusal(id) {
        Some(refusal) => taken matches Err(error) && refused_with(error, refusal, id) && after == before,
        None => taken matches Ok(receiver) && !before.attachments.contains_key(receiver.slot()) && after
            == before.take_thread(id, receiver.slot()),
    }
}

/// What reserving the thread `id` does.
pub open spec fn thread_reserved(
    before: RouterModel,
    after: RouterModel,
    reserved: Result<ThreadEventReservation>,
    id: Seq<char>,
    kind: ThreadAttachmentKind,
) -> bool {
    match before.attach_refusal(id) {
        Some(refusal) => reserved matches Err(error) && refused_with(error, refusal, id) && after == before,
        None => reserved matches Ok(reservation) && reservation.thread_id() == id && reservation.generation()
            == before.next_generation && after == before.reserve(id, kind),
    }
}

/// What claiming the reservation `generation` of the thread `id` does.
pub open spec fn thread_claimed(
    before: RouterModel,
    after: RouterModel,
    claimed: Result<EventReceiver>,
    id: Seq<char>,
    generation: u64,
) -> bool {
    if before.closed {
        claimed matches Err(error) && error is RuntimeClosed && after == before
    } else if before.holds_reservation(id, generation) {
        claimed matches Ok(receiver) && !before.attachments.contains_key(receiver.slot()) && after == before.claim(
            id,
            generation,
            receiver.slot(),
        )
    } else {
        claimed matches Err(error) && refused_with(error, AttachRefusal::LifecycleInProgress, id) && after
            == before.touch(id)
    }
}

/// The notification that `thread_id` was archived.
pub open spec fn archived_event(thread_id: String) -> AppServerEvent {
    AppServerEvent::ServerNotification(ServerNotification::ThreadArchived(ThreadIdParams { thread_id }))
}

/// What the successful response to an archive request does.
pub open spec fn archive_completed(before: RouterModel, after: RouterModel, id: Seq<char>) -> bool {
    exists|thread_id: String|
        thread_id@ == id && after == #[trigger] before.close_thread(
            id,
            archived_event(thread_id),
            TerminalSource::Authoritative,
        )
}

/// What the marker for `skipped` lost events does. In which order the threads
/// are served is open.
pub open spec fn lag_broadcast(before: RouterModel, after: RouterModel, skipped: usize) -> bool {
    exists|order: Seq<Seq<char>>|
        before.lists_threads(order) && after == #[trigger] before.broadcast_lag(order, skipped)
}

/// `list` has no entry at or after `i` that `without` has not seen.
proof fn lemma_without_step(list: Seq<Seq<char>>, id: Seq<char>, i: int)
    requires
        0 <= i < list.len(),
    ensures
        without(list.take(i + 1), id) == (if list[i] != id {
            without(list.take(i), id).push(list[i])
        } else {
            without(list.take(i), id)
        }),
{
    reveal(Seq::filter);
    assert(list.take(i + 1).drop_last() =~= list.take(i));
}

/// The attachments after the streams of the runtime and of the threads in
/// `done` have been ended.
spec fn closed_so_far(before: RouterModel, done: Seq<Seq<char>>, event: AppServerEvent) -> Map<usize, AttachmentModel> {
    Map::new(
        |slot: usize| before.attachments.contains_key(slot),
        |slot: usize|
            {
                let attachment = before.attachments[slot];
                let reached = match attachment.owner {
                    OwnerModel::Runtime => true,
                    OwnerModel::Thread(id) => done.contains(id),
                };
                if reached && before.serves(attachment.owner, slot) {
                    AttachmentModel { mailbox: attachment.mailbox.close(event), ..attachment }
                } else {
                    attachment
                }
            },
    )
}

/// Which threads are done after one more.
proof fn lemma_closed_step(before: RouterModel, keys: Seq<Seq<char>>, i: int, event: AppServerEvent)
    requires
        0 <= i < keys.len(),
        keys.no_duplicates(),
    ensures
        forall|k: Seq<char>| #[trigger]
            keys.take(i + 1).contains(k) <==> keys.take(i).contains(k) || k == keys[i],
        !keys.take(i).contains(keys[i]),
{
    let shorter = keys.take(i);
    let longer = keys.take(i + 1);
    assert forall|k: Seq<char>| #[trigger] longer.contains(k) <==> shorter.contains(k) || k == keys[i] by {
        if longer.contains(k) {
            let j = choose|j: int| 0 <= j < longer.len() && longer[j] == k;
            if j < i {
                assert(shorter[j] == k);
            }
        }
        if shorter.contains(k) {
            let j = choose|j: int| 0 <= j < shorter.len() && shorter[j] == k;
            assert(longer[j] == k);
        }
        assert(longer[i] == keys[i]);
    }
    if shorter.contains(keys[i]) {
        let j = choose|j: int| 0 <= j < shorter.len() && shorter[j] == keys[i];
        assert(keys[j] == keys[i]);
    }
}

/// Removes every occurrence of `id` from `list`.
fn drop_text(list: &mut VecDeque<String>, id: &String)
    ensures
        texts(final(list)@) == without(texts(old(list)@), id@),
{
    let mut rest: VecDeque<String> = VecDeque::new();
    std::mem::swap(list, &mut rest);
    let ghost all = rest@;
    let ghost mut i: int = 0;
    proof {
        reveal(Seq::filter);
        assert(texts(all).take(0) =~= Seq::<Seq<char>>::empty());
        assert(texts(list@) =~= without(texts(all).take(0), id@));
    }
    while rest.len() > 0
        invariant
            0 <= i <= all.len(),
            rest@ == all.skip(i),
            texts(list@) == without(texts(all).take(i), id@),
        decreases rest@.len(),
    {
        proof {
            lemma_without_step(texts(all), id@, i);
        }
        if let Some(next) = rest.pop_front() {
            assert(next == all[i]);
            assert(rest@ =~= all.skip(i + 1));
            let ghost before = list@;
            if next != *id {
                list.push_back(next);
                assert(texts(list@) =~= texts(before).push(next@));
            }
            proof {
                i = i + 1;
            }
        }
    }
    assert(texts(all).take(i) =~= texts(all));
}

impl EventRouter {
    /// The state of the router is in order.
    pub open spec fn wf(self) -> bool {
        self@.wf()
    }

    /// A router whose streams hold `stream_capacity` live events each, and at
    /// least one.
    pub fn new(stream_capacity: usize) -> (router: Self)
        requires
            stream_capacity <= MAX_QUEUE_CAPACITY,
        ensures
            router.wf(),
            router@ == RouterModel::fresh(if stream_capacity == 0 { 1 } else { stream_capacity as nat }),
    {
        let stream_capacity: usize = if stream_capacity == 0 { 1 } else { stream_capacity };
        let router = EventRouter {
            runtime: RuntimeRoute::Pending(PendingEvents::new()),
            threads: TextMap::new(),
            inactive: VecDeque::new(),
            next_generation: 1,
            closed: false,
            attachments: Attachments::new(),
            blocked: None,
            in_flight: VecDeque::new(),
            stream_capacity,
        };
        assert(router@ =~= RouterModel::fresh(stream_capacity as nat));
        assert(router@.inactive =~= Seq::<Seq<char>>::empty());
        router
    }

    /// Whether every routed event has been delivered.
    pub fn is_idle(&self) -> (idle: bool)
        ensures
            idle == (self@.blocked is None),
    {
        self.blocked.is_none()
    }

    /// How many threads have a route.
    pub fn thread_count(&self) -> (count: usize)
        ensures
            count == self@.threads.dom().len(),
    {
        let count = self.threads.len();
        proof {
            self.threads.keys().unique_seq_to_set();
            assert(self.threads.keys().to_set() =~= self@.threads.dom());
        }
        count
    }

    /// How many threads have a route that no request and no stream owns.
    pub fn inactive_count(&self) -> (count: usize)
        ensures
            count == self@.inactive.len(),
    {
        self.inactive.len()
    }

    /// Whether the thread with the canonical id `id` has a route.
    pub fn has_thread(&self, id: &str) -> (present: bool)
        ensures
            present == self@.threads.contains_key(id@),
    {
        self.threads.contains_key(id)
    }

    /// Whether the owner of the thread with the canonical id `id` has given its
    /// stream back.
    pub fn is_detached(&self, id: &str) -> (detached: bool)
        ensures
            detached == (self@.threads.contains_key(id@) && self@.threads[id@] is Detached),
    {
        match self.threads.get(id) {
            Some(ThreadRoute::Detached) => true,
            _ => false,
        }
    }

    fn allocate_generation(&mut self) -> (generation: u64)
        ensures
            generation == old(self)@.next_generation,
            final(self)@ == old(self)@.advance_generation(),
    {
        let generation = self.next_generation;
        self.next_generation = if generation == u64::MAX { 1 } else { generation + 1 };
        generation
    }

    fn remove_thread(&mut self, id: &String) -> (route: Option<ThreadRoute>)
        ensures
            final(self)@ == old(self)@.remove_thread(id@),
            match route {
                Some(route) => old(self)@.threads.contains_key(id@) && route@ == old(self)@.threads[id@],
                None => !old(self)@.threads.contains_key(id@),
            },
    {
        drop_text(&mut self.inactive, id);
        let route = self.threads.remove(id.as_str());
        assert(self@.threads =~= old(self)@.threads.remove(id@));
        route
    }

    fn set_inactive(&mut self, id: String, route: ThreadRoute)
        requires
            old(self)@.inactive.len() <= INACTIVE_ROUTE_CAPACITY,
        ensures
            final(self)@ == old(self)@.set_inactive(id@, route@),
    {
        proof {
            lemma_without(self@.inactive, id@);
        }
        drop_text(&mut self.inactive, &id);
        let ghost kept = self.inactive@;
        let _ = self.threads.insert(id.clone(), route);
        assert(self@.threads =~= old(self)@.threads.insert(id@, route@));
        self.inactive.push_back(id);
        assert(texts(self.inactive@) =~= texts(kept).push(id@));
        if self.inactive.len() > INACTIVE_ROUTE_CAPACITY {
            let ghost listed = self.inactive@;
            let ghost threads = self@.threads;
            if let Some(evicted) = self.inactive.pop_front() {
                assert(texts(listed)[0] == evicted@);
                assert(texts(self.inactive@) =~= texts(listed).drop_first());
                let unowned = match self.threads.get(evicted.as_str()) {
                    Some(route) => route.is_inactive(),
                    None => false,
                };
                if unowned {
                    let _ = self.threads.remove(evicted.as_str());
                    assert(self@.threads =~= threads.remove(evicted@));
                }
            }
        }
    }

    /// Gives `id` the route `route`, where `remove_thread` has dropped the one
    /// before.
    fn place(&mut self, id: String, route: ThreadRoute, Ghost(before): Ghost<RouterModel>)
        requires
            old(self)@ == before.remove_thread(id@),
            before.inactive.len() <= INACTIVE_ROUTE_CAPACITY,
        ensures
            final(self)@ == before.place(id@, route@),
    {
        proof {
            lemma_without(before.inactive, id@);
            lemma_without(without(before.inactive, id@), id@);
        }
        if route.is_inactive() {
            self.set_inactive(id, route);
            proof {
                assert(before.threads.remove(id@).insert(id@, route@) =~= before.threads.insert(id@, route@));
            }
        } else {
            let _ = self.threads.insert(id, route);
            assert(self@.threads =~= old(self)@.threads.insert(id@, route@));
            assert(before.threads.remove(id@).insert(id@, route@) =~= before.threads.insert(id@, route@));
        }
    }

    /// Whether `id` can be attached now, and the error if it cannot.
    fn check_attachable(&self, id: &String) -> (checked: Result<()>)
        ensures
            match self@.attach_refusal(id@) {
                Some(refusal) => checked matches Err(error) && refused_with(error, refusal, id@),
                None => checked is Ok,
            },
    {
        if self.closed {
            return Err(Error::RuntimeClosed);
        }
        match self.threads.get(id.as_str()) {
            Some(ThreadRoute::Active { .. }) => Err(Error::ThreadEventStreamTaken { thread_id: id.clone() }),
            Some(ThreadRoute::Reserved { .. }) => Err(Error::ThreadLifecycleInProgress { thread_id: id.clone() }),
            _ => Ok(()),
        }
    }

    /// Reserves a thread for a resume or unarchive request.
    pub fn prepare_thread(&mut self, thread_id: &str, kind: ThreadAttachmentKind) -> (reserved: Result<
        ThreadEventReservation,
    >)
        requires
            old(self).wf(),
        ensures
            final(self).wf(),
            match canonical_thread_id(thread_id@) {
                Some(id) => thread_reserved(old(self)@, final(self)@, reserved, id, kind),
                None => reserved matches Err(error) && is_invalid_id(error, thread_id@) && final(self)@ == old(self)@,
            },
    {
        match parse_thread_id(thread_id) {
            Ok(id) => self.prepare_parsed_thread(id, kind),
            Err(error) => Err(error),
        }
    }

    /// Reserves the thread with the canonical id `id`.
    pub fn prepare_parsed_thread(&mut self, id: String, kind: ThreadAttachmentKind) -> (reserved: Result<
        ThreadEventReservation,
    >)
        requires
            old(self).wf(),
        ensures
            final(self).wf(),
            thread_reserved(old(self)@, final(self)@, reserved, id@, kind),
    {
        match self.check_attachable(&id) {
            Ok(()) => {},
            Err(error) => return Err(error),
        }
        let ghost before = self@;
        let pending = match self.remove_thread(&id) {
            Some(ThreadRoute::Pending(pending)) => pending,
            _ => PendingEvents::new(),
        };
        let generation = self.next_generation;
        self.place(
            id.clone(),
            ThreadRoute::Reserved { generation, pending, phase: kind.phase() },
            Ghost(before),
        );
        let _ = self.allocate_generation();
        proof {
            lemma_reserve(before, id@, kind);
        }
        Ok(ThreadEventReservation { thread_id: id, generation })
    }

    /// Takes the stream of a thread.
    pub fn take_thread(&mut self, thread_id: &str) -> (taken: Result<EventReceiver>)
        requires
            old(self).wf(),
        ensures
            final(self).wf(),
            match canonical_thread_id(thread_id@) {
                Some(id) => thread_taken(old(self)@, final(self)@, taken, id),
                None => taken matches Err(error) && is_invalid_id(error, thread_id@) && final(self)@ == old(self)@,
            },
    {
        match parse_thread_id(thread_id) {
            Ok(id) => self.take_parsed_thread(id),
            Err(error) => Err(error),
        }
    }

    /// Takes the stream of the thread with the canonical id `id`.
    pub fn take_parsed_thread(&mut self, id: String) -> (taken: Result<EventReceiver>)
        requires
            old(self).wf(),
        ensures
            final(self).wf(),
            thread_taken(old(self)@, final(self)@, taken, id@),
    {
        match self.check_attachable(&id) {
            Ok(()) => {},
            Err(error) => return Err(error),
        }
        let ghost before = self@;
        let ghost key = id@;
        let generation = self.next_generation;
        let receiver = match self.remove_thread(&id) {
            Some(ThreadRoute::Closed(pending)) => {
                self.place(id.clone(), ThreadRoute::Terminated, Ghost(before));
                let slot = self.attachments.attach(
                    Attachment { owner: RouteTarget::Thread(id), generation, mailbox: closed_mailbox(pending) },
                );
                proof {
                    lemma_place_frame(before, key, ThreadRouteModel::Terminated);
                }
                EventReceiver { slot }
            },
            Some(ThreadRoute::Pending(pending)) => self.activate_pending(
                id,
                pending,
                generation,
                AttachmentPhase::Ready,
                Ghost(before),
            ),
            _ => self.activate_pending(
                id,
                PendingEvents::new(),
                generation,
                AttachmentPhase::Ready,
                Ghost(before),
            ),
        };
        let _ = self.allocate_generation();
        proof {
            assert(self@ =~= before.take_thread(key, receiver.slot));
            lemma_take_thread(before, key, receiver.slot);
        }
        Ok(receiver)
    }

    /// Makes a new attachment the owner of the stream of `id`, where
    /// `remove_thread` has dropped the route before.
    fn activate_pending(
        &mut self,
        id: String,
        pending: PendingEvents,
        generation: u64,
        phase: AttachmentPhase,
        Ghost(before): Ghost<RouterModel>,
    ) -> (receiver: EventReceiver)
        requires
            before.wf(),
            !before.closed,
            old(self)@ == before.remove_thread(id@),
        ensures
            !before.attachments.contains_key(receiver.slot()),
            final(self)@ == before.activate(id@, pending@, generation, phase, receiver.slot()),
    {
        let ghost replay = pending@;
        let mailbox = open_mailbox(self.stream_capacity, pending);
        let slot = self.attachments.attach(
            Attachment { owner: RouteTarget::Thread(id.clone()), generation, mailbox },
        );
        let ghost attached = before.attach(slot, OwnerModel::Thread(id@), generation, mailbox@);
        assert(self@ =~= attached.remove_thread(id@));
        let ghost key = id@;
        self.place(id, ThreadRoute::Active { generation, slot, phase }, Ghost(attached));
        assert(self@ =~= before.activate(key, replay, generation, phase, slot));
        EventReceiver { slot }
    }

    /// Takes the runtime stream, which can be taken once.
    pub fn take_runtime(&mut self) -> (taken: Result<EventReceiver>)
        requires
            old(self).wf(),
        ensures
            final(self).wf(),
            if old(self)@.closed {
                taken matches Err(error) && error is RuntimeClosed && final(self)@ == old(self)@
            } else if !(old(self)@.runtime is Pending) {
                taken matches Err(error) && error is CodexEventStreamTaken && final(self)@ == old(self)@
            } else {
                taken matches Ok(receiver) && !old(self)@.attachments.contains_key(receiver.slot()) && final(self)@
                    == old(self)@.take_runtime(receiver.slot())
            },
    {
        if self.closed {
            return Err(Error::RuntimeClosed);
        }
        let ghost before = self@;
        let mut route = RuntimeRoute::Detached;
        std::mem::swap(&mut route, &mut self.runtime);
        match route {
            RuntimeRoute::Pending(pending) => {
                let generation = self.allocate_generation();
                let mailbox = open_mailbox(self.stream_capacity, pending);
                let slot = self.attachments.attach(Attachment { owner: RouteTarget::Runtime, generation, mailbox });
                self.runtime = RuntimeRoute::Active { generation, slot };
                proof {
                    assert(self@ =~= before.take_runtime(slot));
                    lemma_take_runtime(before, slot);
                }
                Ok(EventReceiver { slot })
            },
            route => {
                self.runtime = route;
                assert(self@ =~= before);
                Err(Error::CodexEventStreamTaken)
            },
        }
    }

    /// Attaches a reserved thread.
    pub fn claim_reserved_thread(&mut self, thread_id: String, generation: u64) -> (claimed: Result<EventReceiver>)
        requires
            old(self).wf(),
        ensures
            final(self).wf(),
            thread_claimed(old(self)@, final(self)@, claimed, thread_id@, generation),
    {
        if self.closed {
            return Err(Error::RuntimeClosed);
        }
        let ghost before = self@;
        let ghost key = thread_id@;
        match self.remove_thread(&thread_id) {
            Some(ThreadRoute::Reserved { generation: current, pending, phase }) => {
                if current == generation {
                    let receiver = self.activate_pending(thread_id, pending, generation, phase, Ghost(before));
                    proof {
                        lemma_claim(before, key, generation, receiver.slot);
                    }
                    return Ok(receiver);
                }
                self.place(
                    thread_id.clone(),
                    ThreadRoute::Reserved { generation: current, pending, phase },
                    Ghost(before),
                );
            },
            Some(route) => self.place(thread_id.clone(), route, Ghost(before)),
            None => {
                proof {
                    lemma_without(before.inactive, key);
                    assert(!before.inactive.contains(key));
                    assert(before.threads.remove(key) =~= before.threads);
                }
            },
        }
        proof {
            lemma_touch(before, key);
        }
        Err(Error::ThreadLifecycleInProgress { thread_id })
    }

    /// Gives up a reservation.
    pub fn cancel_reserved_thread(&mut self, thread_id: String, generation: u64)
        requires
            old(self).wf(),
        ensures
            final(self).wf(),
            final(self)@ == old(self)@.cancel(thread_id@, generation),
    {
        let held = match self.threads.get(thread_id.as_str()) {
            Some(ThreadRoute::Reserved { generation: current, .. }) => *current == generation,
            _ => false,
        };
        proof {
            lemma_cancel(self@, thread_id@, generation);
        }
        if held {
            self.set_inactive(thread_id, ThreadRoute::Detached);
        }
    }

    /// Takes the owner away from the route of `target` where the owner is the
    /// attachment with this generation.
    fn detach(&mut self, target: &RouteTarget, generation: u64)
        requires
            old(self)@.inactive.len() <= INACTIVE_ROUTE_CAPACITY,
        ensures
            final(self)@ == old(self)@.detach(target@, generation),
    {
        match target {
            RouteTarget::Runtime => {
                let attached = match &self.runtime {
                    RuntimeRoute::Active { generation: current, .. } => *current == generation,
                    _ => false,
                };
                if attached {
                    self.runtime = RuntimeRoute::Detached;
                }
            },
            RouteTarget::Thread(thread_id) => {
                let attached = match self.threads.get(thread_id.as_str()) {
                    Some(ThreadRoute::Active { generation: current, .. }) => *current == generation,
                    _ => false,
                };
                if attached {
                    self.set_inactive(thread_id.clone(), ThreadRoute::Detached);
                }
            },
        }
    }

    /// Takes the owner away from the route of `target` where `slot` serves it.
    fn detach_active(&mut self, target: &RouteTarget, slot: usize)
        requires
            old(self)@.inactive.len() <= INACTIVE_ROUTE_CAPACITY,
        ensures
            final(self)@ == old(self)@.detach_active(target@, slot),
    {
        match target {
            RouteTarget::Runtime => self.detach_active_runtime(slot),
            RouteTarget::Thread(thread_id) => self.detach_active_thread(thread_id, slot),
        }
    }

    fn detach_active_thread(&mut self, thread_id: &String, active: usize)
        requires
            old(self)@.inactive.len() <= INACTIVE_ROUTE_CAPACITY,
        ensures
            final(self)@ == old(self)@.detach_active(OwnerModel::Thread(thread_id@), active),
    {
        let serves = match self.threads.get(thread_id.as_str()) {
            Some(ThreadRoute::Active { slot, .. }) => *slot == active,
            _ => false,
        };
        if serves {
            self.set_inactive(thread_id.clone(), ThreadRoute::Detached);
        }
    }

    fn detach_active_runtime(&mut self, active: usize)
        ensures
            final(self)@ == old(self)@.detach_active(OwnerModel::Runtime, active),
    {
        let serves = match &self.runtime {
            RuntimeRoute::Active { slot, .. } => *slot == active,
            _ => false,
        };
        if serves {
            self.runtime = RuntimeRoute::Detached;
        }
    }

    /// Passes an event on to an attachment.
    fn deliver(&mut self, delivery: Delivery)
        requires
            old(self)@.settled_wf(),
            old(self)@.blocked is None,
            old(self)@.attachments.contains_key(delivery.slot),
        ensures
            final(self)@ == old(self)@.deliver(delivery.slot, delivery.event),
    {
        let ghost before = self@;
        proof {
            lemma_deliver(before, delivery.slot, delivery.event);
            assert(before.attachment_wf(delivery.slot));
        }
        let Delivery { slot, event } = delivery;
        let ghost passed_on = event;
        let required = event_requires_delivery(&event);
        let accepted = self.attachments.forward(slot, event, required);
        if self.attachments.is_waiting(slot) {
            self.blocked = Some(slot);
        }
        if !accepted {
            let owner = match self.attachments.owner(slot) {
                RouteTarget::Runtime => RouteTarget::Runtime,
                RouteTarget::Thread(thread_id) => RouteTarget::Thread(thread_id.clone()),
            };
            self.detach_active(&owner, slot);
        }
        assert(self@ =~= before.deliver(slot, passed_on));
    }

    /// Delivers what is in flight until an event has to wait.
    fn pump(&mut self)
        requires
            old(self)@.settled_wf(),
        ensures
            final(self)@ == old(self)@.pump(),
            final(self).wf(),
    {
        proof {
            lemma_pump(self@);
        }
        while self.blocked.is_none() && self.in_flight.len() > 0
            invariant
                self@.settled_wf(),
                self@.pump() == old(self)@.pump(),
                old(self)@.pump().wf(),
            decreases self@.in_flight.len(),
        {
            let ghost before = self@;
            if let Some(delivery) = self.in_flight.pop_front() {
                let ghost rest = before.in_flight.drop_first();
                assert(delivery == before.in_flight[0]);
                assert(self@ =~= (RouterModel { in_flight: rest, ..before }));
                proof {
                    lemma_deliver_ignores_in_flight(before, rest, delivery.slot, delivery.event);
                    lemma_drop_first(before);
                    lemma_deliver(self@, delivery.slot, delivery.event);
                }
                self.deliver(delivery);
            }
        }
    }

    /// Drops what is on its way to `slot`.
    fn drop_deliveries(&mut self, slot: usize)
        ensures
            final(self)@ == (RouterModel { in_flight: not_to(old(self)@.in_flight, slot), ..old(self)@ }),
    {
        let mut rest: VecDeque<Delivery> = VecDeque::new();
        std::mem::swap(&mut self.in_flight, &mut rest);
        let ghost all = rest@;
        let ghost mut i: int = 0;
        proof {
            reveal(Seq::filter);
            assert(all.take(0) =~= Seq::<Delivery>::empty());
            assert(self.in_flight@ =~= not_to(all.take(0), slot));
        }
        while rest.len() > 0
            invariant
                0 <= i <= all.len(),
                rest@ == all.skip(i),
                self@ == (RouterModel { in_flight: not_to(all.take(i), slot), ..old(self)@ }),
            decreases rest@.len(),
        {
            proof {
                reveal(Seq::filter);
                assert(all.take(i + 1).drop_last() =~= all.take(i));
            }
            if let Some(next) = rest.pop_front() {
                assert(next == all[i]);
                assert(rest@ =~= all.skip(i + 1));
                if next.slot != slot {
                    self.in_flight.push_back(next);
                }
                proof {
                    i = i + 1;
                }
            }
        }
        assert(all.take(i) =~= all);
    }

    /// Brings an event that does not end the thread to its route.
    fn enqueue_thread(&mut self, thread_id: String, event: AppServerEvent)
        requires
            old(self).wf(),
            old(self)@.blocked is None,
        ensures
            final(self)@ == old(self)@.enqueue_thread(thread_id@, event),
            final(self).wf(),
    {
        let ghost before = self@;
        let ghost key = thread_id@;
        proof {
            lemma_enqueue_thread(before, key, event);
        }
        if self.closed {
            return ;
        }
        if !self.threads.contains_key(thread_id.as_str()) {
            proof {
                let fresh = ThreadRouteModel::Pending(PendingModel::empty());
                lemma_place(before, key, fresh);
                lemma_place_frame(before, key, fresh);
            }
            self.set_inactive(thread_id.clone(), ThreadRoute::pending());
        }
        let ghost known = self@;
        assert(known.thread_wf(key));
        match self.threads.remove(thread_id.as_str()) {
            Some(route) => {
                proof {
                    lemma_enqueue_route(route@, event);
                    lemma_update_thread(known, key, route@.enqueue(event));
                }
                let (route, delivery) = route.enqueue(event);
                let ghost next = route@;
                let ghost shrunk = self@.threads;
                let _ = self.threads.insert(thread_id, route);
                assert(shrunk =~= known.threads.remove(key));
                assert(self@.threads =~= shrunk.insert(key, next));
                assert(self@ =~= (RouterModel { threads: known.threads.insert(key, next), ..known }));
                if let Some(delivery) = delivery {
                    self.deliver(delivery);
                }
            },
            None => {
                assert(false);
            },
        }
    }

    /// Brings an event to the runtime stream.
    fn enqueue_runtime(&mut self, event: AppServerEvent)
        requires
            old(self).wf(),
            old(self)@.blocked is None,
        ensures
            final(self)@ == old(self)@.enqueue_runtime(event),
            final(self).wf(),
    {
        let ghost before = self@;
        proof {
            lemma_enqueue_runtime(before, event);
        }
        if self.closed {
            return ;
        }
        let mut route = RuntimeRoute::Detached;
        std::mem::swap(&mut route, &mut self.runtime);
        let (route, delivery) = route.enqueue(event);
        self.runtime = route;
        if let Some(delivery) = delivery {
            assert(self@ =~= before);
            self.deliver(delivery);
        }
        assert(self@ =~= before.enqueue_runtime(event));
    }

    /// Ends a thread.
    fn close_thread(&mut self, thread_id: String, event: AppServerEvent, source: TerminalSource)
        requires
            old(self).wf(),
        ensures
            final(self)@ == old(self)@.close_thread(thread_id@, event, source),
            final(self).wf(),
    {
        let ghost before = self@;
        let ghost key = thread_id@;
        proof {
            lemma_close_thread(before, key, event, source);
        }
        if self.closed {
            return ;
        }
        match self.remove_thread(&thread_id) {
            Some(route) => {
                proof {
                    assert(before.thread_wf(key));
                    lemma_place_frame(before, key, route@.close_thread(event, source));
                }
                let (route, ended) = route.close_thread(event, source);
                self.place(thread_id, route, Ghost(before));
                if let Some(Delivery { slot, event }) = ended {
                    assert(before.attachment_wf(slot));
                    self.attachments.close(slot, event);
                }
                assert(self@ =~= before.close_thread(key, event, source));
            },
            None => {
                proof {
                    lemma_without(before.inactive, key);
                    assert(!before.inactive.contains(key));
                    assert(before.threads.remove(key) =~= before.threads);
                }
            },
        }
    }

    /// Completes the local archive boundary from the successful response. The
    /// matching notification comes after the response, if it comes at all.
    pub fn complete_archive(&mut self, thread_id: &str) -> (completed: Result<()>)
        requires
            old(self).wf(),
        ensures
            final(self).wf(),
            match canonical_thread_id(thread_id@) {
                Some(id) => completed is Ok && archive_completed(old(self)@, final(self)@, id),
                None => completed matches Err(error) && is_invalid_id(error, thread_id@) && final(self)@ == old(self)@,
            },
    {
        match parse_thread_id(thread_id) {
            Ok(id) => {
                self.complete_parsed_archive(id);
                Ok(())
            },
            Err(error) => Err(error),
        }
    }

    /// Completes the local archive boundary of the thread with the canonical
    /// id `id`.
    pub fn complete_parsed_archive(&mut self, id: String)
        requires
            old(self).wf(),
        ensures
            final(self).wf(),
            archive_completed(old(self)@, final(self)@, id@),
    {
        let thread_id = id.clone();
        self.close_thread(
            id,
            AppServerEvent::ServerNotification(ServerNotification::ThreadArchived(ThreadIdParams { thread_id })),
            TerminalSource::Authoritative,
        );
        assert(self@ == old(self)@.close_thread(id@, archived_event(thread_id), TerminalSource::Authoritative));
    }

    /// Brings an event to the stream it belongs to. The pump may have to wait
    /// with it: [`is_idle`](Self::is_idle) says whether it does, and the next
    /// event is routed when it no longer does.
    pub fn route(&mut self, event: AppServerEvent)
        requires
            old(self).wf(),
            old(self)@.blocked is None,
        ensures
            final(self).wf(),
            match event {
                AppServerEvent::Disconnected { .. } => final(self)@ == old(self)@.close(event),
                AppServerEvent::Lagged { skipped } => lag_broadcast(old(self)@, final(self)@, skipped),
                _ => final(self)@ == old(self)@.route_to(target_of(event), event),
            },
    {
        match event {
            AppServerEvent::Disconnected { message } => self.close(message),
            AppServerEvent::Lagged { skipped } => self.broadcast_lag(skipped),
            event => {
                let target = event_target(&event);
                self.route_to(target, event)
            },
        }
    }

    /// Brings an event to the stream that `target` says.
    pub fn route_to(&mut self, target: EventTarget, event: AppServerEvent)
        requires
            old(self).wf(),
            old(self)@.blocked is None,
        ensures
            final(self).wf(),
            final(self)@ == old(self)@.route_to(target@, event),
    {
        match target {
            EventTarget::Thread(thread_id) => {
                if thread_event_terminates_stream(&event) {
                    self.close_thread(thread_id, event, TerminalSource::Notification);
                } else {
                    self.enqueue_thread(thread_id, event);
                }
            },
            EventTarget::Runtime => self.enqueue_runtime(event),
            EventTarget::InvalidThread => {},
        }
    }

    /// Ends every route: each attached stream gets `message` as its last
    /// event.
    pub fn close(&mut self, message: String)
        requires
            old(self).wf(),
        ensures
            final(self).wf(),
            final(self)@ == old(self)@.close(AppServerEvent::Disconnected { message }),
    {
        let ghost before = self@;
        let ghost event = AppServerEvent::Disconnected { message };
        proof {
            lemma_close(before, event);
        }
        if self.closed {
            return ;
        }
        self.closed = true;
        let mut runtime = RuntimeRoute::Detached;
        std::mem::swap(&mut runtime, &mut self.runtime);
        if let RuntimeRoute::Active { slot, .. } = runtime {
            assert(before.attachment_wf(slot));
            self.attachments.close(slot, AppServerEvent::Disconnected { message: message.clone() });
        }
        let ghost routes = self.threads@;
        let ghost keys = self.threads.keys();
        let count = self.threads.len();
        let mut i: usize = 0;
        assert(keys.take(0) =~= Seq::<Seq<char>>::empty());
        assert(self.attachments@ =~= closed_so_far(before, keys.take(0), event));
        while i < count
            invariant
                before.wf(),
                !before.closed,
                before.threads == routes_model(routes),
                event == (AppServerEvent::Disconnected { message }),
                i <= count,
                count == keys.len(),
                keys.no_duplicates(),
                forall|k: Seq<char>| routes.contains_key(k) <==> #[trigger] keys.contains(k),
                self.threads.keys() == keys,
                self.threads@.dom() == routes.dom(),
                forall|j: int|
                    0 <= j < i ==> self.threads@[#[trigger] keys[j]]@ == routes[keys[j]]@.close_thread(
                        event,
                        TerminalSource::Authoritative,
                    ),
                forall|j: int| i <= j < count ==> self.threads@[#[trigger] keys[j]] == routes[keys[j]],
                self.attachments@ == closed_so_far(before, keys.take(i as int), event),
                self.closed,
                self.runtime is Detached,
                self.inactive@ == old(self).inactive@,
                self.next_generation == old(self).next_generation,
                self.blocked == old(self).blocked,
                self.in_flight@ == old(self).in_flight@,
                self.stream_capacity == old(self).stream_capacity,
            decreases count - i,
        {
            let ghost key = keys[i as int];
            assert(keys.contains(key));
            assert(before.threads.contains_key(key));
            assert(before.thread_wf(key));
            let route = self.threads.replace_at(i, ThreadRoute::Detached);
            let (route, ended) = route.close_thread(
                AppServerEvent::Disconnected { message: message.clone() },
                TerminalSource::Authoritative,
            );
            let _ = self.threads.replace_at(i, route);
            assert(self.threads@.dom() =~= routes.dom());
            proof {
                lemma_closed_step(before, keys, i as int, event);
            }
            if let Some(Delivery { slot, event: last }) = ended {
                assert(before.attachment_wf(slot));
                self.attachments.close(slot, last);
                assert(self.attachments@ =~= closed_so_far(before, keys.take(i + 1), event));
            } else {
                assert(self.attachments@ =~= closed_so_far(before, keys.take(i + 1), event));
            }
            i += 1;
        }
        proof {
            assert(keys.take(count as int) =~= keys);
            let after = before.close(event);
            assert forall|k: Seq<char>| self@.threads.contains_key(k) implies self@.threads[k] == after.threads[k] by {
                assert(keys.contains(k));
                let j = choose|j: int| 0 <= j < keys.len() && keys[j] == k;
                assert(self.threads@[keys[j]]@ == routes[keys[j]]@.close_thread(event, TerminalSource::Authoritative));
            }
            assert(self@.threads =~= after.threads);
            assert(self.attachments@ =~= after.attachments) by {
                assert forall|slot: usize| before.attachments.contains_key(slot) implies self.attachments@[slot]
                    == after.attachments[slot] by {
                    if let OwnerModel::Thread(k) = before.attachments[slot].owner {
                        if before.threads.contains_key(k) {
                            assert(keys.contains(k));
                        }
                    }
                }
            }
            assert(self@ =~= after);
        }
    }

    /// Brings the marker for `skipped` lost events to every route.
    fn broadcast_lag(&mut self, skipped: usize)
        requires
            old(self).wf(),
            old(self)@.blocked is None,
        ensures
            final(self).wf(),
            lag_broadcast(old(self)@, final(self)@, skipped),
    {
        let ghost before = self@;
        let ghost event = AppServerEvent::Lagged { skipped };
        let ghost routes = self.threads@;
        let ghost keys = self.threads.keys();
        let count = self.threads.len();
        proof {
            assert(before.lists_threads(keys)) by {
                assert forall|id: Seq<char>| before.threads.contains_key(id) <==> #[trigger] keys.contains(id) by {
                    assert(routes.contains_key(id) <==> keys.contains(id));
                }
            }
            lemma_broadcast_lag(before, keys, skipped);
        }
        if self.closed {
            assert(before.broadcast_lag(keys, skipped) == before);
            return ;
        }
        let mut in_flight: VecDeque<Delivery> = VecDeque::new();
        let mut runtime = RuntimeRoute::Detached;
        std::mem::swap(&mut runtime, &mut self.runtime);
        let (runtime, delivery) = runtime.enqueue(AppServerEvent::Lagged { skipped });
        self.runtime = runtime;
        if let Some(delivery) = delivery {
            in_flight.push_back(delivery);
        }
        let ghost first = before.runtime_delivery(event);
        assert(in_flight@ =~= first);
        let ghost started = self@;
        assert(keys.take(0) =~= Seq::<Seq<char>>::empty());
        assert(in_flight@ =~= first + before.thread_deliveries(keys.take(0), event));
        let mut i: usize = 0;
        while i < count
            invariant
                before.wf(),
                before.threads == routes_model(routes),
                event == (AppServerEvent::Lagged { skipped }),
                i <= count,
                count == keys.len(),
                keys.no_duplicates(),
                forall|k: Seq<char>| routes.contains_key(k) <==> #[trigger] keys.contains(k),
                self.threads.keys() == keys,
                self.threads@.dom() == routes.dom(),
                forall|j: int|
                    0 <= j < i ==> self.threads@[#[trigger] keys[j]]@ == routes[keys[j]]@.enqueue(event),
                forall|j: int| i <= j < count ==> self.threads@[#[trigger] keys[j]] == routes[keys[j]],
                in_flight@ == first + before.thread_deliveries(keys.take(i as int), event),
                self@ == (RouterModel { threads: self@.threads, ..started }),
            decreases count - i,
        {
            let ghost key = keys[i as int];
            assert(keys.contains(key));
            assert(before.threads.contains_key(key));
            assert(before.thread_wf(key));
            let route = self.threads.replace_at(i, ThreadRoute::Detached);
            let (route, delivery) = route.enqueue(AppServerEvent::Lagged { skipped });
            let _ = self.threads.replace_at(i, route);
            assert(self.threads@.dom() =~= routes.dom());
            proof {
                assert(keys.take(i + 1).drop_last() =~= keys.take(i as int));
                assert(keys.take(i + 1).last() == key);
            }
            if let Some(delivery) = delivery {
                in_flight.push_back(delivery);
            }
            assert(in_flight@ =~= first + before.thread_deliveries(keys.take(i + 1), event));
            i += 1;
        }
        self.in_flight = in_flight;
        proof {
            assert(keys.take(count as int) =~= keys);
            let enqueued = before.threads.map_values(|route: ThreadRouteModel| route.enqueue(event));
            assert forall|k: Seq<char>| self@.threads.contains_key(k) implies self@.threads[k] == enqueued[k] by {
                assert(keys.contains(k));
                let j = choose|j: int| 0 <= j < keys.len() && keys[j] == k;
                assert(self.threads@[keys[j]]@ == routes[keys[j]]@.enqueue(event));
            }
            assert(self@.threads =~= enqueued);
            lemma_start_lag(before, keys, skipped);
            assert(self@ =~= before.start_lag(keys, skipped));
        }
        self.pump();
        assert(self@ == before.broadcast_lag(keys, skipped));
    }

    /// Takes the next event of a stream.
    pub fn try_recv(&mut self, receiver: &EventReceiver) -> (received: std::result::Result<
        AppServerEvent,
        TryRecvError,
    >)
        requires
            old(self).wf(),
        ensures
            final(self).wf(),
            final(self)@ == old(self)@.recv(receiver.slot()),
            received == (if old(self)@.attachments.contains_key(receiver.slot()) {
                old(self)@.attachments[receiver.slot()].mailbox.received()
            } else {
                Err(TryRecvError::Disconnected)
            }),
    {
        let ghost before = self@;
        let slot = receiver.slot;
        proof {
            lemma_recv(before, slot);
        }
        if !self.attachments.contains(slot) {
            return Err(TryRecvError::Disconnected);
        }
        assert(before.attachment_wf(slot));
        let received = self.attachments.try_recv(slot);
        if self.blocked.is_some() && !self.attachments.is_waiting(slot) {
            if let Some(blocked) = self.blocked {
                if blocked == slot {
                    self.blocked = None;
                }
            }
        }
        proof {
            let mailbox = before.attachments[slot].mailbox.after_recv();
            lemma_with_mailbox(before, slot, mailbox, self.blocked);
            assert(self@ =~= (RouterModel { blocked: self.blocked, ..before.with_mailbox(slot, mailbox) }));
        }
        self.pump();
        received
    }

    /// Gives a stream back. Its route loses its owner.
    pub fn release(&mut self, receiver: EventReceiver)
        requires
            old(self).wf(),
        ensures
            final(self).wf(),
            final(self)@ == old(self)@.release(receiver.slot()),
    {
        let ghost before = self@;
        let slot = receiver.slot;
        proof {
            lemma_release(before, slot);
        }
        if !self.attachments.contains(slot) {
            return ;
        }
        let attachment = self.attachments.remove(slot);
        self.detach(&attachment.owner, attachment.generation);
        if let Some(blocked) = self.blocked {
            if blocked == slot {
                self.blocked = None;
            }
        }
        self.drop_deliveries(slot);
        proof {
            assert(self@ =~= before.dismantle(slot));
            lemma_dismantle(before, slot);
        }
        self.pump();
    }

    /// Gives up what has not been delivered yet.
    pub fn abandon(&mut self)
        requires
            old(self).wf(),
        ensures
            final(self).wf(),
            final(self)@ == old(self)@.abandon(),
    {
        proof {
            lemma_abandon(self@);
        }
        if let Some(slot) = self.blocked {
            assert(self@.attachment_wf(slot));
            self.attachments.abandon(slot);
            self.blocked = None;
            self.in_flight = VecDeque::new();
            assert(self@ =~= old(self)@.abandon());
        }
    }
}

/// The canonical id that `thread_id` spells.
pub fn parse_thread_id(thread_id: &str) -> (parsed: Result<String>)
    ensures
        match canonical_thread_id(thread_id@) {
            Some(id) => parsed matches Ok(text) && text@ == id && canonical_thread_id(id) == Some(id),
            None => parsed matches Err(error) && is_invalid_id(error, thread_id@),
        },
{
    match parse_native_thread_id(thread_id) {
        Some(id) => Ok(id),
        None => Err(Error::InvalidThreadId { thread_id: thread_id.to_owned() }),
    }
}

} // verus!
