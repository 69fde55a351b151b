//! What the event router does, as functions from state to state.
use crate::event::{ends_stream, is_archive, is_unarchive, requires_delivery, AppServerEvent, TargetModel};
use crate::runtime::live_queue::MAX_QUEUE_CAPACITY;
use crate::runtime::mailbox::{MailboxModel, PendingModel};
use vstd::prelude::*;

verus! {

/// How many routes without an owner are kept. They keep late events from
/// creating ever new replay buffers. Active and reserved routes do not count.
pub const INACTIVE_ROUTE_CAPACITY: usize = 1_024;

/// Which lifecycle request reserves a thread.
#[derive(Clone, Copy, PartialEq, Eq, Structural)]
pub enum ThreadAttachmentKind {
    Resume,
    Unarchive,
}

/// Whether an archive notification for the thread may still be a late one.
#[derive(Clone, Copy, PartialEq, Eq, Structural)]
pub enum AttachmentPhase {
    Ready,
    AwaitingUnarchive,
}

/// Who says that a thread has ended.
#[derive(Clone, Copy, PartialEq, Eq, Structural)]
pub enum TerminalSource {
    /// A notification, which may be late.
    Notification,
    /// A response, or the end of the connection.
    Authoritative,
}

/// An event on its way to a mailbox.
pub struct Delivery {
    pub slot: usize,
    pub event: AppServerEvent,
}

/// The stream that an attachment serves.
pub enum OwnerModel {
    Runtime,
    Thread(Seq<char>),
}

/// An attached stream.
pub struct AttachmentModel {
    pub owner: OwnerModel,
    pub generation: u64,
    pub mailbox: MailboxModel,
}

/// The route of events that belong to no thread.
pub enum RuntimeRouteModel {
    /// Nobody has taken the stream yet.
    Pending(PendingModel),
    /// The stream has an owner.
    Active { generation: u64, slot: usize },
    /// The owner is gone, and nobody can replace it.
    Detached,
}

/// The route of one thread's events.
pub enum ThreadRouteModel {
    /// Events came before the thread was attached.
    Pending(PendingModel),
    /// A resume or unarchive request owns the next attachment.
    Reserved { generation: u64, pending: PendingModel, phase: AttachmentPhase },
    /// The stream has an owner.
    Active { generation: u64, slot: usize, phase: AttachmentPhase },
    /// The thread ended before it was attached.
    Closed(PendingModel),
    /// The thread has ended; what comes late is dropped.
    Terminated,
    /// The owner is gone; what comes late is dropped.
    Detached,
}

/// The phase in which a reservation starts.
pub open spec fn starting_phase(kind: ThreadAttachmentKind) -> AttachmentPhase {
    match kind {
        ThreadAttachmentKind::Resume => AttachmentPhase::Ready,
        ThreadAttachmentKind::Unarchive => AttachmentPhase::AwaitingUnarchive,
    }
}

/// The phase after `event`.
pub open spec fn phase_after(phase: AttachmentPhase, event: AppServerEvent) -> AttachmentPhase {
    if is_unarchive(event) {
        AttachmentPhase::Ready
    } else {
        phase
    }
}

/// Whether `event` is an archive notification from before the unarchive that
/// the route waits for.
pub open spec fn is_stale(event: AppServerEvent, source: TerminalSource, phase: AttachmentPhase) -> bool {
    source == TerminalSource::Notification && is_archive(event) && phase == AttachmentPhase::AwaitingUnarchive
}

impl ThreadRouteModel {
    /// No request and no stream owns the route.
    pub open spec fn is_inactive(self) -> bool {
        !(self is Active) && !(self is Reserved)
    }

    /// The events to replay when the route is attached.
    pub open spec fn replayable(self) -> PendingModel {
        match self {
            ThreadRouteModel::Pending(pending) => pending,
            ThreadRouteModel::Reserved { pending, .. } => pending,
            ThreadRouteModel::Closed(pending) => pending,
            _ => PendingModel::empty(),
        }
    }

    /// The route after an event that does not end it.
    pub open spec fn enqueue(self, event: AppServerEvent) -> Self {
        match self {
            ThreadRouteModel::Pending(pending) => ThreadRouteModel::Pending(pending.push(event)),
            ThreadRouteModel::Reserved { generation, pending, phase } => ThreadRouteModel::Reserved {
                generation,
                pending: pending.push(event),
                phase: phase_after(phase, event),
            },
            ThreadRouteModel::Active { generation, slot, phase } => ThreadRouteModel::Active {
                generation,
                slot,
                phase: phase_after(phase, event),
            },
            _ => self,
        }
    }

    /// The attachment that receives the route's events.
    pub open spec fn active_slot(self) -> Option<usize> {
        match self {
            ThreadRouteModel::Active { slot, .. } => Some(slot),
            _ => None,
        }
    }

    /// The route after an event that ends it.
    pub open spec fn close_thread(self, event: AppServerEvent, source: TerminalSource) -> Self {
        match self {
            ThreadRouteModel::Pending(pending) | ThreadRouteModel::Closed(pending) => ThreadRouteModel::Closed(
                pending.push(event),
            ),
            ThreadRouteModel::Reserved { pending, phase, .. } => if is_stale(event, source, phase) {
                self
            } else {
                ThreadRouteModel::Closed(pending.push(event))
            },
            ThreadRouteModel::Active { phase, .. } => if is_stale(event, source, phase) {
                self
            } else {
                ThreadRouteModel::Terminated
            },
            ThreadRouteModel::Terminated | ThreadRouteModel::Detached => ThreadRouteModel::Terminated,
        }
    }

    /// The attachment that an event which ends the route ends with it.
    pub open spec fn ended_slot(self, event: AppServerEvent, source: TerminalSource) -> Option<usize> {
        match self {
            ThreadRouteModel::Active { slot, phase, .. } => if is_stale(event, source, phase) {
                None
            } else {
                Some(slot)
            },
            _ => None,
        }
    }

    /// The replay buffer keeps to its bound.
    pub open spec fn wf(self) -> bool {
        self.replayable().wf()
    }
}

/// `list` without `id`.
pub open spec fn without(list: Seq<Seq<char>>, id: Seq<char>) -> Seq<Seq<char>> {
    list.filter(|k: Seq<char>| k != id)
}

/// The deliveries that do not go to `slot`.
pub open spec fn not_to(deliveries: Seq<Delivery>, slot: usize) -> Seq<Delivery> {
    deliveries.filter(|delivery: Delivery| delivery.slot != slot)
}

/// The generation after `generation`. Zero is never used.
pub open spec fn next_generation_after(generation: u64) -> u64 {
    if generation == u64::MAX {
        1
    } else {
        (generation + 1) as u64
    }
}

/// Why a thread cannot be attached.
pub enum AttachRefusal {
    RuntimeClosed,
    StreamTaken,
    LifecycleInProgress,
}

/// The state of the event router.
#[verifier::ext_equal]
pub struct RouterModel {
    pub runtime: RuntimeRouteModel,
    pub threads: Map<Seq<char>, ThreadRouteModel>,
    /// The threads whose route nobody owns, oldest first.
    pub inactive: Seq<Seq<char>>,
    pub next_generation: u64,
    pub closed: bool,
    pub attachments: Map<usize, AttachmentModel>,
    /// The attachment whose live queue the pump waits for.
    pub blocked: Option<usize>,
    /// What the pump delivers after that.
    pub in_flight: Seq<Delivery>,
    pub stream_capacity: nat,
}

impl RouterModel {
    /// A router that has seen no event.
    pub open spec fn fresh(stream_capacity: nat) -> Self {
        RouterModel {
            runtime: RuntimeRouteModel::Pending(PendingModel::empty()),
            threads: Map::empty(),
            inactive: Seq::empty(),
            next_generation: 1,
            closed: false,
            attachments: Map::empty(),
            blocked: None,
            in_flight: Seq::empty(),
            stream_capacity,
        }
    }

    /// Drops the route of `id`.
    pub open spec fn remove_thread(self, id: Seq<char>) -> Self {
        RouterModel {
            inactive: without(self.inactive, id),
            threads: self.threads.remove(id),
            ..self
        }
    }

    /// Gives `id` a route that nobody owns, as the newest of its kind. Beyond
    /// the bound the oldest one goes.
    pub open spec fn set_inactive(self, id: Seq<char>, route: ThreadRouteModel) -> Self {
        let inactive = without(self.inactive, id).push(id);
        let threads = self.threads.insert(id, route);
        if inactive.len() > INACTIVE_ROUTE_CAPACITY {
            let evicted = inactive[0];
            RouterModel {
                inactive: inactive.drop_first(),
                threads: if threads.contains_key(evicted) && threads[evicted].is_inactive() {
                    threads.remove(evicted)
                } else {
                    threads
                },
                ..self
            }
        } else {
            RouterModel { inactive, threads, ..self }
        }
    }

    /// Gives `id` the route `route`.
    pub open spec fn place(self, id: Seq<char>, route: ThreadRouteModel) -> Self {
        if route.is_inactive() {
            self.set_inactive(id, route)
        } else {
            RouterModel {
                inactive: without(self.inactive, id),
                threads: self.threads.insert(id, route),
                ..self
            }
        }
    }

    /// Uses up the next generation.
    pub open spec fn advance_generation(self) -> Self {
        RouterModel { next_generation: next_generation_after(self.next_generation), ..self }
    }

    /// Why `id` cannot be attached now.
    pub open spec fn attach_refusal(self, id: Seq<char>) -> Option<AttachRefusal> {
        if self.closed {
            Some(AttachRefusal::RuntimeClosed)
        } else if self.threads.contains_key(id) && self.threads[id] is Active {
            Some(AttachRefusal::StreamTaken)
        } else if self.threads.contains_key(id) && self.threads[id] is Reserved {
            Some(AttachRefusal::LifecycleInProgress)
        } else {
            None
        }
    }

    /// What a reservation of `id` starts with: the events of a thread that has
    /// not been attached and has not ended.
    pub open spec fn reservable(self, id: Seq<char>) -> PendingModel {
        if self.threads.contains_key(id) && self.threads[id] is Pending {
            self.threads[id].replayable()
        } else {
            PendingModel::empty()
        }
    }

    /// Reserves `id` for a lifecycle request.
    pub open spec fn reserve(self, id: Seq<char>, kind: ThreadAttachmentKind) -> Self {
        self.place(
            id,
            ThreadRouteModel::Reserved {
                generation: self.next_generation,
                pending: self.reservable(id),
                phase: starting_phase(kind),
            },
        ).advance_generation()
    }

    /// Adds an attachment.
    pub open spec fn attach(self, slot: usize, owner: OwnerModel, generation: u64, mailbox: MailboxModel) -> Self {
        RouterModel {
            attachments: self.attachments.insert(slot, AttachmentModel { owner, generation, mailbox }),
            ..self
        }
    }

    /// Makes `slot` the owner of the stream of `id`.
    pub open spec fn activate(
        self,
        id: Seq<char>,
        pending: PendingModel,
        generation: u64,
        phase: AttachmentPhase,
        slot: usize,
    ) -> Self {
        self.place(id, ThreadRouteModel::Active { generation, slot, phase }).attach(
            slot,
            OwnerModel::Thread(id),
            generation,
            MailboxModel::opened(self.stream_capacity, pending),
        )
    }

    /// Takes the stream of `id`. A thread that has ended before it was
    /// attached replays its events and ends.
    pub open spec fn take_thread(self, id: Seq<char>, slot: usize) -> Self {
        let generation = self.next_generation;
        if self.threads.contains_key(id) && self.threads[id] is Closed {
            self.place(id, ThreadRouteModel::Terminated).attach(
                slot,
                OwnerModel::Thread(id),
                generation,
                MailboxModel::ended(self.threads[id].replayable()),
            ).advance_generation()
        } else {
            self.activate(id, self.reservable(id), generation, AttachmentPhase::Ready, slot).advance_generation()
        }
    }

    /// Whether the runtime stream can be taken.
    pub open spec fn runtime_is_free(self) -> bool {
        !self.closed && self.runtime is Pending
    }

    /// Takes the runtime stream.
    pub open spec fn take_runtime(self, slot: usize) -> Self {
        let generation = self.next_generation;
        RouterModel { runtime: RuntimeRouteModel::Active { generation, slot }, ..self }.attach(
            slot,
            OwnerModel::Runtime,
            generation,
            MailboxModel::opened(self.stream_capacity, self.runtime->Pending_0),
        ).advance_generation()
    }

    /// Whether the reservation `generation` of `id` still stands.
    pub open spec fn holds_reservation(self, id: Seq<char>, generation: u64) -> bool {
        self.threads.contains_key(id) && self.threads[id] is Reserved && self.threads[id]->Reserved_generation
            == generation
    }

    /// Turns a reservation into an attachment.
    pub open spec fn claim(self, id: Seq<char>, generation: u64, slot: usize) -> Self {
        let route = self.threads[id];
        self.activate(id, route->Reserved_pending, generation, route->Reserved_phase, slot)
    }

    /// The state after a reservation was not found: a route that nobody owns
    /// counts as used just now.
    pub open spec fn touch(self, id: Seq<char>) -> Self {
        if self.closed || !self.threads.contains_key(id) {
            self
        } else {
            self.place(id, self.threads[id])
        }
    }

    /// Gives a reservation up. Events that come late are dropped.
    pub open spec fn cancel(self, id: Seq<char>, generation: u64) -> Self {
        if self.holds_reservation(id, generation) {
            self.set_inactive(id, ThreadRouteModel::Detached)
        } else {
            self
        }
    }

    /// Whether the route of `owner` is the attachment with this generation.
    pub open spec fn is_attached(self, owner: OwnerModel, generation: u64) -> bool {
        match owner {
            OwnerModel::Runtime => self.runtime is Active && self.runtime->Active_generation == generation,
            OwnerModel::Thread(id) => self.threads.contains_key(id) && self.threads[id] is Active
                && self.threads[id]->Active_generation == generation,
        }
    }

    /// Takes the owner away from a route.
    pub open spec fn detach_route(self, owner: OwnerModel) -> Self {
        match owner {
            OwnerModel::Runtime => RouterModel { runtime: RuntimeRouteModel::Detached, ..self },
            OwnerModel::Thread(id) => self.set_inactive(id, ThreadRouteModel::Detached),
        }
    }

    /// Takes the owner away from a route where the owner is this attachment.
    pub open spec fn detach(self, owner: OwnerModel, generation: u64) -> Self {
        if self.is_attached(owner, generation) {
            self.detach_route(owner)
        } else {
            self
        }
    }

    /// Whether `slot` serves the route of `owner`.
    pub open spec fn serves(self, owner: OwnerModel, slot: usize) -> bool {
        match owner {
            OwnerModel::Runtime => self.runtime is Active && self.runtime->Active_slot == slot,
            OwnerModel::Thread(id) => self.threads.contains_key(id) && self.threads[id].active_slot() == Some(slot),
        }
    }

    /// Takes the owner away from a route that `slot` serves.
    pub open spec fn detach_active(self, owner: OwnerModel, slot: usize) -> Self {
        if self.serves(owner, slot) {
            self.detach_route(owner)
        } else {
            self
        }
    }

    /// Replaces the mailbox of `slot`.
    pub open spec fn with_mailbox(self, slot: usize, mailbox: MailboxModel) -> Self {
        RouterModel {
            attachments: self.attachments.insert(slot, AttachmentModel { mailbox, ..self.attachments[slot] }),
            ..self
        }
    }

    /// Passes an event on to the mailbox of `slot`.
    pub open spec fn deliver(self, slot: usize, event: AppServerEvent) -> Self {
        let attachment = self.attachments[slot];
        let mailbox = attachment.mailbox.forward(event, requires_delivery(event));
        let passed = RouterModel {
            blocked: if mailbox.waiting.len() > 0 {
                Some(slot)
            } else {
                None
            },
            ..self.with_mailbox(slot, mailbox)
        };
        if attachment.mailbox.closed {
            passed.detach_active(attachment.owner, slot)
        } else {
            passed
        }
    }

    /// Delivers what is in flight until an event has to wait.
    pub open spec fn pump(self) -> Self
        decreases self.in_flight.len(),
    {
        if self.blocked is Some || self.in_flight.len() == 0 {
            self
        } else {
            let next = self.in_flight[0];
            RouterModel { in_flight: self.in_flight.drop_first(), ..self.deliver(next.slot, next.event) }.pump()
        }
    }

    /// Brings an event that does not end the thread to the route of `id`.
    pub open spec fn enqueue_thread(self, id: Seq<char>, event: AppServerEvent) -> Self {
        if self.closed {
            self
        } else {
            let known = if self.threads.contains_key(id) {
                self
            } else {
                self.set_inactive(id, ThreadRouteModel::Pending(PendingModel::empty()))
            };
            let route = known.threads[id];
            let queued = RouterModel { threads: known.threads.insert(id, route.enqueue(event)), ..known };
            match route.active_slot() {
                Some(slot) => queued.deliver(slot, event),
                None => queued,
            }
        }
    }

    /// Brings an event to the runtime stream.
    pub open spec fn enqueue_runtime(self, event: AppServerEvent) -> Self {
        if self.closed {
            self
        } else {
            match self.runtime {
                RuntimeRouteModel::Pending(pending) => RouterModel {
                    runtime: RuntimeRouteModel::Pending(pending.push(event)),
                    ..self
                },
                RuntimeRouteModel::Active { slot, .. } => self.deliver(slot, event),
                RuntimeRouteModel::Detached => self,
            }
        }
    }

    /// Ends the thread `id` with `event`. Without a route there is nothing to
    /// end, and none is made.
    pub open spec fn close_thread(self, id: Seq<char>, event: AppServerEvent, source: TerminalSource) -> Self {
        if self.closed || !self.threads.contains_key(id) {
            self
        } else {
            let route = self.threads[id];
            let settled = self.place(id, route.close_thread(event, source));
            match route.ended_slot(event, source) {
                Some(slot) => settled.with_mailbox(slot, self.attachments[slot].mailbox.close(event)),
                None => settled,
            }
        }
    }

    /// Brings an event to the route it belongs to.
    pub open spec fn route_to(self, target: TargetModel, event: AppServerEvent) -> Self {
        match target {
            TargetModel::Thread(id) => if ends_stream(event) {
                self.close_thread(id, event, TerminalSource::Notification)
            } else {
                self.enqueue_thread(id, event)
            },
            TargetModel::Runtime => self.enqueue_runtime(event),
            TargetModel::InvalidThread => self,
        }
    }

    /// Ends every route with `event`.
    pub open spec fn close(self, event: AppServerEvent) -> Self {
        if self.closed {
            self
        } else {
            RouterModel {
                closed: true,
                runtime: RuntimeRouteModel::Detached,
                threads: self.threads.map_values(
                    |route: ThreadRouteModel| route.close_thread(event, TerminalSource::Authoritative),
                ),
                attachments: Map::new(
                    |slot: usize| self.attachments.contains_key(slot),
                    |slot: usize|
                        if self.serves(self.attachments[slot].owner, slot) {
                            AttachmentModel {
                                mailbox: self.attachments[slot].mailbox.close(event),
                                ..self.attachments[slot]
                            }
                        } else {
                            self.attachments[slot]
                        },
                ),
                ..self
            }
        }
    }

    /// The deliveries of `event` to the active routes among `order`.
    pub open spec fn thread_deliveries(self, order: Seq<Seq<char>>, event: AppServerEvent) -> Seq<Delivery>
        decreases order.len(),
    {
        if order.len() == 0 {
            Seq::empty()
        } else {
            let before = self.thread_deliveries(order.drop_last(), event);
            match self.threads[order.last()].active_slot() {
                Some(slot) => before.push(Delivery { slot, event }),
                None => before,
            }
        }
    }

    /// The delivery of `event` to the runtime stream, where it has an owner.
    pub open spec fn runtime_delivery(self, event: AppServerEvent) -> Seq<Delivery> {
        match self.runtime {
            RuntimeRouteModel::Active { slot, .. } => seq![Delivery { slot, event }],
            _ => Seq::empty(),
        }
    }

    /// Puts the marker for `skipped` lost events on its way to every route, the
    /// runtime stream first and then the threads in the order `order`.
    pub open spec fn start_lag(self, order: Seq<Seq<char>>, skipped: usize) -> Self {
        let event = AppServerEvent::Lagged { skipped };
        RouterModel {
            runtime: match self.runtime {
                RuntimeRouteModel::Pending(pending) => RuntimeRouteModel::Pending(pending.push(event)),
                _ => self.runtime,
            },
            threads: self.threads.map_values(|route: ThreadRouteModel| route.enqueue(event)),
            in_flight: self.runtime_delivery(event) + self.thread_deliveries(order, event),
            ..self
        }
    }

    /// Brings the marker for `skipped` lost events to every route.
    pub open spec fn broadcast_lag(self, order: Seq<Seq<char>>, skipped: usize) -> Self {
        if self.closed {
            self
        } else {
            self.start_lag(order, skipped).pump()
        }
    }

    /// `order` lists every thread that has a route, once.
    pub open spec fn lists_threads(self, order: Seq<Seq<char>>) -> bool {
        &&& order.no_duplicates()
        &&& forall|id: Seq<char>| self.threads.contains_key(id) <==> #[trigger] order.contains(id)
    }

    /// Takes the next event out of the mailbox of `slot`. Where that makes
    /// room for the event the pump waits with, the pump goes on.
    pub open spec fn recv(self, slot: usize) -> Self {
        if self.attachments.contains_key(slot) {
            let mailbox = self.attachments[slot].mailbox.after_recv();
            RouterModel {
                blocked: if self.blocked == Some(slot) && mailbox.waiting.len() == 0 {
                    None
                } else {
                    self.blocked
                },
                ..self.with_mailbox(slot, mailbox)
            }.pump()
        } else {
            self
        }
    }

    /// Takes an attachment away: its route loses its owner, and what was on
    /// its way to it is dropped.
    pub open spec fn dismantle(self, slot: usize) -> Self {
        let attachment = self.attachments[slot];
        RouterModel {
            attachments: self.attachments.remove(slot),
            blocked: if self.blocked == Some(slot) {
                None
            } else {
                self.blocked
            },
            in_flight: not_to(self.in_flight, slot),
            ..self.detach(attachment.owner, attachment.generation)
        }
    }

    /// Ends an attachment. Where the pump waited for it, the pump goes on.
    pub open spec fn release(self, slot: usize) -> Self {
        if self.attachments.contains_key(slot) {
            self.dismantle(slot).pump()
        } else {
            self
        }
    }

    /// Gives up what has not been delivered yet.
    pub open spec fn abandon(self) -> Self {
        match self.blocked {
            Some(slot) => RouterModel {
                blocked: None,
                in_flight: Seq::empty(),
                ..self.with_mailbox(slot, self.attachments[slot].mailbox.abandon())
            },
            None => self,
        }
    }

    /// The attachment of an owned route is there, belongs to it, and accepts
    /// events.
    pub open spec fn serves_well(self, owner: OwnerModel, generation: u64, slot: usize) -> bool {
        &&& self.attachments.contains_key(slot)
        &&& self.attachments[slot].owner == owner
        &&& self.attachments[slot].generation == generation
        &&& !self.attachments[slot].mailbox.closed
    }

    /// The route of `id` is in order.
    pub open spec fn thread_wf(self, id: Seq<char>) -> bool {
        let route = self.threads[id];
        &&& route.wf()
        &&& route matches ThreadRouteModel::Active { generation, slot, .. } ==> self.serves_well(
            OwnerModel::Thread(id),
            generation,
            slot,
        )
        &&& self.closed ==> route.is_inactive()
    }

    /// The runtime route is in order.
    pub open spec fn runtime_wf(self) -> bool {
        &&& self.runtime matches RuntimeRouteModel::Pending(pending) ==> pending.wf()
        &&& self.runtime matches RuntimeRouteModel::Active { generation, slot } ==> self.serves_well(
            OwnerModel::Runtime,
            generation,
            slot,
        )
        &&& self.closed ==> self.runtime is Detached
    }

    /// The attachment `slot` is in order.
    pub open spec fn attachment_wf(self, slot: usize) -> bool {
        &&& self.attachments[slot].mailbox.wf()
        &&& self.attachments[slot].mailbox.waiting.len() > 0 <==> self.blocked == Some(slot)
    }

    /// The list of routes that nobody owns is in order: it names such routes
    /// only, each once, and while the router is open it names all of them.
    pub open spec fn inactive_wf(self) -> bool {
        &&& self.inactive.no_duplicates()
        &&& self.inactive.len() <= INACTIVE_ROUTE_CAPACITY
        &&& forall|id: Seq<char>| #[trigger]
            self.inactive.contains(id) ==> self.threads.contains_key(id) && self.threads[id].is_inactive()
        &&& !self.closed ==> forall|id: Seq<char>|
            #![trigger self.inactive.contains(id)]
            #![trigger self.threads.contains_key(id)]
            self.threads.contains_key(id) && self.threads[id].is_inactive() ==> self.inactive.contains(id)
    }

    /// The pump waits for an attachment that is there, and nothing is in
    /// flight while it does not wait.
    pub open spec fn pump_wf(self) -> bool {
        &&& self.blocked matches Some(slot) ==> self.attachments.contains_key(slot)
        &&& self.blocked is None ==> self.in_flight.len() == 0
        &&& self.in_flight_wf()
    }

    /// What is in flight goes to attachments that are there.
    pub open spec fn in_flight_wf(self) -> bool {
        forall|i: int|
            0 <= i < self.in_flight.len() ==> self.attachments.contains_key((#[trigger] self.in_flight[i]).slot)
    }

    /// The state is in order but for the pump, which may have stopped halfway.
    pub open spec fn settled_wf(self) -> bool {
        &&& 1 <= self.stream_capacity <= MAX_QUEUE_CAPACITY
        &&& self.next_generation >= 1
        &&& self.runtime_wf()
        &&& forall|id: Seq<char>| #[trigger] self.threads.contains_key(id) ==> self.thread_wf(id)
        &&& forall|slot: usize| #[trigger] self.attachments.contains_key(slot) ==> self.attachment_wf(slot)
        &&& self.inactive_wf()
        &&& self.blocked matches Some(slot) ==> self.attachments.contains_key(slot)
        &&& self.in_flight_wf()
    }

    /// The state is in order.
    pub open spec fn wf(self) -> bool {
        &&& self.settled_wf()
        &&& self.pump_wf()
    }
}

} // verus!
