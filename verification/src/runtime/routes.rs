//! The routes of the event router.
use crate::event::{event_is_archive, event_is_unarchive, AppServerEvent};
use crate::runtime::mailbox::{PendingEvents, PendingModel};
use crate::runtime::route_model::{
    starting_phase, AttachmentPhase, Delivery, RuntimeRouteModel, TerminalSource, ThreadAttachmentKind,
    ThreadRouteModel,
};
use vstd::prelude::*;

verus! {

impl ThreadAttachmentKind {
    /// The phase in which a reservation starts.
    pub fn phase(self) -> (phase: AttachmentPhase)
        ensures
            phase == starting_phase(self),
    {
        match self {
            ThreadAttachmentKind::Resume => AttachmentPhase::Ready,
            ThreadAttachmentKind::Unarchive => AttachmentPhase::AwaitingUnarchive,
        }
    }
}

/// The route of events that belong to no thread.
pub enum RuntimeRoute {
    /// Nobody has taken the stream yet.
    Pending(PendingEvents),
    /// The stream has an owner.
    Active { generation: u64, slot: usize },
    /// The owner is gone, and nobody can replace it.
    Detached,
}

impl View for RuntimeRoute {
    type V = RuntimeRouteModel;

    open spec fn view(&self) -> RuntimeRouteModel {
        match *self {
            RuntimeRoute::Pending(pending) => RuntimeRouteModel::Pending(pending@),
            RuntimeRoute::Active { generation, slot } => RuntimeRouteModel::Active { generation, slot },
            RuntimeRoute::Detached => RuntimeRouteModel::Detached,
        }
    }
}

impl RuntimeRoute {
    /// Keeps an event for later, or says where it is to be delivered.
    pub fn enqueue(self, event: AppServerEvent) -> (next: (RuntimeRoute, Option<Delivery>))
        requires
            self@ matches RuntimeRouteModel::Pending(pending) ==> pending.wf(),
        ensures
            match self@ {
                RuntimeRouteModel::Pending(pending) => next.0@ == RuntimeRouteModel::Pending(pending.push(event))
                    && next.1 is None,
                RuntimeRouteModel::Active { slot, .. } => next.0@ == self@ && next.1 == Some(Delivery { slot, event }),
                RuntimeRouteModel::Detached => next.0@ == self@ && next.1 is None,
            },
    {
        match self {
            RuntimeRoute::Pending(pending) => {
                let mut pending = pending;
                pending.push(event);
                (RuntimeRoute::Pending(pending), None)
            },
            RuntimeRoute::Active { generation, slot } => (
                RuntimeRoute::Active { generation, slot },
                Some(Delivery { slot, event }),
            ),
            RuntimeRoute::Detached => (RuntimeRoute::Detached, None),
        }
    }
}

/// The route of one thread's events.
pub enum ThreadRoute {
    /// Events came before the thread was attached.
    Pending(PendingEvents),
    /// A resume or unarchive request owns the next attachment.
    Reserved { generation: u64, pending: PendingEvents, phase: AttachmentPhase },
    /// The stream has an owner.
    Active { generation: u64, slot: usize, phase: AttachmentPhase },
    /// The thread ended before it was attached.
    Closed(PendingEvents),
    /// The thread has ended; what comes late is dropped.
    Terminated,
    /// The owner is gone; what comes late is dropped.
    Detached,
}

impl View for ThreadRoute {
    type V = ThreadRouteModel;

    open spec fn view(&self) -> ThreadRouteModel {
        match *self {
            ThreadRoute::Pending(pending) => ThreadRouteModel::Pending(pending@),
            ThreadRoute::Reserved { generation, pending, phase } => ThreadRouteModel::Reserved {
                generation,
                pending: pending@,
                phase,
            },
            ThreadRoute::Active { generation, slot, phase } => ThreadRouteModel::Active { generation, slot, phase },
            ThreadRoute::Closed(pending) => ThreadRouteModel::Closed(pending@),
            ThreadRoute::Terminated => ThreadRouteModel::Terminated,
            ThreadRoute::Detached => ThreadRouteModel::Detached,
        }
    }
}

impl ThreadRoute {
    /// A route that waits for its thread to be attached.
    pub fn pending() -> (route: Self)
        ensures
            route@ == ThreadRouteModel::Pending(PendingModel::empty()),
    {
        ThreadRoute::Pending(PendingEvents::new())
    }

    /// No request and no stream owns the route.
    pub fn is_inactive(&self) -> (inactive: bool)
        ensures
            inactive == self@.is_inactive(),
    {
        match self {
            ThreadRoute::Pending(_)
            | ThreadRoute::Closed(_)
            | ThreadRoute::Terminated
            | ThreadRoute::Detached => true,
            _ => false,
        }
    }

    /// Keeps an event for later, drops it, or says where it is to be
    /// delivered.
    pub fn enqueue(self, event: AppServerEvent) -> (next: (ThreadRoute, Option<Delivery>))
        requires
            self@.wf(),
        ensures
            next.0@ == self@.enqueue(event),
            next.1 == (match self@.active_slot() {
                Some(slot) => Some(Delivery { slot, event }),
                None => None,
            }),
    {
        let unarchive_boundary = event_is_unarchive(&event);
        match self {
            ThreadRoute::Pending(pending) => {
                let mut pending = pending;
                pending.push(event);
                (ThreadRoute::Pending(pending), None)
            },
            ThreadRoute::Reserved { generation, pending, phase } => {
                let mut pending = pending;
                let phase = if unarchive_boundary {
                    AttachmentPhase::Ready
                } else {
                    phase
                };
                pending.push(event);
                (ThreadRoute::Reserved { generation, pending, phase }, None)
            },
            ThreadRoute::Active { generation, slot, phase } => {
                let phase = if unarchive_boundary {
                    AttachmentPhase::Ready
                } else {
                    phase
                };
                (ThreadRoute::Active { generation, slot, phase }, Some(Delivery { slot, event }))
            },
            ThreadRoute::Closed(pending) => (ThreadRoute::Closed(pending), None),
            ThreadRoute::Terminated => (ThreadRoute::Terminated, None),
            ThreadRoute::Detached => (ThreadRoute::Detached, None),
        }
    }

    /// Ends the route with `event`, and says which stream ends with it.
    pub fn close_thread(self, event: AppServerEvent, source: TerminalSource) -> (next: (
        ThreadRoute,
        Option<Delivery>,
    ))
        requires
            self@.wf(),
        ensures
            next.0@ == self@.close_thread(event, source),
            next.1 == (match self@.ended_slot(event, source) {
                Some(slot) => Some(Delivery { slot, event }),
                None => None,
            }),
    {
        let may_be_stale = source == TerminalSource::Notification && event_is_archive(&event);
        match self {
            ThreadRoute::Pending(pending) => {
                let mut pending = pending;
                pending.push(event);
                (ThreadRoute::Closed(pending), None)
            },
            ThreadRoute::Closed(pending) => {
                let mut pending = pending;
                pending.push(event);
                (ThreadRoute::Closed(pending), None)
            },
            ThreadRoute::Reserved { generation, pending, phase } => {
                if may_be_stale && phase == AttachmentPhase::AwaitingUnarchive {
                    return (ThreadRoute::Reserved { generation, pending, phase }, None);
                }
                let mut pending = pending;
                pending.push(event);
                (ThreadRoute::Closed(pending), None)
            },
            ThreadRoute::Active { generation, slot, phase } => {
                if may_be_stale && phase == AttachmentPhase::AwaitingUnarchive {
                    return (ThreadRoute::Active { generation, slot, phase }, None);
                }
                (ThreadRoute::Terminated, Some(Delivery { slot, event }))
            },
            ThreadRoute::Terminated => (ThreadRoute::Terminated, None),
            ThreadRoute::Detached => (ThreadRoute::Terminated, None),
        }
    }
}

} // verus!
