//! Replay buffers and the mailbox behind one event stream.
use crate::event::AppServerEvent;
use crate::runtime::live_queue::{
    open_queue, queue_capacity, queued, receive_now, send_now, LiveQueue, MAX_QUEUE_CAPACITY,
};
use std::collections::VecDeque;
use vstd::prelude::*;

verus! {

/// How many events that arrive before their stream is attached are kept. This
/// bound is separate from the capacity of each live queue.
pub const PENDING_EVENT_CAPACITY: usize = 32_768;

/// `count` one higher, or the largest count.
pub open spec fn count_one(count: usize) -> usize {
    if count == usize::MAX {
        count
    } else {
        (count + 1) as usize
    }
}

/// The marker for `skipped` lost events: nothing where none was lost.
pub open spec fn lag_marker(skipped: usize) -> Seq<AppServerEvent> {
    if skipped > 0 {
        seq![AppServerEvent::Lagged { skipped }]
    } else {
        Seq::empty()
    }
}

/// What a [`PendingEvents`] holds.
#[verifier::ext_equal]
pub struct PendingModel {
    pub events: Seq<AppServerEvent>,
    pub skipped: usize,
}

impl PendingModel {
    /// A buffer that nothing was put in.
    pub open spec fn empty() -> Self {
        PendingModel { events: Seq::empty(), skipped: 0 }
    }

    /// Adds an event; a full buffer loses and counts its oldest one.
    pub open spec fn push(self, event: AppServerEvent) -> Self {
        if self.events.len() >= PENDING_EVENT_CAPACITY {
            PendingModel {
                events: self.events.drop_first().push(event),
                skipped: count_one(self.skipped),
            }
        } else {
            PendingModel { events: self.events.push(event), skipped: self.skipped }
        }
    }

    /// What is replayed: the kept events, after a marker for the lost ones.
    pub open spec fn replay(self) -> Seq<AppServerEvent> {
        lag_marker(self.skipped) + self.events
    }

    /// The buffer is within its bound.
    pub open spec fn wf(self) -> bool {
        self.events.len() <= PENDING_EVENT_CAPACITY
    }
}

/// Bounded buffer of events that no stream can receive yet.
pub struct PendingEvents {
    events: VecDeque<AppServerEvent>,
    skipped: usize,
}

impl View for PendingEvents {
    type V = PendingModel;

    closed spec fn view(&self) -> PendingModel {
        PendingModel { events: self.events@, skipped: self.skipped }
    }
}

impl PendingEvents {
    /// An empty buffer.
    pub fn new() -> (pending: Self)
        ensures
            pending@ == PendingModel::empty(),
    {
        PendingEvents { events: VecDeque::new(), skipped: 0 }
    }

    /// Adds an event; a full buffer loses and counts its oldest one.
    pub fn push(&mut self, event: AppServerEvent)
        requires
            old(self)@.wf(),
        ensures
            final(self)@ == old(self)@.push(event),
            final(self)@.wf(),
    {
        if self.events.len() >= PENDING_EVENT_CAPACITY {
            let _ = self.events.pop_front();
            assert(self.events@ =~= old(self).events@.drop_first());
            self.skipped = self.skipped.saturating_add(1);
        }
        self.events.push_back(event);
    }

    /// The events to replay, after a marker for the lost ones.
    pub fn into_events(self) -> (events: VecDeque<AppServerEvent>)
        ensures
            events@ == self@.replay(),
    {
        let skipped = self.skipped;
        let mut events = self.events;
        if skipped > 0 {
            events.push_front(AppServerEvent::Lagged { skipped });
        }
        assert(events@ =~= self@.replay());
        events
    }
}

/// Why a stream has no event to give.
pub enum TryRecvError {
    /// More events may come.
    Empty,
    /// The stream has ended.
    Disconnected,
}

/// What a [`Mailbox`] holds.
#[verifier::ext_equal]
pub struct MailboxModel {
    /// Events from before the stream was attached.
    pub replay: Seq<AppServerEvent>,
    /// Events in the live queue.
    pub live: Seq<AppServerEvent>,
    /// Events that must be delivered and for which the live queue has no room.
    pub waiting: Seq<AppServerEvent>,
    /// Events that come last.
    pub terminal: Seq<AppServerEvent>,
    /// Lost events that no marker reports yet.
    pub skipped: usize,
    /// Whether the stream accepts no more events.
    pub closed: bool,
    /// The size of the live queue.
    pub capacity: nat,
}

impl MailboxModel {
    /// An attached mailbox that starts with `pending`.
    pub open spec fn opened(capacity: nat, pending: PendingModel) -> Self {
        MailboxModel {
            replay: pending.replay(),
            live: Seq::empty(),
            waiting: Seq::empty(),
            terminal: Seq::empty(),
            skipped: 0,
            closed: false,
            capacity,
        }
    }

    /// A mailbox that replays `pending` and then ends.
    pub open spec fn ended(pending: PendingModel) -> Self {
        MailboxModel { closed: true, ..Self::opened(1, pending) }
    }

    /// The live queue keeps to its size, events wait only while it is full,
    /// and only a closed mailbox has last events.
    pub open spec fn wf(self) -> bool {
        &&& 1 <= self.capacity <= MAX_QUEUE_CAPACITY
        &&& self.live.len() <= self.capacity
        &&& self.waiting.len() > 0 ==> self.live.len() == self.capacity
        &&& self.terminal.len() > 0 ==> self.closed
    }

    /// Everything that the stream has still to give, in order.
    pub open spec fn backlog(self) -> Seq<AppServerEvent> {
        self.replay + self.live + self.waiting + self.terminal
    }

    /// Puts an event in the live queue, or makes it wait for room.
    pub open spec fn offer(self, event: AppServerEvent) -> Self {
        if self.live.len() < self.capacity {
            MailboxModel { live: self.live.push(event), ..self }
        } else {
            MailboxModel { waiting: self.waiting.push(event), ..self }
        }
    }

    /// Offers the marker for lost events, where there are any.
    pub open spec fn offer_lag(self) -> Self {
        if self.skipped > 0 {
            (MailboxModel { skipped: 0, ..self }).offer(AppServerEvent::Lagged { skipped: self.skipped })
        } else {
            self
        }
    }

    /// Puts an event in the live queue, or loses and counts it.
    pub open spec fn try_offer(self, event: AppServerEvent) -> Self {
        if self.live.len() < self.capacity {
            MailboxModel { live: self.live.push(event), ..self }
        } else {
            MailboxModel { skipped: count_one(self.skipped), ..self }
        }
    }

    /// Passes an event on. Lost events are reported first. An event that is
    /// not required is lost where the live queue has no room.
    pub open spec fn forward(self, event: AppServerEvent, required: bool) -> Self {
        if self.closed {
            self
        } else if required {
            self.offer_lag().offer(event)
        } else if self.live.len() < self.capacity {
            self.offer_lag().try_offer(event)
        } else {
            self.try_offer(event)
        }
    }

    /// Ends the stream with `event`.
    pub open spec fn close(self, event: AppServerEvent) -> Self {
        if self.closed {
            self
        } else {
            MailboxModel {
                terminal: self.terminal + lag_marker(self.skipped) + seq![event],
                skipped: 0,
                closed: true,
                ..self
            }
        }
    }

    /// Gives up the events that wait for room.
    pub open spec fn abandon(self) -> Self {
        MailboxModel { waiting: Seq::empty(), ..self }
    }

    /// The mailbox after one receive.
    pub open spec fn after_recv(self) -> Self {
        if self.replay.len() > 0 {
            MailboxModel { replay: self.replay.drop_first(), ..self }
        } else if self.live.len() > 0 {
            if self.waiting.len() > 0 {
                MailboxModel {
                    live: self.live.drop_first().push(self.waiting[0]),
                    waiting: self.waiting.drop_first(),
                    ..self
                }
            } else {
                MailboxModel { live: self.live.drop_first(), ..self }
            }
        } else if self.terminal.len() > 0 {
            MailboxModel { terminal: self.terminal.drop_first(), ..self }
        } else {
            self
        }
    }

    /// What one receive gives.
    pub open spec fn received(self) -> Result<AppServerEvent, TryRecvError> {
        if self.backlog().len() > 0 {
            Ok(self.backlog()[0])
        } else if self.closed {
            Err(TryRecvError::Disconnected)
        } else {
            Err(TryRecvError::Empty)
        }
    }
}

/// The events of one stream, and what is left of its connection to the pump.
pub struct Mailbox {
    initial: VecDeque<AppServerEvent>,
    live: LiveQueue,
    waiting: VecDeque<AppServerEvent>,
    terminal: VecDeque<AppServerEvent>,
    skipped: usize,
    closed: bool,
}

impl View for Mailbox {
    type V = MailboxModel;

    closed spec fn view(&self) -> MailboxModel {
        MailboxModel {
            replay: self.initial@,
            live: queued(self.live),
            waiting: self.waiting@,
            terminal: self.terminal@,
            skipped: self.skipped,
            closed: self.closed,
            capacity: queue_capacity(self.live),
        }
    }
}

/// Opens the mailbox of an attached stream.
pub fn open_mailbox(capacity: usize, pending: PendingEvents) -> (mailbox: Mailbox)
    requires
        capacity <= MAX_QUEUE_CAPACITY,
    ensures
        mailbox@ == MailboxModel::opened(if capacity == 0 { 1 } else { capacity as nat }, pending@),
        mailbox@.wf(),
{
    let capacity: usize = if capacity == 0 { 1 } else { capacity };
    Mailbox {
        initial: pending.into_events(),
        live: open_queue(capacity),
        waiting: VecDeque::new(),
        terminal: VecDeque::new(),
        skipped: 0,
        closed: false,
    }
}

/// Opens a mailbox that only replays.
pub fn closed_mailbox(pending: PendingEvents) -> (mailbox: Mailbox)
    ensures
        mailbox@ == MailboxModel::ended(pending@),
        mailbox@.wf(),
{
    Mailbox {
        initial: pending.into_events(),
        live: open_queue(1),
        waiting: VecDeque::new(),
        terminal: VecDeque::new(),
        skipped: 0,
        closed: true,
    }
}

impl Mailbox {
    /// Whether an event waits for room in the live queue.
    pub fn is_waiting(&self) -> (waiting: bool)
        ensures
            waiting == (self@.waiting.len() > 0),
    {
        self.waiting.len() > 0
    }

    /// Takes the next event.
    pub fn try_recv(&mut self) -> (received: Result<AppServerEvent, TryRecvError>)
        requires
            old(self)@.wf(),
        ensures
            received == old(self)@.received(),
            final(self)@ == old(self)@.after_recv(),
            final(self)@.wf(),
    {
        if let Some(event) = self.initial.pop_front() {
            assert(self@ =~= old(self)@.after_recv());
            return Ok(event);
        }
        match receive_now(&mut self.live) {
            Some(event) => {
                if let Some(next) = self.waiting.pop_front() {
                    let refused = send_now(&mut self.live, next);
                    assert(refused is Ok);
                }
                assert(self@ =~= old(self)@.after_recv());
                Ok(event)
            },
            None => match self.pop_terminal() {
                Some(event) => {
                    assert(self@ =~= old(self)@.after_recv());
                    Ok(event)
                },
                None => if self.closed {
                    Err(TryRecvError::Disconnected)
                } else {
                    Err(TryRecvError::Empty)
                },
            },
        }
    }

    fn pop_terminal(&mut self) -> (event: Option<AppServerEvent>)
        ensures
            match event {
                Some(event) => old(self)@.terminal.len() > 0 && event == old(self)@.terminal[0] && final(self)@
                    == (MailboxModel { terminal: old(self)@.terminal.drop_first(), ..old(self)@ }),
                None => old(self)@.terminal.len() == 0 && final(self)@ == old(self)@,
            },
    {
        let event = self.terminal.pop_front();
        assert(event is Some ==> self.terminal@ =~= old(self)@.terminal.drop_first());
        event
    }

    /// Puts an event in the live queue, or makes it wait for room.
    fn offer(&mut self, event: AppServerEvent)
        requires
            old(self)@.wf(),
        ensures
            final(self)@ == old(self)@.offer(event),
            final(self)@.wf(),
    {
        match send_now(&mut self.live, event) {
            Ok(()) => {},
            Err(event) => self.waiting.push_back(event),
        }
    }

    /// Passes an event on and says whether the stream still accepts events.
    pub fn forward(&mut self, event: AppServerEvent, required: bool) -> (accepted: bool)
        requires
            old(self)@.wf(),
        ensures
            accepted == !old(self)@.closed,
            final(self)@ == old(self)@.forward(event, required),
            final(self)@.wf(),
    {
        if self.closed {
            return false;
        }
        let skipped = self.skipped;
        self.skipped = 0;
        if skipped > 0 {
            let lagged = AppServerEvent::Lagged { skipped };
            if required {
                self.offer(lagged);
            } else {
                match send_now(&mut self.live, lagged) {
                    Ok(()) => {},
                    Err(_) => {
                        self.add_skipped(skipped.saturating_add(1));
                        return true;
                    },
                }
            }
        }
        if required {
            // The pump waits with the event until the live queue has room, so
            // applications must keep draining their streams.
            self.offer(event);
            return true;
        }
        match send_now(&mut self.live, event) {
            Ok(()) => {},
            Err(_) => self.add_skipped(1),
        }
        true
    }

    /// Ends the stream with `event`, which needs no room in the live queue.
    pub fn close(&mut self, event: AppServerEvent)
        requires
            old(self)@.wf(),
        ensures
            final(self)@ == old(self)@.close(event),
            final(self)@.wf(),
    {
        if self.closed {
            return ;
        }
        self.closed = true;
        let skipped = self.skipped;
        self.skipped = 0;
        if skipped > 0 {
            self.terminal.push_back(AppServerEvent::Lagged { skipped });
        }
        self.terminal.push_back(event);
        assert(self@ =~= old(self)@.close(event));
    }

    /// Gives up the events that wait for room.
    pub fn abandon(&mut self)
        requires
            old(self)@.wf(),
        ensures
            final(self)@ == old(self)@.abandon(),
            final(self)@.wf(),
    {
        self.waiting = VecDeque::new();
        assert(self@ =~= old(self)@.abandon());
    }

    fn add_skipped(&mut self, count: usize)
        ensures
            final(self)@ == (MailboxModel {
                skipped: if old(self)@.skipped + count > usize::MAX { usize::MAX } else {
                    (old(self)@.skipped + count) as usize
                },
                ..old(self)@
            }),
    {
        self.skipped = self.skipped.saturating_add(count);
    }
}

} // verus!
