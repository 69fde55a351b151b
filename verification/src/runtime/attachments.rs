//! The attached event streams.
use crate::event::AppServerEvent;
use crate::runtime::mailbox::{Mailbox, TryRecvError};
use crate::runtime::route_model::{AttachmentModel, OwnerModel};
use vstd::prelude::*;

verus! {

/// The stream that an attachment serves.
pub enum RouteTarget {
    Runtime,
    Thread(String),
}

impl View for RouteTarget {
    type V = OwnerModel;

    open spec fn view(&self) -> OwnerModel {
        match *self {
            RouteTarget::Runtime => OwnerModel::Runtime,
            RouteTarget::Thread(id) => OwnerModel::Thread(id@),
        }
    }
}

/// An attached stream: who it serves, since when, and its events.
pub struct Attachment {
    pub owner: RouteTarget,
    pub generation: u64,
    pub mailbox: Mailbox,
}

impl View for Attachment {
    type V = AttachmentModel;

    open spec fn view(&self) -> AttachmentModel {
        AttachmentModel { owner: self.owner@, generation: self.generation, mailbox: self.mailbox@ }
    }
}

/// All attached streams. Each has a slot of its own for as long as it is
/// attached.
pub struct Attachments {
    slots: Vec<Option<Attachment>>,
}

impl View for Attachments {
    type V = Map<usize, AttachmentModel>;

    closed spec fn view(&self) -> Map<usize, AttachmentModel> {
        Map::new(
            |slot: usize| slot < self.slots@.len() && self.slots@[slot as int] is Some,
            |slot: usize| self.slots@[slot as int]->Some_0@,
        )
    }
}

impl Attachments {
    /// No stream is attached.
    pub fn new() -> (attachments: Self)
        ensures
            attachments@ == Map::<usize, AttachmentModel>::empty(),
    {
        let attachments = Attachments { slots: Vec::new() };
        assert(attachments@ =~= Map::<usize, AttachmentModel>::empty());
        attachments
    }

    /// Whether `slot` is attached.
    pub fn contains(&self, slot: usize) -> (attached: bool)
        ensures
            attached == self@.contains_key(slot),
    {
        slot < self.slots.len() && self.slots[slot].is_some()
    }

    /// Attaches a stream and returns its slot.
    pub fn attach(&mut self, attachment: Attachment) -> (slot: usize)
        ensures
            !old(self)@.contains_key(slot),
            final(self)@ == old(self)@.insert(slot, attachment@),
    {
        let mut slot: usize = 0;
        while slot < self.slots.len() && self.slots[slot].is_some()
            invariant
                slot <= self.slots@.len(),
                self == old(self),
            decreases self.slots@.len() - slot,
        {
            slot += 1;
        }
        if slot < self.slots.len() {
            self.slots.set(slot, Some(attachment));
        } else {
            self.slots.push(Some(attachment));
        }
        assert(self@ =~= old(self)@.insert(slot, attachment@));
        slot
    }

    /// Detaches a stream.
    pub fn remove(&mut self, slot: usize) -> (attachment: Attachment)
        requires
            old(self)@.contains_key(slot),
        ensures
            attachment@ == old(self)@[slot],
            final(self)@ == old(self)@.remove(slot),
            final(self).has_room(slot),
    {
        let mut taken: Option<Attachment> = None;
        std::mem::swap(&mut self.slots[slot], &mut taken);
        assert(self@ =~= old(self)@.remove(slot));
        taken.unwrap()
    }

    /// `slot` was attached before and is free now.
    pub closed spec fn has_room(self, slot: usize) -> bool {
        slot < self.slots@.len() && self.slots@[slot as int] is None
    }

    /// Puts a stream back in its slot.
    fn put(&mut self, slot: usize, attachment: Attachment)
        requires
            old(self).has_room(slot),
        ensures
            final(self)@ == old(self)@.insert(slot, attachment@),
    {
        self.slots.set(slot, Some(attachment));
        assert(self@ =~= old(self)@.insert(slot, attachment@));
    }

    /// Takes the next event of a stream.
    pub fn try_recv(&mut self, slot: usize) -> (received: Result<AppServerEvent, TryRecvError>)
        requires
            old(self)@.contains_key(slot),
            old(self)@[slot].mailbox.wf(),
        ensures
            received == old(self)@[slot].mailbox.received(),
            final(self)@ == old(self)@.insert(
                slot,
                AttachmentModel { mailbox: old(self)@[slot].mailbox.after_recv(), ..old(self)@[slot] },
            ),
    {
        let mut attachment = self.remove(slot);
        let received = attachment.mailbox.try_recv();
        let ghost put = attachment@;
        self.put(slot, attachment);
        assert(self@ =~= old(self)@.insert(slot, put));
        received
    }

    /// Passes an event on to a stream and says whether it still accepts
    /// events.
    pub fn forward(&mut self, slot: usize, event: AppServerEvent, required: bool) -> (accepted: bool)
        requires
            old(self)@.contains_key(slot),
            old(self)@[slot].mailbox.wf(),
        ensures
            accepted == !old(self)@[slot].mailbox.closed,
            final(self)@ == old(self)@.insert(
                slot,
                AttachmentModel { mailbox: old(self)@[slot].mailbox.forward(event, required), ..old(self)@[slot] },
            ),
    {
        let mut attachment = self.remove(slot);
        let accepted = attachment.mailbox.forward(event, required);
        let ghost put = attachment@;
        self.put(slot, attachment);
        assert(self@ =~= old(self)@.insert(slot, put));
        accepted
    }

    /// Ends a stream with `event`.
    pub fn close(&mut self, slot: usize, event: AppServerEvent)
        requires
            old(self)@.contains_key(slot),
            old(self)@[slot].mailbox.wf(),
        ensures
            final(self)@ == old(self)@.insert(
                slot,
                AttachmentModel { mailbox: old(self)@[slot].mailbox.close(event), ..old(self)@[slot] },
            ),
    {
        let mut attachment = self.remove(slot);
        attachment.mailbox.close(event);
        let ghost put = attachment@;
        self.put(slot, attachment);
        assert(self@ =~= old(self)@.insert(slot, put));
    }

    /// Gives up the events that wait for room in a stream.
    pub fn abandon(&mut self, slot: usize)
        requires
            old(self)@.contains_key(slot),
            old(self)@[slot].mailbox.wf(),
        ensures
            final(self)@ == old(self)@.insert(
                slot,
                AttachmentModel { mailbox: old(self)@[slot].mailbox.abandon(), ..old(self)@[slot] },
            ),
    {
        let mut attachment = self.remove(slot);
        attachment.mailbox.abandon();
        let ghost put = attachment@;
        self.put(slot, attachment);
        assert(self@ =~= old(self)@.insert(slot, put));
    }

    /// Whether an event waits for room in a stream.
    pub fn is_waiting(&self, slot: usize) -> (waiting: bool)
        requires
            self@.contains_key(slot),
        ensures
            waiting == (self@[slot].mailbox.waiting.len() > 0),
    {
        match &self.slots[slot] {
            Some(attachment) => attachment.mailbox.is_waiting(),
            None => false,
        }
    }

    /// Who a stream serves.
    pub fn owner(&self, slot: usize) -> (owner: &RouteTarget)
        requires
            self@.contains_key(slot),
        ensures
            owner@ == self@[slot].owner,
    {
        &self.slots[slot].as_ref().unwrap().owner
    }
}

} // verus!
