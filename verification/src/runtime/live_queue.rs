//! The bounded queue between the event pump and one stream.
use crate::event::AppServerEvent;
use tokio::sync::mpsc;
use vstd::prelude::*;

verus! {

#[verifier::external_type_specification]
#[verifier::external_body]
#[verifier::reject_recursive_types(T)]
pub struct ExSender<T>(mpsc::Sender<T>);

#[verifier::external_type_specification]
#[verifier::external_body]
#[verifier::reject_recursive_types(T)]
pub struct ExReceiver<T>(mpsc::Receiver<T>);

/// A `tokio::sync::mpsc` channel of which both halves are kept together, so
/// that nobody else can send to it or receive from it.
pub struct LiveQueue {
    sender: mpsc::Sender<AppServerEvent>,
    receiver: mpsc::Receiver<AppServerEvent>,
}

/// The events that were sent to the channel and not received yet, oldest
/// first.
pub uninterp spec fn queued(queue: LiveQueue) -> Seq<AppServerEvent>;

/// The number of events that the channel was opened for.
pub uninterp spec fn queue_capacity(queue: LiveQueue) -> nat;

/// The largest capacity that `tokio::sync::mpsc::channel` accepts.
pub const MAX_QUEUE_CAPACITY: usize = usize::MAX / 8;

/// Opens a channel with `tokio::sync::mpsc::channel`, which panics on a
/// capacity of zero or above its semaphore's permit limit. Claimed without
/// proof: the channel is empty and holds as many events as was asked for.
#[verifier::external_body]
pub(crate) fn open_queue(capacity: usize) -> (queue: LiveQueue)
    requires
        0 < capacity <= MAX_QUEUE_CAPACITY,
    ensures
        queued(queue) == Seq::<AppServerEvent>::empty(),
        queue_capacity(queue) == capacity,
{
    let (sender, receiver) = mpsc::channel(capacity);
    LiveQueue { sender, receiver }
}

/// Sends with `tokio::sync::mpsc::Sender::try_send`. Claimed without proof:
/// the event joins the end of the channel exactly where there is room, and
/// comes back where there is none.
#[verifier::external_body]
pub(crate) fn send_now(queue: &mut LiveQueue, event: AppServerEvent) -> (sent: Result<(), AppServerEvent>)
    ensures
        queue_capacity(*final(queue)) == queue_capacity(*old(queue)),
        match sent {
            Ok(()) => queued(*old(queue)).len() < queue_capacity(*old(queue)) && queued(*final(queue)) == queued(
                *old(queue),
            ).push(event),
            Err(refused) => refused == event && queued(*old(queue)).len() >= queue_capacity(*old(queue)) && queued(
                *final(queue),
            ) == queued(*old(queue)),
        },
{
    match queue.sender.try_send(event) {
        Ok(()) => Ok(()),
        Err(mpsc::error::TrySendError::Full(event)) => Err(event),
        Err(mpsc::error::TrySendError::Closed(event)) => Err(event),
    }
}

/// Receives with `tokio::sync::mpsc::Receiver::try_recv`. Claimed without
/// proof: the oldest event comes out, and nothing comes out exactly where the
/// channel is empty.
#[verifier::external_body]
pub(crate) fn receive_now(queue: &mut LiveQueue) -> (received: Option<AppServerEvent>)
    ensures
        queue_capacity(*final(queue)) == queue_capacity(*old(queue)),
        match received {
            Some(event) => queued(*old(queue)).len() > 0 && event == queued(*old(queue))[0] && queued(*final(queue))
                == queued(*old(queue)).drop_first(),
            None => queued(*old(queue)).len() == 0 && queued(*final(queue)) == queued(*old(queue)),
        },
{
    match queue.receiver.try_recv() {
        Ok(event) => Some(event),
        Err(_) => None,
    }
}

} // verus!
