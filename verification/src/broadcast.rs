//! The event broadcaster: one publish point and any number of observers.
//!
//! The channel is tokio's `sync::broadcast`. Publishing never waits for an
//! observer: an observer that falls behind loses its oldest undelivered
//! events. What the channel does with an event is outside what is proved
//! here; the functions below fix what is handed to it, and between which
//! limits the size of the channel lies.

use vstd::prelude::*;
use tokio::sync::broadcast::{Receiver, Sender};
use crate::events::UploadEvent;

verus! {

/// How many events the channel is asked to keep for an observer that has
/// fallen behind. The channel keeps at least as many and fewer than twice
/// as many: tokio rounds the number up to a power of two.
pub const EVENT_CAPACITY: usize = 100;

/// tokio's `broadcast::Sender`, the sending half of a channel. Nothing of
/// what it holds is known here.
#[verifier::external_type_specification]
#[verifier::external_body]
#[verifier::reject_recursive_types(T)]
pub struct ExSender<T>(Sender<T>);

/// tokio's `broadcast::Receiver`, one receiving half of a channel. Nothing
/// of what it holds is known here.
#[verifier::external_type_specification]
#[verifier::external_body]
#[verifier::reject_recursive_types(T)]
pub struct ExReceiver<T>(Receiver<T>);

/// The size of the ring of the channel of `sender`: the number of records
/// that the channel retains for a receiver that has fallen behind, and the
/// number that tokio's lag detection goes by. It is fixed when the channel
/// is made.
pub uninterp spec fn sender_bound(sender: Sender<String>) -> nat;

/// The size of the ring of the channel that `receiver` listens to.
pub uninterp spec fn receiver_bound(receiver: Receiver<String>) -> nat;

/// `tokio::sync::broadcast::channel`, keeping the sending half. The call
/// panics for a capacity of 0 or above `usize::MAX / 2`, which `requires`
/// leaves out. The receiver that comes with the channel is dropped, so the
/// channel starts without observers. tokio rounds the capacity up to the
/// next power of two and builds a ring of that size; the contract says of
/// the ring's size that it is at least the capacity and less than twice the
/// capacity.
#[verifier::external_body]
fn open_channel(capacity: usize) -> (sender: Sender<String>)
    requires
        0 < capacity <= usize::MAX / 2,
    ensures
        capacity <= sender_bound(sender) < 2 * capacity,
{
    let (sender, _receiver) = tokio::sync::broadcast::channel(capacity);
    sender
}

/// `Sender::send`: hands `record` to the channel without waiting. The result
/// says whether any receiver was subscribed at that moment; with none the
/// record is discarded. That depends on who is subscribed, so nothing is
/// claimed of it.
#[verifier::external_body]
fn send(sender: &Sender<String>, record: String) -> (heard: bool) {
    sender.send(record).is_ok()
}

/// `Sender::subscribe`: a new receiver, which gets the records sent after
/// this call. It shares the ring of `sender`, so the contract says that
/// its ring has that size; of the records it will get nothing is claimed. (The call panics once `usize::MAX / 4` receivers are alive at
/// the same time, more than memory can hold.)
#[verifier::external_body]
fn add_receiver(sender: &Sender<String>) -> (receiver: Receiver<String>)
    ensures
        receiver_bound(receiver) == sender_bound(*sender),
{
    sender.subscribe()
}

/// The publish point for upload events. It can be shared by reference
/// among all who publish and subscribe. Every broadcaster keeps at least
/// `EVENT_CAPACITY` and fewer than twice as many events for an observer that
/// has fallen behind.
pub struct EventBroadcaster {
    sender: Sender<String>,
}

/// One observer's place in the stream of events. It ends when it is
/// dropped, and it learns from its receiver when the broadcaster is gone.
pub struct Subscription {
    pub receiver: Receiver<String>,
}

impl Subscription {
    /// How many undelivered events the subscription keeps before it loses
    /// the oldest: the size of the ring of its channel.
    pub open spec fn capacity(&self) -> nat {
        receiver_bound(self.receiver)
    }
}

impl EventBroadcaster {
    /// How many undelivered events the broadcaster keeps for each of its
    /// observers before the observer loses the oldest: the size of the ring
    /// of its channel.
    pub closed spec fn capacity(&self) -> nat {
        sender_bound(self.sender)
    }

    #[verifier::type_invariant]
    spec fn bounded(&self) -> bool {
        EVENT_CAPACITY <= self.capacity() < 2 * EVENT_CAPACITY
    }

    /// A broadcaster without observers, on a channel that was asked to keep
    /// `EVENT_CAPACITY` events. That number is a lower bound of what it
    /// keeps.
    pub fn new() -> (hub: EventBroadcaster)
        ensures
            EVENT_CAPACITY <= hub.capacity() < 2 * EVENT_CAPACITY,
    {
        EventBroadcaster { sender: open_channel(EVENT_CAPACITY) }
    }

    /// Publishes the record of `event`.
    pub fn publish(&self, event: &UploadEvent) {
        let record = event.record();
        notify(self, record.as_str());
    }
}

/// Hands the text `event` to every observer subscribed now, without waiting
/// for any of them. With no observer the text is discarded.
pub fn notify(hub: &EventBroadcaster, event: &str) {
    let _ = send(&hub.sender, event.to_owned());
}

/// Registers a new observer of `hub`, which receives what is published from
/// now on. The subscription keeps as many undelivered events as the
/// broadcaster does: at least `EVENT_CAPACITY`, fewer than twice as many.
pub fn subscribe_events(hub: &EventBroadcaster) -> (subscription: Subscription)
    ensures
        subscription.capacity() == hub.capacity(),
        EVENT_CAPACITY <= subscription.capacity() < 2 * EVENT_CAPACITY,
{
    proof {
        use_type_invariant(hub);
    }
    Subscription { receiver: add_receiver(&hub.sender) }
}

} // verus!
