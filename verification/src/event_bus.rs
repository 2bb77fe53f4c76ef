//! The event bus: one broadcast channel that every part of the environment publishes to.
use vstd::prelude::*;
use tokio::sync::broadcast::{Receiver, Sender};
use crate::events::AgentEnvironmentEvent;

verus! {

#[verifier::external_type_specification]
#[verifier::external_body]
#[verifier::reject_recursive_types(T)]
pub struct ExBroadcastSender<T>(tokio::sync::broadcast::Sender<T>);

#[verifier::external_type_specification]
#[verifier::external_body]
#[verifier::reject_recursive_types(T)]
pub struct ExBroadcastReceiver<T>(tokio::sync::broadcast::Receiver<T>);

/// The events handed to a broadcast channel through a sender, oldest first. The channel
/// passes each to the receivers subscribed when it was sent (to none, when there were
/// none) and keeps at most its capacity of them for slow receivers.
pub uninterp spec fn sent_events(sender: Sender<AgentEnvironmentEvent>) -> Seq<AgentEnvironmentEvent>;

/// `tokio::sync::broadcast::channel(capacity)`, keeping the sending half: a new channel,
/// with nothing sent yet. The channel panics for a capacity of 0 or above
/// `usize::MAX / 2`, which `requires` excludes.
#[verifier::external_body]
fn broadcast_sender(capacity: usize) -> (s: Sender<AgentEnvironmentEvent>)
    requires
        0 < capacity <= usize::MAX / 2,
    ensures
        sent_events(s) == Seq::<AgentEnvironmentEvent>::empty(),
{
    tokio::sync::broadcast::channel(capacity).0
}

/// `Sender::send`: hands the event to the channel, for every receiver subscribed now.
/// What each receiver then reads depends on the receivers and is not stated; when there
/// is none, `send` reports an error that is ignored here.
#[verifier::external_body]
fn broadcast_send(sender: &mut Sender<AgentEnvironmentEvent>, event: AgentEnvironmentEvent)
    ensures
        sent_events(*final(sender)) == sent_events(*old(sender)).push(event),
{
    let _ = sender.send(event);
}

/// `Sender::subscribe`: a receiver of the events sent from now on.
#[verifier::external_body]
fn broadcast_subscribe(sender: &Sender<AgentEnvironmentEvent>) -> (r: Receiver<AgentEnvironmentEvent>) {
    sender.subscribe()
}

/// `Sender::receiver_count`: the number of live receivers, which other tasks change.
#[verifier::external_body]
fn broadcast_receiver_count(sender: &Sender<AgentEnvironmentEvent>) -> (n: usize) {
    sender.receiver_count()
}

/// Central distribution of events.
pub struct EventBus {
    sender: Sender<AgentEnvironmentEvent>,
    buffer_size: usize,
}

impl EventBus {
    /// The events published on this bus's channel, oldest first.
    pub closed spec fn published(&self) -> Seq<AgentEnvironmentEvent> {
        sent_events(self.sender)
    }

    /// How many events the channel buffers for a slow receiver.
    pub closed spec fn capacity(&self) -> usize {
        self.buffer_size
    }

    /// A bus whose channel buffers `buffer_size` events.
    pub fn new(buffer_size: usize) -> (bus: EventBus)
        requires
            0 < buffer_size <= usize::MAX / 2,
        ensures
            bus.published() == Seq::<AgentEnvironmentEvent>::empty(),
            bus.capacity() == buffer_size,
    {
        EventBus { sender: broadcast_sender(buffer_size), buffer_size }
    }

    /// Publishes an event: hands it to the channel for all subscribers.
    pub fn publish(&mut self, event: AgentEnvironmentEvent)
        ensures
            final(self).published() == old(self).published().push(event),
            final(self).capacity() == old(self).capacity(),
    {
        broadcast_send(&mut self.sender, event);
    }

    /// A receiver of the events published from now on.
    pub fn subscribe(&self) -> Receiver<AgentEnvironmentEvent> {
        broadcast_subscribe(&self.sender)
    }

    /// The number of live subscribers.
    pub fn subscriber_count(&self) -> usize {
        broadcast_receiver_count(&self.sender)
    }

    /// The buffer size the bus was made with.
    pub fn buffer_size(&self) -> (n: usize)
        ensures
            n == self.capacity(),
    {
        self.buffer_size
    }
}

impl Default for EventBus {
    /// A bus that buffers 1000 events.
    fn default() -> (bus: Self)
        ensures
            bus.published() == Seq::<AgentEnvironmentEvent>::empty(),
            bus.capacity() == 1000,
    {
        EventBus::new(1000)
    }
}

} // verus!
