//! The decisions of the Redis subscriber that fans the positions of one
//! parcel out to the customers watching it. The subscriber loop (Redis
//! pub/sub, the in-process broadcast channels) runs outside the library and
//! asks [`next_subscriber_action`] what to do with each event.
use vstd::prelude::*;

verus! {

/// Number of messages an in-process parcel channel buffers for slow customers.
pub const PARCEL_CHANNEL_CAPACITY: usize = 32;

/// Something that happened to a parcel subscriber.
#[derive(Debug, Clone, Copy, PartialEq, Eq, Structural)]
pub enum SubscriberEvent {
    /// Opening the pub/sub connection failed.
    ConnectFailed,
    /// Subscribing to the parcel's channel failed.
    SubscribeFailed,
    /// A message arrived whose payload is not a string.
    UndecodableMessage,
    /// A message arrived; `listeners` customers hold a receiver of the parcel's channel.
    Message { listeners: usize },
    /// The message stream ended.
    StreamEnded,
}

/// What the subscriber does next.
#[derive(Debug, Clone, Copy, PartialEq, Eq, Structural)]
pub enum SubscriberAction {
    /// Drop this message and wait for the next one.
    Skip,
    /// Send the payload to the parcel's customers and wait for the next message.
    Forward,
    /// Nobody listens any more: forget the parcel's channel and stop.
    Retire,
    /// Stop without touching the parcel's channel.
    Stop,
}

/// The action of a parcel subscriber on an event.
pub open spec fn subscriber_action(event: SubscriberEvent) -> SubscriberAction {
    match event {
        SubscriberEvent::UndecodableMessage => SubscriberAction::Skip,
        SubscriberEvent::Message { listeners } => if listeners == 0 {
            SubscriberAction::Retire
        } else {
            SubscriberAction::Forward
        },
        _ => SubscriberAction::Stop,
    }
}

/// Decides what a parcel subscriber does on an event.
pub fn next_subscriber_action(event: SubscriberEvent) -> (r: SubscriberAction)
    ensures
        r == subscriber_action(event),
        // a payload is only ever sent when some customer listens
        r is Forward ==> event is Message && event->listeners > 0,
        // the subscriber keeps running only while it has messages to handle
        (r is Skip || r is Forward) <==> (event is UndecodableMessage || (event is Message
            && event->listeners > 0)),
{
    match event {
        SubscriberEvent::UndecodableMessage => SubscriberAction::Skip,
        SubscriberEvent::Message { listeners } => if listeners == 0 {
            SubscriberAction::Retire
        } else {
            SubscriberAction::Forward
        },
        SubscriberEvent::ConnectFailed => SubscriberAction::Stop,
        SubscriberEvent::SubscribeFailed => SubscriberAction::Stop,
        SubscriberEvent::StreamEnded => SubscriberAction::Stop,
    }
}

} // verus!
