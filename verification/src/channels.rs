//! The in-process fan-out of parcel positions: one broadcast channel per
//! parcel, created on first use and forgotten when its subscriber retires.
//! The registry is changed only through `&mut` access (the server holds it
//! behind a lock), so the contracts state which channel each parcel holds.
use vstd::prelude::*;
use crate::subscriber::{
    next_subscriber_action, subscriber_action, SubscriberAction, SubscriberEvent,
    PARCEL_CHANNEL_CAPACITY,
};

verus! {

/// The concurrent map of `dashmap`.
#[verifier::external_type_specification]
#[verifier::external_body]
#[verifier::reject_recursive_types(K)]
#[verifier::reject_recursive_types(V)]
#[verifier::reject_recursive_types(S)]
pub struct ExDashMap<K, V, S>(dashmap::DashMap<K, V, S>);

/// The sending half of a `tokio` broadcast channel.
#[verifier::external_type_specification]
#[verifier::external_body]
#[verifier::reject_recursive_types(T)]
pub struct ExBroadcastSender<T>(tokio::sync::broadcast::Sender<T>);

/// The buffer size requested when a broadcast channel was opened (tokio
/// rounds the buffer up to a power of two). Clones of a sender share the
/// channel, and so its capacity.
pub uninterp spec fn channel_capacity(sender: tokio::sync::broadcast::Sender<String>) -> nat;

/// Opens a `tokio::sync::broadcast::channel` buffering `capacity` messages
/// and keeps its sending half (the first receiver is dropped). The channel
/// panics on a capacity of zero or above `usize::MAX / 2`, which `requires`
/// leaves out. Claimed: the sender's channel was opened with `capacity`.
#[verifier::external_body]
fn broadcast_sender(capacity: usize) -> (r: tokio::sync::broadcast::Sender<String>)
    requires
        0 < capacity <= usize::MAX / 2,
    ensures
        channel_capacity(r) == capacity,
{
    tokio::sync::broadcast::channel::<String>(capacity).0
}

/// A fresh channel for one parcel's positions.
fn new_parcel_sender() -> (r: tokio::sync::broadcast::Sender<String>)
    ensures
        channel_capacity(r) == PARCEL_CHANNEL_CAPACITY,
{
    broadcast_sender(PARCEL_CHANNEL_CAPACITY)
}

/// The channels a registry map holds, by parcel id. The map is private to
/// [`ParcelChannels`] and changed only by the `&mut` wrappers below; a
/// sender stands for its channel (a clone shares it).
pub uninterp spec fn registry_channels(
    map: dashmap::DashMap<String, tokio::sync::broadcast::Sender<String>>,
) -> Map<Seq<char>, tokio::sync::broadcast::Sender<String>>;

/// An empty `DashMap` (`DashMap::new`). Claimed: it holds no entry.
#[verifier::external_body]
fn empty_registry() -> (r: dashmap::DashMap<String, tokio::sync::broadcast::Sender<String>>)
    ensures
        registry_channels(r).dom() == Set::<Seq<char>>::empty(),
{
    dashmap::DashMap::new()
}

/// The sender stored for `parcel_id` in the map, stored first if absent
/// (`entry(..).or_insert_with(new_parcel_sender)`, then `Sender::clone`).
/// Claimed: an existing entry is left as it was (`or_insert_with` on an
/// occupied entry); otherwise the sender made by `new_parcel_sender` is
/// stored under `parcel_id`; no other entry changes; what comes back is the
/// stored sender (its clone shares the same channel).
#[verifier::external_body]
fn sender_entry(
    map: &mut dashmap::DashMap<String, tokio::sync::broadcast::Sender<String>>,
    parcel_id: &str,
) -> (r: tokio::sync::broadcast::Sender<String>)
    ensures
        registry_channels(*old(map)).dom().contains(parcel_id@) ==> registry_channels(*final(map))
            == registry_channels(*old(map)),
        !registry_channels(*old(map)).dom().contains(parcel_id@) ==> registry_channels(*final(map))
            == registry_channels(*old(map)).insert(parcel_id@, r) && channel_capacity(r)
            == PARCEL_CHANNEL_CAPACITY,
        registry_channels(*final(map)).dom().contains(parcel_id@),
        r == registry_channels(*final(map))[parcel_id@],
{
    map.entry(parcel_id.to_string()).or_insert_with(new_parcel_sender).clone()
}

/// Drops the entry of `parcel_id` from the map (`DashMap::remove`).
/// Claimed: afterwards the map holds every other entry as it was, and none
/// for `parcel_id`.
#[verifier::external_body]
fn remove_entry(
    map: &mut dashmap::DashMap<String, tokio::sync::broadcast::Sender<String>>,
    parcel_id: &str,
)
    ensures
        registry_channels(*final(map)) == registry_channels(*old(map)).remove(parcel_id@),
{
    map.remove(parcel_id);
}

/// The number of receivers of a channel (`Sender::receiver_count`); it
/// changes as customers come and go, so no value is stated.
#[verifier::external_body]
fn listener_count(sender: &tokio::sync::broadcast::Sender<String>) -> usize {
    sender.receiver_count()
}

/// Sends a payload on a channel (`Sender::send`). Claimed: a send that
/// succeeds reports a positive count, that of the receivers subscribed when
/// it was sent (tokio fails the send when there is none). Whether any
/// receiver sees the message is not stated: a receiver may drop or lag first.
#[verifier::external_body]
fn broadcast_payload(sender: &tokio::sync::broadcast::Sender<String>, payload: String) -> (r: Option<usize>)
    ensures
        r matches Some(n) ==> n > 0,
{
    match sender.send(payload) {
        Ok(n) => Some(n),
        Err(_) => None,
    }
}

/// The per-parcel broadcast channels of the process.
pub struct ParcelChannels {
    map: dashmap::DashMap<String, tokio::sync::broadcast::Sender<String>>,
}

impl ParcelChannels {
    /// The channel of each parcel that has one.
    pub closed spec fn channels(&self) -> Map<Seq<char>, tokio::sync::broadcast::Sender<String>> {
        registry_channels(self.map)
    }

    /// The parcels that have a channel.
    pub open spec fn parcels(&self) -> Set<Seq<char>> {
        self.channels().dom()
    }

    /// A registry without channels.
    pub fn new() -> (r: ParcelChannels)
        ensures
            r.channels() == Map::<Seq<char>, tokio::sync::broadcast::Sender<String>>::empty(),
    {
        let r = ParcelChannels { map: empty_registry() };
        assert(r.channels() =~= Map::<Seq<char>, tokio::sync::broadcast::Sender<String>>::empty());
        r
    }

    /// The channel of a parcel: the one it has, left as it is, or else a new
    /// one with room for `PARCEL_CHANNEL_CAPACITY` messages, stored for it;
    /// the channels of the other parcels stay as they were.
    pub fn channel_for(&mut self, parcel_id: &str) -> (r: tokio::sync::broadcast::Sender<String>)
        ensures
            old(self).parcels().contains(parcel_id@) ==> final(self).channels() == old(self).channels(),
            !old(self).parcels().contains(parcel_id@) ==> final(self).channels() == old(self).channels().insert(parcel_id@, r) && channel_capacity(r) == PARCEL_CHANNEL_CAPACITY,
            final(self).parcels().contains(parcel_id@),
            r == final(self).channels()[parcel_id@],
    {
        sender_entry(&mut self.map, parcel_id)
    }

    /// Forgets the channel of a parcel, and only that one.
    pub fn forget(&mut self, parcel_id: &str)
        ensures
            final(self).channels() == old(self).channels().remove(parcel_id@),
    {
        remove_entry(&mut self.map, parcel_id)
    }

    /// Hands a payload that arrived for a parcel to its customers: the
    /// parcel's channel is looked up (created if absent, as by
    /// [`channel_for`](Self::channel_for)); when it has receivers the payload
    /// is sent on that channel unchanged and the parcel keeps it
    /// (`Forward`); otherwise nothing is sent, the parcel's channel is
    /// forgotten and the subscriber is to stop (`Retire`), as
    /// [`next_subscriber_action`] decides for the receiver count read from
    /// the channel, which is returned with the action. No other parcel's
    /// channel is touched.
    pub fn deliver(&mut self, parcel_id: &str, payload: String) -> (r: (SubscriberAction, usize))
        ensures
            r.0 == subscriber_action(SubscriberEvent::Message { listeners: r.1 }),
            r.0 is Forward || r.0 is Retire,
            r.0 is Forward ==> final(self).parcels().contains(parcel_id@) && final(self).channels().remove(parcel_id@) == old(self).channels().remove(parcel_id@)
                && (old(self).parcels().contains(parcel_id@) ==> final(self).channels() == old(self).channels()),
            r.0 is Retire ==> final(self).channels() == old(self).channels().remove(parcel_id@),
    {
        let sender = self.channel_for(parcel_id);
        let listeners = listener_count(&sender);
        let action = next_subscriber_action(SubscriberEvent::Message { listeners });
        proof {
            assert(self.channels().remove(parcel_id@) =~= old(self).channels().remove(parcel_id@));
        }
        match action {
            SubscriberAction::Retire => {
                self.forget(parcel_id);
            },
            SubscriberAction::Forward => {
                let _ = broadcast_payload(&sender, payload);
            },
            _ => {},
        }
        (action, listeners)
    }
}

} // verus!
