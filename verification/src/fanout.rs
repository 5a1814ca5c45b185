//! The Keyed Fan-out Registry: a concurrent map from client key to a
//! broadcast channel, created lazily on first subscription and shared by
//! every later subscriber with the same key.
//!
//! The map is a `dashmap::DashMap`; each entry's channel is a
//! `tokio::sync::broadcast` channel of capacity [`FANOUT_CAPACITY`].
//! Entries are never removed, and the entry dance below creates at most
//! one channel per key, atomically, under `DashMap::entry`'s per-key lock:
//! check-then-create cannot race into two channels for one key.  Because
//! of those two facts, "the channel of key `k` in map `m`" is well defined
//! for all time — before the entry exists it denotes the one channel that
//! will ever be created for `k` — which is how [`event_channel_at`] models
//! the map without tracking its changing contents.

use vstd::prelude::*;

use crate::codec::{encode_app_event, spec_encode_event};
use crate::types::{AppEvent, AppEventV};

verus! {

#[verifier::external_type_specification]
#[verifier::external_body]
#[verifier::reject_recursive_types(K)]
#[verifier::reject_recursive_types(V)]
#[verifier::reject_recursive_types(S)]
pub struct ExDashMap<K, V, S>(dashmap::DashMap<K, V, S>);

/// The map from client key to that key's fan-out channel.
pub type ClientMap = dashmap::DashMap<String, tokio::sync::broadcast::Sender<AppEvent>>;

/// The identity of the channel an event receiver listens on.
pub uninterp spec fn event_channel_of_receiver(
    r: &tokio::sync::broadcast::Receiver<AppEvent>,
) -> nat;

/// The map's key-to-channel association: the identity of the one channel
/// that key ever has in this map.
pub uninterp spec fn event_channel_at(m: &ClientMap, key: Seq<char>) -> nat;

/// The per-key channel bound recommended by the design.
pub const FANOUT_CAPACITY: usize = 100;

/// Relies on `dashmap::DashMap::new`: an empty map.
#[verifier::external_body]
fn new_client_map() -> (r: ClientMap) {
    dashmap::DashMap::new()
}

/// Relies on `dashmap::DashMap::entry` holding the key's shard lock across
/// the match — two concurrent calls for one unseen key yield receivers on
/// the same channel, never two channels — and on
/// `tokio::sync::broadcast::Sender::new` / `subscribe`.
#[verifier::external_body]
fn map_subscribe(m: &ClientMap, key: &str, capacity: usize) -> (r:
    tokio::sync::broadcast::Receiver<AppEvent>)
    requires
        1 <= capacity <= usize::MAX / 2,
    ensures
        event_channel_of_receiver(&r) == event_channel_at(m, key@),
{
    match m.entry(key.to_string()) {
        dashmap::mapref::entry::Entry::Occupied(e) => e.get().subscribe(),
        dashmap::mapref::entry::Entry::Vacant(e) => {
            e.insert(tokio::sync::broadcast::Sender::new(capacity)).subscribe()
        },
    }
}

/// Relies on `dashmap::DashMap::get` and
/// `tokio::sync::broadcast::Sender::send`: sends on `key`'s channel if the
/// entry is present, reporting how many receiver handles the value was
/// queued for, zero when the entry or every receiver is gone and the value
/// was discarded.  Never blocks.  Whether a given subscriber observes the
/// value depends on concurrent joins and leaves, so nothing further is
/// promised.
#[verifier::external_body]
fn map_publish(m: &ClientMap, key: &str, event: AppEvent) -> (r: usize) {
    match m.get(key) {
        Some(tx) => match tx.send(event) {
            Ok(n) => n,
            Err(_) => 0,
        },
        None => 0,
    }
}

/// The operator-facing registry.  One instance serves arbitrarily many
/// concurrent subscribers and publishers; per-key insertion is atomic.
pub struct EventRegistry {
    pub clients: ClientMap,
}

impl EventRegistry {
    pub fn new() -> (r: Self) {
        EventRegistry { clients: new_client_map() }
    }

    /// A receiver on `key`'s channel, which is created here, atomically,
    /// if this is the first subscription for `key`.  The receiver sees
    /// only events published from this point forward: no replay of
    /// history.
    pub fn subscribe(&self, key: &str) -> (r: tokio::sync::broadcast::Receiver<AppEvent>)
        ensures
            event_channel_of_receiver(&r) == event_channel_at(&self.clients, key@),
    {
        map_subscribe(&self.clients, key, FANOUT_CAPACITY)
    }

    /// Sends `event` to `key`'s channel if one is present and subscribed;
    /// otherwise the event is silently dropped — no channel means no
    /// current subscribers, which is not an error.  Returns how many
    /// receiver handles the event was queued for; never blocks.
    pub fn publish(&self, key: &str, event: AppEvent) -> (r: usize) {
        map_publish(&self.clients, key, event)
    }
}

/// The keep-alive interval recommended for the streaming endpoint: a
/// content-free frame is pushed this often, in seconds, even when no
/// event occurred, to detect dead streams and defeat idle timeouts.
pub const KEEP_ALIVE_SECS: u64 = 1;

/// The event-stream name under which an event is pushed.
pub fn event_name(e: &AppEvent) -> (r: String)
    ensures
        (match e@ {
            AppEventV::InstallDocker(_) => r@ == ("install_docker")@,
        }),
{
    match e {
        AppEvent::InstallDocker(_) => String::from_str("install_docker"),
    }
}

/// The named frame a streaming endpoint pushes for one event: its stream
/// name and its canonical wire payload.
pub fn render_event(e: &AppEvent) -> (r: (String, String))
    ensures
        (match e@ {
            AppEventV::InstallDocker(_) => r.0@ == ("install_docker")@,
        }),
        r.1@ == spec_encode_event(e@),
{
    (event_name(e), encode_app_event(e))
}

/// Two subscriptions with the same key are attached to the same channel:
/// the registry associates one channel with each key, for its whole life,
/// so an event published once on that key is observed by both receivers.
pub proof fn lemma_same_key_same_channel(
    m: &ClientMap,
    key: Seq<char>,
    a: &tokio::sync::broadcast::Receiver<AppEvent>,
    b: &tokio::sync::broadcast::Receiver<AppEvent>,
)
    requires
        event_channel_of_receiver(a) == event_channel_at(m, key),
        event_channel_of_receiver(b) == event_channel_at(m, key),
    ensures
        event_channel_of_receiver(a) == event_channel_of_receiver(b),
{
}

} // verus!
