//! The Broadcast Bus: a bounded, multi-producer multi-consumer channel.
//!
//! The bus is `tokio::sync::broadcast`.  Its delivery discipline, relied
//! upon here and checked by the tests, is: a send never blocks and is
//! discarded when there is no subscriber; a receiver sees only messages
//! sent after it subscribed, in send order; a receiver that falls more
//! than the capacity behind loses its oldest unread messages and is told
//! so by a lag notification, instead of stalling the producer or the other
//! receivers.
//!
//! Verified code sees each channel through an identity: subscribing to a
//! server yields a receiver on that server's own channel, never a fresh
//! one.

use vstd::prelude::*;

use crate::types::{AgentMessage, SystemMetrics};

verus! {

#[verifier::external_type_specification]
#[verifier::external_body]
#[verifier::reject_recursive_types(T)]
pub struct ExBroadcastSender<T>(tokio::sync::broadcast::Sender<T>);

#[verifier::external_type_specification]
#[verifier::external_body]
#[verifier::reject_recursive_types(T)]
pub struct ExBroadcastReceiver<T>(tokio::sync::broadcast::Receiver<T>);

/// The identity of the channel a sender feeds.
pub uninterp spec fn agent_channel_of_sender(
    s: &tokio::sync::broadcast::Sender<AgentMessage>,
) -> nat;

/// The identity of the channel a receiver listens on.
pub uninterp spec fn agent_channel_of_receiver(
    r: &tokio::sync::broadcast::Receiver<AgentMessage>,
) -> nat;

/// The bound the channel was created with.
pub uninterp spec fn agent_channel_capacity(
    s: &tokio::sync::broadcast::Sender<AgentMessage>,
) -> nat;

/// Relies on `tokio::sync::broadcast::Sender::new`: a fresh bounded
/// channel with the given capacity (which the channel may round up to the
/// next power of two).  The call panics on a capacity of zero or above
/// `usize::MAX / 2`, so those are excluded here.
#[verifier::external_body]
fn new_agent_sender(capacity: usize) -> (r: tokio::sync::broadcast::Sender<AgentMessage>)
    requires
        1 <= capacity <= usize::MAX / 2,
    ensures
        agent_channel_capacity(&r) == capacity,
{
    tokio::sync::broadcast::Sender::new(capacity)
}

/// Relies on `tokio::sync::broadcast::Sender::subscribe`: a new receiver
/// on the sender's own channel that sees values sent after this call.
#[verifier::external_body]
fn agent_subscribe(tx: &tokio::sync::broadcast::Sender<AgentMessage>) -> (r:
    tokio::sync::broadcast::Receiver<AgentMessage>)
    ensures
        agent_channel_of_receiver(&r) == agent_channel_of_sender(tx),
{
    tx.subscribe()
}

/// Relies on `Clone` for `tokio::sync::broadcast::Sender`: another handle
/// to the same channel.
#[verifier::external_body]
fn agent_clone_sender(tx: &tokio::sync::broadcast::Sender<AgentMessage>) -> (r:
    tokio::sync::broadcast::Sender<AgentMessage>)
    ensures
        agent_channel_of_sender(&r) == agent_channel_of_sender(tx),
        agent_channel_capacity(&r) == agent_channel_capacity(tx),
{
    tx.clone()
}

/// Relies on `tokio::sync::broadcast::Sender::send`: never blocks; `Ok(n)`
/// is the number of receiver handles the value was queued for; `Err` means
/// there was none and the value was discarded, which this wrapper reports
/// as zero.  How many receivers actually observe the value depends on
/// concurrent subscribers, so nothing further is promised.
#[verifier::external_body]
fn agent_send(tx: &tokio::sync::broadcast::Sender<AgentMessage>, message: AgentMessage) -> (r:
    usize)
{
    match tx.send(message) {
        Ok(n) => n,
        Err(_) => 0,
    }
}

/// The agent-side connection point: owns the Broadcast Bus that every
/// connection's outbound pump subscribes to.  The accept loop around it
/// lives outside the library; connections are independent of each other,
/// and all shared state is this one bus.
pub struct WebSocketServer {
    pub addr: String,
    pub message_sender: tokio::sync::broadcast::Sender<AgentMessage>,
}

/// The bus capacity recommended by the design: a subscriber more than
/// this many messages behind loses history rather than stalling anyone.
pub const BUS_CAPACITY: usize = 1000;

impl WebSocketServer {
    /// The identity of this server's bus.
    pub open spec fn channel(&self) -> nat {
        agent_channel_of_sender(&self.message_sender)
    }

    /// The bound of this server's bus.
    pub open spec fn capacity(&self) -> nat {
        agent_channel_capacity(&self.message_sender)
    }

    /// The address the server was asked to listen on.
    pub open spec fn spec_addr(&self) -> Seq<char> {
        self.addr@
    }

    pub fn new(addr: String) -> (r: Self)
        ensures
            r.capacity() == BUS_CAPACITY,
            r.spec_addr() == addr@,
    {
        let message_sender = new_agent_sender(BUS_CAPACITY);
        Self { addr, message_sender }
    }

    pub fn addr(&self) -> (r: &String)
        ensures
            r@ == self.spec_addr(),
    {
        &self.addr
    }

    /// A new receiver handle on this server's bus.  It sees only messages
    /// sent from this point forward: no replay of history.
    pub fn subscribe(&self) -> (r: tokio::sync::broadcast::Receiver<AgentMessage>)
        ensures
            agent_channel_of_receiver(&r) == self.channel(),
    {
        agent_subscribe(&self.message_sender)
    }

    /// Sends a message to every connected consumer.  Never blocks and
    /// never fails: with zero subscribers the message is simply discarded
    /// and the count returned is zero — monitoring with no viewers is
    /// legal.
    pub fn broadcast_message(&self, message: AgentMessage) -> (r: usize) {
        agent_send(&self.message_sender, message)
    }

    /// A sender handle onto the same bus, for other producers.
    pub fn get_message_sender(&self) -> (r: tokio::sync::broadcast::Sender<AgentMessage>)
        ensures
            agent_channel_of_sender(&r) == self.channel(),
            agent_channel_capacity(&r) == self.capacity(),
    {
        agent_clone_sender(&self.message_sender)
    }
}

/// The consumer-side connection holder: keeps the forwarding channel of
/// the most recent agent connection, if any.
pub struct WebSocketClient {
    pub sender: Option<tokio::sync::broadcast::Sender<SystemMetrics>>,
}

impl WebSocketClient {
    pub fn new() -> (r: Self)
        ensures
            r.sender is None,
    {
        Self { sender: None }
    }
}

} // verus!
