//! The Connection Broker's per-connection logic.
//!
//! Each accepted connection runs two independent pumps: the outbound pump
//! forwards every Broadcast Bus message as an encoded frame; the inbound
//! pump decodes consumer commands.  The connection's lifecycle is the
//! state machine here — `Connecting` (handshake), `Open` (both pumps),
//! `Closing` (the instant either pump ends; the other is cancelled),
//! `Closed` (terminal; the bus receiver is released) — and every decision
//! is a pure step from state and event to next state and action.  The
//! loop that performs the actions (socket writes, task cancellation)
//! lives outside the library and feeds the observed events back in.

use vstd::prelude::*;

use crate::codec::{
    decode_client_message, encode_agent_message, spec_decode_client, spec_encode_agent,
};
use crate::types::{AgentMessage, AgentMessageV, ClientMessage, SystemInfo, SystemMetrics};

verus! {

/// A connection's lifecycle phase.
#[derive(Debug, Clone, Copy, PartialEq, Eq, Structural)]
pub enum ConnState {
    Connecting,
    Open,
    Closing,
    Closed,
}

/// What a connection's pumps observe.
#[derive(Debug, Clone)]
pub enum ConnEvent {
    /// The streaming handshake completed.
    HandshakeDone,
    /// The handshake failed; the connection never opened.
    HandshakeFailed,
    /// The Broadcast Bus handed the outbound pump a message.
    BusMessage(AgentMessage),
    /// The outbound pump fell behind and the bus dropped this many of its
    /// oldest unread messages.
    Lagged(u64),
    /// A text frame arrived on the inbound pump.
    FrameReceived(String),
    /// The peer sent a close frame.
    CloseReceived,
    /// A read on the connection failed.
    ReadFailed,
    /// A write on the connection failed.
    WriteFailed,
    /// Both pumps have stopped and the transport is torn down.
    TeardownDone,
}

/// What the surrounding loop must do next.
#[derive(Debug, Clone)]
pub enum ConnAction {
    /// Write this frame to this connection.
    WriteFrame(String),
    /// Act on this decoded consumer command.
    Dispatch(ClientMessage),
    /// Log and drop one malformed frame; the connection stays open.
    DiscardFrame,
    /// Log a lag warning and resume with the newest available messages.
    NoteLag(u64),
    /// Cancel this connection's other pump; nothing else is affected.
    CancelPumps,
    /// Release the bus receiver handle: unsubscribe.
    Unsubscribe,
    /// Nothing to do.
    NoAction,
}

/// One step of a connection's lifecycle: the next state and the action the
/// loop owes.  Only this connection is ever affected; a decode failure
/// discards the single frame and keeps the connection open; the first pump
/// to end wins and moves the connection to `Closing` at once.
pub fn conn_step(state: ConnState, event: ConnEvent) -> (r: (ConnState, ConnAction))
    ensures
        state == ConnState::Connecting ==> (match event {
            ConnEvent::HandshakeDone => r == (ConnState::Open, ConnAction::NoAction),
            ConnEvent::HandshakeFailed => r == (ConnState::Closed, ConnAction::NoAction),
            _ => r == (ConnState::Connecting, ConnAction::NoAction),
        }),
        state == ConnState::Open ==> (match event {
            ConnEvent::BusMessage(m) => r.0 == ConnState::Open && (r.1 matches
            ConnAction::WriteFrame(f) && f@ == spec_encode_agent(m@)),
            ConnEvent::Lagged(n) => r == (ConnState::Open, ConnAction::NoteLag(n)),
            ConnEvent::FrameReceived(f) => r.0 == ConnState::Open && (match spec_decode_client(
                f@,
            ) {
                Some(c) => r.1 == ConnAction::Dispatch(c),
                None => r.1 == ConnAction::DiscardFrame,
            }),
            ConnEvent::CloseReceived => r == (ConnState::Closing, ConnAction::CancelPumps),
            ConnEvent::ReadFailed => r == (ConnState::Closing, ConnAction::CancelPumps),
            ConnEvent::WriteFailed => r == (ConnState::Closing, ConnAction::CancelPumps),
            ConnEvent::TeardownDone => r == (ConnState::Closed, ConnAction::Unsubscribe),
            _ => r == (ConnState::Open, ConnAction::NoAction),
        }),
        state == ConnState::Closing ==> (match event {
            ConnEvent::TeardownDone => r == (ConnState::Closed, ConnAction::Unsubscribe),
            _ => r == (ConnState::Closing, ConnAction::NoAction),
        }),
        state == ConnState::Closed ==> r == (ConnState::Closed, ConnAction::NoAction),
{
    match state {
        ConnState::Connecting => match event {
            ConnEvent::HandshakeDone => (ConnState::Open, ConnAction::NoAction),
            ConnEvent::HandshakeFailed => (ConnState::Closed, ConnAction::NoAction),
            _ => (ConnState::Connecting, ConnAction::NoAction),
        },
        ConnState::Open => match event {
            ConnEvent::BusMessage(m) => (
                ConnState::Open,
                ConnAction::WriteFrame(encode_agent_message(&m)),
            ),
            ConnEvent::Lagged(n) => (ConnState::Open, ConnAction::NoteLag(n)),
            ConnEvent::FrameReceived(f) => match decode_client_message(f.as_str()) {
                Ok(c) => (ConnState::Open, ConnAction::Dispatch(c)),
                Err(_) => (ConnState::Open, ConnAction::DiscardFrame),
            },
            ConnEvent::CloseReceived => (ConnState::Closing, ConnAction::CancelPumps),
            ConnEvent::ReadFailed => (ConnState::Closing, ConnAction::CancelPumps),
            ConnEvent::WriteFailed => (ConnState::Closing, ConnAction::CancelPumps),
            ConnEvent::TeardownDone => (ConnState::Closed, ConnAction::Unsubscribe),
            _ => (ConnState::Open, ConnAction::NoAction),
        },
        ConnState::Closing => match event {
            ConnEvent::TeardownDone => (ConnState::Closed, ConnAction::Unsubscribe),
            _ => (ConnState::Closing, ConnAction::NoAction),
        },
        ConnState::Closed => (ConnState::Closed, ConnAction::NoAction),
    }
}

/// What an agent owes for one decoded consumer command.
#[derive(Debug, Clone, Copy, PartialEq, Eq, Structural)]
pub enum CommandAction {
    /// Answer the requesting connection, directly — not broadcast — with
    /// the current host facts.
    ReplyHostInfo,
    /// (Re)configure the sampler to this period, in seconds.
    SetSamplerPeriod(u64),
    /// Pause sampling.
    PauseSampling,
    /// Nothing: heartbeats need no answer, and a zero period is refused
    /// before it ever reaches the sampler loop.
    NoAction,
}

/// Command dispatch: the action each consumer command calls for.
pub fn dispatch_command(cmd: &ClientMessage) -> (a: CommandAction)
    ensures
        a == (match *cmd {
            ClientMessage::RequestSystemInfo => CommandAction::ReplyHostInfo,
            ClientMessage::StartMonitoring { interval_secs } => {
                if interval_secs >= 1 {
                    CommandAction::SetSamplerPeriod(interval_secs)
                } else {
                    CommandAction::NoAction
                }
            },
            ClientMessage::StopMonitoring => CommandAction::PauseSampling,
            ClientMessage::Heartbeat => CommandAction::NoAction,
        }),
{
    match cmd {
        ClientMessage::RequestSystemInfo => CommandAction::ReplyHostInfo,
        ClientMessage::StartMonitoring { interval_secs } => {
            if *interval_secs >= 1 {
                CommandAction::SetSamplerPeriod(*interval_secs)
            } else {
                CommandAction::NoAction
            }
        },
        ClientMessage::StopMonitoring => CommandAction::PauseSampling,
        ClientMessage::Heartbeat => CommandAction::NoAction,
    }
}

/// What a consumer does with one agent message it received.
#[derive(Debug, Clone)]
pub enum ClientRoute {
    /// Forward the snapshot to the local metrics channel.
    ForwardMetrics(SystemMetrics),
    /// Record the host facts.
    NoteHostInfo(SystemInfo),
    /// Heartbeats need no action.
    Ignore,
}

/// Consumer-side routing of one received agent message.
pub fn route_agent_message(m: AgentMessage) -> (r: ClientRoute)
    ensures
        match m@ {
            AgentMessageV::SystemMetrics(s) => r matches ClientRoute::ForwardMetrics(t) && t == s,
            AgentMessageV::SystemInfo(iv) => r matches ClientRoute::NoteHostInfo(i) && i@ == iv,
            AgentMessageV::Heartbeat => r matches ClientRoute::Ignore,
        },
{
    match m {
        AgentMessage::SystemMetrics(s) => ClientRoute::ForwardMetrics(s),
        AgentMessage::SystemInfo(i) => ClientRoute::NoteHostInfo(i),
        AgentMessage::Heartbeat => ClientRoute::Ignore,
    }
}

} // verus!
