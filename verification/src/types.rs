//! The message vocabulary: snapshots, host facts, and the tagged unions
//! exchanged over the agent-consumer connection and the operator fan-out.

use vstd::prelude::*;

verus! {

/// One immutable point-in-time measurement of the host.
///
/// Utilization figures are stored in tenths of a percent (`123` means
/// `12.3%`), which is also how they travel on the wire.  Disk and network
/// figures are best effort and may be zero when the host does not expose
/// them; callers must not treat zero as an error.
#[derive(Debug, Clone, Copy, PartialEq, Eq, Structural)]
pub struct SystemMetrics {
    /// CPU utilization in tenths of a percent, averaged across cores.
    pub cpu_usage: u32,
    /// Memory utilization in tenths of a percent.
    pub memory_usage: u32,
    /// Disk utilization in tenths of a percent.
    pub disk_usage: u32,
    /// Bytes received since the previous sample.
    pub network_in: u64,
    /// Bytes sent since the previous sample.
    pub network_out: u64,
    /// Capture time, seconds since the epoch.
    pub timestamp: u64,
}

/// A utilization never exceeds one hundred percent.
pub open spec fn metrics_wf(m: SystemMetrics) -> bool {
    m.cpu_usage <= 1000 && m.memory_usage <= 1000 && m.disk_usage <= 1000
}

/// Host facts computed on demand, not sampled periodically.
#[derive(Debug, Clone)]
pub struct SystemInfo {
    pub hostname: String,
    pub os_name: String,
    pub os_version: String,
    pub kernel_version: String,
    pub total_memory: u64,
    pub cpu_count: u32,
    pub uptime: u64,
}

/// The mathematical value of a [`SystemInfo`].
pub ghost struct SystemInfoV {
    pub hostname: Seq<char>,
    pub os_name: Seq<char>,
    pub os_version: Seq<char>,
    pub kernel_version: Seq<char>,
    pub total_memory: u64,
    pub cpu_count: u32,
    pub uptime: u64,
}

impl View for SystemInfo {
    type V = SystemInfoV;

    open spec fn view(&self) -> SystemInfoV {
        SystemInfoV {
            hostname: self.hostname@,
            os_name: self.os_name@,
            os_version: self.os_version@,
            kernel_version: self.kernel_version@,
            total_memory: self.total_memory,
            cpu_count: self.cpu_count,
            uptime: self.uptime,
        }
    }
}

/// Agent-to-consumer messages.  The wire form carries an explicit tag so an
/// unknown future variant is rejected without crashing the connection.
#[derive(Debug, Clone)]
pub enum AgentMessage {
    SystemMetrics(SystemMetrics),
    SystemInfo(SystemInfo),
    Heartbeat,
}

/// The mathematical value of an [`AgentMessage`].
pub ghost enum AgentMessageV {
    SystemMetrics(SystemMetrics),
    SystemInfo(SystemInfoV),
    Heartbeat,
}

impl View for AgentMessage {
    type V = AgentMessageV;

    open spec fn view(&self) -> AgentMessageV {
        match self {
            AgentMessage::SystemMetrics(m) => AgentMessageV::SystemMetrics(*m),
            AgentMessage::SystemInfo(i) => AgentMessageV::SystemInfo(i@),
            AgentMessage::Heartbeat => AgentMessageV::Heartbeat,
        }
    }
}

/// An agent message is valid when its utilization figures are in range.
pub open spec fn agent_message_wf(m: AgentMessageV) -> bool {
    match m {
        AgentMessageV::SystemMetrics(s) => metrics_wf(s),
        AgentMessageV::SystemInfo(_) => true,
        AgentMessageV::Heartbeat => true,
    }
}

/// Consumer-to-agent commands.
#[derive(Debug, Clone, Copy, PartialEq, Eq, Structural)]
pub enum ClientMessage {
    RequestSystemInfo,
    StartMonitoring { interval_secs: u64 },
    StopMonitoring,
    Heartbeat,
}

/// A command is valid when a requested monitoring period is positive.
pub open spec fn client_message_wf(m: ClientMessage) -> bool {
    match m {
        ClientMessage::StartMonitoring { interval_secs } => interval_secs >= 1,
        _ => true,
    }
}

/// Operator-facing operational events, fanned out by client key.
#[derive(Debug, Clone)]
pub enum AppEvent {
    InstallDocker(String),
}

/// The mathematical value of an [`AppEvent`].
pub ghost enum AppEventV {
    InstallDocker(Seq<char>),
}

impl View for AppEvent {
    type V = AppEventV;

    open spec fn view(&self) -> AppEventV {
        match self {
            AppEvent::InstallDocker(s) => AppEventV::InstallDocker(s@),
        }
    }
}

/// One log record shared between agent and consumer.
#[derive(Debug, Clone)]
pub struct LogEntry {
    pub timestamp: u64,
    pub level: String,
    pub message: String,
    pub source: String,
}

} // verus!
