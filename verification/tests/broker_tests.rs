use light_guide::broker::{
    conn_step, dispatch_command, route_agent_message, ClientRoute, CommandAction, ConnAction,
    ConnEvent, ConnState,
};
use light_guide::types::{AgentMessage, ClientMessage, SystemInfo, SystemMetrics};

fn metrics() -> SystemMetrics {
    SystemMetrics {
        cpu_usage: 123,
        memory_usage: 410,
        disk_usage: 0,
        network_in: 0,
        network_out: 0,
        timestamp: 1234567890,
    }
}

#[test]
fn handshake_opens_the_connection() {
    let (s, a) = conn_step(ConnState::Connecting, ConnEvent::HandshakeDone);
    assert_eq!(s, ConnState::Open);
    assert!(matches!(a, ConnAction::NoAction));
    let (s, a) = conn_step(ConnState::Connecting, ConnEvent::HandshakeFailed);
    assert_eq!(s, ConnState::Closed);
    assert!(matches!(a, ConnAction::NoAction));
}

#[test]
fn outbound_pump_encodes_every_bus_message() {
    let (s, a) = conn_step(ConnState::Open, ConnEvent::BusMessage(AgentMessage::Heartbeat));
    assert_eq!(s, ConnState::Open);
    match a {
        ConnAction::WriteFrame(f) => assert_eq!(f, "{\"type\":\"Heartbeat\"}"),
        other => panic!("unexpected action: {:?}", other),
    }
}

#[test]
fn inbound_pump_dispatches_decoded_commands() {
    let frame = "{\"type\":\"StartMonitoring\",\"interval_secs\":5}".to_string();
    let (s, a) = conn_step(ConnState::Open, ConnEvent::FrameReceived(frame));
    assert_eq!(s, ConnState::Open);
    match a {
        ConnAction::Dispatch(c) => {
            assert_eq!(c, ClientMessage::StartMonitoring { interval_secs: 5 })
        },
        other => panic!("unexpected action: {:?}", other),
    }
}

#[test]
fn malformed_frames_are_discarded_and_the_connection_stays_open() {
    let (s, a) = conn_step(ConnState::Open, ConnEvent::FrameReceived("not json".to_string()));
    assert_eq!(s, ConnState::Open);
    assert!(matches!(a, ConnAction::DiscardFrame));
}

#[test]
fn first_pump_to_end_wins() {
    for ev in [ConnEvent::CloseReceived, ConnEvent::ReadFailed, ConnEvent::WriteFailed] {
        let (s, a) = conn_step(ConnState::Open, ev);
        assert_eq!(s, ConnState::Closing);
        assert!(matches!(a, ConnAction::CancelPumps));
    }
}

#[test]
fn closing_ends_in_closed_and_unsubscribes() {
    let (s, a) = conn_step(ConnState::Closing, ConnEvent::TeardownDone);
    assert_eq!(s, ConnState::Closed);
    assert!(matches!(a, ConnAction::Unsubscribe));
    // late events during teardown are ignored
    let (s, a) = conn_step(ConnState::Closing, ConnEvent::ReadFailed);
    assert_eq!(s, ConnState::Closing);
    assert!(matches!(a, ConnAction::NoAction));
    // closed is terminal
    let (s, a) = conn_step(ConnState::Closed, ConnEvent::HandshakeDone);
    assert_eq!(s, ConnState::Closed);
    assert!(matches!(a, ConnAction::NoAction));
}

#[test]
fn lag_is_noted_and_not_fatal() {
    let (s, a) = conn_step(ConnState::Open, ConnEvent::Lagged(7));
    assert_eq!(s, ConnState::Open);
    match a {
        ConnAction::NoteLag(n) => assert_eq!(n, 7),
        other => panic!("unexpected action: {:?}", other),
    }
}

#[test]
fn commands_map_to_their_actions() {
    assert_eq!(dispatch_command(&ClientMessage::RequestSystemInfo), CommandAction::ReplyHostInfo);
    assert_eq!(
        dispatch_command(&ClientMessage::StartMonitoring { interval_secs: 5 }),
        CommandAction::SetSamplerPeriod(5)
    );
    assert_eq!(
        dispatch_command(&ClientMessage::StartMonitoring { interval_secs: 0 }),
        CommandAction::NoAction
    );
    assert_eq!(dispatch_command(&ClientMessage::StopMonitoring), CommandAction::PauseSampling);
    assert_eq!(dispatch_command(&ClientMessage::Heartbeat), CommandAction::NoAction);
}

#[test]
fn consumer_routes_agent_messages() {
    match route_agent_message(AgentMessage::SystemMetrics(metrics())) {
        ClientRoute::ForwardMetrics(m) => assert_eq!(m, metrics()),
        other => panic!("unexpected route: {:?}", other),
    }
    let info = SystemInfo {
        hostname: "h".to_string(),
        os_name: "o".to_string(),
        os_version: "v".to_string(),
        kernel_version: "k".to_string(),
        total_memory: 1,
        cpu_count: 2,
        uptime: 3,
    };
    match route_agent_message(AgentMessage::SystemInfo(info)) {
        ClientRoute::NoteHostInfo(i) => assert_eq!(i.hostname, "h"),
        other => panic!("unexpected route: {:?}", other),
    }
    assert!(matches!(route_agent_message(AgentMessage::Heartbeat), ClientRoute::Ignore));
}
