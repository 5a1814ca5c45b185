use light_guide::bus::{WebSocketClient, WebSocketServer, BUS_CAPACITY};
use light_guide::codec::encode_agent_message;
use light_guide::types::AgentMessage;
use tokio::sync::broadcast::error::TryRecvError;

#[test]
fn send_with_no_subscribers_is_discarded_not_an_error() {
    let server = WebSocketServer::new("127.0.0.1:0".to_string());
    // monitoring with no viewers is legal: the message is dropped, the
    // producer never blocks, and nothing is queued anywhere
    assert_eq!(server.broadcast_message(AgentMessage::Heartbeat), 0);
    assert_eq!(server.broadcast_message(AgentMessage::Heartbeat), 0);
}

#[test]
fn subscriber_sees_no_history() {
    let server = WebSocketServer::new("127.0.0.1:0".to_string());
    for _ in 0..5 {
        server.broadcast_message(AgentMessage::Heartbeat);
    }
    // a receiver sees only messages sent after it subscribed
    let mut rx = server.subscribe();
    assert!(matches!(rx.try_recv(), Err(TryRecvError::Empty)));
    assert_eq!(server.broadcast_message(AgentMessage::Heartbeat), 1);
    assert!(matches!(rx.try_recv(), Ok(AgentMessage::Heartbeat)));
    assert!(matches!(rx.try_recv(), Err(TryRecvError::Empty)));
}

#[test]
fn two_consumers_each_get_one_heartbeat_frame() {
    let server = WebSocketServer::new("127.0.0.1:0".to_string());
    let mut rx1 = server.subscribe();
    let mut rx2 = server.subscribe();
    assert_eq!(server.broadcast_message(AgentMessage::Heartbeat), 2);
    let m1 = rx1.try_recv().unwrap();
    let m2 = rx2.try_recv().unwrap();
    assert_eq!(encode_agent_message(&m1), "{\"type\":\"Heartbeat\"}");
    assert_eq!(encode_agent_message(&m2), "{\"type\":\"Heartbeat\"}");
    // exactly one frame each
    assert!(matches!(rx1.try_recv(), Err(TryRecvError::Empty)));
    assert!(matches!(rx2.try_recv(), Err(TryRecvError::Empty)));
}

#[test]
fn slow_subscriber_lags_then_resumes() {
    let server = WebSocketServer::new("127.0.0.1:0".to_string());
    let mut rx = server.subscribe();
    // overrun the bus capacity without consuming anything (the channel
    // may round its bound up to a power of two, so overshoot generously)
    for _ in 0..(BUS_CAPACITY * 3) {
        server.broadcast_message(AgentMessage::Heartbeat);
    }
    // the subscriber is told it lagged and lost its oldest messages...
    match rx.try_recv() {
        Err(TryRecvError::Lagged(n)) => assert!(n >= 1),
        other => panic!("expected a lag notification, got {:?}", other),
    }
    // ...and then resumes receiving current messages
    assert!(matches!(rx.try_recv(), Ok(AgentMessage::Heartbeat)));
}

#[test]
fn messages_arrive_in_send_order() {
    let server = WebSocketServer::new("127.0.0.1:0".to_string());
    let mut rx = server.subscribe();
    let snapshot = light_guide::types::SystemMetrics {
        cpu_usage: 1,
        memory_usage: 2,
        disk_usage: 3,
        network_in: 4,
        network_out: 5,
        timestamp: 6,
    };
    server.broadcast_message(AgentMessage::SystemMetrics(snapshot));
    server.broadcast_message(AgentMessage::Heartbeat);
    match rx.try_recv() {
        Ok(AgentMessage::SystemMetrics(m)) => assert_eq!(m, snapshot),
        other => panic!("unexpected: {:?}", other),
    }
    assert!(matches!(rx.try_recv(), Ok(AgentMessage::Heartbeat)));
}

#[test]
fn cloned_sender_feeds_the_same_bus() {
    let server = WebSocketServer::new("127.0.0.1:0".to_string());
    let mut rx = server.subscribe();
    let tx = server.get_message_sender();
    tx.send(AgentMessage::Heartbeat).unwrap();
    assert!(matches!(rx.try_recv(), Ok(AgentMessage::Heartbeat)));
}

#[test]
fn server_keeps_its_address() {
    let server = WebSocketServer::new("0.0.0.0:8080".to_string());
    assert_eq!(server.addr(), "0.0.0.0:8080");
}

#[test]
fn fresh_client_holds_no_connection() {
    let c = WebSocketClient::new();
    assert!(c.sender.is_none());
}
