use light_guide::fanout::{render_event, EventRegistry, KEEP_ALIVE_SECS};
use light_guide::sampler::ticks_elapsed;
use light_guide::types::AppEvent;
use tokio::sync::broadcast::error::TryRecvError;

#[test]
fn same_key_subscribers_share_one_channel() {
    let reg = EventRegistry::new();
    let mut rx1 = reg.subscribe("hostA");
    let mut rx2 = reg.subscribe("hostA");
    // one publish on the key is observed by both receivers
    assert_eq!(reg.publish("hostA", AppEvent::InstallDocker("redis:6".to_string())), 2);
    match rx1.try_recv() {
        Ok(AppEvent::InstallDocker(id)) => assert_eq!(id, "redis:6"),
        other => panic!("unexpected: {:?}", other),
    }
    match rx2.try_recv() {
        Ok(AppEvent::InstallDocker(id)) => assert_eq!(id, "redis:6"),
        other => panic!("unexpected: {:?}", other),
    }
}

#[test]
fn publish_without_subscribers_is_silently_dropped() {
    let reg = EventRegistry::new();
    // no channel means no current subscribers, which is not an error
    assert_eq!(reg.publish("hostA", AppEvent::InstallDocker("redis:6".to_string())), 0);
    // a later subscriber receives no backlog
    let mut rx = reg.subscribe("hostA");
    assert!(matches!(rx.try_recv(), Err(TryRecvError::Empty)));
    // but a keep-alive is due within the configured interval
    assert_eq!(ticks_elapsed(KEEP_ALIVE_SECS, KEEP_ALIVE_SECS), 1);
}

#[test]
fn keys_are_independent() {
    let reg = EventRegistry::new();
    let mut rx_a = reg.subscribe("a");
    let mut rx_b = reg.subscribe("b");
    assert_eq!(reg.publish("a", AppEvent::InstallDocker("x".to_string())), 1);
    assert!(matches!(rx_a.try_recv(), Ok(AppEvent::InstallDocker(_))));
    assert!(matches!(rx_b.try_recv(), Err(TryRecvError::Empty)));
}

#[test]
fn events_arrive_in_publish_order() {
    let reg = EventRegistry::new();
    let mut rx = reg.subscribe("k");
    reg.publish("k", AppEvent::InstallDocker("one".to_string()));
    reg.publish("k", AppEvent::InstallDocker("two".to_string()));
    match rx.try_recv() {
        Ok(AppEvent::InstallDocker(id)) => assert_eq!(id, "one"),
        other => panic!("unexpected: {:?}", other),
    }
    match rx.try_recv() {
        Ok(AppEvent::InstallDocker(id)) => assert_eq!(id, "two"),
        other => panic!("unexpected: {:?}", other),
    }
}

#[test]
fn rendered_event_carries_name_and_payload() {
    let (name, payload) = render_event(&AppEvent::InstallDocker("redis:6".to_string()));
    assert_eq!(name, "install_docker");
    assert_eq!(payload, "{\"type\":\"InstallDocker\",\"identifier\":\"redis:6\"}");
}
