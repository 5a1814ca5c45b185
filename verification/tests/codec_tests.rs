use light_guide::codec::{
    decode_agent_message, decode_app_event, decode_client_message, encode_agent_message,
    encode_app_event, encode_client_message, str_eq_lit, u64_to_string,
};
use light_guide::error::DecodeError;
use light_guide::types::{AgentMessage, AppEvent, ClientMessage, SystemInfo, SystemMetrics};

fn sample_metrics() -> SystemMetrics {
    SystemMetrics {
        cpu_usage: 123,
        memory_usage: 410,
        disk_usage: 0,
        network_in: 0,
        network_out: 0,
        timestamp: 1234567890,
    }
}

#[test]
fn metrics_encode_is_the_documented_frame() {
    let s = encode_agent_message(&AgentMessage::SystemMetrics(sample_metrics()));
    assert_eq!(
        s,
        "{\"type\":\"Metrics\",\"cpu_usage\":12.3,\"memory_usage\":41.0,\"disk_usage\":0.0,\"network_in\":0,\"network_out\":0,\"timestamp\":1234567890}"
    );
}

#[test]
fn heartbeat_encode_is_the_documented_frame() {
    let s = encode_agent_message(&AgentMessage::Heartbeat);
    assert_eq!(s, "{\"type\":\"Heartbeat\"}");
}

#[test]
fn start_monitoring_encode_is_the_documented_frame() {
    let s = encode_client_message(&ClientMessage::StartMonitoring { interval_secs: 5 });
    assert_eq!(s, "{\"type\":\"StartMonitoring\",\"interval_secs\":5}");
}

#[test]
fn metrics_round_trip() {
    let m = sample_metrics();
    let s = encode_agent_message(&AgentMessage::SystemMetrics(m));
    match decode_agent_message(&s) {
        Ok(AgentMessage::SystemMetrics(back)) => assert_eq!(back, m),
        other => panic!("unexpected decode: {:?}", other),
    }
}

#[test]
fn metrics_round_trip_extremes() {
    let m = SystemMetrics {
        cpu_usage: 1000,
        memory_usage: 0,
        disk_usage: 999,
        network_in: u64::MAX,
        network_out: 1,
        timestamp: u64::MAX,
    };
    let s = encode_agent_message(&AgentMessage::SystemMetrics(m));
    match decode_agent_message(&s) {
        Ok(AgentMessage::SystemMetrics(back)) => assert_eq!(back, m),
        other => panic!("unexpected decode: {:?}", other),
    }
}

#[test]
fn host_info_round_trip_with_escapes() {
    let info = SystemInfo {
        hostname: "host\"A\"".to_string(),
        os_name: "linux\\gnu".to_string(),
        os_version: "".to_string(),
        kernel_version: "6.1".to_string(),
        total_memory: 8192,
        cpu_count: 16,
        uptime: 3600,
    };
    let s = encode_agent_message(&AgentMessage::SystemInfo(info.clone()));
    match decode_agent_message(&s) {
        Ok(AgentMessage::SystemInfo(back)) => {
            assert_eq!(back.hostname, info.hostname);
            assert_eq!(back.os_name, info.os_name);
            assert_eq!(back.os_version, info.os_version);
            assert_eq!(back.kernel_version, info.kernel_version);
            assert_eq!(back.total_memory, info.total_memory);
            assert_eq!(back.cpu_count, info.cpu_count);
            assert_eq!(back.uptime, info.uptime);
        },
        other => panic!("unexpected decode: {:?}", other),
    }
}

#[test]
fn heartbeat_round_trip() {
    let s = encode_agent_message(&AgentMessage::Heartbeat);
    assert!(matches!(decode_agent_message(&s), Ok(AgentMessage::Heartbeat)));
}

#[test]
fn client_round_trips() {
    for m in [
        ClientMessage::RequestSystemInfo,
        ClientMessage::StartMonitoring { interval_secs: 1 },
        ClientMessage::StartMonitoring { interval_secs: u64::MAX },
        ClientMessage::StopMonitoring,
        ClientMessage::Heartbeat,
    ] {
        let s = encode_client_message(&m);
        assert_eq!(decode_client_message(&s), Ok(m));
    }
}

#[test]
fn event_encode_and_round_trip() {
    let e = AppEvent::InstallDocker("redis:6".to_string());
    let s = encode_app_event(&e);
    assert_eq!(s, "{\"type\":\"InstallDocker\",\"identifier\":\"redis:6\"}");
    match decode_app_event(&s) {
        Ok(AppEvent::InstallDocker(id)) => assert_eq!(id, "redis:6"),
        other => panic!("unexpected decode: {:?}", other),
    }
}

#[test]
fn event_round_trip_with_escapes() {
    let e = AppEvent::InstallDocker("a\"b\\c".to_string());
    let s = encode_app_event(&e);
    match decode_app_event(&s) {
        Ok(AppEvent::InstallDocker(id)) => assert_eq!(id, "a\"b\\c"),
        other => panic!("unexpected decode: {:?}", other),
    }
}

#[test]
fn unrecognized_frames_yield_decode_errors() {
    for s in [
        "",
        "garbage",
        "{}",
        "{\"type\":\"Nonsense\"}",
        "{\"type\":\"Metrics\"}",
        "{ \"type\": \"Heartbeat\" }",
        "{\"type\":\"Heartbeat\"}extra",
        "{\"type\":\"Metrics\",\"cpu_usage\":12.3",
        "\u{1F980} not a frame \u{0000}",
    ] {
        assert!(
            matches!(decode_agent_message(s), Err(DecodeError::Unrecognized)),
            "input: {:?}",
            s
        );
        assert_eq!(decode_client_message(s), Err(DecodeError::Unrecognized), "input: {:?}", s);
        assert!(matches!(decode_app_event(s), Err(DecodeError::Unrecognized)), "input: {:?}", s);
    }
}

#[test]
fn zero_interval_is_refused() {
    assert_eq!(
        decode_client_message("{\"type\":\"StartMonitoring\",\"interval_secs\":0}"),
        Err(DecodeError::Unrecognized)
    );
}

#[test]
fn non_canonical_numbers_are_refused() {
    // leading zero
    assert_eq!(
        decode_client_message("{\"type\":\"StartMonitoring\",\"interval_secs\":05}"),
        Err(DecodeError::Unrecognized)
    );
    // value beyond u64
    assert_eq!(
        decode_client_message("{\"type\":\"StartMonitoring\",\"interval_secs\":18446744073709551616}"),
        Err(DecodeError::Unrecognized)
    );
    // two fraction digits where one is canonical
    assert!(decode_agent_message(
        "{\"type\":\"Metrics\",\"cpu_usage\":12.34,\"memory_usage\":41.0,\"disk_usage\":0.0,\"network_in\":0,\"network_out\":0,\"timestamp\":1}"
    )
    .is_err());
}

#[test]
fn out_of_range_utilization_is_refused() {
    let s = "{\"type\":\"Metrics\",\"cpu_usage\":150.0,\"memory_usage\":41.0,\"disk_usage\":0.0,\"network_in\":0,\"network_out\":0,\"timestamp\":1}";
    assert!(matches!(decode_agent_message(s), Err(DecodeError::Unrecognized)));
}

#[test]
fn u64_rendering_is_canonical_decimal() {
    assert_eq!(u64_to_string(0), "0");
    assert_eq!(u64_to_string(7), "7");
    assert_eq!(u64_to_string(1000), "1000");
    assert_eq!(u64_to_string(u64::MAX), "18446744073709551615");
}

#[test]
fn str_eq_lit_compares_whole_strings() {
    assert!(str_eq_lit("base_folder", "base_folder"));
    assert!(!str_eq_lit("base_folder2", "base_folder"));
    assert!(!str_eq_lit("base_folde", "base_folder"));
}
