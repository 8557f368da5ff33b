use campuslink::agent::config::Config;
use campuslink::agent::websocket::{
    HeartbeatLoop, IncomingFrame, OutgoingFrame, Received, WebSocketClient,
};
use campuslink::crypto::{decrypt_message, encrypt_message};
use std::time::Duration;

#[test]
fn should_reconnect_has_no_attempt_cap() {
    let mut client = WebSocketClient::new(Config::default());
    client.reconnect_attempts = 100;
    assert!(client.should_reconnect());
}

#[test]
fn reconnect_delay_is_capped_near_30s() {
    let mut client = WebSocketClient::new(Config::default());
    client.reconnect_attempts = 40;
    let delay = Duration::from_millis(client.get_reconnect_delay());
    assert!(delay <= Duration::from_secs(30) + Duration::from_millis(499));
    assert!(delay >= Duration::from_secs(30));
}

#[test]
fn reconnect_delay_doubles_from_one_second() {
    let mut client = WebSocketClient::new(Config::default());
    assert_eq!(client.reconnect_delay_with_jitter(0), 1000);
    client.increment_reconnect_attempts();
    assert_eq!(client.reconnect_delay_with_jitter(1234), 2000 + 234);
    client.reconnect_attempts = 4;
    assert_eq!(client.reconnect_delay_with_jitter(499), 16499);
    client.reconnect_attempts = u32::MAX;
    client.increment_reconnect_attempts();
    assert_eq!(client.reconnect_attempts, u32::MAX);
    assert_eq!(client.reconnect_delay_with_jitter(500), 30000);
}

#[test]
fn ws_url_follows_server_scheme() {
    let mut config = Config::default();
    let client = WebSocketClient::new(config.copy());
    assert_eq!(client.build_ws_url().unwrap_err(), "Device not registered");
    config.device_id = Some("dev-1".to_string());
    config.teacher_fingerprint = Some("fp".to_string());
    config.session_key = Some("ab".to_string());
    let client = WebSocketClient::new(config.copy());
    assert_eq!(
        client.build_ws_url().unwrap(),
        "ws://localhost:8080/ws?device_id=dev-1&teacher_fingerprint=fp&session_key=ab"
    );
    config.teacher_server_url = "https://school.example".to_string();
    let client = WebSocketClient::new(config.copy());
    assert_eq!(
        client.build_ws_url().unwrap(),
        "wss://school.example/ws?device_id=dev-1&teacher_fingerprint=fp&session_key=ab"
    );
    config.teacher_server_url = "10.0.0.2:8080".to_string();
    config.teacher_fingerprint = None;
    config.session_key = None;
    let client = WebSocketClient::new(config.copy());
    assert_eq!(
        client.build_ws_url().unwrap(),
        "ws://10.0.0.2:8080/ws?device_id=dev-1&teacher_fingerprint=&session_key="
    );
}

#[test]
fn heartbeat_frame_is_plain_or_sealed() {
    let mut config = Config::default();
    config.device_id = Some("d1".to_string());
    let mut client = WebSocketClient::new(config.copy());
    assert_eq!(client.prepare_heartbeat("{}").unwrap_err(), "WebSocket not connected");
    client.mark_connected();
    match client.prepare_heartbeat("{\"a\":1}").unwrap() {
        OutgoingFrame::Text(t) => assert_eq!(t, "{\"a\":1}"),
        OutgoingFrame::Binary(_) => panic!("expected text"),
    }
    let key = "00112233445566778899aabbccddeeff00112233445566778899aabbccddeeff";
    config.session_key = Some(key.to_string());
    let mut client = WebSocketClient::new(config.copy());
    client.mark_connected();
    match client.prepare_heartbeat("hello").unwrap() {
        OutgoingFrame::Binary(b) => assert_eq!(decrypt_message(&b, key).unwrap(), "hello"),
        OutgoingFrame::Text(_) => panic!("expected sealed frame"),
    }
    let h = client.heartbeat_request(77);
    assert_eq!(h.device_id, "d1");
    assert_eq!(h.status, "online");
    assert_eq!(h.mode, "open");
    assert_eq!(h.timestamp, 77);
}

#[test]
fn received_frames_are_handled() {
    let key = "00112233445566778899aabbccddeeff00112233445566778899aabbccddeeff";
    let mut config = Config::default();
    config.session_key = Some(key.to_string());
    let mut client = WebSocketClient::new(config);
    assert!(matches!(client.receive_frame(IncomingFrame::Text("x".into())), Ok(Received::Nothing)));
    client.mark_connected();
    match client.receive_frame(IncomingFrame::Text("cmd".into())) {
        Ok(Received::Message(m)) => assert_eq!(m, "cmd"),
        _ => panic!("expected message"),
    }
    let sealed = encrypt_message("secret", key).unwrap();
    match client.receive_frame(IncomingFrame::Binary(sealed)) {
        Ok(Received::Message(m)) => assert_eq!(m, "secret"),
        _ => panic!("expected decrypted message"),
    }
    assert!(matches!(client.receive_frame(IncomingFrame::Binary(vec![1, 2, 3])), Ok(Received::Nothing)));
    match client.receive_frame(IncomingFrame::Ping(vec![9])) {
        Ok(Received::Pong(p)) => assert_eq!(p, vec![9]),
        _ => panic!("expected pong"),
    }
    assert!(client.connected);
    assert_eq!(client.receive_frame(IncomingFrame::Error("boom".into())).unwrap_err(), "WebSocket error: boom");
    assert!(!client.connected);
    assert!(client.should_reconnect());
}

#[test]
fn heartbeat_loop_follows_teacher_and_unlocks() {
    let mut config = Config::default();
    config.current_mode = "teaching".to_string();
    let mut l = HeartbeatLoop::new(config);
    assert_eq!(l.heartbeat_interval_seconds, 30);
    assert_eq!(l.process_guard_interval_seconds, 60);
    assert_eq!(l.teacher_mode_target("open").as_deref(), Some("locked"));
    assert_eq!(l.teacher_mode_target("teaching"), None);
    l.begin_mode("locked");
    l.record_mode_lock(99);
    l.finish_mode("locked");
    assert_eq!(l.config.current_mode, "locked");
    assert_eq!(l.config.lock_pid, Some(99));
    let (restore, admission) = l.on_unlock_notification();
    assert_eq!(restore, "teaching");
    assert!(admission);
    assert_eq!(l.config.current_mode, "teaching");
    assert!(!l.config.is_locked);
}
