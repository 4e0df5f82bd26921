use streamline_wasm_sdk::websocket::{
    backoff_delay, extract_topic, state_name, CloseOutcome, ReconnectPlan, Replay, TimerDecision, WS_OPEN,
};
use streamline_wasm_sdk::{BrowserMessage, ConnectionState, ErrorCode, WsConnection};

const URL: &str = "ws://localhost:9094/ws";

/// A connection with `attempts` reconnection attempts behind it, a limit of
/// `max` and reconnection switched `auto`.
fn make_conn(attempts: u32, max: u32, auto: bool) -> WsConnection<(), ()> {
    let mut conn = WsConnection::new(URL);
    conn.set_max_reconnect_attempts(0);
    for _ in 0..attempts {
        conn.schedule_reconnect();
    }
    conn.set_max_reconnect_attempts(max);
    conn.set_auto_reconnect(auto);
    conn.set_state(ConnectionState::Disconnected);
    conn
}

// ── ConnectionState ──────────────────────────────────────────────

/// Every text of a replay, each accepted.
fn replayed(mut replay: Replay) -> Vec<String> {
    let mut out = Vec::new();
    while let Some(t) = replay.next_send() {
        out.push(t);
        assert!(replay.record_send::<()>(Ok(())).is_none());
    }
    out
}

#[test]
fn test_connection_state_equality() {
    assert_eq!(ConnectionState::Disconnected, ConnectionState::Disconnected);
    assert_eq!(ConnectionState::Connected, ConnectionState::Connected);
    assert_ne!(ConnectionState::Connected, ConnectionState::Disconnected);
}

#[test]
fn test_connection_state_clone() {
    let state = ConnectionState::Reconnecting;
    let cloned = state;
    assert_eq!(state, cloned);
}

#[test]
fn test_connection_state_debug() {
    assert_eq!(format!("{:?}", ConnectionState::Connecting), "Connecting");
}

// ── reconnect_delay_ms ───────────────────────────────────────────

#[test]
fn test_reconnect_delay_initial() {
    let conn = make_conn(0, 5, true);
    assert_eq!(conn.reconnect_delay_ms(), 1_000);
}

#[test]
fn test_reconnect_delay_exponential_backoff() {
    let delays: Vec<u32> = (0..5).map(|a| make_conn(a, 5, true).reconnect_delay_ms()).collect();
    assert_eq!(delays, vec![1_000, 2_000, 4_000, 8_000, 16_000]);
}

#[test]
fn test_reconnect_delay_capped_at_30s() {
    let conn = make_conn(10, 5, true);
    assert_eq!(conn.reconnect_delay_ms(), 30_000);
}

#[test]
fn test_reconnect_delay_large_attempts_no_overflow() {
    let conn = make_conn(100, 5, true);
    assert_eq!(conn.reconnect_delay_ms(), 30_000);
}

// ── WsConnection field defaults & auto-reconnect ─────────────────

#[test]
fn test_is_connected_when_disconnected() {
    let conn = make_conn(0, 5, true);
    assert!(!conn.is_connected(None));
}

#[test]
fn test_is_connected_requires_open_socket() {
    let mut conn = make_conn(0, 5, true);
    conn.set_state(ConnectionState::Connected);
    assert!(!conn.is_connected(None));
    assert!(!conn.is_connected(Some(WS_OPEN)));
    conn.attach_socket(());
    assert!(conn.is_connected(Some(WS_OPEN)));
}

#[test]
fn test_state_returns_current_state() {
    let mut conn = make_conn(0, 5, true);
    conn.set_state(ConnectionState::Reconnecting);
    assert_eq!(conn.state(), ConnectionState::Reconnecting);
}

#[test]
fn test_set_max_reconnect_attempts() {
    let mut conn = make_conn(0, 5, true);
    conn.set_max_reconnect_attempts(10);
    assert_eq!(conn.max_reconnect_attempts(), 10);
}

#[test]
fn test_auto_reconnect_default_enabled() {
    let conn = make_conn(0, 5, true);
    assert!(conn.auto_reconnect());
}

#[test]
fn test_auto_reconnect_can_be_disabled() {
    let mut conn = make_conn(0, 5, true);
    conn.set_auto_reconnect(false);
    assert!(!conn.auto_reconnect());
}

#[test]
fn test_should_reconnect_when_enabled_and_under_limit() {
    let conn = make_conn(2, 5, true);
    assert!(conn.should_reconnect());
}

#[test]
fn test_should_not_reconnect_when_disabled() {
    let conn = make_conn(0, 5, false);
    assert!(!conn.should_reconnect());
}

#[test]
fn test_should_not_reconnect_after_intentional_disconnect() {
    let mut conn = make_conn(0, 5, true);
    conn.disconnect();
    assert!(!conn.should_reconnect());
}

#[test]
fn test_should_not_reconnect_when_max_attempts_reached() {
    let conn = make_conn(5, 5, true);
    assert!(!conn.should_reconnect());
}

#[test]
fn test_should_reconnect_unlimited_when_max_is_zero() {
    let conn = make_conn(999, 0, true);
    assert!(conn.should_reconnect());
}

#[test]
fn test_reconnect_attempts_getter() {
    let conn = make_conn(3, 5, true);
    assert_eq!(conn.reconnect_attempts(), 3);
}

// ── Reconnection plan ────────────────────────────────────────────

#[test]
fn reconnect_plan_counts_attempts_and_backs_off() {
    let mut conn = WsConnection::<(), ()>::new(URL);
    conn.set_max_reconnect_attempts(3);
    assert_eq!(conn.schedule_reconnect(), ReconnectPlan::Retry { delay_ms: 1000, attempt: 1 });
    assert_eq!(conn.state(), ConnectionState::Reconnecting);
    assert_eq!(conn.schedule_reconnect(), ReconnectPlan::Retry { delay_ms: 2000, attempt: 2 });
    assert_eq!(conn.schedule_reconnect(), ReconnectPlan::Retry { delay_ms: 4000, attempt: 3 });
    assert_eq!(conn.schedule_reconnect(), ReconnectPlan::Exhausted);
    assert_eq!(conn.state(), ConnectionState::Disconnected);
    assert_eq!(conn.reconnect_attempts(), 3);
    conn.fail_reconnect();
    assert_eq!(conn.state(), ConnectionState::Disconnected);
}

#[test]
fn reconnect_plan_stops_when_disabled_or_after_disconnect() {
    let mut conn = WsConnection::<(), ()>::new(URL);
    conn.set_auto_reconnect(false);
    assert_eq!(conn.schedule_reconnect(), ReconnectPlan::Stop);
    let mut conn = WsConnection::<(), ()>::new(URL);
    conn.disconnect();
    assert_eq!(conn.schedule_reconnect(), ReconnectPlan::Stop);
    assert_eq!(conn.state(), ConnectionState::Disconnected);
}

#[test]
fn close_of_current_socket_plans_reconnect() {
    let mut conn = WsConnection::<(), ()>::new(URL);
    assert!(conn.begin_connect(None));
    conn.attach_socket(());
    let replay = conn.on_open(true).unwrap();
    assert!(replay.next_send().is_none());
    assert_eq!(conn.state(), ConnectionState::Connected);
    match conn.on_close(false) {
        CloseOutcome::Stale => {},
        _ => panic!("a stale socket changes nothing"),
    }
    match conn.on_close(true) {
        CloseOutcome::Reconnect(plan) => assert_eq!(plan, ReconnectPlan::Retry { delay_ms: 1000, attempt: 1 }),
        _ => panic!("expected a reconnection"),
    }
    assert!(conn.socket().is_none());
    assert_eq!(conn.reconnect_timer_fired(), TimerDecision::Reconnect);
    conn.set_auto_reconnect(false);
    assert_eq!(conn.reconnect_timer_fired(), TimerDecision::Disconnected);
    assert_eq!(conn.state(), ConnectionState::Disconnected);
    assert_eq!(conn.reconnect_timer_fired(), TimerDecision::Ignore);
}

#[test]
fn close_after_disconnect_is_final() {
    let mut conn = WsConnection::<(), ()>::new(URL);
    assert!(conn.begin_connect(None));
    conn.attach_socket(());
    assert_eq!(conn.disconnect(), Some(()));
    match conn.on_close(true) {
        CloseOutcome::Closed => {},
        _ => panic!("a requested disconnect never reconnects"),
    }
    assert_eq!(conn.state(), ConnectionState::Disconnected);
}

#[test]
fn begin_connect_skips_live_socket() {
    let mut conn = WsConnection::<(), ()>::new(URL);
    conn.attach_socket(());
    assert!(!conn.begin_connect(Some(WS_OPEN)));
    assert!(!conn.begin_connect(Some(0)));
    assert!(conn.begin_connect(Some(3)));
    assert_eq!(conn.state(), ConnectionState::Connecting);
    assert!(conn.connect_still_wanted());
}

#[test]
fn persistent_messages_replay_in_order_and_replace_by_key() {
    let mut conn = WsConnection::<(), ()>::new(URL);
    assert!(conn.send_persistent_when_ready("a".into(), "first".into(), None).is_err());
    assert!(conn.begin_connect(None));
    // While connecting nothing is due now: the messages wait for the open.
    assert!(matches!(conn.send_persistent_when_ready("a".into(), "first".into(), None), Ok(None)));
    assert!(matches!(conn.send_persistent_when_ready("b".into(), "second".into(), None), Ok(None)));
    assert!(matches!(conn.send_persistent_when_ready("a".into(), "third".into(), None), Ok(None)));
    conn.attach_socket(());
    assert_eq!(replayed(conn.on_open(true).unwrap()), vec!["third".to_string(), "second".to_string()]);
    conn.remove_persistent_message("a");
    assert_eq!(conn.send_persistent_when_ready("c".into(), "now".into(), Some(WS_OPEN)).ok(), Some(Some("now".to_string())));
    assert_eq!(replayed(conn.on_open(true).unwrap()), vec!["second".to_string(), "now".to_string()]);
}

#[test]
fn replay_hands_out_each_message_once_and_stops_at_a_refusal() {
    let mut conn = WsConnection::<(), ()>::new(URL);
    assert!(conn.begin_connect(None));
    for (k, m) in [("a", "one"), ("b", "two"), ("c", "three")] {
        assert!(matches!(conn.send_persistent_when_ready(k.into(), m.into(), None), Ok(None)));
    }
    conn.attach_socket(());
    let mut replay = conn.on_open(true).unwrap();
    assert_eq!(replay.next_send().as_deref(), Some("one"));
    // Asking again without an answer gives the same text: nothing is skipped.
    assert_eq!(replay.next_send().as_deref(), Some("one"));
    assert_eq!(replay.record_send::<&str>(Ok(())), None);
    assert_eq!(replay.next_send().as_deref(), Some("two"));
    assert_eq!(replay.record_send(Err("closed")), Some("closed"));
    assert_eq!(replay.next_send(), None);
}

#[test]
fn sends_need_an_open_socket() {
    let mut conn = WsConnection::<(), ()>::new(URL);
    assert_eq!(conn.send("x", Some(WS_OPEN)).unwrap_err().code(), ErrorCode::NotConnected);
    conn.attach_socket(());
    assert_eq!(conn.send("x", Some(2)).unwrap_err().code(), ErrorCode::NotConnected);
    assert_eq!(conn.send("x", Some(WS_OPEN)).ok(), Some("x".to_string()));
    let m = BrowserMessage::Unsubscribe { topic: "t".into() };
    assert_eq!(conn.send_message(&m, Some(WS_OPEN)).ok(), Some(r#"{"type":"unsubscribe","topic":"t"}"#.to_string()));
}

#[test]
fn messages_go_to_their_topic_callback() {
    let mut conn = WsConnection::<(), u32>::new(URL);
    conn.set_on_message(0);
    conn.set_topic_callback("a", 1);
    conn.set_topic_callback("b", 2);
    conn.set_topic_callback("a", 3);
    assert_eq!(conn.message_target(true, Some("a")), Some(&3));
    assert_eq!(conn.message_target(true, Some("b")), Some(&2));
    assert_eq!(conn.message_target(true, Some("c")), Some(&0));
    assert_eq!(conn.message_target(true, None), Some(&0));
    assert_eq!(conn.message_target(false, Some("a")), None);
    conn.remove_topic_callback("a");
    assert_eq!(conn.message_target(true, Some("a")), Some(&0));
    assert_eq!(conn.message_target(true, Some("b")), Some(&2));
}

#[test]
fn backoff_delays_double_up_to_the_cap() {
    assert_eq!(backoff_delay(0), 1000);
    assert_eq!(backoff_delay(4), 16_000);
    assert_eq!(backoff_delay(5), 30_000);
    assert_eq!(backoff_delay(u32::MAX), 30_000);
}

#[test]
fn topic_is_read_from_message_json() {
    assert_eq!(extract_topic(r#"{"type":"message","topic":"orders"}"#), Some("orders".to_string()));
    assert_eq!(extract_topic(r#"{"topic":5}"#), None);
    assert_eq!(extract_topic("not json"), None);
    assert_eq!(extract_topic(r#"[1,2]"#), None);
}

#[test]
fn state_names() {
    assert_eq!(state_name(ConnectionState::Disconnected), "Disconnected");
    assert_eq!(state_name(ConnectionState::Connecting), "Connecting");
    assert_eq!(state_name(ConnectionState::Connected), "Connected");
    assert_eq!(state_name(ConnectionState::Reconnecting), "Reconnecting");
}
