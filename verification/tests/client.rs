use std::cell::RefCell;
use streamline_wasm_sdk::websocket::{Replay, WS_OPEN};
use streamline_wasm_sdk::{ConnectionState, ErrorCode, SendError, StreamlineClient, StreamlineError, TopicAdmin};

const URL: &str = "ws://localhost:9094/ws";

/// Write the text the library gave to the socket, as the browser bindings
/// do, and report the socket's answer.
fn deliver<E, F: Fn(&str) -> Result<(), E>>(frame: Result<String, StreamlineError>, socket: &F) -> Result<(), SendError<E>> {
    match frame {
        Err(e) => Err(SendError::Rejected(e)),
        Ok(text) => socket(&text).map_err(SendError::Transport),
    }
}

/// Subscribe, writing the subscription to the socket when it is due now.
fn subscribe_via<E, F: Fn(&str) -> Result<(), E>>(
    client: &mut StreamlineClient<(), u32>,
    topic: &str,
    callback: u32,
    ready_state: Option<u16>,
    socket: &F,
) -> Result<(), SendError<E>> {
    match client.subscribe(topic, callback, ready_state) {
        Err(e) => Err(SendError::Rejected(e)),
        Ok(None) => Ok(()),
        Ok(Some(text)) => socket(&text).map_err(SendError::Transport),
    }
}

/// Every text of a replay, each accepted.
fn replayed(mut replay: Replay) -> Vec<String> {
    let mut out = Vec::new();
    while let Some(t) = replay.next_send() {
        out.push(t);
        assert!(replay.record_send::<()>(Ok(())).is_none());
    }
    out
}

/// A client whose socket has opened.
fn open_client() -> StreamlineClient<(), u32> {
    let mut client = StreamlineClient::new(URL);
    assert!(client.connection_mut().begin_connect(None));
    client.connection_mut().attach_socket(());
    assert!(replayed(client.connection_mut().on_open(true).unwrap()).is_empty());
    client
}

#[test]
fn produce_sends_the_encoded_message() {
    let client = open_client();
    let sent = RefCell::new(Vec::new());
    let send = |t: &str| -> Result<(), String> {
        sent.borrow_mut().push(t.to_string());
        Ok(())
    };
    assert!(client.is_connected(Some(WS_OPEN)));
    assert!(deliver(client.produce("orders", "v", Some(WS_OPEN)), &send).is_ok());
    assert!(deliver(client.produce_with_key("orders", Some("k".into()), "w", Some(WS_OPEN)), &send).is_ok());
    assert_eq!(
        sent.borrow().clone(),
        vec![
            r#"{"type":"produce","topic":"orders","value":"v"}"#.to_string(),
            r#"{"type":"produce","topic":"orders","key":"k","value":"w"}"#.to_string(),
        ]
    );
}

#[test]
fn produce_checks_the_topic_before_the_connection() {
    let client = StreamlineClient::<(), u32>::new(URL);
    let send = |_: &str| -> Result<(), String> { panic!("nothing is sent") };
    match deliver(client.produce("bad topic", "v", None), &send) {
        Err(SendError::Rejected(e)) => {
            assert_eq!(e.code(), ErrorCode::ConfigurationError);
            assert_eq!(e.message(), "Topic name contains invalid characters: bad topic");
        },
        _ => panic!("expected a configuration error"),
    }
    match deliver(client.produce("good", "v", None), &send) {
        Err(SendError::Rejected(e)) => assert_eq!(e.code(), ErrorCode::NotConnected),
        _ => panic!("expected NotConnected"),
    }
}

#[test]
fn transport_errors_are_returned() {
    let client = open_client();
    let fail = |_: &str| -> Result<(), String> { Err("socket closed".to_string()) };
    match deliver(client.list_topics(Some(WS_OPEN)), &fail) {
        Err(SendError::Transport(e)) => assert_eq!(e, "socket closed"),
        _ => panic!("expected the transport error"),
    }
}

#[test]
fn subscriptions_keep_one_callback_per_topic() {
    let mut client = StreamlineClient::<(), u32>::new(URL);
    let send = |_: &str| -> Result<(), String> { Ok(()) };
    // Not connected: refused and not registered for replay, although the
    // callback was set before the connection was checked.
    assert!(subscribe_via(&mut client, "a", 1, None, &send).is_err());
    assert_eq!(client.connection().message_target(true, Some("a")), Some(&1));
    // While connecting the subscriptions are registered for replay.
    assert!(client.connection_mut().begin_connect(None));
    assert!(subscribe_via(&mut client, "a", 1, None, &send).is_ok());
    assert!(subscribe_via(&mut client, "b", 2, None, &send).is_ok());
    assert_eq!(client.connection().message_target(true, Some("a")), Some(&1));
    assert_eq!(client.connection().message_target(true, Some("b")), Some(&2));
    client.connection_mut().attach_socket(());
    let replay = replayed(client.connection_mut().on_open(true).unwrap());
    assert_eq!(
        replay,
        vec![
            r#"{"type":"subscribe","topic":"a"}"#.to_string(),
            r#"{"type":"subscribe","topic":"b"}"#.to_string(),
        ]
    );
    // Unsubscribing from one topic leaves the other one.
    let sent = RefCell::new(Vec::new());
    let record = |t: &str| -> Result<(), String> {
        sent.borrow_mut().push(t.to_string());
        Ok(())
    };
    assert!(deliver(client.unsubscribe("a", Some(WS_OPEN)), &record).is_ok());
    assert_eq!(sent.borrow().clone(), vec![r#"{"type":"unsubscribe","topic":"a"}"#.to_string()]);
    assert!(client.connection().message_target(true, Some("a")).is_none());
    assert_eq!(client.connection().message_target(true, Some("b")), Some(&2));
    client.connection_mut().on_close(true);
    client.connection_mut().attach_socket(());
    let replay = replayed(client.connection_mut().on_open(true).unwrap());
    assert_eq!(replay, vec![r#"{"type":"subscribe","topic":"b"}"#.to_string()]);
}

#[test]
fn subscribe_while_open_sends_at_once() {
    let mut client = open_client();
    let sent = RefCell::new(Vec::new());
    let record = |t: &str| -> Result<(), String> {
        sent.borrow_mut().push(t.to_string());
        Ok(())
    };
    assert!(subscribe_via(&mut client, "logs", 9, Some(WS_OPEN), &record).is_ok());
    assert_eq!(sent.borrow().clone(), vec![r#"{"type":"subscribe","topic":"logs"}"#.to_string()]);
}

#[test]
fn admin_operations_validate_and_send() {
    let client = open_client();
    let sent = RefCell::new(Vec::new());
    let record = |t: &str| -> Result<(), String> {
        sent.borrow_mut().push(t.to_string());
        Ok(())
    };
    assert!(deliver(client.create_topic("orders", Some(2), Some(WS_OPEN)), &record).is_ok());
    assert!(deliver(client.delete_topic("orders", Some(WS_OPEN)), &record).is_ok());
    assert!(deliver(client.create_topic("..", None, Some(WS_OPEN)), &record).is_err());
    assert_eq!(
        sent.borrow().clone(),
        vec![
            r#"{"type":"admin","action":{"action":"create_topic","name":"orders","partitions":2}}"#.to_string(),
            r#"{"type":"admin","action":{"action":"delete_topic","name":"orders"}}"#.to_string(),
        ]
    );
}

#[test]
fn client_settings() {
    let mut client = StreamlineClient::<(), u32>::new(URL);
    assert_eq!(client.on_state_change(4), ConnectionState::Disconnected);
    assert_eq!(client.connection().on_state_change(), Some(&4));
    client.set_auto_reconnect(false);
    assert!(!client.connection().auto_reconnect());
    client.set_max_reconnect_attempts(0);
    assert_eq!(client.connection().max_reconnect_attempts(), 0);
    client.on_reconnect_failed(6);
    assert_eq!(client.connection().on_reconnect_failed(), Some(&6));
}

#[test]
fn topic_admin_sends_admin_messages() {
    let mut admin = TopicAdmin::<(), u32>::new(URL);
    assert_eq!(admin.connection_state(), ConnectionState::Disconnected);
    admin.on_response(3);
    assert_eq!(admin.connection().message_target(true, None), Some(&3));
    assert!(admin.connection_mut().begin_connect(None));
    admin.connection_mut().attach_socket(());
    admin.connection_mut().on_open(true);
    assert!(admin.is_connected(Some(WS_OPEN)));
    let sent = RefCell::new(Vec::new());
    let record = |t: &str| -> Result<(), String> {
        sent.borrow_mut().push(t.to_string());
        Ok(())
    };
    assert!(deliver(admin.list_topics(Some(WS_OPEN)), &record).is_ok());
    assert_eq!(sent.borrow().clone(), vec![r#"{"type":"admin","action":{"action":"list_topics"}}"#.to_string()]);
    assert_eq!(admin.disconnect(), Some(()));
    assert!(!admin.is_connected(Some(WS_OPEN)));
}
