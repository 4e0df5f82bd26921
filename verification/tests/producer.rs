use std::cell::RefCell;
use streamline_wasm_sdk::producer::CommitStep;
use streamline_wasm_sdk::{BrowserResponse, Consumer, ErrorCode, Producer, SendError};

const URL: &str = "ws://localhost:9094/ws";

fn ok(_t: &str) -> Result<(), String> {
    Ok(())
}

/// Flush as the browser bindings do: write each text the producer gives to
/// the socket, hand back its answer, and stop at the first refusal. Returns
/// how many were sent and the flush's result.
fn flush<E, F: Fn(&str) -> Result<(), E>>(p: &mut Producer, socket: &F) -> (usize, Result<(), SendError<E>>) {
    let mut n = 0;
    while let Some(text) = p.next_send() {
        if let Some(e) = p.record_send(socket(&text)) {
            return (n, Err(e));
        }
        n += 1;
    }
    (n, Ok(()))
}

/// Add a message as the browser bindings do, flushing when the batch is full.
fn send<E, F: Fn(&str) -> Result<(), E>>(p: &mut Producer, value: &str, topic: Option<String>, socket: &F) -> Result<(), SendError<E>> {
    match p.send(value, topic) {
        Err(e) => Err(SendError::Rejected(e)),
        Ok(true) => flush(p, socket).1,
        Ok(false) => Ok(()),
    }
}

/// Add a keyed message as the browser bindings do, flushing when the batch
/// is full.
fn send_keyed<E, F: Fn(&str) -> Result<(), E>>(
    p: &mut Producer,
    key: &str,
    value: &str,
    topic: Option<String>,
    socket: &F,
) -> Result<(), SendError<E>> {
    match p.send_keyed(key, value, topic) {
        Err(e) => Err(SendError::Rejected(e)),
        Ok(true) => flush(p, socket).1,
        Ok(false) => Ok(()),
    }
}

/// Commit as the browser bindings do: add the buffered messages one step at
/// a time, flushing whenever the batch fills, and stop at the first error.
fn commit<E, F: Fn(&str) -> Result<(), E>>(p: &mut Producer, socket: &F) -> Result<u32, SendError<E>> {
    let mut run = p.commit_transaction().map_err(SendError::Message)?;
    loop {
        match p.commit_step(&mut run) {
            Err(e) => return Err(SendError::Rejected(e)),
            Ok(CommitStep::Done(n)) => return Ok(n),
            Ok(CommitStep::Added { flush_due }) => {
                if flush_due {
                    flush(p, socket).1?;
                }
            },
        }
    }
}

/// Seek as the browser bindings do: write the seek request to the socket
/// and hand its answer back.
fn seek<E, F: Fn(&str) -> Result<(), E>>(c: &mut Consumer, connected: bool, offset: i64, socket: &F) -> Result<(), SendError<E>> {
    let text = c.seek(connected, offset).map_err(SendError::Rejected)?;
    c.record_seek(offset, socket(&text))
}

#[test]
fn flush_stops_at_the_first_failure_and_keeps_the_rest() {
    let mut producer = Producer::new(URL, Some("t".into()));
    let refuse = |_: &str| -> Result<(), String> { Err("down".to_string()) };
    for v in ["a", "b", "c"] {
        assert!(send(&mut producer, v, None, &refuse).is_ok());
    }
    let sent = RefCell::new(Vec::new());
    let second_fails = |t: &str| -> Result<(), String> {
        if sent.borrow().len() == 1 {
            return Err("broken".to_string());
        }
        sent.borrow_mut().push(t.to_string());
        Ok(())
    };
    let (n, r) = flush(&mut producer, &second_fails);
    assert_eq!(n, 1);
    match r {
        Err(SendError::Transport(e)) => assert_eq!(e, "broken"),
        _ => panic!("expected the transport error"),
    }
    assert_eq!(producer.pending_count(), 2);
    assert_eq!(producer.total_sent(), 1);
    assert_eq!(producer.total_errors(), 1);
    assert_eq!(sent.borrow()[0], r#"{"type":"produce","topic":"t","value":"a"}"#);
    // A retry sends the rest, in order, and never the first message again.
    let resent = RefCell::new(Vec::new());
    let record = |t: &str| -> Result<(), String> {
        resent.borrow_mut().push(t.to_string());
        Ok(())
    };
    let (n, r) = flush(&mut producer, &record);
    assert_eq!(n, 2);
    assert!(r.is_ok());
    assert_eq!(
        resent.borrow().clone(),
        vec![
            r#"{"type":"produce","topic":"t","value":"b"}"#.to_string(),
            r#"{"type":"produce","topic":"t","value":"c"}"#.to_string(),
        ]
    );
    assert_eq!(producer.pending_count(), 0);
    assert_eq!(producer.total_sent(), 3);
}

#[test]
fn full_batch_flushes_automatically() {
    let mut producer = Producer::new(URL, Some("t".into()));
    producer.set_batch_size(2);
    let count = RefCell::new(0);
    let record = |_: &str| -> Result<(), String> {
        *count.borrow_mut() += 1;
        Ok(())
    };
    assert!(send(&mut producer, "a", None, &record).is_ok());
    assert_eq!(producer.pending_count(), 1);
    assert!(send_keyed(&mut producer, "k", "b", None, &record).is_ok());
    assert_eq!(producer.pending_count(), 0);
    assert_eq!(*count.borrow(), 2);
}

#[test]
fn send_rejects_missing_and_invalid_topics() {
    let mut producer = Producer::new(URL, None);
    match send(&mut producer, "v", None, &ok) {
        Err(SendError::Rejected(e)) => {
            assert_eq!(e.code(), ErrorCode::ProduceError);
            assert_eq!(e.message(), "produce failed: no topic specified");
        },
        _ => panic!("expected a rejection"),
    }
    match send(&mut producer, "v", Some("a/b".into()), &ok) {
        Err(SendError::Rejected(e)) => assert_eq!(e.code(), ErrorCode::ConfigurationError),
        _ => panic!("expected a rejection"),
    }
    assert_eq!(producer.pending_count(), 0);
    assert_eq!(producer.url(), URL);
}

#[test]
fn transactions_buffer_then_send_in_order() {
    let mut producer = Producer::new(URL, None);
    assert_eq!(producer.send_transactional("v", "t", None).unwrap_err(), "No transaction in progress");
    assert!(producer.begin_transaction().is_ok());
    assert_eq!(producer.begin_transaction().unwrap_err(), "Transaction already in progress");
    assert!(producer.send_transactional("v1", "t1", None).is_ok());
    assert!(producer.send_transactional("v2", "t2", Some("k".into())).is_ok());
    assert_eq!(producer.pending_count(), 0);
    assert_eq!(commit(&mut producer, &ok).ok(), Some(2));
    assert_eq!(producer.pending_count(), 2);
    let sent = RefCell::new(Vec::new());
    let record = |t: &str| -> Result<(), String> {
        sent.borrow_mut().push(t.to_string());
        Ok(())
    };
    assert!(flush(&mut producer, &record).1.is_ok());
    assert_eq!(
        sent.borrow().clone(),
        vec![
            r#"{"type":"produce","topic":"t1","value":"v1"}"#.to_string(),
            r#"{"type":"produce","topic":"t2","key":"k","value":"v2"}"#.to_string(),
        ]
    );
    match commit(&mut producer, &ok) {
        Err(SendError::Message(m)) => assert_eq!(m, "No transaction in progress"),
        _ => panic!("expected the transaction error"),
    }
    assert!(producer.begin_transaction().is_ok());
    assert!(producer.send_transactional("v", "t", None).is_ok());
    assert!(producer.abort_transaction().is_ok());
    assert_eq!(producer.abort_transaction().unwrap_err(), "No transaction in progress");
    assert_eq!(commit(&mut producer, &ok).is_err(), true);
}

#[test]
fn commit_stops_at_an_invalid_topic() {
    let mut producer = Producer::new(URL, None);
    assert!(producer.begin_transaction().is_ok());
    assert!(producer.send_transactional("v1", "good", None).is_ok());
    assert!(producer.send_transactional("v2", "bad topic", None).is_ok());
    assert!(producer.send_transactional("v3", "good", None).is_ok());
    match commit(&mut producer, &ok) {
        Err(SendError::Rejected(e)) => assert_eq!(e.code(), ErrorCode::ConfigurationError),
        _ => panic!("expected a rejection"),
    }
    assert_eq!(producer.pending_count(), 1);
    assert!(producer.begin_transaction().is_ok());
}

#[test]
fn consumer_seek_sends_then_moves() {
    let mut consumer = Consumer::new(URL, "events");
    let _ = consumer.advance_offset(41);
    let sent = RefCell::new(Vec::new());
    let record = |t: &str| -> Result<(), String> {
        sent.borrow_mut().push(t.to_string());
        Ok(())
    };
    match seek(&mut consumer, false, 7, &record) {
        Err(SendError::Rejected(e)) => assert_eq!(e.code(), ErrorCode::NotConnected),
        _ => panic!("expected NotConnected"),
    }
    assert_eq!(consumer.current_offset(), 42);
    let fail = |_: &str| -> Result<(), String> { Err("x".to_string()) };
    match seek(&mut consumer, true, 7, &fail) {
        Err(SendError::Transport(e)) => assert_eq!(e, "x"),
        _ => panic!("expected the transport error"),
    }
    assert_eq!(consumer.current_offset(), 42);
    assert!(seek(&mut consumer, true, -3, &record).is_ok());
    assert_eq!(consumer.current_offset(), -3);
    assert_eq!(sent.borrow().clone(), vec![r#"{"offset":-3,"topic":"events","type":"seek"}"#.to_string()]);
}

#[test]
fn consumer_commit_and_auto_commit_fail_closed() {
    let mut consumer = Consumer::new(URL, "events");
    let _ = consumer.advance_offset(3);
    let e = consumer.commit().unwrap_err();
    assert_eq!(e.code(), ErrorCode::Unsupported);
    assert!(!e.retryable());
    assert_eq!(consumer.commit_offset(9).unwrap_err().code(), ErrorCode::Unsupported);
    assert!(consumer.set_auto_commit(0).is_ok());
    assert_eq!(consumer.set_auto_commit(5).unwrap_err().code(), ErrorCode::Unsupported);
    assert_eq!(consumer.current_offset(), 4);
    assert_eq!(consumer.committed_offset(), -1);
}

#[test]
fn consumer_subscription_frames() {
    let mut consumer = Consumer::new(URL, "events");
    assert_eq!(consumer.subscribe_frame(), r#"{"type":"subscribe","topic":"events"}"#);
    consumer.set_group_id("g1");
    assert_eq!(consumer.subscribe_frame(), r#"{"group_id":"g1","topic":"events","type":"subscribe"}"#);
    assert_eq!(consumer.unsubscribe_frame(), r#"{"type":"unsubscribe","topic":"events"}"#);
    assert_eq!(consumer.url(), URL);
    assert_eq!(consumer.topic(), "events");
}

#[test]
fn consumer_records_delivered_messages_only() {
    let mut consumer = Consumer::new(URL, "events");
    consumer.record_delivery(&BrowserResponse::Ack { topic: None, offset: Some(50) });
    assert_eq!(consumer.current_offset(), 0);
    let message = |offset: u64| BrowserResponse::Message {
        topic: "events".into(),
        key: None,
        value: "v".into(),
        offset,
        timestamp: 0,
    };
    consumer.record_delivery(&message(9));
    assert_eq!(consumer.current_offset(), 10);
    consumer.record_delivery(&message(3));
    assert_eq!(consumer.current_offset(), 10);
    consumer.record_delivery(&BrowserResponse::Error { code: 500, message: "x".into() });
    assert_eq!(consumer.current_offset(), 10);
    assert_eq!(consumer.committed_offset(), -1);
}

#[test]
fn flush_steps_hand_out_the_batch_in_order_once_each() {
    let mut producer = Producer::new(URL, Some("t".into()));
    assert_eq!(producer.send("a", None).ok(), Some(false));
    assert_eq!(producer.send("b", None).ok(), Some(false));
    let a = r#"{"type":"produce","topic":"t","value":"a"}"#;
    let b = r#"{"type":"produce","topic":"t","value":"b"}"#;
    assert_eq!(producer.next_send().as_deref(), Some(a));
    // Asking again without an answer gives the same text.
    assert_eq!(producer.next_send().as_deref(), Some(a));
    assert!(producer.record_send::<&str>(Ok(())).is_none());
    assert_eq!(producer.next_send().as_deref(), Some(b));
    match producer.record_send(Err("closed")) {
        Some(SendError::Transport(e)) => assert_eq!(e, "closed"),
        _ => panic!("expected the socket's error"),
    }
    // The refused message stays first, for a retry.
    assert_eq!(producer.next_send().as_deref(), Some(b));
    assert_eq!((producer.total_sent(), producer.total_errors(), producer.pending_count()), (1, 1, 1));
    assert!(producer.record_send::<&str>(Ok(())).is_none());
    assert_eq!(producer.next_send(), None);
}

#[test]
fn commit_steps_add_buffered_messages_in_order() {
    let mut producer = Producer::new(URL, None);
    assert_eq!(producer.commit_transaction().err().as_deref(), Some("No transaction in progress"));
    assert!(producer.begin_transaction().is_ok());
    assert!(producer.send_transactional("v1", "t1", None).is_ok());
    assert!(producer.send_transactional("v2", "t2", Some("k".into())).is_ok());
    let mut run = producer.commit_transaction().ok().unwrap();
    assert_eq!(producer.commit_step(&mut run).ok(), Some(CommitStep::Added { flush_due: false }));
    assert_eq!(producer.commit_step(&mut run).ok(), Some(CommitStep::Added { flush_due: false }));
    assert_eq!(producer.commit_step(&mut run).ok(), Some(CommitStep::Done(2)));
    assert_eq!(producer.commit_step(&mut run).ok(), Some(CommitStep::Done(2)));
    assert_eq!(producer.pending_count(), 2);
    assert_eq!(producer.next_send().as_deref(), Some(r#"{"type":"produce","topic":"t1","value":"v1"}"#));
}
