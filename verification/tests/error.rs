use streamline_wasm_sdk::{ErrorCode, StreamlineError};

#[test]
fn test_error_creation() {
    let err = StreamlineError::new(ErrorCode::NotConnected, "ws closed", true);
    assert_eq!(err.code(), ErrorCode::NotConnected);
    assert_eq!(err.message(), "ws closed");
    assert!(err.retryable());
}

#[test]
fn test_non_retryable_error() {
    let err = StreamlineError::new(ErrorCode::SerializationError, "bad json", false);
    assert!(!err.retryable());
    assert_eq!(err.code(), ErrorCode::SerializationError);
}

#[test]
fn test_error_codes_distinct() {
    assert_ne!(ErrorCode::NotConnected, ErrorCode::Timeout);
    assert_ne!(ErrorCode::ProduceError, ErrorCode::AdminError);
}

#[test]
fn test_is_retryable() {
    let retryable = StreamlineError::new(ErrorCode::ConnectionFailed, "conn err", true);
    assert!(retryable.is_retryable());
    let not_retryable = StreamlineError::new(ErrorCode::AuthenticationFailed, "bad auth", false);
    assert!(!not_retryable.is_retryable());
}

#[test]
fn test_hint_for_known_codes() {
    let err = StreamlineError::new(ErrorCode::NotConnected, "not connected", true);
    assert!(err.hint().contains("connect()"));
    let err = StreamlineError::new(ErrorCode::TopicNotFound, "no topic", false);
    assert!(err.hint().contains("admin API"));
}

#[test]
fn test_hint_for_unknown_codes() {
    let err = StreamlineError::new(ErrorCode::Unknown, "unknown", false);
    assert!(err.hint().contains("server logs"));
}

#[test]
fn test_factory_methods() {
    let e = StreamlineError::not_connected();
    assert_eq!(e.code(), ErrorCode::NotConnected);
    assert_eq!(e.message(), "WebSocket is not connected");
    assert!(e.retryable());
    let e = StreamlineError::serialization("bad data");
    assert_eq!(e.code(), ErrorCode::SerializationError);
    assert_eq!(e.message(), "serialization error: bad data");
    assert!(!e.retryable());
    let e = StreamlineError::connection_failed("refused");
    assert_eq!(e.code(), ErrorCode::ConnectionFailed);
    assert_eq!(e.message(), "connection failed: refused");
    assert!(e.retryable());
    let e = StreamlineError::produce_error("full");
    assert_eq!(e.code(), ErrorCode::ProduceError);
    assert_eq!(e.message(), "produce failed: full");
    assert!(e.retryable());
    let e = StreamlineError::timeout("fetch");
    assert_eq!(e.code(), ErrorCode::Timeout);
    assert_eq!(e.message(), "operation timed out: fetch");
    assert!(e.retryable());
    let e = StreamlineError::auth_failed("bad creds");
    assert_eq!(e.code(), ErrorCode::AuthenticationFailed);
    assert_eq!(e.message(), "authentication failed: bad creds");
    assert!(!e.retryable());
    let e = StreamlineError::unsupported("commit acknowledgement protocol not implemented");
    assert_eq!(e.code(), ErrorCode::Unsupported);
    assert!(!e.retryable());
    let e = StreamlineError::configuration("bad topic");
    assert_eq!(e.code(), ErrorCode::ConfigurationError);
    assert!(!e.retryable());
}

#[test]
fn test_error_clone() {
    let err = StreamlineError::new(ErrorCode::Timeout, "timed out", true);
    let cloned = err.clone();
    assert_eq!(cloned.code(), ErrorCode::Timeout);
    assert_eq!(cloned.message(), "timed out");
    assert!(cloned.retryable());
}

#[test]
fn test_error_debug_format() {
    let err = StreamlineError::new(ErrorCode::Unknown, "mystery", false);
    let dbg = format!("{:?}", err);
    assert!(dbg.contains("StreamlineError"));
    assert!(dbg.contains("Unknown"));
}

#[test]
fn test_error_code_debug_format() {
    assert_eq!(format!("{:?}", ErrorCode::ConnectionFailed), "ConnectionFailed");
}

#[test]
#[allow(clippy::clone_on_copy)]
fn test_error_code_clone_copy() {
    let code = ErrorCode::ProduceError;
    let copied = code;
    let cloned = code.clone();
    assert_eq!(code, copied);
    assert_eq!(code, cloned);
}

#[test]
fn test_hint_connection_failed() {
    let err = StreamlineError::new(ErrorCode::ConnectionFailed, "refused", true);
    assert!(err.hint().contains("server is running"));
}

#[test]
fn test_hint_timeout() {
    let err = StreamlineError::new(ErrorCode::Timeout, "slow", true);
    assert!(err.hint().contains("timeout"));
}

#[test]
fn test_hint_auth_failed() {
    let err = StreamlineError::new(ErrorCode::AuthenticationFailed, "bad", false);
    assert!(err.hint().contains("credentials"));
}

#[test]
fn test_hint_serialization_error() {
    let err = StreamlineError::new(ErrorCode::SerializationError, "bad json", false);
    assert!(err.hint().contains("JSON"));
}

#[test]
fn test_hint_produce_error() {
    let err = StreamlineError::new(ErrorCode::ProduceError, "full", true);
    assert!(err.hint().contains("topic exists"));
}

#[test]
fn test_hint_admin_error() {
    let err = StreamlineError::new(ErrorCode::AdminError, "fail", false);
    assert!(err.hint().contains("admin permissions"));
}

#[test]
fn test_hint_query_error() {
    let err = StreamlineError::new(ErrorCode::QueryError, "fail", false);
    assert!(err.hint().contains("SQL syntax"));
}

#[test]
fn test_hint_schema_registry_error() {
    let err = StreamlineError::new(ErrorCode::SchemaRegistryError, "fail", false);
    assert!(err.hint().contains("schema format"));
}

#[test]
fn test_hint_configuration_error() {
    let err = StreamlineError::new(ErrorCode::ConfigurationError, "bad topic", false);
    assert!(err.hint().contains("configuration values"));
}

#[test]
fn test_hint_unsupported() {
    let err = StreamlineError::new(ErrorCode::Unsupported, "commit not implemented", false);
    assert!(err.hint().contains("does not implement"));
}

#[test]
fn test_unsupported_not_retryable() {
    let err = StreamlineError::new(ErrorCode::Unsupported, "commit not implemented", false);
    assert!(!err.is_retryable());
    assert_eq!(err.code(), ErrorCode::Unsupported);
}

#[test]
fn test_configuration_error_not_retryable() {
    let err = StreamlineError::new(ErrorCode::ConfigurationError, "bad", false);
    assert!(!err.is_retryable());
}

#[test]
fn test_all_error_codes_distinct() {
    let codes = [
        ErrorCode::NotConnected,
        ErrorCode::ConnectionFailed,
        ErrorCode::SerializationError,
        ErrorCode::TopicNotFound,
        ErrorCode::AuthenticationFailed,
        ErrorCode::Timeout,
        ErrorCode::ProduceError,
        ErrorCode::AdminError,
        ErrorCode::QueryError,
        ErrorCode::SchemaRegistryError,
        ErrorCode::ConfigurationError,
        ErrorCode::Unsupported,
        ErrorCode::Unknown,
    ];
    for i in 0..codes.len() {
        for j in (i + 1)..codes.len() {
            assert_ne!(codes[i], codes[j], "codes at {i} and {j} should differ");
        }
    }
}

#[test]
fn hint_text_is_exact() {
    let err = StreamlineError::new(ErrorCode::NotConnected, "x", true);
    assert_eq!(err.hint(), "Call connect() before performing operations");
    let err = StreamlineError::new(ErrorCode::Unknown, "x", true);
    assert_eq!(err.hint(), "Check server logs for more details");
}
