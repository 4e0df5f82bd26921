//! Structured error values of the SDK.
use vstd::prelude::*;
use vstd::string::*;

verus! {

/// Error codes matching common Streamline failure modes.
#[derive(Debug, Clone, Copy, PartialEq, Eq, Structural)]
pub enum ErrorCode {
    /// The WebSocket is not connected.
    NotConnected,
    /// A connection attempt failed.
    ConnectionFailed,
    /// Message serialization failed.
    SerializationError,
    /// The requested topic does not exist.
    TopicNotFound,
    /// Authentication was rejected by the server.
    AuthenticationFailed,
    /// The operation timed out.
    Timeout,
    /// A produce operation failed.
    ProduceError,
    /// An admin operation failed.
    AdminError,
    /// A query operation failed.
    QueryError,
    /// A schema registry operation failed.
    SchemaRegistryError,
    /// A configuration or validation error.
    ConfigurationError,
    /// The operation is not implemented by this SDK version and is refused
    /// (fail-closed) rather than performed without confirmation.
    Unsupported,
    /// An unknown error occurred.
    Unknown,
}

/// Structured error: a failure category, a human-readable message and
/// whether retrying the operation can help.
#[derive(Debug, Clone)]
pub struct StreamlineError {
    code: ErrorCode,
    message: String,
    retryable: bool,
}

/// Why an operation that sends a message failed.
pub enum SendError<E> {
    /// Refused by the library before anything was sent (no topic, an invalid
    /// topic name, or no open connection).
    Rejected(StreamlineError),
    /// Refused because of the transaction state.
    Message(String),
    /// The socket failed to send the message, with this error.
    Transport(E),
}

/// The resolution hint given for each error code.
pub open spec fn hint_text(code: ErrorCode) -> Seq<char> {
    match code {
        ErrorCode::NotConnected => "Call connect() before performing operations"@,
        ErrorCode::ConnectionFailed => "Check that the Streamline server is running and the URL is correct"@,
        ErrorCode::Timeout => "Consider increasing timeout settings or checking server load"@,
        ErrorCode::AuthenticationFailed => "Verify your credentials and authentication configuration"@,
        ErrorCode::TopicNotFound => "Create the topic first using the admin API"@,
        ErrorCode::SerializationError => "Check that the message value is valid JSON"@,
        ErrorCode::ProduceError => "Check that the topic exists, you have write permissions, and the message size is within limits"@,
        ErrorCode::AdminError => "Verify you have admin permissions and the server is accepting admin operations"@,
        ErrorCode::QueryError => "Check your SQL syntax and ensure the queried topics exist"@,
        ErrorCode::SchemaRegistryError => "Verify the schema format is valid and the registry endpoint is configured"@,
        ErrorCode::ConfigurationError => "Check the provided configuration values (e.g. topic names, parameters)"@,
        ErrorCode::Unsupported => "This SDK version does not implement this operation; it fails closed instead of guessing. Check the CHANGELOG for protocol support status"@,
        ErrorCode::Unknown => "Check server logs for more details"@,
    }
}

impl StreamlineError {
    /// The error code.
    pub closed spec fn spec_code(&self) -> ErrorCode {
        self.code
    }

    /// The message.
    pub closed spec fn spec_message(&self) -> Seq<char> {
        self.message@
    }

    /// The retryable flag.
    pub closed spec fn spec_retryable(&self) -> bool {
        self.retryable
    }

    /// Whether this error has exactly the given code, message and flag.
    pub open spec fn is(&self, code: ErrorCode, message: Seq<char>, retryable: bool) -> bool {
        &&& self.spec_code() == code
        &&& self.spec_message() == message
        &&& self.spec_retryable() == retryable
    }

    /// Create a new error.
    pub fn new(code: ErrorCode, message: &str, retryable: bool) -> (e: Self)
        ensures
            e.is(code, message@, retryable),
    {
        StreamlineError { code, message: String::from_str(message), retryable }
    }

    fn with_prefix(code: ErrorCode, prefix: &str, detail: &str, retryable: bool) -> (e: Self)
        ensures
            e.is(code, prefix@ + detail@, retryable),
    {
        let mut message = String::from_str(prefix);
        message.append(detail);
        StreamlineError { code, message, retryable }
    }

    /// The error code identifying the failure category.
    pub fn code(&self) -> (c: ErrorCode)
        ensures
            c == self.spec_code(),
    {
        self.code
    }

    /// A human-readable description of the error.
    pub fn message(&self) -> (m: String)
        ensures
            m@ == self.spec_message(),
    {
        self.message.clone()
    }

    /// Whether this error is transient and the operation can be retried.
    pub fn retryable(&self) -> (b: bool)
        ensures
            b == self.spec_retryable(),
    {
        self.retryable
    }

    /// Returns true if this error is transient and the operation can be retried.
    pub fn is_retryable(&self) -> (b: bool)
        ensures
            b == self.spec_retryable(),
    {
        self.retryable
    }

    /// The WebSocket is not open.
    pub fn not_connected() -> (e: Self)
        ensures
            e.is(ErrorCode::NotConnected, "WebSocket is not connected"@, true),
    {
        Self::new(ErrorCode::NotConnected, "WebSocket is not connected", true)
    }

    /// A message could not be serialized.
    pub fn serialization(detail: &str) -> (e: Self)
        ensures
            e.is(ErrorCode::SerializationError, "serialization error: "@ + detail@, false),
    {
        Self::with_prefix(ErrorCode::SerializationError, "serialization error: ", detail, false)
    }

    /// A connection attempt failed.
    pub fn connection_failed(detail: &str) -> (e: Self)
        ensures
            e.is(ErrorCode::ConnectionFailed, "connection failed: "@ + detail@, true),
    {
        Self::with_prefix(ErrorCode::ConnectionFailed, "connection failed: ", detail, true)
    }

    /// A produce operation failed.
    pub fn produce_error(detail: &str) -> (e: Self)
        ensures
            e.is(ErrorCode::ProduceError, "produce failed: "@ + detail@, true),
    {
        Self::with_prefix(ErrorCode::ProduceError, "produce failed: ", detail, true)
    }

    /// An operation timed out.
    pub fn timeout(detail: &str) -> (e: Self)
        ensures
            e.is(ErrorCode::Timeout, "operation timed out: "@ + detail@, true),
    {
        Self::with_prefix(ErrorCode::Timeout, "operation timed out: ", detail, true)
    }

    /// A configuration or validation error; the detail is the whole message.
    pub fn configuration(detail: &str) -> (e: Self)
        ensures
            e.is(ErrorCode::ConfigurationError, detail@, false),
    {
        Self::new(ErrorCode::ConfigurationError, detail, false)
    }

    /// An operation this SDK version refuses to perform rather than claim an
    /// unconfirmed result. Never retryable.
    pub fn unsupported(detail: &str) -> (e: Self)
        ensures
            e.is(ErrorCode::Unsupported, detail@, false),
    {
        Self::new(ErrorCode::Unsupported, detail, false)
    }

    /// Authentication was rejected.
    pub fn auth_failed(detail: &str) -> (e: Self)
        ensures
            e.is(ErrorCode::AuthenticationFailed, "authentication failed: "@ + detail@, false),
    {
        Self::with_prefix(ErrorCode::AuthenticationFailed, "authentication failed: ", detail, false)
    }

    /// A resolution hint based on the error code.
    pub fn hint(&self) -> (h: String)
        ensures
            h@ == hint_text(self.spec_code()),
    {
        let text = match self.code {
            ErrorCode::NotConnected => "Call connect() before performing operations",
            ErrorCode::ConnectionFailed => "Check that the Streamline server is running and the URL is correct",
            ErrorCode::Timeout => "Consider increasing timeout settings or checking server load",
            ErrorCode::AuthenticationFailed => "Verify your credentials and authentication configuration",
            ErrorCode::TopicNotFound => "Create the topic first using the admin API",
            ErrorCode::SerializationError => "Check that the message value is valid JSON",
            ErrorCode::ProduceError => "Check that the topic exists, you have write permissions, and the message size is within limits",
            ErrorCode::AdminError => "Verify you have admin permissions and the server is accepting admin operations",
            ErrorCode::QueryError => "Check your SQL syntax and ensure the queried topics exist",
            ErrorCode::SchemaRegistryError => "Verify the schema format is valid and the registry endpoint is configured",
            ErrorCode::ConfigurationError => "Check the provided configuration values (e.g. topic names, parameters)",
            ErrorCode::Unsupported => "This SDK version does not implement this operation; it fails closed instead of guessing. Check the CHANGELOG for protocol support status",
            ErrorCode::Unknown => "Check server logs for more details",
        };
        String::from_str(text)
    }
}

} // verus!
