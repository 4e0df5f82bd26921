//! Browser-side client library for the Streamline streaming platform.
//!
//! The library holds the protocol framing, input validation, the connection
//! and reconnection state machine, the client operations, producer batching
//! and transactions, consumer offset tracking, the circuit breaker,
//! telemetry naming and trace context, and the request builders of the HTTP
//! clients. Sockets, timers, `fetch` and the browser console belong to the
//! embedding environment: the library decides, one step at a time, which
//! text is written to the socket next, and takes the socket's answer back.
use vstd::prelude::*;

pub mod admin;
pub mod circuit_breaker;
pub mod client;
pub mod consumer;
pub mod decode;
pub mod error;
pub mod http;
pub mod json;
pub mod moonshot;
pub mod producer;
pub mod protocol;
pub mod schema_registry;
pub mod registry;
pub mod telemetry;
pub mod text;
pub mod validation;
pub mod websocket;

pub use admin::{AdminClient, QueryClient};
pub use circuit_breaker::{CircuitBreaker, CircuitState};
pub use client::{StreamlineClient, TopicAdmin};
pub use consumer::Consumer;
pub use error::{ErrorCode, SendError, StreamlineError};
pub use moonshot::{MemoryReadClient, SearchClient};
pub use producer::Producer;
pub use protocol::{AdminAction, BrowserMessage, BrowserResponse, MessageFormat, TopicInfo};
pub use schema_registry::{SchemaFormat, SchemaRegistryClient};
pub use telemetry::{Telemetry, TelemetrySpan};
pub use validation::validate_topic_name;
pub use websocket::{ConnectionState, WsConnection};

verus! {

/// SDK version string.
pub const SDK_VERSION: &'static str = "0.3.0";

} // verus!
