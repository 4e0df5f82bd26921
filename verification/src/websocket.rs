//! Connection state machine of the WebSocket transport.
//!
//! The browser bindings own the socket, the timers and the JavaScript
//! callbacks; they report each event to a `WsConnection` and carry out what
//! it decides: whether to open a socket, whether a message is sent now or
//! replayed once the socket opens, which callback receives an incoming
//! message, and when and how often to reconnect. When the connection drops
//! unexpectedly a reconnect is scheduled with exponential backoff
//! (1 s, 2 s, 4 s, ... capped at 30 s).
use vstd::prelude::*;
use vstd::string::*;
use vstd::arithmetic::power2::{pow2, lemma2_to64, lemma_pow2_strictly_increases};

use crate::error::{ErrorCode, StreamlineError};
use crate::protocol::{message_json, BrowserMessage};
use crate::json::{field, get_field, parse_json, parsed_json, string_of, JsonValue};
use crate::registry::{lookup, upserted, removed, values_of, KeyedList};

verus! {

/// Connection state of the WebSocket transport.
#[derive(Debug, Clone, Copy, PartialEq, Eq, Structural)]
pub enum ConnectionState {
    Disconnected,
    Connecting,
    Connected,
    Reconnecting,
}

/// `readyState` of a WebSocket that is still connecting.
pub const WS_CONNECTING: u16 = 0;
/// `readyState` of an open WebSocket.
pub const WS_OPEN: u16 = 1;

/// Default limit of reconnection attempts.
pub const DEFAULT_MAX_RECONNECT_ATTEMPTS: u32 = 5;
/// First reconnection delay, in milliseconds.
pub const BASE_RECONNECT_DELAY_MS: u32 = 1000;
/// Largest reconnection delay, in milliseconds.
pub const MAX_RECONNECT_DELAY_MS: u32 = 30_000;

/// Message handed to the reconnect-failed callback when the attempts are used up.
pub const RECONNECT_EXHAUSTED: &'static str = "Max reconnection attempts exhausted";
/// Message handed to the reconnect-failed callback when no timer is available.
pub const TIMER_UNAVAILABLE: &'static str = "Browser timer unavailable";
/// Message handed to the reconnect-failed callback when the timer refused.
pub const TIMER_FAILED: &'static str = "Failed to schedule reconnect";

/// The delay before reconnection attempt number `attempts + 1`:
/// 1000 ms doubled for each earlier attempt, at most 30000 ms.
pub open spec fn backoff_delay_ms(attempts: nat) -> nat {
    let d = BASE_RECONNECT_DELAY_MS * pow2(attempts);
    if d < MAX_RECONNECT_DELAY_MS { d as nat } else { MAX_RECONNECT_DELAY_MS as nat }
}

/// The reconnection delay for a number of earlier attempts.
pub fn backoff_delay(attempts: u32) -> (d: u32)
    ensures
        d == backoff_delay_ms(attempts as nat),
{
    proof {
        lemma2_to64();
    }
    if attempts >= 5 {
        proof {
            if attempts > 5 {
                lemma_pow2_strictly_increases(5, attempts as nat);
            }
            assert(BASE_RECONNECT_DELAY_MS * pow2(attempts as nat) >= 32000) by (nonlinear_arith)
                requires
                    pow2(attempts as nat) >= 32,
            ;
        }
        MAX_RECONNECT_DELAY_MS
    } else if attempts == 0 {
        1000
    } else if attempts == 1 {
        2000
    } else if attempts == 2 {
        4000
    } else if attempts == 3 {
        8000
    } else {
        16000
    }
}

/// The backoff starts at one second, doubles with each attempt and never
/// exceeds thirty seconds.
pub proof fn lemma_backoff_doubles_up_to_cap(attempts: nat)
    ensures
        backoff_delay_ms(0) == 1000,
        backoff_delay_ms(attempts) <= MAX_RECONNECT_DELAY_MS,
        backoff_delay_ms(attempts + 1) == if 2 * backoff_delay_ms(attempts) < MAX_RECONNECT_DELAY_MS {
            2 * backoff_delay_ms(attempts)
        } else {
            MAX_RECONNECT_DELAY_MS as nat
        },
{
    lemma2_to64();
    vstd::arithmetic::power2::lemma_pow2_unfold(attempts + 1);
    assert(pow2(attempts + 1) == 2 * pow2(attempts));
    let p = pow2(attempts);
    assert(1000 * (2 * p) == 2 * (1000 * p)) by (nonlinear_arith);
}

/// The topic named by the `topic` member of a JSON text, when the text is a
/// JSON object whose `topic` member is a string.
pub open spec fn topic_of_text(text: Seq<char>) -> Option<Seq<char>> {
    match parsed_json(text) {
        Some(v) => string_of(field(v, "topic"@)),
        None => None,
    }
}

/// Read the `topic` member of a raw protocol message, used to route incoming
/// messages to the callback of their topic. `None` for malformed JSON and for
/// messages without a string `topic` member (such as topic lists and errors).
pub fn extract_topic(json: &str) -> (r: Option<String>)
    ensures
        match r {
            Some(t) => topic_of_text(json@) == Some(t@),
            None => topic_of_text(json@) is None,
        },
{
    match parse_json(json) {
        Ok(v) => match get_field(&v, "topic") {
            Some(JsonValue::String(s)) => Some(s.clone()),
            _ => None,
        },
        Err(_) => None,
    }
}

/// The name of a connection state as handed to state-change callbacks.
pub open spec fn state_name_of(state: ConnectionState) -> Seq<char> {
    match state {
        ConnectionState::Disconnected => "Disconnected"@,
        ConnectionState::Connecting => "Connecting"@,
        ConnectionState::Connected => "Connected"@,
        ConnectionState::Reconnecting => "Reconnecting"@,
    }
}

/// The name of a connection state as handed to state-change callbacks.
pub fn state_name(state: ConnectionState) -> (s: &'static str)
    ensures
        s@ == state_name_of(state),
{
    match state {
        ConnectionState::Disconnected => "Disconnected",
        ConnectionState::Connecting => "Connecting",
        ConnectionState::Connected => "Connected",
        ConnectionState::Reconnecting => "Reconnecting",
    }
}

/// What to do after the socket closed.
pub enum CloseOutcome {
    /// The event came from a socket that is no longer current: nothing.
    Stale,
    /// The close was asked for: the state is now `Disconnected`.
    Closed,
    /// The close was unexpected; this is the reconnection plan.
    Reconnect(ReconnectPlan),
}

/// What to do about reconnecting.
#[derive(Debug, PartialEq, Eq, Structural)]
pub enum ReconnectPlan {
    /// Reconnection is off or the disconnect was intentional: the state is
    /// now `Disconnected`.
    Stop,
    /// Every allowed attempt was made: the state is now `Disconnected` and
    /// the reconnect-failed callback is due.
    Exhausted,
    /// Open a new socket after `delay_ms`; this is attempt number `attempt`.
    /// The state is now `Reconnecting`.
    Retry { delay_ms: u32, attempt: u32 },
}

/// What to do when a reconnection timer fires.
#[derive(Debug, PartialEq, Eq, Structural)]
pub enum TimerDecision {
    /// Open a new socket to the connection's URL.
    Reconnect,
    /// Reconnection was switched off meanwhile: the state is now `Disconnected`.
    Disconnected,
    /// Nothing to do.
    Ignore,
}

/// WebSocket connection manager with automatic reconnection. `S` is the
/// socket handle and `C` the callback handle of the embedding environment.
pub struct WsConnection<S, C> {
    url: String,
    ws: Option<S>,
    state: ConnectionState,
    reconnect_attempts: u32,
    max_reconnect_attempts: u32,
    auto_reconnect: bool,
    intentional_disconnect: bool,
    persistent_messages: KeyedList<String>,
    topic_callbacks: KeyedList<C>,
    on_message: Option<C>,
    on_state_change: Option<C>,
    on_reconnect_failed: Option<C>,
}

/// The abstract state of a connection.
pub struct WsView<S, C> {
    pub url: Seq<char>,
    pub ws: Option<S>,
    pub state: ConnectionState,
    pub reconnect_attempts: nat,
    pub max_reconnect_attempts: nat,
    pub auto_reconnect: bool,
    pub intentional_disconnect: bool,
    /// Messages replayed, in order, each time the socket opens, keyed by
    /// what they register (such as a subscription).
    pub persistent_messages: Seq<(Seq<char>, String)>,
    /// Per-topic callbacks for incoming messages.
    pub topic_callbacks: Seq<(Seq<char>, C)>,
    /// Callback for incoming messages without a topic callback.
    pub on_message: Option<C>,
    pub on_state_change: Option<C>,
    pub on_reconnect_failed: Option<C>,
}

impl<S, C> View for WsConnection<S, C> {
    type V = WsView<S, C>;

    closed spec fn view(&self) -> WsView<S, C> {
        WsView {
            url: self.url@,
            ws: self.ws,
            state: self.state,
            reconnect_attempts: self.reconnect_attempts as nat,
            max_reconnect_attempts: self.max_reconnect_attempts as nat,
            auto_reconnect: self.auto_reconnect,
            intentional_disconnect: self.intentional_disconnect,
            persistent_messages: self.persistent_messages@,
            topic_callbacks: self.topic_callbacks@,
            on_message: self.on_message,
            on_state_change: self.on_state_change,
            on_reconnect_failed: self.on_reconnect_failed,
        }
    }
}

/// Whether a reconnection may be scheduled: reconnection is on, the last
/// disconnect was not asked for, and attempts remain (a limit of 0 means no
/// limit).
pub open spec fn may_reconnect<S, C>(v: WsView<S, C>) -> bool {
    &&& v.auto_reconnect
    &&& !v.intentional_disconnect
    &&& (v.max_reconnect_attempts == 0 || v.reconnect_attempts < v.max_reconnect_attempts)
}

/// Whether the ready state reported for the current socket means open.
pub open spec fn is_open(ready_state: Option<u16>) -> bool {
    ready_state == Some(WS_OPEN)
}

/// A new connection manager for `url`: disconnected, without a socket,
/// reconnection on with at most 5 attempts, nothing registered.
pub open spec fn is_fresh<S, C>(v: WsView<S, C>, url: Seq<char>) -> bool {
    &&& v.url == url
    &&& v.ws is None
    &&& v.state == ConnectionState::Disconnected
    &&& v.reconnect_attempts == 0
    &&& v.max_reconnect_attempts == DEFAULT_MAX_RECONNECT_ATTEMPTS
    &&& v.auto_reconnect
    &&& !v.intentional_disconnect
    &&& v.persistent_messages.len() == 0
    &&& v.topic_callbacks.len() == 0
    &&& v.on_message is None
    &&& v.on_state_change is None
    &&& v.on_reconnect_failed is None
}

/// The state after a requested disconnect: no socket, `Disconnected`, the
/// disconnect flagged as intentional, the attempt count reset, and the
/// replayed messages and topic callbacks forgotten.
pub open spec fn after_disconnect<S, C>(v: WsView<S, C>) -> WsView<S, C> {
    WsView {
        ws: None,
        state: ConnectionState::Disconnected,
        intentional_disconnect: true,
        reconnect_attempts: 0,
        persistent_messages: Seq::empty(),
        topic_callbacks: Seq::empty(),
        ..v
    }
}

/// Disconnecting twice is disconnecting once.
pub proof fn lemma_disconnect_idempotent<S, C>(v: WsView<S, C>)
    ensures
        after_disconnect(after_disconnect(v)) == after_disconnect(v),
        !may_reconnect(after_disconnect(v)),
{
}

/// What sending `text` over connection `c`, whose socket reports
/// `ready_state`, comes to: the text to write to the current socket when
/// that socket is open; refused with `NotConnected` otherwise.
pub open spec fn frame_outcome<S, C>(
    c: WsView<S, C>,
    ready_state: Option<u16>,
    text: Seq<char>,
    r: Result<String, StreamlineError>,
) -> bool {
    if c.ws is Some && is_open(ready_state) {
        r matches Ok(t) && t@ == text
    } else {
        r matches Err(e) && e.is(ErrorCode::NotConnected, "WebSocket is not connected"@, true)
    }
}

/// The outcome of registering `message` under `key` for replay: while
/// connected with an open socket, or while connecting or reconnecting, it is
/// registered (replacing an earlier message under the same key), and when
/// the socket is open its text is returned to be written to it at once;
/// otherwise it is refused with `NotConnected` and nothing changes.
pub open spec fn persistent_outcome<S, C>(
    before: WsView<S, C>,
    key: Seq<char>,
    message: String,
    ready_state: Option<u16>,
    r: Result<Option<String>, StreamlineError>,
    after: WsView<S, C>,
) -> bool {
    let open_now = before.ws is Some && is_open(ready_state);
    let accepted = (before.state == ConnectionState::Connected && open_now)
        || before.state == ConnectionState::Connecting || before.state
        == ConnectionState::Reconnecting;
    if accepted {
        &&& after == (WsView {
            persistent_messages: upserted(before.persistent_messages, key, message),
            ..before
        })
        &&& r matches Ok(now) && if open_now {
            now matches Some(t) && t@ == message@
        } else {
            now is None
        }
    } else {
        &&& after == before
        &&& r matches Err(e) && e.is(ErrorCode::NotConnected, "WebSocket is not connected"@, true)
    }
}

/// The replay of the registered messages on a socket that opened: they are
/// handed out one at a time, in registration order, each once, and the
/// replay stops at the first one the socket refuses.
pub struct Replay {
    messages: Vec<String>,
    sent: usize,
    stopped: bool,
}

/// The abstract state of a replay: the messages, how many the socket
/// accepted so far, and whether one was refused.
pub struct ReplayView {
    pub messages: Seq<String>,
    pub sent: nat,
    pub stopped: bool,
}

impl View for Replay {
    type V = ReplayView;

    closed spec fn view(&self) -> ReplayView {
        ReplayView { messages: self.messages@, sent: self.sent as nat, stopped: self.stopped }
    }
}

impl Replay {
    #[verifier::type_invariant]
    spec fn within(self) -> bool {
        self.sent <= self.messages.len()
    }

    /// The messages still to replay, none sent yet.
    fn start(messages: Vec<String>) -> (r: Replay)
        ensures
            r@ == (ReplayView { messages: messages@, sent: 0, stopped: false }),
    {
        Replay { messages, sent: 0, stopped: false }
    }

    /// The next text to write to the socket: the first message not yet
    /// accepted, or `None` once all were accepted or one was refused.
    pub fn next_send(&self) -> (t: Option<String>)
        ensures
            (t is Some) == (!self@.stopped && self@.sent < self@.messages.len()),
            t matches Some(s) ==> s@ == self@.messages[self@.sent as int]@,
    {
        proof {
            use_type_invariant(self);
        }
        if self.stopped || self.sent >= self.messages.len() {
            return None;
        }
        Some(self.messages[self.sent].clone())
    }

    /// Take the socket's answer for the text `next_send` gave: accepted, the
    /// replay moves to the next message; refused, it stops and the error is
    /// returned.
    pub fn record_send<E>(&mut self, answer: Result<(), E>) -> (r: Option<E>)
        requires
            !old(self)@.stopped && old(self)@.sent < old(self)@.messages.len(),
        ensures
            answer is Ok ==> r is None && final(self)@ == (ReplayView { sent: old(self)@.sent + 1, ..old(self)@ }),
            answer matches Err(e) ==> r == Some(e) && final(self)@ == (ReplayView { stopped: true, ..old(self)@ }),
    {
        proof {
            use_type_invariant(&*self);
        }
        match answer {
            Ok(()) => {
                self.sent = self.sent + 1;
                None
            },
            Err(e) => {
                self.stopped = true;
                Some(e)
            },
        }
    }
}

impl<S, C> WsConnection<S, C> {
    /// Create a connection manager for `url`: disconnected, reconnection on,
    /// at most 5 attempts.
    pub fn new(url: &str) -> (c: Self)
        ensures
            is_fresh(c@, url@),
    {
        WsConnection {
            url: String::from_str(url),
            ws: None,
            state: ConnectionState::Disconnected,
            reconnect_attempts: 0,
            max_reconnect_attempts: DEFAULT_MAX_RECONNECT_ATTEMPTS,
            auto_reconnect: true,
            intentional_disconnect: false,
            persistent_messages: KeyedList::new(),
            topic_callbacks: KeyedList::new(),
            on_message: None,
            on_state_change: None,
            on_reconnect_failed: None,
        }
    }

    /// The URL to connect to.
    pub fn url(&self) -> (u: &str)
        ensures
            u@ == self@.url,
    {
        self.url.as_str()
    }

    /// The current socket, if any.
    pub fn socket(&self) -> (s: Option<&S>)
        ensures
            match s {
                Some(x) => self@.ws == Some(*x),
                None => self@.ws is None,
            },
    {
        self.ws.as_ref()
    }

    /// Enable or disable automatic reconnection (default: enabled).
    pub fn set_auto_reconnect(&mut self, enabled: bool)
        ensures
            final(self)@ == (WsView { auto_reconnect: enabled, ..old(self)@ }),
    {
        self.auto_reconnect = enabled;
    }

    /// Whether automatic reconnection is enabled.
    pub fn auto_reconnect(&self) -> (b: bool)
        ensures
            b == self@.auto_reconnect,
    {
        self.auto_reconnect
    }

    /// Set the maximum number of reconnection attempts; 0 means no limit.
    pub fn set_max_reconnect_attempts(&mut self, max: u32)
        ensures
            final(self)@ == (WsView { max_reconnect_attempts: max as nat, ..old(self)@ }),
    {
        self.max_reconnect_attempts = max;
    }

    /// The maximum number of reconnection attempts; 0 means no limit.
    pub fn max_reconnect_attempts(&self) -> (n: u32)
        ensures
            n == self@.max_reconnect_attempts,
    {
        self.max_reconnect_attempts
    }

    /// The current connection state.
    pub fn state(&self) -> (s: ConnectionState)
        ensures
            s == self@.state,
    {
        self.state
    }

    /// How many reconnection attempts were made since the last successful
    /// connection.
    pub fn reconnect_attempts(&self) -> (n: u32)
        ensures
            n == self@.reconnect_attempts,
    {
        self.reconnect_attempts
    }

    /// The delay before the next reconnection attempt, in milliseconds.
    pub fn reconnect_delay_ms(&self) -> (d: u32)
        ensures
            d == backoff_delay_ms(self@.reconnect_attempts),
    {
        backoff_delay(self.reconnect_attempts)
    }

    /// Whether a reconnection attempt should be scheduled.
    pub fn should_reconnect(&self) -> (b: bool)
        ensures
            b == may_reconnect(self@),
    {
        if !self.auto_reconnect || self.intentional_disconnect {
            return false;
        }
        self.max_reconnect_attempts == 0 || self.reconnect_attempts < self.max_reconnect_attempts
    }

    /// Whether the connection is open: connected, with a current socket whose
    /// ready state (`ready_state`) is open.
    pub fn is_connected(&self, ready_state: Option<u16>) -> (b: bool)
        ensures
            b == (self@.state == ConnectionState::Connected && self@.ws is Some && is_open(ready_state)),
    {
        self.state == ConnectionState::Connected && self.ws.is_some() && ready_state == Some(WS_OPEN)
    }

    /// First step of `connect`, given the ready state of the current socket.
    /// With a socket that is connecting or open there is nothing to do
    /// (`false`). Otherwise the disconnect flag is cleared and the state
    /// becomes `Connecting` (`true`); the state-change callback is due.
    pub fn begin_connect(&mut self, ready_state: Option<u16>) -> (proceed: bool)
        ensures
            proceed == !(old(self)@.ws is Some && (ready_state == Some(WS_CONNECTING) || ready_state == Some(WS_OPEN))),
            !proceed ==> final(self)@ == old(self)@,
            proceed ==> final(self)@ == (WsView {
                intentional_disconnect: false,
                state: ConnectionState::Connecting,
                ..old(self)@
            }),
    {
        if self.ws.is_some() && (ready_state == Some(WS_CONNECTING) || ready_state == Some(WS_OPEN)) {
            return false;
        }
        self.intentional_disconnect = false;
        self.state = ConnectionState::Connecting;
        true
    }

    /// Second step of `connect`, after the state-change callback ran: the
    /// socket is still wanted unless a disconnect or another state change
    /// happened meanwhile.
    pub fn connect_still_wanted(&self) -> (b: bool)
        ensures
            b == (!self@.intentional_disconnect && self@.state == ConnectionState::Connecting),
    {
        !self.intentional_disconnect && self.state == ConnectionState::Connecting
    }

    /// The socket could not be created: the state becomes `Disconnected`.
    pub fn connect_failed(&mut self)
        ensures
            final(self)@ == (WsView { state: ConnectionState::Disconnected, ..old(self)@ }),
    {
        self.state = ConnectionState::Disconnected;
    }

    /// Make `ws` the current socket.
    pub fn attach_socket(&mut self, ws: S)
        ensures
            final(self)@ == (WsView { ws: Some(ws), ..old(self)@ }),
    {
        self.ws = Some(ws);
    }

    /// Disconnect on request; this never triggers a reconnection. Forgets
    /// the replayed messages and topic callbacks, resets the attempt count
    /// and returns the socket to close. The state becomes `Disconnected`.
    pub fn disconnect(&mut self) -> (closed: Option<S>)
        ensures
            closed == old(self)@.ws,
            final(self)@ == after_disconnect(old(self)@),
    {
        self.intentional_disconnect = true;
        self.reconnect_attempts = 0;
        self.persistent_messages.clear();
        self.topic_callbacks.clear();
        let ws = self.ws.take();
        self.state = ConnectionState::Disconnected;
        ws
    }

    /// The socket to send on: the current socket when its ready state is
    /// open, `NotConnected` otherwise.
    pub fn send_target(&self, ready_state: Option<u16>) -> (r: Result<&S, StreamlineError>)
        ensures
            match r {
                Ok(s) => self@.ws == Some(*s) && is_open(ready_state),
                Err(e) => !(self@.ws is Some && is_open(ready_state))
                    && e.is(crate::error::ErrorCode::NotConnected, "WebSocket is not connected"@, true),
            },
    {
        match &self.ws {
            Some(ws) if ready_state == Some(WS_OPEN) => Ok(ws),
            _ => Err(StreamlineError::not_connected()),
        }
    }

    /// Register `message` under `key` for replay whenever the socket opens,
    /// replacing an earlier message under the same key. Accepted while
    /// connected with an open socket (then it is also due now: `true`) and
    /// while connecting or reconnecting (`false`: it goes out when the socket
    /// opens); refused with `NotConnected` otherwise, leaving everything as it
    /// was.
    fn register_persistent(&mut self, key: String, message: String, ready_state: Option<u16>) -> (r: Result<bool, StreamlineError>)
        ensures
            ({
                let open_now = old(self)@.ws is Some && is_open(ready_state);
                let accepted = (old(self)@.state == ConnectionState::Connected && open_now)
                    || old(self)@.state == ConnectionState::Connecting
                    || old(self)@.state == ConnectionState::Reconnecting;
                &&& accepted ==> r == Ok::<bool, StreamlineError>(open_now)
                    && final(self)@ == (WsView {
                        persistent_messages: upserted(old(self)@.persistent_messages, key@, message),
                        ..old(self)@
                    })
                &&& !accepted ==> final(self)@ == old(self)@ && (r matches Err(e)
                    && e.is(crate::error::ErrorCode::NotConnected, "WebSocket is not connected"@, true))
            }),
    {
        let open_now = self.ws.is_some() && ready_state == Some(WS_OPEN);
        match self.state {
            ConnectionState::Connected if open_now => {},
            ConnectionState::Connecting | ConnectionState::Reconnecting => {},
            _ => return Err(StreamlineError::not_connected()),
        }
        self.persistent_messages.upsert(key, message);
        Ok(open_now)
    }

    /// Register `message` under `key` for replay whenever the socket opens,
    /// replacing an earlier message under the same key; when the socket is
    /// open its text is returned, to be written to it at once. Accepted while
    /// connected with an open socket and while connecting or reconnecting;
    /// refused with `NotConnected` otherwise, leaving everything as it was.
    pub fn send_persistent_when_ready(
        &mut self,
        key: String,
        message: String,
        ready_state: Option<u16>,
    ) -> (r: Result<Option<String>, StreamlineError>)
        ensures
            persistent_outcome(old(self)@, key@, message, ready_state, r, final(self)@),
    {
        let text = message.clone();
        match self.register_persistent(key, message, ready_state) {
            Err(e) => Err(e),
            Ok(false) => Ok(None),
            Ok(true) => Ok(Some(text)),
        }
    }

    /// The text to write to the socket for `message`: refused with
    /// `NotConnected` unless the socket is open.
    pub fn send(&self, message: &str, ready_state: Option<u16>) -> (r: Result<String, StreamlineError>)
        ensures
            frame_outcome(self@, ready_state, message@, r),
    {
        match self.send_target(ready_state) {
            Ok(_) => Ok(String::from_str(message)),
            Err(e) => Err(e),
        }
    }

    /// The text to write to the socket for `msg`, encoded as JSON (see
    /// `send`).
    pub fn send_message(&self, msg: &BrowserMessage, ready_state: Option<u16>) -> (r: Result<String, StreamlineError>)
        ensures
            frame_outcome(self@, ready_state, message_json(msg@), r),
    {
        let json = msg.to_json().unwrap();
        self.send(json.as_str(), ready_state)
    }

    /// Stop replaying the message registered under `key`.
    pub fn remove_persistent_message(&mut self, key: &str)
        ensures
            final(self)@ == (WsView {
                persistent_messages: removed(old(self)@.persistent_messages, key@),
                ..old(self)@
            }),
    {
        self.persistent_messages.remove(key);
    }

    /// Set the callback for incoming messages without a topic callback.
    pub fn set_on_message(&mut self, callback: C)
        ensures
            final(self)@ == (WsView { on_message: Some(callback), ..old(self)@ }),
    {
        self.on_message = Some(callback);
    }

    /// Register (or replace) the callback of `topic`; the callbacks of other
    /// topics are left as they were.
    pub fn set_topic_callback(&mut self, topic: &str, callback: C)
        ensures
            final(self)@ == (WsView {
                topic_callbacks: upserted(old(self)@.topic_callbacks, topic@, callback),
                ..old(self)@
            }),
    {
        self.topic_callbacks.upsert(String::from_str(topic), callback);
    }

    /// Remove the callback of `topic`; the callbacks of other topics are left
    /// as they were.
    pub fn remove_topic_callback(&mut self, topic: &str)
        ensures
            final(self)@ == (WsView {
                topic_callbacks: removed(old(self)@.topic_callbacks, topic@),
                ..old(self)@
            }),
    {
        self.topic_callbacks.remove(topic);
    }

    /// Set the state-change callback; it is due at once with the current
    /// state.
    pub fn set_on_state_change(&mut self, callback: C) -> (current: ConnectionState)
        ensures
            current == old(self)@.state,
            final(self)@ == (WsView { on_state_change: Some(callback), ..old(self)@ }),
    {
        self.on_state_change = Some(callback);
        self.state
    }

    /// The state-change callback.
    pub fn on_state_change(&self) -> (c: Option<&C>)
        ensures
            match c {
                Some(x) => self@.on_state_change == Some(*x),
                None => self@.on_state_change is None,
            },
    {
        self.on_state_change.as_ref()
    }

    /// Set the callback invoked when every reconnection attempt failed.
    pub fn set_on_reconnect_failed(&mut self, callback: C)
        ensures
            final(self)@ == (WsView { on_reconnect_failed: Some(callback), ..old(self)@ }),
    {
        self.on_reconnect_failed = Some(callback);
    }

    /// The callback invoked when every reconnection attempt failed.
    pub fn on_reconnect_failed(&self) -> (c: Option<&C>)
        ensures
            match c {
                Some(x) => self@.on_reconnect_failed == Some(*x),
                None => self@.on_reconnect_failed is None,
            },
    {
        self.on_reconnect_failed.as_ref()
    }

    /// Set the state (used by the bindings for their own transitions).
    pub fn set_state(&mut self, state: ConnectionState)
        ensures
            final(self)@ == (WsView { state, ..old(self)@ }),
    {
        self.state = state;
    }

    /// The socket opened. For the current socket, unless a disconnect was
    /// asked for, the state becomes `Connected`, the attempt count is reset
    /// and the replay of the registered messages, in registration order,
    /// is returned; `None` otherwise, with nothing changed.
    pub fn on_open(&mut self, is_current: bool) -> (replay: Option<Replay>)
        ensures
            !is_current || old(self)@.intentional_disconnect ==> replay is None && final(self)@ == old(self)@,
            is_current && !old(self)@.intentional_disconnect ==> (replay matches Some(r)
                && r@ == (ReplayView { messages: values_of(old(self)@.persistent_messages), sent: 0, stopped: false }))
                && final(self)@ == (WsView {
                    state: ConnectionState::Connected,
                    reconnect_attempts: 0,
                    ..old(self)@
                }),
    {
        if !is_current || self.intentional_disconnect {
            return None;
        }
        self.state = ConnectionState::Connected;
        self.reconnect_attempts = 0;
        Some(Replay::start(self.persistent_messages.values()))
    }

    /// The callback that receives an incoming message from the socket: the
    /// callback of the message's topic, else the general message callback;
    /// none for a socket that is no longer current.
    pub fn message_target(&self, is_current: bool, topic: Option<&str>) -> (c: Option<&C>)
        ensures
            !is_current ==> c is None,
            is_current ==> match c {
                Some(x) => match topic {
                    Some(t) => match lookup(self@.topic_callbacks, t@) {
                        Some(y) => *x == y,
                        None => self@.on_message == Some(*x),
                    },
                    None => self@.on_message == Some(*x),
                },
                None => (match topic {
                    Some(t) => lookup(self@.topic_callbacks, t@) is None,
                    None => true,
                }) && self@.on_message is None,
            },
    {
        if !is_current {
            return None;
        }
        let by_topic = match topic {
            Some(t) => self.topic_callbacks.get(t),
            None => None,
        };
        match by_topic {
            Some(c) => Some(c),
            None => self.on_message.as_ref(),
        }
    }

    /// The socket closed. A stale socket changes nothing. Otherwise the
    /// socket is dropped; after a requested disconnect the state becomes
    /// `Disconnected`, else a reconnection is planned (`schedule_reconnect`).
    /// A close code, even 1000, does not by itself mean the disconnect was
    /// requested: only `disconnect` does.
    pub fn on_close(&mut self, is_current: bool) -> (outcome: CloseOutcome)
        requires
            old(self)@.reconnect_attempts < u32::MAX || !may_reconnect(old(self)@),
        ensures
            !is_current ==> outcome is Stale && final(self)@ == old(self)@,
            is_current && old(self)@.intentional_disconnect ==> outcome is Closed
                && final(self)@ == (WsView { ws: None, state: ConnectionState::Disconnected, ..old(self)@ }),
            is_current && !old(self)@.intentional_disconnect ==> (outcome matches CloseOutcome::Reconnect(plan)
                && reconnect_planned(WsView { ws: None, ..old(self)@ }, plan, final(self)@)),
    {
        if !is_current {
            return CloseOutcome::Stale;
        }
        self.ws = None;
        if self.intentional_disconnect {
            self.state = ConnectionState::Disconnected;
            return CloseOutcome::Closed;
        }
        CloseOutcome::Reconnect(self.schedule_reconnect())
    }

    /// Plan a reconnection: stop (state `Disconnected`) when reconnection is
    /// off or the disconnect was requested; report exhaustion (state
    /// `Disconnected`) when a limit is set and reached; otherwise count one more attempt, wait the backoff
    /// delay of the attempts so far, and move to `Reconnecting`.
    pub fn schedule_reconnect(&mut self) -> (plan: ReconnectPlan)
        requires
            old(self)@.reconnect_attempts < u32::MAX || !may_reconnect(old(self)@),
        ensures
            reconnect_planned(old(self)@, plan, final(self)@),
    {
        if !self.auto_reconnect || self.intentional_disconnect {
            self.state = ConnectionState::Disconnected;
            return ReconnectPlan::Stop;
        }
        if self.max_reconnect_attempts > 0 && self.reconnect_attempts >= self.max_reconnect_attempts {
            self.state = ConnectionState::Disconnected;
            return ReconnectPlan::Exhausted;
        }
        let delay_ms = backoff_delay(self.reconnect_attempts);
        let attempt = self.reconnect_attempts + 1;
        self.reconnect_attempts = attempt;
        self.state = ConnectionState::Reconnecting;
        ReconnectPlan::Retry { delay_ms, attempt }
    }

    /// Every reconnection attempt failed, or no timer could be set: the state
    /// becomes `Disconnected` and the reconnect-failed callback is due.
    pub fn fail_reconnect(&mut self)
        ensures
            final(self)@ == (WsView { state: ConnectionState::Disconnected, ..old(self)@ }),
    {
        self.state = ConnectionState::Disconnected;
    }

    /// A reconnection timer fired. While waiting to reconnect (reconnecting,
    /// with no socket): open a new socket if reconnection is still wanted,
    /// otherwise become `Disconnected`. In any other situation do nothing.
    pub fn reconnect_timer_fired(&mut self) -> (d: TimerDecision)
        ensures
            ({
                let waiting = old(self)@.state == ConnectionState::Reconnecting && old(self)@.ws is None;
                let wanted = old(self)@.auto_reconnect && !old(self)@.intentional_disconnect;
                &&& waiting && wanted ==> d == TimerDecision::Reconnect && final(self)@ == old(self)@
                &&& waiting && !wanted ==> d == TimerDecision::Disconnected
                    && final(self)@ == (WsView { state: ConnectionState::Disconnected, ..old(self)@ })
                &&& !waiting ==> d == TimerDecision::Ignore && final(self)@ == old(self)@
            }),
    {
        let waiting = self.state == ConnectionState::Reconnecting && self.ws.is_none();
        if !waiting {
            return TimerDecision::Ignore;
        }
        if self.auto_reconnect && !self.intentional_disconnect {
            TimerDecision::Reconnect
        } else {
            self.state = ConnectionState::Disconnected;
            TimerDecision::Disconnected
        }
    }
}

/// The relation between the state before planning a reconnection, the plan
/// and the state after.
pub open spec fn reconnect_planned<S, C>(before: WsView<S, C>, plan: ReconnectPlan, after: WsView<S, C>) -> bool {
    if !before.auto_reconnect || before.intentional_disconnect {
        plan == ReconnectPlan::Stop && after == (WsView { state: ConnectionState::Disconnected, ..before })
    } else if before.max_reconnect_attempts > 0 && before.reconnect_attempts >= before.max_reconnect_attempts {
        plan == ReconnectPlan::Exhausted && after == (WsView { state: ConnectionState::Disconnected, ..before })
    } else {
        plan == (ReconnectPlan::Retry {
            delay_ms: backoff_delay_ms(before.reconnect_attempts) as u32,
            attempt: (before.reconnect_attempts + 1) as u32,
        })
        && after == (WsView {
            reconnect_attempts: before.reconnect_attempts + 1,
            state: ConnectionState::Reconnecting,
            ..before
        })
    }
}

/// A reconnection is planned exactly when one may be scheduled, and with a
/// limit set the attempt count never passes it.
pub proof fn lemma_reconnect_respects_limit<S, C>(before: WsView<S, C>, plan: ReconnectPlan, after: WsView<S, C>)
    requires
        reconnect_planned(before, plan, after),
    ensures
        (plan is Retry) == may_reconnect(before),
        before.max_reconnect_attempts > 0 && before.reconnect_attempts <= before.max_reconnect_attempts
            ==> after.reconnect_attempts <= after.max_reconnect_attempts,
        plan is Retry ==> after.state == ConnectionState::Reconnecting,
        !(plan is Retry) ==> after.state == ConnectionState::Disconnected,
        !(plan is Retry) ==> after.reconnect_attempts == before.reconnect_attempts,
{
}

/// After a requested disconnect no reconnection is ever planned, whatever
/// the attempt count or the limit.
pub proof fn lemma_no_reconnect_after_disconnect<S, C>(before: WsView<S, C>, plan: ReconnectPlan, after: WsView<S, C>)
    requires
        before.intentional_disconnect,
        reconnect_planned(before, plan, after),
    ensures
        plan == ReconnectPlan::Stop,
        after.state == ConnectionState::Disconnected,
{
}

} // verus!
