//! The high-level client and the topic administration helper. Both drive a
//! WebSocket connection: they check their input and encode the protocol
//! message, and return the exact text to write to the open socket; writing
//! it is left to the embedding environment.
use vstd::prelude::*;
use vstd::string::*;

use crate::consumer::{subscription_key, subscription_key_of};
use crate::error::{ErrorCode, StreamlineError};
use crate::protocol::{message_json, opt_view, ActionView, AdminAction, BrowserMessage, MessageView};
use crate::registry::{lemma_remove_lookup, lemma_upsert_lookup, lookup, removed, upserted};
use crate::validation::check_topic;
use crate::validation::topic_name_error;
use crate::websocket::{
    after_disconnect,
    is_fresh,
    is_open,
    frame_outcome,
    persistent_outcome,
    ConnectionState,
    WsConnection,
    WsView,
};

verus! {

/// What an operation that checks the topic name `name` and then sends
/// message `m` over connection `c` comes to: a configuration error carrying
/// the validation message for an invalid name, otherwise the text of `m` to
/// write to the open socket (see `frame_outcome`).
pub open spec fn checked_frame<S, C>(
    name: Seq<char>,
    c: WsView<S, C>,
    ready_state: Option<u16>,
    m: MessageView,
    r: Result<String, StreamlineError>,
) -> bool {
    match topic_name_error(name) {
        Some(msg) => r matches Err(e) && e.is(ErrorCode::ConfigurationError, msg, false),
        None => frame_outcome(c, ready_state, message_json(m), r),
    }
}

/// The outcome of subscribing to `topic` with `callback` from `before`: an
/// invalid name is refused and nothing changes; otherwise the callback
/// becomes the topic's and the subscription is registered for replay (see
/// `persistent_outcome`).
pub open spec fn subscribe_outcome<S, C>(
    before: WsView<S, C>,
    topic: Seq<char>,
    callback: C,
    ready_state: Option<u16>,
    r: Result<Option<String>, StreamlineError>,
    after: WsView<S, C>,
) -> bool {
    match topic_name_error(topic) {
        Some(msg) => after == before && (r matches Err(e) && e.is(
            ErrorCode::ConfigurationError,
            msg,
            false,
        )),
        None => exists|m: String|
            m@ == message_json(MessageView::Subscribe { topic }) && #[trigger] persistent_outcome(
                WsView { topic_callbacks: upserted(before.topic_callbacks, topic, callback), ..before },
                subscription_key_of(topic),
                m,
                ready_state,
                r,
                after,
            ),
    }
}

/// Each topic keeps its own callback: after a subscription to `topic` is
/// accepted (its name is valid), `callback` is the callback of `topic`, and
/// the callback of every other topic is the one it had before.
pub proof fn lemma_subscribe_keeps_other_topics<S, C>(
    before: WsView<S, C>,
    topic: Seq<char>,
    callback: C,
    ready_state: Option<u16>,
    r: Result<Option<String>, StreamlineError>,
    after: WsView<S, C>,
    other: Seq<char>,
)
    requires
        subscribe_outcome(before, topic, callback, ready_state, r, after),
        topic_name_error(topic) is None,
    ensures
        lookup(after.topic_callbacks, topic) == Some(callback),
        other != topic ==> lookup(after.topic_callbacks, other) == lookup(before.topic_callbacks, other),
{
    let m = choose|m: String|
        m@ == message_json(MessageView::Subscribe { topic }) && #[trigger] persistent_outcome(
            WsView { topic_callbacks: upserted(before.topic_callbacks, topic, callback), ..before },
            subscription_key_of(topic),
            m,
            ready_state,
            r,
            after,
        );
    assert(after.topic_callbacks == upserted(before.topic_callbacks, topic, callback));
    lemma_upsert_lookup(before.topic_callbacks, topic, callback, other);
}

/// Unsubscribing from `topic` removes its callback and its replayed
/// subscription and leaves those of every other topic as they were.
pub proof fn lemma_unsubscribe_keeps_other_topics<S, C>(before: WsView<S, C>, topic: Seq<char>, other: Seq<char>)
    ensures
        lookup(removed(before.topic_callbacks, topic), topic) is None,
        lookup(removed(before.persistent_messages, subscription_key_of(topic)), subscription_key_of(topic)) is None,
        other != topic ==> lookup(removed(before.topic_callbacks, topic), other) == lookup(before.topic_callbacks, other),
        other != topic ==> lookup(removed(before.persistent_messages, subscription_key_of(topic)), subscription_key_of(other))
            == lookup(before.persistent_messages, subscription_key_of(other)),
{
    lemma_remove_lookup(before.topic_callbacks, topic, other);
    lemma_remove_lookup(before.persistent_messages, subscription_key_of(topic), subscription_key_of(other));
    if other != topic {
        reveal_strlit("subscription:");
        assert(subscription_key_of(other).subrange(13, subscription_key_of(other).len() as int) =~= other);
        assert(subscription_key_of(topic).subrange(13, subscription_key_of(topic).len() as int) =~= topic);
    }
}

/// High-level client: produces, subscribes with one callback per topic, and
/// administers topics over one connection.
pub struct StreamlineClient<S, C> {
    conn: WsConnection<S, C>,
}

impl<S, C> View for StreamlineClient<S, C> {
    type V = WsView<S, C>;

    closed spec fn view(&self) -> WsView<S, C> {
        self.conn@
    }
}

impl<S, C> StreamlineClient<S, C> {
    /// A client for the WebSocket URL `url`, not connected yet.
    pub fn new(url: &str) -> (c: Self)
        ensures
            is_fresh(c@, url@),
    {
        StreamlineClient { conn: WsConnection::new(url) }
    }

    /// The connection, for the event handlers of the embedding environment.
    pub fn connection(&self) -> (c: &WsConnection<S, C>)
        ensures
            c@ == self@,
    {
        &self.conn
    }

    /// The connection, for the event handlers of the embedding environment.
    pub fn connection_mut(&mut self) -> (c: &mut WsConnection<S, C>)
        ensures
            c@ == old(self)@,
            final(self)@ == final(c)@,
    {
        &mut self.conn
    }

    /// Close the connection on request; returns the socket to close.
    pub fn disconnect(&mut self) -> (closed: Option<S>)
        ensures
            closed == old(self)@.ws,
            final(self)@ == after_disconnect(old(self)@),
    {
        self.conn.disconnect()
    }

    /// Whether the connection is open (see `WsConnection::is_connected`).
    pub fn is_connected(&self, ready_state: Option<u16>) -> (b: bool)
        ensures
            b == (self@.state == ConnectionState::Connected && self@.ws is Some && is_open(ready_state)),
    {
        self.conn.is_connected(ready_state)
    }

    /// Produce `value` to `topic`, after checking the topic name: the text to
    /// write to the open socket.
    pub fn produce(
        &self,
        topic: &str,
        value: &str,
        ready_state: Option<u16>,
    ) -> (r: Result<String, StreamlineError>)
        ensures
            checked_frame(
                topic@,
                self@,
                ready_state,
                MessageView::Produce { topic: topic@, key: None, value: value@ },
                r,
            ),
    {
        self.produce_with_key(topic, None, value, ready_state)
    }

    /// Produce `value` with an optional `key` to `topic`, after checking the
    /// topic name: the text to write to the open socket.
    pub fn produce_with_key(
        &self,
        topic: &str,
        key: Option<String>,
        value: &str,
        ready_state: Option<u16>,
    ) -> (r: Result<String, StreamlineError>)
        ensures
            checked_frame(
                topic@,
                self@,
                ready_state,
                MessageView::Produce { topic: topic@, key: opt_view(key), value: value@ },
                r,
            ),
    {
        match check_topic(topic) {
            Err(e) => return Err(e),
            Ok(()) => {},
        }
        let msg = BrowserMessage::Produce { topic: String::from_str(topic), key, value: String::from_str(value) };
        self.conn.send_message(&msg, ready_state)
    }

    /// Subscribe to `topic`: after checking the topic name, `callback`
    /// becomes the callback of this topic (the callbacks of other topics
    /// stay), and the subscription is registered for replay on every
    /// (re)connection; when the socket is open its text is returned, to be
    /// written to it at once.
    pub fn subscribe(
        &mut self,
        topic: &str,
        callback: C,
        ready_state: Option<u16>,
    ) -> (r: Result<Option<String>, StreamlineError>)
        ensures
            subscribe_outcome(old(self)@, topic@, callback, ready_state, r, final(self)@),
    {
        match check_topic(topic) {
            Err(e) => return Err(e),
            Ok(()) => {},
        }
        let ghost before = self@;
        self.conn.set_topic_callback(topic, callback);
        let json = BrowserMessage::Subscribe { topic: String::from_str(topic) }.to_json().unwrap();
        let ghost m = json;
        let ghost mid = self@;
        let r = self.conn.send_persistent_when_ready(subscription_key(topic), json, ready_state);
        assert(persistent_outcome(mid, subscription_key_of(topic@), m, ready_state, r, self@));
        r
    }

    /// Unsubscribe from `topic`: its callback and its replayed subscription
    /// are dropped (other topics keep theirs), and the text of the
    /// unsubscribe message is returned, to be written to the open socket.
    pub fn unsubscribe(
        &mut self,
        topic: &str,
        ready_state: Option<u16>,
    ) -> (r: Result<String, StreamlineError>)
        ensures
            final(self)@ == (WsView {
                topic_callbacks: removed(old(self)@.topic_callbacks, topic@),
                persistent_messages: removed(old(self)@.persistent_messages, subscription_key_of(topic@)),
                ..old(self)@
            }),
            frame_outcome(old(self)@, ready_state, message_json(MessageView::Unsubscribe { topic: topic@ }), r),
    {
        self.conn.remove_topic_callback(topic);
        self.conn.remove_persistent_message(subscription_key(topic).as_str());
        let msg = BrowserMessage::Unsubscribe { topic: String::from_str(topic) };
        self.conn.send_message(&msg, ready_state)
    }

    /// Ask the server to create topic `name`, after checking the name: the
    /// text to write to the open socket.
    pub fn create_topic(
        &self,
        name: &str,
        partitions: Option<u32>,
        ready_state: Option<u16>,
    ) -> (r: Result<String, StreamlineError>)
        ensures
            checked_frame(
                name@,
                self@,
                ready_state,
                MessageView::Admin { action: ActionView::CreateTopic { name: name@, partitions } },
                r,
            ),
    {
        match check_topic(name) {
            Err(e) => return Err(e),
            Ok(()) => {},
        }
        let msg = BrowserMessage::Admin { action: AdminAction::CreateTopic { name: String::from_str(name), partitions } };
        self.conn.send_message(&msg, ready_state)
    }

    /// Ask the server to delete topic `name`, after checking the name: the
    /// text to write to the open socket.
    pub fn delete_topic(
        &self,
        name: &str,
        ready_state: Option<u16>,
    ) -> (r: Result<String, StreamlineError>)
        ensures
            checked_frame(
                name@,
                self@,
                ready_state,
                MessageView::Admin { action: ActionView::DeleteTopic { name: name@ } },
                r,
            ),
    {
        match check_topic(name) {
            Err(e) => return Err(e),
            Ok(()) => {},
        }
        let msg = BrowserMessage::Admin { action: AdminAction::DeleteTopic { name: String::from_str(name) } };
        self.conn.send_message(&msg, ready_state)
    }

    /// Ask the server for the list of topics: the text to write to the open
    /// socket.
    pub fn list_topics(&self, ready_state: Option<u16>) -> (r: Result<String, StreamlineError>)
        ensures
            frame_outcome(self@, ready_state, message_json(MessageView::Admin { action: ActionView::ListTopics }), r),
    {
        let msg = BrowserMessage::Admin { action: AdminAction::ListTopics };
        self.conn.send_message(&msg, ready_state)
    }

    /// Set the state-change callback; it is due at once with the returned
    /// current state.
    pub fn on_state_change(&mut self, callback: C) -> (current: ConnectionState)
        ensures
            current == old(self)@.state,
            final(self)@ == (WsView { on_state_change: Some(callback), ..old(self)@ }),
    {
        self.conn.set_on_state_change(callback)
    }

    /// Enable or disable automatic reconnection (enabled by default).
    pub fn set_auto_reconnect(&mut self, enabled: bool)
        ensures
            final(self)@ == (WsView { auto_reconnect: enabled, ..old(self)@ }),
    {
        self.conn.set_auto_reconnect(enabled);
    }

    /// Set the maximum number of reconnection attempts (default 5; 0 means
    /// no limit).
    pub fn set_max_reconnect_attempts(&mut self, max: u32)
        ensures
            final(self)@ == (WsView { max_reconnect_attempts: max as nat, ..old(self)@ }),
    {
        self.conn.set_max_reconnect_attempts(max);
    }

    /// Set the callback invoked when every reconnection attempt failed.
    pub fn on_reconnect_failed(&mut self, callback: C)
        ensures
            final(self)@ == (WsView { on_reconnect_failed: Some(callback), ..old(self)@ }),
    {
        self.conn.set_on_reconnect_failed(callback);
    }

    /// The current connection state.
    pub fn connection_state(&self) -> (s: ConnectionState)
        ensures
            s == self@.state,
    {
        self.conn.state()
    }
}

/// Topic administration over a WebSocket connection.
pub struct TopicAdmin<S, C> {
    conn: WsConnection<S, C>,
}

impl<S, C> View for TopicAdmin<S, C> {
    type V = WsView<S, C>;

    closed spec fn view(&self) -> WsView<S, C> {
        self.conn@
    }
}

impl<S, C> TopicAdmin<S, C> {
    /// An admin helper for the WebSocket URL `url`, not connected yet.
    pub fn new(url: &str) -> (a: Self)
        ensures
            is_fresh(a@, url@),
    {
        TopicAdmin { conn: WsConnection::new(url) }
    }

    /// The connection, for the event handlers of the embedding environment.
    pub fn connection(&self) -> (c: &WsConnection<S, C>)
        ensures
            c@ == self@,
    {
        &self.conn
    }

    /// The connection, for the event handlers of the embedding environment.
    pub fn connection_mut(&mut self) -> (c: &mut WsConnection<S, C>)
        ensures
            c@ == old(self)@,
            final(self)@ == final(c)@,
    {
        &mut self.conn
    }

    /// Whether the connection is open (see `WsConnection::is_connected`).
    pub fn is_connected(&self, ready_state: Option<u16>) -> (b: bool)
        ensures
            b == (self@.state == ConnectionState::Connected && self@.ws is Some && is_open(ready_state)),
    {
        self.conn.is_connected(ready_state)
    }

    /// The current connection state.
    pub fn connection_state(&self) -> (s: ConnectionState)
        ensures
            s == self@.state,
    {
        self.conn.state()
    }

    /// Set the state-change callback; it is due at once with the returned
    /// current state.
    pub fn on_state_change(&mut self, callback: C) -> (current: ConnectionState)
        ensures
            current == old(self)@.state,
            final(self)@ == (WsView { on_state_change: Some(callback), ..old(self)@ }),
    {
        self.conn.set_on_state_change(callback)
    }

    /// Ask the server to create topic `name`, after checking the name: the
    /// text to write to the open socket.
    pub fn create_topic(
        &self,
        name: &str,
        partitions: Option<u32>,
        ready_state: Option<u16>,
    ) -> (r: Result<String, StreamlineError>)
        ensures
            checked_frame(
                name@,
                self@,
                ready_state,
                MessageView::Admin { action: ActionView::CreateTopic { name: name@, partitions } },
                r,
            ),
    {
        match check_topic(name) {
            Err(e) => return Err(e),
            Ok(()) => {},
        }
        let msg = BrowserMessage::Admin { action: AdminAction::CreateTopic { name: String::from_str(name), partitions } };
        self.conn.send_message(&msg, ready_state)
    }

    /// Ask the server to delete topic `name`, after checking the name: the
    /// text to write to the open socket.
    pub fn delete_topic(
        &self,
        name: &str,
        ready_state: Option<u16>,
    ) -> (r: Result<String, StreamlineError>)
        ensures
            checked_frame(
                name@,
                self@,
                ready_state,
                MessageView::Admin { action: ActionView::DeleteTopic { name: name@ } },
                r,
            ),
    {
        match check_topic(name) {
            Err(e) => return Err(e),
            Ok(()) => {},
        }
        let msg = BrowserMessage::Admin { action: AdminAction::DeleteTopic { name: String::from_str(name) } };
        self.conn.send_message(&msg, ready_state)
    }

    /// Ask the server for the list of topics: the text to write to the open
    /// socket.
    pub fn list_topics(&self, ready_state: Option<u16>) -> (r: Result<String, StreamlineError>)
        ensures
            frame_outcome(self@, ready_state, message_json(MessageView::Admin { action: ActionView::ListTopics }), r),
    {
        let msg = BrowserMessage::Admin { action: AdminAction::ListTopics };
        self.conn.send_message(&msg, ready_state)
    }

    /// Set the callback that receives the server's responses.
    pub fn on_response(&mut self, callback: C)
        ensures
            final(self)@ == (WsView { on_message: Some(callback), ..old(self)@ }),
    {
        self.conn.set_on_message(callback);
    }

    /// Close the connection on request; returns the socket to close.
    pub fn disconnect(&mut self) -> (closed: Option<S>)
        ensures
            closed == old(self)@.ws,
            final(self)@ == after_disconnect(old(self)@),
    {
        self.conn.disconnect()
    }
}

} // verus!
