//! Consumer offset tracking.
//!
//! Offsets are tracked locally. This SDK has no wire protocol for the server
//! to acknowledge that an offset was durably committed, so committing (and
//! automatic committing) fails closed with `ErrorCode::Unsupported` instead
//! of pretending the broker stored the offset; the committed offset is
//! always -1.
use vstd::prelude::*;
use vstd::string::*;

use crate::error::{ErrorCode, SendError, StreamlineError};
use crate::json::{json_object, object_text, pairs_view};
use crate::protocol::{literal_pair, pair, string_pair, string_member, BrowserMessage, BrowserResponse, MessageView, message_json};
use crate::text::{push_signed_decimal, signed_decimal, trim_trailing_slashes};
use crate::http::HttpRequest;
use crate::moonshot::{topic_search_members, topic_search_post, topic_search_request};

verus! {

/// Why automatic commits are refused.
pub const AUTO_COMMIT_UNSUPPORTED: &'static str = "auto-commit is unavailable because offset commits have no broker acknowledgement protocol";

/// Why commits are refused.
pub const COMMIT_UNSUPPORTED: &'static str = "offset commit has no broker acknowledgement protocol in this SDK version; the broker's durable state is never confirmed, so commit() refuses to claim success";

/// Consumer of one topic with local offset tracking.
pub struct Consumer {
    url: String,
    topic: String,
    group_id: Option<String>,
    current_offset: i64,
    committed_offset: i64,
}

/// The abstract state of a consumer.
pub struct ConsumerView {
    /// The WebSocket URL the messages come from.
    pub url: Seq<char>,
    pub topic: Seq<char>,
    pub group_id: Option<Seq<char>>,
    /// The offset after the last message received.
    pub current_offset: int,
    /// The last offset confirmed as committed; -1 when none.
    pub committed_offset: int,
}

impl Consumer {
    /// Nothing is ever committed: no operation sets the committed offset.
    #[verifier::type_invariant]
    spec fn nothing_committed(self) -> bool {
        self.committed_offset == -1
    }
}

impl View for Consumer {
    type V = ConsumerView;

    closed spec fn view(&self) -> ConsumerView {
        ConsumerView {
            url: self.url@,
            topic: self.topic@,
            group_id: crate::protocol::opt_view(self.group_id),
            current_offset: self.current_offset as int,
            committed_offset: self.committed_offset as int,
        }
    }
}

/// The current offset after a message with `offset` arrived: one past it,
/// unless an offset at least as far is already current.
pub open spec fn advanced(current: int, offset: int) -> int {
    if offset >= current { offset + 1 } else { current }
}

/// The key under which a topic's subscription is kept for replay.
pub open spec fn subscription_key_of(topic: Seq<char>) -> Seq<char> {
    "subscription:"@ + topic
}

/// The key under which a topic's subscription is kept for replay.
pub fn subscription_key(topic: &str) -> (k: String)
    ensures
        k@ == subscription_key_of(topic@),
{
    let mut k = String::from_str("subscription:");
    k.append(topic);
    k
}

/// The JSON members of a subscription that names a consumer group.
pub open spec fn group_subscribe_members(topic: Seq<char>, group: Seq<char>) -> Seq<(Seq<char>, Seq<char>)> {
    seq![string_member("group_id"@, group), string_member("topic"@, topic), ("type"@, "\"subscribe\""@)]
}

/// The JSON members of a seek request.
pub open spec fn seek_members(topic: Seq<char>, offset: int) -> Seq<(Seq<char>, Seq<char>)> {
    seq![("offset"@, signed_decimal(offset)), string_member("topic"@, topic), ("type"@, "\"seek\""@)]
}

impl Consumer {
    /// Create a consumer of `topic` at the WebSocket URL `url`, at offset 0
    /// with nothing committed.
    pub fn new(url: &str, topic: &str) -> (c: Self)
        ensures
            c@ == (ConsumerView { url: url@, topic: topic@, group_id: None, current_offset: 0, committed_offset: -1 }),
    {
        Consumer {
            url: String::from_str(url),
            topic: String::from_str(topic),
            group_id: None,
            current_offset: 0,
            committed_offset: -1,
        }
    }

    /// The WebSocket URL the messages come from.
    pub fn url(&self) -> (u: &str)
        ensures
            u@ == self@.url,
    {
        self.url.as_str()
    }

    /// The consumed topic.
    pub fn topic(&self) -> (t: &str)
        ensures
            t@ == self@.topic,
    {
        self.topic.as_str()
    }

    /// Set the consumer group, sent with the subscription for server-side
    /// coordination.
    pub fn set_group_id(&mut self, group_id: &str)
        ensures
            final(self)@ == (ConsumerView { group_id: Some(group_id@), ..old(self)@ }),
    {
        proof {
            use_type_invariant(&*self);
        }
        self.group_id = Some(String::from_str(group_id));
    }

    /// The consumer group, if set.
    pub fn group_id(&self) -> (g: Option<String>)
        ensures
            crate::protocol::opt_view(g) == self@.group_id,
    {
        match &self.group_id {
            Some(g) => Some(g.clone()),
            None => None,
        }
    }

    /// The current offset: one past the last message received.
    pub fn current_offset(&self) -> (o: i64)
        ensures
            o == self@.current_offset,
    {
        self.current_offset
    }

    /// The last committed offset; always -1, whatever was received, sought
    /// or asked to be committed, as commits are unsupported.
    pub fn committed_offset(&self) -> (o: i64)
        ensures
            o == self@.committed_offset,
            o == -1,
    {
        proof {
            use_type_invariant(self);
        }
        self.committed_offset
    }

    /// Configure automatic commits: an interval of 0 (disabled) is accepted;
    /// any other interval fails closed with `Unsupported`.
    pub fn set_auto_commit(&self, interval: u32) -> (r: Result<(), StreamlineError>)
        ensures
            interval == 0 <==> r is Ok,
            r matches Err(e) ==> e.is(ErrorCode::Unsupported, AUTO_COMMIT_UNSUPPORTED@, false),
    {
        if interval == 0 {
            return Ok(());
        }
        Err(StreamlineError::unsupported(AUTO_COMMIT_UNSUPPORTED))
    }

    /// Record that a message with `offset` arrived. Never commits.
    pub fn advance_offset(&mut self, offset: i64) -> (r: Result<(), StreamlineError>)
        requires
            !(offset >= old(self)@.current_offset && offset == i64::MAX),
        ensures
            r is Ok,
            final(self)@ == (ConsumerView { current_offset: advanced(old(self)@.current_offset, offset as int), ..old(self)@ }),
    {
        proof {
            use_type_invariant(&*self);
        }
        if offset >= self.current_offset {
            self.current_offset = offset + 1;
        }
        Ok(())
    }

    /// A response arrived for the consumed topic: a message moves the
    /// current offset past its offset (read as a signed 64-bit offset, as
    /// the wire's unsigned value is cast); any other response changes
    /// nothing.
    pub fn record_delivery(&mut self, response: &BrowserResponse)
        requires
            response matches BrowserResponse::Message { offset, .. } ==> !((offset as i64) >= old(self)@.current_offset
                && (offset as i64) == i64::MAX),
        ensures
            final(self)@ == match response {
                BrowserResponse::Message { offset, .. } => ConsumerView {
                    current_offset: advanced(old(self)@.current_offset, (*offset as i64) as int),
                    ..old(self)@
                },
                _ => old(self)@,
            },
    {
        match response {
            BrowserResponse::Message { offset, .. } => {
                let o: i64 = *offset as i64;
                let _ = self.advance_offset(o);
            },
            _ => {},
        }
    }

    /// Commit the current offset. Always fails closed with `Unsupported`,
    /// leaving both offsets unchanged.
    pub fn commit(&self) -> (r: Result<(), StreamlineError>)
        ensures
            r matches Err(e) && e.is(ErrorCode::Unsupported, COMMIT_UNSUPPORTED@, false),
    {
        Err(StreamlineError::unsupported(COMMIT_UNSUPPORTED))
    }

    /// Commit a specific offset. Always fails closed, as `commit` does.
    pub fn commit_offset(&self, offset: i64) -> (r: Result<(), StreamlineError>)
        ensures
            r matches Err(e) && e.is(ErrorCode::Unsupported, COMMIT_UNSUPPORTED@, false),
    {
        Err(StreamlineError::unsupported(COMMIT_UNSUPPORTED))
    }

    /// The subscription sent when consuming starts: with a consumer group it
    /// names the group, otherwise it is a plain subscribe message.
    pub fn subscribe_frame(&self) -> (j: String)
        ensures
            j@ == match self@.group_id {
                Some(g) => object_text(group_subscribe_members(self@.topic, g)),
                None => message_json(MessageView::Subscribe { topic: self@.topic }),
            },
    {
        match &self.group_id {
            Some(g) => {
                let mut ms: Vec<(String, String)> = Vec::new();
                ms.push(string_pair("group_id", g.as_str()));
                ms.push(string_pair("topic", self.topic.as_str()));
                ms.push(literal_pair("type", "\"subscribe\""));
                assert(pairs_view(ms@) =~= group_subscribe_members(self@.topic, g@));
                json_object(&ms)
            },
            None => BrowserMessage::Subscribe { topic: self.topic.clone() }.to_json().unwrap(),
        }
    }

    /// The unsubscribe message sent when consuming stops.
    pub fn unsubscribe_frame(&self) -> (j: String)
        ensures
            j@ == message_json(MessageView::Unsubscribe { topic: self@.topic }),
    {
        BrowserMessage::Unsubscribe { topic: self.topic.clone() }.to_json().unwrap()
    }

    /// The request that moves the consumer to `offset`.
    pub fn seek_frame(&self, offset: i64) -> (j: String)
        ensures
            j@ == object_text(seek_members(self@.topic, offset as int)),
    {
        let mut n = String::new();
        push_signed_decimal(&mut n, offset);
        let mut ms: Vec<(String, String)> = Vec::new();
        ms.push(pair("offset", n));
        ms.push(string_pair("topic", self.topic.as_str()));
        ms.push(literal_pair("type", "\"seek\""));
        assert(pairs_view(ms@) =~= seek_members(self@.topic, offset as int));
        json_object(&ms)
    }

    /// The request that moves the consumer to `offset`: refused with
    /// `NotConnected` unless the connection is open (`connected`); otherwise
    /// the seek text to send. Nothing moves until `record_seek` has the
    /// socket's answer.
    pub fn seek(&self, connected: bool, offset: i64) -> (r: Result<String, StreamlineError>)
        ensures
            !connected ==> (r matches Err(e) && e.is(ErrorCode::NotConnected, "WebSocket is not connected"@, true)),
            connected ==> (r matches Ok(t) && t@ == object_text(seek_members(self@.topic, offset as int))),
    {
        if !connected {
            return Err(StreamlineError::not_connected());
        }
        Ok(self.seek_frame(offset))
    }

    /// The socket's answer for the seek request to `offset`: once it was
    /// sent the next message is expected at `offset` (which may be behind
    /// the current one); a failure leaves the offsets as they were and is
    /// returned.
    pub fn record_seek<E>(&mut self, offset: i64, answer: Result<(), E>) -> (r: Result<(), SendError<E>>)
        ensures
            answer is Ok ==> r is Ok && final(self)@ == (ConsumerView { current_offset: offset as int, ..old(self)@ }),
            answer matches Err(e) ==> r == Err::<(), SendError<E>>(SendError::Transport(e)) && final(self)@ == old(self)@,
    {
        proof {
            use_type_invariant(&*self);
        }
        match answer {
            Ok(()) => {
                self.current_offset = offset;
                Ok(())
            },
            Err(e) => Err(SendError::Transport(e)),
        }
    }

    /// `POST {base_url}/api/v1/topics/{topic}/search` for the `k` best hits
    /// of `query` within the consumed topic. The query must not be empty and
    /// `k` must be positive.
    pub fn search_request(&self, base_url: &str, query: &str, k: u32) -> (r: Result<HttpRequest, String>)
        ensures
            query@.len() == 0 ==> (r matches Err(m) && m@ == "query is required"@),
            query@.len() > 0 && k == 0 ==> (r matches Err(m) && m@ == "k must be > 0"@),
            query@.len() > 0 && k > 0 ==> (r matches Ok(q) && q@ == topic_search_post(
                trim_trailing_slashes(base_url@) + "/api/v1/topics/"@ + self@.topic + "/search"@,
                object_text(topic_search_members(query@, k)),
            )),
    {
        topic_search_request(base_url, self.topic.as_str(), query, k)
    }
}

/// The current offset never moves back, always passes every offset
/// received, and receiving the same offset again changes nothing.
pub proof fn lemma_offset_monotone(current: int, offset: int)
    ensures
        advanced(current, offset) >= current,
        advanced(current, offset) > offset,
        advanced(advanced(current, offset), offset) == advanced(current, offset),
{
}

} // verus!
