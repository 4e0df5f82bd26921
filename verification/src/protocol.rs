//! Wire protocol between the browser client and the Streamline server.
//!
//! Client messages are JSON objects whose `type` member names the kind of
//! message, written in snake case, followed by the message's fields in
//! declaration order; optional fields that are absent are left out.
use vstd::prelude::*;
use vstd::string::*;

use crate::error::StreamlineError;
use crate::json::{json_object, json_string, object_text, pairs_view, quote_json};
use crate::text::{decimal, push_decimal};

verus! {

/// Messages sent from the browser client to the Streamline server.
#[derive(Debug, Clone)]
pub enum BrowserMessage {
    Produce { topic: String, key: Option<String>, value: String },
    Consume { topic: String, group_id: Option<String> },
    Subscribe { topic: String },
    Unsubscribe { topic: String },
    Admin { action: AdminAction },
}

/// Administrative actions for topic management.
#[derive(Debug, Clone)]
pub enum AdminAction {
    CreateTopic { name: String, partitions: Option<u32> },
    DeleteTopic { name: String },
    ListTopics,
}

/// Responses received from the Streamline server.
#[derive(Debug, Clone)]
pub enum BrowserResponse {
    Message { topic: String, key: Option<String>, value: String, offset: u64, timestamp: u64 },
    Ack { topic: Option<String>, offset: Option<u64> },
    TopicList { topics: Vec<TopicInfo> },
    Error { code: u32, message: String },
}

/// Metadata about a topic.
#[derive(Debug, Clone)]
pub struct TopicInfo {
    pub name: String,
    pub partitions: u32,
}

/// Wire protocol message format version.
#[derive(Debug, Clone, Copy, PartialEq, Eq, Structural)]
pub enum MessageFormat {
    /// Legacy message format (v0/v1)
    Legacy,
    /// Record batch format (v2+)
    RecordBatch,
}

/// The format that a magic byte announces.
pub open spec fn format_of_magic(magic: u8) -> Option<MessageFormat> {
    if magic == 0 || magic == 1 {
        Some(MessageFormat::Legacy)
    } else if magic == 2 {
        Some(MessageFormat::RecordBatch)
    } else {
        None
    }
}

impl MessageFormat {
    /// Returns the format for a given magic byte value.
    pub fn from_magic(magic: u8) -> (r: Option<Self>)
        ensures
            r == format_of_magic(magic),
    {
        match magic {
            0 | 1 => Some(MessageFormat::Legacy),
            2 => Some(MessageFormat::RecordBatch),
            _ => None,
        }
    }
}

/// The view of an optional string.
pub open spec fn opt_view(o: Option<String>) -> Option<Seq<char>> {
    match o {
        Some(s) => Some(s@),
        None => None,
    }
}

/// The abstract content of an admin action.
pub enum ActionView {
    CreateTopic { name: Seq<char>, partitions: Option<u32> },
    DeleteTopic { name: Seq<char> },
    ListTopics,
}

/// The abstract content of a client message.
pub enum MessageView {
    Produce { topic: Seq<char>, key: Option<Seq<char>>, value: Seq<char> },
    Consume { topic: Seq<char>, group_id: Option<Seq<char>> },
    Subscribe { topic: Seq<char> },
    Unsubscribe { topic: Seq<char> },
    Admin { action: ActionView },
}

impl View for AdminAction {
    type V = ActionView;

    open spec fn view(&self) -> ActionView {
        match self {
            AdminAction::CreateTopic { name, partitions } => ActionView::CreateTopic { name: name@, partitions: *partitions },
            AdminAction::DeleteTopic { name } => ActionView::DeleteTopic { name: name@ },
            AdminAction::ListTopics => ActionView::ListTopics,
        }
    }
}

impl View for BrowserMessage {
    type V = MessageView;

    open spec fn view(&self) -> MessageView {
        match self {
            BrowserMessage::Produce { topic, key, value } => MessageView::Produce { topic: topic@, key: opt_view(*key), value: value@ },
            BrowserMessage::Consume { topic, group_id } => MessageView::Consume { topic: topic@, group_id: opt_view(*group_id) },
            BrowserMessage::Subscribe { topic } => MessageView::Subscribe { topic: topic@ },
            BrowserMessage::Unsubscribe { topic } => MessageView::Unsubscribe { topic: topic@ },
            BrowserMessage::Admin { action } => MessageView::Admin { action: action@ },
        }
    }
}

/// A member whose value is a JSON string: the quoted text of `s`.
pub open spec fn string_member(key: Seq<char>, s: Seq<char>) -> (Seq<char>, Seq<char>) {
    (key, json_string(s))
}

/// The members of the JSON object for an admin action.
pub open spec fn action_members(a: ActionView) -> Seq<(Seq<char>, Seq<char>)> {
    match a {
        ActionView::CreateTopic { name, partitions } =>
            seq![("action"@, "\"create_topic\""@), string_member("name"@, name)]
                + match partitions {
                Some(p) => seq![("partitions"@, decimal(p as nat))],
                None => seq![],
            },
        ActionView::DeleteTopic { name } =>
            seq![("action"@, "\"delete_topic\""@), string_member("name"@, name)],
        ActionView::ListTopics => seq![("action"@, "\"list_topics\""@)],
    }
}

/// The members of the JSON object for a client message.
pub open spec fn message_members(m: MessageView) -> Seq<(Seq<char>, Seq<char>)> {
    match m {
        MessageView::Produce { topic, key, value } =>
            seq![("type"@, "\"produce\""@), string_member("topic"@, topic)]
                + match key {
                Some(k) => seq![string_member("key"@, k)],
                None => seq![],
            } + seq![string_member("value"@, value)],
        MessageView::Consume { topic, group_id } =>
            seq![("type"@, "\"consume\""@), string_member("topic"@, topic)]
                + match group_id {
                Some(g) => seq![string_member("group_id"@, g)],
                None => seq![],
            },
        MessageView::Subscribe { topic } =>
            seq![("type"@, "\"subscribe\""@), string_member("topic"@, topic)],
        MessageView::Unsubscribe { topic } =>
            seq![("type"@, "\"unsubscribe\""@), string_member("topic"@, topic)],
        MessageView::Admin { action } =>
            seq![("type"@, "\"admin\""@), ("action"@, object_text(action_members(action)))],
    }
}

/// The JSON text of a client message.
pub open spec fn message_json(m: MessageView) -> Seq<char> {
    object_text(message_members(m))
}

/// Quote `s` as a JSON string.
pub fn quoted(s: &str) -> (q: String)
    ensures
        q@ == json_string(s@),
{
    quote_json(s).unwrap()
}

/// A (key, encoded value) pair with a literal key.
pub fn pair(key: &str, value: String) -> (p: (String, String))
    ensures
        p.0@ == key@,
        p.1@ == value@,
{
    (String::from_str(key), value)
}

/// A (key, quoted string) pair.
pub fn string_pair(key: &str, s: &str) -> (p: (String, String))
    ensures
        (p.0@, p.1@) == string_member(key@, s@),
{
    pair(key, quoted(s))
}

/// A (key, literal encoded value) pair.
pub fn literal_pair(key: &str, value: &str) -> (p: (String, String))
    ensures
        p.0@ == key@,
        p.1@ == value@,
{
    (String::from_str(key), String::from_str(value))
}

/// The decimal text of `n`.
pub fn decimal_string(n: u64) -> (s: String)
    ensures
        s@ == decimal(n as nat),
{
    let mut s = String::new();
    push_decimal(&mut s, n);
    s
}

impl AdminAction {
    /// Encode this action as the JSON object the server expects.
    pub fn to_json(&self) -> (r: Result<String, StreamlineError>)
        ensures
            r matches Ok(j) && j@ == object_text(action_members(self@)),
    {
        let mut ms: Vec<(String, String)> = Vec::new();
        match self {
            AdminAction::CreateTopic { name, partitions } => {
                ms.push(literal_pair("action", "\"create_topic\""));
                ms.push(string_pair("name", name.as_str()));
                match partitions {
                    Some(p) => ms.push(pair("partitions", decimal_string(*p as u64))),
                    None => {},
                }
            },
            AdminAction::DeleteTopic { name } => {
                ms.push(literal_pair("action", "\"delete_topic\""));
                ms.push(string_pair("name", name.as_str()));
            },
            AdminAction::ListTopics => {
                ms.push(literal_pair("action", "\"list_topics\""));
            },
        }
        assert(pairs_view(ms@) =~= action_members(self@));
        Ok(json_object(&ms))
    }
}

impl BrowserMessage {
    /// Encode this message as the JSON text sent over the WebSocket.
    pub fn to_json(&self) -> (r: Result<String, StreamlineError>)
        ensures
            r matches Ok(j) && j@ == message_json(self@),
    {
        let mut ms: Vec<(String, String)> = Vec::new();
        match self {
            BrowserMessage::Produce { topic, key, value } => {
                ms.push(literal_pair("type", "\"produce\""));
                ms.push(string_pair("topic", topic.as_str()));
                match key {
                    Some(k) => ms.push(string_pair("key", k.as_str())),
                    None => {},
                }
                ms.push(string_pair("value", value.as_str()));
            },
            BrowserMessage::Consume { topic, group_id } => {
                ms.push(literal_pair("type", "\"consume\""));
                ms.push(string_pair("topic", topic.as_str()));
                match group_id {
                    Some(g) => ms.push(string_pair("group_id", g.as_str())),
                    None => {},
                }
            },
            BrowserMessage::Subscribe { topic } => {
                ms.push(literal_pair("type", "\"subscribe\""));
                ms.push(string_pair("topic", topic.as_str()));
            },
            BrowserMessage::Unsubscribe { topic } => {
                ms.push(literal_pair("type", "\"unsubscribe\""));
                ms.push(string_pair("topic", topic.as_str()));
            },
            BrowserMessage::Admin { action } => {
                ms.push(literal_pair("type", "\"admin\""));
                let a = action.to_json().unwrap();
                ms.push(pair("action", a));
            },
        }
        assert(pairs_view(ms@) =~= message_members(self@));
        Ok(json_object(&ms))
    }
}

} // verus!
