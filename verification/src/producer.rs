//! Producer batching and transactions.
//!
//! Messages accumulate in a batch that is flushed, in order, when it reaches
//! `batch_size` or when a flush is asked for. The producer decides what goes
//! out, one step at a time: `next_send` gives the text of the next message
//! to send, and `record_send` takes the answer of the socket it was written
//! to. Writing to the socket is left to the embedding environment.
use vstd::prelude::*;
use vstd::string::*;

use crate::error::{ErrorCode, SendError, StreamlineError};
use crate::protocol::{message_json, opt_view, BrowserMessage, MessageView};
use crate::validation::{topic_name_error, validate_topic_name};

verus! {

/// Default number of messages that triggers an automatic flush.
pub const DEFAULT_BATCH_SIZE: usize = 100;

/// Producer handle with batching and transactions.
pub struct Producer {
    url: String,
    default_topic: Option<String>,
    batch: Vec<BrowserMessage>,
    batch_size: usize,
    sent_count: u32,
    error_count: u32,
    in_transaction: bool,
    transaction_buffer: Vec<(String, Option<String>, String)>,
    appended: Ghost<Seq<MessageView>>,
    accepted: Ghost<Seq<MessageView>>,
}

/// A message buffered in a transaction: value, key and topic.
pub type BufferedView = (Seq<char>, Option<Seq<char>>, Seq<char>);

/// The abstract state of a producer.
pub struct ProducerView {
    /// The WebSocket URL the messages go to.
    pub url: Seq<char>,
    pub default_topic: Option<Seq<char>>,
    pub batch: Seq<MessageView>,
    pub batch_size: nat,
    /// Messages sent since creation, counted modulo 2^32.
    pub sent_count: u32,
    /// Failed flushes since creation, counted modulo 2^32.
    pub error_count: u32,
    pub in_transaction: bool,
    pub transaction_buffer: Seq<BufferedView>,
    /// Every message added to the batch since creation, in order.
    pub appended: Seq<MessageView>,
    /// Every message the socket accepted since creation, in order.
    pub accepted: Seq<MessageView>,
}

impl View for Producer {
    type V = ProducerView;

    closed spec fn view(&self) -> ProducerView {
        ProducerView {
            url: self.url@,
            default_topic: opt_view(self.default_topic),
            batch: self.batch@.map_values(|m: BrowserMessage| m@),
            batch_size: self.batch_size as nat,
            sent_count: self.sent_count,
            error_count: self.error_count,
            in_transaction: self.in_transaction,
            transaction_buffer: self.transaction_buffer@.map_values(
                |b: (String, Option<String>, String)| (b.0@, opt_view(b.1), b.2@),
            ),
            appended: self.appended@,
            accepted: self.accepted@,
        }
    }
}

/// The topic a message goes to: the one given, else the default topic.
pub open spec fn resolved_topic(topic: Option<Seq<char>>, default: Option<Seq<char>>) -> Option<Seq<char>> {
    match topic {
        Some(t) => Some(t),
        None => default,
    }
}

/// The outcome of adding a message with `key` and `value` for `topic` to
/// the batch: refused without a topic or with an invalid topic name, and
/// nothing changes; otherwise the message is appended, and `Ok(full)` tells
/// whether the batch has reached its size, so that a flush is due.
pub open spec fn enqueue_outcome(
    before: ProducerView,
    key: Option<Seq<char>>,
    value: Seq<char>,
    topic: Option<Seq<char>>,
    result: Result<bool, StreamlineError>,
    after: ProducerView,
) -> bool {
    match resolved_topic(topic, before.default_topic) {
        None => after == before && (result matches Err(e)
            && e.is(ErrorCode::ProduceError, "produce failed: no topic specified"@, true)),
        Some(t) => match topic_name_error(t) {
            Some(msg) => after == before && (result matches Err(e)
                && e.is(ErrorCode::ConfigurationError, msg, false)),
            None => {
                let m = MessageView::Produce { topic: t, key, value };
                &&& after == (ProducerView {
                    batch: before.batch.push(m),
                    appended: before.appended.push(m),
                    ..before
                })
                &&& result == Ok::<bool, StreamlineError>(after.batch.len() >= before.batch_size)
            },
        },
    }
}

/// The state after the socket accepted the first message of the batch: it
/// leaves the batch, joins the accepted messages and is counted as sent.
pub open spec fn sent_first(before: ProducerView) -> ProducerView {
    ProducerView {
        batch: before.batch.drop_first(),
        accepted: before.accepted.push(before.batch[0]),
        sent_count: vstd::wrapping::u32_specs::wrapping_add(before.sent_count, 1u32),
        ..before
    }
}

/// Every message added to the batch was either accepted by the socket or
/// still waits in the batch: the accepted messages followed by the batch
/// are exactly the messages added, in order.
pub open spec fn history_consistent(v: ProducerView) -> bool {
    v.appended == v.accepted + v.batch
}

/// In a consistent history nothing is sent twice and nothing is skipped:
/// the accepted messages are the first messages added, in order, the batch
/// holds the rest, in order, and the pending count is the difference.
pub proof fn lemma_history_accepted_prefix(v: ProducerView)
    requires
        history_consistent(v),
    ensures
        v.accepted.len() <= v.appended.len(),
        v.accepted == v.appended.take(v.accepted.len() as int),
        v.batch == v.appended.skip(v.accepted.len() as int),
        v.batch.len() == v.appended.len() - v.accepted.len(),
{
    assert(v.accepted =~= v.appended.take(v.accepted.len() as int));
    assert(v.batch =~= v.appended.skip(v.accepted.len() as int));
}

/// A flush goes through the batch in order: after `k` messages were
/// accepted one after another (each step `sent_first` of the one before),
/// exactly the first `k` messages of the batch were handed out, in order and
/// once each, they joined the accepted messages in that order, the rest of
/// the batch waits unchanged, and nothing was added.
pub proof fn lemma_sends_follow_batch(states: Seq<ProducerView>, k: nat)
    requires
        states.len() == k + 1,
        k <= states[0].batch.len(),
        forall|i: int| 0 <= i < k ==> states[i].batch.len() > 0 && #[trigger] states[i + 1] == sent_first(states[i]),
    ensures
        forall|i: int| 0 <= i < k ==> message_json(#[trigger] states[i].batch[0]) == message_json(states[0].batch[i]),
        states[k as int].batch == states[0].batch.skip(k as int),
        states[k as int].accepted == states[0].accepted + states[0].batch.take(k as int),
        states[k as int].appended == states[0].appended,
    decreases k,
{
    if k > 0 {
        let j = (k - 1) as nat;
        lemma_sends_follow_batch(states.take(k as int), j);
        assert(states.take(k as int)[j as int] == states[j as int]);
        assert(states[k as int] == sent_first(states[j as int]));
        assert(states[k as int].batch =~= states[0].batch.skip(k as int));
        assert(states[k as int].accepted =~= states[0].accepted + states[0].batch.take(k as int));
        assert forall|i: int| 0 <= i < k implies message_json(#[trigger] states[i].batch[0]) == message_json(states[0].batch[i]) by {
            if i < j {
                assert(states.take(k as int)[i] == states[i]);
            } else {
                assert(states[j as int].batch[0] == states[0].batch[j as int]);
            }
        }
    } else {
        assert(states[0].batch.skip(0) =~= states[0].batch);
        assert(states[0].accepted + states[0].batch.take(0) =~= states[0].accepted);
    }
}

/// A transaction being committed: its buffered messages, in order, and how
/// many of them were added to the batch so far.
pub struct CommitRun {
    items: Vec<(String, Option<String>, String)>,
    next: usize,
}

/// The abstract state of a commit.
pub struct CommitView {
    pub items: Seq<BufferedView>,
    pub next: nat,
}

impl View for CommitRun {
    type V = CommitView;

    closed spec fn view(&self) -> CommitView {
        CommitView {
            items: self.items@.map_values(
                |b: (String, Option<String>, String)| (b.0@, opt_view(b.1), b.2@),
            ),
            next: self.next as nat,
        }
    }
}

/// One step of a commit.
#[derive(Debug, PartialEq, Eq)]
pub enum CommitStep {
    /// A buffered message was added to the batch; when `flush_due` the batch
    /// is full and is flushed before the next step.
    Added { flush_due: bool },
    /// Every buffered message was added; this many in all.
    Done(u32),
}

/// The outcome of one commit step from `before` and `run`: when every
/// buffered message was added, the commit is done with their number;
/// otherwise the next buffered message is added to the batch as `send` and
/// `send_keyed` add one, and the commit moves past it. A refused message
/// ends the commit with its error; the messages after it are dropped.
pub open spec fn commit_step_outcome(
    before: ProducerView,
    run: CommitView,
    result: Result<CommitStep, StreamlineError>,
    after: ProducerView,
    run_after: CommitView,
) -> bool {
    if run.next >= run.items.len() {
        &&& after == before
        &&& run_after == run
        &&& result == Ok::<CommitStep, StreamlineError>(CommitStep::Done(run.items.len() as u32))
    } else {
        let b = run.items[run.next as int];
        &&& run_after == (CommitView { next: run.next + 1, ..run })
        &&& match result {
            Ok(CommitStep::Added { flush_due }) => enqueue_outcome(before, b.1, b.0, Some(b.2), Ok(flush_due), after),
            Err(e) => enqueue_outcome(before, b.1, b.0, Some(b.2), Err(e), after),
            Ok(CommitStep::Done(_)) => false,
        }
    }
}

impl Producer {
    /// Create a producer for the WebSocket URL `url`, optionally bound to a
    /// default topic.
    pub fn new(url: &str, default_topic: Option<String>) -> (p: Self)
        ensures
            p@ == (ProducerView {
                url: url@,
                default_topic: opt_view(default_topic),
                batch: Seq::empty(),
                batch_size: DEFAULT_BATCH_SIZE as nat,
                sent_count: 0,
                error_count: 0,
                in_transaction: false,
                transaction_buffer: Seq::empty(),
                appended: Seq::empty(),
                accepted: Seq::empty(),
            }),
            history_consistent(p@),
    {
        let p = Producer {
            url: String::from_str(url),
            default_topic,
            batch: Vec::new(),
            batch_size: DEFAULT_BATCH_SIZE,
            sent_count: 0,
            error_count: 0,
            in_transaction: false,
            transaction_buffer: Vec::new(),
            appended: Ghost(Seq::empty()),
            accepted: Ghost(Seq::empty()),
        };
        assert(p@.batch =~= Seq::<MessageView>::empty());
        assert(p@.transaction_buffer =~= Seq::<BufferedView>::empty());
        assert(p@.appended =~= p@.accepted + p@.batch);
        p
    }

    /// The WebSocket URL the messages go to.
    pub fn url(&self) -> (u: &str)
        ensures
            u@ == self@.url,
    {
        self.url.as_str()
    }

    /// Set the batch size that triggers an automatic flush.
    pub fn set_batch_size(&mut self, size: usize)
        ensures
            final(self)@ == (ProducerView { batch_size: size as nat, ..old(self)@ }),
    {
        self.batch_size = size;
    }

    /// The number of messages waiting in the batch.
    pub fn pending_count(&self) -> (n: usize)
        ensures
            n == self@.batch.len(),
    {
        self.batch.len()
    }

    /// Messages sent since creation (modulo 2^32).
    pub fn total_sent(&self) -> (n: u32)
        ensures
            n == self@.sent_count,
    {
        self.sent_count
    }

    /// Failed flushes since creation (modulo 2^32).
    pub fn total_errors(&self) -> (n: u32)
        ensures
            n == self@.error_count,
    {
        self.error_count
    }

    /// The text to send next while flushing: the JSON of the first message
    /// of the batch, or `None` when the batch is empty and the flush is
    /// complete.
    pub fn next_send(&self) -> (t: Option<String>)
        ensures
            (t is None) == (self@.batch.len() == 0),
            t matches Some(s) ==> s@ == message_json(self@.batch[0]),
    {
        if self.batch.len() == 0 {
            return None;
        }
        assert(self@.batch[0] == self.batch@[0]@);
        Some(self.batch[0].to_json().unwrap())
    }

    /// Take the socket's answer for the text `next_send` gave. Accepted: the
    /// first message leaves the batch, joins the accepted messages and is
    /// counted, and the flush goes on (`None`). Refused: the flush stops with
    /// that error (`Some`); the message stays first in the batch, with every
    /// later one after it in order, for a retry, and one failed flush is
    /// counted.
    pub fn record_send<E>(&mut self, answer: Result<(), E>) -> (stop: Option<SendError<E>>)
        requires
            old(self)@.batch.len() > 0,
        ensures
            answer is Ok ==> stop is None && final(self)@ == sent_first(old(self)@),
            answer matches Err(e) ==> stop == Some(SendError::Transport(e)) && final(self)@ == (ProducerView {
                error_count: vstd::wrapping::u32_specs::wrapping_add(old(self)@.error_count, 1u32),
                ..old(self)@
            }),
            history_consistent(old(self)@) ==> history_consistent(final(self)@),
    {
        match answer {
            Ok(()) => {
                let ghost before = self@;
                let first = self.batch.remove(0);
                self.accepted = Ghost(self.accepted@.push(first@));
                self.sent_count = self.sent_count.wrapping_add(1);
                assert(self@.batch =~= before.batch.drop_first());
                assert(self@.accepted + self@.batch =~= before.accepted + before.batch);
                None
            },
            Err(e) => {
                self.error_count = self.error_count.wrapping_add(1);
                Some(SendError::Transport(e))
            },
        }
    }

    fn enqueue(&mut self, key: Option<String>, value: &str, topic: Option<String>) -> (r: Result<bool, StreamlineError>)
        ensures
            enqueue_outcome(old(self)@, opt_view(key), value@, opt_view(topic), r, final(self)@),
            history_consistent(old(self)@) ==> history_consistent(final(self)@),
    {
        let t = match topic {
            Some(t) => t,
            None => match &self.default_topic {
                Some(d) => d.clone(),
                None => {
                    proof {
                        reveal_strlit("produce failed: ");
                        reveal_strlit("no topic specified");
                        reveal_strlit("produce failed: no topic specified");
                        assert("produce failed: "@ + "no topic specified"@ =~= "produce failed: no topic specified"@);
                    }
                    return Err(StreamlineError::produce_error("no topic specified"));
                },
            },
        };
        match validate_topic_name(t.as_str()) {
            Ok(()) => {},
            Err(msg) => return Err(StreamlineError::configuration(msg.as_str())),
        }
        let ghost tv = t@;
        let ghost kv = opt_view(key);
        let ghost m = MessageView::Produce { topic: tv, key: kv, value: value@ };
        let msg = BrowserMessage::Produce { topic: t, key, value: String::from_str(value) };
        let ghost before = self@;
        self.batch.push(msg);
        self.appended = Ghost(self.appended@.push(m));
        assert(self@.batch =~= before.batch.push(m));
        assert(before.appended == before.accepted + before.batch ==> self@.appended =~= self@.accepted + self@.batch);
        Ok(self.batch.len() >= self.batch_size)
    }

    /// Add a message to the batch, for `topic` or else the default topic.
    /// Returns whether the batch is now full, so that a flush is due.
    pub fn send(&mut self, value: &str, topic: Option<String>) -> (r: Result<bool, StreamlineError>)
        ensures
            enqueue_outcome(old(self)@, None, value@, opt_view(topic), r, final(self)@),
            history_consistent(old(self)@) ==> history_consistent(final(self)@),
    {
        self.enqueue(None, value, topic)
    }

    /// Add a keyed message to the batch, for `topic` or else the default
    /// topic. Returns whether the batch is now full, so that a flush is due.
    pub fn send_keyed(&mut self, key: &str, value: &str, topic: Option<String>) -> (r: Result<bool, StreamlineError>)
        ensures
            enqueue_outcome(old(self)@, Some(key@), value@, opt_view(topic), r, final(self)@),
            history_consistent(old(self)@) ==> history_consistent(final(self)@),
    {
        self.enqueue(Some(String::from_str(key)), value, topic)
    }
    /// Begin a transaction: messages given to `send_transactional` are held
    /// until `commit_transaction` or `abort_transaction`.
    pub fn begin_transaction(&mut self) -> (r: Result<(), String>)
        ensures
            old(self)@.in_transaction ==> final(self)@ == old(self)@
                && (r matches Err(m) && m@ == "Transaction already in progress"@),
            !old(self)@.in_transaction ==> r is Ok && final(self)@ == (ProducerView {
                in_transaction: true,
                transaction_buffer: Seq::empty(),
                ..old(self)@
            }),
    {
        if self.in_transaction {
            return Err(String::from_str("Transaction already in progress"));
        }
        self.in_transaction = true;
        self.transaction_buffer.clear();
        assert(self@.transaction_buffer =~= Seq::<BufferedView>::empty());
        Ok(())
    }

    /// Hold a message in the current transaction.
    pub fn send_transactional(&mut self, value: &str, topic: &str, key: Option<String>) -> (r: Result<(), String>)
        ensures
            !old(self)@.in_transaction ==> final(self)@ == old(self)@
                && (r matches Err(m) && m@ == "No transaction in progress"@),
            old(self)@.in_transaction ==> r is Ok && final(self)@ == (ProducerView {
                transaction_buffer: old(self)@.transaction_buffer.push((value@, opt_view(key), topic@)),
                ..old(self)@
            }),
    {
        if !self.in_transaction {
            return Err(String::from_str("No transaction in progress"));
        }
        let ghost before = self@;
        let ghost kv = opt_view(key);
        self.transaction_buffer.push((String::from_str(value), key, String::from_str(topic)));
        assert(self@.transaction_buffer =~= before.transaction_buffer.push((value@, kv, topic@)));
        Ok(())
    }

    /// Commit the transaction: it ends, and its buffered messages, in order,
    /// are handed over to be added to the batch one `commit_step` at a time.
    /// Without a transaction nothing changes and the commit is refused.
    pub fn commit_transaction(&mut self) -> (r: Result<CommitRun, String>)
        ensures
            !old(self)@.in_transaction ==> final(self)@ == old(self)@
                && (r matches Err(m) && m@ == "No transaction in progress"@),
            old(self)@.in_transaction ==> (r matches Ok(run) && run@ == (CommitView {
                items: old(self)@.transaction_buffer,
                next: 0,
            })) && final(self)@ == (ProducerView {
                in_transaction: false,
                transaction_buffer: Seq::empty(),
                ..old(self)@
            }),
    {
        if !self.in_transaction {
            return Err(String::from_str("No transaction in progress"));
        }
        let mut items: Vec<(String, Option<String>, String)> = Vec::new();
        std::mem::swap(&mut items, &mut self.transaction_buffer);
        self.in_transaction = false;
        assert(self@.transaction_buffer =~= Seq::<BufferedView>::empty());
        Ok(CommitRun { items, next: 0 })
    }

    /// Add the next buffered message of `run` to the batch (see
    /// `commit_step_outcome`).
    pub fn commit_step(&mut self, run: &mut CommitRun) -> (r: Result<CommitStep, StreamlineError>)
        ensures
            commit_step_outcome(old(self)@, old(run)@, r, final(self)@, final(run)@),
            history_consistent(old(self)@) ==> history_consistent(final(self)@),
    {
        if run.next >= run.items.len() {
            let n: u32 = #[verifier::truncate] (run.items.len() as u32);
            return Ok(CommitStep::Done(n));
        }
        let ghost items = run@.items;
        let i = run.next;
        assert(items[i as int] == (run.items@[i as int].0@, opt_view(run.items@[i as int].1), run.items@[i as int].2@));
        let value = run.items[i].0.clone();
        let topic = Some(run.items[i].2.clone());
        let key = match &run.items[i].1 {
            Some(k) => Some(k.clone()),
            None => None,
        };
        assert(opt_view(key) == items[i as int].1);
        run.next = i + 1;
        assert(run@.items =~= items);
        match self.enqueue(key, value.as_str(), topic) {
            Ok(flush_due) => Ok(CommitStep::Added { flush_due }),
            Err(e) => Err(e),
        }
    }

    /// Abort the transaction, discarding the messages it holds.
    pub fn abort_transaction(&mut self) -> (r: Result<(), String>)
        ensures
            !old(self)@.in_transaction ==> final(self)@ == old(self)@
                && (r matches Err(m) && m@ == "No transaction in progress"@),
            old(self)@.in_transaction ==> r is Ok && final(self)@ == (ProducerView {
                in_transaction: false,
                transaction_buffer: Seq::empty(),
                ..old(self)@
            }),
    {
        if !self.in_transaction {
            return Err(String::from_str("No transaction in progress"));
        }
        self.transaction_buffer.clear();
        self.in_transaction = false;
        assert(self@.transaction_buffer =~= Seq::<BufferedView>::empty());
        Ok(())
    }
}

impl BrowserMessage {
    /// A copy of this message.
    pub fn clone_message(&self) -> (m: BrowserMessage)
        ensures
            m@ == self@,
    {
        match self {
            BrowserMessage::Produce { topic, key, value } => BrowserMessage::Produce {
                topic: topic.clone(),
                key: match key { Some(k) => Some(k.clone()), None => None },
                value: value.clone(),
            },
            BrowserMessage::Consume { topic, group_id } => BrowserMessage::Consume {
                topic: topic.clone(),
                group_id: match group_id { Some(g) => Some(g.clone()), None => None },
            },
            BrowserMessage::Subscribe { topic } => BrowserMessage::Subscribe { topic: topic.clone() },
            BrowserMessage::Unsubscribe { topic } => BrowserMessage::Unsubscribe { topic: topic.clone() },
            BrowserMessage::Admin { action } => BrowserMessage::Admin { action: action.clone_action() },
        }
    }
}

impl crate::protocol::AdminAction {
    /// A copy of this action.
    pub fn clone_action(&self) -> (a: crate::protocol::AdminAction)
        ensures
            a@ == self@,
    {
        match self {
            crate::protocol::AdminAction::CreateTopic { name, partitions } =>
                crate::protocol::AdminAction::CreateTopic { name: name.clone(), partitions: *partitions },
            crate::protocol::AdminAction::DeleteTopic { name } =>
                crate::protocol::AdminAction::DeleteTopic { name: name.clone() },
            crate::protocol::AdminAction::ListTopics => crate::protocol::AdminAction::ListTopics,
        }
    }
}

} // verus!
