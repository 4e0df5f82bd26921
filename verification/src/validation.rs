//! Input validation helpers.
use vstd::prelude::*;
use vstd::string::*;
use vstd::utf8::encode_utf8;

use crate::error::{ErrorCode, StreamlineError};

verus! {

/// Largest accepted topic name length, in UTF-8 bytes.
pub const MAX_TOPIC_NAME_BYTES: usize = 249;

/// Characters allowed in a topic name: ASCII letters and digits, `.`, `_`, `-`.
pub open spec fn is_topic_char(c: char) -> bool {
    ||| ('a' <= c && c <= 'z')
    ||| ('A' <= c && c <= 'Z')
    ||| ('0' <= c && c <= '9')
    ||| c == '.'
    ||| c == '_'
    ||| c == '-'
}

/// Every character of `s` is allowed in a topic name.
pub open spec fn all_topic_chars(s: Seq<char>) -> bool {
    forall|i: int| 0 <= i < s.len() ==> is_topic_char(#[trigger] s[i])
}

/// The error that topic-name validation reports for `topic`, if any. The
/// checks apply in order: emptiness, byte length, the names `.` and `..`,
/// then the character set.
pub open spec fn topic_name_error(topic: Seq<char>) -> Option<Seq<char>> {
    if topic.len() == 0 {
        Some("Topic name must not be empty"@)
    } else if encode_utf8(topic).len() > MAX_TOPIC_NAME_BYTES {
        Some("Topic name exceeds max length of 249"@)
    } else if topic == seq!['.'] || topic == seq!['.', '.'] {
        Some("Topic name must not be '.' or '..'"@)
    } else if !all_topic_chars(topic) {
        Some("Topic name contains invalid characters: "@ + topic)
    } else {
        None
    }
}

/// A topic name is accepted exactly when it is not empty, holds at most 249
/// bytes, is neither `.` nor `..`, and every character is an ASCII letter
/// or digit, `.`, `_` or `-`.
pub proof fn lemma_topic_name_rules(topic: Seq<char>)
    ensures
        topic_name_error(topic) is None <==> (topic.len() > 0 && encode_utf8(topic).len() <= 249 && topic
            != seq!['.'] && topic != seq!['.', '.'] && forall|i: int|
            0 <= i < topic.len() ==> ('a' <= #[trigger] topic[i] <= 'z' || 'A' <= topic[i] <= 'Z' || '0'
                <= topic[i] <= '9' || topic[i] == '.' || topic[i] == '_' || topic[i] == '-')),
{
}

fn is_topic_char_exec(c: char) -> (b: bool)
    ensures
        b == is_topic_char(c),
{
    ('a' <= c && c <= 'z') || ('A' <= c && c <= 'Z') || ('0' <= c && c <= '9') || c == '.'
        || c == '_' || c == '-'
}

/// Validate a topic name:
/// - it must not be empty;
/// - it holds at most 249 bytes;
/// - it is neither `.` nor `..`;
/// - it holds only ASCII letters and digits, `.`, `_` and `-`.
pub fn validate_topic_name(topic: &str) -> (r: Result<(), String>)
    ensures
        match topic_name_error(topic@) {
            None => r is Ok,
            Some(msg) => r matches Err(e) && e@ == msg,
        },
{
    if topic.is_empty() {
        return Err(String::from_str("Topic name must not be empty"));
    }
    if topic.as_bytes().len() > MAX_TOPIC_NAME_BYTES {
        return Err(String::from_str("Topic name exceeds max length of 249"));
    }
    let n = topic.unicode_len();
    if (n == 1 && topic.get_char(0) == '.') || (n == 2 && topic.get_char(0) == '.'
        && topic.get_char(1) == '.') {
        assert(n == 1 ==> topic@ =~= seq!['.']);
        assert(n == 2 ==> topic@ =~= seq!['.', '.']);
        return Err(String::from_str("Topic name must not be '.' or '..'"));
    }
    assert(!(topic@ == seq!['.'] || topic@ == seq!['.', '.']));
    let mut i: usize = 0;
    while i < n
        invariant
            n == topic@.len(),
            i <= n,
            n > 0,
            encode_utf8(topic@).len() <= MAX_TOPIC_NAME_BYTES,
            !(topic@ == seq!['.'] || topic@ == seq!['.', '.']),
            forall|j: int| 0 <= j < i ==> is_topic_char(#[trigger] topic@[j]),
        decreases n - i,
    {
        let c = topic.get_char(i);
        if !is_topic_char_exec(c) {
            assert(!all_topic_chars(topic@)) by {
                assert(!is_topic_char(topic@[i as int]));
            }
            let mut msg = String::from_str("Topic name contains invalid characters: ");
            msg.append(topic);
            return Err(msg);
        }
        i = i + 1;
    }
    Ok(())
}

/// Check a topic name, turning a validation failure into a configuration
/// error that carries the validation message.
pub fn check_topic(name: &str) -> (r: Result<(), StreamlineError>)
    ensures
        match topic_name_error(name@) {
            Some(msg) => r matches Err(e) && e.is(ErrorCode::ConfigurationError, msg, false),
            None => r is Ok,
        },
{
    match validate_topic_name(name) {
        Ok(()) => Ok(()),
        Err(msg) => Err(StreamlineError::configuration(msg.as_str())),
    }
}

} // verus!
