//! Reading a client message back from the JSON text that `to_json` writes
//! for it. The reader follows the exact layout `to_json` produces: members
//! in their written order, strings quoted as `json_string` quotes them,
//! numbers in decimal. Its one purpose is to show that the text loses
//! nothing: every message is read back as itself, so two messages with the
//! same text are the same message.
use vstd::prelude::*;
use vstd::string::*;

use crate::json::{json_string, lemma_read_json_string, member_text, members_text, object_text, read_string};
use crate::protocol::{action_members, message_json, message_members, string_member, ActionView, MessageView};
use crate::text::{decimal, digits_value, lemma_decimal_value};

verus! {

/// `t` without the literal `lit` at its front, when it starts with it.
pub open spec fn after_literal(t: Seq<char>, lit: Seq<char>) -> Option<Seq<char>> {
    if t.len() >= lit.len() && t.take(lit.len() as int) == lit {
        Some(t.skip(lit.len() as int))
    } else {
        None
    }
}

/// A quoted string at the front of `t` followed by exactly `tail`.
pub open spec fn string_then(t: Seq<char>, tail: Seq<char>) -> Option<Seq<char>> {
    match read_string(t) {
        Some(r) => if r.1 == tail {
            Some(r.0)
        } else {
            None
        },
        None => None,
    }
}

/// The admin action that an action object spells.
pub open spec fn decode_action(t: Seq<char>) -> Option<ActionView> {
    if t.len() < 12 {
        None
    } else if t[11] == 'c' {
        match after_literal(t, "{\"action\":\"create_topic\",\"name\":"@) {
            Some(r) => match read_string(r) {
                Some(n) => if n.1 == "}"@ {
                    Some(ActionView::CreateTopic { name: n.0, partitions: None })
                } else {
                    match after_literal(n.1, ",\"partitions\":"@) {
                        Some(d) => if d.len() > 0 && d.last() == '}' {
                            Some(ActionView::CreateTopic { name: n.0, partitions: Some(digits_value(d.drop_last()) as u32) })
                        } else {
                            None
                        },
                        None => None,
                    }
                },
                None => None,
            },
            None => None,
        }
    } else if t[11] == 'd' {
        match after_literal(t, "{\"action\":\"delete_topic\",\"name\":"@) {
            Some(r) => match string_then(r, "}"@) {
                Some(name) => Some(ActionView::DeleteTopic { name }),
                None => None,
            },
            None => None,
        }
    } else if t == "{\"action\":\"list_topics\"}"@ {
        Some(ActionView::ListTopics)
    } else {
        None
    }
}

/// The produce message whose members after the `type` follow in `t`,
/// starting with the topic.
pub open spec fn decode_produce(t: Seq<char>) -> Option<MessageView> {
    match read_string(t) {
        Some(tp) => {
            let r1 = tp.1;
            if r1.len() > 2 && r1[2] == 'k' {
                match after_literal(r1, ",\"key\":"@) {
                    Some(r2) => match read_string(r2) {
                        Some(k) => match after_literal(k.1, ",\"value\":"@) {
                            Some(r4) => match string_then(r4, "}"@) {
                                Some(v) => Some(MessageView::Produce { topic: tp.0, key: Some(k.0), value: v }),
                                None => None,
                            },
                            None => None,
                        },
                        None => None,
                    },
                    None => None,
                }
            } else {
                match after_literal(r1, ",\"value\":"@) {
                    Some(r4) => match string_then(r4, "}"@) {
                        Some(v) => Some(MessageView::Produce { topic: tp.0, key: None, value: v }),
                        None => None,
                    },
                    None => None,
                }
            }
        },
        None => None,
    }
}

/// The consume message whose members after the `type` follow in `t`,
/// starting with the topic.
pub open spec fn decode_consume(t: Seq<char>) -> Option<MessageView> {
    match read_string(t) {
        Some(tp) => if tp.1 == "}"@ {
            Some(MessageView::Consume { topic: tp.0, group_id: None })
        } else {
            match after_literal(tp.1, ",\"group_id\":"@) {
                Some(r2) => match string_then(r2, "}"@) {
                    Some(g) => Some(MessageView::Consume { topic: tp.0, group_id: Some(g) }),
                    None => None,
                },
                None => None,
            }
        },
        None => None,
    }
}

/// The client message that the JSON text `t` spells, in the layout that
/// `BrowserMessage::to_json` writes; `None` for any other text.
pub open spec fn decode_message(t: Seq<char>) -> Option<MessageView> {
    if t.len() < 10 {
        None
    } else if t[9] == 'p' {
        match after_literal(t, "{\"type\":\"produce\",\"topic\":"@) {
            Some(r) => decode_produce(r),
            None => None,
        }
    } else if t[9] == 'c' {
        match after_literal(t, "{\"type\":\"consume\",\"topic\":"@) {
            Some(r) => decode_consume(r),
            None => None,
        }
    } else if t[9] == 's' {
        match after_literal(t, "{\"type\":\"subscribe\",\"topic\":"@) {
            Some(r) => match string_then(r, "}"@) {
                Some(topic) => Some(MessageView::Subscribe { topic }),
                None => None,
            },
            None => None,
        }
    } else if t[9] == 'u' {
        match after_literal(t, "{\"type\":\"unsubscribe\",\"topic\":"@) {
            Some(r) => match string_then(r, "}"@) {
                Some(topic) => Some(MessageView::Unsubscribe { topic }),
                None => None,
            },
            None => None,
        }
    } else if t[9] == 'a' {
        match after_literal(t, "{\"type\":\"admin\",\"action\":"@) {
            Some(r) => if r.len() > 0 && r.last() == '}' {
                match decode_action(r.drop_last()) {
                    Some(action) => Some(MessageView::Admin { action }),
                    None => None,
                }
            } else {
                None
            },
            None => None,
        }
    } else {
        None
    }
}

proof fn lemma_after_literal(lit: Seq<char>, x: Seq<char>)
    ensures
        after_literal(lit + x, lit) == Some(x),
{
    assert((lit + x).take(lit.len() as int) =~= lit);
    assert((lit + x).skip(lit.len() as int) =~= x);
}

proof fn lemma_string_then(s: Seq<char>, tail: Seq<char>)
    ensures
        string_then(json_string(s) + tail, tail) == Some(s),
{
    lemma_read_json_string(s, tail);
}

proof fn lemma_members_push(ms: Seq<(Seq<char>, Seq<char>)>, m: (Seq<char>, Seq<char>))
    requires
        ms.len() > 0,
    ensures
        members_text(ms.push(m)) == members_text(ms) + seq![','] + member_text(m),
{
    assert(ms.push(m).drop_last() =~= ms);
}

/// The text of a subscribe message, piece by piece.
proof fn lemma_topic_only_text(m: MessageView, lit: Seq<char>, kind: Seq<char>, topic: Seq<char>)
    requires
        message_members(m) == seq![("type"@, kind), string_member("topic"@, topic)],
        lit == seq!['{'] + member_text(("type"@, kind)) + seq![','] + seq!['"'] + "topic"@ + seq!['"', ':'],
    ensures
        message_json(m) == lit + (json_string(topic) + "}"@),
{
    reveal_strlit("}");
    let ms = message_members(m);
    assert(ms =~= seq![("type"@, kind)].push(string_member("topic"@, topic)));
    lemma_members_push(seq![("type"@, kind)], string_member("topic"@, topic));
    assert(message_json(m) =~= lit + (json_string(topic) + "}"@));
}

/// A subscribe or unsubscribe message reads back as itself.
proof fn lemma_topic_only_round_trip(m: MessageView)
    requires
        m is Subscribe || m is Unsubscribe,
    ensures
        decode_message(message_json(m)) == Some(m),
{
    reveal_strlit("{\"type\":\"subscribe\",\"topic\":");
    reveal_strlit("{\"type\":\"unsubscribe\",\"topic\":");
    reveal_strlit("type");
    reveal_strlit("topic");
    reveal_strlit("\"subscribe\"");
    reveal_strlit("\"unsubscribe\"");
    reveal_strlit("}");
    match m {
        MessageView::Subscribe { topic } => {
            let lit = "{\"type\":\"subscribe\",\"topic\":"@;
            assert(lit =~= seq!['{'] + member_text(("type"@, "\"subscribe\""@)) + seq![','] + seq!['"'] + "topic"@ + seq!['"', ':']);
            lemma_topic_only_text(m, lit, "\"subscribe\""@, topic);
            lemma_after_literal(lit, json_string(topic) + "}"@);
            lemma_string_then(topic, "}"@);
        },
        MessageView::Unsubscribe { topic } => {
            let lit = "{\"type\":\"unsubscribe\",\"topic\":"@;
            assert(lit =~= seq!['{'] + member_text(("type"@, "\"unsubscribe\""@)) + seq![','] + seq!['"'] + "topic"@ + seq!['"', ':']);
            lemma_topic_only_text(m, lit, "\"unsubscribe\""@, topic);
            lemma_after_literal(lit, json_string(topic) + "}"@);
            lemma_string_then(topic, "}"@);
        },
        _ => {},
    }
}

proof fn lemma_members_three(m0: (Seq<char>, Seq<char>), m1: (Seq<char>, Seq<char>), m2: (Seq<char>, Seq<char>))
    ensures
        members_text(seq![m0, m1, m2]) == member_text(m0) + seq![','] + member_text(m1) + seq![',']
            + member_text(m2),
{
    lemma_members_push(seq![m0], m1);
    assert(seq![m0].push(m1) =~= seq![m0, m1]);
    lemma_members_push(seq![m0, m1], m2);
    assert(seq![m0, m1].push(m2) =~= seq![m0, m1, m2]);
}

proof fn lemma_members_four(
    m0: (Seq<char>, Seq<char>),
    m1: (Seq<char>, Seq<char>),
    m2: (Seq<char>, Seq<char>),
    m3: (Seq<char>, Seq<char>),
)
    ensures
        members_text(seq![m0, m1, m2, m3]) == member_text(m0) + seq![','] + member_text(m1) + seq![',']
            + member_text(m2) + seq![','] + member_text(m3),
{
    lemma_members_three(m0, m1, m2);
    lemma_members_push(seq![m0, m1, m2], m3);
    assert(seq![m0, m1, m2].push(m3) =~= seq![m0, m1, m2, m3]);
}

proof fn lemma_members_two(m0: (Seq<char>, Seq<char>), m1: (Seq<char>, Seq<char>))
    ensures
        members_text(seq![m0, m1]) == member_text(m0) + seq![','] + member_text(m1),
{
    lemma_members_push(seq![m0], m1);
    assert(seq![m0].push(m1) =~= seq![m0, m1]);
}

/// A consume message reads back as itself.
proof fn lemma_consume_round_trip(m: MessageView)
    requires
        m is Consume,
    ensures
        decode_message(message_json(m)) == Some(m),
{
    reveal_strlit("{\"type\":\"consume\",\"topic\":");
    reveal_strlit(",\"group_id\":");
    reveal_strlit("type");
    reveal_strlit("topic");
    reveal_strlit("group_id");
    reveal_strlit("\"consume\"");
    reveal_strlit("}");
    let lit = "{\"type\":\"consume\",\"topic\":"@;
    let m0 = ("type"@, "\"consume\""@);
    match m {
        MessageView::Consume { topic, group_id } => {
            let m1 = string_member("topic"@, topic);
            match group_id {
                None => {
                    assert(message_members(m) =~= seq![m0, m1]);
                    lemma_members_two(m0, m1);
                    assert(message_json(m) =~= lit + (json_string(topic) + "}"@));
                    lemma_after_literal(lit, json_string(topic) + "}"@);
                    lemma_read_json_string(topic, "}"@);
                },
                Some(g) => {
                    let m2 = string_member("group_id"@, g);
                    let gl = ",\"group_id\":"@;
                    let r1 = gl + (json_string(g) + "}"@);
                    assert(message_members(m) =~= seq![m0, m1, m2]);
                    lemma_members_three(m0, m1, m2);
                    assert(message_json(m) =~= lit + (json_string(topic) + r1));
                    lemma_after_literal(lit, json_string(topic) + r1);
                    lemma_read_json_string(topic, r1);
                    assert(r1 != "}"@);
                    lemma_after_literal(gl, json_string(g) + "}"@);
                    lemma_string_then(g, "}"@);
                },
            }
        },
        _ => {},
    }
}

/// The text of a produce message, piece by piece.
proof fn lemma_produce_text(topic: Seq<char>, key: Option<Seq<char>>, value: Seq<char>)
    ensures
        message_json(MessageView::Produce { topic, key, value }) == "{\"type\":\"produce\",\"topic\":"@
            + (json_string(topic) + match key {
            Some(k) => ",\"key\":"@ + (json_string(k) + (",\"value\":"@ + (json_string(value) + "}"@))),
            None => ",\"value\":"@ + (json_string(value) + "}"@),
        }),
{
    reveal_strlit("{\"type\":\"produce\",\"topic\":");
    reveal_strlit(",\"key\":");
    reveal_strlit(",\"value\":");
    reveal_strlit("type");
    reveal_strlit("topic");
    reveal_strlit("key");
    reveal_strlit("value");
    reveal_strlit("\"produce\"");
    reveal_strlit("}");
    let m = MessageView::Produce { topic, key, value };
    let m0 = ("type"@, "\"produce\""@);
    let m1 = string_member("topic"@, topic);
    let mv = string_member("value"@, value);
    match key {
        None => {
            assert(message_members(m) =~= seq![m0, m1, mv]);
            lemma_members_three(m0, m1, mv);
        },
        Some(k) => {
            let mk = string_member("key"@, k);
            assert(message_members(m) =~= seq![m0, m1, mk, mv]);
            lemma_members_four(m0, m1, mk, mv);
        },
    }
}

/// A produce message reads back as itself.
proof fn lemma_produce_round_trip(m: MessageView)
    requires
        m is Produce,
    ensures
        decode_message(message_json(m)) == Some(m),
{
    reveal_strlit("{\"type\":\"produce\",\"topic\":");
    reveal_strlit(",\"key\":");
    reveal_strlit(",\"value\":");
    reveal_strlit("}");
    let lit = "{\"type\":\"produce\",\"topic\":"@;
    let kl = ",\"key\":"@;
    let vl = ",\"value\":"@;
    match m {
        MessageView::Produce { topic, key, value } => {
            let tail = vl + (json_string(value) + "}"@);
            lemma_produce_text(topic, key, value);
            lemma_after_literal(vl, json_string(value) + "}"@);
            lemma_string_then(value, "}"@);
            match key {
                None => {
                    lemma_after_literal(lit, json_string(topic) + tail);
                    lemma_read_json_string(topic, tail);
                    assert(tail[2] == 'v');
                },
                Some(k) => {
                    let r1 = kl + (json_string(k) + tail);
                    lemma_after_literal(lit, json_string(topic) + r1);
                    lemma_read_json_string(topic, r1);
                    assert(r1[2] == 'k');
                    lemma_after_literal(kl, json_string(k) + tail);
                    lemma_read_json_string(k, tail);
                },
            }
        },
        _ => {},
    }
}

/// An admin action's object reads back as that action.
proof fn lemma_action_round_trip(a: ActionView)
    ensures
        decode_action(object_text(action_members(a))) == Some(a),
{
    reveal_strlit("{\"action\":\"create_topic\",\"name\":");
    reveal_strlit("{\"action\":\"delete_topic\",\"name\":");
    reveal_strlit("{\"action\":\"list_topics\"}");
    reveal_strlit(",\"partitions\":");
    reveal_strlit("action");
    reveal_strlit("name");
    reveal_strlit("partitions");
    reveal_strlit("\"create_topic\"");
    reveal_strlit("\"delete_topic\"");
    reveal_strlit("\"list_topics\"");
    reveal_strlit("}");
    match a {
        ActionView::CreateTopic { name, partitions } => {
            let lit = "{\"action\":\"create_topic\",\"name\":"@;
            let m0 = ("action"@, "\"create_topic\""@);
            let m1 = string_member("name"@, name);
            match partitions {
                None => {
                    assert(action_members(a) =~= seq![m0, m1]);
                    lemma_members_two(m0, m1);
                    assert(object_text(action_members(a)) =~= lit + (json_string(name) + "}"@));
                    lemma_after_literal(lit, json_string(name) + "}"@);
                    lemma_read_json_string(name, "}"@);
                },
                Some(p) => {
                    let pl = ",\"partitions\":"@;
                    let m2 = ("partitions"@, decimal(p as nat));
                    let d = decimal(p as nat) + "}"@;
                    let r1 = pl + d;
                    assert(action_members(a) =~= seq![m0, m1, m2]);
                    lemma_members_three(m0, m1, m2);
                    assert(object_text(action_members(a)) =~= lit + (json_string(name) + r1));
                    lemma_after_literal(lit, json_string(name) + r1);
                    lemma_read_json_string(name, r1);
                    assert(r1 != "}"@);
                    lemma_after_literal(pl, d);
                    assert(d.drop_last() =~= decimal(p as nat));
                    lemma_decimal_value(p as nat);
                },
            }
        },
        ActionView::DeleteTopic { name } => {
            let lit = "{\"action\":\"delete_topic\",\"name\":"@;
            let m0 = ("action"@, "\"delete_topic\""@);
            let m1 = string_member("name"@, name);
            assert(action_members(a) =~= seq![m0, m1]);
            lemma_members_two(m0, m1);
            assert(object_text(action_members(a)) =~= lit + (json_string(name) + "}"@));
            lemma_after_literal(lit, json_string(name) + "}"@);
            lemma_string_then(name, "}"@);
        },
        ActionView::ListTopics => {
            assert(object_text(action_members(a)) =~= "{\"action\":\"list_topics\"}"@);
        },
    }
}

/// An admin message reads back as itself.
proof fn lemma_admin_round_trip(m: MessageView)
    requires
        m is Admin,
    ensures
        decode_message(message_json(m)) == Some(m),
{
    reveal_strlit("{\"type\":\"admin\",\"action\":");
    reveal_strlit("type");
    reveal_strlit("action");
    reveal_strlit("\"admin\"");
    match m {
        MessageView::Admin { action } => {
            let lit = "{\"type\":\"admin\",\"action\":"@;
            let a = object_text(action_members(action));
            let m0 = ("type"@, "\"admin\""@);
            let m1 = ("action"@, a);
            assert(message_members(m) =~= seq![m0, m1]);
            lemma_members_two(m0, m1);
            assert(message_json(m) =~= lit + (a + seq!['}']));
            lemma_after_literal(lit, a + seq!['}']);
            assert((a + seq!['}']).drop_last() =~= a);
            lemma_action_round_trip(action);
        },
        _ => {},
    }
}

/// The JSON text of every client message reads back as that message: the
/// text `to_json` writes loses nothing of the message.
pub proof fn lemma_message_json_round_trip(m: MessageView)
    ensures
        decode_message(message_json(m)) == Some(m),
{
    match m {
        MessageView::Produce { .. } => lemma_produce_round_trip(m),
        MessageView::Consume { .. } => lemma_consume_round_trip(m),
        MessageView::Subscribe { .. } => lemma_topic_only_round_trip(m),
        MessageView::Unsubscribe { .. } => lemma_topic_only_round_trip(m),
        MessageView::Admin { .. } => lemma_admin_round_trip(m),
    }
}

/// Two client messages with the same JSON text are the same message.
pub proof fn lemma_message_json_injective(a: MessageView, b: MessageView)
    requires
        message_json(a) == message_json(b),
    ensures
        a == b,
{
    lemma_message_json_round_trip(a);
    lemma_message_json_round_trip(b);
}

} // verus!
