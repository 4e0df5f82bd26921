//! JSON values as the library reads them, and the calls into `serde_json`
//! that parse JSON text and quote strings.
use vstd::prelude::*;
use vstd::string::*;

use crate::text::push_char;

verus! {

#[verifier::external_type_specification]
#[verifier::external_body]
pub struct ExJsonError(serde_json::Error);

#[verifier::external_type_specification]
#[verifier::external_body]
pub struct ExJsonValue(serde_json::Value);

/// A parsed JSON document. Numbers carry no value: nothing in this library
/// reads one from parsed text.
#[derive(Debug)]
pub enum JsonValue {
    Null,
    Bool(bool),
    Number,
    String(String),
    Array(Vec<JsonValue>),
    Object(Vec<(String, JsonValue)>),
}

/// The lowercase hexadecimal digit of `n` below 16.
pub open spec fn lower_hex_digit(n: int) -> char {
    if n < 10 {
        (48 + n) as char
    } else {
        (87 + n) as char
    }
}

/// How `c` is written inside a JSON string literal: `"` and `\` behind a
/// backslash; backspace, tab, line feed, form feed and carriage return as
/// `\b`, `\t`, `\n`, `\f` and `\r`; every other character below U+0020 as
/// `\u00` and two lowercase hexadecimal digits; anything else as itself.
pub open spec fn escaped_char(c: char) -> Seq<char> {
    let n = c as u32;
    if c == '"' {
        seq!['\\', '"']
    } else if c == '\\' {
        seq!['\\', '\\']
    } else if n == 0x08 {
        seq!['\\', 'b']
    } else if n == 0x09 {
        seq!['\\', 't']
    } else if n == 0x0A {
        seq!['\\', 'n']
    } else if n == 0x0C {
        seq!['\\', 'f']
    } else if n == 0x0D {
        seq!['\\', 'r']
    } else if n < 0x20 {
        seq!['\\', 'u', '0', '0', lower_hex_digit((n / 16) as int), lower_hex_digit((n % 16) as int)]
    } else {
        seq![c]
    }
}

/// The characters of `s`, each written as `escaped_char` writes it.
pub open spec fn escaped_text(s: Seq<char>) -> Seq<char>
    decreases s.len(),
{
    if s.len() == 0 {
        Seq::<char>::empty()
    } else {
        escaped_char(s[0]) + escaped_text(s.drop_first())
    }
}

/// The JSON string literal for `s`: its escaped characters between double
/// quotes.
pub open spec fn json_string(s: Seq<char>) -> Seq<char> {
    seq!['"'] + escaped_text(s) + seq!['"']
}

/// The document that `serde_json` parses from `text`, or `None` where it
/// reports an error.
pub uninterp spec fn parsed_json(text: Seq<char>) -> Option<JsonValue>;

/// The value of a lowercase hexadecimal digit.
pub open spec fn hex_value(c: char) -> int {
    if (c as int) < 58 {
        c as int - 48
    } else {
        c as int - 87
    }
}

/// The character that the two-character escape `\c` stands for.
pub open spec fn short_escape(c: char) -> char {
    if c == 'b' {
        8u32 as char
    } else if c == 't' {
        9u32 as char
    } else if c == 'n' {
        10u32 as char
    } else if c == 'f' {
        12u32 as char
    } else if c == 'r' {
        13u32 as char
    } else {
        c
    }
}

/// Read the rest of a JSON string literal whose opening quote was read:
/// the characters up to the closing quote, with the escapes that
/// `escaped_char` writes undone, and the text after the closing quote.
/// `None` when no closing quote comes.
pub open spec fn read_body(t: Seq<char>) -> Option<(Seq<char>, Seq<char>)>
    decreases t.len(),
{
    if t.len() == 0 {
        None
    } else if t[0] == '"' {
        Some((Seq::<char>::empty(), t.drop_first()))
    } else if t[0] == '\\' && t.len() >= 6 && t[1] == 'u' {
        match read_body(t.skip(6)) {
            Some(r) => Some((seq![(hex_value(t[4]) * 16 + hex_value(t[5])) as char] + r.0, r.1)),
            None => None,
        }
    } else if t[0] == '\\' && t.len() >= 2 {
        match read_body(t.skip(2)) {
            Some(r) => Some((seq![short_escape(t[1])] + r.0, r.1)),
            None => None,
        }
    } else {
        match read_body(t.drop_first()) {
            Some(r) => Some((seq![t[0]] + r.0, r.1)),
            None => None,
        }
    }
}

/// Read a JSON string literal at the start of `t`: its text and what
/// follows it.
pub open spec fn read_string(t: Seq<char>) -> Option<(Seq<char>, Seq<char>)> {
    if t.len() > 0 && t[0] == '"' {
        read_body(t.drop_first())
    } else {
        None
    }
}

proof fn lemma_hex_digit_value(k: int)
    requires
        0 <= k < 16,
    ensures
        hex_value(lower_hex_digit(k)) == k,
{
}

proof fn lemma_read_body(a: Seq<char>, x: Seq<char>)
    ensures
        read_body(escaped_text(a) + seq!['"'] + x) == Some((a, x)),
    decreases a.len(),
{
    let t = escaped_text(a) + seq!['"'] + x;
    if a.len() == 0 {
        assert(t =~= seq!['"'] + x);
        assert(t.drop_first() =~= x);
        assert(a =~= Seq::<char>::empty());
    } else {
        let c = a[0];
        let rest = a.drop_first();
        lemma_read_body(rest, x);
        let e = escaped_char(c);
        let u = escaped_text(rest) + seq!['"'] + x;
        assert(t =~= e + u);
        assert(t.skip(e.len() as int) =~= u);
        assert(t.drop_first() =~= t.skip(1));
        assert(seq![c] + rest =~= a);
        let n = c as u32;
        if c == '"' || c == '\\' {
            assert(t[0] == '\\' && t[1] == c);
            assert(read_body(t) == Some((seq![c] + rest, x)));
        } else if n == 0x08 || n == 0x09 || n == 0x0A || n == 0x0C || n == 0x0D {
            vstd::utf8::char_u32_cast(c, n);
            assert(t[0] == '\\' && short_escape(t[1]) == c);
            assert(read_body(t) == Some((seq![c] + rest, x)));
        } else if n < 0x20 {
            lemma_hex_digit_value((n / 16) as int);
            lemma_hex_digit_value((n % 16) as int);
            assert(hex_value(t[4]) * 16 + hex_value(t[5]) == n);
            vstd::utf8::char_u32_cast(c, n);
            assert((n as char) == c);
            assert(read_body(t) == Some((seq![c] + rest, x)));
        } else {
            assert(t[0] == c);
            assert(read_body(t) == Some((seq![c] + rest, x)));
        }
    }
}

/// Reading the literal that `json_string` writes for `a` gives back `a`,
/// and the text after it: the quoting loses nothing.
pub proof fn lemma_read_json_string(a: Seq<char>, x: Seq<char>)
    ensures
        read_string(json_string(a) + x) == Some((a, x)),
{
    let t = json_string(a) + x;
    assert(t.drop_first() =~= escaped_text(a) + seq!['"'] + x);
    lemma_read_body(a, x);
}

/// Quote `s` as a JSON string literal with `serde_json::to_string`. The
/// contract claims that the call succeeds, with the literal `json_string`
/// gives for `s`: `serde_json` writes a string through its escape table
/// (`format_escaped_str`) into a `Vec<u8>`, whose writes never fail, and its
/// only other errors come from maps and from `Serialize` impls that fail,
/// neither of which a `str` has.
#[verifier::external_body]
pub fn quote_json(s: &str) -> (r: Result<String, serde_json::Error>)
    ensures
        r is Ok,
        r matches Ok(q) ==> q@ == json_string(s@),
{
    serde_json::to_string(s)
}

/// The message of a `serde_json` error, as its `Display` impl writes it.
/// Nothing is claimed of the text.
#[verifier::external_body]
pub fn json_error_text(e: &serde_json::Error) -> String {
    e.to_string()
}

/// Parse `text` with `serde_json::from_str` into a `serde_json::Value` and
/// convert it. The contract claims that parsing succeeds exactly where
/// `parsed_json` names a document, and that the document is that one.
#[verifier::external_body]
pub fn parse_json(text: &str) -> (r: Result<JsonValue, serde_json::Error>)
    ensures
        (r is Ok) == (parsed_json(text@) is Some),
        r matches Ok(v) ==> v == parsed_json(text@)->0,
{
    serde_json::from_str::<serde_json::Value>(text).map(|v| from_serde_value(&v))
}

/// Convert a `serde_json::Value` to a `JsonValue`, variant for variant,
/// keeping object members in the order the map yields them.
#[verifier::external_body]
fn from_serde_value(v: &serde_json::Value) -> JsonValue {
    match v {
        serde_json::Value::Null => JsonValue::Null,
        serde_json::Value::Bool(b) => JsonValue::Bool(*b),
        serde_json::Value::Number(_) => JsonValue::Number,
        serde_json::Value::String(s) => JsonValue::String(s.clone()),
        serde_json::Value::Array(a) => JsonValue::Array(a.iter().map(from_serde_value).collect()),
        serde_json::Value::Object(o) => JsonValue::Object(
            o.iter().map(|(k, m)| (k.clone(), from_serde_value(m))).collect(),
        ),
    }
}

/// The value of the first member named `key` among `members`.
pub open spec fn member(members: Seq<(String, JsonValue)>, key: Seq<char>) -> Option<JsonValue>
    decreases members.len(),
{
    if members.len() == 0 {
        None
    } else if members[0].0@ == key {
        Some(members[0].1)
    } else {
        member(members.drop_first(), key)
    }
}

/// The member `key` of `v` when `v` is an object (`serde_json`'s `Value::get`).
pub open spec fn field(v: JsonValue, key: Seq<char>) -> Option<JsonValue> {
    match v {
        JsonValue::Object(members) => member(members@, key),
        _ => None,
    }
}

/// The text of `v` when it is a string (`Value::as_str`).
pub open spec fn string_of(v: Option<JsonValue>) -> Option<Seq<char>> {
    match v {
        Some(JsonValue::String(s)) => Some(s@),
        _ => None,
    }
}

/// Look up the first member named `key`.
pub fn get_member<'a>(members: &'a Vec<(String, JsonValue)>, key: &str) -> (r: Option<&'a JsonValue>)
    ensures
        match r {
            Some(x) => member(members@, key@) == Some(*x),
            None => member(members@, key@) is None,
        },
{
    let mut i: usize = 0;
    assert(members@.skip(0) =~= members@);
    while i < members.len()
        invariant
            i <= members@.len(),
            member(members@, key@) == member(members@.skip(i as int), key@),
        decreases members@.len() - i,
    {
        assert(members@.skip(i as int).drop_first() =~= members@.skip(i + 1));
        if crate::text::str_eq(members[i].0.as_str(), key) {
            return Some(&members[i].1);
        }
        i = i + 1;
    }
    assert(members@.skip(i as int).len() == 0);
    None
}

/// `Value::get(key)`: the member `key` of an object, `None` otherwise.
pub fn get_field<'a>(v: &'a JsonValue, key: &str) -> (r: Option<&'a JsonValue>)
    ensures
        match r {
            Some(x) => field(*v, key@) == Some(*x),
            None => field(*v, key@) is None,
        },
{
    match v {
        JsonValue::Object(members) => get_member(members, key),
        _ => None,
    }
}

/// The text of one object member: the key between double quotes, a colon and
/// the already encoded value.
pub open spec fn member_text(m: (Seq<char>, Seq<char>)) -> Seq<char> {
    seq!['"'] + m.0 + seq!['"', ':'] + m.1
}

/// The members' texts joined by commas.
pub open spec fn members_text(ms: Seq<(Seq<char>, Seq<char>)>) -> Seq<char>
    decreases ms.len(),
{
    if ms.len() == 0 {
        seq![]
    } else if ms.len() == 1 {
        member_text(ms[0])
    } else {
        members_text(ms.drop_last()) + seq![','] + member_text(ms.last())
    }
}

/// A JSON object holding the given members in the given order. The keys are
/// written as they are, so they must not need escaping; the values are
/// already encoded JSON.
pub open spec fn object_text(ms: Seq<(Seq<char>, Seq<char>)>) -> Seq<char> {
    seq!['{'] + members_text(ms) + seq!['}']
}

/// The views of a list of (key, encoded value) pairs.
pub open spec fn pairs_view(ms: Seq<(String, String)>) -> Seq<(Seq<char>, Seq<char>)> {
    ms.map_values(|p: (String, String)| (p.0@, p.1@))
}

/// Write a JSON object from (key, encoded value) pairs, in order.
pub fn json_object(members: &Vec<(String, String)>) -> (r: String)
    ensures
        r@ == object_text(pairs_view(members@)),
{
    let mut out = String::new();
    push_char(&mut out, '{');
    let mut i: usize = 0;
    assert(pairs_view(members@.take(0)) =~= Seq::<(Seq<char>, Seq<char>)>::empty());
    while i < members.len()
        invariant
            i <= members@.len(),
            out@ == seq!['{'] + members_text(pairs_view(members@.take(i as int))),
        decreases members@.len() - i,
    {
        let ghost before = pairs_view(members@.take(i as int));
        if i > 0 {
            push_char(&mut out, ',');
        }
        push_char(&mut out, '"');
        out.append(members[i].0.as_str());
        push_char(&mut out, '"');
        push_char(&mut out, ':');
        out.append(members[i].1.as_str());
        proof {
            let after = pairs_view(members@.take(i + 1));
            assert(after.drop_last() =~= before);
            assert(after.last() == (members@[i as int].0@, members@[i as int].1@));
            if i == 0 {
                assert(after.len() == 1);
            }
        }
        i = i + 1;
    }
    assert(members@.take(members@.len() as int) =~= members@);
    push_char(&mut out, '}');
    out
}

} // verus!
