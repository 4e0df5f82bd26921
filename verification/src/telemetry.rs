//! Telemetry spans and W3C trace context.
//!
//! A span is named `{topic} {operation}`; its start mark adds `-start` to the
//! name, its end mark `-end` (or `-error` when it failed). The browser
//! bindings hand these names to `console.time`, `console.timeEnd`,
//! `Performance.mark` and `Performance.measure` when telemetry is enabled.
use vstd::prelude::*;
use vstd::string::*;

use crate::text::push_char;

verus! {

/// The name of a span: the topic, a space, the operation.
pub open spec fn span_label(topic: Seq<char>, operation: Seq<char>) -> Seq<char> {
    topic + seq![' '] + operation
}

/// An open span: its label, the name of its start mark, its topic and its
/// operation.
#[derive(Debug)]
pub struct TelemetrySpan {
    pub label: String,
    pub mark_start: String,
    pub topic: String,
    pub operation: String,
}

impl TelemetrySpan {
    /// The span label, such as `orders produce`.
    pub fn label(&self) -> (s: String)
        ensures
            s@ == self.label@,
    {
        self.label.clone()
    }

    /// The topic of the span.
    pub fn topic_js(&self) -> (s: String)
        ensures
            s@ == self.topic@,
    {
        self.topic.clone()
    }

    /// The operation of the span (`produce`, `consume` or `process`).
    pub fn operation_js(&self) -> (s: String)
        ensures
            s@ == self.operation@,
    {
        self.operation.clone()
    }

    /// The name of the start mark.
    pub fn mark_start(&self) -> (s: String)
        ensures
            s@ == self.mark_start@,
    {
        self.mark_start.clone()
    }
}

/// What closing a span records: `console.timeEnd(label)`, the mark
/// `mark_end`, the measure from `mark_start` to `mark_end` under `label`,
/// and, for a failed operation, an error line for the console.
#[derive(Debug)]
pub struct SpanEnd {
    pub label: String,
    pub mark_start: String,
    pub mark_end: String,
    pub error_message: Option<String>,
}

/// Telemetry switch; every recording is skipped while it is disabled.
pub struct Telemetry {
    enabled: bool,
}

impl View for Telemetry {
    type V = bool;

    closed spec fn view(&self) -> bool {
        self.enabled
    }
}

/// `s` followed by the characters of `t`.
fn concat(s: &str, t: &str) -> (r: String)
    ensures
        r@ == s@ + t@,
{
    let mut r = String::from_str(s);
    r.append(t);
    r
}

impl Telemetry {
    /// Enabled telemetry.
    pub fn new() -> (t: Self)
        ensures
            t@,
    {
        Telemetry { enabled: true }
    }

    /// Disabled telemetry: spans are still made, nothing is recorded.
    pub fn disabled() -> (t: Self)
        ensures
            !t@,
    {
        Telemetry { enabled: false }
    }

    /// Whether telemetry records anything.
    pub fn enabled(&self) -> (b: bool)
        ensures
            b == self@,
    {
        self.enabled
    }

    /// Switch telemetry on or off.
    pub fn set_enabled(&mut self, enabled: bool)
        ensures
            final(self)@ == enabled,
    {
        self.enabled = enabled;
    }

    fn start_span(&self, topic: &str, operation: &str) -> (s: TelemetrySpan)
        ensures
            s.label@ == span_label(topic@, operation@),
            s.mark_start@ == span_label(topic@, operation@) + "-start"@,
            s.topic@ == topic@,
            s.operation@ == operation@,
    {
        let mut label = String::from_str(topic);
        push_char(&mut label, ' ');
        label.append(operation);
        let mark_start = concat(label.as_str(), "-start");
        TelemetrySpan {
            label,
            mark_start,
            topic: String::from_str(topic),
            operation: String::from_str(operation),
        }
    }

    /// Open a span for producing to `topic`.
    pub fn start_produce(&self, topic: &str) -> (s: TelemetrySpan)
        ensures
            s.label@ == span_label(topic@, "produce"@),
            s.mark_start@ == span_label(topic@, "produce"@) + "-start"@,
            s.topic@ == topic@,
            s.operation@ == "produce"@,
    {
        self.start_span(topic, "produce")
    }

    /// Open a span for consuming from `topic`.
    pub fn start_consume(&self, topic: &str) -> (s: TelemetrySpan)
        ensures
            s.label@ == span_label(topic@, "consume"@),
            s.mark_start@ == span_label(topic@, "consume"@) + "-start"@,
            s.topic@ == topic@,
            s.operation@ == "consume"@,
    {
        self.start_span(topic, "consume")
    }

    /// Open a span for processing a record of `topic`.
    pub fn start_process(&self, topic: &str) -> (s: TelemetrySpan)
        ensures
            s.label@ == span_label(topic@, "process"@),
            s.mark_start@ == span_label(topic@, "process"@) + "-start"@,
            s.topic@ == topic@,
            s.operation@ == "process"@,
    {
        self.start_span(topic, "process")
    }

    /// Close `span`: what to record, or `None` while telemetry is disabled.
    /// The end mark is the label followed by `-end`.
    pub fn end_span(&self, span: TelemetrySpan) -> (r: Option<SpanEnd>)
        ensures
            !self@ ==> r is None,
            self@ ==> (r matches Some(e) && e.label@ == span.label@ && e.mark_start@
                == span.mark_start@ && e.mark_end@ == span.label@ + "-end"@ && e.error_message
                is None),
    {
        if !self.enabled {
            return None;
        }
        let mark_end = concat(span.label.as_str(), "-end");
        Some(SpanEnd { label: span.label, mark_start: span.mark_start, mark_end, error_message: None })
    }

    /// Close `span` of a failed operation: what to record, or `None` while
    /// telemetry is disabled. The end mark is the label followed by
    /// `-error`, and the console line reads
    /// `[streamline] {label} failed: {error}`.
    pub fn end_span_with_error(&self, span: TelemetrySpan, error: &str) -> (r: Option<SpanEnd>)
        ensures
            !self@ ==> r is None,
            self@ ==> (r matches Some(e) && e.label@ == span.label@ && e.mark_start@
                == span.mark_start@ && e.mark_end@ == span.label@ + "-error"@ && (e.error_message
                matches Some(m) && m@ == "[streamline] "@ + span.label@ + " failed: "@ + error@)),
    {
        if !self.enabled {
            return None;
        }
        let mark_end = concat(span.label.as_str(), "-error");
        let mut message = concat("[streamline] ", span.label.as_str());
        message.append(" failed: ");
        message.append(error);
        Some(
            SpanEnd {
                label: span.label,
                mark_start: span.mark_start,
                mark_end,
                error_message: Some(message),
            },
        )
    }
}

// ── W3C trace context ────────────────────────────────────────────────
/// The pieces of `s` between `-` characters, as `str::split('-')` yields
/// them: one more piece than there are dashes, empty pieces included.
pub open spec fn dash_parts(s: Seq<char>) -> Seq<Seq<char>>
    decreases s.len(),
{
    if s.len() == 0 {
        seq![Seq::<char>::empty()]
    } else {
        let p = dash_parts(s.drop_last());
        if s.last() == '-' {
            p.push(Seq::<char>::empty())
        } else {
            p.update(p.len() - 1, p.last().push(s.last()))
        }
    }
}

/// The fields of a `traceparent` header.
#[derive(Debug)]
pub struct TraceParent {
    pub version: String,
    pub trace_id: String,
    pub span_id: String,
    pub trace_flags: String,
}

/// `c` is a lowercase hexadecimal digit.
pub open spec fn is_lower_hex(c: char) -> bool {
    ('0' <= c && c <= '9') || ('a' <= c && c <= 'f')
}

/// `s` is exactly `n` lowercase hexadecimal digits.
pub open spec fn is_hex_field(s: Seq<char>, n: nat) -> bool {
    s.len() == n && forall|i: int| 0 <= i < s.len() ==> is_lower_hex(#[trigger] s[i])
}

/// `s` is a valid version-`00` W3C `traceparent` header: exactly four
/// dash-separated pieces, the version `00`, a trace identifier of 32
/// lowercase hexadecimal digits, a span identifier of 16 and flags of 2.
pub open spec fn is_traceparent(s: Seq<char>) -> bool {
    let p = dash_parts(s);
    &&& p.len() == 4
    &&& p[0] == "00"@
    &&& is_hex_field(p[1], 32)
    &&& is_hex_field(p[2], 16)
    &&& is_hex_field(p[3], 2)
}

/// Whether `s` is exactly `n` lowercase hexadecimal digits.
fn hex_field(s: &str, n: usize) -> (r: bool)
    ensures
        r == is_hex_field(s@, n as nat),
{
    if s.unicode_len() != n {
        return false;
    }
    let mut i: usize = 0;
    while i < n
        invariant
            n == s@.len(),
            i <= n,
            forall|j: int| 0 <= j < i ==> is_lower_hex(#[trigger] s@[j]),
        decreases n - i,
    {
        let c = s.get_char(i);
        if !(('0' <= c && c <= '9') || ('a' <= c && c <= 'f')) {
            return false;
        }
        i = i + 1;
    }
    true
}

proof fn lemma_parts_nonempty(s: Seq<char>)
    ensures
        dash_parts(s).len() >= 1,
    decreases s.len(),
{
    if s.len() > 0 {
        lemma_parts_nonempty(s.drop_last());
    }
}

/// Split a `traceparent` header into its fields: `None` unless it is a
/// valid version-`00` header (see `is_traceparent`).
pub fn parse_traceparent(traceparent: &str) -> (r: Option<TraceParent>)
    ensures
        is_traceparent(traceparent@) <==> r is Some,
        r matches Some(t) ==> t.version@ == dash_parts(traceparent@)[0] && t.trace_id@
            == dash_parts(traceparent@)[1] && t.span_id@ == dash_parts(traceparent@)[2]
            && t.trace_flags@ == dash_parts(traceparent@)[3],
{
    let n = traceparent.unicode_len();
    let mut parts: Vec<String> = Vec::new();
    let mut cur = String::new();
    let mut i: usize = 0;
    assert(traceparent@.take(0) =~= Seq::<char>::empty());
    while i < n
        invariant
            n == traceparent@.len(),
            i <= n,
            parts@.map_values(|p: String| p@).push(cur@) == dash_parts(traceparent@.take(i as int)),
        decreases n - i,
    {
        let c = traceparent.get_char(i);
        let ghost before = parts@.map_values(|p: String| p@).push(cur@);
        assert(traceparent@.take(i + 1).drop_last() =~= traceparent@.take(i as int));
        assert(traceparent@.take(i + 1).last() == c);
        if c == '-' {
            parts.push(cur);
            cur = String::new();
            assert(parts@.map_values(|p: String| p@).push(cur@) =~= before.push(
                Seq::<char>::empty(),
            ));
        } else {
            push_char(&mut cur, c);
            assert(parts@.map_values(|p: String| p@).push(cur@) =~= before.update(
                before.len() - 1,
                before.last().push(c),
            ));
        }
        i = i + 1;
    }
    assert(traceparent@.take(n as int) =~= traceparent@);
    let ghost pv = parts@.map_values(|p: String| p@).push(cur@);
    if parts.len() != 3 {
        return None;
    }
    assert(pv[0] == parts@[0]@);
    assert(pv[1] == parts@[1]@);
    assert(pv[2] == parts@[2]@);
    assert(pv[3] == cur@);
    if !crate::text::str_eq(parts[0].as_str(), "00") {
        return None;
    }
    if !hex_field(parts[1].as_str(), 32) || !hex_field(parts[2].as_str(), 16) || !hex_field(
        cur.as_str(),
        2,
    ) {
        return None;
    }
    let trace_flags = cur;
    let span_id = parts.pop().unwrap();
    let trace_id = parts.pop().unwrap();
    let version = parts.pop().unwrap();
    Some(TraceParent { version, trace_id, span_id, trace_flags })
}

proof fn lemma_parts_without_dash(s: Seq<char>)
    requires
        forall|i: int| 0 <= i < s.len() ==> s[i] != '-',
    ensures
        dash_parts(s) == seq![s],
    decreases s.len(),
{
    if s.len() > 0 {
        lemma_parts_without_dash(s.drop_last());
        assert(s.drop_last().push(s.last()) =~= s);
        assert(seq![s.drop_last()].update(0, s.drop_last().push(s.last())) =~= seq![s]);
    } else {
        assert(s =~= Seq::<char>::empty());
    }
}

proof fn lemma_parts_concat(a: Seq<char>, b: Seq<char>)
    ensures
        dash_parts(a + seq!['-'] + b) == dash_parts(a) + dash_parts(b),
    decreases b.len(),
{
    let x = a + seq!['-'] + b;
    if b.len() == 0 {
        assert(x.drop_last() =~= a);
        assert(dash_parts(a).push(Seq::<char>::empty()) =~= dash_parts(a) + dash_parts(b));
    } else {
        let b1 = b.drop_last();
        lemma_parts_concat(a, b1);
        lemma_parts_nonempty(b1);
        assert(x.drop_last() =~= a + seq!['-'] + b1);
        let pa = dash_parts(a);
        let pb = dash_parts(b1);
        if b.last() == '-' {
            assert((pa + pb).push(Seq::<char>::empty()) =~= pa + pb.push(Seq::<char>::empty()));
        } else {
            let p = pa + pb;
            assert(p.update(p.len() - 1, p.last().push(b.last())) =~= pa + pb.update(
                pb.len() - 1,
                pb.last().push(b.last()),
            ));
        }
    }
}

/// Every version-`00` header whose trace identifier is 32 lowercase
/// hexadecimal digits and whose span identifier is 16 is valid, whatever its
/// two lowercase hexadecimal digits of flags (`01` sampled, `00` not
/// sampled, or any other), and it splits into exactly the version, the two
/// identifiers and the flags as written, so `parse_traceparent` returns them
/// as given.
pub proof fn lemma_any_flags_parse(trace_id: Seq<char>, span_id: Seq<char>, flags: Seq<char>)
    requires
        trace_id.len() == 32,
        span_id.len() == 16,
        flags.len() == 2,
        forall|i: int| 0 <= i < 32 ==> ('0' <= #[trigger] trace_id[i] <= '9' || 'a' <= trace_id[i] <= 'f'),
        forall|i: int| 0 <= i < 16 ==> ('0' <= #[trigger] span_id[i] <= '9' || 'a' <= span_id[i] <= 'f'),
        forall|i: int| 0 <= i < 2 ==> ('0' <= #[trigger] flags[i] <= '9' || 'a' <= flags[i] <= 'f'),
    ensures
        is_traceparent("00-"@ + trace_id + "-"@ + span_id + "-"@ + flags),
        dash_parts("00-"@ + trace_id + "-"@ + span_id + "-"@ + flags) == seq!["00"@, trace_id, span_id, flags],
{
    reveal_strlit("00-");
    reveal_strlit("-");
    reveal_strlit("00");
    lemma_parts_without_dash(trace_id);
    lemma_parts_without_dash(span_id);
    lemma_parts_without_dash(flags);
    lemma_parts_without_dash("00"@);
    let tail = span_id + seq!['-'] + flags;
    lemma_parts_concat(span_id, flags);
    let mid = trace_id + seq!['-'] + tail;
    lemma_parts_concat(trace_id, tail);
    lemma_parts_concat("00"@, mid);
    let h = "00-"@ + trace_id + "-"@ + span_id + "-"@ + flags;
    assert(h =~= "00"@ + seq!['-'] + mid);
    assert(dash_parts(h) =~= seq!["00"@, trace_id, span_id, flags]);
}

/// Every header that is accepted has version `00`, a trace identifier of
/// exactly 32 and a span identifier of exactly 16 lowercase hexadecimal
/// digits, and exactly two lowercase hexadecimal digits of flags.
pub proof fn lemma_accepted_header_shape(h: Seq<char>)
    requires
        is_traceparent(h),
    ensures
        dash_parts(h).len() == 4,
        dash_parts(h)[0] == "00"@,
        dash_parts(h)[1].len() == 32 && dash_parts(h)[2].len() == 16 && dash_parts(h)[3].len() == 2,
        forall|k: int, i: int| 1 <= k < 4 && 0 <= i < dash_parts(h)[k].len() ==> ('0' <= #[trigger] dash_parts(h)[k][i] <= '9'
            || 'a' <= dash_parts(h)[k][i] <= 'f'),
{
    let p = dash_parts(h);
    assert forall|k: int, i: int| 1 <= k < 4 && 0 <= i < p[k].len() implies ('0' <= #[trigger] p[k][i] <= '9' || 'a' <= p[k][i] <= 'f') by {
        if k == 1 {
            assert(is_lower_hex(p[1][i]));
        } else if k == 2 {
            assert(is_lower_hex(p[2][i]));
        } else {
            assert(is_lower_hex(p[3][i]));
        }
    }
}

/// A header that `generate_traceparent` writes from 32 trace nibbles and 16
/// span nibbles splits back into version `00`, the trace identifier, the
/// span identifier and the flags `01`, and is valid, so `parse_traceparent`
/// accepts it and returns those fields.
pub proof fn lemma_traceparent_round_trip(trace_nibbles: Seq<u8>, span_nibbles: Seq<u8>)
    requires
        trace_nibbles.len() == 32,
        span_nibbles.len() == 16,
    ensures
        is_traceparent(traceparent_text(hex_id(trace_nibbles), hex_id(span_nibbles))),
        dash_parts(traceparent_text(hex_id(trace_nibbles), hex_id(span_nibbles))) == seq![
            "00"@,
            hex_id(trace_nibbles),
            hex_id(span_nibbles),
            "01"@,
        ],
{
    let t = hex_id(trace_nibbles);
    let s = hex_id(span_nibbles);
    reveal_strlit("00-");
    reveal_strlit("-");
    reveal_strlit("-01");
    reveal_strlit("00");
    reveal_strlit("01");
    reveal_strlit("0123456789abcdef");
    assert forall|i: int| 0 <= i < t.len() implies t[i] != '-' by {
        assert(t[i] == hex_char(trace_nibbles[i]));
    }
    assert forall|i: int| 0 <= i < s.len() implies s[i] != '-' by {
        assert(s[i] == hex_char(span_nibbles[i]));
    }
    lemma_parts_without_dash(t);
    lemma_parts_without_dash(s);
    lemma_parts_without_dash("00"@);
    lemma_parts_without_dash("01"@);
    let tail = s + seq!['-'] + "01"@;
    lemma_parts_concat(s, "01"@);
    let mid = t + seq!['-'] + tail;
    lemma_parts_concat(t, tail);
    lemma_parts_concat("00"@, mid);
    assert(traceparent_text(t, s) =~= "00"@ + seq!['-'] + mid);
    assert(dash_parts(traceparent_text(t, s)) =~= seq!["00"@, t, s, "01"@]);
    assert forall|i: int| 0 <= i < t.len() implies is_lower_hex(#[trigger] t[i]) by {
        lemma_hex_char_is_digit(trace_nibbles[i]);
    }
    assert forall|i: int| 0 <= i < s.len() implies is_lower_hex(#[trigger] s[i]) by {
        lemma_hex_char_is_digit(span_nibbles[i]);
    }
}

proof fn lemma_hex_char_is_digit(n: u8)
    ensures
        is_lower_hex(hex_char(n)),
{
    reveal_strlit("0123456789abcdef");
}

/// The lowercase hexadecimal digit of `n` below 16, and `0` for anything
/// larger (`char::from_digit(n, 16).unwrap_or('0')`).
pub open spec fn hex_char(n: u8) -> char {
    if n < 16 {
        "0123456789abcdef"@[n as int]
    } else {
        '0'
    }
}

fn hex_digit(n: u8) -> (c: char)
    ensures
        c == hex_char(n),
{
    proof {
        reveal_strlit("0123456789abcdef");
    }
    match n {
        0 => '0',
        1 => '1',
        2 => '2',
        3 => '3',
        4 => '4',
        5 => '5',
        6 => '6',
        7 => '7',
        8 => '8',
        9 => '9',
        10 => 'a',
        11 => 'b',
        12 => 'c',
        13 => 'd',
        14 => 'e',
        15 => 'f',
        _ => '0',
    }
}

/// Each nibble below 16 is spelled by its own lowercase hexadecimal digit:
/// `0`-`9` for 0 to 9 and `a`-`f` for 10 to 15; larger values give `0`.
pub proof fn lemma_hex_char_value(n: u8)
    ensures
        n < 10 ==> hex_char(n) as u32 == 48 + n,
        10 <= n < 16 ==> hex_char(n) as u32 == 87 + n,
        n >= 16 ==> hex_char(n) == '0',
{
    reveal_strlit("0123456789abcdef");
    let d = "0123456789abcdef"@;
    assert(d =~= seq!['0', '1', '2', '3', '4', '5', '6', '7', '8', '9', 'a', 'b', 'c', 'd', 'e', 'f']);
    if n < 16 {
        if n == 0 {} else if n == 1 {} else if n == 2 {} else if n == 3 {} else if n == 4 {}
        else if n == 5 {} else if n == 6 {} else if n == 7 {} else if n == 8 {} else if n == 9 {}
        else if n == 10 {} else if n == 11 {} else if n == 12 {} else if n == 13 {} else if n == 14 {}
        else {}
    }
}

/// The identifier spelled by `nibbles`, one hexadecimal digit per entry.
pub open spec fn hex_id(nibbles: Seq<u8>) -> Seq<char> {
    nibbles.map_values(|n: u8| hex_char(n))
}

/// Spell the random `nibbles` as a hexadecimal identifier.
pub fn generate_hex_id(nibbles: &Vec<u8>) -> (id: String)
    ensures
        id@ == hex_id(nibbles@),
{
    let mut id = String::new();
    let mut i: usize = 0;
    while i < nibbles.len()
        invariant
            i <= nibbles@.len(),
            id@ == hex_id(nibbles@.take(i as int)),
        decreases nibbles@.len() - i,
    {
        push_char(&mut id, hex_digit(nibbles[i]));
        assert(hex_id(nibbles@.take(i + 1)) =~= hex_id(nibbles@.take(i as int)).push(
            hex_char(nibbles@[i as int]),
        ));
        i = i + 1;
    }
    assert(nibbles@.take(nibbles@.len() as int) =~= nibbles@);
    id
}

/// The header `00-{trace_id}-{span_id}-01`.
pub open spec fn traceparent_text(trace_id: Seq<char>, span_id: Seq<char>) -> Seq<char> {
    "00-"@ + trace_id + "-"@ + span_id + "-01"@
}

/// A `traceparent` header whose trace and span identifiers are spelled by
/// the random nibbles given (32 and 16 of them in a standard header).
pub fn generate_traceparent(trace_nibbles: &Vec<u8>, span_nibbles: &Vec<u8>) -> (h: String)
    ensures
        h@ == traceparent_text(hex_id(trace_nibbles@), hex_id(span_nibbles@)),
{
    let trace_id = generate_hex_id(trace_nibbles);
    let span_id = generate_hex_id(span_nibbles);
    let mut h = String::from_str("00-");
    h.append(trace_id.as_str());
    h.append("-");
    h.append(span_id.as_str());
    h.append("-01");
    h
}

} // verus!
