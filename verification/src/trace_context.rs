//! Trace contexts compatible with the W3C `traceparent` header, and the
//! settings of structured logging.

use vstd::prelude::*;
use crate::platform::{fresh_uuid_bits, now_utc};
use vstd::string::StrSliceExecFns;
use vstd::string::StringExecFns;

verus! {

/// The settings of structured logging.
#[derive(Debug)]
pub struct TracingConfig {
    /// `trace`, `debug`, `info`, `warn` or `error`.
    pub level: String,
    /// Whether log lines are JSON.
    pub json: bool,
    /// `stdout`, `stderr` or a file path.
    pub target: String,
}

/// Where logs go when nothing else is said: `stdout`.
pub fn default_target() -> (r: String)
    ensures
        r@ == "stdout"@,
{
    String::from_str("stdout")
}

/// Whether `c` is a lower-case hexadecimal digit.
pub open spec fn is_hex_digit(c: char) -> bool {
    ('0' <= c && c <= '9') || ('a' <= c && c <= 'f')
}

/// Whether `s` is made of lower-case hexadecimal digits only.
pub open spec fn is_hex_text(s: Seq<char>) -> bool {
    forall|i: int| 0 <= i < s.len() ==> is_hex_digit(#[trigger] s[i])
}

/// The lower-case hexadecimal digit of a value below 16.
fn hex_digit(n: u8) -> (r: &'static str)
    requires
        n < 16,
    ensures
        r@.len() == 1,
        is_hex_digit(r@[0]),
{
    proof {
        reveal_strlit("0");
        reveal_strlit("1");
        reveal_strlit("2");
        reveal_strlit("3");
        reveal_strlit("4");
        reveal_strlit("5");
        reveal_strlit("6");
        reveal_strlit("7");
        reveal_strlit("8");
        reveal_strlit("9");
        reveal_strlit("a");
        reveal_strlit("b");
        reveal_strlit("c");
        reveal_strlit("d");
        reveal_strlit("e");
        reveal_strlit("f");
    }
    match n {
        0 => "0",
        1 => "1",
        2 => "2",
        3 => "3",
        4 => "4",
        5 => "5",
        6 => "6",
        7 => "7",
        8 => "8",
        9 => "9",
        10 => "a",
        11 => "b",
        12 => "c",
        13 => "d",
        14 => "e",
        _ => "f",
    }
}

/// Checks whether `s` is exactly `n` lower-case hexadecimal digits.
fn hex_field(s: &str, n: usize) -> (r: bool)
    ensures
        r == is_hex_field(s@, n as nat),
{
    if s.unicode_len() != n {
        return false;
    }
    let mut i: usize = 0;
    while i < n
        invariant
            n == s@.len(),
            i <= n,
            forall|j: int| 0 <= j < i ==> is_hex_digit(#[trigger] s@[j]),
        decreases n - i,
    {
        let c = s.get_char(i);
        if !(('0' <= c && c <= '9') || ('a' <= c && c <= 'f')) {
            assert(!is_hex_digit(s@[i as int]));
            return false;
        }
        i = i + 1;
    }
    true
}

/// `byte_len` bytes in lower-case hexadecimal, each mixed from the low byte
/// of a fresh random UUID, the low byte of the clock's nanoseconds and a
/// counter. Nothing is promised of the digits beyond their form.
fn random_hex(byte_len: usize) -> (r: String)
    requires
        byte_len <= 1024,
    ensures
        r@.len() == 2 * byte_len,
        is_hex_text(r@),
{
    let mut buf = String::from_str("");
    proof {
        reveal_strlit("");
    }
    let mut counter: u8 = 0;
    let mut i: usize = 0;
    while i < byte_len
        invariant
            i <= byte_len <= 1024,
            buf@.len() == 2 * i,
            is_hex_text(buf@),
        decreases byte_len - i,
    {
        let noise = fresh_uuid_bits() as u8;
        let clock = now_utc().nanos as u8;
        let b: u8 = noise.wrapping_add(clock.wrapping_add(counter));
        counter = counter.wrapping_add(1);
        let hi = hex_digit(b / 16);
        let lo = hex_digit(b % 16);
        let ghost before = buf@;
        buf.append(hi);
        buf.append(lo);
        assert(buf@ == before + hi@ + lo@);
        assert forall|j: int| 0 <= j < buf@.len() implies is_hex_digit(#[trigger] buf@[j]) by {
            if j < before.len() {
                assert(buf@[j] == before[j]);
            } else if j == before.len() {
                assert(buf@[j] == hi@[0]);
            } else {
                assert(buf@[j] == lo@[0]);
            }
        }
        i = i + 1;
    }
    buf
}

/// The parts of `s` between dashes, in order: `s` split at every `-`, as
/// `str::split('-')` does. There is always at least one part.
pub open spec fn split_dash(s: Seq<char>) -> Seq<Seq<char>>
    decreases s.len(),
{
    if s.len() == 0 {
        seq![Seq::<char>::empty()]
    } else {
        let init = split_dash(s.drop_last());
        if s.last() == '-' {
            init.push(Seq::<char>::empty())
        } else {
            init.update(init.len() - 1, init.last().push(s.last()))
        }
    }
}

/// Splitting never yields nothing.
pub proof fn lemma_split_dash_nonempty(s: Seq<char>)
    ensures
        split_dash(s).len() >= 1,
    decreases s.len(),
{
    if s.len() > 0 {
        lemma_split_dash_nonempty(s.drop_last());
    }
}

/// Splits `s` at every `-`.
pub fn split_dash_exec(s: &str) -> (r: Vec<String>)
    ensures
        r@.map_values(|p: String| p@) == split_dash(s@),
{
    let n = s.unicode_len();
    let mut parts: Vec<String> = Vec::new();
    let mut start: usize = 0;
    let mut i: usize = 0;
    assert(s@.take(0) =~= Seq::<char>::empty());
    assert(parts@.map_values(|p: String| p@).push(s@.subrange(0, 0)) =~= seq![Seq::<char>::empty()]);
    while i < n
        invariant
            n == s@.len(),
            start <= i <= n,
            parts@.map_values(|p: String| p@).push(s@.subrange(start as int, i as int)) == split_dash(
                s@.take(i as int),
            ),
        decreases n - i,
    {
        let ghost prefix = s@.take(i + 1);
        assert(prefix.drop_last() =~= s@.take(i as int));
        assert(prefix.last() == s@[i as int]);
        proof {
            lemma_split_dash_nonempty(s@.take(i as int));
        }
        let c = s.get_char(i);
        if c == '-' {
            let part = String::from_str(s.substring_char(start, i));
            let ghost before = parts@.map_values(|p: String| p@);
            parts.push(part);
            assert(parts@.map_values(|p: String| p@) =~= before.push(s@.subrange(start as int, i as int)));
            start = i + 1;
            assert(s@.subrange(start as int, (i + 1) as int) =~= Seq::<char>::empty());
            assert(parts@.map_values(|p: String| p@).push(s@.subrange(start as int, (i + 1) as int))
                =~= split_dash(prefix));
        } else {
            assert(s@.subrange(start as int, (i + 1) as int) =~= s@.subrange(start as int, i as int).push(c));
            assert(parts@.map_values(|p: String| p@).push(s@.subrange(start as int, (i + 1) as int))
                =~= split_dash(prefix));
        }
        i = i + 1;
    }
    let last = String::from_str(s.substring_char(start, n));
    let ghost before = parts@.map_values(|p: String| p@);
    parts.push(last);
    assert(parts@.map_values(|p: String| p@) =~= before.push(s@.subrange(start as int, n as int)));
    assert(s@.take(n as int) =~= s@);
    parts
}

/// A text without a dash is a single part.
pub proof fn lemma_split_dash_single(s: Seq<char>)
    requires
        !s.contains('-'),
    ensures
        split_dash(s) == seq![s],
    decreases s.len(),
{
    if s.len() > 0 {
        let init = s.drop_last();
        assert(!init.contains('-')) by {
            if init.contains('-') {
                let k = choose|k: int| 0 <= k < init.len() && init[k] == '-';
                assert(s[k] == '-');
            }
        }
        lemma_split_dash_single(init);
        assert(s.last() != '-') by {
            assert(s[s.len() - 1] == s.last());
        }
        assert(init.push(s.last()) =~= s);
        assert(split_dash(s) =~= seq![s]);
    } else {
        assert(s =~= Seq::<char>::empty());
    }
}

/// Splitting at a dash splits the text into the parts before it and the
/// parts after it.
pub proof fn lemma_split_dash_concat(x: Seq<char>, y: Seq<char>)
    ensures
        split_dash(x + seq!['-'] + y) == split_dash(x) + split_dash(y),
    decreases y.len(),
{
    let xy = x + seq!['-'] + y;
    lemma_split_dash_nonempty(y);
    if y.len() == 0 {
        assert(xy.drop_last() =~= x);
        assert(xy.last() == '-');
        assert(split_dash(y) =~= seq![Seq::<char>::empty()]);
        assert(split_dash(xy) =~= split_dash(x) + split_dash(y));
    } else {
        let y0 = y.drop_last();
        lemma_split_dash_concat(x, y0);
        lemma_split_dash_nonempty(y0);
        assert(xy.drop_last() =~= x + seq!['-'] + y0);
        assert(xy.last() == y.last());
        let a = split_dash(x);
        let b = split_dash(y0);
        if y.last() == '-' {
            assert(split_dash(xy) =~= a + b.push(Seq::<char>::empty()));
        } else {
            assert((a + b).last() == b.last());
            assert(split_dash(xy) =~= a + b.update(b.len() - 1, b.last().push(y.last())));
        }
    }
}

/// Every header `00-{trace}-{span}-{flags}` with a trace id of 32, a span id
/// of 16 and flags of 2 lower-case hexadecimal digits names that trace and
/// span, whatever the flags (sampled or not).
pub proof fn lemma_traceparent_accepts_any_flags(
    trace_id: Seq<char>,
    span_id: Seq<char>,
    flags: Seq<char>,
)
    requires
        is_hex_field(trace_id, 32),
        is_hex_field(span_id, 16),
        is_hex_field(flags, 2),
    ensures
        parse_traceparent("00-"@ + trace_id + "-"@ + span_id + "-"@ + flags) == Some(
            (trace_id, span_id),
        ),
{
    reveal_strlit("00-");
    reveal_strlit("-");
    reveal_strlit("00");
    lemma_hex_text_has_no_dash(trace_id);
    lemma_hex_text_has_no_dash(span_id);
    lemma_hex_text_has_no_dash(flags);
    let zz = seq!['0', '0'];
    let text = "00-"@ + trace_id + "-"@ + span_id + "-"@ + flags;
    assert(text =~= zz + seq!['-'] + (trace_id + seq!['-'] + (span_id + seq!['-'] + flags)));
    lemma_split_dash_concat(zz, trace_id + seq!['-'] + (span_id + seq!['-'] + flags));
    lemma_split_dash_concat(trace_id, span_id + seq!['-'] + flags);
    lemma_split_dash_concat(span_id, flags);
    assert(!zz.contains('-')) by {
        assert(zz[0] != '-' && zz[1] != '-');
    }
    lemma_split_dash_single(zz);
    lemma_split_dash_single(flags);
    lemma_split_dash_single(trace_id);
    lemma_split_dash_single(span_id);
    assert(split_dash(text) =~= seq![zz, trace_id, span_id, flags]);
    assert("00"@ =~= zz);
}

/// A trace context read back from its own `traceparent` header has the same
/// trace id and span id, provided they are 32 and 16 lower-case hexadecimal
/// digits (as those made by [`TraceContext::new`] and
/// [`TraceContext::child_span`] are).
pub proof fn lemma_traceparent_roundtrip(trace_id: Seq<char>, span_id: Seq<char>)
    requires
        is_hex_field(trace_id, 32),
        is_hex_field(span_id, 16),
    ensures
        parse_traceparent(traceparent_text(trace_id, span_id)) == Some((trace_id, span_id)),
{
    reveal_strlit("-01");
    reveal_strlit("-");
    let zo = seq!['0', '1'];
    assert(is_hex_field(zo, 2)) by {
        assert forall|i: int| 0 <= i < zo.len() implies is_hex_digit(#[trigger] zo[i]) by {}
    }
    assert(traceparent_text(trace_id, span_id) =~= "00-"@ + trace_id + "-"@ + span_id + "-"@ + zo);
    lemma_traceparent_accepts_any_flags(trace_id, span_id, zo);
}

/// Hexadecimal text holds no dash.
pub proof fn lemma_hex_text_has_no_dash(s: Seq<char>)
    requires
        is_hex_text(s),
    ensures
        !s.contains('-'),
{
    if s.contains('-') {
        let k = choose|k: int| 0 <= k < s.len() && s[k] == '-';
        assert(is_hex_digit(s[k]));
    }
}

/// A trace context: a trace, a span within it, and the correlation of an
/// agent or session.
#[derive(Debug, PartialEq, Eq)]
pub struct TraceContext {
    /// 32 hexadecimal digits.
    pub trace_id: String,
    /// 16 hexadecimal digits.
    pub span_id: String,
    pub correlation_id: String,
}

/// The `traceparent` header of a trace and span: `00-{trace}-{span}-01`.
pub open spec fn traceparent_text(trace_id: Seq<char>, span_id: Seq<char>) -> Seq<char> {
    "00-"@ + trace_id + "-"@ + span_id + "-01"@
}

/// Whether `s` is exactly `n` lower-case hexadecimal digits.
pub open spec fn is_hex_field(s: Seq<char>, n: nat) -> bool {
    s.len() == n && is_hex_text(s)
}

/// The trace and span a `traceparent` header names: the header must split at
/// dashes into exactly four parts: the version `00`, a trace id of 32
/// lower-case hexadecimal digits, a span id of 16, and flags of 2.
pub open spec fn parse_traceparent(header: Seq<char>) -> Option<(Seq<char>, Seq<char>)> {
    let parts = split_dash(header);
    if parts.len() == 4 && parts[0] == "00"@ && is_hex_field(parts[1], 32) && is_hex_field(
        parts[2],
        16,
    ) && is_hex_field(parts[3], 2) {
        Some((parts[1], parts[2]))
    } else {
        None
    }
}

impl Clone for TraceContext {
    fn clone(&self) -> (r: Self)
        ensures
            r.trace_id@ == self.trace_id@,
            r.span_id@ == self.span_id@,
            r.correlation_id@ == self.correlation_id@,
    {
        TraceContext {
            trace_id: self.trace_id.clone(),
            span_id: self.span_id.clone(),
            correlation_id: self.correlation_id.clone(),
        }
    }
}

impl TraceContext {
    /// A new trace with a random trace id (32 hexadecimal digits) and span id
    /// (16 hexadecimal digits).
    pub fn new(correlation_id: &str) -> (r: Self)
        ensures
            r.trace_id@.len() == 32,
            is_hex_text(r.trace_id@),
            r.span_id@.len() == 16,
            is_hex_text(r.span_id@),
            r.correlation_id@ == correlation_id@,
    {
        TraceContext {
            trace_id: random_hex(16),
            span_id: random_hex(8),
            correlation_id: String::from_str(correlation_id),
        }
    }

    /// A child span: the same trace and correlation, a new random span id.
    pub fn child_span(&self) -> (r: Self)
        ensures
            r.trace_id@ == self.trace_id@,
            r.correlation_id@ == self.correlation_id@,
            r.span_id@.len() == 16,
            is_hex_text(r.span_id@),
    {
        TraceContext {
            trace_id: self.trace_id.clone(),
            span_id: random_hex(8),
            correlation_id: self.correlation_id.clone(),
        }
    }

    /// The W3C `traceparent` header: `00-{trace_id}-{span_id}-01`.
    pub fn to_traceparent(&self) -> (r: String)
        ensures
            r@ == traceparent_text(self.trace_id@, self.span_id@),
    {
        let mut out = String::from_str("00-");
        out.append(self.trace_id.as_str());
        out.append("-");
        out.append(self.span_id.as_str());
        out.append("-01");
        out
    }

    /// The context a `traceparent` header names, with an empty correlation;
    /// `None` unless the header is the version `00`, a trace id of 32
    /// lower-case hexadecimal digits, a span id of 16 and flags of 2,
    /// separated by dashes.
    pub fn from_traceparent(header: &str) -> (r: Option<Self>)
        ensures
            match parse_traceparent(header@) {
                Some((t, s)) => r matches Some(c) && c.trace_id@ == t && c.span_id@ == s
                    && c.correlation_id@ == Seq::<char>::empty(),
                None => r is None,
            },
    {
        let parts = split_dash_exec(header);
        let ghost views = parts@.map_values(|p: String| p@);
        if parts.len() != 4 {
            return None;
        }
        assert(views[0] == parts@[0]@);
        if !crate::text::str_equal(parts[0].as_str(), "00") {
            return None;
        }
        assert(views[1] == parts@[1]@);
        assert(views[2] == parts@[2]@);
        assert(views[3] == parts@[3]@);
        if !hex_field(parts[1].as_str(), 32) || !hex_field(parts[2].as_str(), 16) || !hex_field(
            parts[3].as_str(),
            2,
        ) {
            return None;
        }
        let c = TraceContext {
            trace_id: parts[1].clone(),
            span_id: parts[2].clone(),
            correlation_id: String::from_str(""),
        };
        proof {
            reveal_strlit("");
        }
        Some(c)
    }
}

} // verus!
