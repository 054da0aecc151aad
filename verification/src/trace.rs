//! The trace context that links a query's spans to the caller's trace: a W3C
//! `traceparent` (`00-<trace-id>-<parent-id>-<flags>`), given in the session
//! setting `pg_otel.traceparent` or in the query text after
//! `pg_otel.traceparent=`.

use vstd::prelude::*;
use vstd::utf8::*;
use vstd::string::StringSliceAdditionalSpecFns;

verus! {

/// The caller's trace and the caller's span, that the query span is a child of.
#[derive(Clone, Copy, Debug, PartialEq, Eq, Structural)]
pub struct TraceParent {
    pub trace_id: u128,
    pub parent_id: u64,
}

/// Whether a byte is a lower-case hexadecimal digit.
pub open spec fn is_hex_digit(b: u8) -> bool {
    (48 <= b && b <= 57) || (97 <= b && b <= 102)
}

/// The value of a lower-case hexadecimal digit.
pub open spec fn hex_value(b: u8) -> int {
    if b <= 57 {
        b - 48
    } else {
        b - 87
    }
}

/// The number that a sequence of hexadecimal digits spells, most significant first.
pub open spec fn hex_number(digits: Seq<u8>) -> int
    decreases digits.len(),
{
    if digits.len() == 0 {
        0
    } else {
        hex_number(digits.drop_last()) * 16 + hex_value(digits.last())
    }
}

/// Whether `bytes[start..end]` are all lower-case hexadecimal digits.
pub open spec fn all_hex(bytes: Seq<u8>, start: int, end: int) -> bool {
    forall|i: int| start <= i < end ==> is_hex_digit(bytes[i])
}

/// Whether `bytes` is a version-00 traceparent: `00-`, 32 hexadecimal digits of
/// trace id, `-`, 16 of parent id, `-`, 2 of flags (55 bytes in all), with
/// neither id all zeros.
pub open spec fn is_traceparent(bytes: Seq<u8>) -> bool {
    &&& bytes.len() == 55
    &&& bytes[0] == 48 && bytes[1] == 48
    &&& bytes[2] == 45 && bytes[35] == 45 && bytes[52] == 45
    &&& all_hex(bytes, 3, 35) && all_hex(bytes, 36, 52) && all_hex(bytes, 53, 55)
    &&& hex_number(bytes.subrange(3, 35)) != 0
    &&& hex_number(bytes.subrange(36, 52)) != 0
}

/// The trace context that a traceparent gives, if `bytes` is one.
pub open spec fn traceparent_spec(bytes: Seq<u8>) -> Option<TraceParent> {
    if is_traceparent(bytes) {
        Some(TraceParent {
            trace_id: hex_number(bytes.subrange(3, 35)) as u128,
            parent_id: hex_number(bytes.subrange(36, 52)) as u64,
        })
    } else {
        None
    }
}

spec fn pow16(n: nat) -> int
    decreases n,
{
    if n == 0 {
        1
    } else {
        16 * pow16((n - 1) as nat)
    }
}

proof fn lemma_hex_number_step(bytes: Seq<u8>, start: int, i: int)
    requires
        0 <= start <= i < bytes.len(),
    ensures
        hex_number(bytes.subrange(start, i + 1)) == hex_number(bytes.subrange(start, i)) * 16
            + hex_value(bytes[i]),
{
    assert(bytes.subrange(start, i + 1).drop_last() =~= bytes.subrange(start, i));
}

proof fn lemma_hex_number_concat(a: Seq<u8>, b: Seq<u8>)
    ensures
        hex_number(a + b) == hex_number(a) * pow16(b.len()) + hex_number(b),
    decreases b.len(),
{
    if b.len() == 0 {
        assert(a + b =~= a);
    } else {
        lemma_hex_number_concat(a, b.drop_last());
        assert((a + b).drop_last() =~= a + b.drop_last());
        assert(hex_number(a) * pow16(b.len()) == (hex_number(a) * pow16((b.len() - 1) as nat)) * 16)
            by (nonlinear_arith)
            requires
                pow16(b.len()) == 16 * pow16((b.len() - 1) as nat),
        ;
    }
}

/// The number spelt by the `count` hexadecimal digits at `start`.
fn hex_digits(bytes: &[u8], start: usize, count: usize) -> (r: u64)
    requires
        count <= 16,
        start + count <= bytes.len(),
        all_hex(bytes@, start as int, start + count),
    ensures
        r == hex_number(bytes@.subrange(start as int, start + count)),
{
    let end = start + count;
    let mut acc: u64 = 0;
    let mut i: usize = start;
    proof {
        assert(bytes@.subrange(start as int, start as int) =~= Seq::<u8>::empty());
        reveal_with_fuel(pow16, 17);
    }
    while i < end
        invariant
            start <= i <= start + count,
            end == start + count,
            count <= 16,
            start + count <= bytes@.len(),
            all_hex(bytes@, start as int, start + count),
            acc == hex_number(bytes@.subrange(start as int, i as int)),
            acc < pow16((i - start) as nat),
            pow16(16) == 0x1_0000_0000_0000_0000,
        decreases end - i,
    {
        let b = bytes[i];
        let v: u64 = if b <= 57 { (b - 48) as u64 } else { (b - 87) as u64 };
        proof {
            lemma_hex_number_step(bytes@, start as int, i as int);
            assert(pow16((i + 1 - start) as nat) == 16 * pow16((i - start) as nat));
            lemma_pow16_monotone((i + 1 - start) as nat, 16);
        }
        acc = acc * 16 + v;
        i = i + 1;
    }
    acc
}

proof fn lemma_pow16_monotone(a: nat, b: nat)
    requires
        a <= b,
    ensures
        pow16(a) <= pow16(b),
        pow16(a) > 0,
    decreases b,
{
    if a < b {
        lemma_pow16_monotone(a, (b - 1) as nat);
    } else if a > 0 {
        lemma_pow16_monotone((a - 1) as nat, (a - 1) as nat);
    }
}

fn check_hex(bytes: &[u8], start: usize, end: usize) -> (r: bool)
    requires
        start <= end <= bytes@.len(),
    ensures
        r == all_hex(bytes@, start as int, end as int),
{
    let mut i = start;
    while i < end
        invariant
            start <= i <= end <= bytes@.len(),
            all_hex(bytes@, start as int, i as int),
        decreases end - i,
    {
        let b = bytes[i];
        if !((48 <= b && b <= 57) || (97 <= b && b <= 102)) {
            return false;
        }
        i = i + 1;
    }
    true
}

/// Reads a traceparent: `None` when `bytes` is not a version-00 traceparent
/// with non-zero ids.
pub fn parse_traceparent(bytes: &[u8]) -> (r: Option<TraceParent>)
    ensures
        r == traceparent_spec(bytes@),
{
    if bytes.len() != 55 || bytes[0] != 48 || bytes[1] != 48 || bytes[2] != 45 || bytes[35] != 45
        || bytes[52] != 45 {
        return None;
    }
    if !check_hex(bytes, 3, 35) || !check_hex(bytes, 36, 52) || !check_hex(bytes, 53, 55) {
        return None;
    }
    let high = hex_digits(bytes, 3, 16);
    let low = hex_digits(bytes, 19, 16);
    let parent_id = hex_digits(bytes, 36, 16);
    proof {
        let s = bytes@;
        assert(s.subrange(3, 35) =~= s.subrange(3, 19) + s.subrange(19, 35));
        lemma_hex_number_concat(s.subrange(3, 19), s.subrange(19, 35));
        reveal_with_fuel(pow16, 17);
    }
    let trace_id: u128 = (high as u128) * 0x1_0000_0000_0000_0000u128 + (low as u128);
    if trace_id == 0 || parent_id == 0 {
        return None;
    }
    Some(TraceParent { trace_id, parent_id })
}

/// The bytes of `pg_otel.traceparent=`, the marker after which a query's text
/// may give a traceparent.
pub open spec fn traceparent_marker() -> Seq<u8> {
    encode_utf8("pg_otel.traceparent="@)
}

/// The first position at or after `from` where the marker starts in `text`.
pub open spec fn find_marker(text: Seq<u8>, from: int) -> Option<int>
    decreases text.len() + 1 - from,
{
    if from < 0 || from + traceparent_marker().len() > text.len() {
        None
    } else if text.subrange(from, from + traceparent_marker().len()) == traceparent_marker() {
        Some(from)
    } else {
        find_marker(text, from + 1)
    }
}

/// The trace context that a query's text gives: the 55 bytes after the first
/// `pg_otel.traceparent=` (as written in a comment such as
/// `/* pg_otel.traceparent=... */`), when they form a traceparent.
pub open spec fn query_text_traceparent(text: Seq<u8>) -> Option<TraceParent> {
    match find_marker(text, 0) {
        None => None,
        Some(at) => {
            let start = at + traceparent_marker().len();
            if start + 55 <= text.len() {
                traceparent_spec(text.subrange(start, start + 55))
            } else {
                None
            }
        },
    }
}

/// Reads the traceparent that a query's text gives after its first
/// `pg_otel.traceparent=`.
pub fn traceparent_from_query_text(text: &[u8]) -> (r: Option<TraceParent>)
    ensures
        r == query_text_traceparent(text@),
{
    let marker = "pg_otel.traceparent=".as_bytes();
    let m = marker.len();
    let n = text.len();
    proof {
        reveal_strlit("pg_otel.traceparent=");
        crate::text::lemma_encode_utf8_len_bound("pg_otel.traceparent="@);
    }
    if m > n {
        return None;
    }
    let mut at: usize = 0;
    while at <= n - m
        invariant
            marker@ == traceparent_marker(),
            m == marker@.len(),
            m > 0,
            n == text@.len(),
            m <= n,
            at <= n - m + 1,
            find_marker(text@, 0) == find_marker(text@, at as int),
        decreases n - at,
    {
        if marker_at(text, marker, at) {
            let start = at + m;
            if n - start < 55 {
                return None;
            }
            let candidate = slice_range(text, start, start + 55);
            return parse_traceparent(candidate);
        }
        at = at + 1;
    }
    None
}

/// Whether `marker` stands in `text` at `at`.
fn marker_at(text: &[u8], marker: &[u8], at: usize) -> (r: bool)
    requires
        at + marker.len() <= text.len(),
    ensures
        r == (text@.subrange(at as int, at + marker@.len()) == marker@),
{
    let m = marker.len();
    let mut j: usize = 0;
    while j < m
        invariant
            j <= m,
            m == marker@.len(),
            at + m <= text.len(),
            forall|k: int| 0 <= k < j ==> text@[at + k] == marker@[k],
        decreases m - j,
    {
        if text[at + j] != marker[j] {
            proof {
                assert(text@.subrange(at as int, at + m)[j as int] != marker@[j as int]);
            }
            return false;
        }
        j = j + 1;
    }
    proof {
        assert(text@.subrange(at as int, at + m) =~= marker@);
    }
    true
}

/// `&bytes[start..end]`.
fn slice_range(bytes: &[u8], start: usize, end: usize) -> (r: &[u8])
    requires
        start <= end <= bytes@.len(),
    ensures
        r@ == bytes@.subrange(start as int, end as int),
{
    vstd::slice::slice_subrange(bytes, start, end)
}

/// The trace context of a query: the one its text gives, else the one of the
/// session setting.
pub open spec fn query_trace(text: Seq<u8>, setting: Option<Vec<u8>>) -> Option<TraceParent> {
    match query_text_traceparent(text) {
        Some(t) => Some(t),
        None => match setting {
            Some(s) => traceparent_spec(s@),
            None => None,
        },
    }
}

/// The trace context of a query, from its text or, failing that, from the
/// session's `pg_otel.traceparent` setting.
pub fn trace_of_query(text: &[u8], setting: &Option<Vec<u8>>) -> (r: Option<TraceParent>)
    ensures
        r == query_trace(text@, *setting),
{
    match traceparent_from_query_text(text) {
        Some(t) => Some(t),
        None => match setting {
            Some(s) => parse_traceparent(s.as_slice()),
            None => None,
        },
    }
}

/// The hexadecimal digits have their usual values: `0` to `9` are 0 to 9 and
/// `a` to `f` are 10 to 15; a number of digits is read most significant first.
pub proof fn law_hex_digit_values(b: u8, digits: Seq<u8>)
    ensures
        48 <= b <= 57 ==> hex_value(b) == b - 48,
        97 <= b <= 102 ==> hex_value(b) == b - 97 + 10,
        is_hex_digit(b) ==> 0 <= hex_value(b) < 16,
        hex_number(digits.push(b)) == 16 * hex_number(digits) + hex_value(b),
        hex_number(seq![b]) == hex_value(b),
{
    assert(digits.push(b).drop_last() =~= digits);
    assert(seq![b].drop_last() =~= Seq::<u8>::empty());
    assert(hex_number(Seq::<u8>::empty()) == 0);
    assert(seq![b].last() == b);
}

/// A version-00 traceparent `00-<trace-id>-<parent-id>-<flags>` gives the
/// trace id that its 32 digits spell and the parent id that its 16 digits
/// spell, whatever its flags, when neither id is zero.
pub proof fn law_traceparent_fields(trace: Seq<u8>, parent: Seq<u8>, flags: Seq<u8>)
    requires
        trace.len() == 32,
        parent.len() == 16,
        flags.len() == 2,
        forall|i: int| 0 <= i < 32 ==> is_hex_digit(#[trigger] trace[i]),
        forall|i: int| 0 <= i < 16 ==> is_hex_digit(#[trigger] parent[i]),
        forall|i: int| 0 <= i < 2 ==> is_hex_digit(#[trigger] flags[i]),
        hex_number(trace) != 0,
        hex_number(parent) != 0,
    ensures
        traceparent_spec(seq![48u8, 48u8, 45u8] + trace + seq![45u8] + parent + seq![45u8] + flags)
            == Some(TraceParent { trace_id: hex_number(trace) as u128, parent_id: hex_number(parent) as u64 }),
{
    let bytes = seq![48u8, 48u8, 45u8] + trace + seq![45u8] + parent + seq![45u8] + flags;
    assert(bytes.len() == 55);
    assert(bytes.subrange(3, 35) =~= trace);
    assert(bytes.subrange(36, 52) =~= parent);
    assert(bytes.subrange(53, 55) =~= flags);
    assert forall|i: int| 3 <= i < 35 implies is_hex_digit(bytes[i]) by {
        assert(bytes[i] == trace[i - 3]);
    }
    assert forall|i: int| 36 <= i < 52 implies is_hex_digit(bytes[i]) by {
        assert(bytes[i] == parent[i - 36]);
    }
    assert forall|i: int| 53 <= i < 55 implies is_hex_digit(bytes[i]) by {
        assert(bytes[i] == flags[i - 53]);
    }
    assert(bytes[0] == 48 && bytes[1] == 48 && bytes[2] == 45);
    assert(bytes[35] == 45 && bytes[52] == 45);
}

/// Nothing but a version-00 traceparent of 55 bytes is read: another length,
/// another version, a missing separator, a character that is not a
/// lower-case hexadecimal digit, or an id of zeros gives no trace context.
pub proof fn law_traceparent_rejects(bytes: Seq<u8>)
    ensures
        bytes.len() != 55 ==> traceparent_spec(bytes) is None,
        bytes.len() == 55 && (bytes[0] != 48 || bytes[1] != 48) ==> traceparent_spec(bytes) is None,
        bytes.len() == 55 && (bytes[2] != 45 || bytes[35] != 45 || bytes[52] != 45)
            ==> traceparent_spec(bytes) is None,
        (exists|i: int| 3 <= i < 35 && !is_hex_digit(#[trigger] bytes[i])) ==> traceparent_spec(bytes) is None,
        (exists|i: int| 36 <= i < 52 && !is_hex_digit(#[trigger] bytes[i])) ==> traceparent_spec(bytes) is None,
        bytes.len() == 55 && hex_number(bytes.subrange(3, 35)) == 0 ==> traceparent_spec(bytes) is None,
        bytes.len() == 55 && hex_number(bytes.subrange(36, 52)) == 0 ==> traceparent_spec(bytes) is None,
{
}

proof fn lemma_find_marker_first(text: Seq<u8>, from: int, at: int)
    requires
        0 <= from <= at,
        at + traceparent_marker().len() <= text.len(),
        text.subrange(at, at + traceparent_marker().len()) == traceparent_marker(),
        forall|j: int| from <= j < at ==> #[trigger] text.subrange(j, j + traceparent_marker().len())
            != traceparent_marker(),
    ensures
        find_marker(text, from) == Some(at),
    decreases at - from,
{
    if from < at {
        assert(text.subrange(from, from + traceparent_marker().len()) != traceparent_marker());
        lemma_find_marker_first(text, from + 1, at);
    }
}

/// A query whose text holds `pg_otel.traceparent=` followed by a traceparent,
/// with no earlier `pg_otel.traceparent=`, is in the trace that this
/// traceparent gives, whatever comes before and after it; this is so whatever
/// the session setting says.
pub proof fn law_query_comment_names_trace(
    prefix: Seq<u8>,
    traceparent: Seq<u8>,
    suffix: Seq<u8>,
    setting: Option<Vec<u8>>,
)
    requires
        traceparent.len() == 55,
        forall|j: int| 0 <= j < prefix.len() ==> #[trigger] (prefix + traceparent_marker() + traceparent
            + suffix).subrange(j, j + traceparent_marker().len()) != traceparent_marker(),
    ensures
        query_text_traceparent(prefix + traceparent_marker() + traceparent + suffix) == traceparent_spec(traceparent),
        traceparent_spec(traceparent) is Some ==> query_trace(prefix + traceparent_marker() + traceparent + suffix, setting)
            == traceparent_spec(traceparent),
{
    let m = traceparent_marker();
    let text = prefix + m + traceparent + suffix;
    let at = prefix.len() as int;
    assert(text.subrange(at, at + m.len()) =~= m);
    lemma_find_marker_first(text, 0, at);
    assert(text.subrange(at + m.len(), at + m.len() + 55) =~= traceparent);
}

/// A query whose text gives no trace context is in the trace of the session
/// setting `pg_otel.traceparent`, if that is a traceparent.
pub proof fn law_setting_names_trace_otherwise(text: Seq<u8>, setting: Vec<u8>)
    requires
        query_text_traceparent(text) is None,
    ensures
        query_trace(text, Some(setting)) == traceparent_spec(setting@),
        query_trace(text, None) is None,
{
}

} // verus!
