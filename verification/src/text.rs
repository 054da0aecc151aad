//! Text handling: UTF-8 decoding of C strings, truncation at character
//! boundaries, ASCII case folding and string comparison.

use vstd::prelude::*;
use vstd::utf8::*;
use vstd::string::StringSliceAdditionalSpecFns;

verus! {

broadcast use {
    vstd::utf8::encode_utf8_valid_utf8,
    vstd::utf8::encode_utf8_decode_utf8,
    vstd::utf8::decode_utf8_encode_utf8,
};

/// Decodes `bytes` as UTF-8 through `std::str::from_utf8`.
///
/// Trusted: `std::str::from_utf8` returns `Ok` exactly when the bytes are
/// valid UTF-8, and then a `&str` whose bytes are `bytes`.
#[verifier::external_body]
fn utf8_str<'a>(bytes: &'a [u8]) -> (r: Option<&'a str>)
    ensures
        r is Some <==> valid_utf8(bytes@),
        r matches Some(s) ==> s@ == decode_utf8(bytes@),
{
    std::str::from_utf8(bytes).ok()
}

/// Reads the bytes of a PostgreSQL C string (without its terminating NUL) as
/// text: `None` when they are not valid UTF-8.
pub fn pg_str<'a>(s: &'a [u8]) -> (r: Option<&'a str>)
    ensures
        r is Some <==> valid_utf8(s@),
        r matches Some(t) ==> t@ == decode_utf8(s@) && t.spec_bytes() == s@,
{
    utf8_str(s)
}

/// The closest index not above `index` that is a character boundary of
/// `bytes`, or the length of `bytes` when `index` is past its end.
pub open spec fn floor_char_boundary(bytes: Seq<u8>, index: int) -> int
    decreases index,
{
    if index >= bytes.len() {
        bytes.len() as int
    } else if index <= 0 {
        0
    } else if is_char_boundary(bytes, index) {
        index
    } else {
        floor_char_boundary(bytes, index - 1)
    }
}

/// The longest prefix of `text` whose UTF-8 encoding fits in `max_bytes`
/// bytes and ends on a character boundary.
pub open spec fn truncate_chars(text: Seq<char>, max_bytes: int) -> Seq<char> {
    let bytes = encode_utf8(text);
    decode_utf8(bytes.subrange(0, floor_char_boundary(bytes, max_bytes)))
}

pub proof fn lemma_floor_char_boundary(bytes: Seq<u8>, index: int)
    requires
        valid_utf8(bytes),
        index >= 0,
    ensures
        0 <= floor_char_boundary(bytes, index) <= bytes.len(),
        floor_char_boundary(bytes, index) <= index,
        is_char_boundary(bytes, floor_char_boundary(bytes, index)),
        forall|k: int| floor_char_boundary(bytes, index) < k <= index && k <= bytes.len()
            ==> !#[trigger] is_char_boundary(bytes, k),
        index >= bytes.len() ==> floor_char_boundary(bytes, index) == bytes.len(),
    decreases index,
{
    broadcast use vstd::utf8::is_char_boundary_start_end_of_seq;
    if index >= bytes.len() {
    } else if index <= 0 {
    } else if is_char_boundary(bytes, index) {
    } else {
        lemma_floor_char_boundary(bytes, index - 1);
    }
}

/// Cuts `text` to at most `max_bytes` bytes, at the last character boundary
/// that does not exceed `max_bytes`.
pub fn truncate_at_char_boundary<'a>(text: &'a str, max_bytes: usize) -> (r: &'a str)
    ensures
        r@ == truncate_chars(text@, max_bytes as int),
        r.spec_bytes() == text.spec_bytes().subrange(
            0,
            floor_char_boundary(text.spec_bytes(), max_bytes as int),
        ),
        r.spec_bytes().len() <= max_bytes,
{
    let bytes = text.as_bytes();
    let ghost b = text.spec_bytes();
    let len = bytes.len();
    proof {
        lemma_floor_char_boundary(b, max_bytes as int);
    }
    if len <= max_bytes {
        proof {
            vstd::utf8::is_char_boundary_start_end_of_seq(b);
            assert(b.subrange(0, len as int) =~= b);
        }
        return text;
    }
    let mut i: usize = max_bytes;
    while i > 0 && 0x80u8 <= bytes[i] && bytes[i] <= 0xbfu8
        invariant
            i <= max_bytes < len,
            len == b.len(),
            bytes@ == b,
            valid_utf8(b),
            floor_char_boundary(b, i as int) == floor_char_boundary(b, max_bytes as int),
        decreases i,
    {
        proof {
            vstd::utf8::is_char_boundary_iff_not_is_continuation_byte(b, i as int);
        }
        i = i - 1;
    }
    proof {
        if i > 0 {
            vstd::utf8::is_char_boundary_iff_not_is_continuation_byte(b, i as int);
        }
        vstd::utf8::is_char_boundary_start_end_of_seq(b);
    }
    let (head, _tail) = text.split_at(i);
    proof {
        assert(head.spec_bytes() =~= b.subrange(0, i as int));
    }
    head
}


/// Whether two texts are the same.
pub fn str_eq(a: &str, b: &str) -> (r: bool)
    ensures
        r == (a@ == b@),
{
    let x = a.as_bytes();
    let y = b.as_bytes();
    proof {
        assert(decode_utf8(a.spec_bytes()) == a@);
        assert(decode_utf8(b.spec_bytes()) == b@);
    }
    if x.len() != y.len() {
        return false;
    }
    let mut i: usize = 0;
    while i < x.len()
        invariant
            x@ == a.spec_bytes(),
            y@ == b.spec_bytes(),
            x.len() == y.len(),
            i <= x.len(),
            forall|j: int| 0 <= j < i ==> x@[j] == y@[j],
        decreases x.len() - i,
    {
        if x[i] != y[i] {
            return false;
        }
        i = i + 1;
    }
    proof {
        assert(x@ =~= y@);
    }
    true
}

/// The UTF-8 encoding of a concatenation is the concatenation of the encodings.
pub proof fn lemma_encode_utf8_add(a: Seq<char>, b: Seq<char>)
    ensures
        encode_utf8(a + b) == encode_utf8(a) + encode_utf8(b),
    decreases a.len(),
{
    if a.len() == 0 {
        assert(a + b =~= b);
        assert(encode_utf8(a) + encode_utf8(b) =~= encode_utf8(b));
    } else {
        lemma_encode_utf8_add(a.drop_first(), b);
        assert((a + b).drop_first() =~= a.drop_first() + b);
        assert((a + b)[0] == a[0]);
        assert(encode_scalar(a[0] as u32) + (encode_utf8(a.drop_first()) + encode_utf8(b))
            =~= (encode_scalar(a[0] as u32) + encode_utf8(a.drop_first())) + encode_utf8(b));
    }
}

/// A character takes one to four bytes in UTF-8.
pub proof fn lemma_encode_utf8_len_bound(a: Seq<char>)
    ensures
        a.len() <= encode_utf8(a).len() <= 4 * a.len(),
    decreases a.len(),
{
    if a.len() > 0 {
        lemma_encode_utf8_len_bound(a.drop_first());
    }
}

} // verus!
