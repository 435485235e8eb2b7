//! Byte-level facts about UTF-8 text: what a byte range of a string is, and
//! what splicing bytes into it produces.
use vstd::prelude::*;
use vstd::utf8::*;

verus! {

broadcast use {vstd::utf8::encode_utf8_valid_utf8, vstd::string::group_string_axioms};

/// The UTF-8 bytes of a character sequence: the content units that offsets count.
pub open spec fn bytes_of(chars: Seq<char>) -> Seq<u8> {
    encode_utf8(chars)
}

/// `[start, end)` lies within `b` and both ends fall between characters.
pub open spec fn valid_range(b: Seq<u8>, start: int, end: int) -> bool {
    &&& 0 <= start <= end <= b.len()
    &&& is_char_boundary(b, start)
    &&& is_char_boundary(b, end)
}

/// `b` with the bytes of `[start, end)` replaced by `t`.
pub open spec fn splice(b: Seq<u8>, start: int, end: int, t: Seq<u8>) -> Seq<u8> {
    b.subrange(0, start) + t + b.subrange(end, b.len() as int)
}

/// Encoding distributes over concatenation.
pub proof fn lemma_bytes_of_concat(x: Seq<char>, y: Seq<char>)
    ensures
        bytes_of(x + y) == bytes_of(x) + bytes_of(y),
    decreases x.len(),
{
    if x.len() == 0 {
        assert(x + y =~= y);
        assert(bytes_of(x) + bytes_of(y) =~= bytes_of(y));
    } else {
        lemma_bytes_of_concat(x.drop_first(), y);
        assert((x + y).drop_first() =~= x.drop_first() + y);
        assert(bytes_of(x + y) =~= bytes_of(x) + bytes_of(y));
    }
}

/// The first byte of non-empty valid UTF-8 starts a character.
proof fn lemma_first_byte_leads(y: Seq<u8>)
    requires
        valid_utf8(y),
        y.len() > 0,
    ensures
        !is_continuation_byte(y[0]),
{
    assert(is_char_boundary(y, 0));
    is_char_boundary_iff_not_is_continuation_byte(y, 0);
}

/// Where two pieces of valid UTF-8 meet lies a character boundary.
pub proof fn lemma_boundary_at_join(x: Seq<u8>, y: Seq<u8>)
    requires
        valid_utf8(x),
        valid_utf8(y),
    ensures
        valid_utf8(x + y),
        is_char_boundary(x + y, x.len() as int),
{
    valid_utf8_concat(x, y);
    if y.len() == 0 {
        assert(x + y =~= x);
        is_char_boundary_start_end_of_seq(x);
    } else {
        lemma_first_byte_leads(y);
        assert((x + y)[x.len() as int] == y[0]);
        is_char_boundary_iff_not_is_continuation_byte(x + y, x.len() as int);
    }
}

/// A boundary of `b` before `end` is still one of the prefix that ends at `end`.
pub proof fn lemma_boundary_in_prefix(b: Seq<u8>, end: int, i: int)
    requires
        valid_utf8(b),
        valid_range(b, i, end),
    ensures
        valid_utf8(b.subrange(0, end)),
        is_char_boundary(b.subrange(0, end), i),
{
    valid_utf8_split(b, end);
    let p = b.subrange(0, end);
    if i == end {
        is_char_boundary_start_end_of_seq(p);
    } else {
        is_char_boundary_iff_not_is_continuation_byte(b, i);
        is_char_boundary_iff_not_is_continuation_byte(p, i);
    }
}

/// Splicing `t` over `[s, e)` and then the removed bytes back over the range
/// that `t` took gives `b` again, and that range is itself a valid range.
pub proof fn lemma_splice_inverse(b: Seq<u8>, s: int, e: int, t: Seq<u8>)
    requires
        valid_utf8(b),
        valid_utf8(t),
        valid_range(b, s, e),
    ensures
        valid_utf8(splice(b, s, e, t)),
        valid_range(splice(b, s, e, t), s, s + t.len()),
        splice(splice(b, s, e, t), s, s + t.len(), b.subrange(s, e)) == b,
{
    let a = b.subrange(0, s);
    let c = b.subrange(e, b.len() as int);
    valid_utf8_split(b, s);
    valid_utf8_split(b, e);
    lemma_boundary_at_join(t, c);
    lemma_boundary_at_join(a, t + c);
    lemma_boundary_at_join(a, t);
    lemma_boundary_at_join(a + t, c);
    assert(a + (t + c) =~= splice(b, s, e, t));
    assert((a + t) + c =~= splice(b, s, e, t));
    assert(splice(splice(b, s, e, t), s, s + t.len(), b.subrange(s, e)) =~= b);
}

} // verus!
