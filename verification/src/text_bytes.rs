//! Byte-level model of UTF-8 strings.
//!
//! Positions inside a text are byte offsets, as the regex engine reports them.
//! The bytes of a string are the UTF-8 encoding of its characters.

use vstd::prelude::*;
use vstd::utf8::*;

verus! {

broadcast use vstd::utf8::encode_utf8_valid_utf8;

/// Number of UTF-8 bytes of a character sequence.
pub open spec fn byte_len(s: Seq<char>) -> int {
    encode_utf8(s).len() as int
}

/// Encoding distributes over concatenation.
pub proof fn lemma_encode_concat(a: Seq<char>, b: Seq<char>)
    ensures
        encode_utf8(a + b) == encode_utf8(a) + encode_utf8(b),
    decreases a.len(),
{
    if a.len() == 0 {
        assert(a + b =~= b);
        assert(encode_utf8(a) =~= Seq::<u8>::empty());
        assert(encode_utf8(a) + encode_utf8(b) =~= encode_utf8(b));
    } else {
        assert((a + b).drop_first() =~= a.drop_first() + b);
        assert((a + b)[0] == a[0]);
        lemma_encode_concat(a.drop_first(), b);
        assert(encode_utf8(a + b) =~= encode_scalar(a[0] as u32) + (encode_utf8(a.drop_first())
            + encode_utf8(b)));
    }
}

/// The end of a prefix is a character boundary of the whole encoding.
pub proof fn lemma_prefix_boundary(a: Seq<char>, b: Seq<char>)
    ensures
        is_char_boundary(encode_utf8(a + b), encode_utf8(a).len() as int),
    decreases a.len(),
{
    if a.len() == 0 {
        assert(encode_utf8(a) =~= Seq::<u8>::empty());
    } else {
        let whole = a + b;
        assert(whole.drop_first() =~= a.drop_first() + b);
        assert(whole[0] == a[0]);
        encode_utf8_first_scalar(whole);
        let bytes = encode_utf8(whole);
        assert(pop_first_scalar(bytes) =~= encode_utf8(whole.drop_first()));
        lemma_prefix_boundary(a.drop_first(), b);
        assert(encode_utf8(a).len() == encode_scalar(a[0] as u32).len() + encode_utf8(
            a.drop_first(),
        ).len());
        lemma_encode_nonempty(a);
    }
}

/// A character boundary before `b` is a character boundary of the bytes up to `b`.
pub proof fn lemma_boundary_in_prefix(bytes: Seq<u8>, a: int, b: int)
    requires
        valid_utf8(bytes),
        is_char_boundary(bytes, a),
        is_char_boundary(bytes, b),
        a <= b,
    ensures
        is_char_boundary(bytes.subrange(0, b), a),
    decreases bytes.len(),
{
    valid_utf8_split(bytes, b);
    if a != 0 {
        let l = length_of_first_scalar(bytes);
        let rest = pop_first_scalar(bytes);
        assert(bytes.len() != 0);
        assert(valid_utf8(rest));
        assert(1 <= l <= 4);
        assert(a >= l) by {
            reveal_with_fuel(is_char_boundary, 2);
        }
        let p = bytes.subrange(0, b);
        assert(p[0] == bytes[0]);
        assert(length_of_first_scalar(p) == l);
        assert(pop_first_scalar(p) =~= rest.subrange(0, b - l));
        lemma_boundary_in_prefix(rest, a - l, b - l);
    }
}

/// The bytes between two character boundaries decode and encode back to themselves.
pub proof fn lemma_fragment_bytes(bytes: Seq<u8>, a: int, b: int)
    requires
        valid_utf8(bytes),
        is_char_boundary(bytes, a),
        is_char_boundary(bytes, b),
        0 <= a <= b <= bytes.len(),
    ensures
        encode_utf8(decode_utf8(bytes.subrange(a, b))) == bytes.subrange(a, b),
{
    lemma_boundary_in_prefix(bytes, a, b);
    let p = bytes.subrange(0, b);
    valid_utf8_split(bytes, b);
    valid_utf8_split(p, a);
    assert(p.subrange(a, p.len() as int) =~= bytes.subrange(a, b));
    decode_utf8_encode_utf8(bytes.subrange(a, b));
}

/// A non-empty sequence has a non-empty encoding.
pub proof fn lemma_encode_nonempty(a: Seq<char>)
    requires
        a.len() > 0,
    ensures
        encode_utf8(a).len() > 0,
{
    assert(encode_scalar(a[0] as u32).len() > 0);
}

/// The number of bytes of a string: the length of the UTF-8 encoding of
/// its characters.
pub fn str_byte_len(s: &str) -> (r: usize)
    ensures
        r as int == encode_utf8(s@).len(),
{
    let bytes = s.as_bytes();
    bytes.len()
}

/// The slice of a string between two byte positions that are character
/// boundaries: its encoding is that range of the string's encoding.
pub fn str_byte_slice(s: &str, start: usize, end: usize) -> (r: &str)
    requires
        start <= end <= encode_utf8(s@).len(),
        is_char_boundary(encode_utf8(s@), start as int),
        is_char_boundary(encode_utf8(s@), end as int),
    ensures
        encode_utf8(r@) == encode_utf8(s@).subrange(start as int, end as int),
{
    let ghost bytes = encode_utf8(s@);
    let (prefix, _) = s.split_at(end);
    proof {
        lemma_boundary_in_prefix(bytes, start as int, end as int);
        assert(bytes.subrange(0, end as int) =~= encode_utf8(prefix@));
    }
    let (_, middle) = prefix.split_at(start);
    assert(encode_utf8(middle@) =~= bytes.subrange(start as int, end as int));
    middle
}

} // verus!
