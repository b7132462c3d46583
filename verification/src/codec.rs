//! Encoding and decoding of 32-bit element sequences as raw bytes.
//!
//! Buffers carry raw bytes; hosts usually think in 32-bit words. These
//! functions fix the byte layout (little-endian, four bytes per word) and
//! prove that decoding inverts encoding, so a value written into a buffer
//! and copied back unchanged reads out as the same sequence of words.

use vstd::bytes::{
    lemma_auto_spec_u32_to_from_le_bytes, spec_u32_from_le_bytes, spec_u32_to_le_bytes,
    u32_from_le_bytes, u32_to_le_bytes,
};
use vstd::prelude::*;
use vstd::slice::slice_subrange;

verus! {

/// The little-endian byte image of a sequence of 32-bit words.
pub open spec fn spec_encode_u32s(s: Seq<u32>) -> Seq<u8>
    decreases s.len(),
{
    if s.len() == 0 {
        Seq::empty()
    } else {
        spec_u32_to_le_bytes(s[0]) + spec_encode_u32s(s.skip(1))
    }
}

/// The sequence of 32-bit words read from a little-endian byte image.
pub open spec fn spec_decode_u32s(b: Seq<u8>) -> Seq<u32>
    decreases b.len(),
{
    if b.len() < 4 {
        Seq::empty()
    } else {
        seq![spec_u32_from_le_bytes(b.take(4))] + spec_decode_u32s(b.skip(4))
    }
}

/// Each encoded word occupies exactly four bytes.
pub proof fn lemma_encode_len(s: Seq<u32>)
    ensures
        spec_encode_u32s(s).len() == 4 * s.len(),
    decreases s.len(),
{
    lemma_auto_spec_u32_to_from_le_bytes();
    if s.len() > 0 {
        lemma_encode_len(s.skip(1));
    }
}

/// Appending one word to a sequence appends its four bytes to the encoding.
pub proof fn lemma_encode_push(s: Seq<u32>, x: u32)
    ensures
        spec_encode_u32s(s.push(x)) == spec_encode_u32s(s) + spec_u32_to_le_bytes(x),
    decreases s.len(),
{
    lemma_auto_spec_u32_to_from_le_bytes();
    if s.len() == 0 {
        let t = s.push(x);
        reveal_with_fuel(spec_encode_u32s, 3);
        assert(t[0] == x);
        assert(t.skip(1) =~= Seq::<u32>::empty());
        assert(spec_encode_u32s(t) == spec_u32_to_le_bytes(x) + spec_encode_u32s(
            Seq::<u32>::empty(),
        ));
        assert(spec_u32_to_le_bytes(x) + Seq::<u8>::empty() =~= spec_u32_to_le_bytes(x));
        assert(spec_encode_u32s(s) + spec_u32_to_le_bytes(x) =~= spec_u32_to_le_bytes(x));
    } else {
        assert(s.push(x)[0] == s[0]);
        assert(s.push(x).skip(1) =~= s.skip(1).push(x));
        lemma_encode_push(s.skip(1), x);
        assert(spec_encode_u32s(s.push(x)) =~= spec_encode_u32s(s) + spec_u32_to_le_bytes(x));
    }
}

/// Round trip: decoding an encoded word sequence gives the sequence back.
///
/// This is the host-side half of the buffer round trip: a word sequence
/// seeded into a buffer and copied back byte-for-byte decodes to itself.
pub proof fn lemma_decode_encode(s: Seq<u32>)
    ensures
        spec_decode_u32s(spec_encode_u32s(s)) == s,
    decreases s.len(),
{
    lemma_auto_spec_u32_to_from_le_bytes();
    if s.len() == 0 {
        assert(spec_decode_u32s(spec_encode_u32s(s)) =~= s);
    } else {
        let b = spec_encode_u32s(s);
        lemma_encode_len(s.skip(1));
        assert(b.take(4) =~= spec_u32_to_le_bytes(s[0]));
        assert(b.skip(4) =~= spec_encode_u32s(s.skip(1)));
        lemma_decode_encode(s.skip(1));
        assert(spec_decode_u32s(spec_encode_u32s(s)) =~= s);
    }
}

/// Encodes 32-bit words as little-endian bytes, four per word.
pub fn encode_u32s(v: &Vec<u32>) -> (r: Vec<u8>)
    requires
        v@.len() * 4 <= usize::MAX,
    ensures
        r@ == spec_encode_u32s(v@),
        r@.len() == 4 * v@.len(),
{
    let mut out: Vec<u8> = Vec::new();
    let mut i: usize = 0;
    proof {
        assert(v@.take(0) =~= Seq::<u32>::empty());
    }
    while i < v.len()
        invariant
            i <= v@.len(),
            v@.len() * 4 <= usize::MAX,
            out@ == spec_encode_u32s(v@.take(i as int)),
            out@.len() == 4 * i,
        decreases v@.len() - i,
    {
        let word = v[i];
        let bytes = u32_to_le_bytes(word);
        out.push(bytes[0]);
        out.push(bytes[1]);
        out.push(bytes[2]);
        out.push(bytes[3]);
        proof {
            assert(out@ =~= spec_encode_u32s(v@.take(i as int)) + spec_u32_to_le_bytes(word));
            assert(v@.take(i + 1) =~= v@.take(i as int).push(word));
            lemma_encode_push(v@.take(i as int), word);
        }
        i = i + 1;
    }
    proof {
        assert(v@.take(v@.len() as int) =~= v@);
        lemma_encode_len(v@);
    }
    out
}

/// Decodes little-endian bytes into 32-bit words, four bytes per word.
pub fn decode_u32s(b: &Vec<u8>) -> (r: Vec<u32>)
    requires
        b@.len() % 4 == 0,
    ensures
        r@ == spec_decode_u32s(b@),
        r@.len() == b@.len() / 4,
{
    let mut out: Vec<u32> = Vec::new();
    let mut i: usize = 0;
    let len = b.len();
    let n = len / 4;
    proof {
        lemma_decode_len(b@);
        assert(4 * (len as int / 4) <= len as int) by (nonlinear_arith);
    }
    while i < n
        invariant
            i <= n,
            len == b@.len(),
            n == b@.len() / 4,
            b@.len() % 4 == 0,
            4 * n <= len,
            spec_decode_u32s(b@).len() == n,
            out@ =~= spec_decode_u32s(b@).take(i as int),
        decreases n - i,
    {
        assert(4 * i + 4 <= len);
        let chunk = slice_subrange(b.as_slice(), 4 * i, 4 * i + 4);
        let word = u32_from_le_bytes(chunk);
        proof {
            lemma_decode_index(b@, i as int);
            assert(chunk@ =~= b@.subrange(4 * i as int, 4 * i + 4));
        }
        out.push(word);
        proof {
            assert(out@ =~= spec_decode_u32s(b@).take(i + 1));
        }
        i = i + 1;
    }
    proof {
        assert(spec_decode_u32s(b@).take(n as int) =~= spec_decode_u32s(b@));
    }
    out
}

/// A four-byte-aligned byte image decodes to one word per four bytes.
pub proof fn lemma_decode_len(b: Seq<u8>)
    ensures
        b.len() % 4 == 0 ==> spec_decode_u32s(b).len() == b.len() / 4,
    decreases b.len(),
{
    if b.len() >= 4 {
        lemma_decode_len(b.skip(4));
    }
}

/// The word at index `i` of the decoding reads the four bytes at `4 * i`.
pub proof fn lemma_decode_index(b: Seq<u8>, i: int)
    requires
        b.len() % 4 == 0,
        0 <= i < b.len() / 4,
    ensures
        spec_decode_u32s(b)[i] == spec_u32_from_le_bytes(b.subrange(4 * i, 4 * i + 4)),
    decreases i,
{
    lemma_decode_len(b);
    if i == 0 {
        assert(b.take(4) =~= b.subrange(0, 4));
    } else {
        lemma_decode_index(b.skip(4), i - 1);
        assert(b.skip(4).subrange(4 * (i - 1), 4 * (i - 1) + 4) =~= b.subrange(
            4 * i,
            4 * i + 4,
        ));
        lemma_decode_len(b.skip(4));
    }
}

} // verus!
