//! Little-endian wire encodings of the fixed-width integers used by the
//! table format, and the byte-sum function that backs the entry point's
//! checksum invariant.

use vstd::prelude::*;

verus! {

/// The two bytes of `x`, least significant first.
pub open spec fn le16(x: u16) -> Seq<u8> {
    seq![(x & 0xff) as u8, ((x >> 8) & 0xff) as u8]
}

/// The four bytes of `x`, least significant first.
pub open spec fn le32(x: u32) -> Seq<u8> {
    seq![
        (x & 0xff) as u8,
        ((x >> 8) & 0xff) as u8,
        ((x >> 16) & 0xff) as u8,
        ((x >> 24) & 0xff) as u8,
    ]
}

/// The eight bytes of `x`, least significant first.
pub open spec fn le64(x: u64) -> Seq<u8> {
    seq![
        (x & 0xff) as u8,
        ((x >> 8) & 0xff) as u8,
        ((x >> 16) & 0xff) as u8,
        ((x >> 24) & 0xff) as u8,
        ((x >> 32) & 0xff) as u8,
        ((x >> 40) & 0xff) as u8,
        ((x >> 48) & 0xff) as u8,
        ((x >> 56) & 0xff) as u8,
    ]
}

/// The sixteen bytes of `x`, least significant first: the low quad-word
/// followed by the high quad-word.
pub open spec fn le128(x: u128) -> Seq<u8> {
    le64((x & 0xffff_ffff_ffff_ffff) as u64) + le64((x >> 64) as u64)
}

/// The sum of a byte sequence, as an unbounded integer.
pub open spec fn byte_sum(s: Seq<u8>) -> int
    decreases s.len(),
{
    if s.len() == 0 {
        0
    } else {
        byte_sum(s.drop_last()) + s.last()
    }
}

/// Append the sixteen bytes of `x` to `sink`, low quad-word first.
pub fn emit_u128<S: crate::Sink>(sink: &mut S, x: u128)
    ensures
        final(sink).sunk() == old(sink).sunk() + le128(x),
{
    sink.qword((x & 0xffff_ffff_ffff_ffff) as u64);
    sink.qword((x >> 64) as u64);
    proof {
        assert(sink.sunk() =~= old(sink).sunk() + le128(x));
    }
}

pub proof fn lemma_byte_sum_update(s: Seq<u8>, i: int, v: u8)
    requires
        0 <= i < s.len(),
    ensures
        byte_sum(s.update(i, v)) == byte_sum(s) - s[i] + v,
    decreases s.len(),
{
    if i == s.len() - 1 {
        assert(s.update(i, v).drop_last() =~= s.drop_last());
        assert(s.update(i, v).last() == v);
    } else {
        assert(s.update(i, v).drop_last() =~= s.drop_last().update(i, v));
        assert(s.update(i, v).last() == s.last());
        lemma_byte_sum_update(s.drop_last(), i, v);
    }
}

pub proof fn lemma_byte_sum_nonneg(s: Seq<u8>)
    ensures
        0 <= byte_sum(s),
    decreases s.len(),
{
    if s.len() > 0 {
        lemma_byte_sum_nonneg(s.drop_last());
    }
}

} // verus!
