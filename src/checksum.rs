//! The 16-bit wraparound sum that protects every frame.
use vstd::arithmetic::div_mod::{lemma_add_mod_noop, lemma_small_mod};
use vstd::prelude::*;

verus! {

/// The plain (unbounded) sum of a byte sequence.
pub open spec fn byte_sum(s: Seq<u8>) -> nat
    decreases s.len(),
{
    if s.len() == 0 {
        0
    } else {
        byte_sum(s.drop_last()) + s.last() as nat
    }
}

/// The checksum of a byte sequence: its sum, truncated to 16 bits.
pub open spec fn checksum_of(s: Seq<u8>) -> u16 {
    (byte_sum(s) % 65536) as u16
}

/// The sum of a concatenation is the sum of the parts.
pub proof fn lemma_byte_sum_concat(a: Seq<u8>, b: Seq<u8>)
    ensures
        byte_sum(a + b) == byte_sum(a) + byte_sum(b),
    decreases b.len(),
{
    if b.len() == 0 {
        assert(a + b =~= a);
    } else {
        lemma_byte_sum_concat(a, b.drop_last());
        assert((a + b).drop_last() =~= a + b.drop_last());
    }
}

/// No byte exceeds 255, so a sequence sums to at most 255 per byte.
pub proof fn lemma_byte_sum_bound(s: Seq<u8>)
    ensures
        byte_sum(s) <= 255 * s.len(),
    decreases s.len(),
{
    if s.len() > 0 {
        lemma_byte_sum_bound(s.drop_last());
    }
}

/// Replacing one byte changes the sum by the difference of the two bytes.
pub proof fn lemma_byte_sum_update(s: Seq<u8>, j: int, v: u8)
    requires
        0 <= j < s.len(),
    ensures
        byte_sum(s.update(j, v)) + s[j] == byte_sum(s) + v,
    decreases s.len(),
{
    if j == s.len() - 1 {
        assert(s.update(j, v).drop_last() =~= s.drop_last());
    } else {
        lemma_byte_sum_update(s.drop_last(), j, v);
        assert(s.update(j, v).drop_last() =~= s.drop_last().update(j, v));
    }
}

/// The checksum is a function of the byte sequence alone: equal sequences
/// give equal checksums, and the checksum of two joined sequences is the
/// wraparound sum of their checksums.
pub proof fn lemma_checksum_split(a: Seq<u8>, b: Seq<u8>)
    ensures
        checksum_of(a + b) == ((checksum_of(a) as nat + checksum_of(b) as nat) % 65536) as u16,
{
    lemma_byte_sum_concat(a, b);
    lemma_add_mod_noop(byte_sum(a) as int, byte_sum(b) as int, 65536);
}

/// Overflow wraps silently: bytes that sum to exactly 65536 have checksum zero.
pub proof fn lemma_checksum_wraps(s: Seq<u8>)
    requires
        byte_sum(s) == 65536,
    ensures
        checksum_of(s) == 0,
{
}

/// The checksum depends on the byte sequence alone: equal sequences, however
/// often they are summed, give the same checksum.
pub proof fn lemma_checksum_deterministic(a: Seq<u8>, b: Seq<u8>)
    requires
        a == b,
    ensures
        checksum_of(a) == checksum_of(b),
{
}

/// Sums the bytes with 16-bit wraparound.
pub fn compute_checksum(bytes: &[u8]) -> (r: u16)
    ensures
        r == checksum_of(bytes@),
{
    let mut acc: u16 = 0;
    let mut i: usize = 0;
    while i < bytes.len()
        invariant
            i <= bytes@.len(),
            acc == checksum_of(bytes@.subrange(0, i as int)),
        decreases bytes@.len() - i,
    {
        let b = bytes[i];
        proof {
            let pre = bytes@.subrange(0, i as int);
            let next = bytes@.subrange(0, i + 1);
            assert(next.drop_last() =~= pre);
            lemma_add_mod_noop(byte_sum(pre) as int, b as int, 65536);
            lemma_small_mod(b as nat, 65536);
        }
        acc = acc.wrapping_add(b as u16);
        i = i + 1;
    }
    assert(bytes@.subrange(0, i as int) =~= bytes@);
    acc
}

} // verus!
