//! The frame checksum: the bitwise complement of the mod-256 sum of the
//! bytes it covers.

use vstd::prelude::*;
use vstd::arithmetic::div_mod::lemma_add_mod_noop;

verus! {

/// The plain integer sum of a byte sequence.
pub open spec fn sum_bytes(s: Seq<u8>) -> int
    decreases s.len(),
{
    if s.len() == 0 {
        0
    } else {
        sum_bytes(s.drop_last()) + s.last()
    }
}

/// The checksum of a byte sequence: the mod-256 sum of the bytes,
/// complemented (`255 - sum`, the bitwise NOT of the 8-bit accumulator).
pub open spec fn checksum_spec(s: Seq<u8>) -> u8 {
    (255 - sum_bytes(s) % 256) as u8
}

proof fn lemma_sum_bytes_take_step(s: Seq<u8>, i: int)
    requires
        0 <= i < s.len(),
    ensures
        sum_bytes(s.take(i + 1)) == sum_bytes(s.take(i)) + s[i],
{
    assert(s.take(i + 1).drop_last() =~= s.take(i));
    assert(s.take(i + 1).last() == s[i]);
}

/// Fold the bytes with wrapping 8-bit addition, then complement the
/// accumulator.
pub fn checksum(bytes: &[u8]) -> (r: u8)
    ensures
        r == checksum_spec(bytes@),
{
    let mut acc: u8 = 0;
    let mut i: usize = 0;
    while i < bytes.len()
        invariant
            i <= bytes@.len(),
            acc == sum_bytes(bytes@.take(i as int)) % 256,
        decreases bytes@.len() - i,
    {
        proof {
            lemma_sum_bytes_take_step(bytes@, i as int);
            lemma_add_mod_noop(sum_bytes(bytes@.take(i as int)), bytes@[i as int] as int, 256);
        }
        acc = acc.wrapping_add(bytes[i]);
        i = i + 1;
    }
    assert(bytes@.take(i as int) =~= bytes@);
    255 - acc
}

} // verus!
