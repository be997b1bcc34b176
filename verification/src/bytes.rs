//! Byte-string helpers: appending, and big-endian integer value.

use vstd::prelude::*;

verus! {

/// The big-endian unsigned value of a byte string.
pub open spec fn be_value(s: Seq<u8>) -> nat
    decreases s.len(),
{
    if s.len() == 0 {
        0
    } else {
        be_value(s.drop_last()) * 256 + s.last() as nat
    }
}

/// `256` to the power `n`.
pub open spec fn pow256(n: nat) -> nat
    decreases n,
{
    if n == 0 {
        1
    } else {
        256 * pow256((n - 1) as nat)
    }
}

/// A big-endian value fits in its bytes.
pub proof fn lemma_be_value_bound(s: Seq<u8>)
    ensures
        be_value(s) < pow256(s.len()),
    decreases s.len(),
{
    if s.len() > 0 {
        lemma_be_value_bound(s.drop_last());
    }
}

pub proof fn lemma_pow256_values()
    ensures
        pow256(7) == 0x100000000000000,
        pow256(8) == 0x10000000000000000,
        pow256(15) == 0x1000000000000000000000000000000,
        pow256(16) == 0x100000000000000000000000000000000,
{
    reveal_with_fuel(pow256, 17);
}

/// Append the bytes of `s` to `v`.
pub(crate) fn append_bytes(v: &mut Vec<u8>, s: &[u8])
    ensures
        final(v)@ == old(v)@ + s@,
{
    let ghost start = v@;
    let mut i: usize = 0;
    while i < s.len()
        invariant
            i <= s@.len(),
            v@ == start + s@.subrange(0, i as int),
        decreases s@.len() - i,
    {
        v.push(s[i]);
        proof {
            assert(s@.subrange(0, i + 1) =~= s@.subrange(0, i as int).push(s@[i as int]));
        }
        i = i + 1;
    }
    proof {
        assert(s@.subrange(0, s@.len() as int) =~= s@);
    }
}

/// The big-endian value of the first eight bytes.
pub(crate) fn be_u64(s: &[u8]) -> (r: u64)
    requires
        s@.len() >= 8,
    ensures
        r == be_value(s@.subrange(0, 8)),
{
    let mut v: u64 = 0;
    let mut i: usize = 0;
    while i < 8
        invariant
            i <= 8 <= s@.len(),
            v == be_value(s@.subrange(0, i as int)),
        decreases 8 - i,
    {
        proof {
            lemma_be_value_bound(s@.subrange(0, i as int));
            lemma_pow256_values();
            if i < 7 {
                assert(pow256(i as nat) <= pow256(7)) by {
                    lemma_pow256_monotone(i as nat, 7);
                }
            }
            assert(s@.subrange(0, i + 1).drop_last() =~= s@.subrange(0, i as int));
        }
        v = v * 256 + s[i] as u64;
        i = i + 1;
    }
    v
}

/// The big-endian value of the first sixteen bytes.
pub(crate) fn be_u128(s: &[u8]) -> (r: u128)
    requires
        s@.len() >= 16,
    ensures
        r == be_value(s@.subrange(0, 16)),
{
    let mut v: u128 = 0;
    let mut i: usize = 0;
    while i < 16
        invariant
            i <= 16 <= s@.len(),
            v == be_value(s@.subrange(0, i as int)),
        decreases 16 - i,
    {
        proof {
            lemma_be_value_bound(s@.subrange(0, i as int));
            lemma_pow256_values();
            lemma_pow256_monotone(i as nat, 15);
            assert(s@.subrange(0, i + 1).drop_last() =~= s@.subrange(0, i as int));
        }
        v = v * 256 + s[i] as u128;
        i = i + 1;
    }
    v
}

pub proof fn lemma_pow256_monotone(a: nat, b: nat)
    requires
        a <= b,
    ensures
        pow256(a) <= pow256(b),
    decreases b - a,
{
    if a < b {
        lemma_pow256_monotone(a, (b - 1) as nat);
    }
}

} // verus!
