//! Facts about the single-bit values `1 << i` of a 128-bit flag set.
use vstd::prelude::*;
use vstd::arithmetic::power2::{pow2, lemma_pow2_unfold};

verus! {

/// The value of the flag at bit position `i`.
pub open spec fn flag_bit(i: nat) -> u128 {
    1u128 << (i as u128)
}

/// The flag at position `i` is the power of two `2^i`.
pub proof fn lemma_flag_bit_is_pow2(i: nat)
    requires
        i < 128,
    ensures
        flag_bit(i) as nat == pow2(i),
    decreases i,
{
    if i == 0 {
        assert(1u128 << 0u128 == 1u128) by (bit_vector);
        assert(pow2(0) == 1) by {
            vstd::arithmetic::power2::lemma2_to64();
        }
    } else {
        lemma_flag_bit_is_pow2((i - 1) as nat);
        lemma_pow2_unfold(i);
        let k: u128 = i as u128;
        let prev: u128 = flag_bit((i - 1) as nat);
        assert(prev == 1u128 << ((k - 1) as u128));
        assert((1u128 << k) == prev * 2) by (bit_vector)
            requires
                0 < k < 128,
                prev == 1u128 << ((k - 1) as u128),
        ;
    }
}

/// Two different positions share no bit, and no position has the value zero.
pub proof fn lemma_flag_bits_disjoint(i: nat, j: nat)
    requires
        i < 128,
        j < 128,
        i != j,
    ensures
        flag_bit(i) & flag_bit(j) == 0,
        flag_bit(i) != 0,
        flag_bit(i) != flag_bit(j),
{
    let a: u128 = i as u128;
    let b: u128 = j as u128;
    assert((1u128 << a) & (1u128 << b) == 0 && (1u128 << a) != 0 && (1u128 << a) != (1u128 << b))
        by (bit_vector)
        requires
            a < 128,
            b < 128,
            a != b,
    ;
}

/// Computes `1 << i`.
pub fn flag_value(i: u32) -> (r: u128)
    requires
        i < 128,
    ensures
        r == flag_bit(i as nat),
        r as nat == pow2(i as nat),
{
    proof {
        lemma_flag_bit_is_pow2(i as nat);
    }
    1u128 << i
}

} // verus!
