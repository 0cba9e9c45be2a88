//! Properties that relate the compiler's output to its input schema.
use vstd::prelude::*;
use vstd::arithmetic::power2::pow2;
use crate::bits::{flag_bit, lemma_flag_bit_is_pow2, lemma_flag_bits_disjoint};
use crate::kind::{compiled_from, first_arm, first_flag, maps_to, KindSet};
use crate::schema::{names_unique, UnionSchema};

verus! {

/// A compiled flag set has one constant per variant; the constant of the
/// variant at position `i` is the power of two `2^i`, and no bit is set in
/// more than one constant.
pub proof fn lemma_flags_are_distinct_single_bits(k: KindSet, s: UnionSchema)
    requires
        compiled_from(k, s),
    ensures
        k.flags.len() == s.variants.len(),
        forall|i: int|
            0 <= i < k.flags.len() ==> (#[trigger] k.flags[i]).value as nat == pow2(i as nat)
                && k.flags[i].value != 0,
        forall|i: int, j: int|
            0 <= i < k.flags.len() && 0 <= j < k.flags.len() && i != j ==> (#[trigger] k.flags[i]).value
                & (#[trigger] k.flags[j]).value == 0 && k.flags[i].value != k.flags[j].value,
{
    let n = k.flags.len();
    assert forall|i: int| 0 <= i < n implies (#[trigger] k.flags[i]).value as nat == pow2(i as nat)
        && k.flags[i].value != 0 by {
        assert(crate::kind::flag_for(k.flags[i], s.variants[i], i));
        lemma_flag_bit_is_pow2(i as nat);
        vstd::arithmetic::power2::lemma_pow2_pos(i as nat);
    }
    assert forall|i: int, j: int| 0 <= i < n && 0 <= j < n && i != j implies (
    #[trigger] k.flags[i]).value & (#[trigger] k.flags[j]).value == 0 && k.flags[i].value
        != k.flags[j].value by {
        assert(crate::kind::flag_for(k.flags[i], s.variants[i], i));
        assert(crate::kind::flag_for(k.flags[j], s.variants[j], j));
        lemma_flag_bits_disjoint(i as nat, j as nat);
    }
}

/// Where variant names are unique, the mapping function sends every value of
/// the variant at position `i` to `1 << i`, and to nothing else, whatever the
/// value's payload.
pub proof fn lemma_variant_maps_to_its_bit(k: KindSet, s: UnionSchema, i: int)
    requires
        compiled_from(k, s),
        names_unique(s.variants@),
        0 <= i < s.variants.len(),
    ensures
        maps_to(k, s.variants[i].name@, Some(flag_bit(i as nat))),
        forall|r: Option<u128>| maps_to(k, s.variants[i].name@, r) ==> r == Some(flag_bit(i as nat)),
{
    let vs = s.variants@;
    let name = vs[i].name@;
    assert(crate::kind::arm_for(k.arms[i], vs[i]));
    assert(crate::kind::flag_for(k.flags[i], vs[i], i));
    assert forall|j: int| 0 <= j < i implies (#[trigger] k.arms[j]).variant@ != name by {
        assert(crate::kind::arm_for(k.arms[j], vs[j]));
    }
    assert forall|j: int| 0 <= j < i implies (#[trigger] k.flags[j]).name@ != name by {
        assert(crate::kind::flag_for(k.flags[j], vs[j], j));
    }
    assert(first_arm(k, name, i));
    assert(first_flag(k, k.arms[i].flag@, i));
    assert forall|r: Option<u128>| maps_to(k, name, r) implies r == Some(flag_bit(i as nat)) by {
        match r {
            Some(x) => {
                let (a, b) = choose|a: int, b: int|
                    first_arm(k, name, a) && first_flag(k, k.arms[a].flag@, b) && x
                        == k.flags[b].value;
                assert(crate::kind::arm_for(k.arms[a], vs[a]));
                assert(a == i);
                assert(crate::kind::flag_for(k.flags[b], vs[b], b));
                assert(b == i);
            },
            None => {
                assert(k.flags[i].name@ != k.arms[i].flag@);
            },
        }
    }
}

/// The mapping function is exhaustive and total: with unique variant names,
/// each declared variant has exactly one arm, and each constant is the image
/// of the variant declared at its position.
pub proof fn lemma_mapping_is_exhaustive(k: KindSet, s: UnionSchema)
    requires
        compiled_from(k, s),
        names_unique(s.variants@),
    ensures
        k.arms.len() == s.variants.len(),
        forall|i: int, j: int|
            0 <= i < s.variants.len() && 0 <= j < k.arms.len() ==> ((#[trigger] k.arms[j]).variant@
                == (#[trigger] s.variants[i]).name@ <==> i == j),
        forall|j: int|
            0 <= j < k.flags.len() ==> maps_to(k, s.variants[j].name@, Some(#[trigger] k.flags[j].value)),
{
    let vs = s.variants@;
    assert forall|i: int, j: int| 0 <= i < vs.len() && 0 <= j < k.arms.len() implies ((
    #[trigger] k.arms[j]).variant@ == (#[trigger] s.variants[i]).name@ <==> i == j) by {
        assert(crate::kind::arm_for(k.arms[j], vs[j]));
    }
    assert forall|j: int| 0 <= j < k.flags.len() implies maps_to(
        k,
        s.variants[j].name@,
        Some(#[trigger] k.flags[j].value),
    ) by {
        assert(crate::kind::flag_for(k.flags[j], vs[j], j));
        lemma_variant_maps_to_its_bit(k, s, j);
    }
}

/// Compiling the same schema twice gives the same width, the same constants
/// in the same order with the same bits, and the same arms.
pub proof fn lemma_compile_is_deterministic(k1: KindSet, k2: KindSet, s: UnionSchema)
    requires
        compiled_from(k1, s),
        compiled_from(k2, s),
    ensures
        k1.width == k2.width,
        k1.kind_name@ == k2.kind_name@,
        k1.flags.len() == k2.flags.len(),
        forall|i: int|
            0 <= i < k1.flags.len() ==> (#[trigger] k1.flags[i]).name@ == k2.flags[i].name@
                && k1.flags[i].position == k2.flags[i].position && k1.flags[i].value
                == k2.flags[i].value,
        k1.arms.len() == k2.arms.len(),
        forall|i: int|
            0 <= i < k1.arms.len() ==> (#[trigger] k1.arms[i]).variant@ == k2.arms[i].variant@
                && k1.arms[i].pattern == k2.arms[i].pattern && k1.arms[i].flag@ == k2.arms[i].flag@,
{
    assert forall|i: int| 0 <= i < k1.flags.len() implies (#[trigger] k1.flags[i]).name@
        == k2.flags[i].name@ && k1.flags[i].position == k2.flags[i].position
        && k1.flags[i].value == k2.flags[i].value by {
        assert(crate::kind::flag_for(k1.flags[i], s.variants[i], i));
        assert(crate::kind::flag_for(k2.flags[i], s.variants[i], i));
    }
    assert forall|i: int| 0 <= i < k1.arms.len() implies (#[trigger] k1.arms[i]).variant@
        == k2.arms[i].variant@ && k1.arms[i].pattern == k2.arms[i].pattern
        && k1.arms[i].flag@ == k2.arms[i].flag@ by {
        assert(crate::kind::arm_for(k1.arms[i], s.variants[i]));
        assert(crate::kind::arm_for(k2.arms[i], s.variants[i]));
    }
}

} // verus!
