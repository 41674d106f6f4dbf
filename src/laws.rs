//! Properties of the preparers that relate several values or calls.

use crate::g1::g1_prepared_of;
use crate::g2::{fixup_coefficients, g2_prepared_of, g2_prepared_with, negated_affine, walk};
use crate::loop_count::{bit_len, count_set, lower_limb_bits, top_limb_bits, walked_bits_of};
use crate::params::{Affine, MntParameters};
use vstd::prelude::*;

verus! {

/// Preparing equal points gives equal results, for G1 and for G2.
pub proof fn lemma_prepare_deterministic<P: MntParameters>(
    a1: Affine<P::Fp>,
    b1: Affine<P::Fp>,
    a2: Affine<P::Fqe>,
    b2: Affine<P::Fqe>,
)
    requires
        a1 == b1,
        a2 == b2,
    ensures
        g1_prepared_of::<P>(a1) == g1_prepared_of::<P>(b1),
        g2_prepared_of::<P>(a2) == g2_prepared_of::<P>(b2),
{
}

/// The walk records one doubling per bit and one addition per set bit.
pub proof fn lemma_walk_counts<P: MntParameters>(x: P::Fqe, y: P::Fqe, bits: Seq<bool>)
    ensures
        walk::<P>(x, y, bits).1.len() == bits.len(),
        walk::<P>(x, y, bits).2.len() == count_set(bits),
    decreases bits.len(),
{
    if bits.len() > 0 {
        lemma_walk_counts::<P>(x, y, bits.drop_last());
    }
}

proof fn lemma_lower_limb_bits_len(limbs: Seq<u64>, k: nat)
    ensures
        lower_limb_bits(limbs, k).len() == 64 * k,
    decreases k,
{
    if k > 0 {
        lemma_lower_limb_bits_len(limbs, (k - 1) as nat);
    }
}

/// The walk visits every bit of the loop counter but the leading one of its top limb and the
/// padding above it: `bit_len(top) - 1` bits of the top limb and all 64 of each other limb.
pub proof fn lemma_walked_bits_len(limbs: Seq<u64>)
    requires
        limbs.len() > 0,
    ensures
        walked_bits_of(limbs).len() == (if limbs.last() == 0 {
            0
        } else {
            bit_len(limbs.last() as nat) - 1
        }) + 64 * (limbs.len() - 1),
{
    lemma_lower_limb_bits_len(limbs, (limbs.len() - 1) as nat);
    if limbs.last() != 0 {
        assert(bit_len(limbs.last() as nat) >= 1);
        assert(top_limb_bits(limbs.last()).len() == bit_len(limbs.last() as nat) - 1);
    }
}

/// A prepared G2 point has one doubling coefficient per walked bit, and one addition
/// coefficient per set walked bit, plus one more when the loop counter is negative.
pub proof fn lemma_coefficient_counts<P: MntParameters>(
    limbs: Seq<u64>,
    neg: bool,
    g2: Affine<P::Fqe>,
)
    requires
        g2_prepared_with::<P>(limbs, neg, g2) is Some,
    ensures
        g2_prepared_with::<P>(limbs, neg, g2)->Some_0.double_coefficients.len() == walked_bits_of(
            limbs,
        ).len(),
        g2_prepared_with::<P>(limbs, neg, g2)->Some_0.addition_coefficients.len() == count_set(
            walked_bits_of(limbs),
        ) + if neg {
            1nat
        } else {
            0nat
        },
{
    lemma_walk_counts::<P>(g2.x, g2.y, walked_bits_of(limbs));
}

/// For a negative loop counter the result is that of the positive counter of the same
/// magnitude with one more addition coefficient at the end: that of adding the negated affine
/// form of the final accumulator to it.
pub proof fn lemma_negative_fixup<P: MntParameters>(limbs: Seq<u64>, g2: Affine<P::Fqe>)
    requires
        g2_prepared_with::<P>(limbs, true, g2) is Some,
    ensures
        g2_prepared_with::<P>(limbs, false, g2) is Some,
        ({
            let n = g2_prepared_with::<P>(limbs, true, g2)->Some_0;
            let p = g2_prepared_with::<P>(limbs, false, g2)->Some_0;
            let r = walk::<P>(g2.x, g2.y, walked_bits_of(limbs)).0;
            let m = negated_affine::<P>(r)->Some_0;
            &&& negated_affine::<P>(r) is Some
            &&& n.x == p.x && n.y == p.y
            &&& n.x_over_twist == p.x_over_twist && n.y_over_twist == p.y_over_twist
            &&& n.double_coefficients == p.double_coefficients
            &&& n.addition_coefficients == p.addition_coefficients.push(
                P::spec_mixed_addition_step(m.x, m.y, r).1,
            )
            &&& fixup_coefficients::<P>(r) == Some(P::spec_mixed_addition_step(m.x, m.y, r).1)
        }),
{
}

} // verus!
