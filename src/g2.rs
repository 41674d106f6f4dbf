//! Prepared form of a G2 point: the line coefficients of every step of the Miller loop.

use crate::loop_count::{walked_bits, walked_bits_of};
use crate::params::{
    Affine, AteAdditionCoefficients, AteDoubleCoefficients, G2ProjectiveExtended, MntParameters,
};
use vstd::prelude::*;

verus! {

/// A G2 point with its coordinates over the twist and the coefficients of each doubling and
/// each addition step, in the order in which the Miller loop consumes them.
#[derive(Clone, Debug, PartialEq, Eq)]
pub struct G2Prepared<F> {
    pub x: F,
    pub y: F,
    pub x_over_twist: F,
    pub y_over_twist: F,
    pub double_coefficients: Vec<AteDoubleCoefficients<F>>,
    pub addition_coefficients: Vec<AteAdditionCoefficients<F>>,
}

/// What a `G2Prepared` holds, with its coefficient lists as sequences.
pub ghost struct G2PreparedModel<F> {
    pub x: F,
    pub y: F,
    pub x_over_twist: F,
    pub y_over_twist: F,
    pub double_coefficients: Seq<AteDoubleCoefficients<F>>,
    pub addition_coefficients: Seq<AteAdditionCoefficients<F>>,
}

impl<F> View for G2Prepared<F> {
    type V = G2PreparedModel<F>;

    open spec fn view(&self) -> G2PreparedModel<F> {
        G2PreparedModel {
            x: self.x,
            y: self.y,
            x_over_twist: self.x_over_twist,
            y_over_twist: self.y_over_twist,
            double_coefficients: self.double_coefficients@,
            addition_coefficients: self.addition_coefficients@,
        }
    }
}

/// The accumulator at the start of the walk: the point itself, with `z = t = 1`.
pub open spec fn walk_start<P: MntParameters>(x: P::Fqe, y: P::Fqe) -> G2ProjectiveExtended<P::Fqe> {
    G2ProjectiveExtended { x, y, z: P::spec_one(), t: P::spec_one() }
}

/// The double-and-add walk over `bits` for the point `(x, y)`: the final accumulator, the
/// doubling coefficients and the addition coefficients. Each bit doubles; a set bit then adds.
pub open spec fn walk<P: MntParameters>(x: P::Fqe, y: P::Fqe, bits: Seq<bool>) -> (
    G2ProjectiveExtended<P::Fqe>,
    Seq<AteDoubleCoefficients<P::Fqe>>,
    Seq<AteAdditionCoefficients<P::Fqe>>,
)
    decreases bits.len(),
{
    if bits.len() == 0 {
        (walk_start::<P>(x, y), Seq::empty(), Seq::empty())
    } else {
        let (r, ds, adds) = walk::<P>(x, y, bits.drop_last());
        let (r1, d) = P::spec_doubling_step(r);
        if bits.last() {
            let (r2, a) = P::spec_mixed_addition_step(x, y, r1);
            (r2, ds.push(d), adds.push(a))
        } else {
            (r1, ds.push(d), adds)
        }
    }
}

/// The affine form of the negation of `r`, `None` when `r.z` has no inverse.
pub open spec fn negated_affine<P: MntParameters>(r: G2ProjectiveExtended<P::Fqe>) -> Option<
    Affine<P::Fqe>,
> {
    match P::spec_inverse(r.z) {
        None => None,
        Some(z_inv) => {
            let z2_inv = P::spec_square(z_inv);
            let z3_inv = P::spec_mul(z_inv, z2_inv);
            Some(
                Affine {
                    x: P::spec_mul(r.x, z2_inv),
                    y: P::spec_mul(P::spec_neg(r.y), z3_inv),
                },
            )
        },
    }
}

/// The coefficients of the trailing step of a negative loop counter: `r` plus the negation of
/// its own affine form.
pub open spec fn fixup_coefficients<P: MntParameters>(r: G2ProjectiveExtended<P::Fqe>) -> Option<
    AteAdditionCoefficients<P::Fqe>,
> {
    match negated_affine::<P>(r) {
        None => None,
        Some(m) => Some(P::spec_mixed_addition_step(m.x, m.y, r).1),
    }
}

/// The prepared form of `g2` for the loop counter `limbs` with sign `neg`; `None` when the
/// twisting element, or (for a negative counter) the final accumulator's `z`, has no inverse.
pub open spec fn g2_prepared_with<P: MntParameters>(
    limbs: Seq<u64>,
    neg: bool,
    g2: Affine<P::Fqe>,
) -> Option<G2PreparedModel<P::Fqe>> {
    match P::spec_inverse(P::spec_twist()) {
        None => None,
        Some(twist_inv) => {
            let (r, ds, adds) = walk::<P>(g2.x, g2.y, walked_bits_of(limbs));
            let fixup = fixup_coefficients::<P>(r);
            if neg && fixup is None {
                None
            } else {
                Some(
                    G2PreparedModel {
                        x: g2.x,
                        y: g2.y,
                        x_over_twist: P::spec_mul(g2.x, twist_inv),
                        y_over_twist: P::spec_mul(g2.y, twist_inv),
                        double_coefficients: ds,
                        addition_coefficients: if neg {
                            adds.push(fixup->Some_0)
                        } else {
                            adds
                        },
                    },
                )
            }
        },
    }
}

/// The prepared form of `g2` under the parameter set `P`.
pub open spec fn g2_prepared_of<P: MntParameters>(g2: Affine<P::Fqe>) -> Option<
    G2PreparedModel<P::Fqe>,
> {
    g2_prepared_with::<P>(P::spec_ate_loop_count(), P::spec_ate_is_loop_count_neg(), g2)
}

impl<F: Copy> G2Prepared<F> {
    /// Prepares `g2` for the loop counter `limbs` (least significant limb first) with sign `neg`,
    /// using the field operations and step formulas of `P`.
    pub fn prepare_with<P: MntParameters<Fqe = F>>(
        limbs: &Vec<u64>,
        neg: bool,
        g2: Affine<F>,
    ) -> (res: Option<Self>)
        ensures
            res matches Some(p) ==> g2_prepared_with::<P>(limbs@, neg, g2) == Some(p@),
            res is None ==> g2_prepared_with::<P>(limbs@, neg, g2) is None,
    {
        let twist = P::twist();
        let twist_inv = match P::inverse(&twist) {
            None => return None,
            Some(t) => t,
        };
        let mut double_coefficients: Vec<AteDoubleCoefficients<F>> = Vec::new();
        let mut addition_coefficients: Vec<AteAdditionCoefficients<F>> = Vec::new();
        let mut r = G2ProjectiveExtended { x: g2.x, y: g2.y, z: P::one(), t: P::one() };
        let bits = walked_bits(limbs);
        let mut i: usize = 0;
        while i < bits.len()
            invariant
                i <= bits@.len(),
                (r, double_coefficients@, addition_coefficients@) == walk::<P>(
                    g2.x,
                    g2.y,
                    bits@.subrange(0, i as int),
                ),
            decreases bits.len() - i,
        {
            proof {
                let next = bits@.subrange(0, i + 1);
                assert(next.drop_last() =~= bits@.subrange(0, i as int));
                assert(next.last() == bits@[i as int]);
            }
            let (r2, coeff) = P::doubling_step_for_flipped_miller_loop(&r);
            double_coefficients.push(coeff);
            r = r2;
            if bits[i] {
                let (r2, coeff) = P::mixed_addition_step_for_flipped_miller_loop(&g2.x, &g2.y, &r);
                addition_coefficients.push(coeff);
                r = r2;
            }
            i = i + 1;
        }
        assert(bits@.subrange(0, i as int) =~= bits@);
        if neg {
            let rz_inv = match P::inverse(&r.z) {
                None => return None,
                Some(z) => z,
            };
            let rz2_inv = P::square(&rz_inv);
            let rz3_inv = P::mul(&rz_inv, &rz2_inv);
            let minus_r_affine_x = P::mul(&r.x, &rz2_inv);
            let minus_r_y = P::neg(&r.y);
            let minus_r_affine_y = P::mul(&minus_r_y, &rz3_inv);
            let add_result = P::mixed_addition_step_for_flipped_miller_loop(
                &minus_r_affine_x,
                &minus_r_affine_y,
                &r,
            );
            addition_coefficients.push(add_result.1);
        }
        Some(
            G2Prepared {
                x: g2.x,
                y: g2.y,
                x_over_twist: P::mul(&g2.x, &twist_inv),
                y_over_twist: P::mul(&g2.y, &twist_inv),
                double_coefficients,
                addition_coefficients,
            },
        )
    }

    /// Prepares `g2` with the loop counter and sign of the parameter set `P`.
    pub fn from<P: MntParameters<Fqe = F>>(g2: Affine<F>) -> (res: Option<Self>)
        ensures
            res matches Some(p) ==> g2_prepared_of::<P>(g2) == Some(p@),
            res is None ==> g2_prepared_of::<P>(g2) is None,
    {
        let limbs = P::ate_loop_count();
        Self::prepare_with::<P>(&limbs, P::ate_is_loop_count_neg(), g2)
    }

    /// The prepared form of the group's generator.
    pub fn default<P: MntParameters<Fqe = F>>() -> (res: Option<Self>)
        ensures
            res matches Some(p) ==> g2_prepared_of::<P>(P::spec_g2_generator()) == Some(p@),
            res is None ==> g2_prepared_of::<P>(P::spec_g2_generator()) is None,
    {
        Self::from::<P>(P::g2_generator())
    }
}

} // verus!
