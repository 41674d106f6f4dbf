//! The curve parameter set that the preparers are generic over.

use vstd::prelude::*;

verus! {

/// An affine point `(x, y)` with coordinates in `F`.
#[derive(Clone, Copy, Debug, PartialEq, Eq)]
pub struct Affine<F> {
    pub x: F,
    pub y: F,
}

/// A point in extended projective coordinates, the running accumulator of the G2 walk.
#[derive(Clone, Copy, Debug, PartialEq, Eq)]
pub struct G2ProjectiveExtended<F> {
    pub x: F,
    pub y: F,
    pub z: F,
    pub t: F,
}

/// Coefficients of the tangent line at one doubling step.
#[derive(Clone, Copy, Debug, PartialEq, Eq)]
pub struct AteDoubleCoefficients<F> {
    pub c_h: F,
    pub c_4c: F,
    pub c_j: F,
    pub c_l: F,
}

/// Coefficients of the secant line at one addition step.
#[derive(Clone, Copy, Debug, PartialEq, Eq)]
pub struct AteAdditionCoefficients<F> {
    pub c_l1: F,
    pub c_rz: F,
}

/// A parameter set of an MNT curve: the base field `Fp`, the twist field `Fqe` (a quadratic
/// extension for MNT4, a cubic one for MNT6), the twisting element, the ate loop counter, the
/// group generators, and the step formulas of the flipped Miller loop.
///
/// Each operation is deterministic: its result is the spec function of the same name, applied to
/// its arguments.
pub trait MntParameters {
    type Fp: Copy;
    type Fqe: Copy;

    /// The twisting element.
    spec fn spec_twist() -> Self::Fqe;

    /// The ate loop counter's limbs, least significant first.
    spec fn spec_ate_loop_count() -> Seq<u64>;

    /// Whether the ate loop counter is negative.
    spec fn spec_ate_is_loop_count_neg() -> bool;

    spec fn spec_g1_generator() -> Affine<Self::Fp>;

    spec fn spec_g2_generator() -> Affine<Self::Fqe>;

    spec fn spec_one() -> Self::Fqe;

    spec fn spec_mul(a: Self::Fqe, b: Self::Fqe) -> Self::Fqe;

    spec fn spec_mul_by_fp(a: Self::Fqe, b: Self::Fp) -> Self::Fqe;

    spec fn spec_square(a: Self::Fqe) -> Self::Fqe;

    spec fn spec_neg(a: Self::Fqe) -> Self::Fqe;

    /// The multiplicative inverse, `None` for zero.
    spec fn spec_inverse(a: Self::Fqe) -> Option<Self::Fqe>;

    spec fn spec_doubling_step(r: G2ProjectiveExtended<Self::Fqe>) -> (
        G2ProjectiveExtended<Self::Fqe>,
        AteDoubleCoefficients<Self::Fqe>,
    );

    spec fn spec_mixed_addition_step(
        x: Self::Fqe,
        y: Self::Fqe,
        r: G2ProjectiveExtended<Self::Fqe>,
    ) -> (G2ProjectiveExtended<Self::Fqe>, AteAdditionCoefficients<Self::Fqe>);

    fn twist() -> (r: Self::Fqe)
        ensures
            r == Self::spec_twist(),
    ;

    fn ate_loop_count() -> (r: Vec<u64>)
        ensures
            r@ == Self::spec_ate_loop_count(),
    ;

    fn ate_is_loop_count_neg() -> (r: bool)
        ensures
            r == Self::spec_ate_is_loop_count_neg(),
    ;

    fn g1_generator() -> (r: Affine<Self::Fp>)
        ensures
            r == Self::spec_g1_generator(),
    ;

    fn g2_generator() -> (r: Affine<Self::Fqe>)
        ensures
            r == Self::spec_g2_generator(),
    ;

    fn one() -> (r: Self::Fqe)
        ensures
            r == Self::spec_one(),
    ;

    fn mul(a: &Self::Fqe, b: &Self::Fqe) -> (r: Self::Fqe)
        ensures
            r == Self::spec_mul(*a, *b),
    ;

    fn mul_by_fp(a: &Self::Fqe, b: &Self::Fp) -> (r: Self::Fqe)
        ensures
            r == Self::spec_mul_by_fp(*a, *b),
    ;

    fn square(a: &Self::Fqe) -> (r: Self::Fqe)
        ensures
            r == Self::spec_square(*a),
    ;

    fn neg(a: &Self::Fqe) -> (r: Self::Fqe)
        ensures
            r == Self::spec_neg(*a),
    ;

    fn inverse(a: &Self::Fqe) -> (r: Option<Self::Fqe>)
        ensures
            r == Self::spec_inverse(*a),
    ;

    /// Doubles `r`, with the tangent line at `r`.
    fn doubling_step_for_flipped_miller_loop(r: &G2ProjectiveExtended<Self::Fqe>) -> (res: (
        G2ProjectiveExtended<Self::Fqe>,
        AteDoubleCoefficients<Self::Fqe>,
    ))
        ensures
            res == Self::spec_doubling_step(*r),
    ;

    /// Adds the affine point `(x, y)` to `r`, with the line through both.
    fn mixed_addition_step_for_flipped_miller_loop(
        x: &Self::Fqe,
        y: &Self::Fqe,
        r: &G2ProjectiveExtended<Self::Fqe>,
    ) -> (res: (G2ProjectiveExtended<Self::Fqe>, AteAdditionCoefficients<Self::Fqe>))
        ensures
            res == Self::spec_mixed_addition_step(*x, *y, *r),
    ;
}

} // verus!
