//! Prepared form of a G1 point: its coordinates lifted into the twist field.

use crate::params::{Affine, MntParameters};
use vstd::prelude::*;

verus! {

/// A G1 point with its coordinates scaled by the twisting element.
#[derive(Clone, Copy, Debug, PartialEq, Eq)]
pub struct G1Prepared<Fp, Fqe> {
    pub x: Fp,
    pub y: Fp,
    pub x_twist: Fqe,
    pub y_twist: Fqe,
}

/// The prepared form of the G1 point `g1` under the parameter set `P`.
pub open spec fn g1_prepared_of<P: MntParameters>(g1: Affine<P::Fp>) -> G1Prepared<P::Fp, P::Fqe> {
    G1Prepared {
        x: g1.x,
        y: g1.y,
        x_twist: P::spec_mul_by_fp(P::spec_twist(), g1.x),
        y_twist: P::spec_mul_by_fp(P::spec_twist(), g1.y),
    }
}

impl<Fp: Copy, Fqe: Copy> G1Prepared<Fp, Fqe> {
    /// Prepares `g1`: keeps its coordinates and multiplies the twisting element by each.
    pub fn from<P: MntParameters<Fp = Fp, Fqe = Fqe>>(g1: Affine<Fp>) -> (r: Self)
        ensures
            r == g1_prepared_of::<P>(g1),
    {
        let twist = P::twist();
        let x_twist = P::mul_by_fp(&twist, &g1.x);
        let y_twist = P::mul_by_fp(&twist, &g1.y);
        G1Prepared { x: g1.x, y: g1.y, x_twist, y_twist }
    }

    /// The prepared form of the group's generator.
    pub fn default<P: MntParameters<Fp = Fp, Fqe = Fqe>>() -> (r: Self)
        ensures
            r == g1_prepared_of::<P>(P::spec_g1_generator()),
    {
        Self::from::<P>(P::g1_generator())
    }
}

} // verus!
