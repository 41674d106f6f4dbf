//! Prepared points of MNT4 curves, whose twist field is a quadratic extension of the base field.

pub use crate::g1::G1Prepared;
pub use crate::g2::G2Prepared;
pub use crate::params::{AteAdditionCoefficients, AteDoubleCoefficients};
