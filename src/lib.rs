//! Miller-loop precomputation for optimal ate pairings on MNT4 and MNT6 curves.
//!
//! A G1 point is prepared by lifting its coordinates into the twist field; a G2 point by walking
//! the bits of the ate loop counter, doubling at each bit and adding at each set bit, and
//! recording the line coefficients of every step. Field arithmetic and the step formulas come
//! from a parameter set, `params::MntParameters`.

pub mod g1;
pub mod g2;
pub mod laws;
pub mod loop_count;
pub mod mnt4;
pub mod mnt6;
pub mod params;
