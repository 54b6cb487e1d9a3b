//! Scalar equation solving and the algebra of affine dependencies.

pub mod dependence;
pub mod equation;
pub mod ratio;
