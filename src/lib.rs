//! Fixed-size square matrices and vectors over an abstract scalar, with
//! determinants, adjugate inversion and homogeneous transform constructors.
//!
//! The scalar is any type implementing [`common::Scalar`] (and
//! [`common::Trig`] for rotations); the contracts state each result exactly
//! in terms of the spec functions that describe the scalar's operations.
//! Nothing is assumed of those operations beyond being functions of their
//! operands, so laws that need ring identities are proved for one concrete
//! scalar only. Wrapping
//! 64-bit integers are provided as one scalar, and the algebraic laws in
//! [`laws`] are proved for them.
pub mod common;
pub mod congruence;
pub mod determinant;
pub mod integer;
pub mod laws;
pub mod matrix;
pub mod transform;
pub mod vector;
