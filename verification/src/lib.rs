//! Vectors of two, three and four components and a four-by-four matrix,
//! over any number type that implements [`scalar::Scalar`].
//!
//! Every operation is a pure function of its arguments. Its contract names
//! the scalar operations that produce each component of the result, in the
//! order in which they are applied. For the exact scalar `i64` the module
//! [`laws`] proves the algebraic identities that follow.

pub mod scalar;
pub mod vector;
pub mod matrix;
pub mod laws;
