//! A Rank-1 Constraint System core with a Groth16-style proving pipeline.
//!
//! The library builds constraint systems over the BLS12-381 scalar field,
//! extracts the three sparse matrices that index a concrete witness vector,
//! and drives proving and verification through the `ark_groth16` back end.

pub mod circuit;
pub mod error;
pub mod field;
pub mod groth16;
pub mod lc;
pub mod matrix;
pub mod system;
