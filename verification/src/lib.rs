//! An immutable 4x4 transformation matrix for building composite affine
//! transforms (translation, rotation about each axis, scaling), as fed to a
//! rendering pipeline.
//!
//! The sixteen elements are IEEE-754 binary32 values in row-major order,
//! handled throughout as their 32-bit patterns; see [`scalar`] for the
//! encoding and [`matrix::Matrix`] for the operations.

pub mod matrix;
pub mod scalar;

pub use matrix::Matrix;
