//! Lane-wise 128-bit byte operations with the semantics of the SSSE3
//! packed-absolute-value and packed-shuffle primitives, specified and proved
//! per lane: absolute value of 16 signed bytes, and a 16-way byte permutation
//! with zeroing controlled by a second vector.

pub mod ops;
pub mod vector;
