//! A wireframe rendering core: fixed-size vectors and matrices, rigid entities
//! that advance one step per tick, and the camera and perspective pipeline that
//! turns their edges into two-dimensional line segments.
//!
//! Every computation is written once, over any [`scalar::Scalar`]: the host
//! brings the numbers it renders with. The contracts say which operations on
//! those numbers make up each result, and in which order. What depends on the
//! laws of arithmetic is stated in [`laws`] of the scalars of [`exact`], of which
//! [`modular`] holds one.

pub mod scalar;
pub mod vector;
pub mod matrix;
pub mod inverse;
pub mod transform;
pub mod entity;
pub mod renderer;
pub mod scene;
pub mod exact;
pub mod modular;
pub mod proofs;
pub mod laws;
