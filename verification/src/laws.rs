//! What holds of the geometry.
//!
//! The laws of motion and of the frame hold of every scalar, since they only
//! say which operations are applied, and in which order. The identities of
//! algebra are stated of exact scalars: rounded numbers meet them only within a
//! tolerance.

pub mod algebra;
pub mod cube;
pub mod inversion;
pub mod motion;
pub mod projection;
pub mod rotation;
