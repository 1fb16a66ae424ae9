//! The groundwork of the laws: the same computations on integers, and the
//! lemmas that carry a statement from the integers over to exact scalars.

pub mod cofactors;
pub mod determinant;
pub mod integers;
pub mod polynomial;
pub mod tracking;
