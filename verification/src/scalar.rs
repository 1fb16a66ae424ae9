//! The numbers that the geometry is computed with.

use vstd::prelude::*;

verus! {

/// A number type with the four arithmetic operations and negation.
///
/// Each operation is total and is a function of its operands alone. An
/// implementation gives each one twice: as the method that computes it
/// (`from_i32`, `plus`, `minus`, `times`, `over`, `negated`) and as the
/// function that contracts speak of (`lit`, `sum`, `difference`, `product`,
/// `quotient`, `negation`). The two must agree.
///
/// Nothing else is asked, and in particular no law of arithmetic, so that
/// numbers that round qualify. What a division by zero gives is the scalar's
/// own affair; it must give something.
pub trait Scalar: Copy {
    /// The scalar of the integer `v`.
    spec fn lit(v: i32) -> Self;

    /// `self + rhs`.
    spec fn sum(self, rhs: Self) -> Self;

    /// `self - rhs`.
    spec fn difference(self, rhs: Self) -> Self;

    /// `self * rhs`.
    spec fn product(self, rhs: Self) -> Self;

    /// `self / rhs`.
    spec fn quotient(self, rhs: Self) -> Self;

    /// `-self`.
    spec fn negation(self) -> Self;

    /// Computes the scalar of the integer `v`.
    fn from_i32(v: i32) -> (r: Self)
        ensures
            r == Self::lit(v),
    ;

    /// Computes `self + rhs`.
    fn plus(self, rhs: Self) -> (r: Self)
        ensures
            r == self.sum(rhs),
    ;

    /// Computes `self - rhs`.
    fn minus(self, rhs: Self) -> (r: Self)
        ensures
            r == self.difference(rhs),
    ;

    /// Computes `self * rhs`.
    fn times(self, rhs: Self) -> (r: Self)
        ensures
            r == self.product(rhs),
    ;

    /// Computes `self / rhs`.
    fn over(self, rhs: Self) -> (r: Self)
        ensures
            r == self.quotient(rhs),
    ;

    /// Computes `-self`.
    fn negated(self) -> (r: Self)
        ensures
            r == self.negation(),
    ;
}

} // verus!
