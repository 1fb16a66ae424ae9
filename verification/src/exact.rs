//! Scalars that compute with integers exactly.
//!
//! An exact scalar stands for an integer modulo some modulus, and its sums,
//! differences, products and negations are those of the integers, reduced. The
//! laws of algebra hold of such scalars without exception, which they do not of
//! rounded numbers: this is where the identities of the geometry are proved.
//! Division is left out, since integers have none that undoes every product.

use vstd::prelude::*;
use vstd::arithmetic::div_mod::lemma_add_mod_noop;
use vstd::arithmetic::div_mod::lemma_mul_mod_noop;
use vstd::arithmetic::div_mod::lemma_small_mod;
use vstd::arithmetic::div_mod::lemma_sub_mod_noop;
use crate::scalar::Scalar;

verus! {

/// A scalar whose arithmetic is that of the integers modulo `modulus()`.
pub trait Exact: Scalar {
    /// The modulus, a positive integer.
    spec fn modulus() -> int;

    /// The integer from zero up to the modulus that the scalar stands for.
    spec fn value(self) -> int;

    /// The value lies from zero up to the modulus.
    proof fn value_in_range(self)
        ensures
            0 <= self.value() < Self::modulus(),
    ;

    /// Two scalars with one value are one scalar.
    proof fn value_decides(self, other: Self)
        requires
            self.value() == other.value(),
        ensures
            self == other,
    ;

    /// The scalar of an integer has the residue of that integer as its value.
    proof fn lit_value(v: i32)
        ensures
            Self::lit(v).value() == (v as int) % Self::modulus(),
    ;

    /// Sums are sums of integers, reduced.
    proof fn sum_value(self, rhs: Self)
        ensures
            self.sum(rhs).value() == (self.value() + rhs.value()) % Self::modulus(),
    ;

    /// Differences are differences of integers, reduced.
    proof fn difference_value(self, rhs: Self)
        ensures
            self.difference(rhs).value() == (self.value() - rhs.value()) % Self::modulus(),
    ;

    /// Products are products of integers, reduced.
    proof fn product_value(self, rhs: Self)
        ensures
            self.product(rhs).value() == (self.value() * rhs.value()) % Self::modulus(),
    ;

    /// Negations are negations of integers, reduced.
    proof fn negation_value(self)
        ensures
            self.negation().value() == (-self.value()) % Self::modulus(),
    ;
}

/// Whether `x` is the scalar of the integer `n`.
pub open spec fn stands_for<S: Exact>(x: S, n: int) -> bool {
    x.value() == n % S::modulus()
}

/// Every scalar stands for its value.
pub proof fn lemma_stands_for_value<S: Exact>(x: S)
    ensures
        stands_for(x, x.value()),
{
    x.value_in_range();
    lemma_small_mod(x.value() as nat, S::modulus() as nat);
}

/// Two scalars of one integer are equal.
pub proof fn lemma_same<S: Exact>(x: S, y: S, n: int)
    requires
        stands_for(x, n),
        stands_for(y, n),
    ensures
        x == y,
{
    x.value_decides(y);
}

/// A literal stands for its integer.
pub proof fn lemma_lit<S: Exact>(v: i32)
    ensures
        stands_for(S::lit(v), v as int),
{
    S::lit_value(v);
}

/// A sum stands for the sum of what its terms stand for.
pub proof fn lemma_sum<S: Exact>(x: S, y: S, a: int, b: int)
    requires
        stands_for(x, a),
        stands_for(y, b),
    ensures
        stands_for(x.sum(y), a + b),
{
    x.value_in_range();
    x.sum_value(y);
    lemma_add_mod_noop(a, b, S::modulus());
}

/// A difference stands for the difference of what its terms stand for.
pub proof fn lemma_difference<S: Exact>(x: S, y: S, a: int, b: int)
    requires
        stands_for(x, a),
        stands_for(y, b),
    ensures
        stands_for(x.difference(y), a - b),
{
    x.value_in_range();
    x.difference_value(y);
    lemma_sub_mod_noop(a, b, S::modulus());
}

/// A product stands for the product of what its factors stand for.
pub proof fn lemma_product<S: Exact>(x: S, y: S, a: int, b: int)
    requires
        stands_for(x, a),
        stands_for(y, b),
    ensures
        stands_for(x.product(y), a * b),
{
    x.value_in_range();
    x.product_value(y);
    lemma_mul_mod_noop(a, b, S::modulus());
}

/// A negation stands for the negative of what its operand stands for.
pub proof fn lemma_negation<S: Exact>(x: S, a: int)
    requires
        stands_for(x, a),
    ensures
        stands_for(x.negation(), -a),
{
    x.value_in_range();
    x.negation_value();
    lemma_sub_mod_noop(0, a, S::modulus());
    lemma_sub_mod_noop(0, x.value(), S::modulus());
}

} // verus!
