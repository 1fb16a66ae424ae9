//! Products and sums of integers, rearranged.
//!
//! Each lemma is one step of the kind that turns a polynomial into a sum of
//! monomials with their factors in a chosen order.

use vstd::prelude::*;
use vstd::arithmetic::mul::lemma_mul_is_associative;
use vstd::arithmetic::mul::lemma_mul_is_distributive_add;
use vstd::arithmetic::mul::lemma_mul_is_distributive_add_other_way;
use vstd::arithmetic::mul::lemma_mul_is_distributive_sub_other_way;

verus! {

/// A product of three factors is the same in every order.
pub proof fn lemma_product3(a: int, b: int, c: int)
    ensures
        a * c * b == a * b * c,
        b * a * c == a * b * c,
        b * c * a == a * b * c,
        c * a * b == a * b * c,
        c * b * a == a * b * c,
{
    lemma_mul_is_associative(a, b, c);
    lemma_mul_is_associative(a, c, b);
    lemma_mul_is_associative(b, a, c);
    lemma_mul_is_associative(b, c, a);
    lemma_mul_is_associative(c, a, b);
    lemma_mul_is_associative(c, b, a);
}

/// A product of four factors is the same in every order.
pub proof fn lemma_product4(a: int, b: int, c: int, d: int)
    ensures
        a * b * d * c == a * b * c * d,
        a * c * b * d == a * b * c * d,
        a * c * d * b == a * b * c * d,
        a * d * b * c == a * b * c * d,
        a * d * c * b == a * b * c * d,
        b * a * c * d == a * b * c * d,
        b * a * d * c == a * b * c * d,
        b * c * a * d == a * b * c * d,
        b * c * d * a == a * b * c * d,
        b * d * a * c == a * b * c * d,
        b * d * c * a == a * b * c * d,
        c * a * b * d == a * b * c * d,
        c * a * d * b == a * b * c * d,
        c * b * a * d == a * b * c * d,
        c * b * d * a == a * b * c * d,
        c * d * a * b == a * b * c * d,
        c * d * b * a == a * b * c * d,
        d * a * b * c == a * b * c * d,
        d * a * c * b == a * b * c * d,
        d * b * a * c == a * b * c * d,
        d * b * c * a == a * b * c * d,
        d * c * a * b == a * b * c * d,
        d * c * b * a == a * b * c * d,
{
    lemma_product3(a, b, c);
    lemma_product3(a, b, d);
    lemma_product3(a, c, d);
    lemma_product3(b, c, d);
    lemma_product3(a * b, c, d);
    lemma_product3(a * c, d, b);
    lemma_product3(b * c, d, a);
}

/// A sum of four terms times a factor, term by term.
pub proof fn lemma_sum4_times(p: int, q: int, r: int, s: int, x: int)
    ensures
        (p + q + r + s) * x == p * x + q * x + r * x + s * x,
        x * (p + q + r + s) == x * p + x * q + x * r + x * s,
{
    lemma_mul_is_distributive_add_other_way(x, p + q + r, s);
    lemma_mul_is_distributive_add_other_way(x, p + q, r);
    lemma_mul_is_distributive_add_other_way(x, p, q);
    lemma_mul_is_distributive_add(x, p + q + r, s);
    lemma_mul_is_distributive_add(x, p + q, r);
    lemma_mul_is_distributive_add(x, p, q);
}

/// The six terms of a determinant of side three times a factor, term by
/// term.
pub proof fn lemma_signed6_times(a: int, b: int, c: int, d: int, e: int, f: int, x: int)
    ensures
        (a - b - c + d + e - f) * x == a * x - b * x - c * x + d * x + e * x - f * x,
{
    lemma_mul_is_distributive_sub_other_way(x, a - b - c + d + e, f);
    lemma_mul_is_distributive_add_other_way(x, a - b - c + d, e);
    lemma_mul_is_distributive_add_other_way(x, a - b - c, d);
    lemma_mul_is_distributive_sub_other_way(x, a - b, c);
    lemma_mul_is_distributive_sub_other_way(x, a, b);
}

} // verus!
