//! Determinants of integer matrices of side four, by cofactors.
//!
//! The central fact is Laplace's expansion: the cofactors of one column, each
//! times the entry of its row in the same column, add up to the determinant; and
//! times the entries of another column, to zero. It is proved by writing both
//! sides as sums of products of four entries.

use vstd::prelude::*;
use vstd::arithmetic::mul::lemma_mul_unary_negation;
use crate::inverse::skip;
use crate::proofs::polynomial::lemma_product4;
use crate::proofs::polynomial::lemma_signed6_times;
use crate::proofs::integers::int_cell;

verus! {

/// The determinant of the integer matrix with the rows `a b c`, `d e f` and
/// `g h i`.
pub open spec fn int_expand(
    a: int,
    b: int,
    c: int,
    d: int,
    e: int,
    f: int,
    g: int,
    h: int,
    i: int,
) -> int {
    a * e * i - a * f * h - d * b * i + d * c * h + g * b * f - g * c * e
}

/// The entry in row `r` and column `c` of what is left of the integer matrix
/// `m` without row `row` and column `col`.
pub open spec fn int_minor_at(m: Seq<int>, row: int, col: int, r: int, c: int) -> int {
    m[4 * skip(r, row) + skip(c, col)]
}

/// The cofactor of the entry in row `row` and column `col` of `m`.
pub open spec fn int_cofactor(m: Seq<int>, row: int, col: int) -> int {
    let minor = int_expand(
        int_minor_at(m, row, col, 0, 0),
        int_minor_at(m, row, col, 0, 1),
        int_minor_at(m, row, col, 0, 2),
        int_minor_at(m, row, col, 1, 0),
        int_minor_at(m, row, col, 1, 1),
        int_minor_at(m, row, col, 1, 2),
        int_minor_at(m, row, col, 2, 0),
        int_minor_at(m, row, col, 2, 1),
        int_minor_at(m, row, col, 2, 2),
    );
    if (row + col) % 2 == 0 {
        minor
    } else {
        -minor
    }
}

/// The transposed matrix of the cofactors of `m`.
pub open spec fn int_adjugate(m: Seq<int>) -> Seq<int> {
    Seq::new(16, |k: int| int_cofactor(m, k % 4, k / 4))
}

/// The determinant of `m`, along its first row.
pub open spec fn int_determinant(m: Seq<int>) -> int {
    m[0] * int_cofactor(m, 0, 0) + m[1] * int_cofactor(m, 0, 1) + m[2] * int_cofactor(m, 0, 2)
        + m[3] * int_cofactor(m, 0, 3)
}

/// A determinant of side three times a factor, as a sum of products of four.
proof fn lemma_expand_times(
    a: int,
    b: int,
    c: int,
    d: int,
    e: int,
    f: int,
    g: int,
    h: int,
    i: int,
    x: int,
)
    ensures
        int_expand(a, b, c, d, e, f, g, h, i) * x == a * e * i * x - a * f * h * x - d * b * i * x
            + d * c * h * x + g * b * f * x - g * c * e * x,
{
    lemma_signed6_times(a * e * i, a * f * h, d * b * i, d * c * h, g * b * f, g * c * e, x);
}

/// The determinant as the signed sum of its twenty-four products, each of one
/// entry from every row and every column.
proof fn lemma_determinant_expanded(m: Seq<int>)
    requires
        m.len() == 16,
    ensures
        int_determinant(m) == {
            let (m0, m1, m2, m3) = (m[0], m[1], m[2], m[3]);
            let (m4, m5, m6, m7) = (m[4], m[5], m[6], m[7]);
            let (m8, m9, m10, m11) = (m[8], m[9], m[10], m[11]);
            let (m12, m13, m14, m15) = (m[12], m[13], m[14], m[15]);
            m0 * m5 * m10 * m15 - m0 * m5 * m11 * m14 - m0 * m6 * m9 * m15
                + m0 * m6 * m11 * m13 + m0 * m7 * m9 * m14 - m0 * m7 * m10 * m13
                - m1 * m4 * m10 * m15 + m1 * m4 * m11 * m14 + m1 * m6 * m8 * m15
                - m1 * m6 * m11 * m12 - m1 * m7 * m8 * m14 + m1 * m7 * m10 * m12
                + m2 * m4 * m9 * m15 - m2 * m4 * m11 * m13 - m2 * m5 * m8 * m15
                + m2 * m5 * m11 * m12 + m2 * m7 * m8 * m13 - m2 * m7 * m9 * m12
                - m3 * m4 * m9 * m14 + m3 * m4 * m10 * m13 + m3 * m5 * m8 * m14
                - m3 * m5 * m10 * m12 - m3 * m6 * m8 * m13 + m3 * m6 * m9 * m12
        },
{
    let (m0, m1, m2, m3) = (m[0], m[1], m[2], m[3]);
    let (m4, m5, m6, m7) = (m[4], m[5], m[6], m[7]);
    let (m8, m9, m10, m11) = (m[8], m[9], m[10], m[11]);
    let (m12, m13, m14, m15) = (m[12], m[13], m[14], m[15]);
    assert(int_cofactor(m, 0, 0) == int_expand(m5, m6, m7, m9, m10, m11, m13, m14, m15));
    assert(int_cofactor(m, 0, 1) == -int_expand(m4, m6, m7, m8, m10, m11, m12, m14, m15));
    assert(int_cofactor(m, 0, 2) == int_expand(m4, m5, m7, m8, m9, m11, m12, m13, m15));
    assert(int_cofactor(m, 0, 3) == -int_expand(m4, m5, m6, m8, m9, m10, m12, m13, m14));
    lemma_expand_times(m5, m6, m7, m9, m10, m11, m13, m14, m15, m0);
    lemma_expand_times(m4, m6, m7, m8, m10, m11, m12, m14, m15, m1);
    lemma_mul_unary_negation(int_expand(m4, m6, m7, m8, m10, m11, m12, m14, m15), m1);
    lemma_expand_times(m4, m5, m7, m8, m9, m11, m12, m13, m15, m2);
    lemma_expand_times(m4, m5, m6, m8, m9, m10, m12, m13, m14, m3);
    lemma_mul_unary_negation(int_expand(m4, m5, m6, m8, m9, m10, m12, m13, m14), m3);
    lemma_product4(m0, m5, m10, m15);
    lemma_product4(m0, m5, m11, m14);
    lemma_product4(m0, m6, m9, m15);
    lemma_product4(m0, m7, m9, m14);
    lemma_product4(m0, m6, m11, m13);
    lemma_product4(m0, m7, m10, m13);
    lemma_product4(m1, m4, m10, m15);
    lemma_product4(m1, m4, m11, m14);
    lemma_product4(m1, m6, m8, m15);
    lemma_product4(m1, m7, m8, m14);
    lemma_product4(m1, m6, m11, m12);
    lemma_product4(m1, m7, m10, m12);
    lemma_product4(m2, m4, m9, m15);
    lemma_product4(m2, m4, m11, m13);
    lemma_product4(m2, m5, m8, m15);
    lemma_product4(m2, m7, m8, m13);
    lemma_product4(m2, m5, m11, m12);
    lemma_product4(m2, m7, m9, m12);
    lemma_product4(m3, m4, m9, m14);
    lemma_product4(m3, m4, m10, m13);
    lemma_product4(m3, m5, m8, m14);
    lemma_product4(m3, m6, m8, m13);
    lemma_product4(m3, m5, m10, m12);
    lemma_product4(m3, m6, m9, m12);
}

/// Column 0 of the cofactors against column `c` of the matrix: the determinant
/// where `c` is 0, and zero elsewhere.
proof fn lemma_cofactors_of_column_0(m: Seq<int>, c: int)
    requires
        m.len() == 16,
        0 <= c < 4,
    ensures
        int_cofactor(m, 0, 0) * m[c] + int_cofactor(m, 1, 0) * m[4 + c] + int_cofactor(m, 2, 0)
            * m[8 + c] + int_cofactor(m, 3, 0) * m[12 + c] == (if c == 0 {
            int_determinant(m)
        } else {
            0
        }),
{
    let (m0, m1, m2, m3) = (m[0], m[1], m[2], m[3]);
    let (m4, m5, m6, m7) = (m[4], m[5], m[6], m[7]);
    let (m8, m9, m10, m11) = (m[8], m[9], m[10], m[11]);
    let (m12, m13, m14, m15) = (m[12], m[13], m[14], m[15]);
    assert(int_cofactor(m, 0, 0) == int_expand(m5, m6, m7, m9, m10, m11, m13, m14, m15));
    assert(int_cofactor(m, 1, 0) == -int_expand(m1, m2, m3, m9, m10, m11, m13, m14, m15));
    assert(int_cofactor(m, 2, 0) == int_expand(m1, m2, m3, m5, m6, m7, m13, m14, m15));
    assert(int_cofactor(m, 3, 0) == -int_expand(m1, m2, m3, m5, m6, m7, m9, m10, m11));
    if c == 0 {
        lemma_determinant_expanded(m);
        lemma_expand_times(m5, m6, m7, m9, m10, m11, m13, m14, m15, m0);
        lemma_expand_times(m1, m2, m3, m9, m10, m11, m13, m14, m15, m4);
        lemma_mul_unary_negation(int_expand(m1, m2, m3, m9, m10, m11, m13, m14, m15), m4);
        lemma_expand_times(m1, m2, m3, m5, m6, m7, m13, m14, m15, m8);
        lemma_expand_times(m1, m2, m3, m5, m6, m7, m9, m10, m11, m12);
        lemma_mul_unary_negation(int_expand(m1, m2, m3, m5, m6, m7, m9, m10, m11), m12);
        lemma_product4(m0, m5, m10, m15);
        lemma_product4(m0, m5, m11, m14);
        lemma_product4(m0, m6, m9, m15);
        lemma_product4(m0, m7, m9, m14);
        lemma_product4(m0, m6, m11, m13);
        lemma_product4(m0, m7, m10, m13);
        lemma_product4(m1, m4, m10, m15);
        lemma_product4(m1, m4, m11, m14);
        lemma_product4(m2, m4, m9, m15);
        lemma_product4(m3, m4, m9, m14);
        lemma_product4(m2, m4, m11, m13);
        lemma_product4(m3, m4, m10, m13);
        lemma_product4(m1, m6, m8, m15);
        lemma_product4(m1, m7, m8, m14);
        lemma_product4(m2, m5, m8, m15);
        lemma_product4(m3, m5, m8, m14);
        lemma_product4(m2, m7, m8, m13);
        lemma_product4(m3, m6, m8, m13);
        lemma_product4(m1, m6, m11, m12);
        lemma_product4(m1, m7, m10, m12);
        lemma_product4(m2, m5, m11, m12);
        lemma_product4(m3, m5, m10, m12);
        lemma_product4(m2, m7, m9, m12);
        lemma_product4(m3, m6, m9, m12);
    } else if c == 1 {
        lemma_expand_times(m5, m6, m7, m9, m10, m11, m13, m14, m15, m1);
        lemma_expand_times(m1, m2, m3, m9, m10, m11, m13, m14, m15, m5);
        lemma_mul_unary_negation(int_expand(m1, m2, m3, m9, m10, m11, m13, m14, m15), m5);
        lemma_expand_times(m1, m2, m3, m5, m6, m7, m13, m14, m15, m9);
        lemma_expand_times(m1, m2, m3, m5, m6, m7, m9, m10, m11, m13);
        lemma_mul_unary_negation(int_expand(m1, m2, m3, m5, m6, m7, m9, m10, m11), m13);
        lemma_product4(m1, m5, m10, m15);
        lemma_product4(m1, m5, m11, m14);
        lemma_product4(m1, m6, m9, m15);
        lemma_product4(m1, m7, m9, m14);
        lemma_product4(m1, m6, m11, m13);
        lemma_product4(m1, m7, m10, m13);
        lemma_product4(m2, m5, m9, m15);
        lemma_product4(m3, m5, m9, m14);
        lemma_product4(m2, m5, m11, m13);
        lemma_product4(m3, m5, m10, m13);
        lemma_product4(m2, m7, m9, m13);
        lemma_product4(m3, m6, m9, m13);
    } else if c == 2 {
        lemma_expand_times(m5, m6, m7, m9, m10, m11, m13, m14, m15, m2);
        lemma_expand_times(m1, m2, m3, m9, m10, m11, m13, m14, m15, m6);
        lemma_mul_unary_negation(int_expand(m1, m2, m3, m9, m10, m11, m13, m14, m15), m6);
        lemma_expand_times(m1, m2, m3, m5, m6, m7, m13, m14, m15, m10);
        lemma_expand_times(m1, m2, m3, m5, m6, m7, m9, m10, m11, m14);
        lemma_mul_unary_negation(int_expand(m1, m2, m3, m5, m6, m7, m9, m10, m11), m14);
        lemma_product4(m2, m5, m10, m15);
        lemma_product4(m2, m5, m11, m14);
        lemma_product4(m2, m6, m9, m15);
        lemma_product4(m2, m7, m9, m14);
        lemma_product4(m2, m6, m11, m13);
        lemma_product4(m2, m7, m10, m13);
        lemma_product4(m1, m6, m10, m15);
        lemma_product4(m1, m6, m11, m14);
        lemma_product4(m3, m6, m9, m14);
        lemma_product4(m3, m6, m10, m13);
        lemma_product4(m1, m7, m10, m14);
        lemma_product4(m3, m5, m10, m14);
    } else {
        lemma_expand_times(m5, m6, m7, m9, m10, m11, m13, m14, m15, m3);
        lemma_expand_times(m1, m2, m3, m9, m10, m11, m13, m14, m15, m7);
        lemma_mul_unary_negation(int_expand(m1, m2, m3, m9, m10, m11, m13, m14, m15), m7);
        lemma_expand_times(m1, m2, m3, m5, m6, m7, m13, m14, m15, m11);
        lemma_expand_times(m1, m2, m3, m5, m6, m7, m9, m10, m11, m15);
        lemma_mul_unary_negation(int_expand(m1, m2, m3, m5, m6, m7, m9, m10, m11), m15);
        lemma_product4(m3, m5, m10, m15);
        lemma_product4(m3, m5, m11, m14);
        lemma_product4(m3, m6, m9, m15);
        lemma_product4(m3, m7, m9, m14);
        lemma_product4(m3, m6, m11, m13);
        lemma_product4(m3, m7, m10, m13);
        lemma_product4(m1, m7, m10, m15);
        lemma_product4(m1, m7, m11, m14);
        lemma_product4(m2, m7, m9, m15);
        lemma_product4(m2, m7, m11, m13);
        lemma_product4(m1, m6, m11, m15);
        lemma_product4(m2, m5, m11, m15);
    }
}

/// Column 1 of the cofactors against column `c` of the matrix: the determinant
/// where `c` is 1, and zero elsewhere.
proof fn lemma_cofactors_of_column_1(m: Seq<int>, c: int)
    requires
        m.len() == 16,
        0 <= c < 4,
    ensures
        int_cofactor(m, 0, 1) * m[c] + int_cofactor(m, 1, 1) * m[4 + c] + int_cofactor(m, 2, 1)
            * m[8 + c] + int_cofactor(m, 3, 1) * m[12 + c] == (if c == 1 {
            int_determinant(m)
        } else {
            0
        }),
{
    let (m0, m1, m2, m3) = (m[0], m[1], m[2], m[3]);
    let (m4, m5, m6, m7) = (m[4], m[5], m[6], m[7]);
    let (m8, m9, m10, m11) = (m[8], m[9], m[10], m[11]);
    let (m12, m13, m14, m15) = (m[12], m[13], m[14], m[15]);
    assert(int_cofactor(m, 0, 1) == -int_expand(m4, m6, m7, m8, m10, m11, m12, m14, m15));
    assert(int_cofactor(m, 1, 1) == int_expand(m0, m2, m3, m8, m10, m11, m12, m14, m15));
    assert(int_cofactor(m, 2, 1) == -int_expand(m0, m2, m3, m4, m6, m7, m12, m14, m15));
    assert(int_cofactor(m, 3, 1) == int_expand(m0, m2, m3, m4, m6, m7, m8, m10, m11));
    if c == 0 {
        lemma_expand_times(m4, m6, m7, m8, m10, m11, m12, m14, m15, m0);
        lemma_mul_unary_negation(int_expand(m4, m6, m7, m8, m10, m11, m12, m14, m15), m0);
        lemma_expand_times(m0, m2, m3, m8, m10, m11, m12, m14, m15, m4);
        lemma_expand_times(m0, m2, m3, m4, m6, m7, m12, m14, m15, m8);
        lemma_mul_unary_negation(int_expand(m0, m2, m3, m4, m6, m7, m12, m14, m15), m8);
        lemma_expand_times(m0, m2, m3, m4, m6, m7, m8, m10, m11, m12);
        lemma_product4(m0, m4, m10, m15);
        lemma_product4(m0, m4, m11, m14);
        lemma_product4(m0, m6, m8, m15);
        lemma_product4(m0, m7, m8, m14);
        lemma_product4(m0, m6, m11, m12);
        lemma_product4(m0, m7, m10, m12);
        lemma_product4(m2, m4, m8, m15);
        lemma_product4(m3, m4, m8, m14);
        lemma_product4(m2, m4, m11, m12);
        lemma_product4(m3, m4, m10, m12);
        lemma_product4(m2, m7, m8, m12);
        lemma_product4(m3, m6, m8, m12);
    } else if c == 1 {
        lemma_determinant_expanded(m);
        lemma_expand_times(m4, m6, m7, m8, m10, m11, m12, m14, m15, m1);
        lemma_mul_unary_negation(int_expand(m4, m6, m7, m8, m10, m11, m12, m14, m15), m1);
        lemma_expand_times(m0, m2, m3, m8, m10, m11, m12, m14, m15, m5);
        lemma_expand_times(m0, m2, m3, m4, m6, m7, m12, m14, m15, m9);
        lemma_mul_unary_negation(int_expand(m0, m2, m3, m4, m6, m7, m12, m14, m15), m9);
        lemma_expand_times(m0, m2, m3, m4, m6, m7, m8, m10, m11, m13);
        lemma_product4(m1, m4, m10, m15);
        lemma_product4(m1, m4, m11, m14);
        lemma_product4(m1, m6, m8, m15);
        lemma_product4(m1, m7, m8, m14);
        lemma_product4(m1, m6, m11, m12);
        lemma_product4(m1, m7, m10, m12);
        lemma_product4(m0, m5, m10, m15);
        lemma_product4(m0, m5, m11, m14);
        lemma_product4(m2, m5, m8, m15);
        lemma_product4(m3, m5, m8, m14);
        lemma_product4(m2, m5, m11, m12);
        lemma_product4(m3, m5, m10, m12);
        lemma_product4(m0, m6, m9, m15);
        lemma_product4(m0, m7, m9, m14);
        lemma_product4(m2, m4, m9, m15);
        lemma_product4(m3, m4, m9, m14);
        lemma_product4(m2, m7, m9, m12);
        lemma_product4(m3, m6, m9, m12);
        lemma_product4(m0, m6, m11, m13);
        lemma_product4(m0, m7, m10, m13);
        lemma_product4(m2, m4, m11, m13);
        lemma_product4(m3, m4, m10, m13);
        lemma_product4(m2, m7, m8, m13);
        lemma_product4(m3, m6, m8, m13);
    } else if c == 2 {
        lemma_expand_times(m4, m6, m7, m8, m10, m11, m12, m14, m15, m2);
        lemma_mul_unary_negation(int_expand(m4, m6, m7, m8, m10, m11, m12, m14, m15), m2);
        lemma_expand_times(m0, m2, m3, m8, m10, m11, m12, m14, m15, m6);
        lemma_expand_times(m0, m2, m3, m4, m6, m7, m12, m14, m15, m10);
        lemma_mul_unary_negation(int_expand(m0, m2, m3, m4, m6, m7, m12, m14, m15), m10);
        lemma_expand_times(m0, m2, m3, m4, m6, m7, m8, m10, m11, m14);
        lemma_product4(m2, m4, m10, m15);
        lemma_product4(m2, m4, m11, m14);
        lemma_product4(m2, m6, m8, m15);
        lemma_product4(m2, m7, m8, m14);
        lemma_product4(m2, m6, m11, m12);
        lemma_product4(m2, m7, m10, m12);
        lemma_product4(m0, m6, m10, m15);
        lemma_product4(m0, m6, m11, m14);
        lemma_product4(m3, m6, m8, m14);
        lemma_product4(m3, m6, m10, m12);
        lemma_product4(m0, m7, m10, m14);
        lemma_product4(m3, m4, m10, m14);
    } else {
        lemma_expand_times(m4, m6, m7, m8, m10, m11, m12, m14, m15, m3);
        lemma_mul_unary_negation(int_expand(m4, m6, m7, m8, m10, m11, m12, m14, m15), m3);
        lemma_expand_times(m0, m2, m3, m8, m10, m11, m12, m14, m15, m7);
        lemma_expand_times(m0, m2, m3, m4, m6, m7, m12, m14, m15, m11);
        lemma_mul_unary_negation(int_expand(m0, m2, m3, m4, m6, m7, m12, m14, m15), m11);
        lemma_expand_times(m0, m2, m3, m4, m6, m7, m8, m10, m11, m15);
        lemma_product4(m3, m4, m10, m15);
        lemma_product4(m3, m4, m11, m14);
        lemma_product4(m3, m6, m8, m15);
        lemma_product4(m3, m7, m8, m14);
        lemma_product4(m3, m6, m11, m12);
        lemma_product4(m3, m7, m10, m12);
        lemma_product4(m0, m7, m10, m15);
        lemma_product4(m0, m7, m11, m14);
        lemma_product4(m2, m7, m8, m15);
        lemma_product4(m2, m7, m11, m12);
        lemma_product4(m0, m6, m11, m15);
        lemma_product4(m2, m4, m11, m15);
    }
}

/// Column 2 of the cofactors against column `c` of the matrix: the determinant
/// where `c` is 2, and zero elsewhere.
proof fn lemma_cofactors_of_column_2(m: Seq<int>, c: int)
    requires
        m.len() == 16,
        0 <= c < 4,
    ensures
        int_cofactor(m, 0, 2) * m[c] + int_cofactor(m, 1, 2) * m[4 + c] + int_cofactor(m, 2, 2)
            * m[8 + c] + int_cofactor(m, 3, 2) * m[12 + c] == (if c == 2 {
            int_determinant(m)
        } else {
            0
        }),
{
    let (m0, m1, m2, m3) = (m[0], m[1], m[2], m[3]);
    let (m4, m5, m6, m7) = (m[4], m[5], m[6], m[7]);
    let (m8, m9, m10, m11) = (m[8], m[9], m[10], m[11]);
    let (m12, m13, m14, m15) = (m[12], m[13], m[14], m[15]);
    assert(int_cofactor(m, 0, 2) == int_expand(m4, m5, m7, m8, m9, m11, m12, m13, m15));
    assert(int_cofactor(m, 1, 2) == -int_expand(m0, m1, m3, m8, m9, m11, m12, m13, m15));
    assert(int_cofactor(m, 2, 2) == int_expand(m0, m1, m3, m4, m5, m7, m12, m13, m15));
    assert(int_cofactor(m, 3, 2) == -int_expand(m0, m1, m3, m4, m5, m7, m8, m9, m11));
    if c == 0 {
        lemma_expand_times(m4, m5, m7, m8, m9, m11, m12, m13, m15, m0);
        lemma_expand_times(m0, m1, m3, m8, m9, m11, m12, m13, m15, m4);
        lemma_mul_unary_negation(int_expand(m0, m1, m3, m8, m9, m11, m12, m13, m15), m4);
        lemma_expand_times(m0, m1, m3, m4, m5, m7, m12, m13, m15, m8);
        lemma_expand_times(m0, m1, m3, m4, m5, m7, m8, m9, m11, m12);
        lemma_mul_unary_negation(int_expand(m0, m1, m3, m4, m5, m7, m8, m9, m11), m12);
        lemma_product4(m0, m4, m9, m15);
        lemma_product4(m0, m4, m11, m13);
        lemma_product4(m0, m5, m8, m15);
        lemma_product4(m0, m7, m8, m13);
        lemma_product4(m0, m5, m11, m12);
        lemma_product4(m0, m7, m9, m12);
        lemma_product4(m1, m4, m8, m15);
        lemma_product4(m3, m4, m8, m13);
        lemma_product4(m1, m4, m11, m12);
        lemma_product4(m3, m4, m9, m12);
        lemma_product4(m1, m7, m8, m12);
        lemma_product4(m3, m5, m8, m12);
    } else if c == 1 {
        lemma_expand_times(m4, m5, m7, m8, m9, m11, m12, m13, m15, m1);
        lemma_expand_times(m0, m1, m3, m8, m9, m11, m12, m13, m15, m5);
        lemma_mul_unary_negation(int_expand(m0, m1, m3, m8, m9, m11, m12, m13, m15), m5);
        lemma_expand_times(m0, m1, m3, m4, m5, m7, m12, m13, m15, m9);
        lemma_expand_times(m0, m1, m3, m4, m5, m7, m8, m9, m11, m13);
        lemma_mul_unary_negation(int_expand(m0, m1, m3, m4, m5, m7, m8, m9, m11), m13);
        lemma_product4(m1, m4, m9, m15);
        lemma_product4(m1, m4, m11, m13);
        lemma_product4(m1, m5, m8, m15);
        lemma_product4(m1, m7, m8, m13);
        lemma_product4(m1, m5, m11, m12);
        lemma_product4(m1, m7, m9, m12);
        lemma_product4(m0, m5, m9, m15);
        lemma_product4(m0, m5, m11, m13);
        lemma_product4(m3, m5, m8, m13);
        lemma_product4(m3, m5, m9, m12);
        lemma_product4(m0, m7, m9, m13);
        lemma_product4(m3, m4, m9, m13);
    } else if c == 2 {
        lemma_determinant_expanded(m);
        lemma_expand_times(m4, m5, m7, m8, m9, m11, m12, m13, m15, m2);
        lemma_expand_times(m0, m1, m3, m8, m9, m11, m12, m13, m15, m6);
        lemma_mul_unary_negation(int_expand(m0, m1, m3, m8, m9, m11, m12, m13, m15), m6);
        lemma_expand_times(m0, m1, m3, m4, m5, m7, m12, m13, m15, m10);
        lemma_expand_times(m0, m1, m3, m4, m5, m7, m8, m9, m11, m14);
        lemma_mul_unary_negation(int_expand(m0, m1, m3, m4, m5, m7, m8, m9, m11), m14);
        lemma_product4(m2, m4, m9, m15);
        lemma_product4(m2, m4, m11, m13);
        lemma_product4(m2, m5, m8, m15);
        lemma_product4(m2, m7, m8, m13);
        lemma_product4(m2, m5, m11, m12);
        lemma_product4(m2, m7, m9, m12);
        lemma_product4(m0, m6, m9, m15);
        lemma_product4(m0, m6, m11, m13);
        lemma_product4(m1, m6, m8, m15);
        lemma_product4(m3, m6, m8, m13);
        lemma_product4(m1, m6, m11, m12);
        lemma_product4(m3, m6, m9, m12);
        lemma_product4(m0, m5, m10, m15);
        lemma_product4(m0, m7, m10, m13);
        lemma_product4(m1, m4, m10, m15);
        lemma_product4(m3, m4, m10, m13);
        lemma_product4(m1, m7, m10, m12);
        lemma_product4(m3, m5, m10, m12);
        lemma_product4(m0, m5, m11, m14);
        lemma_product4(m0, m7, m9, m14);
        lemma_product4(m1, m4, m11, m14);
        lemma_product4(m3, m4, m9, m14);
        lemma_product4(m1, m7, m8, m14);
        lemma_product4(m3, m5, m8, m14);
    } else {
        lemma_expand_times(m4, m5, m7, m8, m9, m11, m12, m13, m15, m3);
        lemma_expand_times(m0, m1, m3, m8, m9, m11, m12, m13, m15, m7);
        lemma_mul_unary_negation(int_expand(m0, m1, m3, m8, m9, m11, m12, m13, m15), m7);
        lemma_expand_times(m0, m1, m3, m4, m5, m7, m12, m13, m15, m11);
        lemma_expand_times(m0, m1, m3, m4, m5, m7, m8, m9, m11, m15);
        lemma_mul_unary_negation(int_expand(m0, m1, m3, m4, m5, m7, m8, m9, m11), m15);
        lemma_product4(m3, m4, m9, m15);
        lemma_product4(m3, m4, m11, m13);
        lemma_product4(m3, m5, m8, m15);
        lemma_product4(m3, m7, m8, m13);
        lemma_product4(m3, m5, m11, m12);
        lemma_product4(m3, m7, m9, m12);
        lemma_product4(m0, m7, m9, m15);
        lemma_product4(m0, m7, m11, m13);
        lemma_product4(m1, m7, m8, m15);
        lemma_product4(m1, m7, m11, m12);
        lemma_product4(m0, m5, m11, m15);
        lemma_product4(m1, m4, m11, m15);
    }
}

/// Column 3 of the cofactors against column `c` of the matrix: the determinant
/// where `c` is 3, and zero elsewhere.
proof fn lemma_cofactors_of_column_3(m: Seq<int>, c: int)
    requires
        m.len() == 16,
        0 <= c < 4,
    ensures
        int_cofactor(m, 0, 3) * m[c] + int_cofactor(m, 1, 3) * m[4 + c] + int_cofactor(m, 2, 3)
            * m[8 + c] + int_cofactor(m, 3, 3) * m[12 + c] == (if c == 3 {
            int_determinant(m)
        } else {
            0
        }),
{
    let (m0, m1, m2, m3) = (m[0], m[1], m[2], m[3]);
    let (m4, m5, m6, m7) = (m[4], m[5], m[6], m[7]);
    let (m8, m9, m10, m11) = (m[8], m[9], m[10], m[11]);
    let (m12, m13, m14, m15) = (m[12], m[13], m[14], m[15]);
    assert(int_cofactor(m, 0, 3) == -int_expand(m4, m5, m6, m8, m9, m10, m12, m13, m14));
    assert(int_cofactor(m, 1, 3) == int_expand(m0, m1, m2, m8, m9, m10, m12, m13, m14));
    assert(int_cofactor(m, 2, 3) == -int_expand(m0, m1, m2, m4, m5, m6, m12, m13, m14));
    assert(int_cofactor(m, 3, 3) == int_expand(m0, m1, m2, m4, m5, m6, m8, m9, m10));
    if c == 0 {
        lemma_expand_times(m4, m5, m6, m8, m9, m10, m12, m13, m14, m0);
        lemma_mul_unary_negation(int_expand(m4, m5, m6, m8, m9, m10, m12, m13, m14), m0);
        lemma_expand_times(m0, m1, m2, m8, m9, m10, m12, m13, m14, m4);
        lemma_expand_times(m0, m1, m2, m4, m5, m6, m12, m13, m14, m8);
        lemma_mul_unary_negation(int_expand(m0, m1, m2, m4, m5, m6, m12, m13, m14), m8);
        lemma_expand_times(m0, m1, m2, m4, m5, m6, m8, m9, m10, m12);
        lemma_product4(m0, m4, m9, m14);
        lemma_product4(m0, m4, m10, m13);
        lemma_product4(m0, m5, m8, m14);
        lemma_product4(m0, m6, m8, m13);
        lemma_product4(m0, m5, m10, m12);
        lemma_product4(m0, m6, m9, m12);
        lemma_product4(m1, m4, m8, m14);
        lemma_product4(m2, m4, m8, m13);
        lemma_product4(m1, m4, m10, m12);
        lemma_product4(m2, m4, m9, m12);
        lemma_product4(m1, m6, m8, m12);
        lemma_product4(m2, m5, m8, m12);
    } else if c == 1 {
        lemma_expand_times(m4, m5, m6, m8, m9, m10, m12, m13, m14, m1);
        lemma_mul_unary_negation(int_expand(m4, m5, m6, m8, m9, m10, m12, m13, m14), m1);
        lemma_expand_times(m0, m1, m2, m8, m9, m10, m12, m13, m14, m5);
        lemma_expand_times(m0, m1, m2, m4, m5, m6, m12, m13, m14, m9);
        lemma_mul_unary_negation(int_expand(m0, m1, m2, m4, m5, m6, m12, m13, m14), m9);
        lemma_expand_times(m0, m1, m2, m4, m5, m6, m8, m9, m10, m13);
        lemma_product4(m1, m4, m9, m14);
        lemma_product4(m1, m4, m10, m13);
        lemma_product4(m1, m5, m8, m14);
        lemma_product4(m1, m6, m8, m13);
        lemma_product4(m1, m5, m10, m12);
        lemma_product4(m1, m6, m9, m12);
        lemma_product4(m0, m5, m9, m14);
        lemma_product4(m0, m5, m10, m13);
        lemma_product4(m2, m5, m8, m13);
        lemma_product4(m2, m5, m9, m12);
        lemma_product4(m0, m6, m9, m13);
        lemma_product4(m2, m4, m9, m13);
    } else if c == 2 {
        lemma_expand_times(m4, m5, m6, m8, m9, m10, m12, m13, m14, m2);
        lemma_mul_unary_negation(int_expand(m4, m5, m6, m8, m9, m10, m12, m13, m14), m2);
        lemma_expand_times(m0, m1, m2, m8, m9, m10, m12, m13, m14, m6);
        lemma_expand_times(m0, m1, m2, m4, m5, m6, m12, m13, m14, m10);
        lemma_mul_unary_negation(int_expand(m0, m1, m2, m4, m5, m6, m12, m13, m14), m10);
        lemma_expand_times(m0, m1, m2, m4, m5, m6, m8, m9, m10, m14);
        lemma_product4(m2, m4, m9, m14);
        lemma_product4(m2, m4, m10, m13);
        lemma_product4(m2, m5, m8, m14);
        lemma_product4(m2, m6, m8, m13);
        lemma_product4(m2, m5, m10, m12);
        lemma_product4(m2, m6, m9, m12);
        lemma_product4(m0, m6, m9, m14);
        lemma_product4(m0, m6, m10, m13);
        lemma_product4(m1, m6, m8, m14);
        lemma_product4(m1, m6, m10, m12);
        lemma_product4(m0, m5, m10, m14);
        lemma_product4(m1, m4, m10, m14);
    } else {
        lemma_determinant_expanded(m);
        lemma_expand_times(m4, m5, m6, m8, m9, m10, m12, m13, m14, m3);
        lemma_mul_unary_negation(int_expand(m4, m5, m6, m8, m9, m10, m12, m13, m14), m3);
        lemma_expand_times(m0, m1, m2, m8, m9, m10, m12, m13, m14, m7);
        lemma_expand_times(m0, m1, m2, m4, m5, m6, m12, m13, m14, m11);
        lemma_mul_unary_negation(int_expand(m0, m1, m2, m4, m5, m6, m12, m13, m14), m11);
        lemma_expand_times(m0, m1, m2, m4, m5, m6, m8, m9, m10, m15);
        lemma_product4(m3, m4, m9, m14);
        lemma_product4(m3, m4, m10, m13);
        lemma_product4(m3, m5, m8, m14);
        lemma_product4(m3, m6, m8, m13);
        lemma_product4(m3, m5, m10, m12);
        lemma_product4(m3, m6, m9, m12);
        lemma_product4(m0, m7, m9, m14);
        lemma_product4(m0, m7, m10, m13);
        lemma_product4(m1, m7, m8, m14);
        lemma_product4(m2, m7, m8, m13);
        lemma_product4(m1, m7, m10, m12);
        lemma_product4(m2, m7, m9, m12);
        lemma_product4(m0, m5, m11, m14);
        lemma_product4(m0, m6, m11, m13);
        lemma_product4(m1, m4, m11, m14);
        lemma_product4(m2, m4, m11, m13);
        lemma_product4(m1, m6, m11, m12);
        lemma_product4(m2, m5, m11, m12);
        lemma_product4(m0, m5, m10, m15);
        lemma_product4(m0, m6, m9, m15);
        lemma_product4(m1, m4, m10, m15);
        lemma_product4(m2, m4, m9, m15);
        lemma_product4(m1, m6, m8, m15);
        lemma_product4(m2, m5, m8, m15);
    }
}

/// Laplace's expansion: the adjugate of `m` times `m` holds the determinant of
/// `m` on its diagonal and zero elsewhere.
pub proof fn lemma_adjugate_times(m: Seq<int>, r: int, c: int)
    requires
        m.len() == 16,
        0 <= r < 4,
        0 <= c < 4,
    ensures
        int_cell(int_adjugate(m), m, r, c) == (if r == c {
            int_determinant(m)
        } else {
            0
        }),
{
    let adj = int_adjugate(m);
    assert(adj[4 * r] == int_cofactor(m, 0, r));
    assert(adj[4 * r + 1] == int_cofactor(m, 1, r));
    assert(adj[4 * r + 2] == int_cofactor(m, 2, r));
    assert(adj[4 * r + 3] == int_cofactor(m, 3, r));
    if r == 0 {
        lemma_cofactors_of_column_0(m, c);
    } else if r == 1 {
        lemma_cofactors_of_column_1(m, c);
    } else if r == 2 {
        lemma_cofactors_of_column_2(m, c);
    } else {
        lemma_cofactors_of_column_3(m, c);
    }
}

} // verus!
