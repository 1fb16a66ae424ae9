//! Matrices of integers of side four, as rows of sixteen numbers.
//!
//! These are the computations of the geometry once more, on integers, with the
//! identities that the laws rest on.

use vstd::prelude::*;
use vstd::arithmetic::mul::lemma_mul_is_associative;
use crate::proofs::polynomial::lemma_sum4_times;

verus! {

/// Row `r` of the integer matrix `a` times the integer vector `b`.
pub open spec fn int_row_dot(a: Seq<int>, r: int, b: Seq<int>) -> int {
    a[4 * r] * b[0] + a[4 * r + 1] * b[1] + a[4 * r + 2] * b[2] + a[4 * r + 3] * b[3]
}

/// Row `r` of the integer matrix `a` times column `c` of `b`.
pub open spec fn int_cell(a: Seq<int>, b: Seq<int>, r: int, c: int) -> int {
    a[4 * r] * b[c] + a[4 * r + 1] * b[4 + c] + a[4 * r + 2] * b[8 + c] + a[4 * r + 3] * b[12 + c]
}

/// The product of the integer matrices `a` and `b`.
pub open spec fn int_compose(a: Seq<int>, b: Seq<int>) -> Seq<int> {
    Seq::new(16, |k: int| int_cell(a, b, k / 4, k % 4))
}

/// The integer matrix `a` mirrored at its diagonal.
pub open spec fn int_transposed(a: Seq<int>) -> Seq<int> {
    Seq::new(16, |k: int| a[4 * (k % 4) + k / 4])
}

/// The sixteen integers of the identity matrix.
pub open spec fn int_identity() -> Seq<int> {
    seq![1, 0, 0, 0, 0, 1, 0, 0, 0, 0, 1, 0, 0, 0, 0, 1]
}

/// The integer identity matrix leaves every integer vector as it is.
pub proof fn lemma_int_identity_row(r: int, b: Seq<int>)
    requires
        0 <= r < 4,
        b.len() == 4,
    ensures
        int_row_dot(int_identity(), r, b) == b[r],
{
    let i = int_identity();
    assert(i[0] == 1 && i[1] == 0 && i[2] == 0 && i[3] == 0);
    assert(i[4] == 0 && i[5] == 1 && i[6] == 0 && i[7] == 0);
    assert(i[8] == 0 && i[9] == 0 && i[10] == 1 && i[11] == 0);
    assert(i[12] == 0 && i[13] == 0 && i[14] == 0 && i[15] == 1);
    let (p, q, s, t) = (i[4 * r], i[4 * r + 1], i[4 * r + 2], i[4 * r + 3]);
    let (x, y, z, w) = (b[0], b[1], b[2], b[3]);
    assert(p * x + q * y + s * z + t * w == b[r]) by (nonlinear_arith)
        requires
            0 <= r < 4,
            p == (if r == 0 { 1int } else { 0 }),
            q == (if r == 1 { 1int } else { 0 }),
            s == (if r == 2 { 1int } else { 0 }),
            t == (if r == 3 { 1int } else { 0 }),
            b[r] == (if r == 0 { x } else if r == 1 { y } else if r == 2 { z } else { w }),
    ;
}

/// The product of integer matrices is associative, entry by entry.
pub proof fn lemma_int_compose_associative(a: Seq<int>, b: Seq<int>, c: Seq<int>, r: int, k: int)
    requires
        a.len() == 16,
        b.len() == 16,
        c.len() == 16,
        0 <= r < 4,
        0 <= k < 4,
    ensures
        int_cell(int_compose(a, b), c, r, k) == int_cell(a, int_compose(b, c), r, k),
{
    let ab = int_compose(a, b);
    let bc = int_compose(b, c);
    let (a0, a1, a2, a3) = (a[4 * r], a[4 * r + 1], a[4 * r + 2], a[4 * r + 3]);
    let (c0, c1, c2, c3) = (c[k], c[4 + k], c[8 + k], c[12 + k]);
    let (b00, b01, b02, b03) = (b[0], b[1], b[2], b[3]);
    let (b10, b11, b12, b13) = (b[4], b[5], b[6], b[7]);
    let (b20, b21, b22, b23) = (b[8], b[9], b[10], b[11]);
    let (b30, b31, b32, b33) = (b[12], b[13], b[14], b[15]);
    let (l0, l1, l2, l3) = (ab[4 * r], ab[4 * r + 1], ab[4 * r + 2], ab[4 * r + 3]);
    let (r0, r1, r2, r3) = (bc[k], bc[4 + k], bc[8 + k], bc[12 + k]);
    assert(l0 == int_cell(a, b, r, 0));
    assert(l1 == int_cell(a, b, r, 1));
    assert(l2 == int_cell(a, b, r, 2));
    assert(l3 == int_cell(a, b, r, 3));
    assert(r0 == int_cell(b, c, 0, k));
    assert(r1 == int_cell(b, c, 1, k));
    assert(r2 == int_cell(b, c, 2, k));
    assert(r3 == int_cell(b, c, 3, k));
    let (t00, t01, t02, t03) = (a0 * b00 * c0, a0 * b01 * c1, a0 * b02 * c2, a0 * b03 * c3);
    let (t10, t11, t12, t13) = (a1 * b10 * c0, a1 * b11 * c1, a1 * b12 * c2, a1 * b13 * c3);
    let (t20, t21, t22, t23) = (a2 * b20 * c0, a2 * b21 * c1, a2 * b22 * c2, a2 * b23 * c3);
    let (t30, t31, t32, t33) = (a3 * b30 * c0, a3 * b31 * c1, a3 * b32 * c2, a3 * b33 * c3);
    lemma_sum4_times(a0 * b00, a1 * b10, a2 * b20, a3 * b30, c0);
    lemma_sum4_times(a0 * b01, a1 * b11, a2 * b21, a3 * b31, c1);
    lemma_sum4_times(a0 * b02, a1 * b12, a2 * b22, a3 * b32, c2);
    lemma_sum4_times(a0 * b03, a1 * b13, a2 * b23, a3 * b33, c3);
    lemma_sum4_times(b00 * c0, b01 * c1, b02 * c2, b03 * c3, a0);
    lemma_mul_is_associative(a0, b00, c0);
    lemma_mul_is_associative(a0, b01, c1);
    lemma_mul_is_associative(a0, b02, c2);
    lemma_mul_is_associative(a0, b03, c3);
    lemma_sum4_times(b10 * c0, b11 * c1, b12 * c2, b13 * c3, a1);
    lemma_mul_is_associative(a1, b10, c0);
    lemma_mul_is_associative(a1, b11, c1);
    lemma_mul_is_associative(a1, b12, c2);
    lemma_mul_is_associative(a1, b13, c3);
    lemma_sum4_times(b20 * c0, b21 * c1, b22 * c2, b23 * c3, a2);
    lemma_mul_is_associative(a2, b20, c0);
    lemma_mul_is_associative(a2, b21, c1);
    lemma_mul_is_associative(a2, b22, c2);
    lemma_mul_is_associative(a2, b23, c3);
    lemma_sum4_times(b30 * c0, b31 * c1, b32 * c2, b33 * c3, a3);
    lemma_mul_is_associative(a3, b30, c0);
    lemma_mul_is_associative(a3, b31, c1);
    lemma_mul_is_associative(a3, b32, c2);
    lemma_mul_is_associative(a3, b33, c3);
    assert(l0 * c0 == t00 + t10 + t20 + t30);
    assert(l1 * c1 == t01 + t11 + t21 + t31);
    assert(l2 * c2 == t02 + t12 + t22 + t32);
    assert(l3 * c3 == t03 + t13 + t23 + t33);
    assert(a0 * r0 == t00 + t01 + t02 + t03);
    assert(a1 * r1 == t10 + t11 + t12 + t13);
    assert(a2 * r2 == t20 + t21 + t22 + t23);
    assert(a3 * r3 == t30 + t31 + t32 + t33);
}

/// The entry in row `i` and column `j` of the turn in the plane of the axes
/// `p` and `q`: the identity matrix, but for `c` on the diagonal of that plane,
/// `minus_s` in row `p` and `s` in row `q`.
pub open spec fn turn_entry<T>(
    p: int,
    q: int,
    c: T,
    s: T,
    minus_s: T,
    one: T,
    zero: T,
    i: int,
    j: int,
) -> T {
    if i == p && j == p {
        c
    } else if i == q && j == q {
        c
    } else if i == p && j == q {
        minus_s
    } else if i == q && j == p {
        s
    } else if i == j {
        one
    } else {
        zero
    }
}

/// The transposed of an integer turn in the plane of the axes `p` and `q`,
/// times the turn: zero off the diagonal, the sum of the squares of `c` and `s`
/// on the diagonal of that plane, and one on the rest of it.
pub proof fn lemma_int_turn_is_orthonormal(a: Seq<int>, p: int, q: int, c: int, s: int, k: int)
    requires
        a.len() == 16,
        0 <= p < 3,
        0 <= q < 3,
        p != q,
        0 <= k < 16,
        forall|i: int, j: int|
            0 <= i < 4 && 0 <= j < 4 ==> #[trigger] a[4 * i + j] == turn_entry(
                p,
                q,
                c,
                s,
                -s,
                1,
                0,
                i,
                j,
            ),
    ensures
        int_compose(int_transposed(a), a)[k] == (if k / 4 != k % 4 {
            0
        } else if k / 4 == p || k / 4 == q {
            c * c + s * s
        } else {
            1
        }),
{
    let t = int_transposed(a);
    let (r, col) = (k / 4, k % 4);
    assert(t[4 * r] == a[4 * 0 + r]);
    assert(t[4 * r + 1] == a[4 * 1 + r]);
    assert(t[4 * r + 2] == a[4 * 2 + r]);
    assert(t[4 * r + 3] == a[4 * 3 + r]);
    let (x0, x1, x2, x3) = (a[4 * 0 + r], a[4 * 1 + r], a[4 * 2 + r], a[4 * 3 + r]);
    let (y0, y1, y2, y3) = (a[4 * 0 + col], a[4 * 1 + col], a[4 * 2 + col], a[4 * 3 + col]);
    assert(int_cell(t, a, r, col) == x0 * y0 + x1 * y1 + x2 * y2 + x3 * y3);
    assert(x0 * y0 + x1 * y1 + x2 * y2 + x3 * y3 == (if r != col {
        0
    } else if r == p || r == q {
        c * c + s * s
    } else {
        1
    })) by (nonlinear_arith)
        requires
            0 <= p < 3,
            0 <= q < 3,
            p != q,
            0 <= r < 4,
            0 <= col < 4,
            x0 == turn_entry(p, q, c, s, -s, 1, 0, 0, r),
            x1 == turn_entry(p, q, c, s, -s, 1, 0, 1, r),
            x2 == turn_entry(p, q, c, s, -s, 1, 0, 2, r),
            x3 == turn_entry(p, q, c, s, -s, 1, 0, 3, r),
            y0 == turn_entry(p, q, c, s, -s, 1, 0, 0, col),
            y1 == turn_entry(p, q, c, s, -s, 1, 0, 1, col),
            y2 == turn_entry(p, q, c, s, -s, 1, 0, 2, col),
            y3 == turn_entry(p, q, c, s, -s, 1, 0, 3, col),
    ;
}

/// A shift after a matrix that keeps the origin: the product is the matrix
/// with the shift in its last column.
pub proof fn lemma_int_shift_after(a: Seq<int>, b: Seq<int>, r: int, c: int)
    requires
        a.len() == 16,
        b.len() == 16,
        0 <= r < 4,
        0 <= c < 4,
        a[0] == 1 && a[1] == 0 && a[2] == 0,
        a[4] == 0 && a[5] == 1 && a[6] == 0,
        a[8] == 0 && a[9] == 0 && a[10] == 1,
        a[12] == 0 && a[13] == 0 && a[14] == 0 && a[15] == 1,
        b[3] == 0 && b[7] == 0 && b[11] == 0,
        b[12] == 0 && b[13] == 0 && b[14] == 0 && b[15] == 1,
    ensures
        int_cell(a, b, r, c) == (if r < 3 && c == 3 {
            a[4 * r + 3]
        } else {
            b[4 * r + c]
        }),
{
    let (x0, x1, x2, x3) = (a[4 * r], a[4 * r + 1], a[4 * r + 2], a[4 * r + 3]);
    let (y0, y1, y2, y3) = (b[c], b[4 + c], b[8 + c], b[12 + c]);
    let own = b[4 * r + c];
    assert(x0 * y0 + x1 * y1 + x2 * y2 + x3 * y3 == (if r < 3 && c == 3 {
        x3
    } else {
        own
    })) by (nonlinear_arith)
        requires
            0 <= r < 4,
            0 <= c < 4,
            x0 == (if r == 0 { 1int } else { 0 }),
            x1 == (if r == 1 { 1int } else { 0 }),
            x2 == (if r == 2 { 1int } else { 0 }),
            r == 3 ==> x3 == 1,
            c == 3 ==> y0 == 0 && y1 == 0 && y2 == 0 && y3 == 1,
            c < 3 ==> y3 == 0,
            own == (if r == 0 { y0 } else if r == 1 { y1 } else if r == 2 { y2 } else { y3 }),
    ;
}

/// Whether `a` is the integer matrix of a shift: the identity matrix, but
/// for the first three entries of its last column.
pub open spec fn int_is_shift(a: Seq<int>) -> bool {
    &&& a.len() == 16
    &&& a[0] == 1 && a[1] == 0 && a[2] == 0
    &&& a[4] == 0 && a[5] == 1 && a[6] == 0
    &&& a[8] == 0 && a[9] == 0 && a[10] == 1
    &&& a[12] == 0 && a[13] == 0 && a[14] == 0 && a[15] == 1
}

/// One shift after another shifts by the sum of the two.
pub proof fn lemma_int_shifts_add(a: Seq<int>, b: Seq<int>, r: int, c: int)
    requires
        int_is_shift(a),
        int_is_shift(b),
        0 <= r < 4,
        0 <= c < 4,
    ensures
        int_cell(a, b, r, c) == (if r < 3 && c == 3 {
            a[4 * r + 3] + b[4 * r + 3]
        } else if r == c {
            1
        } else {
            0
        }),
{
    let (x0, x1, x2, x3) = (a[4 * r], a[4 * r + 1], a[4 * r + 2], a[4 * r + 3]);
    let (y0, y1, y2, y3) = (b[c], b[4 + c], b[8 + c], b[12 + c]);
    let own = b[4 * r + 3];
    assert(x0 * y0 + x1 * y1 + x2 * y2 + x3 * y3 == (if r < 3 && c == 3 {
        x3 + own
    } else if r == c {
        1
    } else {
        0
    })) by (nonlinear_arith)
        requires
            0 <= r < 4,
            0 <= c < 4,
            x0 == (if r == 0 { 1int } else { 0 }),
            x1 == (if r == 1 { 1int } else { 0 }),
            x2 == (if r == 2 { 1int } else { 0 }),
            r == 3 ==> x3 == 1,
            c < 3 ==> y0 == (if c == 0 { 1int } else { 0 }) && y1 == (if c == 1 { 1int } else { 0 })
                && y2 == (if c == 2 { 1int } else { 0 }) && y3 == 0,
            c == 3 ==> y3 == 1,
            c == 3 && r == 0 ==> y0 == own,
            c == 3 && r == 1 ==> y1 == own,
            c == 3 && r == 2 ==> y2 == own,
    ;
}

} // verus!
