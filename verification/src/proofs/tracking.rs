//! What vectors and matrices of exact scalars stand for, entry by entry.
//!
//! These lemmas carry a computation on scalars over to the same computation on
//! integers, where the laws of arithmetic are at hand.

use vstd::prelude::*;
use crate::exact::Exact;
use crate::exact::stands_for;
use crate::exact::lemma_product;
use crate::exact::lemma_same;
use crate::exact::lemma_stands_for_value;
use crate::exact::lemma_sum;
use crate::matrix::Mat4;
use crate::vector::Vec4;
use crate::proofs::integers::int_cell;
use crate::proofs::integers::int_compose;
use crate::proofs::integers::int_row_dot;
use crate::proofs::integers::int_transposed;

verus! {

/// Whether the components of `v` stand for the four integers of `a`.
pub open spec fn vec4_stands_for<S: Exact>(v: Vec4<S>, a: Seq<int>) -> bool {
    &&& a.len() == 4
    &&& forall|k: int| 0 <= k < 4 ==> stands_for(#[trigger] v.elems[k], a[k])
}

/// Whether the entries of `m` stand for the sixteen integers of `a`.
pub open spec fn mat4_stands_for<S: Exact>(m: Mat4<S>, a: Seq<int>) -> bool {
    &&& a.len() == 16
    &&& forall|k: int| 0 <= k < 16 ==> stands_for(#[trigger] m.elems[k], a[k])
}

/// The values of the components of `v`.
pub open spec fn vec4_values<S: Exact>(v: Vec4<S>) -> Seq<int> {
    Seq::new(4, |k: int| v.elems[k].value())
}

/// The values of the entries of `m`.
pub open spec fn mat4_values<S: Exact>(m: Mat4<S>) -> Seq<int> {
    Seq::new(16, |k: int| m.elems[k].value())
}

/// A vector stands for the values of its components.
pub proof fn lemma_vec4_values<S: Exact>(v: Vec4<S>)
    ensures
        vec4_stands_for(v, vec4_values(v)),
{
    assert forall|k: int| 0 <= k < 4 implies stands_for(
        #[trigger] v.elems[k],
        vec4_values(v)[k],
    ) by {
        lemma_stands_for_value(v.elems[k]);
    }
}

/// A matrix stands for the values of its entries.
pub proof fn lemma_mat4_values<S: Exact>(m: Mat4<S>)
    ensures
        mat4_stands_for(m, mat4_values(m)),
{
    assert forall|k: int| 0 <= k < 16 implies stands_for(
        #[trigger] m.elems[k],
        mat4_values(m)[k],
    ) by {
        lemma_stands_for_value(m.elems[k]);
    }
}

/// Two vectors that stand for the same integers are equal.
pub proof fn lemma_vec4_same<S: Exact>(v: Vec4<S>, w: Vec4<S>, a: Seq<int>)
    requires
        vec4_stands_for(v, a),
        vec4_stands_for(w, a),
    ensures
        v == w,
{
    assert forall|k: int| 0 <= k < 4 implies v.elems[k] == w.elems[k] by {
        lemma_same(v.elems[k], w.elems[k], a[k]);
    }
    assert(v.elems =~= w.elems);
}

/// Two matrices that stand for the same integers are equal.
pub proof fn lemma_mat4_same<S: Exact>(m: Mat4<S>, n: Mat4<S>, a: Seq<int>)
    requires
        mat4_stands_for(m, a),
        mat4_stands_for(n, a),
    ensures
        m == n,
{
    assert forall|k: int| 0 <= k < 16 implies m.elems[k] == n.elems[k] by {
        lemma_same(m.elems[k], n.elems[k], a[k]);
    }
    assert(m.elems =~= n.elems);
}

/// A row times a vector stands for the same on the integers.
pub proof fn lemma_row_dot<S: Exact>(m: Mat4<S>, r: int, v: Vec4<S>, a: Seq<int>, b: Seq<int>)
    requires
        0 <= r < 4,
        mat4_stands_for(m, a),
        vec4_stands_for(v, b),
    ensures
        stands_for(m.row_dot(r, v), int_row_dot(a, r, b)),
{
    let t0 = m.elems[4 * r].product(v.elems[0]);
    let t1 = m.elems[4 * r + 1].product(v.elems[1]);
    let t2 = m.elems[4 * r + 2].product(v.elems[2]);
    let t3 = m.elems[4 * r + 3].product(v.elems[3]);
    lemma_product(m.elems[4 * r], v.elems[0], a[4 * r], b[0]);
    lemma_product(m.elems[4 * r + 1], v.elems[1], a[4 * r + 1], b[1]);
    lemma_product(m.elems[4 * r + 2], v.elems[2], a[4 * r + 2], b[2]);
    lemma_product(m.elems[4 * r + 3], v.elems[3], a[4 * r + 3], b[3]);
    lemma_sum(t0, t1, a[4 * r] * b[0], a[4 * r + 1] * b[1]);
    lemma_sum(t0.sum(t1), t2, a[4 * r] * b[0] + a[4 * r + 1] * b[1], a[4 * r + 2] * b[2]);
    lemma_sum(
        t0.sum(t1).sum(t2),
        t3,
        a[4 * r] * b[0] + a[4 * r + 1] * b[1] + a[4 * r + 2] * b[2],
        a[4 * r + 3] * b[3],
    );
}

/// A matrix applied to a vector stands for the same on the integers.
pub proof fn lemma_apply<S: Exact>(m: Mat4<S>, v: Vec4<S>, a: Seq<int>, b: Seq<int>)
    requires
        mat4_stands_for(m, a),
        vec4_stands_for(v, b),
    ensures
        vec4_stands_for(m.apply(v), Seq::new(4, |r: int| int_row_dot(a, r, b))),
{
    lemma_row_dot(m, 0, v, a, b);
    lemma_row_dot(m, 1, v, a, b);
    lemma_row_dot(m, 2, v, a, b);
    lemma_row_dot(m, 3, v, a, b);
}

/// A row times a column stands for the same on the integers.
pub proof fn lemma_cell<S: Exact>(
    m: Mat4<S>,
    n: Mat4<S>,
    r: int,
    c: int,
    a: Seq<int>,
    b: Seq<int>,
)
    requires
        0 <= r < 4,
        0 <= c < 4,
        mat4_stands_for(m, a),
        mat4_stands_for(n, b),
    ensures
        stands_for(m.cell(n, r, c), int_cell(a, b, r, c)),
{
    let t0 = m.elems[4 * r].product(n.elems[c]);
    let t1 = m.elems[4 * r + 1].product(n.elems[4 + c]);
    let t2 = m.elems[4 * r + 2].product(n.elems[8 + c]);
    let t3 = m.elems[4 * r + 3].product(n.elems[12 + c]);
    lemma_product(m.elems[4 * r], n.elems[c], a[4 * r], b[c]);
    lemma_product(m.elems[4 * r + 1], n.elems[4 + c], a[4 * r + 1], b[4 + c]);
    lemma_product(m.elems[4 * r + 2], n.elems[8 + c], a[4 * r + 2], b[8 + c]);
    lemma_product(m.elems[4 * r + 3], n.elems[12 + c], a[4 * r + 3], b[12 + c]);
    lemma_sum(t0, t1, a[4 * r] * b[c], a[4 * r + 1] * b[4 + c]);
    lemma_sum(t0.sum(t1), t2, a[4 * r] * b[c] + a[4 * r + 1] * b[4 + c], a[4 * r + 2] * b[8 + c]);
    lemma_sum(
        t0.sum(t1).sum(t2),
        t3,
        a[4 * r] * b[c] + a[4 * r + 1] * b[4 + c] + a[4 * r + 2] * b[8 + c],
        a[4 * r + 3] * b[12 + c],
    );
}

/// A transposed matrix stands for the transposed of what it stands for.
pub proof fn lemma_transposed<S: Exact>(m: Mat4<S>, a: Seq<int>)
    requires
        mat4_stands_for(m, a),
    ensures
        mat4_stands_for(m.transposed(), int_transposed(a)),
{
    assert forall|k: int| 0 <= k < 16 implies stands_for(
        #[trigger] m.transposed().elems[k],
        int_transposed(a)[k],
    ) by {
        assert(m.transposed().elems[k] == m.elems[4 * (k % 4) + k / 4]);
    }
}

/// A product of matrices stands for the product of what they stand for.
pub proof fn lemma_compose<S: Exact>(m: Mat4<S>, n: Mat4<S>, a: Seq<int>, b: Seq<int>)
    requires
        mat4_stands_for(m, a),
        mat4_stands_for(n, b),
    ensures
        mat4_stands_for(m.compose(n), int_compose(a, b)),
{
    assert forall|k: int| 0 <= k < 16 implies stands_for(
        #[trigger] m.compose(n).elems[k],
        int_compose(a, b)[k],
    ) by {
        lemma_cell(m, n, k / 4, k % 4, a, b);
        assert(m.compose(n).elems[k] == m.cell(n, k / 4, k % 4));
    }
}

} // verus!
