//! The inverse of a matrix undoes the matrix, for exact scalars.

use vstd::prelude::*;
use vstd::arithmetic::mul::lemma_mul_is_associative;
use crate::exact::Exact;
use crate::exact::lemma_lit;
use crate::exact::lemma_product;
use crate::exact::lemma_stands_for_value;
use crate::exact::stands_for;
use crate::laws::algebra::lemma_apply_compose;
use crate::laws::algebra::lemma_identity_apply;
use crate::matrix::Mat4;
use crate::proofs::cofactors::lemma_adjugate;
use crate::proofs::cofactors::lemma_determinant;
use crate::proofs::cofactors::lemma_scaled;
use crate::proofs::determinant::int_adjugate;
use crate::proofs::determinant::int_determinant;
use crate::proofs::determinant::lemma_adjugate_times;
use crate::proofs::polynomial::lemma_sum4_times;
use crate::proofs::tracking::lemma_compose;
use crate::proofs::tracking::lemma_mat4_same;
use crate::proofs::tracking::lemma_mat4_values;
use crate::proofs::tracking::mat4_values;
use crate::scalar::Scalar;
use crate::vector::Vec4;
use crate::proofs::integers::int_cell;
use crate::proofs::integers::int_compose;

verus! {

/// With exact scalars, the adjugate of a matrix times the matrix is the
/// identity matrix scaled by the determinant, whatever the determinant is.
pub proof fn lemma_adjugate_times_matrix<S: Exact>(m: Mat4<S>)
    ensures
        m.adjugate().compose(m) == Mat4::<S>::identity_spec().scaled(m.determinant()),
{
    let a = mat4_values(m);
    let adj = int_adjugate(a);
    let det = int_determinant(a);
    lemma_mat4_values(m);
    lemma_adjugate(m, a);
    lemma_determinant(m, a);
    lemma_compose(m.adjugate(), m, adj, a);
    lemma_lit::<S>(0);
    lemma_lit::<S>(1);
    let scaled = Mat4::<S>::identity_spec().scaled(m.determinant());
    let t = int_compose(adj, a);
    assert forall|k: int| 0 <= k < 16 implies stands_for(#[trigger] scaled.elems[k], t[k]) by {
        lemma_adjugate_times(a, k / 4, k % 4);
        if k / 4 == k % 4 {
            lemma_product(m.determinant(), S::lit(1), det, 1);
            assert(scaled.elems[k] == m.determinant().product(S::lit(1)));
            assert(det * 1 == det);
        } else {
            lemma_product(m.determinant(), S::lit(0), det, 0);
            assert(scaled.elems[k] == m.determinant().product(S::lit(0)));
            assert(det * 0 == 0);
        }
    }
    lemma_mat4_same(m.adjugate().compose(m), scaled, t);
}

/// Whether the matrix can be inverted: the quotient of one and its
/// determinant is the reciprocal of the determinant.
pub open spec fn invertible<S: Scalar>(m: Mat4<S>) -> bool {
    S::lit(1).quotient(m.determinant()).product(m.determinant()) == S::lit(1)
}

/// With exact scalars, the inverse of an invertible matrix times the matrix
/// is the identity matrix.
pub proof fn lemma_inverse_times_matrix<S: Exact>(m: Mat4<S>)
    requires
        invertible(m),
    ensures
        m.inverse_spec().compose(m) == Mat4::<S>::identity_spec(),
{
    let a = mat4_values(m);
    let adj = int_adjugate(a);
    let det = int_determinant(a);
    let reciprocal = S::lit(1).quotient(m.determinant());
    let p = reciprocal.value();
    let scaled = Seq::new(16, |k: int| p * adj[k]);
    lemma_mat4_values(m);
    lemma_adjugate(m, a);
    lemma_determinant(m, a);
    lemma_stands_for_value(reciprocal);
    lemma_scaled(m.adjugate(), reciprocal, adj, p);
    lemma_compose(m.inverse_spec(), m, scaled, a);
    lemma_product(reciprocal, m.determinant(), p, det);
    lemma_lit::<S>(0);
    lemma_lit::<S>(1);
    let i = Mat4::<S>::identity_spec();
    let t = int_compose(scaled, a);
    assert forall|k: int| 0 <= k < 16 implies stands_for(#[trigger] i.elems[k], t[k]) by {
        let (r, c) = (k / 4, k % 4);
        let (x0, x1, x2, x3) = (a[c], a[4 + c], a[8 + c], a[12 + c]);
        let (c0, c1, c2, c3) = (adj[4 * r], adj[4 * r + 1], adj[4 * r + 2], adj[4 * r + 3]);
        lemma_adjugate_times(a, r, c);
        lemma_mul_is_associative(p, c0, x0);
        lemma_mul_is_associative(p, c1, x1);
        lemma_mul_is_associative(p, c2, x2);
        lemma_mul_is_associative(p, c3, x3);
        lemma_sum4_times(c0 * x0, c1 * x1, c2 * x2, c3 * x3, p);
        assert(t[k] == int_cell(scaled, a, r, c));
        assert(int_cell(scaled, a, r, c) == p * int_cell(adj, a, r, c));
        if r == c {
            assert(i.elems[k] == S::lit(1));
        } else {
            assert(i.elems[k] == S::lit(0));
            assert(p * 0 == 0);
        }
    }
    lemma_mat4_same(m.inverse_spec().compose(m), i, t);
}

/// With exact scalars, the inverse of an invertible matrix takes every
/// vector back to where the matrix took it from.
pub proof fn lemma_inverse_undoes<S: Exact>(m: Mat4<S>, v: Vec4<S>)
    requires
        invertible(m),
    ensures
        m.inverse_spec().apply(m.apply(v)) == v,
{
    lemma_apply_compose(m.inverse_spec(), m, v);
    lemma_inverse_times_matrix(m);
    lemma_identity_apply(v);
}

} // verus!
