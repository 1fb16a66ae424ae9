//! The identities of vectors and matrices, for exact scalars.

use vstd::prelude::*;
use vstd::arithmetic::mul::lemma_mul_is_distributive_sub_other_way;
use crate::exact::Exact;
use crate::exact::lemma_difference;
use crate::exact::lemma_lit;
use crate::exact::lemma_product;
use crate::exact::lemma_same;
use crate::exact::lemma_stands_for_value;
use crate::exact::lemma_sum;
use crate::exact::stands_for;
use crate::matrix::Mat3;
use crate::matrix::Mat4;
use crate::proofs::polynomial::lemma_product3;
use crate::proofs::tracking::lemma_apply;
use crate::proofs::tracking::lemma_compose;
use crate::proofs::tracking::lemma_mat4_same;
use crate::proofs::tracking::lemma_mat4_values;
use crate::proofs::tracking::lemma_vec4_same;
use crate::proofs::tracking::lemma_vec4_values;
use crate::proofs::tracking::mat4_stands_for;
use crate::proofs::tracking::mat4_values;
use crate::proofs::tracking::vec4_values;
use crate::vector::Vec3;
use crate::vector::Vec4;
use crate::proofs::integers::int_cell;
use crate::proofs::integers::int_compose;
use crate::proofs::integers::int_identity;
use crate::proofs::integers::int_row_dot;
use crate::proofs::integers::lemma_int_compose_associative;
use crate::proofs::integers::lemma_int_identity_row;

verus! {

/// The identity matrix stands for the integer identity matrix.
pub proof fn lemma_int_identity<S: Exact>()
    ensures
        mat4_stands_for(Mat4::<S>::identity_spec(), int_identity()),
{
    lemma_lit::<S>(0);
    lemma_lit::<S>(1);
}

/// With exact scalars, the identity matrix leaves every vector as it is.
pub proof fn lemma_identity_apply<S: Exact>(v: Vec4<S>)
    ensures
        Mat4::<S>::identity_spec().apply(v) == v,
{
    let i = Mat4::<S>::identity_spec();
    let b = vec4_values(v);
    lemma_int_identity::<S>();
    lemma_vec4_values(v);
    lemma_apply(i, v, int_identity(), b);
    assert forall|r: int| 0 <= r < 4 implies int_row_dot(int_identity(), r, b) == b[r] by {
        lemma_int_identity_row(r, b);
    }
    assert(Seq::new(4, |r: int| int_row_dot(int_identity(), r, b)) =~= b);
    lemma_vec4_same(i.apply(v), v, b);
}

/// With exact scalars, the identity matrix of side three leaves every vector
/// as it is.
pub proof fn lemma_identity3_apply<S: Exact>(v: Vec3<S>)
    ensures
        Mat3::<S>::identity_spec().apply(v) == v,
{
    let i = Mat3::<S>::identity_spec();
    let (x, y, z) = (v.elems[0], v.elems[1], v.elems[2]);
    let (a, b, c) = (x.value(), y.value(), z.value());
    let (zero, one) = (S::lit(0), S::lit(1));
    lemma_lit::<S>(0);
    lemma_lit::<S>(1);
    lemma_stands_for_value(x);
    lemma_stands_for_value(y);
    lemma_stands_for_value(z);
    lemma_product(one, x, 1, a);
    lemma_product(zero, x, 0, a);
    lemma_product(one, y, 1, b);
    lemma_product(zero, y, 0, b);
    lemma_product(one, z, 1, c);
    lemma_product(zero, z, 0, c);
    lemma_sum(one.product(x), zero.product(y), 1 * a, 0 * b);
    lemma_sum(one.product(x).sum(zero.product(y)), zero.product(z), 1 * a + 0 * b, 0 * c);
    lemma_sum(zero.product(x), one.product(y), 0 * a, 1 * b);
    lemma_sum(zero.product(x).sum(one.product(y)), zero.product(z), 0 * a + 1 * b, 0 * c);
    lemma_sum(zero.product(x), zero.product(y), 0 * a, 0 * b);
    lemma_sum(zero.product(x).sum(zero.product(y)), one.product(z), 0 * a + 0 * b, 1 * c);
    lemma_same(i.row_dot(0, v), x, a);
    lemma_same(i.row_dot(1, v), y, b);
    lemma_same(i.row_dot(2, v), z, c);
    assert(i.apply(v).elems =~= v.elems);
}

/// With exact scalars, the identity matrix is neutral from the left.
pub proof fn lemma_identity_compose<S: Exact>(m: Mat4<S>)
    ensures
        Mat4::<S>::identity_spec().compose(m) == m,
{
    let i = Mat4::<S>::identity_spec();
    let b = mat4_values(m);
    lemma_int_identity::<S>();
    lemma_mat4_values(m);
    lemma_compose(i, m, int_identity(), b);
    assert forall|k: int| 0 <= k < 16 implies int_compose(int_identity(), b)[k] == b[k] by {
        let column = Seq::new(4, |j: int| b[4 * j + k % 4]);
        lemma_int_identity_row(k / 4, column);
        assert(int_cell(int_identity(), b, k / 4, k % 4) == int_row_dot(
            int_identity(),
            k / 4,
            column,
        ));
    }
    assert(int_compose(int_identity(), b) =~= b);
    lemma_mat4_same(i.compose(m), m, b);
}

/// With exact scalars, the product of matrices is associative.
pub proof fn lemma_compose_associative<S: Exact>(a: Mat4<S>, b: Mat4<S>, c: Mat4<S>)
    ensures
        a.compose(b).compose(c) == a.compose(b.compose(c)),
{
    let (x, y, z) = (mat4_values(a), mat4_values(b), mat4_values(c));
    lemma_mat4_values(a);
    lemma_mat4_values(b);
    lemma_mat4_values(c);
    lemma_compose(a, b, x, y);
    lemma_compose(b, c, y, z);
    lemma_compose(a.compose(b), c, int_compose(x, y), z);
    lemma_compose(a, b.compose(c), x, int_compose(y, z));
    assert forall|k: int| 0 <= k < 16 implies int_compose(int_compose(x, y), z)[k] == int_compose(
        x,
        int_compose(y, z),
    )[k] by {
        lemma_int_compose_associative(x, y, z, k / 4, k % 4);
    }
    assert(int_compose(int_compose(x, y), z) =~= int_compose(x, int_compose(y, z)));
    lemma_mat4_same(
        a.compose(b).compose(c),
        a.compose(b.compose(c)),
        int_compose(x, int_compose(y, z)),
    );
}

/// With exact scalars, applying two matrices in turn is applying their
/// product.
pub proof fn lemma_apply_compose<S: Exact>(a: Mat4<S>, b: Mat4<S>, v: Vec4<S>)
    ensures
        a.apply(b.apply(v)) == a.compose(b).apply(v),
{
    let (x, y, z) = (mat4_values(a), mat4_values(b), vec4_values(v));
    let column = Seq::new(16, |k: int| z[k / 4]);
    let inner = Seq::new(4, |r: int| int_row_dot(y, r, z));
    let left = Seq::new(4, |r: int| int_row_dot(x, r, inner));
    let right = Seq::new(4, |r: int| int_row_dot(int_compose(x, y), r, z));
    lemma_mat4_values(a);
    lemma_mat4_values(b);
    lemma_vec4_values(v);
    lemma_apply(b, v, y, z);
    lemma_apply(a, b.apply(v), x, inner);
    lemma_compose(a, b, x, y);
    lemma_apply(a.compose(b), v, int_compose(x, y), z);
    assert forall|r: int| 0 <= r < 4 implies left[r] == right[r] by {
        lemma_int_compose_associative(x, y, column, r, 0);
        assert(int_cell(int_compose(x, y), column, r, 0) == int_row_dot(int_compose(x, y), r, z));
        assert(int_compose(y, column)[0] == int_cell(y, column, 0, 0));
        assert(int_compose(y, column)[4] == int_cell(y, column, 1, 0));
        assert(int_compose(y, column)[8] == int_cell(y, column, 2, 0));
        assert(int_compose(y, column)[12] == int_cell(y, column, 3, 0));
        assert(int_cell(x, int_compose(y, column), r, 0) == int_row_dot(x, r, inner));
    }
    assert(left =~= right);
    lemma_vec4_same(a.apply(b.apply(v)), a.compose(b).apply(v), left);
}

/// With exact scalars, the cross product of two vectors is orthogonal to
/// both.
pub proof fn lemma_cross_is_orthogonal<S: Exact>(a: Vec3<S>, b: Vec3<S>)
    ensures
        a.cross_spec(b).dot_spec(a) == S::lit(0),
        a.cross_spec(b).dot_spec(b) == S::lit(0),
{
    let c = a.cross_spec(b);
    let (a0, a1, a2) = (a.elems[0].value(), a.elems[1].value(), a.elems[2].value());
    let (b0, b1, b2) = (b.elems[0].value(), b.elems[1].value(), b.elems[2].value());
    lemma_stands_for_value(a.elems[0]);
    lemma_stands_for_value(a.elems[1]);
    lemma_stands_for_value(a.elems[2]);
    lemma_stands_for_value(b.elems[0]);
    lemma_stands_for_value(b.elems[1]);
    lemma_stands_for_value(b.elems[2]);
    lemma_product(a.elems[1], b.elems[2], a1, b2);
    lemma_product(a.elems[2], b.elems[1], a2, b1);
    lemma_product(a.elems[2], b.elems[0], a2, b0);
    lemma_product(a.elems[0], b.elems[2], a0, b2);
    lemma_product(a.elems[0], b.elems[1], a0, b1);
    lemma_product(a.elems[1], b.elems[0], a1, b0);
    let c0 = a1 * b2 - a2 * b1;
    let c1 = a2 * b0 - a0 * b2;
    let c2 = a0 * b1 - a1 * b0;
    lemma_difference(
        a.elems[1].product(b.elems[2]),
        a.elems[2].product(b.elems[1]),
        a1 * b2,
        a2 * b1,
    );
    lemma_difference(
        a.elems[2].product(b.elems[0]),
        a.elems[0].product(b.elems[2]),
        a2 * b0,
        a0 * b2,
    );
    lemma_difference(
        a.elems[0].product(b.elems[1]),
        a.elems[1].product(b.elems[0]),
        a0 * b1,
        a1 * b0,
    );
    assert(stands_for(c.elems[0], c0));
    assert(stands_for(c.elems[1], c1));
    assert(stands_for(c.elems[2], c2));
    lemma_lit::<S>(0);

    lemma_product(c.elems[0], a.elems[0], c0, a0);
    lemma_product(c.elems[1], a.elems[1], c1, a1);
    lemma_product(c.elems[2], a.elems[2], c2, a2);
    lemma_sum(
        c.elems[0].product(a.elems[0]),
        c.elems[1].product(a.elems[1]),
        c0 * a0,
        c1 * a1,
    );
    lemma_sum(
        c.elems[0].product(a.elems[0]).sum(c.elems[1].product(a.elems[1])),
        c.elems[2].product(a.elems[2]),
        c0 * a0 + c1 * a1,
        c2 * a2,
    );
    assert(c0 * a0 + c1 * a1 + c2 * a2 == 0) by {
        lemma_mul_is_distributive_sub_other_way(a0, a1 * b2, a2 * b1);
        lemma_mul_is_distributive_sub_other_way(a1, a2 * b0, a0 * b2);
        lemma_mul_is_distributive_sub_other_way(a2, a0 * b1, a1 * b0);
        lemma_product3(a0, a1, b2);
        lemma_product3(a0, a2, b1);
        lemma_product3(a1, a2, b0);
    }
    lemma_same(c.dot_spec(a), S::lit(0), 0);

    lemma_product(c.elems[0], b.elems[0], c0, b0);
    lemma_product(c.elems[1], b.elems[1], c1, b1);
    lemma_product(c.elems[2], b.elems[2], c2, b2);
    lemma_sum(
        c.elems[0].product(b.elems[0]),
        c.elems[1].product(b.elems[1]),
        c0 * b0,
        c1 * b1,
    );
    lemma_sum(
        c.elems[0].product(b.elems[0]).sum(c.elems[1].product(b.elems[1])),
        c.elems[2].product(b.elems[2]),
        c0 * b0 + c1 * b1,
        c2 * b2,
    );
    assert(c0 * b0 + c1 * b1 + c2 * b2 == 0) by {
        lemma_mul_is_distributive_sub_other_way(b0, a1 * b2, a2 * b1);
        lemma_mul_is_distributive_sub_other_way(b1, a2 * b0, a0 * b2);
        lemma_mul_is_distributive_sub_other_way(b2, a0 * b1, a1 * b0);
        lemma_product3(a1, b0, b2);
        lemma_product3(a2, b0, b1);
        lemma_product3(a0, b1, b2);
    }
    lemma_same(c.dot_spec(b), S::lit(0), 0);
}

} // verus!
