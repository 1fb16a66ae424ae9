//! What the cofactors, the adjugate and the determinant of a matrix of exact
//! scalars stand for.

use vstd::prelude::*;
use vstd::arithmetic::mul::lemma_mul_unary_negation;
use crate::exact::Exact;
use crate::exact::stands_for;
use crate::exact::lemma_difference;
use crate::exact::lemma_negation;
use crate::exact::lemma_product;
use crate::exact::lemma_sum;
use crate::inverse::expand;
use crate::inverse::expand_negated;
use crate::inverse::skip;
use crate::matrix::Mat4;
use crate::proofs::determinant::int_adjugate;
use crate::proofs::determinant::int_cofactor;
use crate::proofs::determinant::int_determinant;
use crate::proofs::determinant::int_expand;
use crate::proofs::tracking::mat4_stands_for;

verus! {

/// A product of three scalars stands for the product of what they stand for.
proof fn lemma_product_of_three<S: Exact>(x: S, y: S, z: S, a: int, b: int, c: int)
    requires
        stands_for(x, a),
        stands_for(y, b),
        stands_for(z, c),
    ensures
        stands_for(x.product(y).product(z), a * b * c),
{
    lemma_product(x, y, a, b);
    lemma_product(x.product(y), z, a * b, c);
}

/// The expansion of a determinant of side three stands for the determinant of
/// what its entries stand for.
pub proof fn lemma_expand<S: Exact>(x: Seq<S>, n: Seq<int>)
    requires
        x.len() == 9,
        n.len() == 9,
        forall|k: int| 0 <= k < 9 ==> stands_for(#[trigger] x[k], n[k]),
    ensures
        stands_for(
            expand(x[0], x[1], x[2], x[3], x[4], x[5], x[6], x[7], x[8]),
            int_expand(n[0], n[1], n[2], n[3], n[4], n[5], n[6], n[7], n[8]),
        ),
{
    let (a, b, c, d, e, f, g, h, i) = (x[0], x[1], x[2], x[3], x[4], x[5], x[6], x[7], x[8]);
    let (na, nb, nc, nd, ne, nf, ng, nh, ni) = (
        n[0],
        n[1],
        n[2],
        n[3],
        n[4],
        n[5],
        n[6],
        n[7],
        n[8],
    );
    let (t1, t2, t3) = (
        a.product(e).product(i),
        a.product(f).product(h),
        d.product(b).product(i),
    );
    let (t4, t5, t6) = (
        d.product(c).product(h),
        g.product(b).product(f),
        g.product(c).product(e),
    );
    lemma_product_of_three(a, e, i, na, ne, ni);
    lemma_product_of_three(a, f, h, na, nf, nh);
    lemma_product_of_three(d, b, i, nd, nb, ni);
    lemma_product_of_three(d, c, h, nd, nc, nh);
    lemma_product_of_three(g, b, f, ng, nb, nf);
    lemma_product_of_three(g, c, e, ng, nc, ne);
    lemma_difference(t1, t2, na * ne * ni, na * nf * nh);
    lemma_difference(t1.difference(t2), t3, na * ne * ni - na * nf * nh, nd * nb * ni);
    lemma_sum(
        t1.difference(t2).difference(t3),
        t4,
        na * ne * ni - na * nf * nh - nd * nb * ni,
        nd * nc * nh,
    );
    lemma_sum(
        t1.difference(t2).difference(t3).sum(t4),
        t5,
        na * ne * ni - na * nf * nh - nd * nb * ni + nd * nc * nh,
        ng * nb * nf,
    );
    lemma_difference(
        t1.difference(t2).difference(t3).sum(t4).sum(t5),
        t6,
        na * ne * ni - na * nf * nh - nd * nb * ni + nd * nc * nh + ng * nb * nf,
        ng * nc * ne,
    );
}

/// The expansion with its signs turned stands for the negative of the
/// determinant of what its entries stand for.
pub proof fn lemma_expand_negated<S: Exact>(x: Seq<S>, n: Seq<int>)
    requires
        x.len() == 9,
        n.len() == 9,
        forall|k: int| 0 <= k < 9 ==> stands_for(#[trigger] x[k], n[k]),
    ensures
        stands_for(
            expand_negated(x[0], x[1], x[2], x[3], x[4], x[5], x[6], x[7], x[8]),
            -int_expand(n[0], n[1], n[2], n[3], n[4], n[5], n[6], n[7], n[8]),
        ),
{
    let (a, b, c, d, e, f, g, h, i) = (x[0], x[1], x[2], x[3], x[4], x[5], x[6], x[7], x[8]);
    let (na, nb, nc, nd, ne, nf, ng, nh, ni) = (
        n[0],
        n[1],
        n[2],
        n[3],
        n[4],
        n[5],
        n[6],
        n[7],
        n[8],
    );
    let (t1, t2, t3) = (
        a.negation().product(e).product(i),
        a.product(f).product(h),
        d.product(b).product(i),
    );
    let (t4, t5, t6) = (
        d.product(c).product(h),
        g.product(b).product(f),
        g.product(c).product(e),
    );
    lemma_negation(a, na);
    lemma_product_of_three(a.negation(), e, i, -na, ne, ni);
    lemma_product_of_three(a, f, h, na, nf, nh);
    lemma_product_of_three(d, b, i, nd, nb, ni);
    lemma_product_of_three(d, c, h, nd, nc, nh);
    lemma_product_of_three(g, b, f, ng, nb, nf);
    lemma_product_of_three(g, c, e, ng, nc, ne);
    lemma_mul_unary_negation(na, ne);
    lemma_mul_unary_negation(na * ne, ni);
    assert((-na) * ne * ni == -(na * ne * ni));
    lemma_sum(t1, t2, -(na * ne * ni), na * nf * nh);
    lemma_sum(t1.sum(t2), t3, -(na * ne * ni) + na * nf * nh, nd * nb * ni);
    lemma_difference(
        t1.sum(t2).sum(t3),
        t4,
        -(na * ne * ni) + na * nf * nh + nd * nb * ni,
        nd * nc * nh,
    );
    lemma_difference(
        t1.sum(t2).sum(t3).difference(t4),
        t5,
        -(na * ne * ni) + na * nf * nh + nd * nb * ni - nd * nc * nh,
        ng * nb * nf,
    );
    lemma_sum(
        t1.sum(t2).sum(t3).difference(t4).difference(t5),
        t6,
        -(na * ne * ni) + na * nf * nh + nd * nb * ni - nd * nc * nh - ng * nb * nf,
        ng * nc * ne,
    );
}

/// A cofactor stands for the cofactor of what the matrix stands for.
pub proof fn lemma_cofactor<S: Exact>(m: Mat4<S>, row: int, col: int, a: Seq<int>)
    requires
        0 <= row < 4,
        0 <= col < 4,
        mat4_stands_for(m, a),
    ensures
        stands_for(m.cofactor(row, col), int_cofactor(a, row, col)),
{
    let x = Seq::new(9, |k: int| m.elems[4 * skip(k / 3, row) + skip(k % 3, col)]);
    let n = Seq::new(9, |k: int| a[4 * skip(k / 3, row) + skip(k % 3, col)]);
    assert forall|k: int| 0 <= k < 9 implies stands_for(#[trigger] x[k], n[k]) by {
        let at = 4 * skip(k / 3, row) + skip(k % 3, col);
        assert(0 <= at < 16);
        assert(stands_for(m.elems[at], a[at]));
    }
    if (row + col) % 2 == 0 {
        lemma_expand(x, n);
    } else {
        lemma_expand_negated(x, n);
    }
}

/// An adjugate stands for the adjugate of what the matrix stands for.
pub proof fn lemma_adjugate<S: Exact>(m: Mat4<S>, a: Seq<int>)
    requires
        mat4_stands_for(m, a),
    ensures
        mat4_stands_for(m.adjugate(), int_adjugate(a)),
{
    assert forall|k: int| 0 <= k < 16 implies stands_for(
        #[trigger] m.adjugate().elems[k],
        int_adjugate(a)[k],
    ) by {
        lemma_cofactor(m, k % 4, k / 4, a);
        assert(m.adjugate().elems[k] == m.cofactor(k % 4, k / 4));
    }
}

/// A determinant stands for the determinant of what the matrix stands for.
pub proof fn lemma_determinant<S: Exact>(m: Mat4<S>, a: Seq<int>)
    requires
        mat4_stands_for(m, a),
    ensures
        stands_for(m.determinant(), int_determinant(a)),
{
    let (c0, c1, c2, c3) = (m.cofactor(0, 0), m.cofactor(0, 1), m.cofactor(0, 2), m.cofactor(0, 3));
    let (n0, n1, n2, n3) = (
        int_cofactor(a, 0, 0),
        int_cofactor(a, 0, 1),
        int_cofactor(a, 0, 2),
        int_cofactor(a, 0, 3),
    );
    lemma_cofactor(m, 0, 0, a);
    lemma_cofactor(m, 0, 1, a);
    lemma_cofactor(m, 0, 2, a);
    lemma_cofactor(m, 0, 3, a);
    lemma_product(m.elems[0], c0, a[0], n0);
    lemma_product(m.elems[1], c1, a[1], n1);
    lemma_product(m.elems[2], c2, a[2], n2);
    lemma_product(m.elems[3], c3, a[3], n3);
    lemma_sum(m.elems[0].product(c0), m.elems[1].product(c1), a[0] * n0, a[1] * n1);
    lemma_sum(
        m.elems[0].product(c0).sum(m.elems[1].product(c1)),
        m.elems[2].product(c2),
        a[0] * n0 + a[1] * n1,
        a[2] * n2,
    );
    lemma_sum(
        m.elems[0].product(c0).sum(m.elems[1].product(c1)).sum(m.elems[2].product(c2)),
        m.elems[3].product(c3),
        a[0] * n0 + a[1] * n1 + a[2] * n2,
        a[3] * n3,
    );
}

/// A scaled matrix stands for the scaled of what the matrix stands for.
pub proof fn lemma_scaled<S: Exact>(m: Mat4<S>, s: S, a: Seq<int>, n: int)
    requires
        mat4_stands_for(m, a),
        stands_for(s, n),
    ensures
        mat4_stands_for(m.scaled(s), Seq::new(16, |k: int| n * a[k])),
{
    assert forall|k: int| 0 <= k < 16 implies stands_for(
        #[trigger] m.scaled(s).elems[k],
        Seq::new(16, |k: int| n * a[k])[k],
    ) by {
        lemma_product(s, m.elems[k], n, a[k]);
        assert(m.scaled(s).elems[k] == s.product(m.elems[k]));
    }
}

} // verus!
