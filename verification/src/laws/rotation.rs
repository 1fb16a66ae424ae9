//! Rotations are orthonormal: the transposed matrix undoes the turn.

use vstd::prelude::*;
use crate::exact::Exact;
use crate::exact::lemma_lit;
use crate::exact::lemma_negation;
use crate::exact::lemma_product;
use crate::exact::lemma_stands_for_value;
use crate::exact::lemma_sum;
use crate::exact::stands_for;
use crate::matrix::Mat4;
use crate::proofs::tracking::lemma_compose;
use crate::proofs::tracking::lemma_mat4_same;
use crate::proofs::tracking::lemma_transposed;
use crate::proofs::tracking::mat4_stands_for;
use crate::scalar::Scalar;
use crate::transform::x_rotation;
use crate::transform::y_rotation;
use crate::transform::z_rotation;
use crate::proofs::integers::int_compose;
use crate::proofs::integers::int_transposed;
use crate::proofs::integers::lemma_int_turn_is_orthonormal;
use crate::proofs::integers::turn_entry;

verus! {

/// Whether `c` and `s` can be the cosine and the sine of one angle.
pub open spec fn on_unit_circle<S: Scalar>(c: S, s: S) -> bool {
    c.product(c).sum(s.product(s)) == S::lit(1)
}

/// With exact scalars, a turn in the plane of two axes is undone by its
/// transposed matrix.
proof fn lemma_turn_is_orthonormal<S: Exact>(m: Mat4<S>, p: int, q: int, c: S, s: S)
    requires
        on_unit_circle(c, s),
        0 <= p < 3,
        0 <= q < 3,
        p != q,
        forall|k: int|
            0 <= k < 16 ==> #[trigger] m.elems[k] == turn_entry(
                p,
                q,
                c,
                s,
                s.negation(),
                S::lit(1),
                S::lit(0),
                k / 4,
                k % 4,
            ),
    ensures
        m.transposed().compose(m) == Mat4::<S>::identity_spec(),
{
    let (cv, sv) = (c.value(), s.value());
    let a = Seq::new(16, |k: int| turn_entry(p, q, cv, sv, -sv, 1, 0, k / 4, k % 4));
    lemma_lit::<S>(0);
    lemma_lit::<S>(1);
    lemma_stands_for_value(c);
    lemma_stands_for_value(s);
    lemma_negation(s, sv);
    assert(mat4_stands_for(m, a));
    lemma_transposed(m, a);
    lemma_compose(m.transposed(), m, int_transposed(a), a);
    let j = int_compose(int_transposed(a), a);
    lemma_product(c, c, cv, cv);
    lemma_product(s, s, sv, sv);
    lemma_sum(c.product(c), s.product(s), cv * cv, sv * sv);
    assert(stands_for(S::lit(1), cv * cv + sv * sv));
    let i = Mat4::<S>::identity_spec();
    assert forall|k: int| 0 <= k < 16 implies stands_for(#[trigger] i.elems[k], j[k]) by {
        assert forall|x: int, y: int| 0 <= x < 4 && 0 <= y < 4 implies #[trigger] a[4 * x + y]
            == turn_entry(p, q, cv, sv, -sv, 1, 0, x, y) by {
            assert((4 * x + y) / 4 == x && (4 * x + y) % 4 == y);
        }
        lemma_int_turn_is_orthonormal(a, p, q, cv, sv, k);
        assert(i.elems[k] == if k / 4 == k % 4 {
            S::lit(1)
        } else {
            S::lit(0)
        });
    }
    lemma_mat4_same(m.transposed().compose(m), i, j);
}

/// With exact scalars, the transposed of a rotation about the x axis undoes
/// it, where the two numbers it is made from are a cosine and a sine.
pub proof fn lemma_x_rotation_is_orthonormal<S: Exact>(c: S, s: S)
    requires
        on_unit_circle(c, s),
    ensures
        x_rotation(c, s).transposed().compose(x_rotation(c, s)) == Mat4::<S>::identity_spec(),
{
    lemma_turn_is_orthonormal(x_rotation(c, s), 1, 2, c, s);
}

/// With exact scalars, the transposed of a rotation about the y axis undoes
/// it, where the two numbers it is made from are a cosine and a sine.
pub proof fn lemma_y_rotation_is_orthonormal<S: Exact>(c: S, s: S)
    requires
        on_unit_circle(c, s),
    ensures
        y_rotation(c, s).transposed().compose(y_rotation(c, s)) == Mat4::<S>::identity_spec(),
{
    lemma_turn_is_orthonormal(y_rotation(c, s), 2, 0, c, s);
}

/// With exact scalars, the transposed of a rotation about the z axis undoes
/// it, where the two numbers it is made from are a cosine and a sine.
pub proof fn lemma_z_rotation_is_orthonormal<S: Exact>(c: S, s: S)
    requires
        on_unit_circle(c, s),
    ensures
        z_rotation(c, s).transposed().compose(z_rotation(c, s)) == Mat4::<S>::identity_spec(),
{
    lemma_turn_is_orthonormal(z_rotation(c, s), 0, 1, c, s);
}

} // verus!
