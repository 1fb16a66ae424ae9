//! How a body moves from tick to tick.
//!
//! What the ticks apply, and in which order, holds of every scalar. That the
//! additions and products can be gathered into one holds of exact scalars.

use vstd::prelude::*;
use crate::entity::GameObject;
use crate::exact::Exact;
use crate::exact::lemma_stands_for_value;
use crate::exact::lemma_sum;
use crate::exact::stands_for;
use crate::laws::algebra::lemma_compose_associative;
use crate::laws::algebra::lemma_identity_compose;
use crate::matrix::Mat4;
use crate::scalar::Scalar;
use crate::vector::Vec3;

verus! {

/// The point `p` moved `n` times by `v`, one addition after the other.
pub open spec fn moved<S: Scalar>(p: Vec3<S>, v: Vec3<S>, n: nat) -> Vec3<S>
    decreases n,
{
    if n == 0 {
        p
    } else {
        moved(p, v, (n - 1) as nat).sum(v)
    }
}

/// The attitude `o` turned `n` times by `delta`, each time from the left.
pub open spec fn turned<S: Scalar>(o: Mat4<S>, delta: Mat4<S>, n: nat) -> Mat4<S>
    decreases n,
{
    if n == 0 {
        o
    } else {
        delta.compose(turned(o, delta, (n - 1) as nat))
    }
}

/// The `n`-th power of `delta`.
pub open spec fn power<S: Scalar>(delta: Mat4<S>, n: nat) -> Mat4<S>
    decreases n,
{
    if n == 0 {
        Mat4::<S>::identity_spec()
    } else {
        delta.compose(power(delta, (n - 1) as nat))
    }
}

/// After `n` ticks a body has been moved `n` times by its velocity and turned
/// `n` times by its spin; its velocity, its spin and its mesh are what they
/// were.
pub proof fn lemma_after_ticks<S: Scalar>(object: GameObject<S>, n: nat)
    ensures
        object.after(n).position == moved(object.position, object.velocity, n),
        object.after(n).orientation == turned(object.orientation, object.angular_velocity, n),
        object.after(n).velocity == object.velocity,
        object.after(n).angular_velocity == object.angular_velocity,
        object.after(n).mesh == object.mesh,
    decreases n,
{
    if n > 0 {
        lemma_after_ticks(object, (n - 1) as nat);
    }
}

/// With exact scalars, moving a point `n` times by `v` adds `n` times `v` to
/// it.
pub proof fn lemma_moved_is_linear<S: Exact>(p: Vec3<S>, v: Vec3<S>, n: nat, k: int)
    requires
        0 <= k < 3,
    ensures
        stands_for(moved(p, v, n).elems[k], p.elems[k].value() + n * v.elems[k].value()),
    decreases n,
{
    let (x, y) = (p.elems[k].value(), v.elems[k].value());
    if n == 0 {
        lemma_stands_for_value(p.elems[k]);
        assert(n * y == 0) by (nonlinear_arith)
            requires
                n == 0,
        ;
    } else {
        let before = moved(p, v, (n - 1) as nat);
        lemma_moved_is_linear(p, v, (n - 1) as nat, k);
        lemma_stands_for_value(v.elems[k]);
        lemma_sum(before.elems[k], v.elems[k], x + (n - 1) * y, y);
        assert((n - 1) * y + y == n * y) by (nonlinear_arith);
        assert(moved(p, v, n).elems[k] == before.elems[k].sum(v.elems[k]));
    }
}

/// With exact scalars, turning an attitude `n` times by `delta` multiplies it
/// from the left by the `n`-th power of `delta`.
pub proof fn lemma_turned_is_power<S: Exact>(o: Mat4<S>, delta: Mat4<S>, n: nat)
    ensures
        turned(o, delta, n) == power(delta, n).compose(o),
    decreases n,
{
    if n == 0 {
        lemma_identity_compose(o);
    } else {
        lemma_turned_is_power(o, delta, (n - 1) as nat);
        lemma_compose_associative(delta, power(delta, (n - 1) as nat), o);
    }
}

} // verus!
