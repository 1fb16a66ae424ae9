//! What holds of a frame, of the view of a camera, and of the way back from
//! a projected point.

use vstd::prelude::*;
use crate::entity::GameObject;
use crate::exact::Exact;
use crate::proofs::integers::lemma_int_shifts_add;
use crate::laws::algebra::lemma_identity_compose;
use crate::laws::algebra::lemma_compose_associative;
use crate::exact::lemma_negation;
use crate::exact::lemma_sum;
use crate::exact::lemma_same;
use crate::exact::lemma_product;
use crate::exact::lemma_lit;
use crate::exact::lemma_stands_for_value;
use crate::exact::stands_for;
use crate::laws::inversion::invertible;
use crate::laws::inversion::lemma_inverse_undoes;
use crate::laws::motion::turned;
use crate::matrix::Mat4;
use crate::proofs::tracking::lemma_compose;
use crate::proofs::tracking::lemma_mat4_same;
use crate::proofs::tracking::lemma_mat4_values;
use crate::proofs::tracking::mat4_stands_for;
use crate::proofs::tracking::mat4_values;
use crate::renderer::Camera;
use crate::renderer::Renderer;
use crate::renderer::homogeneous;
use crate::renderer::in_camera;
use crate::renderer::projection_matrix;
use crate::scalar::Scalar;
use crate::transform::translation;
use crate::vector::Vec3;
use crate::vector::Vec4;
use crate::proofs::integers::int_compose;
use crate::proofs::integers::lemma_int_shift_after;

verus! {

/// The number of edges of all `objects`.
pub open spec fn edge_count<S: Scalar>(objects: Seq<GameObject<S>>) -> nat
    decreases objects.len(),
{
    if objects.len() == 0 {
        0
    } else {
        edge_count(objects.drop_last()) + objects.last().mesh.connection_seq().len() / 2
    }
}

/// A frame holds one segment for every edge of every entity.
pub proof fn lemma_frame_length<S: Scalar>(
    renderer: Renderer<S>,
    objects: Seq<GameObject<S>>,
    camera: Camera<S>,
)
    ensures
        renderer.frame(objects, camera).len() == edge_count(objects),
    decreases objects.len(),
{
    if objects.len() > 0 {
        lemma_frame_length(renderer, objects.drop_last(), camera);
    }
}

/// The frame of two rows of entities, one after the other, is the frame of
/// the first followed by the frame of the second.
pub proof fn lemma_frame_of_both<S: Scalar>(
    renderer: Renderer<S>,
    first: Seq<GameObject<S>>,
    second: Seq<GameObject<S>>,
    camera: Camera<S>,
)
    ensures
        renderer.frame(first + second, camera) == renderer.frame(first, camera) + renderer.frame(
            second,
            camera,
        ),
    decreases second.len(),
{
    if second.len() == 0 {
        assert(first + second =~= first);
        assert(renderer.frame(first, camera) + renderer.frame(second, camera)
            =~= renderer.frame(first, camera));
    } else {
        lemma_frame_of_both(renderer, first, second.drop_last(), camera);
        assert((first + second).drop_last() =~= first + second.drop_last());
        assert((first + second).last() == second.last());
        assert(renderer.frame(first + second, camera) =~= renderer.frame(first, camera)
            + renderer.frame(second, camera));
    }
}

/// Whether the matrix leaves the weight alone: its last row is that of the
/// identity matrix.
pub open spec fn keeps_weight<S: Scalar>(m: Mat4<S>) -> bool {
    &&& m.elems[12] == S::lit(0)
    &&& m.elems[13] == S::lit(0)
    &&& m.elems[14] == S::lit(0)
    &&& m.elems[15] == S::lit(1)
}

/// Whether the matrix moves nothing and leaves the weight alone: its last
/// row and its last column are those of the identity matrix.
pub open spec fn keeps_origin<S: Scalar>(m: Mat4<S>) -> bool {
    &&& m.elems[3] == S::lit(0)
    &&& m.elems[7] == S::lit(0)
    &&& m.elems[11] == S::lit(0)
    &&& keeps_weight(m)
}

/// With exact scalars, a shift is undone by the shift the other way.
pub proof fn lemma_shift_back<S: Exact>(dx: S, dy: S, dz: S)
    ensures
        translation(dx, dy, dz).compose(translation(dx.negation(), dy.negation(), dz.negation()))
            == Mat4::<S>::identity_spec(),
{
    let there = translation(dx, dy, dz);
    let back = translation(dx.negation(), dy.negation(), dz.negation());
    let (x, y, z) = (dx.value(), dy.value(), dz.value());
    let a = seq![1, 0, 0, x, 0, 1, 0, y, 0, 0, 1, z, 0, 0, 0, 1];
    let b = seq![1, 0, 0, -x, 0, 1, 0, -y, 0, 0, 1, -z, 0, 0, 0, 1];
    lemma_lit::<S>(0);
    lemma_lit::<S>(1);
    lemma_stands_for_value(dx);
    lemma_stands_for_value(dy);
    lemma_stands_for_value(dz);
    lemma_negation(dx, x);
    lemma_negation(dy, y);
    lemma_negation(dz, z);
    assert(mat4_stands_for(there, a));
    assert(mat4_stands_for(back, b));
    lemma_compose(there, back, a, b);
    let i = Mat4::<S>::identity_spec();
    assert forall|k: int| 0 <= k < 16 implies stands_for(
        #[trigger] i.elems[k],
        int_compose(a, b)[k],
    ) by {
        lemma_int_shifts_add(a, b, k / 4, k % 4);
    }
    lemma_mat4_same(there.compose(back), i, int_compose(a, b));
}

/// With exact scalars, the view of a camera whose orientation is a rotation
/// is undone by the shift back to the camera's position and then the
/// orientation: the transposed orientation in the view stands in for its
/// inverse.
pub proof fn lemma_view_is_undone<S: Exact>(camera: Camera<S>)
    requires
        keeps_origin(camera.orientation),
        camera.orientation.compose(camera.orientation.transposed()) == Mat4::<S>::identity_spec(),
    ensures
        camera.orientation.compose(
            translation(
                camera.position.elems[0],
                camera.position.elems[1],
                camera.position.elems[2],
            ),
        ).compose(camera.view_matrix()) == Mat4::<S>::identity_spec(),
{
    let turn = camera.orientation;
    let there = translation(
        camera.position.elems[0],
        camera.position.elems[1],
        camera.position.elems[2],
    );
    let back = translation(
        camera.position.elems[0].negation(),
        camera.position.elems[1].negation(),
        camera.position.elems[2].negation(),
    );
    lemma_view_turns_then_shifts(camera);
    lemma_compose_associative(turn, there, back.compose(turn.transposed()));
    lemma_compose_associative(there, back, turn.transposed());
    lemma_shift_back(
        camera.position.elems[0],
        camera.position.elems[1],
        camera.position.elems[2],
    );
    lemma_identity_compose(turn.transposed());
}

/// With exact scalars, a matrix that leaves the weight alone takes a point
/// of weight one to a point of weight one.
pub proof fn lemma_weight_is_kept<S: Exact>(m: Mat4<S>, v: Vec4<S>)
    requires
        keeps_weight(m),
        v.elems[3] == S::lit(1),
    ensures
        m.apply(v).elems[3] == S::lit(1),
{
    let (x, y, z) = (v.elems[0], v.elems[1], v.elems[2]);
    let (a, b, c) = (x.value(), y.value(), z.value());
    let (zero, one) = (S::lit(0), S::lit(1));
    lemma_lit::<S>(0);
    lemma_lit::<S>(1);
    lemma_stands_for_value(x);
    lemma_stands_for_value(y);
    lemma_stands_for_value(z);
    lemma_product(zero, x, 0, a);
    lemma_product(zero, y, 0, b);
    lemma_product(zero, z, 0, c);
    lemma_product(one, v.elems[3], 1, 1);
    lemma_sum(zero.product(x), zero.product(y), 0 * a, 0 * b);
    lemma_sum(zero.product(x).sum(zero.product(y)), zero.product(z), 0 * a + 0 * b, 0 * c);
    lemma_sum(
        zero.product(x).sum(zero.product(y)).sum(zero.product(z)),
        one.product(one),
        0 * a + 0 * b + 0 * c,
        1int * 1,
    );
    lemma_same(m.row_dot(3, v), one, 1);
}

/// With exact scalars, a point has the weight one until it is projected,
/// where the attitude of its entity leaves the weight alone; and the projection
/// makes its depth before the camera its weight.
pub proof fn lemma_weight_is_depth<S: Exact>(
    renderer: Renderer<S>,
    object: GameObject<S>,
    camera: Camera<S>,
    p: Vec3<S>,
)
    requires
        keeps_weight(object.orientation),
        renderer.projection() == projection_matrix(
            renderer.aspect(),
            renderer.focal(),
            renderer.near(),
            renderer.far(),
        ),
    ensures
        in_camera(object, camera, p).elems[3] == S::lit(1),
        renderer.clip(object, camera, p).elems[3] == in_camera(object, camera, p).elems[2],
{
    let place = translation(
        object.position.elems[0],
        object.position.elems[1],
        object.position.elems[2],
    );
    let turned = object.orientation.apply(homogeneous(p));
    let placed = place.apply(turned);
    let seen = in_camera(object, camera, p);
    lemma_weight_is_kept(object.orientation, homogeneous(p));
    lemma_weight_is_kept(place, turned);
    lemma_weight_is_kept(camera.view_matrix(), placed);

    let (x, y, z, w) = (seen.elems[0], seen.elems[1], seen.elems[2], seen.elems[3]);
    let (a, b, c, d) = (x.value(), y.value(), z.value(), w.value());
    let (zero, one) = (S::lit(0), S::lit(1));
    lemma_lit::<S>(0);
    lemma_lit::<S>(1);
    lemma_stands_for_value(x);
    lemma_stands_for_value(y);
    lemma_stands_for_value(z);
    lemma_stands_for_value(w);
    lemma_product(zero, x, 0, a);
    lemma_product(zero, y, 0, b);
    lemma_product(one, z, 1, c);
    lemma_product(zero, w, 0, d);
    lemma_sum(zero.product(x), zero.product(y), 0 * a, 0 * b);
    lemma_sum(zero.product(x).sum(zero.product(y)), one.product(z), 0 * a + 0 * b, 1 * c);
    lemma_sum(
        zero.product(x).sum(zero.product(y)).sum(one.product(z)),
        zero.product(w),
        0 * a + 0 * b + 1 * c,
        0 * d,
    );
    lemma_same(renderer.projection().row_dot(3, seen), z, c);
}

/// With exact scalars, the view of a camera whose orientation keeps the
/// origin first turns by the transposed orientation and then shifts by the
/// negated position.
pub proof fn lemma_view_turns_then_shifts<S: Exact>(camera: Camera<S>)
    requires
        keeps_origin(camera.orientation),
    ensures
        camera.view_matrix() == translation(
            camera.position.elems[0].negation(),
            camera.position.elems[1].negation(),
            camera.position.elems[2].negation(),
        ).compose(camera.orientation.transposed()),
{
    let shift = translation(
        camera.position.elems[0].negation(),
        camera.position.elems[1].negation(),
        camera.position.elems[2].negation(),
    );
    let turn = camera.orientation.transposed();
    let view = camera.view_matrix();
    let p = Seq::new(3, |i: int| camera.position.elems[i].negation().value());
    let t = mat4_values(turn);
    let a = seq![1, 0, 0, p[0], 0, 1, 0, p[1], 0, 0, 1, p[2], 0, 0, 0, 1];
    let b = seq![t[0], t[1], t[2], 0, t[4], t[5], t[6], 0, t[8], t[9], t[10], 0, 0, 0, 0, 1];
    lemma_lit::<S>(0);
    lemma_lit::<S>(1);
    lemma_stands_for_value(camera.position.elems[0].negation());
    lemma_stands_for_value(camera.position.elems[1].negation());
    lemma_stands_for_value(camera.position.elems[2].negation());
    lemma_mat4_values(turn);
    assert(mat4_stands_for(shift, a));
    assert(mat4_stands_for(turn, b));
    lemma_compose(shift, turn, a, b);
    assert forall|k: int| 0 <= k < 16 implies stands_for(
        #[trigger] view.elems[k],
        int_compose(a, b)[k],
    ) by {
        lemma_int_shift_after(a, b, k / 4, k % 4);
    }
    lemma_mat4_same(view, shift.compose(turn), int_compose(a, b));
}

/// With exact scalars, a projected point leads back to the point it was made
/// from: multiplied by its weight again, and taken through the inverses of the
/// projection, the view, the translation and the attitude, in this order. The
/// four matrices must be invertible, and the division by the weight exact.
pub proof fn lemma_projection_can_be_undone<S: Exact>(
    renderer: Renderer<S>,
    object: GameObject<S>,
    camera: Camera<S>,
    p: Vec3<S>,
)
    requires
        invertible(renderer.projection()),
        invertible(camera.view_matrix()),
        invertible(
            translation(
                object.position.elems[0],
                object.position.elems[1],
                object.position.elems[2],
            ),
        ),
        invertible(object.orientation),
        renderer.project(object, camera, p).scaled(renderer.clip(object, camera, p).elems[3])
            == renderer.clip(object, camera, p),
    ensures
        object.orientation.inverse_spec().apply(
            translation(
                object.position.elems[0],
                object.position.elems[1],
                object.position.elems[2],
            ).inverse_spec().apply(
                camera.view_matrix().inverse_spec().apply(
                    renderer.projection().inverse_spec().apply(
                        renderer.project(object, camera, p).scaled(
                            renderer.clip(object, camera, p).elems[3],
                        ),
                    ),
                ),
            ),
        ) == homogeneous(p),
{
    let place = translation(
        object.position.elems[0],
        object.position.elems[1],
        object.position.elems[2],
    );
    let local = homogeneous(p);
    let turned = object.orientation.apply(local);
    let placed = place.apply(turned);
    let viewed = camera.view_matrix().apply(placed);
    lemma_inverse_undoes(renderer.projection(), viewed);
    lemma_inverse_undoes(camera.view_matrix(), placed);
    lemma_inverse_undoes(place, turned);
    lemma_inverse_undoes(object.orientation, local);
}

} // verus!
