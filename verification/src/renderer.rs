//! The camera and the perspective pipeline: from entities in space to line
//! segments on the image plane.
//!
//! A point of an entity passes through four matrices in a fixed order: the
//! entity's attitude, which turns it about the entity's own origin; the
//! translation to the entity's place in the world; the camera's view; and the
//! projection. Its components are then divided by its weight. Nothing is
//! clipped, sorted or left out: every edge of every entity gives one segment.

use vstd::prelude::*;
use crate::scalar::Scalar;
use crate::vector::Vec3;
use crate::vector::Vec4;
use crate::matrix::Mat4;
use crate::transform::translation;
use crate::transform::translation_matrix;
use crate::entity::GameObject;
use crate::entity::well_connected;

verus! {

/// The point of view: where the camera stands and how it is turned.
///
/// The orientation is a pure rotation, without scale or shear.
#[derive(Clone, Copy, Debug)]
pub struct Camera<S: Scalar> {
    pub position: Vec3<S>,
    pub orientation: Mat4<S>,
}

/// One edge on the image plane, from its tail to its head.
#[derive(Clone, Copy, Debug)]
pub struct Line<S: Scalar> {
    pub tail_x: S,
    pub tail_y: S,
    pub head_x: S,
    pub head_y: S,
}

/// The perspective projection and the numbers it was made from.
///
/// The projection matrix always is the one that `projection_matrix` gives for
/// the stored aspect ratio, focal length and clip distances.
#[derive(Debug)]
pub struct Renderer<S: Scalar> {
    fov: S,
    near: S,
    far: S,
    aspect: S,
    focal: S,
    projection: Mat4<S>,
}

/// The point `p` with the weight one.
pub open spec fn homogeneous<S: Scalar>(p: Vec3<S>) -> Vec4<S> {
    Vec4 { elems: [p.elems[0], p.elems[1], p.elems[2], S::lit(1)] }
}

/// The perspective projection for the given aspect ratio, focal length and
/// clip distances. Its third row divides by `far - near`.
pub open spec fn projection_matrix<S: Scalar>(aspect: S, focal: S, near: S, far: S) -> Mat4<S> {
    Mat4 {
        elems: [
            aspect.product(focal), S::lit(0), S::lit(0), S::lit(0),
            S::lit(0), focal, S::lit(0), S::lit(0),
            S::lit(0), S::lit(0), far.quotient(far.difference(near)),
                near.product(far).negation().quotient(far.difference(near)),
            S::lit(0), S::lit(0), S::lit(1), S::lit(0),
        ],
    }
}

/// The point `p` of `object` as `camera` sees it: turned by the attitude of
/// `object`, placed at its position, and taken into the frame of `camera`.
pub open spec fn in_camera<S: Scalar>(object: GameObject<S>, camera: Camera<S>, p: Vec3<S>) -> Vec4<
    S,
> {
    camera.view_matrix().apply(
        translation(
            object.position.elems[0],
            object.position.elems[1],
            object.position.elems[2],
        ).apply(object.orientation.apply(homogeneous(p))),
    )
}

impl<S: Scalar> Camera<S> {
    /// The matrix that takes the world into the camera's frame: the
    /// transposed rotation block of the orientation, which for a rotation is
    /// its inverse, and the negated position in the last column.
    pub open spec fn view_matrix(self) -> Mat4<S> {
        Mat4 {
            elems: [
                self.orientation.elems[0], self.orientation.elems[4], self.orientation.elems[8],
                    self.position.elems[0].negation(),
                self.orientation.elems[1], self.orientation.elems[5], self.orientation.elems[9],
                    self.position.elems[1].negation(),
                self.orientation.elems[2], self.orientation.elems[6], self.orientation.elems[10],
                    self.position.elems[2].negation(),
                S::lit(0), S::lit(0), S::lit(0), S::lit(1),
            ],
        }
    }

    /// The camera at `position`, turned by `orientation`.
    pub fn new(position: Vec3<S>, orientation: Mat4<S>) -> (r: Camera<S>)
        ensures
            r.position == position,
            r.orientation == orientation,
    {
        Camera { position, orientation }
    }

    /// The camera two hundred units before the origin on the z axis, not
    /// turned.
    pub fn default() -> (r: Camera<S>)
        ensures
            r.position == (Vec3 { elems: [S::lit(0), S::lit(0), S::lit(-200i32)] }),
            r.orientation == Mat4::<S>::identity_spec(),
    {
        Camera {
            position: Vec3::new(S::from_i32(0), S::from_i32(0), S::from_i32(-200)),
            orientation: Mat4::identity(),
        }
    }

    /// The matrix that takes the world into the camera's frame.
    pub fn world_to_camera(&self) -> (r: Mat4<S>)
        ensures
            r == self.view_matrix(),
    {
        let o: S = S::from_i32(0);
        let i: S = S::from_i32(1);
        Mat4 {
            elems: [
                self.orientation.elems[0], self.orientation.elems[4], self.orientation.elems[8],
                    self.position.elems[0].negated(),
                self.orientation.elems[1], self.orientation.elems[5], self.orientation.elems[9],
                    self.position.elems[1].negated(),
                self.orientation.elems[2], self.orientation.elems[6], self.orientation.elems[10],
                    self.position.elems[2].negated(),
                o, o, o, i,
            ],
        }
    }
}

/// A copy has the same numbers and the same projection.
impl<S: Scalar> Clone for Renderer<S> {
    fn clone(&self) -> (r: Renderer<S>)
        ensures
            r == *self,
    {
        proof {
            use_type_invariant(self);
        }
        Renderer {
            fov: self.fov,
            near: self.near,
            far: self.far,
            aspect: self.aspect,
            focal: self.focal,
            projection: self.projection,
        }
    }
}

impl<S: Scalar> Copy for Renderer<S> {

}

impl<S: Scalar> Renderer<S> {
    /// The projection matrix belongs to the stored numbers.
    #[verifier::type_invariant]
    spec fn consistent(self) -> bool {
        self.projection == projection_matrix(self.aspect, self.focal, self.near, self.far)
    }

    /// The field of view, in radians.
    pub closed spec fn spec_fov(&self) -> S {
        self.fov
    }

    /// The distance of the near clip plane.
    pub closed spec fn spec_near(&self) -> S {
        self.near
    }

    /// The distance of the far clip plane.
    pub closed spec fn spec_far(&self) -> S {
        self.far
    }

    /// The aspect ratio.
    pub closed spec fn spec_aspect(&self) -> S {
        self.aspect
    }

    /// The focal length.
    pub closed spec fn spec_focal(&self) -> S {
        self.focal
    }

    /// The projection matrix.
    pub closed spec fn spec_projection(&self) -> Mat4<S> {
        self.projection
    }

    /// The point `p` of `object` before the division by its weight: as
    /// `camera` sees it, and projected.
    pub open spec fn clip(&self, object: GameObject<S>, camera: Camera<S>, p: Vec3<S>) -> Vec4<S> {
        self.projection().apply(in_camera(object, camera, p))
    }

    /// Where the point `p` of `object` falls for `camera`: its four
    /// components after projection, each divided by the weight.
    pub open spec fn project(&self, object: GameObject<S>, camera: Camera<S>, p: Vec3<S>) -> Vec4<
        S,
    > {
        self.clip(object, camera, p).divided(self.clip(object, camera, p).elems[3])
    }

    /// The segment of the `k`-th edge of `object`.
    pub open spec fn edge(&self, object: GameObject<S>, camera: Camera<S>, k: int) -> Line<S> {
        let points = object.mesh.point_seq();
        let connections = object.mesh.connection_seq();
        let tail = self.project(object, camera, points[connections[2 * k] as int]);
        let head = self.project(object, camera, points[connections[2 * k + 1] as int]);
        Line {
            tail_x: tail.elems[0],
            tail_y: tail.elems[1],
            head_x: head.elems[0],
            head_y: head.elems[1],
        }
    }

    /// The segments of `object`, one for each edge, in the order of its edges.
    pub open spec fn outline(&self, object: GameObject<S>, camera: Camera<S>) -> Seq<Line<S>> {
        Seq::new(
            (object.mesh.connection_seq().len() / 2) as nat,
            |k: int| self.edge(object, camera, k),
        )
    }

    /// The segments of all `objects`, in their order.
    pub open spec fn frame(&self, objects: Seq<GameObject<S>>, camera: Camera<S>) -> Seq<Line<S>>
        decreases objects.len(),
    {
        if objects.len() == 0 {
            Seq::empty()
        } else {
            self.frame(objects.drop_last(), camera) + self.outline(objects.last(), camera)
        }
    }

    /// The renderer for a field of view `fov` in radians, the clip distances
    /// `near` and `far`, the aspect ratio `aspect`, and `focal`, the focal
    /// length that belongs to the field of view: one over the tangent of its
    /// half.
    ///
    /// With `far` equal to `near` the third row of the projection holds
    /// quotients by zero.
    pub fn new(fov: S, near: S, far: S, aspect: S, focal: S) -> (r: Renderer<S>)
        ensures
            r.fov() == fov,
            r.near() == near,
            r.far() == far,
            r.aspect() == aspect,
            r.focal() == focal,
            r.projection() == projection_matrix(aspect, focal, near, far),
    {
        let o: S = S::from_i32(0);
        let i: S = S::from_i32(1);
        Renderer {
            fov,
            near,
            far,
            aspect,
            focal,
            projection: Mat4 {
                elems: [
                    aspect.times(focal), o, o, o,
                    o, focal, o, o,
                    o, o, far.over(far.minus(near)),
                        near.times(far).negated().over(far.minus(near)),
                    o, o, i, o,
                ],
            },
        }
    }

    /// The renderer with the clip distances 1 and 1000 and the aspect ratio
    /// 1, for the given field of view and its focal length.
    pub fn default(fov: S, focal: S) -> (r: Renderer<S>)
        ensures
            r.fov() == fov,
            r.near() == S::lit(1),
            r.far() == S::lit(1000),
            r.aspect() == S::lit(1),
            r.focal() == focal,
            r.projection() == projection_matrix(S::lit(1), focal, S::lit(1), S::lit(1000)),
    {
        Renderer::new(fov, S::from_i32(1), S::from_i32(1000), S::from_i32(1), focal)
    }

    /// The field of view, in radians.
    #[verifier::when_used_as_spec(spec_fov)]
    pub fn fov(&self) -> (r: S)
        ensures
            r == self.spec_fov(),
    {
        self.fov
    }

    /// The distance of the near clip plane.
    #[verifier::when_used_as_spec(spec_near)]
    pub fn near(&self) -> (r: S)
        ensures
            r == self.spec_near(),
    {
        self.near
    }

    /// The distance of the far clip plane.
    #[verifier::when_used_as_spec(spec_far)]
    pub fn far(&self) -> (r: S)
        ensures
            r == self.spec_far(),
    {
        self.far
    }

    /// The aspect ratio.
    #[verifier::when_used_as_spec(spec_aspect)]
    pub fn aspect(&self) -> (r: S)
        ensures
            r == self.spec_aspect(),
    {
        self.aspect
    }

    /// The focal length.
    #[verifier::when_used_as_spec(spec_focal)]
    pub fn focal(&self) -> (r: S)
        ensures
            r == self.spec_focal(),
    {
        self.focal
    }

    /// The projection matrix.
    #[verifier::when_used_as_spec(spec_projection)]
    pub fn projection(&self) -> (r: Mat4<S>)
        ensures
            r == self.spec_projection(),
            r == projection_matrix(self.aspect(), self.focal(), self.near(), self.far()),
    {
        proof {
            use_type_invariant(self);
        }
        self.projection
    }

    /// Sets the aspect ratio, and with it the first entry of the projection:
    /// the product of the aspect ratio and the focal length. Nothing else
    /// changes.
    pub fn update_aspect_ratio(&mut self, new_aspect: S)
        ensures
            final(self).aspect() == new_aspect,
            final(self).fov() == old(self).fov(),
            final(self).near() == old(self).near(),
            final(self).far() == old(self).far(),
            final(self).focal() == old(self).focal(),
            final(self).projection().elems@ == old(self).projection().elems@.update(
                0,
                new_aspect.product(old(self).focal()),
            ),
    {
        proof {
            use_type_invariant(&*self);
        }
        let mut cells: [S; 16] = self.projection.elems;
        cells[0] = new_aspect.times(self.focal);
        assert(cells =~= projection_matrix(new_aspect, self.focal, self.near, self.far).elems);
        *self = Renderer {
            fov: self.fov,
            near: self.near,
            far: self.far,
            aspect: new_aspect,
            focal: self.focal,
            projection: Mat4 { elems: cells },
        };
    }

    /// The segments that the edges of `objects` give for `camera`: the
    /// entities in their order, and the edges of each in its order.
    pub fn render_frame(&self, objects: &Vec<GameObject<S>>, camera: &Camera<S>) -> (lines: Vec<
        Line<S>,
    >)
        ensures
            lines@ == self.frame(objects@, *camera),
    {
        let mut lines: Vec<Line<S>> = Vec::new();
        let view: Mat4<S> = camera.world_to_camera();
        let one: S = S::from_i32(1);
        let mut n: usize = 0;
        while n < objects.len()
            invariant
                n <= objects.len(),
                view == camera.view_matrix(),
                one == S::lit(1),
                lines@ == self.frame(objects@.take(n as int), *camera),
            decreases objects.len() - n,
        {
            let object: &GameObject<S> = &objects[n];
            let points: &Vec<Vec3<S>> = object.mesh.points();
            let connections: &Vec<usize> = object.mesh.connections();
            let shift: Mat4<S> = translation_matrix(
                object.position[0],
                object.position[1],
                object.position[2],
            );
            let mut projected: Vec<Vec4<S>> = Vec::new();
            let mut i: usize = 0;
            while i < points.len()
                invariant
                    i <= points.len(),
                    points@ == object.mesh.point_seq(),
                    view == camera.view_matrix(),
                    one == S::lit(1),
                    shift == translation(
                        object.position.elems[0],
                        object.position.elems[1],
                        object.position.elems[2],
                    ),
                    projected@.len() == i,
                    forall|j: int|
                        0 <= j < i ==> projected@[j] == self.project(*object, *camera, points@[j]),
                decreases points.len() - i,
            {
                let point: &Vec3<S> = &points[i];
                let mut current: Vec4<S> = Vec4 { elems: [point[0], point[1], point[2], one] };
                current = object.orientation * current;
                current = shift * current;
                current = view * current;
                current = self.projection() * current;
                current = current / current[3];
                projected.push(current);
                i += 1;
            }
            let ghost before = lines@;
            let count: usize = connections.len() / 2;
            let mut k: usize = 0;
            while k < count
                invariant
                    k <= count,
                    count == connections@.len() / 2,
                    connections@.len() <= usize::MAX,
                    points@ == object.mesh.point_seq(),
                    connections@ == object.mesh.connection_seq(),
                    well_connected(points@.len(), connections@),
                    projected@.len() == points@.len(),
                    forall|j: int|
                        0 <= j < projected@.len() ==> projected@[j] == self.project(
                            *object,
                            *camera,
                            points@[j],
                        ),
                    lines@ == before + self.outline(*object, *camera).take(k as int),
                decreases count - k,
            {
                let idx1: usize = connections[2 * k];
                let idx2: usize = connections[2 * k + 1];
                let tail: &Vec4<S> = &projected[idx1];
                let head: &Vec4<S> = &projected[idx2];
                lines.push(
                    Line { tail_x: tail[0], tail_y: tail[1], head_x: head[0], head_y: head[1] },
                );
                proof {
                    let outline = self.outline(*object, *camera);
                    assert(outline.take(k as int + 1) =~= outline.take(k as int).push(
                        self.edge(*object, *camera, k as int),
                    ));
                }
                k += 1;
            }
            proof {
                let outline = self.outline(*object, *camera);
                assert(outline.take(count as int) =~= outline);
                assert(objects@.take(n as int + 1).drop_last() =~= objects@.take(n as int));
                assert(objects@.take(n as int + 1).last() == *object);
            }
            n += 1;
        }
        proof {
            assert(objects@.take(objects@.len() as int) =~= objects@);
        }
        lines
    }
}


} // verus!
