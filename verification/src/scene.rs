//! A scene: entities, one camera and one renderer, and the segments of the
//! frame that was rendered last.

use vstd::prelude::*;
use crate::scalar::Scalar;
use crate::matrix::Mat4;
use crate::vector::Vec3;
use crate::entity::cube_connections;
use crate::entity::cube_points;
use crate::transform::x_rotation;
use crate::transform::y_rotation;
use crate::transform::z_rotation;
use crate::transform::x_rotation_matrix;
use crate::transform::y_rotation_matrix;
use crate::transform::z_rotation_matrix;
use crate::entity::GameObject;
use crate::entity::make_cube;
use crate::renderer::Camera;
use crate::renderer::Line;
use crate::renderer::Renderer;

verus! {

/// The shapes that have a factory.
#[derive(Clone, Copy, Debug, PartialEq, Eq, Structural)]
pub enum ShapeKind {
    Cube,
}

/// The shape that goes by `name`, if there is one.
pub open spec fn shape_named(name: Seq<char>) -> Option<ShapeKind> {
    if name == "cube"@ {
        Some(ShapeKind::Cube)
    } else {
        None
    }
}

/// The coordinates of `lines` in one row: tail x, tail y, head x, head y of
/// the first segment, then of the second, and so on.
pub open spec fn flat<S: Scalar>(lines: Seq<Line<S>>) -> Seq<S> {
    Seq::new(
        4 * lines.len(),
        |k: int|
            if k % 4 == 0 {
                lines[k / 4].tail_x
            } else if k % 4 == 1 {
                lines[k / 4].tail_y
            } else if k % 4 == 2 {
                lines[k / 4].head_x
            } else {
                lines[k / 4].head_y
            },
    )
}

/// The spin that turns about x first, then about y, then about z, each turn
/// given by its cosine and sine, on top of the spin `base`.
pub open spec fn spin_about_axes<S: Scalar>(
    base: Mat4<S>,
    x_cos: S,
    x_sin: S,
    y_cos: S,
    y_sin: S,
    z_cos: S,
    z_sin: S,
) -> Mat4<S> {
    z_rotation(z_cos, z_sin).compose(
        y_rotation(y_cos, y_sin).compose(x_rotation(x_cos, x_sin).compose(base)),
    )
}

impl ShapeKind {
    /// The shape that goes by `name`.
    pub fn from_name(name: &String) -> (r: Option<ShapeKind>)
        ensures
            r == shape_named(name@),
    {
        if *name == "cube".to_owned() {
            Some(ShapeKind::Cube)
        } else {
            None
        }
    }
}

/// The coordinates of `lines` in one row.
pub fn flatten<S: Scalar>(lines: &Vec<Line<S>>) -> (r: Vec<S>)
    ensures
        r@ == flat(lines@),
{
    let mut out: Vec<S> = Vec::new();
    let mut k: usize = 0;
    while k < lines.len()
        invariant
            k <= lines.len(),
            out@ == flat(lines@.take(k as int)),
        decreases lines.len() - k,
    {
        let line: &Line<S> = &lines[k];
        out.push(line.tail_x);
        out.push(line.tail_y);
        out.push(line.head_x);
        out.push(line.head_y);
        assert(out@ =~= flat(lines@.take(k as int + 1)));
        k += 1;
    }
    assert(lines@.take(lines@.len() as int) =~= lines@);
    out
}

/// Entities, the camera that looks at them and the renderer that draws
/// them, with the coordinates of the frame that was rendered last.
pub struct GlobalWrapper<S: Scalar> {
    lines: Vec<S>,
    renderer: Renderer<S>,
    camera: Camera<S>,
    objects: Vec<GameObject<S>>,
}

impl<S: Scalar> GlobalWrapper<S> {
    /// The coordinates of the last frame, four for each segment.
    pub closed spec fn line_seq(&self) -> Seq<S> {
        self.lines@
    }

    /// The entities, in the order in which they were added.
    pub closed spec fn object_seq(&self) -> Seq<GameObject<S>> {
        self.objects@
    }

    /// The renderer.
    pub closed spec fn spec_renderer(&self) -> Renderer<S> {
        self.renderer
    }

    /// The camera.
    pub closed spec fn spec_camera(&self) -> Camera<S> {
        self.camera
    }

    /// The shape that `add_shape` adds for a name: the named shape of the
    /// given side, or the empty entity where the name is not known; in both
    /// cases with the spin about the three axes.
    pub open spec fn shape_is(
        shape: GameObject<S>,
        name: Seq<char>,
        side_length: S,
        spin: Mat4<S>,
    ) -> bool {
        &&& shape.position == (Vec3 { elems: [S::lit(0), S::lit(0), S::lit(0)] })
        &&& shape.velocity == shape.position
        &&& shape.orientation == Mat4::<S>::identity_spec()
        &&& shape.angular_velocity == spin
        &&& match shape_named(name) {
            Some(ShapeKind::Cube) => {
                &&& shape.mesh.point_seq() == cube_points(
                    side_length.quotient(S::lit(2)),
                )
                &&& shape.mesh.connection_seq() == cube_connections()
            },
            None => {
                &&& shape.mesh.point_seq() == Seq::<Vec3<S>>::empty()
                &&& shape.mesh.connection_seq() == Seq::<usize>::empty()
            },
        }
    }

    /// The empty scene, seen by the default camera through the default
    /// renderer for the field of view `fov` and its focal length `focal`.
    pub fn new(fov: S, focal: S) -> (r: GlobalWrapper<S>)
        ensures
            r.line_seq() == Seq::<S>::empty(),
            r.object_seq() == Seq::<GameObject<S>>::empty(),
            r.camera().position == (Vec3 {
                elems: [S::lit(0), S::lit(0), S::lit(-200i32)],
            }),
            r.camera().orientation == Mat4::<S>::identity_spec(),
            r.renderer().fov() == fov,
            r.renderer().focal() == focal,
            r.renderer().near() == S::lit(1),
            r.renderer().far() == S::lit(1000),
            r.renderer().aspect() == S::lit(1),
    {
        GlobalWrapper {
            lines: Vec::new(),
            renderer: Renderer::default(fov, focal),
            camera: Camera::default(),
            objects: Vec::new(),
        }
    }

    /// The renderer.
    #[verifier::when_used_as_spec(spec_renderer)]
    pub fn renderer(&self) -> (r: Renderer<S>)
        ensures
            r == self.spec_renderer(),
    {
        self.renderer
    }

    /// The camera.
    #[verifier::when_used_as_spec(spec_camera)]
    pub fn camera(&self) -> (r: Camera<S>)
        ensures
            r == self.spec_camera(),
    {
        self.camera
    }

    /// The entities.
    pub fn objects(&self) -> (r: &Vec<GameObject<S>>)
        ensures
            r@ == self.object_seq(),
    {
        &self.objects
    }

    /// Adds the shape that goes by `object_name`, with the given side, at
    /// rest at the origin. Its spin turns about x, then y, then z, each turn
    /// given by the cosine and the sine of its angle. A name that no shape
    /// goes by adds an entity without points.
    pub fn add_shape(
        &mut self,
        object_name: &String,
        side_length: S,
        x_cos: S,
        x_sin: S,
        y_cos: S,
        y_sin: S,
        z_cos: S,
        z_sin: S,
    )
        ensures
            final(self).object_seq().len() == old(self).object_seq().len() + 1,
            final(self).object_seq().drop_last() == old(self).object_seq(),
            Self::shape_is(
                final(self).object_seq().last(),
                object_name@,
                side_length,
                spin_about_axes(
                    Mat4::<S>::identity_spec(),
                    x_cos,
                    x_sin,
                    y_cos,
                    y_sin,
                    z_cos,
                    z_sin,
                ),
            ),
            final(self).line_seq() == old(self).line_seq(),
            final(self).renderer() == old(self).renderer(),
            final(self).camera() == old(self).camera(),
    {
        let mut shape: GameObject<S> = match ShapeKind::from_name(object_name) {
            Some(ShapeKind::Cube) => make_cube(side_length),
            None => GameObject::default(),
        };
        shape.angular_velocity = x_rotation_matrix(x_cos, x_sin) * shape.angular_velocity;
        shape.angular_velocity = y_rotation_matrix(y_cos, y_sin) * shape.angular_velocity;
        shape.angular_velocity = z_rotation_matrix(z_cos, z_sin) * shape.angular_velocity;
        self.objects.push(shape);
        assert(self.objects@.drop_last() =~= old(self).objects@);
    }

    /// Sets the aspect ratio of the renderer.
    pub fn update_aspect_ratio(&mut self, value: S)
        ensures
            final(self).renderer().aspect() == value,
            final(self).renderer().fov() == old(self).renderer().fov(),
            final(self).renderer().near() == old(self).renderer().near(),
            final(self).renderer().far() == old(self).renderer().far(),
            final(self).renderer().focal() == old(self).renderer().focal(),
            final(self).renderer().projection().elems@ == old(
                self,
            ).renderer().projection().elems@.update(
                0,
                value.product(old(self).renderer().focal()),
            ),
            final(self).object_seq() == old(self).object_seq(),
            final(self).line_seq() == old(self).line_seq(),
            final(self).camera() == old(self).camera(),
    {
        self.renderer.update_aspect_ratio(value);
    }

    /// The coordinates of the last frame.
    pub fn get_lines(&self) -> (r: &Vec<S>)
        ensures
            r@ == self.line_seq(),
    {
        &self.lines
    }

    /// The number of coordinates of the last frame.
    pub fn get_lines_length(&self) -> (r: usize)
        ensures
            r == self.line_seq().len(),
    {
        self.lines.len()
    }

    /// Advances every entity by one tick and renders the frame.
    pub fn render_loop(&mut self)
        ensures
            final(self).object_seq().len() == old(self).object_seq().len(),
            forall|i: int|
                0 <= i < old(self).object_seq().len() ==> final(self).object_seq()[i] == old(
                    self,
                ).object_seq()[i].ticked(),
            final(self).line_seq() == flat(
                old(self).renderer().frame(final(self).object_seq(), old(self).camera()),
            ),
            final(self).renderer() == old(self).renderer(),
            final(self).camera() == old(self).camera(),
    {
        let mut i: usize = 0;
        while i < self.objects.len()
            invariant
                i <= self.objects@.len(),
                self.objects@.len() == old(self).objects@.len(),
                self.renderer == old(self).renderer,
                self.camera == old(self).camera,
                forall|j: int| 0 <= j < i ==> self.objects@[j] == old(self).objects@[j].ticked(),
                forall|j: int|
                    i <= j < self.objects@.len() ==> self.objects@[j] == old(self).objects@[j],
            decreases self.objects@.len() - i,
        {
            self.objects[i].tick();
            i += 1;
        }
        let lines: Vec<Line<S>> = self.renderer.render_frame(&self.objects, &self.camera);
        self.lines = flatten(&lines);
    }
}

} // verus!
