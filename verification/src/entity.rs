//! The things that are drawn: a mesh of points joined by edges, placed and
//! moved as a rigid body.

use vstd::prelude::*;
use crate::scalar::Scalar;
use crate::vector::Vec3;
use crate::matrix::Mat4;

verus! {

/// Why a list of connections does not fit a list of points.
#[derive(Clone, Copy, Debug, PartialEq, Eq, Structural)]
pub enum GeometryError {
    /// The list has `len` entries, an odd number: the last edge has no head.
    OddConnections { len: usize },
    /// The entry at `at` is the first that names a point that is not there.
    MissingPoint { at: usize },
}

/// Whether `connections` is a list of edges between `count` points: an even
/// number of entries, each the index of a point.
pub open spec fn well_connected(count: nat, connections: Seq<usize>) -> bool {
    &&& connections.len() % 2 == 0
    &&& forall|k: int| 0 <= k < connections.len() ==> connections[k] < count
}

/// Whether `fault` is what is wrong with `connections` for `count` points.
/// An odd length comes before any index, and of the indices the first that names
/// no point.
pub open spec fn fault_is(count: nat, connections: Seq<usize>, fault: GeometryError) -> bool {
    match fault {
        GeometryError::OddConnections { len } => {
            &&& len == connections.len()
            &&& len % 2 == 1
        },
        GeometryError::MissingPoint { at } => {
            &&& connections.len() % 2 == 0
            &&& at < connections.len()
            &&& connections[at as int] >= count
            &&& forall|k: int| 0 <= k < at ==> connections[k] < count
        },
    }
}

/// Tests a list of connections against the number of points.
///
/// Returns `Ok` exactly for a list that is well connected, and otherwise the
/// one fault that `fault_is` describes.
pub fn check_connections(count: usize, connections: &Vec<usize>) -> (r: Result<(), GeometryError>)
    ensures
        r is Ok <==> well_connected(count as nat, connections@),
        r is Err ==> fault_is(count as nat, connections@, r->Err_0),
{
    let len: usize = connections.len();
    if len % 2 != 0 {
        return Err(GeometryError::OddConnections { len });
    }
    let mut k: usize = 0;
    while k < len
        invariant
            len == connections@.len(),
            len % 2 == 0,
            k <= len,
            forall|j: int| 0 <= j < k ==> connections@[j] < count,
        decreases len - k,
    {
        if connections[k] >= count {
            return Err(GeometryError::MissingPoint { at: k });
        }
        k += 1;
    }
    Ok(())
}

/// Points in an entity's own frame, and the edges between them.
///
/// The edges are a flat list of indices into the points, two for each edge:
/// tail, then head. A mesh is well connected from the moment it is made.
#[derive(Debug)]
pub struct Mesh<S: Scalar> {
    points: Vec<Vec3<S>>,
    connections: Vec<usize>,
}

impl<S: Scalar> Mesh<S> {
    /// Every mesh is well connected.
    #[verifier::type_invariant]
    spec fn sound(self) -> bool {
        well_connected(self.points@.len(), self.connections@)
    }

    /// The points, in the order in which the edges count them.
    pub closed spec fn point_seq(self) -> Seq<Vec3<S>> {
        self.points@
    }

    /// The edges, as indices into the points: tail, head, tail, head.
    pub closed spec fn connection_seq(self) -> Seq<usize> {
        self.connections@
    }

    /// The mesh with the given points and edges, or the reason why the edges
    /// do not fit the points.
    pub fn new(points: Vec<Vec3<S>>, connections: Vec<usize>) -> (r: Result<Mesh<S>, GeometryError>)
        ensures
            r is Ok <==> well_connected(points@.len(), connections@),
            r is Ok ==> r->Ok_0.point_seq() == points@ && r->Ok_0.connection_seq()
                == connections@,
            r is Err ==> fault_is(points@.len(), connections@, r->Err_0),
    {
        match check_connections(points.len(), &connections) {
            Ok(()) => Ok(Mesh { points, connections }),
            Err(fault) => Err(fault),
        }
    }

    /// The mesh without points.
    pub fn empty() -> (r: Mesh<S>)
        ensures
            r.point_seq() == Seq::<Vec3<S>>::empty(),
            r.connection_seq() == Seq::<usize>::empty(),
    {
        Mesh { points: Vec::new(), connections: Vec::new() }
    }

    /// The points.
    pub fn points(&self) -> (r: &Vec<Vec3<S>>)
        ensures
            r@ == self.point_seq(),
            well_connected(self.point_seq().len(), self.connection_seq()),
    {
        proof {
            use_type_invariant(self);
        }
        &self.points
    }

    /// The edges.
    pub fn connections(&self) -> (r: &Vec<usize>)
        ensures
            r@ == self.connection_seq(),
            well_connected(self.point_seq().len(), self.connection_seq()),
    {
        proof {
            use_type_invariant(self);
        }
        &self.connections
    }
}

/// A rigid body: a mesh with a place, a velocity, an attitude and a spin.
///
/// The spin is the rotation that one tick adds, not a rate.
#[derive(Debug)]
pub struct GameObject<S: Scalar> {
    pub position: Vec3<S>,
    pub velocity: Vec3<S>,
    pub orientation: Mat4<S>,
    pub angular_velocity: Mat4<S>,
    pub mesh: Mesh<S>,
}

impl<S: Scalar> GameObject<S> {
    /// The body one tick later: moved by its velocity, and its spin applied
    /// from the left to its attitude.
    pub open spec fn ticked(self) -> GameObject<S> {
        GameObject {
            position: self.position.sum(self.velocity),
            orientation: self.angular_velocity.compose(self.orientation),
            ..self
        }
    }

    /// The body `n` ticks later.
    pub open spec fn after(self, n: nat) -> GameObject<S>
        decreases n,
    {
        if n == 0 {
            self
        } else {
            self.after((n - 1) as nat).ticked()
        }
    }

    /// The body with the given state and mesh, or the reason why the
    /// connections do not fit the points.
    pub fn new(
        position: Vec3<S>,
        velocity: Vec3<S>,
        orientation: Mat4<S>,
        angular_velocity: Mat4<S>,
        points: Vec<Vec3<S>>,
        connections: Vec<usize>,
    ) -> (r: Result<GameObject<S>, GeometryError>)
        ensures
            r is Ok <==> well_connected(points@.len(), connections@),
            r is Ok ==> {
                &&& r->Ok_0.position == position
                &&& r->Ok_0.velocity == velocity
                &&& r->Ok_0.orientation == orientation
                &&& r->Ok_0.angular_velocity == angular_velocity
                &&& r->Ok_0.mesh.point_seq() == points@
                &&& r->Ok_0.mesh.connection_seq() == connections@
            },
            r is Err ==> fault_is(points@.len(), connections@, r->Err_0),
    {
        match Mesh::new(points, connections) {
            Ok(mesh) => Ok(GameObject { position, velocity, orientation, angular_velocity, mesh }),
            Err(fault) => Err(fault),
        }
    }

    /// A body without points, at rest at the origin.
    pub fn default() -> (r: GameObject<S>)
        ensures
            r.position == (Vec3 { elems: [S::lit(0), S::lit(0), S::lit(0)] }),
            r.velocity == r.position,
            r.orientation == Mat4::<S>::identity_spec(),
            r.angular_velocity == Mat4::<S>::identity_spec(),
            r.mesh.point_seq() == Seq::<Vec3<S>>::empty(),
            r.mesh.connection_seq() == Seq::<usize>::empty(),
    {
        GameObject {
            position: Vec3::default(),
            velocity: Vec3::default(),
            orientation: Mat4::identity(),
            angular_velocity: Mat4::identity(),
            mesh: Mesh::empty(),
        }
    }

    /// The body that the file of the given name holds. No file is read yet:
    /// every name gives the body without points.
    pub fn from_file(filename: String) -> (r: GameObject<S>)
        ensures
            r.position == (Vec3 { elems: [S::lit(0), S::lit(0), S::lit(0)] }),
            r.velocity == r.position,
            r.orientation == Mat4::<S>::identity_spec(),
            r.angular_velocity == Mat4::<S>::identity_spec(),
            r.mesh.point_seq() == Seq::<Vec3<S>>::empty(),
            r.mesh.connection_seq() == Seq::<usize>::empty(),
    {
        GameObject::default()
    }

    /// Advances the body by one tick.
    pub fn tick(&mut self)
        ensures
            *final(self) == old(self).ticked(),
    {
        self.position = self.position + self.velocity;
        self.orientation = self.angular_velocity * self.orientation;
    }
}

/// The corners of the cube of half side `h` about the origin: corner `i` has
/// `+h` along x, y, z where bit 0, 1, 2 of `i` is set, and `-h` elsewhere.
pub open spec fn cube_points<S: Scalar>(h: S) -> Seq<Vec3<S>> {
    let n = h.negation();
    seq![
        Vec3 { elems: [n, n, n] },
        Vec3 { elems: [h, n, n] },
        Vec3 { elems: [n, h, n] },
        Vec3 { elems: [h, h, n] },
        Vec3 { elems: [n, n, h] },
        Vec3 { elems: [h, n, h] },
        Vec3 { elems: [n, h, h] },
        Vec3 { elems: [h, h, h] },
    ]
}

/// The twelve edges of the cube: the square at `-h` along z, the square at
/// `+h`, and the four edges between them.
pub open spec fn cube_connections() -> Seq<usize> {
    seq![0, 1, 1, 3, 3, 2, 2, 0, 4, 5, 5, 7, 7, 6, 6, 4, 0, 4, 1, 5, 2, 6, 3, 7]
}

/// A cube of the given side about the origin, at rest.
pub fn make_cube<S: Scalar>(side_length: S) -> (r: GameObject<S>)
    ensures
        r.position == (Vec3 { elems: [S::lit(0), S::lit(0), S::lit(0)] }),
        r.velocity == r.position,
        r.orientation == Mat4::<S>::identity_spec(),
        r.angular_velocity == Mat4::<S>::identity_spec(),
        r.mesh.point_seq() == cube_points(side_length.quotient(S::lit(2))),
        r.mesh.connection_seq() == cube_connections(),
{
    let hf: S = side_length.over(S::from_i32(2));
    let nf: S = hf.negated();
    let points: Vec<Vec3<S>> = vec![
        Vec3::new(nf, nf, nf),
        Vec3::new(hf, nf, nf),
        Vec3::new(nf, hf, nf),
        Vec3::new(hf, hf, nf),
        Vec3::new(nf, nf, hf),
        Vec3::new(hf, nf, hf),
        Vec3::new(nf, hf, hf),
        Vec3::new(hf, hf, hf),
    ];
    let connections: Vec<usize> = vec![
        0, 1, 1, 3, 3, 2, 2, 0, 4, 5, 5, 7, 7, 6, 6, 4, 0, 4, 1, 5, 2, 6, 3, 7,
    ];
    assert(points@ =~= cube_points(hf));
    assert(connections@ =~= cube_connections());
    GameObject {
        position: Vec3::default(),
        velocity: Vec3::default(),
        orientation: Mat4::identity(),
        angular_velocity: Mat4::identity(),
        mesh: Mesh { points, connections },
    }
}

} // verus!
