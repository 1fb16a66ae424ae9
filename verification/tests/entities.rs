use wireframe::entity::check_connections;
use wireframe::entity::make_cube;
use wireframe::entity::GameObject;
use wireframe::entity::GeometryError;
use wireframe::entity::Mesh;
use wireframe::matrix::Mat4;
use wireframe::scalar::Scalar;
use wireframe::transform::x_rotation_matrix;
use wireframe::transform::z_rotation_matrix;
use wireframe::vector::Vec3;

#[derive(Clone, Copy, Debug, PartialEq)]
struct Real(f64);

impl Scalar for Real {
    fn lit(v: i32) -> Self {
        Real(f64::from(v))
    }
    fn sum(self, rhs: Self) -> Self {
        Real(self.0 + rhs.0)
    }
    fn difference(self, rhs: Self) -> Self {
        Real(self.0 - rhs.0)
    }
    fn product(self, rhs: Self) -> Self {
        Real(self.0 * rhs.0)
    }
    fn quotient(self, rhs: Self) -> Self {
        Real(self.0 / rhs.0)
    }
    fn negation(self) -> Self {
        Real(-self.0)
    }
    fn from_i32(v: i32) -> Self {
        Real(f64::from(v))
    }
    fn plus(self, rhs: Self) -> Self {
        Real(self.0 + rhs.0)
    }
    fn minus(self, rhs: Self) -> Self {
        Real(self.0 - rhs.0)
    }
    fn times(self, rhs: Self) -> Self {
        Real(self.0 * rhs.0)
    }
    fn over(self, rhs: Self) -> Self {
        Real(self.0 / rhs.0)
    }
    fn negated(self) -> Self {
        Real(-self.0)
    }
}

const EPSILON: f64 = 1e-9;

fn v3(x: f64, y: f64, z: f64) -> Vec3<Real> {
    Vec3::new(Real(x), Real(y), Real(z))
}

fn raw3(v: Vec3<Real>) -> [f64; 3] {
    v.elems.map(|x| x.0)
}

fn raw16(m: Mat4<Real>) -> [f64; 16] {
    m.elems.map(|x| x.0)
}

fn identity() -> Mat4<Real> {
    Mat4::identity()
}

fn triangle() -> Vec<Vec3<Real>> {
    vec![v3(0.0, 0.0, 0.0), v3(1.0, 0.0, 0.0), v3(0.0, 1.0, 0.0)]
}

fn body(
    points: Vec<Vec3<Real>>,
    connections: Vec<usize>,
) -> Result<GameObject<Real>, GeometryError> {
    let rest = v3(0.0, 0.0, 0.0);
    GameObject::new(rest, rest, identity(), identity(), points, connections)
}

#[test]
fn connections_that_fit_are_accepted() {
    assert_eq!(check_connections(3, &vec![0, 1, 1, 2, 2, 0]), Ok(()));
    assert_eq!(check_connections(0, &vec![]), Ok(()));
    assert_eq!(check_connections(1, &vec![0, 0]), Ok(()));
}

#[test]
fn odd_connections_are_rejected() {
    assert_eq!(check_connections(3, &vec![0, 1, 2]), Err(GeometryError::OddConnections { len: 3 }));
    assert_eq!(check_connections(3, &vec![0]), Err(GeometryError::OddConnections { len: 1 }));
}

#[test]
fn a_missing_point_is_rejected() {
    assert_eq!(check_connections(3, &vec![0, 1, 1, 3]), Err(GeometryError::MissingPoint { at: 3 }));
    assert_eq!(check_connections(0, &vec![0, 0]), Err(GeometryError::MissingPoint { at: 0 }));
}

#[test]
fn the_first_missing_point_is_reported() {
    assert_eq!(
        check_connections(2, &vec![0, 1, 5, 1, 7, 9]),
        Err(GeometryError::MissingPoint { at: 2 })
    );
}

#[test]
fn an_odd_length_is_reported_before_an_index() {
    assert_eq!(
        check_connections(2, &vec![9, 9, 9]),
        Err(GeometryError::OddConnections { len: 3 })
    );
}

#[test]
fn mesh_new_keeps_points_and_connections() {
    let mesh = Mesh::new(triangle(), vec![0, 1, 1, 2, 2, 0]).unwrap();
    assert_eq!(mesh.connections(), &vec![0, 1, 1, 2, 2, 0]);
    assert_eq!(mesh.points().len(), 3);
    assert_eq!(raw3(mesh.points()[1]), [1.0, 0.0, 0.0]);
}

#[test]
fn mesh_new_rejects_what_does_not_fit() {
    assert_eq!(
        Mesh::new(triangle(), vec![0, 1, 2]).unwrap_err(),
        GeometryError::OddConnections { len: 3 }
    );
    assert_eq!(
        Mesh::new(triangle(), vec![0, 1, 2, 3]).unwrap_err(),
        GeometryError::MissingPoint { at: 3 }
    );
}

#[test]
fn mesh_empty_has_nothing() {
    let mesh: Mesh<Real> = Mesh::empty();
    assert!(mesh.points().is_empty());
    assert!(mesh.connections().is_empty());
}

#[test]
fn game_object_new_keeps_its_arguments() {
    let spin = z_rotation_matrix(Real(0.0), Real(1.0));
    let turn = x_rotation_matrix(Real(0.6), Real(0.8));
    let object = GameObject::new(
        v3(1.0, 2.0, 3.0),
        v3(0.5, 0.0, -0.5),
        turn,
        spin,
        triangle(),
        vec![0, 1, 1, 2],
    )
    .unwrap();
    assert_eq!(raw3(object.position), [1.0, 2.0, 3.0]);
    assert_eq!(raw3(object.velocity), [0.5, 0.0, -0.5]);
    assert_eq!(raw16(object.orientation), raw16(turn));
    assert_eq!(raw16(object.angular_velocity), raw16(spin));
    assert_eq!(object.mesh.points().len(), 3);
    assert_eq!(object.mesh.connections(), &vec![0, 1, 1, 2]);
}

#[test]
fn game_object_new_rejects_odd_connections() {
    assert_eq!(
        body(triangle(), vec![0, 1, 2]).unwrap_err(),
        GeometryError::OddConnections { len: 3 }
    );
}

#[test]
fn game_object_new_rejects_a_missing_point() {
    assert_eq!(
        body(triangle(), vec![0, 1, 2, 3]).unwrap_err(),
        GeometryError::MissingPoint { at: 3 }
    );
    assert_eq!(body(vec![], vec![0, 0]).unwrap_err(), GeometryError::MissingPoint { at: 0 });
}

#[test]
fn game_object_default_is_empty_and_at_rest() {
    let object: GameObject<Real> = GameObject::default();
    assert_eq!(raw3(object.position), [0.0, 0.0, 0.0]);
    assert_eq!(raw3(object.velocity), [0.0, 0.0, 0.0]);
    assert_eq!(raw16(object.orientation), raw16(identity()));
    assert_eq!(raw16(object.angular_velocity), raw16(identity()));
    assert!(object.mesh.points().is_empty());
    assert!(object.mesh.connections().is_empty());
}

#[test]
fn from_file_reads_nothing() {
    let object: GameObject<Real> = GameObject::from_file("cube.obj".to_string());
    assert_eq!(raw3(object.position), [0.0, 0.0, 0.0]);
    assert_eq!(raw16(object.orientation), raw16(identity()));
    assert!(object.mesh.points().is_empty());
    assert!(object.mesh.connections().is_empty());
}

#[test]
fn cube_has_its_eight_corners() {
    let cube = make_cube(Real(50.0));
    let got: Vec<[f64; 3]> = cube.mesh.points().iter().map(|p| raw3(*p)).collect();
    let h = 25.0;
    assert_eq!(
        got,
        vec![
            [-h, -h, -h],
            [h, -h, -h],
            [-h, h, -h],
            [h, h, -h],
            [-h, -h, h],
            [h, -h, h],
            [-h, h, h],
            [h, h, h],
        ]
    );
}

#[test]
fn cube_has_its_twelve_edges() {
    let cube = make_cube(Real(2.0));
    assert_eq!(
        cube.mesh.connections(),
        &vec![0, 1, 1, 3, 3, 2, 2, 0, 4, 5, 5, 7, 7, 6, 6, 4, 0, 4, 1, 5, 2, 6, 3, 7]
    );
}

#[test]
fn cube_is_at_rest_at_the_origin() {
    let cube = make_cube(Real(2.0));
    assert_eq!(raw3(cube.position), [0.0, 0.0, 0.0]);
    assert_eq!(raw3(cube.velocity), [0.0, 0.0, 0.0]);
    assert_eq!(raw16(cube.orientation), raw16(identity()));
    assert_eq!(raw16(cube.angular_velocity), raw16(identity()));
}

#[test]
fn cube_edges_run_along_the_axes_once_each() {
    let cube = make_cube(Real(3.0));
    let points = cube.mesh.points();
    let connections = cube.mesh.connections();
    assert_eq!(connections.len(), 24);
    let mut degree = [0usize; 8];
    let mut seen: Vec<(usize, usize)> = Vec::new();
    for pair in connections.chunks(2) {
        let (i, j) = (pair[0], pair[1]);
        let differing = (0..3).filter(|&k| points[i][k] != points[j][k]).count();
        assert_eq!(differing, 1);
        let key = (i.min(j), i.max(j));
        assert!(!seen.contains(&key));
        seen.push(key);
        degree[i] += 1;
        degree[j] += 1;
    }
    assert_eq!(degree, [3; 8]);
}

#[test]
fn tick_adds_the_velocity_and_applies_the_spin() {
    let spin = z_rotation_matrix(Real(0.0), Real(1.0));
    let mut object = GameObject::new(
        v3(1.0, 2.0, 3.0),
        v3(0.5, -0.25, 2.0),
        identity(),
        spin,
        triangle(),
        vec![0, 1],
    )
    .unwrap();
    object.tick();
    assert_eq!(raw3(object.position), [1.5, 1.75, 5.0]);
    assert_eq!(raw3(object.velocity), [0.5, -0.25, 2.0]);
    assert_eq!(raw16(object.orientation), raw16(spin));
    assert_eq!(raw16(object.angular_velocity), raw16(spin));
    assert_eq!(object.mesh.connections(), &vec![0, 1]);
}

#[test]
fn spin_is_applied_from_the_left() {
    let spin = z_rotation_matrix(Real(0.0), Real(1.0));
    let turn = x_rotation_matrix(Real(0.0), Real(1.0));
    let mut object =
        GameObject::new(v3(0.0, 0.0, 0.0), v3(0.0, 0.0, 0.0), turn, spin, vec![], vec![]).unwrap();
    object.tick();
    assert_eq!(raw16(object.orientation), raw16(spin * turn));
    assert_ne!(raw16(object.orientation), raw16(turn * spin));
}

#[test]
fn position_after_n_ticks() {
    let start = v3(1.0, -2.0, 0.5);
    let velocity = v3(0.25, 0.5, -1.0);
    let mut object =
        GameObject::new(start, velocity, identity(), identity(), vec![], vec![]).unwrap();
    for n in 1..=100 {
        object.tick();
        let n = Real(f64::from(n));
        assert_eq!(raw3(object.position), raw3(start + velocity * n));
        assert_eq!(raw16(object.orientation), raw16(identity()));
    }
}

#[test]
fn orientation_after_n_ticks() {
    let theta: f64 = 0.1;
    let delta = z_rotation_matrix(Real(theta.cos()), Real(theta.sin()))
        * x_rotation_matrix(Real(0.3f64.cos()), Real(0.3f64.sin()));
    let start = x_rotation_matrix(Real(0.6), Real(0.8));
    let place = v3(1.0, 2.0, 3.0);
    let mut object =
        GameObject::new(place, v3(0.0, 0.0, 0.0), start, delta, vec![], vec![]).unwrap();
    let mut power = identity();
    for _ in 0..25 {
        object.tick();
        power = delta * power;
        let want = raw16(power * start);
        let got = raw16(object.orientation);
        for k in 0..16 {
            assert!((got[k] - want[k]).abs() < EPSILON);
        }
        assert_eq!(raw3(object.position), [1.0, 2.0, 3.0]);
    }
}
