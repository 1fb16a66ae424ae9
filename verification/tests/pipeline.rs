use wireframe::entity::make_cube;
use wireframe::entity::GameObject;
use wireframe::matrix::Mat4;
use wireframe::renderer::Camera;
use wireframe::renderer::Line;
use wireframe::renderer::Renderer;
use wireframe::scalar::Scalar;
use wireframe::transform::translation_matrix;
use wireframe::transform::y_rotation_matrix;
use wireframe::transform::z_rotation_matrix;
use wireframe::vector::Vec3;
use wireframe::vector::Vec4;

#[derive(Clone, Copy, Debug, PartialEq)]
struct Real(f64);

impl Scalar for Real {
    fn lit(v: i32) -> Self {
        Real(f64::from(v))
    }
    fn sum(self, rhs: Self) -> Self {
        Real(self.0 + rhs.0)
    }
    fn difference(self, rhs: Self) -> Self {
        Real(self.0 - rhs.0)
    }
    fn product(self, rhs: Self) -> Self {
        Real(self.0 * rhs.0)
    }
    fn quotient(self, rhs: Self) -> Self {
        Real(self.0 / rhs.0)
    }
    fn negation(self) -> Self {
        Real(-self.0)
    }
    fn from_i32(v: i32) -> Self {
        Real(f64::from(v))
    }
    fn plus(self, rhs: Self) -> Self {
        Real(self.0 + rhs.0)
    }
    fn minus(self, rhs: Self) -> Self {
        Real(self.0 - rhs.0)
    }
    fn times(self, rhs: Self) -> Self {
        Real(self.0 * rhs.0)
    }
    fn over(self, rhs: Self) -> Self {
        Real(self.0 / rhs.0)
    }
    fn negated(self) -> Self {
        Real(-self.0)
    }
}

const EPSILON: f64 = 1e-9;

fn v3(x: f64, y: f64, z: f64) -> Vec3<Real> {
    Vec3::new(Real(x), Real(y), Real(z))
}

fn raw3(v: Vec3<Real>) -> [f64; 3] {
    v.elems.map(|x| x.0)
}

fn raw16(m: Mat4<Real>) -> [f64; 16] {
    m.elems.map(|x| x.0)
}

fn raw_line(l: &Line<Real>) -> [f64; 4] {
    [l.tail_x.0, l.tail_y.0, l.head_x.0, l.head_y.0]
}

fn identity() -> Mat4<Real> {
    Mat4::identity()
}

fn focal_of(fov: f64) -> f64 {
    1.0 / (fov / 2.0).tan()
}

fn default_renderer() -> Renderer<Real> {
    let fov = std::f64::consts::FRAC_PI_2;
    Renderer::default(Real(fov), Real(focal_of(fov)))
}

fn span(l: &Line<Real>) -> f64 {
    ((l.head_x.0 - l.tail_x.0).powi(2) + (l.head_y.0 - l.tail_y.0).powi(2)).sqrt()
}

#[test]
fn renderer_new_builds_the_projection() {
    let r = Renderer::new(Real(1.0), Real(2.0), Real(10.0), Real(1.5), Real(3.0));
    assert_eq!(r.fov(), Real(1.0));
    assert_eq!(r.near(), Real(2.0));
    assert_eq!(r.far(), Real(10.0));
    assert_eq!(r.aspect(), Real(1.5));
    assert_eq!(r.focal(), Real(3.0));
    assert_eq!(
        raw16(r.projection()),
        [4.5, 0.0, 0.0, 0.0, 0.0, 3.0, 0.0, 0.0, 0.0, 0.0, 1.25, -2.5, 0.0, 0.0, 1.0, 0.0]
    );
}

#[test]
fn renderer_with_equal_clip_distances_is_not_finite() {
    let r = Renderer::new(Real(1.0), Real(5.0), Real(5.0), Real(1.0), Real(1.0));
    let p = raw16(r.projection());
    assert!(!p[10].is_finite());
    assert!(!p[11].is_finite());
    assert_eq!(p[0], 1.0);
    assert_eq!(p[5], 1.0);
}

#[test]
fn renderer_default_has_the_documented_values() {
    let fov = std::f64::consts::FRAC_PI_2;
    let focal = focal_of(fov);
    let r = default_renderer();
    assert_eq!(r.fov(), Real(fov));
    assert_eq!(r.near(), Real(1.0));
    assert_eq!(r.far(), Real(1000.0));
    assert_eq!(r.aspect(), Real(1.0));
    assert_eq!(r.focal(), Real(focal));
    assert_eq!(
        raw16(r.projection()),
        [
            focal,
            0.0,
            0.0,
            0.0,
            0.0,
            focal,
            0.0,
            0.0,
            0.0,
            0.0,
            1000.0 / 999.0,
            -1000.0 / 999.0,
            0.0,
            0.0,
            1.0,
            0.0,
        ]
    );
}

#[test]
fn update_aspect_ratio_changes_one_entry() {
    let mut r = Renderer::new(Real(1.0), Real(2.0), Real(10.0), Real(1.5), Real(3.0));
    let before = raw16(r.projection());
    r.update_aspect_ratio(Real(2.0));
    let after = raw16(r.projection());
    assert_eq!(r.aspect(), Real(2.0));
    assert_eq!(after[0], 6.0);
    for k in 1..16 {
        assert_eq!(after[k], before[k]);
    }
    assert_eq!(r.fov(), Real(1.0));
    assert_eq!(r.near(), Real(2.0));
    assert_eq!(r.far(), Real(10.0));
    assert_eq!(r.focal(), Real(3.0));
}

#[test]
fn update_aspect_ratio_agrees_with_a_new_renderer() {
    let mut r = default_renderer();
    r.update_aspect_ratio(Real(16.0 / 9.0));
    let fresh =
        Renderer::new(r.fov(), Real(1.0), Real(1000.0), Real(16.0 / 9.0), r.focal());
    assert_eq!(raw16(r.projection()), raw16(fresh.projection()));
}

#[test]
fn renderer_can_be_copied() {
    let r = default_renderer();
    let mut s = r;
    s.update_aspect_ratio(Real(2.0));
    assert_eq!(r.aspect(), Real(1.0));
    assert_eq!(s.aspect(), Real(2.0));
    assert_eq!(raw16(r.clone().projection()), raw16(r.projection()));
}

#[test]
fn camera_new_and_default() {
    let turn = y_rotation_matrix(Real(0.6), Real(0.8));
    let c = Camera::new(v3(1.0, 2.0, 3.0), turn);
    assert_eq!(raw3(c.position), [1.0, 2.0, 3.0]);
    assert_eq!(raw16(c.orientation), raw16(turn));
    let d: Camera<Real> = Camera::default();
    assert_eq!(raw3(d.position), [0.0, 0.0, -200.0]);
    assert_eq!(raw16(d.orientation), raw16(identity()));
}

#[test]
fn view_matrix_transposes_the_rotation_and_negates_the_position() {
    let turn = Mat4::new(
        [1.0, 2.0, 3.0, 4.0, 5.0, 6.0, 7.0, 8.0, 9.0, 10.0, 11.0, 12.0, 13.0, 14.0, 15.0, 16.0]
            .map(Real),
    );
    let c = Camera::new(v3(20.0, 30.0, 40.0), turn);
    assert_eq!(
        raw16(c.world_to_camera()),
        [
            1.0, 5.0, 9.0, -20.0, 2.0, 6.0, 10.0, -30.0, 3.0, 7.0, 11.0, -40.0, 0.0, 0.0, 0.0,
            1.0,
        ]
    );
}

#[test]
fn an_empty_scene_gives_no_lines() {
    let r = default_renderer();
    let camera: Camera<Real> = Camera::default();
    assert!(r.render_frame(&Vec::new(), &camera).is_empty());
    let bare: GameObject<Real> = GameObject::default();
    assert!(r.render_frame(&vec![bare], &camera).is_empty());
}

#[test]
fn points_without_edges_give_no_lines() {
    let r = default_renderer();
    let camera: Camera<Real> = Camera::default();
    let object = GameObject::new(
        v3(0.0, 0.0, 0.0),
        v3(0.0, 0.0, 0.0),
        identity(),
        identity(),
        vec![v3(1.0, 2.0, 3.0)],
        vec![],
    )
    .unwrap();
    assert!(r.render_frame(&vec![object], &camera).is_empty());
}

#[test]
fn cube_before_the_default_camera() {
    let r = default_renderer();
    let camera: Camera<Real> = Camera::default();
    let lines = r.render_frame(&vec![make_cube(Real(50.0))], &camera);
    assert_eq!(lines.len(), 12);
    let focal = focal_of(std::f64::consts::FRAC_PI_2);
    let near = (focal * 25.0) / 175.0;
    let far = (focal * 25.0) / 225.0;
    assert_eq!(raw_line(&lines[0]), [-near, -near, near, -near]);
    assert_eq!(raw_line(&lines[1]), [near, -near, near, near]);
    assert_eq!(raw_line(&lines[4]), [-far, -far, far, -far]);
    assert_eq!(raw_line(&lines[8]), [-near, -near, -far, -far]);
    assert_eq!(raw_line(&lines[11]), [near, near, far, far]);
    assert!(span(&lines[0]) > span(&lines[4]));
    assert!((span(&lines[0]) - 50.0 / 175.0).abs() < EPSILON);
    assert!((span(&lines[4]) - 50.0 / 225.0).abs() < EPSILON);
    assert!(lines.iter().all(|l| raw_line(l).iter().all(|x| x.is_finite())));
}

#[test]
fn render_frame_leaves_its_inputs_and_repeats_itself() {
    let r = default_renderer();
    let camera: Camera<Real> = Camera::default();
    let objects = vec![make_cube(Real(50.0))];
    let first: Vec<[f64; 4]> = r.render_frame(&objects, &camera).iter().map(raw_line).collect();
    let second: Vec<[f64; 4]> = r.render_frame(&objects, &camera).iter().map(raw_line).collect();
    assert_eq!(first, second);
    assert_eq!(raw3(objects[0].position), [0.0, 0.0, 0.0]);
    assert_eq!(objects[0].mesh.connections().len(), 24);
}

#[test]
fn lines_come_in_the_order_of_entities_and_edges() {
    let r = Renderer::new(Real(1.0), Real(1.0), Real(10.0), Real(1.0), Real(1.0));
    let camera = Camera::new(v3(0.0, 0.0, 0.0), identity());
    let points = vec![v3(1.0, 2.0, 4.0), v3(3.0, 4.0, 2.0), v3(-2.0, 1.0, 1.0)];
    let first = GameObject::new(
        v3(0.0, 0.0, 0.0),
        v3(0.0, 0.0, 0.0),
        identity(),
        identity(),
        points.clone(),
        vec![2, 0, 0, 1, 1, 1],
    )
    .unwrap();
    let second = GameObject::new(
        v3(0.0, 0.0, 4.0),
        v3(0.0, 0.0, 0.0),
        identity(),
        identity(),
        points,
        vec![0, 2],
    )
    .unwrap();
    let lines: Vec<[f64; 4]> =
        r.render_frame(&vec![first, second], &camera).iter().map(raw_line).collect();
    assert_eq!(
        lines,
        vec![
            [-2.0, 1.0, 0.25, 0.5],
            [0.25, 0.5, 1.5, 2.0],
            [1.5, 2.0, 1.5, 2.0],
            [0.125, 0.25, -0.4, 0.2],
        ]
    );
}

#[test]
fn a_point_is_turned_before_it_is_placed() {
    let r = Renderer::new(Real(1.0), Real(1.0), Real(10.0), Real(1.0), Real(1.0));
    let camera = Camera::new(v3(0.0, 0.0, 0.0), identity());
    let quarter = z_rotation_matrix(Real(0.0), Real(1.0));
    let object = GameObject::new(
        v3(10.0, 0.0, 2.0),
        v3(0.0, 0.0, 0.0),
        quarter,
        identity(),
        vec![v3(1.0, 0.0, 0.0), v3(0.0, 0.0, 0.0)],
        vec![0, 1],
    )
    .unwrap();
    let lines = r.render_frame(&vec![object], &camera);
    assert_eq!(raw_line(&lines[0]), [5.0, 0.5, 5.0, 0.0]);
}

#[test]
fn the_camera_moves_the_world_the_other_way() {
    let r = Renderer::new(Real(1.0), Real(1.0), Real(10.0), Real(1.0), Real(1.0));
    let camera = Camera::new(v3(1.0, 2.0, -4.0), identity());
    let object = GameObject::new(
        v3(0.0, 0.0, 0.0),
        v3(0.0, 0.0, 0.0),
        identity(),
        identity(),
        vec![v3(1.0, 2.0, 0.0), v3(5.0, -2.0, 4.0)],
        vec![0, 1],
    )
    .unwrap();
    let lines = r.render_frame(&vec![object], &camera);
    assert_eq!(raw_line(&lines[0]), [0.0, 0.0, 0.5, -0.5]);
}

#[test]
fn aspect_ratio_scales_x_only() {
    let mut r = Renderer::new(Real(1.0), Real(1.0), Real(10.0), Real(1.0), Real(1.0));
    let camera = Camera::new(v3(0.0, 0.0, 0.0), identity());
    let object = GameObject::new(
        v3(0.0, 0.0, 0.0),
        v3(0.0, 0.0, 0.0),
        identity(),
        identity(),
        vec![v3(1.0, 2.0, 4.0), v3(3.0, 4.0, 2.0)],
        vec![0, 1],
    )
    .unwrap();
    let objects = vec![object];
    assert_eq!(raw_line(&r.render_frame(&objects, &camera)[0]), [0.25, 0.5, 1.5, 2.0]);
    r.update_aspect_ratio(Real(2.0));
    assert_eq!(raw_line(&r.render_frame(&objects, &camera)[0]), [0.5, 0.5, 3.0, 2.0]);
}

#[test]
fn a_point_in_the_plane_of_the_camera_is_not_filtered() {
    let r = Renderer::new(Real(1.0), Real(1.0), Real(10.0), Real(1.0), Real(1.0));
    let camera = Camera::new(v3(0.0, 0.0, 0.0), identity());
    let object = GameObject::new(
        v3(0.0, 0.0, 0.0),
        v3(0.0, 0.0, 0.0),
        identity(),
        identity(),
        vec![v3(1.0, 1.0, 0.0), v3(1.0, 1.0, 1.0)],
        vec![0, 1],
    )
    .unwrap();
    let lines = r.render_frame(&vec![object], &camera);
    assert_eq!(lines.len(), 1);
    assert!(!lines[0].tail_x.0.is_finite());
    assert!(!lines[0].tail_y.0.is_finite());
    assert_eq!(lines[0].head_x, Real(1.0));
}

#[test]
fn ticking_moves_the_picture() {
    let r = Renderer::new(Real(1.0), Real(1.0), Real(10.0), Real(1.0), Real(1.0));
    let camera = Camera::new(v3(0.0, 0.0, 0.0), identity());
    let object = GameObject::new(
        v3(0.0, 0.0, 2.0),
        v3(0.0, 0.0, 2.0),
        identity(),
        z_rotation_matrix(Real(0.0), Real(1.0)),
        vec![v3(1.0, 0.0, 0.0), v3(0.0, 0.0, 0.0)],
        vec![0, 1],
    )
    .unwrap();
    let mut objects = vec![object];
    assert_eq!(raw_line(&r.render_frame(&objects, &camera)[0]), [0.5, 0.0, 0.0, 0.0]);
    objects[0].tick();
    assert_eq!(raw_line(&r.render_frame(&objects, &camera)[0]), [0.0, 0.25, 0.0, 0.0]);
}

#[test]
fn projection_can_be_undone() {
    let fov: f64 = 1.2;
    let r = Renderer::new(Real(fov), Real(0.5), Real(300.0), Real(1.6), Real(focal_of(fov)));
    let turn = y_rotation_matrix(Real(0.4f64.cos()), Real(0.4f64.sin()));
    let camera = Camera::new(v3(3.0, -2.0, -50.0), turn);
    let attitude = z_rotation_matrix(Real(1.1f64.cos()), Real(1.1f64.sin()))
        * y_rotation_matrix(Real(0.7f64.cos()), Real(0.7f64.sin()));
    let place = translation_matrix(Real(4.0), Real(5.0), Real(6.0));
    let view = camera.world_to_camera();
    let mut rotation = view.transpose();
    rotation.elems[12] = Real(0.0);
    rotation.elems[13] = Real(0.0);
    rotation.elems[14] = Real(0.0);
    let back_to_world = rotation * translation_matrix(Real(3.0), Real(-2.0), Real(-50.0));
    for p in [v3(1.0, 2.0, 3.0), v3(-7.5, 0.25, 12.0), v3(0.0, 0.0, 0.0)] {
        let local = Vec4::new(p[0], p[1], p[2], Real(1.0));
        let clip = r.projection() * (view * (place * (attitude * local)));
        let weight = clip[3];
        assert!(weight.0 != 0.0);
        let seen = clip / weight;
        let again = seen * weight;
        let in_camera = r.projection().inverse() * again;
        let in_world = back_to_world * in_camera;
        let in_world_by_inverse = view.inverse() * in_camera;
        let recovered = attitude.inverse() * (place.inverse() * in_world);
        for k in 0..3 {
            assert!((recovered[k].0 - p[k].0).abs() < EPSILON);
            assert!((in_world[k].0 - in_world_by_inverse[k].0).abs() < EPSILON);
        }
        assert!((recovered[3].0 - 1.0).abs() < EPSILON);
    }
}
