use wireframe::matrix::Mat4;
use wireframe::modular::Modular;
use wireframe::scalar::Scalar;
use wireframe::scene::flatten;
use wireframe::scene::GlobalWrapper;
use wireframe::scene::ShapeKind;
use wireframe::renderer::Line;
use wireframe::transform::x_rotation_matrix;
use wireframe::transform::y_rotation_matrix;
use wireframe::transform::z_rotation_matrix;

#[derive(Clone, Copy, Debug, PartialEq)]
struct Real(f64);

impl Scalar for Real {
    fn lit(v: i32) -> Self {
        Real(f64::from(v))
    }
    fn sum(self, rhs: Self) -> Self {
        Real(self.0 + rhs.0)
    }
    fn difference(self, rhs: Self) -> Self {
        Real(self.0 - rhs.0)
    }
    fn product(self, rhs: Self) -> Self {
        Real(self.0 * rhs.0)
    }
    fn quotient(self, rhs: Self) -> Self {
        Real(self.0 / rhs.0)
    }
    fn negation(self) -> Self {
        Real(-self.0)
    }
    fn from_i32(v: i32) -> Self {
        Real(f64::from(v))
    }
    fn plus(self, rhs: Self) -> Self {
        Real(self.0 + rhs.0)
    }
    fn minus(self, rhs: Self) -> Self {
        Real(self.0 - rhs.0)
    }
    fn times(self, rhs: Self) -> Self {
        Real(self.0 * rhs.0)
    }
    fn over(self, rhs: Self) -> Self {
        Real(self.0 / rhs.0)
    }
    fn negated(self) -> Self {
        Real(-self.0)
    }
}

fn raw16(m: Mat4<Real>) -> [f64; 16] {
    m.elems.map(|x| x.0)
}

fn default_scene() -> GlobalWrapper<Real> {
    let fov = std::f64::consts::FRAC_PI_2;
    GlobalWrapper::new(Real(fov), Real(1.0 / (fov / 2.0).tan()))
}

fn add(scene: &mut GlobalWrapper<Real>, name: &str, side: f64, x_r: f64, y_r: f64, z_r: f64) {
    scene.add_shape(
        &name.to_string(),
        Real(side),
        Real(x_r.cos()),
        Real(x_r.sin()),
        Real(y_r.cos()),
        Real(y_r.sin()),
        Real(z_r.cos()),
        Real(z_r.sin()),
    );
}

#[test]
fn shape_names() {
    assert_eq!(ShapeKind::from_name(&"cube".to_string()), Some(ShapeKind::Cube));
    assert_eq!(ShapeKind::from_name(&"Cube".to_string()), None);
    assert_eq!(ShapeKind::from_name(&"cub".to_string()), None);
    assert_eq!(ShapeKind::from_name(&"cubes".to_string()), None);
    assert_eq!(ShapeKind::from_name(&"".to_string()), None);
    assert_eq!(ShapeKind::from_name(&"tesseract".to_string()), None);
}

#[test]
fn flatten_puts_four_numbers_for_each_line() {
    let lines = vec![
        Line { tail_x: Real(1.0), tail_y: Real(2.0), head_x: Real(3.0), head_y: Real(4.0) },
        Line { tail_x: Real(5.0), tail_y: Real(6.0), head_x: Real(7.0), head_y: Real(8.0) },
    ];
    let flat: Vec<f64> = flatten(&lines).iter().map(|x| x.0).collect();
    assert_eq!(flat, vec![1.0, 2.0, 3.0, 4.0, 5.0, 6.0, 7.0, 8.0]);
    assert!(flatten(&Vec::<Line<Real>>::new()).is_empty());
}

#[test]
fn a_new_scene_is_empty() {
    let scene = default_scene();
    assert!(scene.objects().is_empty());
    assert!(scene.get_lines().is_empty());
    assert_eq!(scene.get_lines_length(), 0);
    assert_eq!(scene.camera().position.elems, [Real(0.0), Real(0.0), Real(-200.0)]);
    assert_eq!(scene.renderer().near(), Real(1.0));
    assert_eq!(scene.renderer().far(), Real(1000.0));
    assert_eq!(scene.renderer().aspect(), Real(1.0));
    assert_eq!(scene.renderer().fov(), Real(std::f64::consts::FRAC_PI_2));
}

#[test]
fn add_shape_composes_the_turns_about_x_then_y_then_z() {
    let mut scene = default_scene();
    add(&mut scene, "cube", 50.0, 0.1, 0.2, 0.3);
    assert_eq!(scene.objects().len(), 1);
    let cube = &scene.objects()[0];
    assert_eq!(cube.mesh.points().len(), 8);
    assert_eq!(cube.mesh.connections().len(), 24);
    assert_eq!(cube.mesh.points()[7].elems, [Real(25.0), Real(25.0), Real(25.0)]);
    let identity: Mat4<Real> = Mat4::identity();
    let x = x_rotation_matrix(Real(0.1f64.cos()), Real(0.1f64.sin()));
    let y = y_rotation_matrix(Real(0.2f64.cos()), Real(0.2f64.sin()));
    let z = z_rotation_matrix(Real(0.3f64.cos()), Real(0.3f64.sin()));
    assert_eq!(raw16(cube.angular_velocity), raw16(z * (y * (x * identity))));
    assert_ne!(raw16(cube.angular_velocity), raw16(x * (y * (z * identity))));
    assert_eq!(raw16(cube.orientation), raw16(identity));
    assert_eq!(scene.get_lines_length(), 0);
}

#[test]
fn an_unknown_name_adds_an_entity_without_points() {
    let mut scene = default_scene();
    add(&mut scene, "tesseract", 50.0, 0.0, 0.0, 0.5);
    assert_eq!(scene.objects().len(), 1);
    assert!(scene.objects()[0].mesh.points().is_empty());
    assert!(scene.objects()[0].mesh.connections().is_empty());
    let z = z_rotation_matrix(Real(0.5f64.cos()), Real(0.5f64.sin()));
    let x0 = x_rotation_matrix(Real(1.0), Real(0.0));
    let y0 = y_rotation_matrix(Real(1.0), Real(0.0));
    let identity: Mat4<Real> = Mat4::identity();
    assert_eq!(raw16(scene.objects()[0].angular_velocity), raw16(z * (y0 * (x0 * identity))));
    scene.render_loop();
    assert_eq!(scene.get_lines_length(), 0);
}

#[test]
fn render_loop_ticks_and_renders() {
    let mut scene = default_scene();
    add(&mut scene, "cube", 50.0, 0.0, 0.0, std::f64::consts::FRAC_PI_2);
    add(&mut scene, "cube", 10.0, 0.0, 0.0, 0.0);
    let spin = raw16(scene.objects()[0].angular_velocity);
    scene.render_loop();
    assert_eq!(scene.get_lines_length(), 96);
    assert_eq!(scene.get_lines().len(), 96);
    assert_eq!(raw16(scene.objects()[0].orientation), spin);
    let want = scene.renderer().render_frame(scene.objects(), &scene.camera());
    let want: Vec<f64> = flatten(&want).iter().map(|x| x.0).collect();
    let got: Vec<f64> = scene.get_lines().iter().map(|x| x.0).collect();
    assert_eq!(got, want);
    let focal = scene.renderer().focal().0;
    let near = (focal * 5.0) / 195.0;
    assert_eq!(&got[48..52], &[-near, -near, near, -near]);
    scene.render_loop();
    assert_eq!(scene.get_lines_length(), 96);
    let twice = raw16(scene.objects()[0].orientation);
    assert!((twice[0] + 1.0).abs() < 1e-9);
    assert!((twice[5] + 1.0).abs() < 1e-9);
}

#[test]
fn update_aspect_ratio_reaches_the_renderer() {
    let mut scene = default_scene();
    add(&mut scene, "cube", 50.0, 0.0, 0.0, 0.0);
    scene.render_loop();
    let before: Vec<f64> = scene.get_lines().iter().map(|x| x.0).collect();
    let old = raw16(scene.renderer().projection());
    scene.update_aspect_ratio(Real(2.0));
    let new = raw16(scene.renderer().projection());
    assert_eq!(scene.renderer().aspect(), Real(2.0));
    assert_eq!(new[0], 2.0 * scene.renderer().focal().0);
    assert_eq!(&new[1..], &old[1..]);
    assert_eq!(scene.objects().len(), 1);
    scene.render_loop();
    let after: Vec<f64> = scene.get_lines().iter().map(|x| x.0).collect();
    for k in 0..before.len() {
        if k % 2 == 0 {
            assert!((after[k] - 2.0 * before[k]).abs() < 1e-12);
        } else {
            assert_eq!(after[k], before[k]);
        }
    }
}

#[test]
fn exact_scene() {
    let mut scene: GlobalWrapper<Modular> =
        GlobalWrapper::new(Modular::from_i32(0), Modular::from_i32(7));
    let one = Modular::from_i32(1);
    let zero = Modular::from_i32(0);
    scene.add_shape(&"cube".to_string(), Modular::from_i32(50), one, zero, one, zero, zero, one);
    scene.render_loop();
    assert_eq!(scene.get_lines_length(), 48);
    let quarter = z_rotation_matrix(zero, one);
    assert_eq!(scene.objects()[0].orientation.elems, quarter.elems);
    scene.render_loop();
    scene.render_loop();
    scene.render_loop();
    let identity: Mat4<Modular> = Mat4::identity();
    assert_eq!(scene.objects()[0].orientation.elems, identity.elems);
    assert_eq!(scene.get_lines()[4], Modular::from_i32(1));
}
