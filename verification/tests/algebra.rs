use wireframe::matrix::Mat3;
use wireframe::matrix::Mat4;
use wireframe::scalar::Scalar;
use wireframe::transform::translation_matrix;
use wireframe::transform::x_rotation_matrix;
use wireframe::transform::y_rotation_matrix;
use wireframe::transform::z_rotation_matrix;
use wireframe::vector::Vec3;
use wireframe::vector::Vec4;

#[derive(Clone, Copy, Debug, PartialEq)]
struct Real(f64);

impl Scalar for Real {
    fn lit(v: i32) -> Self {
        Real(f64::from(v))
    }
    fn sum(self, rhs: Self) -> Self {
        Real(self.0 + rhs.0)
    }
    fn difference(self, rhs: Self) -> Self {
        Real(self.0 - rhs.0)
    }
    fn product(self, rhs: Self) -> Self {
        Real(self.0 * rhs.0)
    }
    fn quotient(self, rhs: Self) -> Self {
        Real(self.0 / rhs.0)
    }
    fn negation(self) -> Self {
        Real(-self.0)
    }
    fn from_i32(v: i32) -> Self {
        Real(f64::from(v))
    }
    fn plus(self, rhs: Self) -> Self {
        Real(self.0 + rhs.0)
    }
    fn minus(self, rhs: Self) -> Self {
        Real(self.0 - rhs.0)
    }
    fn times(self, rhs: Self) -> Self {
        Real(self.0 * rhs.0)
    }
    fn over(self, rhs: Self) -> Self {
        Real(self.0 / rhs.0)
    }
    fn negated(self) -> Self {
        Real(-self.0)
    }
}

const EPSILON: f64 = 1e-9;

fn v3(x: f64, y: f64, z: f64) -> Vec3<Real> {
    Vec3::new(Real(x), Real(y), Real(z))
}

fn v4(x: f64, y: f64, z: f64, w: f64) -> Vec4<Real> {
    Vec4::new(Real(x), Real(y), Real(z), Real(w))
}

fn m3(a: [f64; 9]) -> Mat3<Real> {
    Mat3::new(a.map(Real))
}

fn m4(a: [f64; 16]) -> Mat4<Real> {
    Mat4::new(a.map(Real))
}

fn raw3(v: Vec3<Real>) -> [f64; 3] {
    v.elems.map(|x| x.0)
}

fn raw4(v: Vec4<Real>) -> [f64; 4] {
    v.elems.map(|x| x.0)
}

fn raw9(m: Mat3<Real>) -> [f64; 9] {
    m.elems.map(|x| x.0)
}

fn raw16(m: Mat4<Real>) -> [f64; 16] {
    m.elems.map(|x| x.0)
}

fn close_to_identity(m: Mat4<Real>) -> bool {
    let e = raw16(m);
    (0..16).all(|k| {
        let want = if k / 4 == k % 4 { 1.0 } else { 0.0 };
        (e[k] - want).abs() < EPSILON
    })
}

fn rotation(axis: usize, theta: f64) -> Mat4<Real> {
    let c = Real(theta.cos());
    let s = Real(theta.sin());
    match axis {
        0 => x_rotation_matrix(c, s),
        1 => y_rotation_matrix(c, s),
        _ => z_rotation_matrix(c, s),
    }
}

#[test]
fn vec3_new_and_index() {
    let v = v3(1.5, -2.0, 3.25);
    assert_eq!(raw3(v), [1.5, -2.0, 3.25]);
    assert_eq!(v[0], Real(1.5));
    assert_eq!(v[1], Real(-2.0));
    assert_eq!(v[2], Real(3.25));
}

#[test]
fn vec3_default_is_zero() {
    assert_eq!(raw3(Vec3::<Real>::default()), [0.0, 0.0, 0.0]);
}

#[test]
fn vec4_default_has_weight_one() {
    assert_eq!(raw4(Vec4::<Real>::default()), [0.0, 0.0, 0.0, 1.0]);
}

#[test]
fn vec4_new_and_index() {
    let v = v4(1.0, 2.0, 3.0, 4.0);
    assert_eq!(v[3], Real(4.0));
    assert_eq!(raw4(v), [1.0, 2.0, 3.0, 4.0]);
}

#[test]
fn vec3_sum_and_difference() {
    let a = v3(1.0, 2.0, 3.0);
    let b = v3(4.0, 6.0, 8.5);
    assert_eq!(raw3(a + b), [5.0, 8.0, 11.5]);
    assert_eq!(raw3(a - b), [-3.0, -4.0, -5.5]);
}

#[test]
fn vec4_sum_and_difference() {
    let a = v4(1.0, 2.0, 3.0, 1.0);
    let b = v4(4.0, 6.0, 8.5, 1.0);
    assert_eq!(raw4(a + b), [5.0, 8.0, 11.5, 2.0]);
    assert_eq!(raw4(a - b), [-3.0, -4.0, -5.5, 0.0]);
}

#[test]
fn vec3_scale_and_divide() {
    let a = v3(1.0, -2.0, 3.0);
    assert_eq!(raw3(a * Real(2.5)), [2.5, -5.0, 7.5]);
    assert_eq!(raw3(a / Real(2.0)), [0.5, -1.0, 1.5]);
}

#[test]
fn vec4_scale_and_divide() {
    let a = v4(1.0, -2.0, 3.0, 4.0);
    assert_eq!(raw4(a * Real(2.0)), [2.0, -4.0, 6.0, 8.0]);
    assert_eq!(raw4(a / Real(4.0)), [0.25, -0.5, 0.75, 1.0]);
}

#[test]
fn division_by_zero_is_not_trapped() {
    let a = v3(1.0, -1.0, 0.0) / Real(0.0);
    assert_eq!(a[0].0, f64::INFINITY);
    assert_eq!(a[1].0, f64::NEG_INFINITY);
    assert!(a[2].0.is_nan());
}

#[test]
fn vec3_dot() {
    assert_eq!(v3(1.0, 2.0, 3.0).dot(v3(4.0, 5.0, 6.0)), Real(32.0));
}

#[test]
fn vec4_dot() {
    assert_eq!(v4(1.0, 2.0, 3.0, 4.0).dot(v4(5.0, 6.0, 7.0, 8.0)), Real(70.0));
}

#[test]
fn vec3_cross_of_axes() {
    let x = v3(1.0, 0.0, 0.0);
    let y = v3(0.0, 1.0, 0.0);
    assert_eq!(raw3(x.cross(y)), [0.0, 0.0, 1.0]);
    assert_eq!(raw3(y.cross(x)), [0.0, 0.0, -1.0]);
}

#[test]
fn vec3_cross_general() {
    let a = v3(1.0, 2.0, 3.0);
    let b = v3(4.0, 5.0, 6.0);
    assert_eq!(raw3(a.cross(b)), [-3.0, 6.0, -3.0]);
}

#[test]
fn cross_is_orthogonal_to_its_factors() {
    let pairs = [
        (v3(1.0, 2.0, 3.0), v3(4.0, 5.0, 6.0)),
        (v3(0.3, -1.7, 2.9), v3(-4.1, 0.5, 6.25)),
        (v3(1e3, 2e-3, -7.0), v3(0.125, 9.0, -3.5)),
    ];
    for (a, b) in pairs {
        let c = a.cross(b);
        assert!(c.dot(a).0.abs() < EPSILON);
        assert!(c.dot(b).0.abs() < EPSILON);
    }
}

#[test]
fn mat3_new_default_identity() {
    assert_eq!(raw9(Mat3::<Real>::default()), [0.0; 9]);
    assert_eq!(raw9(Mat3::<Real>::identity()), [1.0, 0.0, 0.0, 0.0, 1.0, 0.0, 0.0, 0.0, 1.0]);
    let m = m3([1.0, 2.0, 3.0, 4.0, 5.0, 6.0, 7.0, 8.0, 9.0]);
    assert_eq!(m[1][2], Real(6.0));
    assert_eq!(m[2].len(), 3);
}

#[test]
fn mat4_new_default_identity() {
    assert_eq!(raw16(Mat4::<Real>::default()), [0.0; 16]);
    let i = raw16(Mat4::<Real>::identity());
    for k in 0..16 {
        assert_eq!(i[k], if k / 4 == k % 4 { 1.0 } else { 0.0 });
    }
    let mut a = [0.0; 16];
    for k in 0..16 {
        a[k] = k as f64;
    }
    let m = m4(a);
    assert_eq!(m[2][3], Real(11.0));
    assert_eq!(m[3][0], Real(12.0));
    assert_eq!(m[0].len(), 4);
}

#[test]
fn mat3_scale_and_divide() {
    let m = m3([1.0, 2.0, 3.0, 4.0, 5.0, 6.0, 7.0, 8.0, 9.0]);
    assert_eq!(raw9(m * Real(2.0)), [2.0, 4.0, 6.0, 8.0, 10.0, 12.0, 14.0, 16.0, 18.0]);
    assert_eq!(raw9(m / Real(2.0)), [0.5, 1.0, 1.5, 2.0, 2.5, 3.0, 3.5, 4.0, 4.5]);
}

#[test]
fn mat4_scale_and_divide() {
    let mut a = [0.0; 16];
    for k in 0..16 {
        a[k] = k as f64;
    }
    let m = m4(a);
    let doubled = raw16(m * Real(2.0));
    let halved = raw16(m / Real(2.0));
    for k in 0..16 {
        assert_eq!(doubled[k], 2.0 * k as f64);
        assert_eq!(halved[k], k as f64 / 2.0);
    }
}

#[test]
fn mat3_times_vector() {
    let m = m3([1.0, 2.0, 3.0, 4.0, 5.0, 6.0, 7.0, 8.0, 9.0]);
    assert_eq!(raw3(m * v3(1.0, 0.0, -1.0)), [-2.0, -2.0, -2.0]);
}

#[test]
fn mat4_times_vector() {
    let m = m4([
        1.0, 2.0, 3.0, 4.0, 5.0, 6.0, 7.0, 8.0, 9.0, 10.0, 11.0, 12.0, 13.0, 14.0, 15.0, 16.0,
    ]);
    assert_eq!(raw4(m * v4(1.0, 2.0, 3.0, 4.0)), [30.0, 70.0, 110.0, 150.0]);
}

#[test]
fn mat3_times_matrix() {
    let a = m3([1.0, 2.0, 3.0, 4.0, 5.0, 6.0, 7.0, 8.0, 9.0]);
    let b = m3([9.0, 8.0, 7.0, 6.0, 5.0, 4.0, 3.0, 2.0, 1.0]);
    assert_eq!(raw9(a * b), [30.0, 24.0, 18.0, 84.0, 69.0, 54.0, 138.0, 114.0, 90.0]);
}

#[test]
fn mat4_times_matrix() {
    let a = m4([
        1.0, 2.0, 3.0, 4.0, 5.0, 6.0, 7.0, 8.0, 9.0, 10.0, 11.0, 12.0, 13.0, 14.0, 15.0, 16.0,
    ]);
    let b = m4([
        1.0, 0.0, 2.0, 0.0, 0.0, 1.0, 0.0, 2.0, 3.0, 0.0, 1.0, 0.0, 0.0, 3.0, 0.0, 1.0,
    ]);
    assert_eq!(
        raw16(a * b),
        [
            10.0, 14.0, 5.0, 8.0, 26.0, 30.0, 17.0, 20.0, 42.0, 46.0, 29.0, 32.0, 58.0, 62.0, 41.0,
            44.0,
        ]
    );
}

#[test]
fn matrix_product_is_not_commutative() {
    let turn = rotation(2, std::f64::consts::FRAC_PI_2);
    let shift = translation_matrix(Real(1.0), Real(0.0), Real(0.0));
    let p = v4(0.0, 0.0, 0.0, 1.0);
    let shifted_then_turned = raw4((turn * shift) * p);
    let turned_then_shifted = raw4((shift * turn) * p);
    assert!((shifted_then_turned[1] - 1.0).abs() < EPSILON);
    assert!(shifted_then_turned[0].abs() < EPSILON);
    assert_eq!(turned_then_shifted, [1.0, 0.0, 0.0, 1.0]);
}

#[test]
fn identity_times_vector_is_the_vector() {
    let i4: Mat4<Real> = Mat4::identity();
    for v in [v4(1.0, 2.0, 3.0, 1.0), v4(-0.5, 1e10, 3.25e-7, 0.0), v4(0.0, 0.0, 0.0, 0.0)] {
        assert_eq!(raw4(i4 * v), raw4(v));
    }
    let i3: Mat3<Real> = Mat3::identity();
    for v in [v3(1.0, 2.0, 3.0), v3(-7.5, 0.0, 1e-3)] {
        assert_eq!(raw3(i3 * v), raw3(v));
    }
}

#[test]
fn translation_layout() {
    let t = translation_matrix(Real(1.0), Real(2.0), Real(3.0));
    assert_eq!(
        raw16(t),
        [1.0, 0.0, 0.0, 1.0, 0.0, 1.0, 0.0, 2.0, 0.0, 0.0, 1.0, 3.0, 0.0, 0.0, 0.0, 1.0]
    );
    assert_eq!(raw4(t * v4(10.0, 20.0, 30.0, 1.0)), [11.0, 22.0, 33.0, 1.0]);
}

#[test]
fn rotation_layouts() {
    let c = Real(0.6);
    let s = Real(0.8);
    assert_eq!(
        raw16(x_rotation_matrix(c, s)),
        [1.0, 0.0, 0.0, 0.0, 0.0, 0.6, -0.8, 0.0, 0.0, 0.8, 0.6, 0.0, 0.0, 0.0, 0.0, 1.0]
    );
    assert_eq!(
        raw16(y_rotation_matrix(c, s)),
        [0.6, 0.0, 0.8, 0.0, 0.0, 1.0, 0.0, 0.0, -0.8, 0.0, 0.6, 0.0, 0.0, 0.0, 0.0, 1.0]
    );
    assert_eq!(
        raw16(z_rotation_matrix(c, s)),
        [0.6, -0.8, 0.0, 0.0, 0.8, 0.6, 0.0, 0.0, 0.0, 0.0, 1.0, 0.0, 0.0, 0.0, 0.0, 1.0]
    );
}

#[test]
fn rotations_are_right_handed() {
    let quarter = std::f64::consts::FRAC_PI_2;
    let about_x = raw4(rotation(0, quarter) * v4(0.0, 1.0, 0.0, 1.0));
    let about_y = raw4(rotation(1, quarter) * v4(0.0, 0.0, 1.0, 1.0));
    let about_z = raw4(rotation(2, quarter) * v4(1.0, 0.0, 0.0, 1.0));
    let want = [[0.0, 0.0, 1.0, 1.0], [1.0, 0.0, 0.0, 1.0], [0.0, 1.0, 0.0, 1.0]];
    for (got, want) in [about_x, about_y, about_z].iter().zip(want.iter()) {
        for k in 0..4 {
            assert!((got[k] - want[k]).abs() < EPSILON);
        }
    }
}

#[test]
fn rotations_are_orthonormal() {
    for axis in 0..3 {
        for theta in [0.0, 0.1, 1.0, -2.5, std::f64::consts::PI, 7.0] {
            let r = rotation(axis, theta);
            assert!(close_to_identity(r.transpose() * r));
        }
    }
}

#[test]
fn inverse_of_identity_is_identity() {
    let i: Mat4<Real> = Mat4::identity();
    assert_eq!(raw16(i.inverse()), raw16(i));
}

#[test]
fn inverse_of_a_scaling() {
    let m = m4([2.0, 0.0, 0.0, 0.0, 0.0, 4.0, 0.0, 0.0, 0.0, 0.0, 8.0, 0.0, 0.0, 0.0, 0.0, 1.0]);
    assert_eq!(
        raw16(m.inverse()),
        [0.5, 0.0, 0.0, 0.0, 0.0, 0.25, 0.0, 0.0, 0.0, 0.0, 0.125, 0.0, 0.0, 0.0, 0.0, 1.0]
    );
}

#[test]
fn inverse_of_a_translation() {
    let t = translation_matrix(Real(1.0), Real(2.0), Real(3.0));
    let back = translation_matrix(Real(-1.0), Real(-2.0), Real(-3.0));
    assert_eq!(raw16(t.inverse()), raw16(back));
}

#[test]
fn inverse_times_matrix_is_identity() {
    let samples = [
        m4([4.0, 7.0, 2.0, 3.0, 0.0, 5.0, 0.0, 1.0, 1.0, 0.0, 3.0, 0.0, 2.0, 1.0, 0.0, 6.0]),
        m4([
            1.0, 2.0, 3.0, 4.0, 2.0, 3.0, 1.0, 2.0, 1.0, 1.0, 1.0, -1.0, 1.0, 0.0, -2.0, -6.0,
        ]),
        rotation(0, 0.3) * rotation(1, -1.1) * translation_matrix(Real(5.0), Real(-2.0), Real(0.5)),
    ];
    for m in samples {
        assert!(close_to_identity(m.inverse() * m));
        assert!(close_to_identity(m * m.inverse()));
    }
}

#[test]
fn inverse_of_a_general_matrix() {
    let m = m4([1.0, 2.0, 3.0, 4.0, 2.0, 3.0, 1.0, 2.0, 1.0, 1.0, 1.0, -1.0, 1.0, 0.0, -2.0, -6.0]);
    let want = [
        22.0, -6.0, -26.0, 17.0, -17.0, 5.0, 20.0, -13.0, -1.0, 0.0, 2.0, -1.0, 4.0, -1.0, -5.0,
        3.0,
    ];
    let got = raw16(m.inverse());
    for k in 0..16 {
        assert!((got[k] - want[k]).abs() < EPSILON);
    }
}

#[test]
fn inverse_of_the_zero_matrix_is_not_finite() {
    let got = raw16(Mat4::<Real>::default().inverse());
    assert!(got.iter().all(|x| !x.is_finite()));
}

#[test]
fn transpose_mirrors_at_the_diagonal() {
    let m = m4([
        1.0, 2.0, 3.0, 4.0, 5.0, 6.0, 7.0, 8.0, 9.0, 10.0, 11.0, 12.0, 13.0, 14.0, 15.0, 16.0,
    ]);
    assert_eq!(
        raw16(m.transpose()),
        [1.0, 5.0, 9.0, 13.0, 2.0, 6.0, 10.0, 14.0, 3.0, 7.0, 11.0, 15.0, 4.0, 8.0, 12.0, 16.0]
    );
    assert_eq!(raw16(m.transpose().transpose()), raw16(m));
    let n = m3([1.0, 2.0, 3.0, 4.0, 5.0, 6.0, 7.0, 8.0, 9.0]);
    assert_eq!(raw9(n.transpose()), [1.0, 4.0, 7.0, 2.0, 5.0, 8.0, 3.0, 6.0, 9.0]);
}
