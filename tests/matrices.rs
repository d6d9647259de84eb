use cgmath::{
    frustum, ortho, perspective, Angle, Mat2, Mat3, Mat4, Matrix, Matrix2, Matrix3, MutableMatrix,
    Quat, Scalar, Vec2, Vec3, Vec4,
};

/// An `f64` with the library's scalar operations; equal within 1e-6 is
/// fuzzy-equal.
#[derive(Clone, Copy, Debug, PartialEq)]
struct F(f64);

const EPSILON: f64 = 1.0e-6;

// Outside verification the trait's spec functions are ordinary functions:
// each one gives what the operation of the same name computes.
impl Scalar for F {
    fn zero_spec() -> F {
        F(0.0)
    }
    fn one_spec() -> F {
        F(1.0)
    }
    fn add_spec(a: F, b: F) -> F {
        F(a.0 + b.0)
    }
    fn sub_spec(a: F, b: F) -> F {
        F(a.0 - b.0)
    }
    fn mul_spec(a: F, b: F) -> F {
        F(a.0 * b.0)
    }
    fn div_spec(a: F, b: F) -> F {
        F(a.0 / b.0)
    }
    fn neg_spec(a: F) -> F {
        F(-a.0)
    }
    fn abs_spec(a: F) -> F {
        F(a.0.abs())
    }
    fn gt_spec(a: F, b: F) -> bool {
        a.0 > b.0
    }
    fn ge_spec(a: F, b: F) -> bool {
        a.0 >= b.0
    }
    fn fuzzy_eq_spec(a: F, b: F) -> bool {
        (a.0 - b.0).abs() < EPSILON
    }
    fn sqrt_spec(a: F) -> F {
        F(a.0.sqrt())
    }
    fn sin_spec(a: F) -> F {
        F(a.0.sin())
    }
    fn cos_spec(a: F) -> F {
        F(a.0.cos())
    }
    fn tan_spec(a: F) -> F {
        F(a.0.tan())
    }
    fn to_radians_spec(a: F) -> F {
        F(a.0.to_radians())
    }
    fn zero() -> F {
        F::zero_spec()
    }
    fn one() -> F {
        F::one_spec()
    }
    fn add(self, o: F) -> F {
        F::add_spec(self, o)
    }
    fn sub(self, o: F) -> F {
        F::sub_spec(self, o)
    }
    fn mul(self, o: F) -> F {
        F::mul_spec(self, o)
    }
    fn div(self, o: F) -> F {
        F::div_spec(self, o)
    }
    fn neg(self) -> F {
        F::neg_spec(self)
    }
    fn abs(self) -> F {
        F::abs_spec(self)
    }
    fn gt(self, o: F) -> bool {
        F::gt_spec(self, o)
    }
    fn ge(self, o: F) -> bool {
        F::ge_spec(self, o)
    }
    fn fuzzy_eq(self, o: F) -> bool {
        F::fuzzy_eq_spec(self, o)
    }
    fn sqrt(self) -> F {
        F::sqrt_spec(self)
    }
    fn sin(self) -> F {
        F::sin_spec(self)
    }
    fn cos(self) -> F {
        F::cos_spec(self)
    }
    fn tan(self) -> F {
        F::tan_spec(self)
    }
    fn to_radians(self) -> F {
        F::to_radians_spec(self)
    }
}

fn m2(a: [f64; 4]) -> Mat2<F> {
    Mat2::new(F(a[0]), F(a[1]), F(a[2]), F(a[3]))
}

fn m3(a: [f64; 9]) -> Mat3<F> {
    Mat3::new(
        F(a[0]),
        F(a[1]),
        F(a[2]),
        F(a[3]),
        F(a[4]),
        F(a[5]),
        F(a[6]),
        F(a[7]),
        F(a[8]),
    )
}

fn m4(a: [f64; 16]) -> Mat4<F> {
    Mat4::new(
        F(a[0]),
        F(a[1]),
        F(a[2]),
        F(a[3]),
        F(a[4]),
        F(a[5]),
        F(a[6]),
        F(a[7]),
        F(a[8]),
        F(a[9]),
        F(a[10]),
        F(a[11]),
        F(a[12]),
        F(a[13]),
        F(a[14]),
        F(a[15]),
    )
}

fn v3(x: f64, y: f64, z: f64) -> Vec3<F> {
    Vec3::new(F(x), F(y), F(z))
}

fn sample2() -> Mat2<F> {
    m2([1.0, 3.0, 2.0, 4.0])
}

fn sample3() -> Mat3<F> {
    m3([2.0, 0.0, 1.0, 1.0, 3.0, 0.0, 0.0, 1.0, 4.0])
}

/// An invertible matrix whose first element is zero, so that inverting it
/// needs a row exchange.
fn sample4() -> Mat4<F> {
    m4([
        0.0, 2.0, 1.0, 0.0, 1.0, 0.0, 0.0, 3.0, 2.0, 1.0, 0.0, 1.0, 0.0, 1.0, 4.0, 2.0,
    ])
}

fn unit_axis() -> Vec3<F> {
    let n = (1.0f64 + 4.0 + 9.0).sqrt();
    v3(1.0 / n, 2.0 / n, 3.0 / n)
}

/// Rotates `v` by the unit quaternion `q`, as `q v q*`.
fn rotate_by_quat(q: &Quat<F>, v: &Vec3<F>) -> Vec3<F> {
    let (w, x, y, z) = (q.w.0, q.x.0, q.y.0, q.z.0);
    let (vx, vy, vz) = (v.x.0, v.y.0, v.z.0);
    // t = 2 (q.xyz × v); v' = v + w t + q.xyz × t
    let tx = 2.0 * (y * vz - z * vy);
    let ty = 2.0 * (z * vx - x * vz);
    let tz = 2.0 * (x * vy - y * vx);
    v3(
        vx + w * tx + (y * tz - z * ty),
        vy + w * ty + (z * tx - x * tz),
        vz + w * tz + (x * ty - y * tx),
    )
}

#[test]
fn mul_by_identity_and_zero_2() {
    let m = sample2();
    assert_eq!(m.mul_m(&Mat2::identity()), m);
    assert_eq!(m.mul_m(&Mat2::zero()), Mat2::zero());
}

#[test]
fn mul_by_identity_and_zero_3() {
    let m = sample3();
    assert_eq!(m.mul_m(&Mat3::identity()), m);
    assert_eq!(m.mul_m(&Mat3::zero()), Mat3::zero());
}

#[test]
fn mul_by_identity_and_zero_4() {
    let m = sample4();
    assert_eq!(m.mul_m(&Mat4::identity()), m);
    assert_eq!(m.mul_m(&Mat4::zero()), Mat4::zero());
}

#[test]
fn transpose_twice_gives_back() {
    assert_eq!(sample2().transpose().transpose(), sample2());
    assert_eq!(sample3().transpose().transpose(), sample3());
    assert_eq!(sample4().transpose().transpose(), sample4());
}

#[test]
fn transpose_moves_elements() {
    let t = sample2().transpose();
    assert_eq!(t, m2([1.0, 2.0, 3.0, 4.0]));
    let t = sample4().transpose();
    assert_eq!(t.x, Vec4::new(F(0.0), F(1.0), F(2.0), F(0.0)));
    assert_eq!(t.w, Vec4::new(F(0.0), F(3.0), F(1.0), F(2.0)));
}

#[test]
fn inverse_times_matrix_is_identity() {
    let m = sample2();
    assert!(m.is_invertible());
    assert!(m.mul_m(&m.inverse().unwrap()).fuzzy_eq(&Mat2::identity()));
    let m = sample3();
    assert!(m.is_invertible());
    assert!(m.mul_m(&m.inverse().unwrap()).fuzzy_eq(&Mat3::identity()));
    let m = sample4();
    assert!(m.is_invertible());
    assert!(m.mul_m(&m.inverse().unwrap()).fuzzy_eq(&Mat4::identity()));
}

#[test]
fn determinant_of_transpose() {
    let m = sample2();
    assert_eq!(m.transpose().determinant(), m.determinant());
    let m = sample3();
    assert_eq!(m.transpose().determinant(), m.determinant());
    let m = sample4();
    assert_eq!(m.transpose().determinant(), m.determinant());
}

#[test]
fn determinant_values() {
    assert_eq!(sample2().determinant(), F(-2.0));
    assert_eq!(sample3().determinant(), F(25.0));
    assert_eq!(sample4().determinant(), F(-33.0));
    assert_eq!(Mat4::<F>::identity().determinant(), F(1.0));
}

#[test]
fn symmetric_iff_fuzzy_equal_to_transpose() {
    let s = m3([1.0, 2.0, 3.0, 2.0, 5.0, 6.0, 3.0, 6.0, 9.0]);
    assert!(s.is_symmetric());
    assert!(s.fuzzy_eq(&s.transpose()));
    let n = sample3();
    assert!(!n.is_symmetric());
    assert!(!n.fuzzy_eq(&n.transpose()));
    let s = m4([
        1.0, 2.0, 3.0, 4.0, 2.0, 1.0, 5.0, 6.0, 3.0, 5.0, 1.0, 7.0, 4.0, 6.0, 7.0, 1.0,
    ]);
    assert!(s.is_symmetric());
    assert!(s.fuzzy_eq(&s.transpose()));
    assert!(!sample4().is_symmetric());
    assert!(!sample2().is_symmetric());
    assert!(m2([1.0, 2.0, 2.0000000001, 3.0]).is_symmetric());
}

#[test]
fn rotation_by_zero_is_identity() {
    let r = Mat3::<F>::from_axis_angle(&unit_axis(), Angle::Radians(F(0.0)));
    assert!(r.fuzzy_eq(&Mat3::identity()));
    assert!(r.is_identity());
    assert!(!r.is_rotated());
}

#[test]
fn rotation_then_inverse_rotation_is_identity() {
    for deg in [30.0, 90.0, 135.0, 250.0] {
        let a = Mat3::<F>::from_axis_angle(&unit_axis(), Angle::Degrees(F(deg)));
        let b = Mat3::<F>::from_axis_angle(&unit_axis(), Angle::Degrees(F(-deg)));
        assert!(a.mul_m(&b).fuzzy_eq(&Mat3::identity()));
        assert!(a.is_rotated());
    }
}

#[test]
fn quaternion_rotates_like_matrix() {
    let v = v3(0.3, -1.2, 2.5);
    for deg in [0.0, 20.0, 60.0, 115.0, -75.0] {
        let r = Mat3::<F>::from_axis_angle(&unit_axis(), Angle::Degrees(F(deg)));
        let q = r.to_quat();
        assert!(rotate_by_quat(&q, &v).fuzzy_eq(&r.mul_v(&v)));
        let half = (deg as f64).to_radians() / 2.0;
        assert!(q.w.fuzzy_eq(F(half.cos())));
    }
}

#[test]
fn quaternion_of_identity() {
    let q = Mat3::<F>::identity().to_quat();
    assert_eq!(q, Quat::new(F(1.0), F(0.0), F(0.0), F(0.0)));
}

#[test]
fn quaternion_branches_on_negative_trace() {
    let s = (0.5f64 + 3.0).sqrt();
    let expected = Quat::new(F(0.5 * s), F(0.0), F(0.0), F(0.0));
    assert_eq!(m3([1.0, 0.0, 0.0, 0.0, -1.0, 0.0, 0.0, 0.0, -1.0]).to_quat(), expected);
    assert_eq!(m3([-1.0, 0.0, 0.0, 0.0, 1.0, 0.0, 0.0, 0.0, -1.0]).to_quat(), expected);
    assert_eq!(m3([-1.0, 0.0, 0.0, 0.0, -1.0, 0.0, 0.0, 0.0, 1.0]).to_quat(), expected);
    let m = m3([1.0, 2.0, 0.0, 0.0, -1.0, 0.0, 0.0, 0.0, -1.0]);
    let k = 0.5 / s;
    assert_eq!(m.to_quat(), Quat::new(F(0.5 * s), F(2.0 * k), F(0.0), F(0.0)));
}

#[test]
fn mat2_determinant_and_inverse() {
    let m = m2([4.0, 0.0, 0.0, 4.0]);
    assert_eq!(m.determinant(), F(16.0));
    assert_eq!(m.inverse(), Some(m2([0.25, 0.0, 0.0, 0.25])));
}

#[test]
fn mat2_inverse_values() {
    let inv = sample2().inverse().unwrap();
    assert_eq!(inv, m2([-2.0, 1.5, 1.0, -0.5]));
}

#[test]
fn mat3_identity_predicates() {
    let i = Mat3::<F>::identity();
    assert!(i.is_identity());
    assert!(i.is_diagonal());
    assert!(i.is_symmetric());
    assert!(i.is_invertible());
    assert!(!i.is_rotated());
}

#[test]
fn mat4_diagonal_inverse() {
    let m = Mat4::from_value(F(2.0));
    assert_eq!(m.inverse(), Some(Mat4::from_value(F(0.5))));
}

#[test]
fn singular_matrices_have_no_inverse() {
    assert_eq!(m2([1.0, 2.0, 2.0, 4.0]).inverse(), None);
    assert!(!m2([1.0, 2.0, 2.0, 4.0]).is_invertible());
    assert_eq!(Mat3::<F>::zero().inverse(), None);
    assert_eq!(m3([1.0, 2.0, 3.0, 4.0, 5.0, 6.0, 7.0, 8.0, 9.0]).inverse(), None);
    assert_eq!(Mat4::<F>::zero().inverse(), None);
    assert!(!Mat4::<F>::zero().is_invertible());
    assert_eq!(Mat4::from_value(F(1.0e-3)).inverse(), None);
}

#[test]
fn mat3_inverse_values() {
    let inv = m3([2.0, 0.0, 0.0, 0.0, 4.0, 0.0, 0.0, 0.0, 8.0]).inverse().unwrap();
    assert_eq!(inv, m3([0.5, 0.0, 0.0, 0.0, 0.25, 0.0, 0.0, 0.0, 0.125]));
    let inv = m3([1.0, 0.0, 0.0, 2.0, 1.0, 0.0, 0.0, 0.0, 1.0]).inverse().unwrap();
    assert_eq!(inv, m3([1.0, 0.0, 0.0, -2.0, 1.0, 0.0, 0.0, 0.0, 1.0]));
}

#[test]
fn ortho_projection() {
    let m = ortho(F(0.0), F(2.0), F(0.0), F(2.0), F(0.0), F(2.0));
    assert_eq!(m.x, Vec4::new(F(1.0), F(0.0), F(0.0), F(0.0)));
    assert_eq!(m.y, Vec4::new(F(0.0), F(1.0), F(0.0), F(0.0)));
    assert_eq!(m.z, Vec4::new(F(0.0), F(0.0), F(-1.0), F(0.0)));
    assert_eq!(m.w, Vec4::new(F(-1.0), F(-1.0), F(-1.0), F(1.0)));
}

#[test]
fn perspective_is_a_symmetric_frustum() {
    let (fovy, n, f) = (60.0f64, 0.1f64, 100.0f64);
    let y = n * (fovy / 2.0).to_radians().tan();
    let x = y;
    let p = perspective(F(fovy), F(1.0), F(n), F(f));
    assert_eq!(p, frustum(F(-x), F(x), F(-y), F(y), F(n), F(f)));
}

#[test]
fn perspective_with_aspect() {
    let p = perspective(F(90.0), F(2.0), F(1.0), F(3.0));
    let y = (45.0f64).to_radians().tan();
    assert_eq!(p, frustum(F(-2.0 * y), F(2.0 * y), F(-y), F(y), F(1.0), F(3.0)));
    assert!(p.x.x.fuzzy_eq(F(0.5)));
    assert!(p.y.y.fuzzy_eq(F(1.0)));
}

#[test]
fn frustum_values() {
    let m = frustum(F(-1.0), F(1.0), F(-2.0), F(2.0), F(1.0), F(3.0));
    assert_eq!(m.x, Vec4::new(F(1.0), F(0.0), F(0.0), F(0.0)));
    assert_eq!(m.y, Vec4::new(F(0.0), F(0.5), F(0.0), F(0.0)));
    assert_eq!(m.z, Vec4::new(F(0.0), F(0.0), F(-2.0), F(-1.0)));
    assert_eq!(m.w, Vec4::new(F(0.0), F(0.0), F(-3.0), F(0.0)));
}

#[test]
fn axis_angle_quarter_turn_about_z() {
    let r = Mat3::<F>::from_axis_angle(&v3(0.0, 0.0, 1.0), Angle::Degrees(F(90.0)));
    let v = r.mul_v(&v3(1.0, 0.0, 0.0));
    assert!(v.fuzzy_eq(&v3(0.0, 1.0, 0.0)));
}

#[test]
fn columns_rows_and_products() {
    let m = sample2();
    assert_eq!(m.col(1), Vec2::new(F(2.0), F(4.0)));
    assert_eq!(m.row(1), Vec2::new(F(3.0), F(4.0)));
    assert_eq!(m.mul_v(&Vec2::new(F(1.0), F(1.0))), Vec2::new(F(3.0), F(7.0)));
    let p = m.mul_m(&m2([0.0, 1.0, 1.0, 0.0]));
    assert_eq!(p, m2([2.0, 4.0, 1.0, 3.0]));
    let m = sample3();
    assert_eq!(m.row(2), v3(1.0, 0.0, 4.0));
    assert_eq!(m.mul_v(&v3(1.0, 2.0, 3.0)), v3(4.0, 9.0, 13.0));
    let m = sample4();
    assert_eq!(m.row(3), Vec4::new(F(0.0), F(3.0), F(1.0), F(2.0)));
    let one = Vec4::new(F(1.0), F(1.0), F(1.0), F(1.0));
    assert_eq!(m.mul_v(&one), Vec4::new(F(3.0), F(4.0), F(5.0), F(6.0)));
}

#[test]
fn elementwise_arithmetic() {
    let a = sample2();
    let b = m2([1.0, 1.0, 1.0, 1.0]);
    assert_eq!(a.add_m(&b), m2([2.0, 4.0, 3.0, 5.0]));
    assert_eq!(a.sub_m(&b), m2([0.0, 2.0, 1.0, 3.0]));
    assert_eq!(a.mul_t(F(2.0)), m2([2.0, 6.0, 4.0, 8.0]));
    assert_eq!(a.neg(), m2([-1.0, -3.0, -2.0, -4.0]));
    assert_eq!(sample3().mul_t(F(0.0)), Mat3::zero());
    assert_eq!(sample4().sub_m(&sample4()), Mat4::zero());
    assert_eq!(sample4().add_m(&sample4()), sample4().mul_t(F(2.0)));
}

#[test]
fn trace_and_dot() {
    assert_eq!(sample2().trace(), F(5.0));
    assert_eq!(sample3().trace(), F(9.0));
    assert_eq!(sample4().trace(), F(2.0));
    // transpose(b) · a for a = sample2, b = identity: trace of a
    assert_eq!(sample2().dot(&Mat2::identity()), F(5.0));
    // sum of the squares of the elements
    assert_eq!(sample2().dot(&sample2()), F(30.0));
    assert_eq!(Mat4::<F>::identity().dot(&Mat4::identity()), F(4.0));
    assert_eq!(sample3().dot(&Mat3::identity()), F(9.0));
}

#[test]
fn diagonal_predicate() {
    assert!(Mat4::from_value(F(3.0)).is_diagonal());
    assert!(!sample4().is_diagonal());
    assert!(!sample2().is_diagonal());
    assert!(m2([1.0, 1.0e-9, 0.0, 2.0]).is_diagonal());
}

#[test]
fn lifting_to_larger_matrices() {
    let m = sample2();
    assert_eq!(m.to_mat3(), m3([1.0, 3.0, 0.0, 2.0, 4.0, 0.0, 0.0, 0.0, 1.0]));
    let l = m.to_mat4();
    assert_eq!(l.x, Vec4::new(F(1.0), F(3.0), F(0.0), F(0.0)));
    assert_eq!(l.w, Vec4::new(F(0.0), F(0.0), F(0.0), F(1.0)));
    let l = sample3().to_mat4();
    assert_eq!(l.z, Vec4::new(F(0.0), F(1.0), F(4.0), F(0.0)));
    assert_eq!(l.w, Vec4::new(F(0.0), F(0.0), F(0.0), F(1.0)));
    assert_eq!(Mat3::<F>::identity().to_mat4(), Mat4::identity());
}

#[test]
fn in_place_operations() {
    let mut m = sample2();
    m.swap_cols(0, 1);
    assert_eq!(m, m2([2.0, 4.0, 1.0, 3.0]));
    m.swap_rows(0, 1);
    assert_eq!(m, m2([4.0, 2.0, 3.0, 1.0]));
    m.transpose_self();
    assert_eq!(m, m2([4.0, 3.0, 2.0, 1.0]));
    m.mul_self_t(F(2.0));
    assert_eq!(m, m2([8.0, 6.0, 4.0, 2.0]));
    m.add_self_m(&m2([1.0, 1.0, 1.0, 1.0]));
    assert_eq!(m, m2([9.0, 7.0, 5.0, 3.0]));
    m.sub_self_m(&m2([9.0, 7.0, 5.0, 3.0]));
    assert_eq!(m, Mat2::zero());
    m.to_identity();
    assert_eq!(m, Mat2::identity());
    m.set(&sample2());
    assert_eq!(m, sample2());
    m.to_zero();
    assert_eq!(m, Mat2::zero());
}

#[test]
fn in_place_transpose_and_invert() {
    let mut m = sample3();
    m.transpose_self();
    assert_eq!(m, sample3().transpose());
    let mut m = sample4();
    m.transpose_self();
    assert_eq!(m, sample4().transpose());
    let mut m = sample4();
    m.invert_self();
    assert_eq!(Some(m), sample4().inverse());
    let mut m = m2([4.0, 0.0, 0.0, 4.0]);
    m.invert_self();
    assert_eq!(m, m2([0.25, 0.0, 0.0, 0.25]));
}

#[test]
fn column_access_in_place() {
    let mut m = sample4();
    *m.col_mut(2) = Vec4::new(F(9.0), F(9.0), F(9.0), F(9.0));
    assert_eq!(m.z, Vec4::new(F(9.0), F(9.0), F(9.0), F(9.0)));
    assert_eq!(m.x, sample4().x);
    let mut m = sample3();
    m.col_mut(0).x = F(7.0);
    assert_eq!(m.x, v3(7.0, 0.0, 1.0));
    m.swap_rows(0, 2);
    assert_eq!(m.row(0), v3(1.0, 0.0, 4.0));
    m.swap_cols(0, 2);
    assert_eq!(m.col(0), v3(4.0, 1.0, 0.0));
}

#[test]
fn dimensions() {
    assert_eq!(Mat2::<F>::dim(), 2);
    assert_eq!(Mat3::<F>::dim(), 3);
    assert_eq!(Mat4::<F>::dim(), 4);
}

#[test]
fn constructors() {
    let m = Mat3::from_cols(v3(1.0, 2.0, 3.0), v3(4.0, 5.0, 6.0), v3(7.0, 8.0, 9.0));
    assert_eq!(m, m3([1.0, 2.0, 3.0, 4.0, 5.0, 6.0, 7.0, 8.0, 9.0]));
    assert_eq!(Mat2::from_value(F(1.0)), Mat2::identity());
    assert_eq!(Mat3::from_value(F(0.0)), Mat3::zero());
    assert_eq!(Mat4::from_mat3(&Mat3::from_value(F(5.0))).w, Vec4::new(F(0.0), F(0.0), F(0.0), F(1.0)));
    assert_eq!(Mat4::from_mat2(&sample2()).z, Vec4::new(F(0.0), F(0.0), F(1.0), F(0.0)));
}

#[test]
fn vector_operations() {
    let a = v3(1.0, 2.0, 3.0);
    let b = v3(4.0, 5.0, 6.0);
    assert_eq!(a.dot(&b), F(32.0));
    assert_eq!(a.cross(&b), v3(-3.0, 6.0, -3.0));
    assert_eq!(a.div_t(F(2.0)), v3(0.5, 1.0, 1.5));
    let mut c = a;
    c.swap(0, 2);
    assert_eq!(c, v3(3.0, 2.0, 1.0));
    assert_eq!(a.index(1), F(2.0));
}

#[test]
fn angles_in_radians() {
    assert_eq!(Angle::Radians(F(1.5)).to_radians(), F(1.5));
    assert!(Angle::Degrees(F(180.0)).to_radians().fuzzy_eq(F(std::f64::consts::PI)));
}

#[test]
fn nan_on_the_diagonal_is_not_fuzzy_equal_to_itself() {
    let m = m2([f64::NAN, 2.0, 2.0, 1.0]);
    assert!(m.is_symmetric());
    assert!(!m.fuzzy_eq(&m.transpose()));
    let m = m2([f64::NAN, 2.0, 3.0, 1.0]);
    assert!(!m.is_symmetric());
    assert!(!m.fuzzy_eq(&m.transpose()));
}
