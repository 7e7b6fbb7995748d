use core::ops::Mul;
use linmath::angle::AsRadians;
use linmath::traits::float::{Float, Round, Sqrt, Trig};
use linmath::traits::{Identity, Numeric, Signed, Zero};
use linmath::types::mat4::consts::{R3C0, R3C1, R3C2, R3C3};
use linmath::types::{Mat3, Mat4, Quat, Vec3, Vec4};

/// A single-precision number as an element type.
#[derive(Copy, Clone, Debug, Default, PartialEq, PartialOrd)]
struct F(f32);

impl core::ops::Add for F {
    type Output = F;
    fn add(self, o: F) -> F {
        F(self.0 + o.0)
    }
}

impl core::ops::Sub for F {
    type Output = F;
    fn sub(self, o: F) -> F {
        F(self.0 - o.0)
    }
}

impl core::ops::Mul for F {
    type Output = F;
    fn mul(self, o: F) -> F {
        F(self.0 * o.0)
    }
}

impl core::ops::Div for F {
    type Output = F;
    fn div(self, o: F) -> F {
        F(self.0 / o.0)
    }
}

impl core::ops::Rem for F {
    type Output = F;
    fn rem(self, o: F) -> F {
        F(self.0 % o.0)
    }
}

impl core::ops::Neg for F {
    type Output = F;
    fn neg(self) -> F {
        F(-self.0)
    }
}

// The `*_spec` functions exist for the verifier alone and are never run.
impl Identity for F {
    fn identity_spec() -> F {
        unreachable!()
    }
    fn identity() -> F {
        F(1.0)
    }
}

impl Zero for F {
    fn zero_spec() -> F {
        unreachable!()
    }
    fn zero() -> F {
        F(0.0)
    }
}

impl Numeric for F {}

impl Signed for F {
    fn abs_req(self) -> bool {
        unreachable!()
    }
    fn abs_spec(self) -> F {
        unreachable!()
    }
    fn signum_spec(self) -> F {
        unreachable!()
    }
    fn abs(&self) -> F {
        F(self.0.abs())
    }
    fn signum(&self) -> F {
        F(self.0.signum())
    }
}

impl Sqrt for F {
    fn sqrt_spec(self) -> F {
        unreachable!()
    }
    fn sqrt(&self) -> F {
        F(self.0.sqrt())
    }
}

impl Round for F {
    fn round_spec(self) -> F {
        unreachable!()
    }
    fn floor_spec(self) -> F {
        unreachable!()
    }
    fn trunc_spec(self) -> F {
        unreachable!()
    }
    fn ceil_spec(self) -> F {
        unreachable!()
    }
    fn round(&self) -> F {
        F(self.0.round())
    }
    fn floor(&self) -> F {
        F(self.0.floor())
    }
    fn trunc(&self) -> F {
        F(self.0.trunc())
    }
    fn ceil(&self) -> F {
        F(self.0.ceil())
    }
}

impl Trig for F {
    fn acos_spec(self) -> F {
        unreachable!()
    }
    fn asin_spec(self) -> F {
        unreachable!()
    }
    fn atan_spec(self) -> F {
        unreachable!()
    }
    fn cos_spec(self) -> F {
        unreachable!()
    }
    fn sin_spec(self) -> F {
        unreachable!()
    }
    fn tan_spec(self) -> F {
        unreachable!()
    }
    fn pi_spec() -> F {
        unreachable!()
    }
    fn acos(&self) -> F {
        F(self.0.acos())
    }
    fn asin(&self) -> F {
        F(self.0.asin())
    }
    fn atan(&self) -> F {
        F(self.0.atan())
    }
    fn cos(&self) -> F {
        F(self.0.cos())
    }
    fn sin(&self) -> F {
        F(self.0.sin())
    }
    fn tan(&self) -> F {
        F(self.0.tan())
    }
    fn pi() -> F {
        F(core::f32::consts::PI)
    }
}

impl Float for F {}

const TOLERANCE: f32 = 10.0 * core::f32::EPSILON;

/// Fails unless `left` is within the tolerance of `right`.
fn assert_approx_eq(left: F, right: F, what: &str) {
    if left - F(TOLERANCE) > right || left + F(TOLERANCE) < right {
        panic!("assertion failed: `(left == right)`\n  left: `{:?}`,\n right: `{:?}`: {}", left, right, what);
    }
}

fn assert_all_approx_eq(actual: &Mat4<F>, expected: &Mat4<F>, what: &str) {
    actual.iter().zip(expected.iter()).for_each(|(&a, &b)| {
        assert_approx_eq(a, b, &format!("{} == {:?}, expected = {:?}", what, actual, expected))
    });
}

fn vec3(x: f32, y: f32, z: f32) -> Vec3<F> {
    Vec3::new(F(x), F(y), F(z))
}

const STEPS: usize = 60;
const FSTEPS: f32 = STEPS as f32;
const INCREMENT: f32 = 2.0 * core::f32::consts::PI / FSTEPS;

#[test]
fn tests_should_have_correct_identity() {
    assert_eq!(
        Mat4::identity(),
        Mat4::from_rows(
            (F(1.0), F(0.0), F(0.0), F(0.0)),
            (F(0.0), F(1.0), F(0.0), F(0.0)),
            (F(0.0), F(0.0), F(1.0), F(0.0)),
            (F(0.0), F(0.0), F(0.0), F(1.0)),
        )
    );
}

#[test]
fn tests_should_have_correct_zero() {
    Mat4::<i32>::zero().iter().for_each(|&v| assert_eq!(v, 0));
}

#[test]
fn default_mat4_should_be_identity() {
    assert_eq!(Mat4::<i32>::default(), Mat4::identity());
}

#[test]
fn from_affine_should_affect_the_first_3_rows() {
    assert_eq!(
        Mat4::<i32>::from_affine(
            (1, 2, 3, 4),
            (5, 6, 7, 8),
            (9, 10, 11, 12),
        ),
        Mat4::from_rows(
            (1, 2, 3, 4),
            (5, 6, 7, 8),
            (9, 10, 11, 12),
            (0, 0, 0, 1),
        )
    );
}

#[test]
fn tests_transpose_of_from_columns_should_match_from_rows() {
    assert_eq!(
        Mat4::from_columns(
            (1, 2, 3, 4),
            (5, 6, 7, 8),
            (9, 10, 11, 12),
            (13, 14, 15, 16),
        )
        .transposed(),
        Mat4::from_rows(
            (1, 2, 3, 4),
            (5, 6, 7, 8),
            (9, 10, 11, 12),
            (13, 14, 15, 16),
        )
    );
}

#[test]
fn tests_transpose_of_from_rows_should_match_from_columns() {
    assert_eq!(
        Mat4::from_rows(
            (13, 14, 15, 16),
            (9, 10, 11, 12),
            (5, 6, 7, 8),
            (1, 2, 3, 4),
        )
        .transposed(),
        Mat4::from_columns(
            (13, 14, 15, 16),
            (9, 10, 11, 12),
            (5, 6, 7, 8),
            (1, 2, 3, 4),
        )
    );
}

#[test]
fn tests_layout_should_be_column_major() {
    assert_eq!(
        Mat4::from_columns(
            (1, 2, 3, 4),
            (5, 6, 7, 8),
            (9, 10, 11, 12),
            (13, 14, 15, 16),
        ),
        Mat4::from_array([1, 2, 3, 4, 5, 6, 7, 8, 9, 10, 11, 12, 13, 14, 15, 16])
    );
}

#[test]
fn tests_map_should_apply_elementwise() {
    assert_eq!(
        Mat4::from_array([1, 2, 3, 4, 5, 6, 7, 8, 9, 10, 11, 12, 13, 14, 15, 16]).map(|v| v * 2),
        Mat4::from_array([2, 4, 6, 8, 10, 12, 14, 16, 18, 20, 22, 24, 26, 28, 30, 32])
    );
}

#[test]
fn tests_fill_should_override_content() {
    let mut m = Mat4::identity();
    let data = [1, 2, 3, 4, 5, 6, 7, 8, 9, 10, 11, 12, 13, 14, 15, 16];
    m.fill(&data);
    assert_eq!(m, Mat4::from_array(data));
}

#[test]
fn tests_addition_should_be_elementwise() {
    let m = Mat4::from_array([1, 2, 3, 4, 5, 6, 7, 8, 9, 10, 11, 12, 13, 14, 15, 16]);
    let n = Mat4::from_array([19, 18, 17, 16, 15, 14, 13, 12, 11, 10, 9, 8, 7, 6, 5, 4]);
    let expected = Mat4::zero().map(|_| 20);
    assert_eq!(m + &n, expected);
    assert_eq!(n + &m, expected);

    let mut m2 = m;
    let mut n2 = n;
    m2 += &n;
    n2 += &m;
    assert_eq!(m2, expected);
    assert_eq!(n2, expected);
}

#[test]
fn tests_subtraction_should_be_elementwise() {
    let m = Mat4::from_array([1, 2, 3, 4, 5, 6, 7, 8, 9, 10, 11, 12, 13, 14, 15, 16]);
    let n = Mat4::from_array([4, 5, 6, 7, 8, 9, 10, 11, 12, 13, 14, 15, 16, 17, 18, 19]);
    let expected1 = Mat4::zero().map(|_| -3);
    let expected2 = Mat4::zero().map(|_| 3);
    assert_eq!(m - &n, expected1);
    assert_eq!(n - &m, expected2);

    let mut m2 = m;
    let mut n2 = n;
    m2 -= &n;
    n2 -= &m;
    assert_eq!(m2, expected1);
    assert_eq!(n2, expected2);
}

#[test]
fn tests_should_multiply_correctly() {
    let m = Mat4::from_rows(
        (-1, 2, 3, 4),     //
        (5, -6, 7, 8),     //
        (9, -10, 11, -12), //
        (13, 14, -15, 16), //
    );

    let n = Mat4::from_rows(
        (-44, -43, 42, 41), //
        (34, -33, 32, 31),  //
        (24, 23, -22, 21),  //
        (14, 13, -12, -11), //
    );

    let expected1 = Mat4::from_rows(
        (240, 98, -92, 40),       //
        (-144, 248, -232, 78),    //
        (-640, 40, -40, 422),     //
        (-232, -1158, 1132, 476), //
    );

    let expected2 = Mat4::from_rows(
        (740, 324, -586, -368), //
        (492, 380, -242, -16),  //
        (166, 424, -324, 880),  //
        (-200, -84, 166, 128),  //
    );

    let actual1 = m * &n;
    let actual2 = n * &m;

    assert_eq!(actual1, expected1);
    assert_eq!(actual2, expected2);

    let mut m2 = m;
    let mut n2 = n;

    m2 *= &n;
    n2 *= &m;

    assert_eq!(m2, expected1);
    assert_eq!(n2, expected2);
}

#[test]
fn should_produce_correct_result_when_multiplied_with_a_vec4() {
    let m = Mat4::from_rows(
        (1, 2, 3, 4),     //
        (5, 6, 7, 8),     //
        (9, 10, 11, 12),  //
        (13, 14, 15, 16), //
    );
    let v = Vec4::new(-1, 3, 2, 1);
    let expected = Vec4::new(15, 35, 55, 75);
    assert_eq!(&m * v, expected);
    assert_eq!(&m * &v, expected);
}

#[test]
fn tests_scalar_multiplication_should_be_elementwise() {
    let m = Mat4::from_array([1, 2, 3, 4, 5, 6, 7, 8, 9, 10, 11, 12, 13, 14, 15, 16]);
    let s = 4;
    let expected = Mat4::from_array([4, 8, 12, 16, 20, 24, 28, 32, 36, 40, 44, 48, 52, 56, 60, 64]);
    assert_eq!(m * s, expected);
    assert_eq!(m * &s, expected);
    assert_eq!(&m * s, expected);
    assert_eq!(&m * &s, expected);

    let mut m2 = m;
    m2 *= s;
    assert_eq!(m2, expected);
}

#[test]
fn tests_scalar_division_should_be_elementwise() {
    let m = Mat4::from_array([4, 8, 12, 16, 20, 24, 28, 32, 36, 40, 44, 48, 52, 56, 60, 64]);
    let s = 4;
    let expected = Mat4::from_array([1, 2, 3, 4, 5, 6, 7, 8, 9, 10, 11, 12, 13, 14, 15, 16]);
    assert_eq!(m / s, expected);
    assert_eq!(m / &s, expected);
    assert_eq!(&m / s, expected);
    assert_eq!(&m / &s, expected);

    let mut m2 = m;
    m2 /= s;
    assert_eq!(m2, expected);
}

#[test]
fn from_translation_should_affect_last_column() {
    assert_eq!(
        Mat4::from_translation(Vec3::new(2, 3, 4)),
        Mat4::from_affine(
            (1, 0, 0, 2), //
            (0, 1, 0, 3), //
            (0, 0, 1, 4), //
        ),
    );
}

#[test]
fn from_scale_should_affect_3_first_values_in_diagonal() {
    assert_eq!(
        Mat4::from_scale(Vec3::new(5, 6, 7)),
        Mat4::from_affine(
            (5, 0, 0, 0), //
            (0, 6, 0, 0), //
            (0, 0, 7, 0), //
        ),
    );
}

#[test]
fn tests_adjugate_and_determinant_should_calculate_correctly() {
    let m = Mat4::from_rows(
        (-11, 12, 13, 14), //
        (21, -22, 23, 24), //
        (31, 32, -33, 34), //
        (41, 42, 43, -44), //
    );

    let expected_adj = Mat4::from_rows(
        (131_736, -75_416, -50_776, -38_456), //
        (-127_688, 73_568, -46_728, -36_608), //
        (-120_472, -64_152, 48_312, -35_992), //
        (-116_864, -62_744, -44_704, 34_584), //
    );
    let expected_det = -6_183_584;

    let (actual_adj, actual_det) = m.adjugate_determinant();

    assert_eq!(actual_adj, expected_adj);
    assert_eq!(actual_det, expected_det);
}

#[test]
fn tests_product_of_matrix_and_its_inverse_should_approximate_identity_matrix() {
    let m = Mat4::from_rows(
        (F(1.0), F(5.0), F(9.0), F(-3.0)),  //
        (F(2.0), F(6.0), F(0.0), F(14.0)),  //
        (F(3.0), F(7.0), F(11.0), F(15.0)), //
        (F(4.0), F(3.0), F(-2.0), F(1.0)),  //
    );
    let actual = m * &m.inverse();
    let expected = Mat4::identity();

    actual
        .iter()
        .zip(expected.iter())
        .for_each(|(&a, &b)| assert_approx_eq(a, b, "product"));
}

fn from_rotation_helper(axis: Vec3<F>, rotation: fn(linmath::angle::Radians<F>) -> Mat4<F>, name: &str) {
    for i in 0..=STEPS {
        let f = i as f32;
        let angle = F(INCREMENT * f).as_radians();

        let actual = rotation(angle);
        let expected = Mat4::from_axis_angle(axis, angle);

        assert_all_approx_eq(&actual, &expected, &format!("{}({:?}, {:?})", name, axis, angle));
    }
}

#[test]
fn tests_from_rotation_x_should_match_from_axis_angle_on_x_axis() {
    from_rotation_helper(Vec3::<F>::unit_x(), Mat4::from_rotation_x, "from_rotation_x");
}

#[test]
fn tests_from_rotation_y_should_match_from_axis_angle_on_y_axis() {
    from_rotation_helper(Vec3::<F>::unit_y(), Mat4::from_rotation_y, "from_rotation_y");
}

#[test]
fn tests_from_rotation_z_should_match_from_axis_angle_on_z_axis() {
    from_rotation_helper(Vec3::<F>::unit_z(), Mat4::from_rotation_z, "from_rotation_z");
}

#[test]
fn tests_from_axis_angle_should_match_matrix_of_quat_from_axis_angle() {
    let axes = [Vec3::unit_x(), Vec3::unit_y(), Vec3::unit_z(), vec3(1.0, 2.0, -3.0)];

    for axis in &axes {
        for i in 0..=STEPS {
            let f = i as f32;
            let angle = F(INCREMENT * f).as_radians();

            let actual = Mat4::from_axis_angle(*axis, angle);
            let expected = Mat4::from_quat(&Quat::from_axis_angle(*axis, angle));

            assert_all_approx_eq(&actual, &expected, &format!("from_axis_angle({:?}, {:?})", axis, angle));
        }
    }
}

#[test]
fn rotate_x_on_identity_matrix_should_match_from_rotation_x() {
    for i in 0..=STEPS {
        let f = i as f32;
        let angle = F(INCREMENT * f).as_radians();

        let mut actual = Mat4::identity();
        actual.rotate_x(angle);
        let expected = Mat4::from_rotation_x(angle);

        assert_all_approx_eq(&actual, &expected, &format!("rotate_x({:?})", angle));
    }
}

#[test]
fn rotate_y_on_identity_matrix_should_match_from_rotation_y() {
    for i in 0..=STEPS {
        let f = i as f32;
        let angle = F(INCREMENT * f).as_radians();

        let mut actual = Mat4::identity();
        actual.rotate_y(angle);
        let expected = Mat4::from_rotation_y(angle);

        assert_all_approx_eq(&actual, &expected, &format!("rotate_y({:?})", angle));
    }
}

#[test]
fn rotate_z_on_identity_matrix_should_match_from_rotation_z() {
    for i in 0..=STEPS {
        let f = i as f32;
        let angle = F(INCREMENT * f).as_radians();

        let mut actual = Mat4::identity();
        actual.rotate_z(angle);
        let expected = Mat4::from_rotation_z(angle);

        assert_all_approx_eq(&actual, &expected, &format!("rotate_z({:?})", angle));
    }
}

#[test]
fn tests_from_quat_on_identity_quat_should_be_identity_matrix() {
    let actual: Mat4<F> = Mat4::from_quat(&Quat::identity());
    let expected = Mat4::identity();

    actual
        .iter()
        .zip(expected.iter())
        .for_each(|(&a, &b)| assert_approx_eq(a, b, "from_quat"));
}

#[test]
fn tests_from_quat_on_right_angles_around_y_should_be_correct() {
    let s = core::f32::consts::FRAC_PI_2;
    let expects = [
        Mat4::identity(),
        Mat4::from_affine(
            (F(0.0), F(0.0), F(1.0), F(0.0)),  //
            (F(0.0), F(1.0), F(0.0), F(0.0)),  //
            (F(-1.0), F(0.0), F(0.0), F(0.0)), //
        ),
        Mat4::from_affine(
            (F(-1.0), F(0.0), F(0.0), F(0.0)), //
            (F(0.0), F(1.0), F(0.0), F(0.0)),  //
            (F(0.0), F(0.0), F(-1.0), F(0.0)), //
        ),
        Mat4::from_affine(
            (F(0.0), F(0.0), F(-1.0), F(0.0)), //
            (F(0.0), F(1.0), F(0.0), F(0.0)),  //
            (F(1.0), F(0.0), F(0.0), F(0.0)),  //
        ),
        Mat4::identity(),
    ];

    let y_axis = Vec3::unit_y();

    for (i, expected) in expects.iter().enumerate() {
        let angle = F((i as f32) * s).as_radians();
        let q = Quat::from_axis_angle(y_axis, angle);
        let actual: Mat4<F> = Mat4::from_quat(&q);
        assert_all_approx_eq(&actual, expected, &format!("from_quat({:?})", q));
    }
}

fn mat4(rows: [[f32; 4]; 4]) -> Mat4<F> {
    let r = |i: usize| (F(rows[i][0]), F(rows[i][1]), F(rows[i][2]), F(rows[i][3]));
    Mat4::from_rows(r(0), r(1), r(2), r(3))
}

#[test]
fn from_orthogonal_should_match_expected_values_1() {
    let tests = [
        (
            (0.0, 100.0, 10.0, 80.0, 0.5, 100.0),
            mat4([
                [0.02, 0.0, 0.0, -1.0],                                 //
                [0.0, 0.02857142857142857, 0.0, -1.2857142857142858],   //
                [0.0, 0.0, -0.020100502512562814, -1.0100502512562815], //
                [0.0, 0.0, 0.0, 1.0],                                   //
            ]),
        ),
        (
            (-5.0, 7.0, -9.0, 3.0, 10.0, 11.0),
            mat4([
                [0.16666666666666666, 0.0, 0.0, -0.16666666666666666], //
                [0.0, 0.16666666666666666, 0.0, 0.5],                  //
                [0.0, 0.0, -2.0, -21.0],                               //
                [0.0, 0.0, 0.0, 1.0],                                  //
            ]),
        ),
    ];

    for ((left, right, bottom, top, near, far), expected) in &tests {
        let actual: Mat4<F> =
            Mat4::from_orthogonal(F(*left), F(*right), F(*bottom), F(*top), F(*near), F(*far));

        assert_all_approx_eq(
            &actual,
            expected,
            &format!("from_orthogonal({}, {}, {}, {}, {}, {})", left, right, bottom, top, near, far),
        );
    }
}

#[test]
fn from_orthogonal_symmetric_should_match_from_orthogonal_on_symmetric_input() {
    let tests: [(f32, f32, f32, f32); 3] =
        [(100.0, 80.0, 0.3, 1000.0), (50.0, 2000.0, 50.0, 51.0), (1.0, 1.0, 0.0, 1.0)];

    for (width, height, near, far) in &tests {
        let right = width / 2.0;
        let top = height / 2.0;
        let left = -right;
        let bottom = -top;

        let expected = Mat4::from_orthogonal(F(left), F(right), F(bottom), F(top), F(*near), F(*far));
        let actual = Mat4::from_orthogonal_symmetric(F(*width), F(*height), F(*near), F(*far));

        assert_all_approx_eq(
            &actual,
            &expected,
            &format!("from_orthogonal_symmetric({}, {}, {}, {})", width, height, near, far),
        );
    }
}

#[test]
fn from_perspective_should_match_expected_values_1() {
    let tests: [((f32, (f32, f32), f32, f32), Mat4<F>); 3] = [
        (
            (60.0, (100.0, 80.0), 0.3, 1000.0),
            mat4([
                [1.3856407, 0.0, 0.0, 0.0],          //
                [0.0, 1.7320509, 0.0, 0.0],          //
                [0.0, 0.0, -1.0006001, -0.60018003], //
                [0.0, 0.0, -1.0, 0.0],
            ]),
        ),
        (
            (120.0, (40.0, 40.0), 42.0, 53.0),
            mat4([
                [0.57735026, 0.0, 0.0, 0.0],       //
                [0.0, 0.57735026, 0.0, 0.0],       //
                [0.0, 0.0, -8.636364, -404.72726], //
                [0.0, 0.0, -1.0, 0.0],             //
            ]),
        ),
        (
            (90.0, (7.9, 123.4), 100.0, 101.0),
            mat4([
                [15.620254, 0.0, 0.0, 0.0],   //
                [0.0, 1.0, 0.0, 0.0],         //
                [0.0, 0.0, -201.0, -20200.0], //
                [0.0, 0.0, -1.0, 0.0],        //
            ]),
        ),
    ];

    for ((fov_deg, (width, height), near, far), expected) in &tests {
        let fov = core::f32::consts::PI * fov_deg / 180.0;
        let aspect = width / height;
        let actual: Mat4<F> = Mat4::from_perspective(F(fov).as_radians(), F(aspect), F(*near), F(*far));
        assert_all_approx_eq(
            &actual,
            expected,
            &format!("from_perspective({}, {}, {}, {})", fov, aspect, near, far),
        );
    }
}

// Edge cases and exact values.

#[test]
fn mat4_transposed_twice_is_the_matrix() {
    let m = Mat4::from_array([1, 2, 3, 4, 5, 6, 7, 8, 9, 10, 11, 12, 13, 14, 15, 16]);
    assert_eq!(m.transposed().transposed(), m);
}

#[test]
fn mat4_made_of_its_own_array_is_the_matrix() {
    let m = Mat4::from_rows((-11, 12, 13, 14), (21, -22, 23, 24), (31, 32, -33, 34), (41, 42, 43, -44));
    assert_eq!(Mat4::from_array(*m.as_slice()), m);
    assert_eq!(m[4], 12);
    assert_eq!(m[linmath::types::mat4::consts::R2C3], 34);
    assert_eq!(m[linmath::types::mat4::consts::TY], 24);
}

#[test]
fn mat4_times_its_adjugate_is_the_determinant_on_the_diagonal() {
    let m = Mat4::from_rows((-11, 12, 13, 14), (21, -22, 23, 24), (31, 32, -33, 34), (41, 42, 43, -44));
    let (adj, det) = m.adjugate_determinant();
    assert_eq!(m * &adj, Mat4::identity() * det);
    assert_eq!(adj * &m, Mat4::identity() * det);
}

#[test]
fn mat4_from_mat3_fills_the_upper_left() {
    let m = Mat3::from_rows((1, 2, 3), (4, 5, 6), (7, 8, 9));
    assert_eq!(
        Mat4::from_mat3(&m),
        Mat4::from_rows((1, 2, 3, 0), (4, 5, 6, 0), (7, 8, 9, 0), (0, 0, 0, 1))
    );
}

#[test]
fn mat4_rotate_multiplies_by_the_rotation_from_the_left() {
    let angle = F(0.5).as_radians();
    let m = mat4([[1.0, 5.0, 9.0, -3.0], [2.0, 6.0, 0.0, 14.0], [3.0, 7.0, 11.0, 15.0], [4.0, 3.0, -2.0, 1.0]]);
    let mut x = m;
    x.rotate_x(angle);
    assert_all_approx_eq(&x, &Mat4::from_rotation_x(angle).mul(&m), "rotate_x");
    let mut y = m;
    y.rotate_y(angle);
    assert_all_approx_eq(&y, &Mat4::from_rotation_y(angle).mul(&m), "rotate_y");
    let mut z = m;
    z.rotate_z(angle);
    assert_all_approx_eq(&z, &Mat4::from_rotation_z(angle).mul(&m), "rotate_z");
}

#[test]
fn mat4_perspective_has_minus_one_in_its_last_row() {
    let p = Mat4::from_perspective(F(1.0).as_radians(), F(1.5), F(0.5), F(10.0));
    assert_eq!((p[R3C0], p[R3C1], p[R3C2], p[R3C3]), (F(0.0), F(0.0), F(-1.0), F(0.0)));
}
