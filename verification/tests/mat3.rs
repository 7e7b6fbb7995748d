use core::ops::Mul;
use linmath::angle::AsRadians;
use linmath::traits::float::{Float, Round, Sqrt, Trig};
use linmath::traits::{Identity, Numeric, Signed, Zero};

use linmath::types::{Mat3, Quat, Vec2, Vec3};

/// A single-precision number as an element type.
#[derive(Copy, Clone, Debug, Default, PartialEq, PartialOrd)]
struct F(f32);

impl core::ops::Add for F {
    type Output = F;
    fn add(self, o: F) -> F {
        F(self.0 + o.0)
    }
}

impl core::ops::Sub for F {
    type Output = F;
    fn sub(self, o: F) -> F {
        F(self.0 - o.0)
    }
}

impl core::ops::Mul for F {
    type Output = F;
    fn mul(self, o: F) -> F {
        F(self.0 * o.0)
    }
}

impl core::ops::Div for F {
    type Output = F;
    fn div(self, o: F) -> F {
        F(self.0 / o.0)
    }
}

impl core::ops::Rem for F {
    type Output = F;
    fn rem(self, o: F) -> F {
        F(self.0 % o.0)
    }
}

impl core::ops::Neg for F {
    type Output = F;
    fn neg(self) -> F {
        F(-self.0)
    }
}

// The `*_spec` functions exist for the verifier alone and are never run.
impl Identity for F {
    fn identity_spec() -> F {
        unreachable!()
    }
    fn identity() -> F {
        F(1.0)
    }
}

impl Zero for F {
    fn zero_spec() -> F {
        unreachable!()
    }
    fn zero() -> F {
        F(0.0)
    }
}

impl Numeric for F {}

impl Signed for F {
    fn abs_req(self) -> bool {
        unreachable!()
    }
    fn abs_spec(self) -> F {
        unreachable!()
    }
    fn signum_spec(self) -> F {
        unreachable!()
    }
    fn abs(&self) -> F {
        F(self.0.abs())
    }
    fn signum(&self) -> F {
        F(self.0.signum())
    }
}

impl Sqrt for F {
    fn sqrt_spec(self) -> F {
        unreachable!()
    }
    fn sqrt(&self) -> F {
        F(self.0.sqrt())
    }
}

impl Round for F {
    fn round_spec(self) -> F {
        unreachable!()
    }
    fn floor_spec(self) -> F {
        unreachable!()
    }
    fn trunc_spec(self) -> F {
        unreachable!()
    }
    fn ceil_spec(self) -> F {
        unreachable!()
    }
    fn round(&self) -> F {
        F(self.0.round())
    }
    fn floor(&self) -> F {
        F(self.0.floor())
    }
    fn trunc(&self) -> F {
        F(self.0.trunc())
    }
    fn ceil(&self) -> F {
        F(self.0.ceil())
    }
}

impl Trig for F {
    fn acos_spec(self) -> F {
        unreachable!()
    }
    fn asin_spec(self) -> F {
        unreachable!()
    }
    fn atan_spec(self) -> F {
        unreachable!()
    }
    fn cos_spec(self) -> F {
        unreachable!()
    }
    fn sin_spec(self) -> F {
        unreachable!()
    }
    fn tan_spec(self) -> F {
        unreachable!()
    }
    fn pi_spec() -> F {
        unreachable!()
    }
    fn acos(&self) -> F {
        F(self.0.acos())
    }
    fn asin(&self) -> F {
        F(self.0.asin())
    }
    fn atan(&self) -> F {
        F(self.0.atan())
    }
    fn cos(&self) -> F {
        F(self.0.cos())
    }
    fn sin(&self) -> F {
        F(self.0.sin())
    }
    fn tan(&self) -> F {
        F(self.0.tan())
    }
    fn pi() -> F {
        F(core::f32::consts::PI)
    }
}

impl Float for F {}

const TOLERANCE: f32 = 10.0 * core::f32::EPSILON;

/// Fails unless `left` is within the tolerance of `right`.
fn assert_approx_eq(left: F, right: F, what: &str) {
    if left - F(TOLERANCE) > right || left + F(TOLERANCE) < right {
        panic!("assertion failed: `(left == right)`\n  left: `{:?}`,\n right: `{:?}`: {}", left, right, what);
    }
}

fn assert_all_approx_eq(actual: &Mat3<F>, expected: &Mat3<F>, what: &str) {
    actual.iter().zip(expected.iter()).for_each(|(&a, &b)| {
        assert_approx_eq(a, b, &format!("{} == {:?}, expected = {:?}", what, actual, expected))
    });
}

fn vec3(x: f32, y: f32, z: f32) -> Vec3<F> {
    Vec3::new(F(x), F(y), F(z))
}

const STEPS: usize = 60;
const FSTEPS: f32 = STEPS as f32;
const INCREMENT: f32 = 2.0 * core::f32::consts::PI / FSTEPS;

#[test]
fn should_have_correct_identity() {
    assert_eq!(
        Mat3::identity(),
        Mat3::from_rows(
            (F(1.0), F(0.0), F(0.0)),
            (F(0.0), F(1.0), F(0.0)),
            (F(0.0), F(0.0), F(1.0)),
        )
    );
}

#[test]
fn should_have_correct_zero() {
    Mat3::<i32>::zero().iter().for_each(|&v| assert_eq!(v, 0));
}

#[test]
fn default_mat3_should_be_identity() {
    assert_eq!(Mat3::<i32>::default(), Mat3::identity());
}

#[test]
fn from_affine_should_affect_the_first_2_rows() {
    assert_eq!(
        Mat3::<i32>::from_affine_2d(
            (1, 2, 3),
            (4, 5, 6),
        ),
        Mat3::from_rows(
            (1, 2, 3),
            (4, 5, 6),
            (0, 0, 1),
        )
    );
}

#[test]
fn transpose_of_from_columns_should_match_from_rows() {
    assert_eq!(
        Mat3::from_columns(
            (1, 2, 3),
            (4, 5, 6),
            (7, 8, 9),
        )
        .transposed(),
        Mat3::from_rows(
            (1, 2, 3),
            (4, 5, 6),
            (7, 8, 9),
        )
    );
}

#[test]
fn transpose_of_from_rows_should_match_from_columns() {
    assert_eq!(
        Mat3::from_rows(
            (7, 8, 9),
            (4, 5, 6),
            (1, 2, 3),
        )
        .transposed(),
        Mat3::from_columns(
            (7, 8, 9),
            (4, 5, 6),
            (1, 2, 3),
        )
    );
}

#[test]
fn layout_should_be_column_major() {
    assert_eq!(
        Mat3::from_columns(
            (1, 2, 3),
            (4, 5, 6),
            (7, 8, 9),
        ),
        Mat3::from_array([1, 2, 3, 4, 5, 6, 7, 8, 9])
    );
}

#[test]
fn map_should_apply_elementwise() {
    assert_eq!(
        Mat3::from_array([1, 2, 3, 4, 5, 6, 7, 8, 9]).map(|v| v * 2),
        Mat3::from_array([2, 4, 6, 8, 10, 12, 14, 16, 18])
    );
}

#[test]
fn fill_should_override_content() {
    let mut m = Mat3::identity();
    let data = [1, 2, 3, 4, 5, 6, 7, 8, 9];
    m.fill(&data);
    assert_eq!(m, Mat3::from_array(data));
}

#[test]
fn addition_should_be_elementwise() {
    let m = Mat3::from_array([1, 2, 3, 4, 5, 6, 7, 8, 9]);
    let n = Mat3::from_array([19, 18, 17, 16, 15, 14, 13, 12, 11]);
    let expected = Mat3::zero().map(|_| 20);
    assert_eq!(m + &n, expected);
    assert_eq!(n + &m, expected);

    let mut m2 = m;
    let mut n2 = n;
    m2 += &n;
    n2 += &m;
    assert_eq!(m2, expected);
    assert_eq!(n2, expected);
}

#[test]
fn subtraction_should_be_elementwise() {
    let m = Mat3::from_array([1, 2, 3, 4, 5, 6, 7, 8, 9]);
    let n = Mat3::from_array([11, 12, 13, 14, 15, 16, 17, 18, 19]);
    let expected1 = Mat3::zero().map(|_| -10);
    let expected2 = Mat3::zero().map(|_| 10);
    assert_eq!(m - &n, expected1);
    assert_eq!(n - &m, expected2);

    let mut m2 = m;
    let mut n2 = n;
    m2 -= &n;
    n2 -= &m;
    assert_eq!(m2, expected1);
    assert_eq!(n2, expected2);
}

#[test]
fn should_multiply_correctly() {
    let m = Mat3::from_rows(
        (-1, 2, 3), //
        (4, 5, -6), //
        (-7, 8, 9), //
    );

    let n = Mat3::from_rows(
        (-33, 32, 31),  //
        (23, -22, 21),  //
        (13, -12, -11), //
    );

    let expected1 = Mat3::from_rows(
        (118, -112, -22),  //
        (-95, 90, 295),    //
        (532, -508, -148), //
    );

    let expected2 = Mat3::from_rows(
        (-56, 342, -12),  //
        (-258, 104, 390), //
        (16, -122, 12),   //
    );

    let actual1 = m * &n;
    let actual2 = n * &m;

    assert_eq!(actual1, expected1);
    assert_eq!(actual2, expected2);

    let mut m2 = m;
    let mut n2 = n;

    m2 *= &n;
    n2 *= &m;

    assert_eq!(m2, expected1);
    assert_eq!(n2, expected2);
}

#[test]
fn should_produce_correct_result_when_multiplied_with_a_vec3() {
    let m = Mat3::from_rows(
        (1, 2, 3), //
        (4, 5, 6), //
        (7, 8, 9), //
    );
    let v = Vec3::new(-1, 3, 2);
    let expected = Vec3::new(11, 23, 35);
    assert_eq!(&m * v, expected);
    assert_eq!(&m * &v, expected);
}

#[test]
fn scalar_multiplication_should_be_elementwise() {
    let m = Mat3::from_array([1, 2, 3, 4, 5, 6, 7, 8, 9]);
    let s = 4;
    let expected = Mat3::from_array([4, 8, 12, 16, 20, 24, 28, 32, 36]);
    assert_eq!(m * s, expected);
    assert_eq!(m * &s, expected);
    assert_eq!(&m * s, expected);
    assert_eq!(&m * &s, expected);

    let mut m2 = m;
    m2 *= s;
    assert_eq!(m2, expected);
}

#[test]
fn scalar_division_should_be_elementwise() {
    let m = Mat3::from_array([4, 8, 12, 16, 20, 24, 28, 32, 36]);
    let s = 4;
    let expected = Mat3::from_array([1, 2, 3, 4, 5, 6, 7, 8, 9]);
    assert_eq!(m / s, expected);
    assert_eq!(m / &s, expected);
    assert_eq!(&m / s, expected);
    assert_eq!(&m / &s, expected);

    let mut m2 = m;
    m2 /= s;
    assert_eq!(m2, expected);
}

#[test]
fn from_translation_2d_should_affect_last_column() {
    assert_eq!(
        Mat3::from_translation_2d(Vec2::new(2, 3)),
        Mat3::from_affine_2d(
            (1, 0, 2), //
            (0, 1, 3), //
        ),
    );
}

#[test]
fn from_scale_should_affect_values_in_diagonal() {
    assert_eq!(
        Mat3::from_scale(Vec3::new(5, 6, 7)),
        Mat3::from_rows(
            (5, 0, 0), //
            (0, 6, 0), //
            (0, 0, 7), //
        ),
    );
}

#[test]
fn from_scale_2d_should_affect_2_first_values_in_diagonal() {
    assert_eq!(
        Mat3::from_scale_2d(Vec2::new(3, 5)),
        Mat3::from_affine_2d(
            (3, 0, 0), //
            (0, 5, 0), //
        ),
    );
}

#[test]
fn adjugate_and_determinant_should_calculate_correctly() {
    let m = Mat3::from_rows(
        (1, 9, 4),  //
        (2, -8, 5), //
        (3, 7, 6),  //
    );

    let expected_adj = Mat3::from_rows(
        (-83, -26, 77), //
        (3, -6, 3),     //
        (38, 20, -26),  //
    );
    let expected_det = 96;

    let (actual_adj, actual_det) = m.adjugate_determinant();

    assert_eq!(actual_adj, expected_adj);
    assert_eq!(actual_det, expected_det);
}

#[test]
fn product_of_matrix_and_its_inverse_should_approximate_identity_matrix() {
    let m = Mat3::from_rows(
        (F(1.0), F(9.0), F(4.0)),  //
        (F(2.0), F(-8.0), F(5.0)), //
        (F(3.0), F(7.0), F(6.0)),  //
    );
    let actual = m * &m.inverse();
    let expected = Mat3::identity();

    actual
        .iter()
        .zip(expected.iter())
        .for_each(|(&a, &b)| assert_approx_eq(a, b, "product"));
}

fn from_rotation_helper(axis: Vec3<F>, rotation: fn(linmath::angle::Radians<F>) -> Mat3<F>, name: &str) {
    for i in 0..=STEPS {
        let f = i as f32;
        let angle = F(INCREMENT * f).as_radians();

        let actual = rotation(angle);
        let expected = Mat3::from_axis_angle(axis, angle);

        assert_all_approx_eq(&actual, &expected, &format!("{}({:?}, {:?})", name, axis, angle));
    }
}

#[test]
fn from_rotation_x_should_match_from_axis_angle_on_x_axis() {
    from_rotation_helper(Vec3::<F>::unit_x(), Mat3::from_rotation_x, "from_rotation_x");
}

#[test]
fn from_rotation_y_should_match_from_axis_angle_on_y_axis() {
    from_rotation_helper(Vec3::<F>::unit_y(), Mat3::from_rotation_y, "from_rotation_y");
}

#[test]
fn from_rotation_z_should_match_from_axis_angle_on_z_axis() {
    from_rotation_helper(Vec3::<F>::unit_z(), Mat3::from_rotation_z, "from_rotation_z");
}

#[test]
fn from_rotation_2d_should_match_from_axis_angle_on_z_axis() {
    from_rotation_helper(Vec3::<F>::unit_z(), Mat3::from_rotation_2d, "from_rotation_2d");
}

#[test]
fn from_axis_angle_should_match_matrix_of_quat_from_axis_angle() {
    let axes = [Vec3::unit_x(), Vec3::unit_y(), Vec3::unit_z(), vec3(1.0, 2.0, -3.0)];

    for axis in &axes {
        for i in 0..=STEPS {
            let f = i as f32;
            let angle = F(INCREMENT * f).as_radians();

            let actual = Mat3::from_axis_angle(*axis, angle);
            let expected = Mat3::from_quat(&Quat::from_axis_angle(*axis, angle));

            assert_all_approx_eq(&actual, &expected, &format!("from_axis_angle({:?}, {:?})", axis, angle));
        }
    }
}

#[test]
fn rotate_2d_on_identity_matrix_should_match_from_rotation_2d() {
    for i in 0..=STEPS {
        let f = i as f32;
        let angle = F(INCREMENT * f).as_radians();

        let mut actual = Mat3::identity();
        actual.rotate_2d(angle);
        let expected = Mat3::from_rotation_2d(angle);

        assert_all_approx_eq(&actual, &expected, &format!("rotate_2d({:?})", angle));
    }
}

#[test]
fn from_quat_on_identity_quat_should_be_identity_matrix() {
    let actual: Mat3<F> = Mat3::from_quat(&Quat::identity());
    let expected = Mat3::identity();

    actual
        .iter()
        .zip(expected.iter())
        .for_each(|(&a, &b)| assert_approx_eq(a, b, "from_quat"));
}

#[test]
fn from_quat_on_right_angles_around_y_should_be_correct() {
    let s = core::f32::consts::FRAC_PI_2;
    let expects = [
        Mat3::identity(),
        Mat3::from_rows(
            (F(0.0), F(0.0), F(1.0)),  //
            (F(0.0), F(1.0), F(0.0)),  //
            (F(-1.0), F(0.0), F(0.0)), //
        ),
        Mat3::from_rows(
            (F(-1.0), F(0.0), F(0.0)), //
            (F(0.0), F(1.0), F(0.0)),  //
            (F(0.0), F(0.0), F(-1.0)), //
        ),
        Mat3::from_rows(
            (F(0.0), F(0.0), F(-1.0)), //
            (F(0.0), F(1.0), F(0.0)),  //
            (F(1.0), F(0.0), F(0.0)),  //
        ),
        Mat3::identity(),
    ];

    let y_axis = Vec3::unit_y();

    for (i, expected) in expects.iter().enumerate() {
        let angle = F((i as f32) * s).as_radians();
        let q = Quat::from_axis_angle(y_axis, angle);
        let actual: Mat3<F> = Mat3::from_quat(&q);
        assert_all_approx_eq(&actual, expected, &format!("from_quat({:?})", q));
    }
}

// Edge cases and exact values.

#[test]
fn mat3_transposed_twice_is_the_matrix() {
    let m = Mat3::from_array([1, 2, 3, 4, 5, 6, 7, 8, 9]);
    assert_eq!(m.transposed().transposed(), m);
}

#[test]
fn mat3_made_of_its_own_array_is_the_matrix() {
    let m = Mat3::from_rows((1, 9, 4), (2, -8, 5), (3, 7, 6));
    assert_eq!(Mat3::from_array(*m.as_slice()), m);
    assert_eq!(m[3], 9);
    assert_eq!(m[linmath::types::mat3::consts::R1C2], 5);
    assert_eq!(m[linmath::types::mat3::consts::TX], 4);
}

#[test]
fn mat3_times_its_adjugate_is_the_determinant_on_the_diagonal() {
    let m = Mat3::from_rows((1, 9, 4), (2, -8, 5), (3, 7, 6));
    let (adj, det) = m.adjugate_determinant();
    assert_eq!(m * &adj, Mat3::identity() * det);
    assert_eq!(adj * &m, Mat3::identity() * det);
}

#[test]
fn mat3_inverse_of_integers_of_determinant_one_is_exact() {
    let m = Mat3::from_rows((1, 2, 0), (0, 1, 3), (0, 0, 1));
    assert_eq!(m.adjugate_determinant().1, 1);
    assert_eq!(m * &m.inverse(), Mat3::identity());
}

#[test]
fn mat3_rotate_2d_multiplies_by_the_rotation_from_the_left() {
    let angle = F(0.5).as_radians();
    let m = Mat3::from_rows(
        (F(1.0), F(9.0), F(4.0)),  //
        (F(2.0), F(-8.0), F(5.0)), //
        (F(3.0), F(7.0), F(6.0)),  //
    );
    let mut actual = m;
    actual.rotate_2d(angle);
    let expected = Mat3::from_rotation_2d(angle).mul(&m);
    assert_all_approx_eq(&actual, &expected, "rotate_2d");
    assert_eq!(actual[linmath::types::mat3::consts::R2C0], F(3.0));
}

#[test]
fn mat3_rotations_have_the_sine_where_the_hand_rule_puts_it() {
    let angle = F(core::f32::consts::FRAC_PI_2).as_radians();
    let (s, c) = angle.sin_cos();
    let o = F(0.0);
    let i = F(1.0);
    assert_eq!(Mat3::from_rotation_x(angle), Mat3::from_rows((i, o, o), (o, c, -s), (o, s, c)));
    assert_eq!(Mat3::from_rotation_y(angle), Mat3::from_rows((c, o, s), (o, i, o), (-s, o, c)));
    assert_eq!(Mat3::from_rotation_z(angle), Mat3::from_rows((c, -s, o), (s, c, o), (o, o, i)));
}

#[test]
fn mat3_from_quat_of_integers_is_exact() {
    let k: Quat<F> = Quat::new(F(0.0), vec3(0.0, 0.0, 1.0));
    assert_eq!(
        Mat3::from_quat(&k),
        Mat3::from_rows((F(-1.0), F(0.0), F(0.0)), (F(0.0), F(-1.0), F(0.0)), (F(0.0), F(0.0), F(1.0)))
    );
}
