use linmath::angle::AsRadians;
use linmath::traits::float::{Float, Round, Sqrt, Trig};
use linmath::traits::{Identity, Numeric, Signed, Zero};
use linmath::types::{Mat3, Vec2, Vec3, Vec4};

/// A single-precision number as an element type.
#[derive(Copy, Clone, Debug, Default, PartialEq, PartialOrd)]
struct F(f32);

impl core::ops::Add for F {
    type Output = F;
    fn add(self, o: F) -> F {
        F(self.0 + o.0)
    }
}

impl core::ops::Sub for F {
    type Output = F;
    fn sub(self, o: F) -> F {
        F(self.0 - o.0)
    }
}

impl core::ops::Mul for F {
    type Output = F;
    fn mul(self, o: F) -> F {
        F(self.0 * o.0)
    }
}

impl core::ops::Div for F {
    type Output = F;
    fn div(self, o: F) -> F {
        F(self.0 / o.0)
    }
}

impl core::ops::Rem for F {
    type Output = F;
    fn rem(self, o: F) -> F {
        F(self.0 % o.0)
    }
}

impl core::ops::Neg for F {
    type Output = F;
    fn neg(self) -> F {
        F(-self.0)
    }
}

// The `*_spec` functions exist for the verifier alone and are never run.
impl Identity for F {
    fn identity_spec() -> F {
        unreachable!()
    }
    fn identity() -> F {
        F(1.0)
    }
}

impl Zero for F {
    fn zero_spec() -> F {
        unreachable!()
    }
    fn zero() -> F {
        F(0.0)
    }
}

impl Numeric for F {}

impl Signed for F {
    fn abs_req(self) -> bool {
        unreachable!()
    }
    fn abs_spec(self) -> F {
        unreachable!()
    }
    fn signum_spec(self) -> F {
        unreachable!()
    }
    fn abs(&self) -> F {
        F(self.0.abs())
    }
    fn signum(&self) -> F {
        F(self.0.signum())
    }
}

impl Sqrt for F {
    fn sqrt_spec(self) -> F {
        unreachable!()
    }
    fn sqrt(&self) -> F {
        F(self.0.sqrt())
    }
}

impl Round for F {
    fn round_spec(self) -> F {
        unreachable!()
    }
    fn floor_spec(self) -> F {
        unreachable!()
    }
    fn trunc_spec(self) -> F {
        unreachable!()
    }
    fn ceil_spec(self) -> F {
        unreachable!()
    }
    fn round(&self) -> F {
        F(self.0.round())
    }
    fn floor(&self) -> F {
        F(self.0.floor())
    }
    fn trunc(&self) -> F {
        F(self.0.trunc())
    }
    fn ceil(&self) -> F {
        F(self.0.ceil())
    }
}

impl Trig for F {
    fn acos_spec(self) -> F {
        unreachable!()
    }
    fn asin_spec(self) -> F {
        unreachable!()
    }
    fn atan_spec(self) -> F {
        unreachable!()
    }
    fn cos_spec(self) -> F {
        unreachable!()
    }
    fn sin_spec(self) -> F {
        unreachable!()
    }
    fn tan_spec(self) -> F {
        unreachable!()
    }
    fn pi_spec() -> F {
        unreachable!()
    }
    fn acos(&self) -> F {
        F(self.0.acos())
    }
    fn asin(&self) -> F {
        F(self.0.asin())
    }
    fn atan(&self) -> F {
        F(self.0.atan())
    }
    fn cos(&self) -> F {
        F(self.0.cos())
    }
    fn sin(&self) -> F {
        F(self.0.sin())
    }
    fn tan(&self) -> F {
        F(self.0.tan())
    }
    fn pi() -> F {
        F(core::f32::consts::PI)
    }
}

impl Float for F {}

const TOLERANCE: f32 = 10.0 * core::f32::EPSILON;

/// Fails unless `left` is within the tolerance of `right`.
fn assert_approx_eq(left: F, right: F, what: &str) {
    if left - F(TOLERANCE) > right || left + F(TOLERANCE) < right {
        panic!("assertion failed: `(left == right)`\n  left: `{:?}`,\n right: `{:?}`: {}", left, right, what);
    }
}

/// Fails unless each component of `left` is within the tolerance of that of `right`.
fn assert_approx_eq_vec3(left: Vec3<F>, right: Vec3<F>, what: &str) {
    for (l, r) in left.iter().zip(right.iter()) {
        assert_approx_eq(*l, *r, &format!("{}: {:?} against {:?}", what, left, right));
    }
}

fn vec3(x: f32, y: f32, z: f32) -> Vec3<F> {
    Vec3::new(F(x), F(y), F(z))
}

#[test]
fn vec3_should_have_identity_as_1_1_1() {
    assert_eq!(Vec3::identity(), Vec3::new(1, 1, 1));
}

#[test]
fn vec3_should_have_zero_as_0_0_0() {
    assert_eq!(Vec3::zero(), Vec3::new(0, 0, 0));
}

#[test]
fn sum_on_vec3_is_sum_of_components() {
    assert_eq!(Vec3::new(1, 2, 3).sum(), 1 + 2 + 3);
    assert_eq!(Vec3::new(4, 3, 1).sum(), 4 + 3 + 1);
}

#[test]
fn dot_of_two_vec3_is_sum_of_elementwise_products() {
    let a = Vec3::new(5, 6, 7);
    let b = Vec3::new(3, 4, 5);
    assert_eq!(a.dot(&b), 5 * 3 + 6 * 4 + 7 * 5);

    let a = Vec3::new(-2, -6, 3);
    let b = Vec3::new(3, -2, 4);
    assert_eq!(a.dot(&b), (-2 * 3) + (-6 * -2) + (3 * 4));
}

#[test]
fn cross_product_of_5_6_7_and_3_4_5_is_2_neg4_2() {
    let a = Vec3::new(5, 6, 7);
    let b = Vec3::new(3, 4, 5);
    assert_eq!(a.cross(&b), Vec3::new(2, -4, 2));
}

#[test]
fn cross_product_of_neg2_neg6_3_and_3_neg2_4_is_neg18_17_22() {
    let a = Vec3::new(-2, -6, 3);
    let b = Vec3::new(3, -2, 4);
    assert_eq!(a.cross(&b), Vec3::new(-18, 17, 22));
}

#[test]
fn square_distance_of_two_vec3_is_square_magnitude_of_difference() {
    let a = Vec3::new(-2, -6, 3);
    let b = Vec3::new(3, -2, 4);
    assert_eq!(a.square_distance(&b), (a - b).square_magnitude());
}

#[test]
fn scaling_a_vec3_by_scalar_is_componentwise_multiplication_by_scalar() {
    let mut a = Vec3::new(-2, -6, 3);
    assert_eq!(a.scale(2), &mut Vec3::new(-2 * 2, -6 * 2, 3 * 2));
}

#[test]
fn scaling_a_vec3_by_vec3_is_componentwise_multiplication() {
    let mut a = Vec3::new(-2, -6, 3);
    let b = Vec3::new(3, -2, 4);
    assert_eq!(a.scale_by(&b), &mut Vec3::new(-2 * 3, -6 * -2, 3 * 4));
}

#[test]
fn magnitude_of_vec3_is_square_root_of_square_magnitude() {
    let a = vec3(-2.0, -6.0, 3.0);
    assert_approx_eq(a.magnitude(), a.square_magnitude().sqrt(), "magnitude");
}

#[test]
fn distance_between_two_vec3_is_square_root_of_square_distance() {
    let a = vec3(-2.0, -6.0, 3.0);
    let b = vec3(3.0, -2.0, 4.0);
    assert_approx_eq(a.distance_to(&b), a.square_distance(&b).sqrt(), "distance");
}

#[test]
fn normalized_float_vec3_has_magnitude_of_one() {
    let mut a = vec3(-2.0, -6.0, 3.0);
    assert_approx_eq(a.normalize().magnitude(), F(1.0), "magnitude");
}

#[test]
fn vec3_should_have_unit_x_as_1_0_0() {
    assert_eq!(Vec3::unit_x(), Vec3::new(1, 0, 0));
}

#[test]
fn vec3_should_have_unit_y_as_0_1_0() {
    assert_eq!(Vec3::unit_y(), Vec3::new(0, 1, 0));
}

#[test]
fn vec3_should_have_unit_z_as_0_0_1() {
    assert_eq!(Vec3::unit_z(), Vec3::new(0, 0, 1));
}

#[test]
fn rotate_x_on_vec3_rotates_counterclockwise_in_yz_plane() {
    const PI: f32 = core::f32::consts::PI;
    assert_approx_eq_vec3(
        *vec3(-2.0, -6.0, 3.0).rotate_x(F(PI / 2.0).as_radians()),
        vec3(-2.0, -3.0, -6.0),
        "a quarter turn",
    );
    assert_approx_eq_vec3(
        *vec3(-2.0, -6.0, 3.0).rotate_x(F(PI).as_radians()),
        vec3(-2.0, 6.0, -3.0),
        "half a turn",
    );
    assert_approx_eq_vec3(
        *vec3(-2.0, -6.0, 3.0).rotate_x(F(3.0 * PI / 2.0).as_radians()),
        vec3(-2.0, 3.0, 6.0),
        "three quarters of a turn",
    );
    assert_approx_eq_vec3(
        *vec3(-2.0, -6.0, 3.0).rotate_x(F(2.0 * PI).as_radians()),
        vec3(-2.0, -6.0, 3.0),
        "a full turn",
    );
}

#[test]
fn rotate_y_on_vec3_rotates_counterclockwise_in_xz_plane() {
    const PI: f32 = core::f32::consts::PI;
    assert_approx_eq_vec3(
        *vec3(-2.0, -6.0, 3.0).rotate_y(F(PI / 2.0).as_radians()),
        vec3(3.0, -6.0, 2.0),
        "a quarter turn",
    );
    assert_approx_eq_vec3(
        *vec3(-2.0, -6.0, 3.0).rotate_y(F(PI).as_radians()),
        vec3(2.0, -6.0, -3.0),
        "half a turn",
    );
    assert_approx_eq_vec3(
        *vec3(-2.0, -6.0, 3.0).rotate_y(F(3.0 * PI / 2.0).as_radians()),
        vec3(-3.0, -6.0, -2.0),
        "three quarters of a turn",
    );
    assert_approx_eq_vec3(
        *vec3(-2.0, -6.0, 3.0).rotate_y(F(2.0 * PI).as_radians()),
        vec3(-2.0, -6.0, 3.0),
        "a full turn",
    );
}

#[test]
fn rotate_z_on_vec3_rotates_counterclockwise_in_xy_plane() {
    const PI: f32 = core::f32::consts::PI;
    assert_approx_eq_vec3(
        *vec3(-2.0, -6.0, 3.0).rotate_z(F(PI / 2.0).as_radians()),
        vec3(6.0, -2.0, 3.0),
        "a quarter turn",
    );
    assert_approx_eq_vec3(
        *vec3(-2.0, -6.0, 3.0).rotate_z(F(PI).as_radians()),
        vec3(2.0, 6.0, 3.0),
        "half a turn",
    );
    assert_approx_eq_vec3(
        *vec3(-2.0, -6.0, 3.0).rotate_z(F(3.0 * PI / 2.0).as_radians()),
        vec3(-6.0, 2.0, 3.0),
        "three quarters of a turn",
    );
    assert_approx_eq_vec3(
        *vec3(-2.0, -6.0, 3.0).rotate_z(F(2.0 * PI).as_radians()),
        vec3(-2.0, -6.0, 3.0),
        "a full turn",
    );
}

// Edge cases and exact values.

#[test]
fn vec3_of_zero_length_is_left_alone_by_normalize() {
    let mut a = vec3(0.0, 0.0, 0.0);
    assert_eq!(*a.normalize(), vec3(0.0, 0.0, 0.0));
}

#[test]
fn vec3_normalize_divides_by_the_magnitude() {
    let mut a = vec3(0.0, 3.0, 4.0);
    assert_eq!(*a.normalize(), vec3(0.0, 3.0 / 5.0, 4.0 / 5.0));
}

#[test]
fn vec3_rotate_y_takes_each_component_from_its_formula() {
    let angle = F(0.7);
    let (s, c) = angle.as_radians().sin_cos();
    let r = *vec3(-2.0, -6.0, 3.0).rotate_y(angle.as_radians());
    assert_eq!(r.x(), c * F(-2.0) + s * F(3.0));
    assert_eq!(r.y(), F(-6.0));
    assert_eq!(r.z(), -s * F(-2.0) + c * F(3.0));
}

#[test]
fn vec3_rotations_are_those_of_the_matrices() {
    let angle = F(0.7).as_radians();
    let v = vec3(-2.0, -6.0, 3.0);
    let mut x = v;
    let mut y = v;
    let mut z = v;
    assert_approx_eq_vec3(*x.rotate_x(angle), &Mat3::from_rotation_x(angle) * v, "about x");
    assert_approx_eq_vec3(*y.rotate_y(angle), &Mat3::from_rotation_y(angle) * v, "about y");
    assert_approx_eq_vec3(*z.rotate_z(angle), &Mat3::from_rotation_z(angle) * v, "about z");
}

#[test]
fn vec3_rotations_keep_the_length_and_are_undone_by_the_opposite_turn() {
    let angle = F(core::f32::consts::FRAC_PI_4).as_radians();
    let v = vec3(1.0, 0.0, 1.0);
    let mut r = v;
    r.rotate_y(angle);
    assert_approx_eq(r.square_magnitude(), v.square_magnitude(), "length about y");
    assert_approx_eq_vec3(r, vec3(2.0f32.sqrt(), 0.0, 0.0), "an eighth of a turn about y");
    assert_approx_eq_vec3(*r.rotate_y(-angle), v, "back about y");
    let w = vec3(-2.0, -6.0, 3.0);
    let mut x = w;
    let mut z = w;
    assert_approx_eq(F(x.rotate_x(angle).square_magnitude().0 / 49.0), F(1.0), "length about x");
    assert_approx_eq(F(z.rotate_z(angle).square_magnitude().0 / 49.0), F(1.0), "length about z");
    assert_eq!(x.x(), F(-2.0));
    assert_eq!(z.z(), F(3.0));
}

#[test]
fn vec3_keeps_what_new_was_given() {
    let mut a = Vec3::new(7, -3, 5);
    assert_eq!((a.x(), a.y(), a.z()), (7, -3, 5));
    assert_eq!(a.as_array(), [7, -3, 5]);
    assert_eq!(a[2], 5);
    a.set_x(1);
    a.set_y(2);
    a.set_z(3);
    assert_eq!(a, Vec3::new(1, 2, 3));
    assert_eq!(a.iter().copied().collect::<Vec<i32>>(), vec![1, 2, 3]);
}

#[test]
fn vec3_operators_work_by_component() {
    let a = Vec3::new(12, -8, 20);
    let b = Vec3::new(3, 2, 5);
    assert_eq!(a + b, Vec3::new(15, -6, 25));
    assert_eq!(&a - &b, Vec3::new(9, -10, 15));
    assert_eq!(a * &b, Vec3::new(36, -16, 100));
    assert_eq!(&a / b, Vec3::new(4, -4, 4));
    assert_eq!(a + 1, Vec3::new(13, -7, 21));
    assert_eq!(&a - 1, Vec3::new(11, -9, 19));
    assert_eq!(a * 2, Vec3::new(24, -16, 40));
    assert_eq!(a / 4, Vec3::new(3, -2, 5));
    assert_eq!(-a, Vec3::new(-12, 8, -20));
    assert_eq!(-&a, Vec3::new(-12, 8, -20));
    let mut c = a;
    c += b;
    c -= &b;
    c *= 3;
    c /= b;
    assert_eq!(c, Vec3::new(12, -12, 12));
}

#[test]
fn vec3_round_trips_through_tuple_and_array() {
    let a = Vec3::new(4, 9, -1);
    let t: (i32, i32, i32) = a.into();
    assert_eq!(t, (4, 9, -1));
    assert_eq!(Vec3::from(t), a);
    let d: [i32; 3] = a.into();
    assert_eq!(Vec3::from(d), a);
    assert_eq!(Vec3::from(&d), a);
    let e: [i32; 3] = (&a).into();
    assert_eq!(e, [4, 9, -1]);
}

#[test]
fn vec3_swizzles_pick_the_named_components() {
    let a = Vec3::new(1, 2, 3);
    assert_eq!(a.zx(), Vec2::new(3, 1));
    assert_eq!(a.zyx(), Vec3::new(3, 2, 1));
    assert_eq!(a.xyz(), a);
    assert_eq!(a.yzzx(), Vec4::new(2, 3, 3, 1));
}

#[test]
fn vec3_narrows_to_its_first_two_components() {
    assert_eq!(Vec2::from(Vec3::new(1, 2, 3)), Vec2::new(1, 2));
}

#[test]
fn vec3_angle_between_perpendicular_vectors_is_a_quarter_turn() {
    let r = vec3(2.0, 0.0, 0.0).angle_between(&vec3(0.0, 0.0, 3.0));
    assert_approx_eq(r.value(), F(core::f32::consts::FRAC_PI_2), "angle");
}

#[test]
fn vec3_cross_product_changes_sign_with_the_order() {
    let a = Vec3::new(5, 6, 7);
    let b = Vec3::new(3, 4, 5);
    assert_eq!(b.cross(&a), -a.cross(&b));
    assert_eq!(a.cross(&b).dot(&a), 0);
}
