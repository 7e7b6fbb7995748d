use linmath::angle::AsRadians;
use linmath::traits::float::{Float, Round, Sqrt, Trig};
use linmath::traits::{Identity, Numeric, Signed, Zero};
use linmath::types::{Vec2, Vec3, Vec4};

/// A single-precision number as an element type.
#[derive(Copy, Clone, Debug, Default, PartialEq, PartialOrd)]
struct F(f32);

impl core::ops::Add for F {
    type Output = F;
    fn add(self, o: F) -> F {
        F(self.0 + o.0)
    }
}

impl core::ops::Sub for F {
    type Output = F;
    fn sub(self, o: F) -> F {
        F(self.0 - o.0)
    }
}

impl core::ops::Mul for F {
    type Output = F;
    fn mul(self, o: F) -> F {
        F(self.0 * o.0)
    }
}

impl core::ops::Div for F {
    type Output = F;
    fn div(self, o: F) -> F {
        F(self.0 / o.0)
    }
}

impl core::ops::Rem for F {
    type Output = F;
    fn rem(self, o: F) -> F {
        F(self.0 % o.0)
    }
}

impl core::ops::Neg for F {
    type Output = F;
    fn neg(self) -> F {
        F(-self.0)
    }
}

// The `*_spec` functions exist for the verifier alone and are never run.
impl Identity for F {
    fn identity_spec() -> F {
        unreachable!()
    }
    fn identity() -> F {
        F(1.0)
    }
}

impl Zero for F {
    fn zero_spec() -> F {
        unreachable!()
    }
    fn zero() -> F {
        F(0.0)
    }
}

impl Numeric for F {}

impl Signed for F {
    fn abs_req(self) -> bool {
        unreachable!()
    }
    fn abs_spec(self) -> F {
        unreachable!()
    }
    fn signum_spec(self) -> F {
        unreachable!()
    }
    fn abs(&self) -> F {
        F(self.0.abs())
    }
    fn signum(&self) -> F {
        F(self.0.signum())
    }
}

impl Sqrt for F {
    fn sqrt_spec(self) -> F {
        unreachable!()
    }
    fn sqrt(&self) -> F {
        F(self.0.sqrt())
    }
}

impl Round for F {
    fn round_spec(self) -> F {
        unreachable!()
    }
    fn floor_spec(self) -> F {
        unreachable!()
    }
    fn trunc_spec(self) -> F {
        unreachable!()
    }
    fn ceil_spec(self) -> F {
        unreachable!()
    }
    fn round(&self) -> F {
        F(self.0.round())
    }
    fn floor(&self) -> F {
        F(self.0.floor())
    }
    fn trunc(&self) -> F {
        F(self.0.trunc())
    }
    fn ceil(&self) -> F {
        F(self.0.ceil())
    }
}

impl Trig for F {
    fn acos_spec(self) -> F {
        unreachable!()
    }
    fn asin_spec(self) -> F {
        unreachable!()
    }
    fn atan_spec(self) -> F {
        unreachable!()
    }
    fn cos_spec(self) -> F {
        unreachable!()
    }
    fn sin_spec(self) -> F {
        unreachable!()
    }
    fn tan_spec(self) -> F {
        unreachable!()
    }
    fn pi_spec() -> F {
        unreachable!()
    }
    fn acos(&self) -> F {
        F(self.0.acos())
    }
    fn asin(&self) -> F {
        F(self.0.asin())
    }
    fn atan(&self) -> F {
        F(self.0.atan())
    }
    fn cos(&self) -> F {
        F(self.0.cos())
    }
    fn sin(&self) -> F {
        F(self.0.sin())
    }
    fn tan(&self) -> F {
        F(self.0.tan())
    }
    fn pi() -> F {
        F(core::f32::consts::PI)
    }
}

impl Float for F {}

const TOLERANCE: f32 = 10.0 * core::f32::EPSILON;

/// Fails unless `left` is within the tolerance of `right`.
fn assert_approx_eq(left: F, right: F, what: &str) {
    if left - F(TOLERANCE) > right || left + F(TOLERANCE) < right {
        panic!("assertion failed: `(left == right)`\n  left: `{:?}`,\n right: `{:?}`: {}", left, right, what);
    }
}

/// Fails unless each component of `left` is within the tolerance of that of `right`.
fn assert_approx_eq_vec2(left: Vec2<F>, right: Vec2<F>, what: &str) {
    for (l, r) in left.iter().zip(right.iter()) {
        assert_approx_eq(*l, *r, &format!("{}: {:?} against {:?}", what, left, right));
    }
}

fn vec2(x: f32, y: f32) -> Vec2<F> {
    Vec2::new(F(x), F(y))
}

#[test]
fn sum_on_vec2_is_sum_of_components() {
    assert_eq!(Vec2::new(1, 2).sum(), 1 + 2);
    assert_eq!(Vec2::new(4, 3).sum(), 4 + 3);
}

#[test]
fn dot_of_two_vec2_is_sum_of_elementwise_products() {
    let a = Vec2::new(5, 6);
    let b = Vec2::new(3, 4);
    assert_eq!(a.dot(&b), 5 * 3 + 6 * 4);

    let a = Vec2::new(-2, -6);
    let b = Vec2::new(3, -2);
    assert_eq!(a.dot(&b), (-2 * 3) + (-6 * -2));
}

#[test]
fn square_distance_of_two_vec2_is_square_magnitude_of_difference() {
    let a = Vec2::new(-2, -6);
    let b = Vec2::new(3, -2);
    assert_eq!(a.square_distance(&b), (a - b).square_magnitude());
}

#[test]
fn scaling_a_vec2_by_scalar_is_componentwise_multiplication_by_scalar() {
    let mut a = Vec2::new(-2, -6);
    assert_eq!(a.scale(2), &mut Vec2::new(-2 * 2, -6 * 2));
}

#[test]
fn scaling_a_vec2_by_vec2_is_componentwise_multiplication() {
    let mut a = Vec2::new(-2, -6);
    let b = Vec2::new(3, -2);
    assert_eq!(a.scale_by(&b), &mut Vec2::new(-2 * 3, -6 * -2));
}

#[test]
fn magnitude_of_vec2_is_square_root_of_square_magnitude() {
    let a = vec2(-2.0, -6.0);
    assert_approx_eq(a.magnitude(), a.square_magnitude().sqrt(), "magnitude");
}

#[test]
fn distance_between_two_vec2_is_square_root_of_square_distance() {
    let a = vec2(-2.0, -6.0);
    let b = vec2(3.0, -2.0);
    assert_approx_eq(a.distance_to(&b), a.square_distance(&b).sqrt(), "distance");
}

#[test]
fn normalized_float_vec2_has_magnitude_of_one() {
    let mut a = vec2(-2.0, -6.0);
    assert_approx_eq(a.normalize().magnitude(), F(1.0), "magnitude");
}

#[test]
fn vec2_unit_x_const_is_1_0() {
    assert_eq!(Vec2::unit_x(), Vec2::new(1, 0));
}

#[test]
fn vec2_unit_y_const_is_0_1() {
    assert_eq!(Vec2::unit_y(), Vec2::new(0, 1));
}

#[test]
fn rotate_x_on_vec2_rotates_counterclockwise() {
    const PI: f32 = core::f32::consts::PI;
    assert_approx_eq_vec2(
        *vec2(-2.0, -6.0).rotate(F(PI / 2.0).as_radians()),
        vec2(6.0, -2.0),
        "a quarter turn",
    );
    assert_approx_eq_vec2(*vec2(-2.0, -6.0).rotate(F(PI).as_radians()), vec2(2.0, 6.0), "half a turn");
    assert_approx_eq_vec2(
        *vec2(-2.0, -6.0).rotate(F(3.0 * PI / 2.0).as_radians()),
        vec2(-6.0, 2.0),
        "three quarters of a turn",
    );
    assert_approx_eq_vec2(
        *vec2(-2.0, -6.0).rotate(F(2.0 * PI).as_radians()),
        vec2(-2.0, -6.0),
        "a full turn",
    );
}

// Edge cases and exact values.

#[test]
fn vec2_of_zero_length_is_left_alone_by_normalize() {
    let mut a = vec2(0.0, 0.0);
    assert_eq!(*a.normalize(), vec2(0.0, 0.0));
}

#[test]
fn vec2_keeps_what_new_was_given() {
    let mut a = Vec2::new(7, -3);
    assert_eq!((a.x(), a.y()), (7, -3));
    assert_eq!(a.as_array(), [7, -3]);
    assert_eq!(a[0], 7);
    assert_eq!(a[1], -3);
    a.set_x(1);
    a.set_y(2);
    assert_eq!(a, Vec2::new(1, 2));
    assert_eq!(a.iter().copied().collect::<Vec<i32>>(), vec![1, 2]);
    assert_eq!(a.map(|v| v * 10), Vec2::new(10, 20));
}

#[test]
fn vec2_operators_work_by_component() {
    let a = Vec2::new(12, -8);
    let b = Vec2::new(3, 2);
    assert_eq!(a + b, Vec2::new(15, -6));
    assert_eq!(&a - &b, Vec2::new(9, -10));
    assert_eq!(a * &b, Vec2::new(36, -16));
    assert_eq!(&a / b, Vec2::new(4, -4));
    assert_eq!(a + 1, Vec2::new(13, -7));
    assert_eq!(&a - 1, Vec2::new(11, -9));
    assert_eq!(a * 2, Vec2::new(24, -16));
    assert_eq!(a / 4, Vec2::new(3, -2));
    assert_eq!(-a, Vec2::new(-12, 8));
    let mut c = a;
    c += b;
    c -= &b;
    c *= 3;
    c /= b;
    assert_eq!(c, Vec2::new(12, -12));
}

#[test]
fn vec2_round_trips_through_tuple_and_array() {
    let a = Vec2::new(4, 9);
    let t: (i32, i32) = a.into();
    assert_eq!(t, (4, 9));
    assert_eq!(Vec2::from(t), a);
    let d: [i32; 2] = a.into();
    assert_eq!(Vec2::from(d), a);
    assert_eq!(Vec2::from(&d), a);
    let e: [i32; 2] = (&a).into();
    assert_eq!(e, [4, 9]);
}

#[test]
fn vec2_swizzles_pick_the_named_components() {
    let a = Vec2::new(1, 2);
    assert_eq!(a.yx(), Vec2::new(2, 1));
    assert_eq!(a.xxy(), Vec3::new(1, 1, 2));
    assert_eq!(a.yxyx(), Vec4::new(2, 1, 2, 1));
    assert_eq!(a.yyyy(), Vec4::new(2, 2, 2, 2));
}

#[test]
fn vec2_angle_between_perpendicular_vectors_is_a_quarter_turn() {
    let r = vec2(2.0, 0.0).angle_between(&vec2(0.0, 3.0));
    assert_approx_eq(r.value(), F(core::f32::consts::FRAC_PI_2), "angle");
}
