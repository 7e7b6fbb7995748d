use linmath::traits::float::{Float, Round, Sqrt, Trig};
use linmath::traits::{Identity, Numeric, Signed, Zero};
use linmath::types::{Vec2, Vec3, Vec4};

/// A single-precision number as an element type.
#[derive(Copy, Clone, Debug, Default, PartialEq, PartialOrd)]
struct F(f32);

impl core::ops::Add for F {
    type Output = F;
    fn add(self, o: F) -> F {
        F(self.0 + o.0)
    }
}

impl core::ops::Sub for F {
    type Output = F;
    fn sub(self, o: F) -> F {
        F(self.0 - o.0)
    }
}

impl core::ops::Mul for F {
    type Output = F;
    fn mul(self, o: F) -> F {
        F(self.0 * o.0)
    }
}

impl core::ops::Div for F {
    type Output = F;
    fn div(self, o: F) -> F {
        F(self.0 / o.0)
    }
}

impl core::ops::Rem for F {
    type Output = F;
    fn rem(self, o: F) -> F {
        F(self.0 % o.0)
    }
}

impl core::ops::Neg for F {
    type Output = F;
    fn neg(self) -> F {
        F(-self.0)
    }
}

// The `*_spec` functions exist for the verifier alone and are never run.
impl Identity for F {
    fn identity_spec() -> F {
        unreachable!()
    }
    fn identity() -> F {
        F(1.0)
    }
}

impl Zero for F {
    fn zero_spec() -> F {
        unreachable!()
    }
    fn zero() -> F {
        F(0.0)
    }
}

impl Numeric for F {}

impl Signed for F {
    fn abs_req(self) -> bool {
        unreachable!()
    }
    fn abs_spec(self) -> F {
        unreachable!()
    }
    fn signum_spec(self) -> F {
        unreachable!()
    }
    fn abs(&self) -> F {
        F(self.0.abs())
    }
    fn signum(&self) -> F {
        F(self.0.signum())
    }
}

impl Sqrt for F {
    fn sqrt_spec(self) -> F {
        unreachable!()
    }
    fn sqrt(&self) -> F {
        F(self.0.sqrt())
    }
}

impl Round for F {
    fn round_spec(self) -> F {
        unreachable!()
    }
    fn floor_spec(self) -> F {
        unreachable!()
    }
    fn trunc_spec(self) -> F {
        unreachable!()
    }
    fn ceil_spec(self) -> F {
        unreachable!()
    }
    fn round(&self) -> F {
        F(self.0.round())
    }
    fn floor(&self) -> F {
        F(self.0.floor())
    }
    fn trunc(&self) -> F {
        F(self.0.trunc())
    }
    fn ceil(&self) -> F {
        F(self.0.ceil())
    }
}

impl Trig for F {
    fn acos_spec(self) -> F {
        unreachable!()
    }
    fn asin_spec(self) -> F {
        unreachable!()
    }
    fn atan_spec(self) -> F {
        unreachable!()
    }
    fn cos_spec(self) -> F {
        unreachable!()
    }
    fn sin_spec(self) -> F {
        unreachable!()
    }
    fn tan_spec(self) -> F {
        unreachable!()
    }
    fn pi_spec() -> F {
        unreachable!()
    }
    fn acos(&self) -> F {
        F(self.0.acos())
    }
    fn asin(&self) -> F {
        F(self.0.asin())
    }
    fn atan(&self) -> F {
        F(self.0.atan())
    }
    fn cos(&self) -> F {
        F(self.0.cos())
    }
    fn sin(&self) -> F {
        F(self.0.sin())
    }
    fn tan(&self) -> F {
        F(self.0.tan())
    }
    fn pi() -> F {
        F(core::f32::consts::PI)
    }
}

impl Float for F {}

const TOLERANCE: f32 = 10.0 * core::f32::EPSILON;

/// Fails unless `left` is within the tolerance of `right`.
fn assert_approx_eq(left: F, right: F, what: &str) {
    if left - F(TOLERANCE) > right || left + F(TOLERANCE) < right {
        panic!("assertion failed: `(left == right)`\n  left: `{:?}`,\n right: `{:?}`: {}", left, right, what);
    }
}

fn vec4(x: f32, y: f32, z: f32, w: f32) -> Vec4<F> {
    Vec4::new(F(x), F(y), F(z), F(w))
}

#[test]
fn sum_on_vec4_is_sum_of_components() {
    assert_eq!(Vec4::new(1, 2, 3, 4).sum(), 1 + 2 + 3 + 4);
    assert_eq!(Vec4::new(4, 3, 1, 9).sum(), 4 + 3 + 1 + 9);
}

#[test]
fn dot_of_two_vec4_is_sum_of_elementwise_products() {
    let a = Vec4::new(5, 6, 7, 8);
    let b = Vec4::new(3, 4, 5, 2);
    assert_eq!(a.dot(&b), 5 * 3 + 6 * 4 + 7 * 5 + 8 * 2);

    let a = Vec4::new(-2, -6, 3, 7);
    let b = Vec4::new(3, -2, 4, -3);
    assert_eq!(a.dot(&b), (-2 * 3) + (-6 * -2) + (3 * 4) + (7 * -3));
}

#[test]
fn square_distance_of_two_vec4_is_square_magnitude_of_difference() {
    let a = Vec4::new(-2, -6, 3, 7);
    let b = Vec4::new(3, -2, 4, -3);
    assert_eq!(a.square_distance(&b), (a - b).square_magnitude());
}

#[test]
fn scaling_a_vec4_by_scalar_is_componentwise_multiplication_by_scalar() {
    let mut a = Vec4::new(-2, -6, 3, 7);
    assert_eq!(a.scale(2), &mut Vec4::new(-2 * 2, -6 * 2, 3 * 2, 7 * 2));
}

#[test]
fn scaling_a_vec4_by_vec4_is_componentwise_multiplication() {
    let mut a = Vec4::new(-2, -6, 3, 7);
    let b = Vec4::new(3, -2, 4, -3);
    assert_eq!(a.scale_by(&b), &mut Vec4::new(-2 * 3, -6 * -2, 3 * 4, 7 * -3));
}

#[test]
fn magnitude_of_vec4_is_square_root_of_square_magnitude() {
    let a = vec4(-2.0, -6.0, 3.0, 1.0);
    assert_approx_eq(a.magnitude(), a.square_magnitude().sqrt(), "magnitude");
}

#[test]
fn distance_between_two_vec4_is_square_root_of_square_distance() {
    let a = vec4(-2.0, -6.0, 3.0, 1.0);
    let b = vec4(3.0, -2.0, 4.0, -1.0);
    assert_approx_eq(a.distance_to(&b), a.square_distance(&b).sqrt(), "distance");
}

#[test]
fn normalized_float_vec4_has_magnitude_of_one() {
    let mut a = vec4(-2.0, -6.0, 3.0, 1.0);
    assert_approx_eq(a.normalize().magnitude(), F(1.0), "magnitude");
}

#[test]
fn vec4_unit_x_const_is_1_0_0_0() {
    assert_eq!(Vec4::unit_x(), Vec4::new(1, 0, 0, 0));
}

#[test]
fn vec4_unit_y_const_is_0_1_0_0() {
    assert_eq!(Vec4::unit_y(), Vec4::new(0, 1, 0, 0));
}

#[test]
fn vec4_unit_z_const_is_0_0_1_0() {
    assert_eq!(Vec4::unit_z(), Vec4::new(0, 0, 1, 0));
}

#[test]
fn vec4_unit_w_const_is_0_0_0_1() {
    assert_eq!(Vec4::unit_w(), Vec4::new(0, 0, 0, 1));
}

// Edge cases and exact values.

#[test]
fn vec4_of_zero_length_is_left_alone_by_normalize() {
    let mut a = vec4(0.0, 0.0, 0.0, 0.0);
    assert_eq!(*a.normalize(), vec4(0.0, 0.0, 0.0, 0.0));
}

#[test]
fn vec4_keeps_what_new_was_given() {
    let mut a = Vec4::new(7, -3, 5, 9);
    assert_eq!((a.x(), a.y(), a.z(), a.w()), (7, -3, 5, 9));
    assert_eq!(a.as_array(), [7, -3, 5, 9]);
    assert_eq!(a[3], 9);
    a.set_x(1);
    a.set_y(2);
    a.set_z(3);
    a.set_w(4);
    assert_eq!(a, Vec4::new(1, 2, 3, 4));
    assert_eq!(a.iter().copied().collect::<Vec<i32>>(), vec![1, 2, 3, 4]);
    assert_eq!(Vec4::<i32>::identity(), Vec4::new(1, 1, 1, 1));
    assert_eq!(Vec4::<i32>::zero(), Vec4::new(0, 0, 0, 0));
}

#[test]
fn vec4_operators_work_by_component() {
    let a = Vec4::new(12, -8, 20, 6);
    let b = Vec4::new(3, 2, 5, -6);
    assert_eq!(a + b, Vec4::new(15, -6, 25, 0));
    assert_eq!(&a - &b, Vec4::new(9, -10, 15, 12));
    assert_eq!(a * &b, Vec4::new(36, -16, 100, -36));
    assert_eq!(&a / b, Vec4::new(4, -4, 4, -1));
    assert_eq!(a * 2, Vec4::new(24, -16, 40, 12));
    assert_eq!(-a, Vec4::new(-12, 8, -20, -6));
}

#[test]
fn vec4_round_trips_through_tuple_and_array() {
    let a = Vec4::new(4, 9, -1, 0);
    let t: (i32, i32, i32, i32) = a.into();
    assert_eq!(Vec4::from(t), a);
    let d: [i32; 4] = a.into();
    assert_eq!(Vec4::from(d), a);
}

#[test]
fn vec4_narrows_to_its_first_components() {
    assert_eq!(Vec3::from(Vec4::new(1, 2, 3, 4)), Vec3::new(1, 2, 3));
    assert_eq!(Vec2::from(Vec4::new(1, 2, 3, 4)), Vec2::new(1, 2));
}

#[test]
fn vec4_angle_between_a_vector_and_itself_is_zero() {
    let r = vec4(0.0, 2.0, 0.0, 0.0).angle_between(&vec4(0.0, 5.0, 0.0, 0.0));
    assert_approx_eq(r.value(), F(0.0), "angle");
}
