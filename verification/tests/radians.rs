use linmath::angle::{AsRadians, Radians};
use linmath::traits::float::{Float, Round, Sqrt, Trig};
use linmath::traits::{Identity, Numeric, Signed, Zero};

/// A single-precision number as an element type.
#[derive(Copy, Clone, Debug, Default, PartialEq, PartialOrd)]
struct F(f32);

impl core::ops::Add for F {
    type Output = F;
    fn add(self, o: F) -> F {
        F(self.0 + o.0)
    }
}

impl core::ops::Sub for F {
    type Output = F;
    fn sub(self, o: F) -> F {
        F(self.0 - o.0)
    }
}

impl core::ops::Mul for F {
    type Output = F;
    fn mul(self, o: F) -> F {
        F(self.0 * o.0)
    }
}

impl core::ops::Div for F {
    type Output = F;
    fn div(self, o: F) -> F {
        F(self.0 / o.0)
    }
}

impl core::ops::Rem for F {
    type Output = F;
    fn rem(self, o: F) -> F {
        F(self.0 % o.0)
    }
}

impl core::ops::Neg for F {
    type Output = F;
    fn neg(self) -> F {
        F(-self.0)
    }
}

// The `*_spec` functions exist for the verifier alone and are never run.
impl Identity for F {
    fn identity_spec() -> F {
        unreachable!()
    }
    fn identity() -> F {
        F(1.0)
    }
}

impl Zero for F {
    fn zero_spec() -> F {
        unreachable!()
    }
    fn zero() -> F {
        F(0.0)
    }
}

impl Numeric for F {}

impl Signed for F {
    fn abs_req(self) -> bool {
        unreachable!()
    }
    fn abs_spec(self) -> F {
        unreachable!()
    }
    fn signum_spec(self) -> F {
        unreachable!()
    }
    fn abs(&self) -> F {
        F(self.0.abs())
    }
    fn signum(&self) -> F {
        F(self.0.signum())
    }
}

impl Sqrt for F {
    fn sqrt_spec(self) -> F {
        unreachable!()
    }
    fn sqrt(&self) -> F {
        F(self.0.sqrt())
    }
}

impl Round for F {
    fn round_spec(self) -> F {
        unreachable!()
    }
    fn floor_spec(self) -> F {
        unreachable!()
    }
    fn trunc_spec(self) -> F {
        unreachable!()
    }
    fn ceil_spec(self) -> F {
        unreachable!()
    }
    fn round(&self) -> F {
        F(self.0.round())
    }
    fn floor(&self) -> F {
        F(self.0.floor())
    }
    fn trunc(&self) -> F {
        F(self.0.trunc())
    }
    fn ceil(&self) -> F {
        F(self.0.ceil())
    }
}

impl Trig for F {
    fn acos_spec(self) -> F {
        unreachable!()
    }
    fn asin_spec(self) -> F {
        unreachable!()
    }
    fn atan_spec(self) -> F {
        unreachable!()
    }
    fn cos_spec(self) -> F {
        unreachable!()
    }
    fn sin_spec(self) -> F {
        unreachable!()
    }
    fn tan_spec(self) -> F {
        unreachable!()
    }
    fn pi_spec() -> F {
        unreachable!()
    }
    fn acos(&self) -> F {
        F(self.0.acos())
    }
    fn asin(&self) -> F {
        F(self.0.asin())
    }
    fn atan(&self) -> F {
        F(self.0.atan())
    }
    fn cos(&self) -> F {
        F(self.0.cos())
    }
    fn sin(&self) -> F {
        F(self.0.sin())
    }
    fn tan(&self) -> F {
        F(self.0.tan())
    }
    fn pi() -> F {
        F(core::f32::consts::PI)
    }
}

impl Float for F {}

const TOLERANCE: f32 = 10.0 * core::f32::EPSILON;

/// Fails unless `left` is within the tolerance of `right`.
fn assert_approx_eq(left: F, right: F, what: &str) {
    if left - F(TOLERANCE) > right || left + F(TOLERANCE) < right {
        panic!("assertion failed: `(left == right)`\n  left: `{:?}`,\n right: `{:?}`: {}", left, right, what);
    }
}

#[test]
fn radians_keep_the_number_they_were_made_of() {
    assert_eq!(Radians::new(F(1.5)).value(), F(1.5));
    assert_eq!(F(0.25).as_radians().value(), F(0.25));
}

#[test]
fn radians_of_an_inverse_function_hold_its_result() {
    assert_eq!(Radians::acos(F(0.5)).value(), F(0.5f32.acos()));
    assert_eq!(Radians::asin(F(0.5)).value(), F(0.5f32.asin()));
    assert_eq!(Radians::atan(F(2.0)).value(), F(2.0f32.atan()));
    assert_approx_eq(Radians::acos(F(0.0)).value(), F(core::f32::consts::FRAC_PI_2), "acos");
}

#[test]
fn radians_evaluate_the_functions_of_their_number() {
    let a = F(0.75).as_radians();
    assert_eq!(a.sin(), F(0.75f32.sin()));
    assert_eq!(a.cos(), F(0.75f32.cos()));
    assert_eq!(a.tan(), F(0.75f32.tan()));
    assert_eq!(a.sin_cos(), (F(0.75f32.sin()), F(0.75f32.cos())));
}

#[test]
fn radians_add_and_subtract_among_themselves() {
    let a = Radians(F(1.5));
    let b = Radians(F(0.25));
    assert_eq!((a + b).value(), F(1.75));
    assert_eq!((&a - &b).value(), F(1.25));
    assert_eq!((a - &b).value(), F(1.25));
    assert_eq!((&a + b).value(), F(1.75));
    let mut c = a;
    c += b;
    c -= Radians(F(1.0));
    assert_eq!(c.value(), F(0.75));
}

#[test]
fn radians_combine_with_plain_numbers() {
    let a = Radians(F(1.5));
    assert_eq!((a + F(1.0)).value(), F(2.5));
    assert_eq!((a - F(1.0)).value(), F(0.5));
    assert_eq!((a * F(2.0)).value(), F(3.0));
    assert_eq!((&a / F(2.0)).value(), F(0.75));
    assert_eq!((-a).value(), F(-1.5));
    assert_eq!((-&a).value(), F(-1.5));
}

#[test]
fn radians_of_integers_take_the_number_on_either_side() {
    let a = Radians(6i32);
    assert_eq!((a * 2).0, 12);
    assert_eq!((2 * a).0, 12);
    assert_eq!((20 - a).0, 14);
    assert_eq!((a - 20).0, -14);
    assert_eq!((18 / a).0, 3);
    assert_eq!((1 + a).0, 7);
    let mut b = a;
    b *= Radians(3);
    b /= Radians(2);
    assert_eq!(b.0, 9);
}
