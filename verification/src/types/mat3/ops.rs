//! The operators of [`Mat3`].
use super::consts;
use super::Mat3;
use crate::traits::obeys_arith;
use crate::traits::Numeric;
use crate::traits::Ring;
use crate::traits::Term;
use crate::types::Vec3;
use core::ops::Add;
use core::ops::AddAssign;
use core::ops::Div;
use core::ops::DivAssign;
use core::ops::Mul;
use core::ops::MulAssign;
use core::ops::Sub;
use core::ops::SubAssign;
use vstd::prelude::*;
use vstd::std_specs::ops::AddSpecImpl;
use vstd::std_specs::ops::DivSpecImpl;
use vstd::std_specs::ops::MulSpecImpl;
use vstd::std_specs::ops::SubSpecImpl;

verus! {

impl<'b, Value: Numeric> AddAssign<&'b Mat3<Value>> for Mat3<Value> {
    fn add_assign(&mut self, other: &'b Mat3<Value>)
        requires
            obeys_arith::<Value>(),
            old(self).terms().plus(other.terms()).defined(),
        ensures
            *final(self) == old(self).terms().plus(other.terms()).value(),
            final(self)@ == old(self).terms().plus(other.terms()).values(),
    {
        *self = Mat3(
            [
                self.0[0] + other.0[0], self.0[1] + other.0[1], self.0[2] + other.0[2],
                self.0[3] + other.0[3], self.0[4] + other.0[4], self.0[5] + other.0[5],
                self.0[6] + other.0[6], self.0[7] + other.0[7], self.0[8] + other.0[8],
            ],
        );
    }
}

impl<'b, Value: Numeric> Add<&'b Mat3<Value>> for Mat3<Value> {
    type Output = Mat3<Value>;

    fn add(self, other: &'b Mat3<Value>) -> (r: Mat3<Value>)
        ensures
            r@ == self.terms().plus(other.terms()).values(),
    {
        Mat3(
            [
                self.0[0] + other.0[0], self.0[1] + other.0[1], self.0[2] + other.0[2],
                self.0[3] + other.0[3], self.0[4] + other.0[4], self.0[5] + other.0[5],
                self.0[6] + other.0[6], self.0[7] + other.0[7], self.0[8] + other.0[8],
            ],
        )
    }
}

impl<'b, Value: Numeric> AddSpecImpl<&'b Mat3<Value>> for Mat3<Value> {
    open spec fn obeys_add_spec() -> bool {
        true
    }

    open spec fn add_req(self, other: &'b Mat3<Value>) -> bool {
        obeys_arith::<Value>() && self.terms().plus(other.terms()).defined()
    }

    open spec fn add_spec(self, other: &'b Mat3<Value>) -> Mat3<Value> {
        self.terms().plus(other.terms()).value()
    }
}

impl<'b, Value: Numeric> SubAssign<&'b Mat3<Value>> for Mat3<Value> {
    fn sub_assign(&mut self, other: &'b Mat3<Value>)
        requires
            obeys_arith::<Value>(),
            old(self).terms().minus(other.terms()).defined(),
        ensures
            *final(self) == old(self).terms().minus(other.terms()).value(),
            final(self)@ == old(self).terms().minus(other.terms()).values(),
    {
        *self = Mat3(
            [
                self.0[0] - other.0[0], self.0[1] - other.0[1], self.0[2] - other.0[2],
                self.0[3] - other.0[3], self.0[4] - other.0[4], self.0[5] - other.0[5],
                self.0[6] - other.0[6], self.0[7] - other.0[7], self.0[8] - other.0[8],
            ],
        );
    }
}

impl<'b, Value: Numeric> Sub<&'b Mat3<Value>> for Mat3<Value> {
    type Output = Mat3<Value>;

    fn sub(self, other: &'b Mat3<Value>) -> (r: Mat3<Value>)
        ensures
            r@ == self.terms().minus(other.terms()).values(),
    {
        Mat3(
            [
                self.0[0] - other.0[0], self.0[1] - other.0[1], self.0[2] - other.0[2],
                self.0[3] - other.0[3], self.0[4] - other.0[4], self.0[5] - other.0[5],
                self.0[6] - other.0[6], self.0[7] - other.0[7], self.0[8] - other.0[8],
            ],
        )
    }
}

impl<'b, Value: Numeric> SubSpecImpl<&'b Mat3<Value>> for Mat3<Value> {
    open spec fn obeys_sub_spec() -> bool {
        true
    }

    open spec fn sub_req(self, other: &'b Mat3<Value>) -> bool {
        obeys_arith::<Value>() && self.terms().minus(other.terms()).defined()
    }

    open spec fn sub_spec(self, other: &'b Mat3<Value>) -> Mat3<Value> {
        self.terms().minus(other.terms()).value()
    }
}

/// The matrix product, which does not commute.
impl<'b, Value: Numeric> MulAssign<&'b Mat3<Value>> for Mat3<Value> {
    fn mul_assign(&mut self, other: &'b Mat3<Value>)
        requires
            obeys_arith::<Value>(),
            old(self).terms().times(other.terms()).defined(),
        ensures
            *final(self) == old(self).terms().times(other.terms()).value(),
            final(self)@ == old(self).terms().times(other.terms()).values(),
    {
        let s_r0c0 = self.0[consts::R0C0];
        let s_r0c1 = self.0[consts::R0C1];
        let s_r0c2 = self.0[consts::R0C2];
        let s_r1c0 = self.0[consts::R1C0];
        let s_r1c1 = self.0[consts::R1C1];
        let s_r1c2 = self.0[consts::R1C2];
        let s_r2c0 = self.0[consts::R2C0];
        let s_r2c1 = self.0[consts::R2C1];
        let s_r2c2 = self.0[consts::R2C2];
        let o_r0c0 = other.0[consts::R0C0];
        let o_r0c1 = other.0[consts::R0C1];
        let o_r0c2 = other.0[consts::R0C2];
        let o_r1c0 = other.0[consts::R1C0];
        let o_r1c1 = other.0[consts::R1C1];
        let o_r1c2 = other.0[consts::R1C2];
        let o_r2c0 = other.0[consts::R2C0];
        let o_r2c1 = other.0[consts::R2C1];
        let o_r2c2 = other.0[consts::R2C2];
        *self = Mat3(
            [
                s_r0c0 * o_r0c0 + s_r0c1 * o_r1c0 + s_r0c2 * o_r2c0,
                s_r1c0 * o_r0c0 + s_r1c1 * o_r1c0 + s_r1c2 * o_r2c0,
                s_r2c0 * o_r0c0 + s_r2c1 * o_r1c0 + s_r2c2 * o_r2c0,
                s_r0c0 * o_r0c1 + s_r0c1 * o_r1c1 + s_r0c2 * o_r2c1,
                s_r1c0 * o_r0c1 + s_r1c1 * o_r1c1 + s_r1c2 * o_r2c1,
                s_r2c0 * o_r0c1 + s_r2c1 * o_r1c1 + s_r2c2 * o_r2c1,
                s_r0c0 * o_r0c2 + s_r0c1 * o_r1c2 + s_r0c2 * o_r2c2,
                s_r1c0 * o_r0c2 + s_r1c1 * o_r1c2 + s_r1c2 * o_r2c2,
                s_r2c0 * o_r0c2 + s_r2c1 * o_r1c2 + s_r2c2 * o_r2c2,
            ],
        );
    }
}

/// The matrix product, which does not commute.
impl<'b, Value: Numeric> Mul<&'b Mat3<Value>> for Mat3<Value> {
    type Output = Mat3<Value>;

    fn mul(self, other: &'b Mat3<Value>) -> (r: Mat3<Value>)
        ensures
            r@ == self.terms().times(other.terms()).values(),
    {
        let s_r0c0 = self.0[consts::R0C0];
        let s_r0c1 = self.0[consts::R0C1];
        let s_r0c2 = self.0[consts::R0C2];
        let s_r1c0 = self.0[consts::R1C0];
        let s_r1c1 = self.0[consts::R1C1];
        let s_r1c2 = self.0[consts::R1C2];
        let s_r2c0 = self.0[consts::R2C0];
        let s_r2c1 = self.0[consts::R2C1];
        let s_r2c2 = self.0[consts::R2C2];
        let o_r0c0 = other.0[consts::R0C0];
        let o_r0c1 = other.0[consts::R0C1];
        let o_r0c2 = other.0[consts::R0C2];
        let o_r1c0 = other.0[consts::R1C0];
        let o_r1c1 = other.0[consts::R1C1];
        let o_r1c2 = other.0[consts::R1C2];
        let o_r2c0 = other.0[consts::R2C0];
        let o_r2c1 = other.0[consts::R2C1];
        let o_r2c2 = other.0[consts::R2C2];
        Mat3(
            [
                s_r0c0 * o_r0c0 + s_r0c1 * o_r1c0 + s_r0c2 * o_r2c0,
                s_r1c0 * o_r0c0 + s_r1c1 * o_r1c0 + s_r1c2 * o_r2c0,
                s_r2c0 * o_r0c0 + s_r2c1 * o_r1c0 + s_r2c2 * o_r2c0,
                s_r0c0 * o_r0c1 + s_r0c1 * o_r1c1 + s_r0c2 * o_r2c1,
                s_r1c0 * o_r0c1 + s_r1c1 * o_r1c1 + s_r1c2 * o_r2c1,
                s_r2c0 * o_r0c1 + s_r2c1 * o_r1c1 + s_r2c2 * o_r2c1,
                s_r0c0 * o_r0c2 + s_r0c1 * o_r1c2 + s_r0c2 * o_r2c2,
                s_r1c0 * o_r0c2 + s_r1c1 * o_r1c2 + s_r1c2 * o_r2c2,
                s_r2c0 * o_r0c2 + s_r2c1 * o_r1c2 + s_r2c2 * o_r2c2,
            ],
        )
    }
}

impl<'b, Value: Numeric> MulSpecImpl<&'b Mat3<Value>> for Mat3<Value> {
    open spec fn obeys_mul_spec() -> bool {
        true
    }

    open spec fn mul_req(self, other: &'b Mat3<Value>) -> bool {
        obeys_arith::<Value>() && self.terms().times(other.terms()).defined()
    }

    open spec fn mul_spec(self, other: &'b Mat3<Value>) -> Mat3<Value> {
        self.terms().times(other.terms()).value()
    }
}

/// The matrix applied to a column vector.
impl<'a, Value: Numeric> Mul<Vec3<Value>> for &'a Mat3<Value> {
    type Output = Vec3<Value>;

    fn mul(self, other: Vec3<Value>) -> (r: Vec3<Value>)
        ensures
            r@ == self.terms().apply(other.terms()).values(),
    {
        let x = other.0[0];
        let y = other.0[1];
        let z = other.0[2];
        Vec3::new(
            self.0[consts::R0C0] * x + self.0[consts::R0C1] * y + self.0[consts::R0C2] * z,
            self.0[consts::R1C0] * x + self.0[consts::R1C1] * y + self.0[consts::R1C2] * z,
            self.0[consts::R2C0] * x + self.0[consts::R2C1] * y + self.0[consts::R2C2] * z,
        )
    }
}

impl<'a, Value: Numeric> MulSpecImpl<Vec3<Value>> for &'a Mat3<Value> {
    open spec fn obeys_mul_spec() -> bool {
        true
    }

    open spec fn mul_req(self, other: Vec3<Value>) -> bool {
        obeys_arith::<Value>() && self.terms().apply(other.terms()).defined()
    }

    open spec fn mul_spec(self, other: Vec3<Value>) -> Vec3<Value> {
        self.terms().apply(other.terms()).value()
    }
}

/// The matrix applied to a column vector.
impl<'a, 'b, Value: Numeric> Mul<&'b Vec3<Value>> for &'a Mat3<Value> {
    type Output = Vec3<Value>;

    fn mul(self, other: &'b Vec3<Value>) -> (r: Vec3<Value>)
        ensures
            r@ == self.terms().apply(other.terms()).values(),
    {
        let x = other.0[0];
        let y = other.0[1];
        let z = other.0[2];
        Vec3::new(
            self.0[consts::R0C0] * x + self.0[consts::R0C1] * y + self.0[consts::R0C2] * z,
            self.0[consts::R1C0] * x + self.0[consts::R1C1] * y + self.0[consts::R1C2] * z,
            self.0[consts::R2C0] * x + self.0[consts::R2C1] * y + self.0[consts::R2C2] * z,
        )
    }
}

impl<'a, 'b, Value: Numeric> MulSpecImpl<&'b Vec3<Value>> for &'a Mat3<Value> {
    open spec fn obeys_mul_spec() -> bool {
        true
    }

    open spec fn mul_req(self, other: &'b Vec3<Value>) -> bool {
        obeys_arith::<Value>() && self.terms().apply(other.terms()).defined()
    }

    open spec fn mul_spec(self, other: &'b Vec3<Value>) -> Vec3<Value> {
        self.terms().apply(other.terms()).value()
    }
}

impl<Value: Numeric> MulAssign<Value> for Mat3<Value> {
    fn mul_assign(&mut self, other: Value)
        requires
            obeys_arith::<Value>(),
            old(self).terms().times_each(Term::of(other)).defined(),
        ensures
            *final(self) == old(self).terms().times_each(Term::of(other)).value(),
            final(self)@ == old(self).terms().times_each(Term::of(other)).values(),
    {
        *self = Mat3(
            [
                self.0[0] * other, self.0[1] * other, self.0[2] * other,
                self.0[3] * other, self.0[4] * other, self.0[5] * other,
                self.0[6] * other, self.0[7] * other, self.0[8] * other,
            ],
        );
    }
}

impl<'b, Value: Numeric> MulAssign<&'b Value> for Mat3<Value> {
    fn mul_assign(&mut self, other: &'b Value)
        requires
            obeys_arith::<Value>(),
            old(self).terms().times_each(Term::of(*other)).defined(),
        ensures
            *final(self) == old(self).terms().times_each(Term::of(*other)).value(),
            final(self)@ == old(self).terms().times_each(Term::of(*other)).values(),
    {
        *self = Mat3(
            [
                self.0[0] * *other, self.0[1] * *other, self.0[2] * *other,
                self.0[3] * *other, self.0[4] * *other, self.0[5] * *other,
                self.0[6] * *other, self.0[7] * *other, self.0[8] * *other,
            ],
        );
    }
}

impl<Value: Numeric> Mul<Value> for Mat3<Value> {
    type Output = Mat3<Value>;

    fn mul(self, other: Value) -> (r: Mat3<Value>)
        ensures
            r@ == self.terms().times_each(Term::of(other)).values(),
    {
        Mat3(
            [
                self.0[0] * other, self.0[1] * other, self.0[2] * other,
                self.0[3] * other, self.0[4] * other, self.0[5] * other,
                self.0[6] * other, self.0[7] * other, self.0[8] * other,
            ],
        )
    }
}

impl<Value: Numeric> MulSpecImpl<Value> for Mat3<Value> {
    open spec fn obeys_mul_spec() -> bool {
        true
    }

    open spec fn mul_req(self, other: Value) -> bool {
        obeys_arith::<Value>() && self.terms().times_each(Term::of(other)).defined()
    }

    open spec fn mul_spec(self, other: Value) -> Mat3<Value> {
        self.terms().times_each(Term::of(other)).value()
    }
}

impl<'a, Value: Numeric> Mul<Value> for &'a Mat3<Value> {
    type Output = Mat3<Value>;

    fn mul(self, other: Value) -> (r: Mat3<Value>)
        ensures
            r@ == self.terms().times_each(Term::of(other)).values(),
    {
        Mat3(
            [
                self.0[0] * other, self.0[1] * other, self.0[2] * other,
                self.0[3] * other, self.0[4] * other, self.0[5] * other,
                self.0[6] * other, self.0[7] * other, self.0[8] * other,
            ],
        )
    }
}

impl<'a, Value: Numeric> MulSpecImpl<Value> for &'a Mat3<Value> {
    open spec fn obeys_mul_spec() -> bool {
        true
    }

    open spec fn mul_req(self, other: Value) -> bool {
        obeys_arith::<Value>() && self.terms().times_each(Term::of(other)).defined()
    }

    open spec fn mul_spec(self, other: Value) -> Mat3<Value> {
        self.terms().times_each(Term::of(other)).value()
    }
}

impl<'b, Value: Numeric> Mul<&'b Value> for Mat3<Value> {
    type Output = Mat3<Value>;

    fn mul(self, other: &'b Value) -> (r: Mat3<Value>)
        ensures
            r@ == self.terms().times_each(Term::of(*other)).values(),
    {
        Mat3(
            [
                self.0[0] * *other, self.0[1] * *other, self.0[2] * *other,
                self.0[3] * *other, self.0[4] * *other, self.0[5] * *other,
                self.0[6] * *other, self.0[7] * *other, self.0[8] * *other,
            ],
        )
    }
}

impl<'b, Value: Numeric> MulSpecImpl<&'b Value> for Mat3<Value> {
    open spec fn obeys_mul_spec() -> bool {
        true
    }

    open spec fn mul_req(self, other: &'b Value) -> bool {
        obeys_arith::<Value>() && self.terms().times_each(Term::of(*other)).defined()
    }

    open spec fn mul_spec(self, other: &'b Value) -> Mat3<Value> {
        self.terms().times_each(Term::of(*other)).value()
    }
}

impl<'a, 'b, Value: Numeric> Mul<&'b Value> for &'a Mat3<Value> {
    type Output = Mat3<Value>;

    fn mul(self, other: &'b Value) -> (r: Mat3<Value>)
        ensures
            r@ == self.terms().times_each(Term::of(*other)).values(),
    {
        Mat3(
            [
                self.0[0] * *other, self.0[1] * *other, self.0[2] * *other,
                self.0[3] * *other, self.0[4] * *other, self.0[5] * *other,
                self.0[6] * *other, self.0[7] * *other, self.0[8] * *other,
            ],
        )
    }
}

impl<'a, 'b, Value: Numeric> MulSpecImpl<&'b Value> for &'a Mat3<Value> {
    open spec fn obeys_mul_spec() -> bool {
        true
    }

    open spec fn mul_req(self, other: &'b Value) -> bool {
        obeys_arith::<Value>() && self.terms().times_each(Term::of(*other)).defined()
    }

    open spec fn mul_spec(self, other: &'b Value) -> Mat3<Value> {
        self.terms().times_each(Term::of(*other)).value()
    }
}

impl<Value: Numeric> DivAssign<Value> for Mat3<Value> {
    fn div_assign(&mut self, other: Value)
        requires
            obeys_arith::<Value>(),
            old(self).terms().over_each(Term::of(other)).defined(),
        ensures
            *final(self) == old(self).terms().over_each(Term::of(other)).value(),
            final(self)@ == old(self).terms().over_each(Term::of(other)).values(),
    {
        *self = Mat3(
            [
                self.0[0] / other, self.0[1] / other, self.0[2] / other,
                self.0[3] / other, self.0[4] / other, self.0[5] / other,
                self.0[6] / other, self.0[7] / other, self.0[8] / other,
            ],
        );
    }
}

impl<'b, Value: Numeric> DivAssign<&'b Value> for Mat3<Value> {
    fn div_assign(&mut self, other: &'b Value)
        requires
            obeys_arith::<Value>(),
            old(self).terms().over_each(Term::of(*other)).defined(),
        ensures
            *final(self) == old(self).terms().over_each(Term::of(*other)).value(),
            final(self)@ == old(self).terms().over_each(Term::of(*other)).values(),
    {
        *self = Mat3(
            [
                self.0[0] / *other, self.0[1] / *other, self.0[2] / *other,
                self.0[3] / *other, self.0[4] / *other, self.0[5] / *other,
                self.0[6] / *other, self.0[7] / *other, self.0[8] / *other,
            ],
        );
    }
}

impl<Value: Numeric> Div<Value> for Mat3<Value> {
    type Output = Mat3<Value>;

    fn div(self, other: Value) -> (r: Mat3<Value>)
        ensures
            r@ == self.terms().over_each(Term::of(other)).values(),
    {
        Mat3(
            [
                self.0[0] / other, self.0[1] / other, self.0[2] / other,
                self.0[3] / other, self.0[4] / other, self.0[5] / other,
                self.0[6] / other, self.0[7] / other, self.0[8] / other,
            ],
        )
    }
}

impl<Value: Numeric> DivSpecImpl<Value> for Mat3<Value> {
    open spec fn obeys_div_spec() -> bool {
        true
    }

    open spec fn div_req(self, other: Value) -> bool {
        obeys_arith::<Value>() && self.terms().over_each(Term::of(other)).defined()
    }

    open spec fn div_spec(self, other: Value) -> Mat3<Value> {
        self.terms().over_each(Term::of(other)).value()
    }
}

impl<'a, Value: Numeric> Div<Value> for &'a Mat3<Value> {
    type Output = Mat3<Value>;

    fn div(self, other: Value) -> (r: Mat3<Value>)
        ensures
            r@ == self.terms().over_each(Term::of(other)).values(),
    {
        Mat3(
            [
                self.0[0] / other, self.0[1] / other, self.0[2] / other,
                self.0[3] / other, self.0[4] / other, self.0[5] / other,
                self.0[6] / other, self.0[7] / other, self.0[8] / other,
            ],
        )
    }
}

impl<'a, Value: Numeric> DivSpecImpl<Value> for &'a Mat3<Value> {
    open spec fn obeys_div_spec() -> bool {
        true
    }

    open spec fn div_req(self, other: Value) -> bool {
        obeys_arith::<Value>() && self.terms().over_each(Term::of(other)).defined()
    }

    open spec fn div_spec(self, other: Value) -> Mat3<Value> {
        self.terms().over_each(Term::of(other)).value()
    }
}

impl<'b, Value: Numeric> Div<&'b Value> for Mat3<Value> {
    type Output = Mat3<Value>;

    fn div(self, other: &'b Value) -> (r: Mat3<Value>)
        ensures
            r@ == self.terms().over_each(Term::of(*other)).values(),
    {
        Mat3(
            [
                self.0[0] / *other, self.0[1] / *other, self.0[2] / *other,
                self.0[3] / *other, self.0[4] / *other, self.0[5] / *other,
                self.0[6] / *other, self.0[7] / *other, self.0[8] / *other,
            ],
        )
    }
}

impl<'b, Value: Numeric> DivSpecImpl<&'b Value> for Mat3<Value> {
    open spec fn obeys_div_spec() -> bool {
        true
    }

    open spec fn div_req(self, other: &'b Value) -> bool {
        obeys_arith::<Value>() && self.terms().over_each(Term::of(*other)).defined()
    }

    open spec fn div_spec(self, other: &'b Value) -> Mat3<Value> {
        self.terms().over_each(Term::of(*other)).value()
    }
}

impl<'a, 'b, Value: Numeric> Div<&'b Value> for &'a Mat3<Value> {
    type Output = Mat3<Value>;

    fn div(self, other: &'b Value) -> (r: Mat3<Value>)
        ensures
            r@ == self.terms().over_each(Term::of(*other)).values(),
    {
        Mat3(
            [
                self.0[0] / *other, self.0[1] / *other, self.0[2] / *other,
                self.0[3] / *other, self.0[4] / *other, self.0[5] / *other,
                self.0[6] / *other, self.0[7] / *other, self.0[8] / *other,
            ],
        )
    }
}

impl<'a, 'b, Value: Numeric> DivSpecImpl<&'b Value> for &'a Mat3<Value> {
    open spec fn obeys_div_spec() -> bool {
        true
    }

    open spec fn div_req(self, other: &'b Value) -> bool {
        obeys_arith::<Value>() && self.terms().over_each(Term::of(*other)).defined()
    }

    open spec fn div_spec(self, other: &'b Value) -> Mat3<Value> {
        self.terms().over_each(Term::of(*other)).value()
    }
}

} // verus!
