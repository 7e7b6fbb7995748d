//! The operators of [`Mat4`].
use super::consts;
use super::Mat4;
use crate::traits::obeys_arith;
use crate::traits::Numeric;
use crate::traits::Ring;
use crate::traits::Term;
use crate::types::Vec4;
use core::ops::Add;
use core::ops::AddAssign;
use core::ops::Div;
use core::ops::DivAssign;
use core::ops::Mul;
use core::ops::MulAssign;
use core::ops::Sub;
use core::ops::SubAssign;
use vstd::prelude::*;
use vstd::std_specs::ops::AddSpecImpl;
use vstd::std_specs::ops::DivSpecImpl;
use vstd::std_specs::ops::MulSpecImpl;
use vstd::std_specs::ops::SubSpecImpl;

verus! {

impl<'b, Value: Numeric> AddAssign<&'b Mat4<Value>> for Mat4<Value> {
    fn add_assign(&mut self, other: &'b Mat4<Value>)
        requires
            obeys_arith::<Value>(),
            old(self).terms().plus(other.terms()).defined(),
        ensures
            *final(self) == old(self).terms().plus(other.terms()).value(),
            final(self)@ == old(self).terms().plus(other.terms()).values(),
    {
        *self = Mat4(
            [
                self.0[0] + other.0[0],
                self.0[1] + other.0[1],
                self.0[2] + other.0[2],
                self.0[3] + other.0[3],
                self.0[4] + other.0[4],
                self.0[5] + other.0[5],
                self.0[6] + other.0[6],
                self.0[7] + other.0[7],
                self.0[8] + other.0[8],
                self.0[9] + other.0[9],
                self.0[10] + other.0[10],
                self.0[11] + other.0[11],
                self.0[12] + other.0[12],
                self.0[13] + other.0[13],
                self.0[14] + other.0[14],
                self.0[15] + other.0[15],
            ],
        );
    }
}

impl<'b, Value: Numeric> Add<&'b Mat4<Value>> for Mat4<Value> {
    type Output = Mat4<Value>;

    fn add(self, other: &'b Mat4<Value>) -> (r: Mat4<Value>)
        ensures
            r@ == self.terms().plus(other.terms()).values(),
    {
        Mat4(
            [
                self.0[0] + other.0[0],
                self.0[1] + other.0[1],
                self.0[2] + other.0[2],
                self.0[3] + other.0[3],
                self.0[4] + other.0[4],
                self.0[5] + other.0[5],
                self.0[6] + other.0[6],
                self.0[7] + other.0[7],
                self.0[8] + other.0[8],
                self.0[9] + other.0[9],
                self.0[10] + other.0[10],
                self.0[11] + other.0[11],
                self.0[12] + other.0[12],
                self.0[13] + other.0[13],
                self.0[14] + other.0[14],
                self.0[15] + other.0[15],
            ],
        )
    }
}

impl<'b, Value: Numeric> AddSpecImpl<&'b Mat4<Value>> for Mat4<Value> {
    open spec fn obeys_add_spec() -> bool {
        true
    }

    open spec fn add_req(self, other: &'b Mat4<Value>) -> bool {
        obeys_arith::<Value>() && self.terms().plus(other.terms()).defined()
    }

    open spec fn add_spec(self, other: &'b Mat4<Value>) -> Mat4<Value> {
        self.terms().plus(other.terms()).value()
    }
}

impl<'b, Value: Numeric> SubAssign<&'b Mat4<Value>> for Mat4<Value> {
    fn sub_assign(&mut self, other: &'b Mat4<Value>)
        requires
            obeys_arith::<Value>(),
            old(self).terms().minus(other.terms()).defined(),
        ensures
            *final(self) == old(self).terms().minus(other.terms()).value(),
            final(self)@ == old(self).terms().minus(other.terms()).values(),
    {
        *self = Mat4(
            [
                self.0[0] - other.0[0],
                self.0[1] - other.0[1],
                self.0[2] - other.0[2],
                self.0[3] - other.0[3],
                self.0[4] - other.0[4],
                self.0[5] - other.0[5],
                self.0[6] - other.0[6],
                self.0[7] - other.0[7],
                self.0[8] - other.0[8],
                self.0[9] - other.0[9],
                self.0[10] - other.0[10],
                self.0[11] - other.0[11],
                self.0[12] - other.0[12],
                self.0[13] - other.0[13],
                self.0[14] - other.0[14],
                self.0[15] - other.0[15],
            ],
        );
    }
}

impl<'b, Value: Numeric> Sub<&'b Mat4<Value>> for Mat4<Value> {
    type Output = Mat4<Value>;

    fn sub(self, other: &'b Mat4<Value>) -> (r: Mat4<Value>)
        ensures
            r@ == self.terms().minus(other.terms()).values(),
    {
        Mat4(
            [
                self.0[0] - other.0[0],
                self.0[1] - other.0[1],
                self.0[2] - other.0[2],
                self.0[3] - other.0[3],
                self.0[4] - other.0[4],
                self.0[5] - other.0[5],
                self.0[6] - other.0[6],
                self.0[7] - other.0[7],
                self.0[8] - other.0[8],
                self.0[9] - other.0[9],
                self.0[10] - other.0[10],
                self.0[11] - other.0[11],
                self.0[12] - other.0[12],
                self.0[13] - other.0[13],
                self.0[14] - other.0[14],
                self.0[15] - other.0[15],
            ],
        )
    }
}

impl<'b, Value: Numeric> SubSpecImpl<&'b Mat4<Value>> for Mat4<Value> {
    open spec fn obeys_sub_spec() -> bool {
        true
    }

    open spec fn sub_req(self, other: &'b Mat4<Value>) -> bool {
        obeys_arith::<Value>() && self.terms().minus(other.terms()).defined()
    }

    open spec fn sub_spec(self, other: &'b Mat4<Value>) -> Mat4<Value> {
        self.terms().minus(other.terms()).value()
    }
}

/// The matrix product, which does not commute.
impl<'b, Value: Numeric> MulAssign<&'b Mat4<Value>> for Mat4<Value> {
    fn mul_assign(&mut self, other: &'b Mat4<Value>)
        requires
            obeys_arith::<Value>(),
            old(self).terms().times(other.terms()).defined(),
        ensures
            *final(self) == old(self).terms().times(other.terms()).value(),
            final(self)@ == old(self).terms().times(other.terms()).values(),
    {
        let s_r0c0 = self.0[consts::R0C0];
        let s_r0c1 = self.0[consts::R0C1];
        let s_r0c2 = self.0[consts::R0C2];
        let s_r0c3 = self.0[consts::R0C3];
        let s_r1c0 = self.0[consts::R1C0];
        let s_r1c1 = self.0[consts::R1C1];
        let s_r1c2 = self.0[consts::R1C2];
        let s_r1c3 = self.0[consts::R1C3];
        let s_r2c0 = self.0[consts::R2C0];
        let s_r2c1 = self.0[consts::R2C1];
        let s_r2c2 = self.0[consts::R2C2];
        let s_r2c3 = self.0[consts::R2C3];
        let s_r3c0 = self.0[consts::R3C0];
        let s_r3c1 = self.0[consts::R3C1];
        let s_r3c2 = self.0[consts::R3C2];
        let s_r3c3 = self.0[consts::R3C3];
        let o_r0c0 = other.0[consts::R0C0];
        let o_r0c1 = other.0[consts::R0C1];
        let o_r0c2 = other.0[consts::R0C2];
        let o_r0c3 = other.0[consts::R0C3];
        let o_r1c0 = other.0[consts::R1C0];
        let o_r1c1 = other.0[consts::R1C1];
        let o_r1c2 = other.0[consts::R1C2];
        let o_r1c3 = other.0[consts::R1C3];
        let o_r2c0 = other.0[consts::R2C0];
        let o_r2c1 = other.0[consts::R2C1];
        let o_r2c2 = other.0[consts::R2C2];
        let o_r2c3 = other.0[consts::R2C3];
        let o_r3c0 = other.0[consts::R3C0];
        let o_r3c1 = other.0[consts::R3C1];
        let o_r3c2 = other.0[consts::R3C2];
        let o_r3c3 = other.0[consts::R3C3];
        *self = Mat4(
            [
                s_r0c0 * o_r0c0 + s_r0c1 * o_r1c0 + s_r0c2 * o_r2c0 + s_r0c3 * o_r3c0,
                s_r1c0 * o_r0c0 + s_r1c1 * o_r1c0 + s_r1c2 * o_r2c0 + s_r1c3 * o_r3c0,
                s_r2c0 * o_r0c0 + s_r2c1 * o_r1c0 + s_r2c2 * o_r2c0 + s_r2c3 * o_r3c0,
                s_r3c0 * o_r0c0 + s_r3c1 * o_r1c0 + s_r3c2 * o_r2c0 + s_r3c3 * o_r3c0,
                s_r0c0 * o_r0c1 + s_r0c1 * o_r1c1 + s_r0c2 * o_r2c1 + s_r0c3 * o_r3c1,
                s_r1c0 * o_r0c1 + s_r1c1 * o_r1c1 + s_r1c2 * o_r2c1 + s_r1c3 * o_r3c1,
                s_r2c0 * o_r0c1 + s_r2c1 * o_r1c1 + s_r2c2 * o_r2c1 + s_r2c3 * o_r3c1,
                s_r3c0 * o_r0c1 + s_r3c1 * o_r1c1 + s_r3c2 * o_r2c1 + s_r3c3 * o_r3c1,
                s_r0c0 * o_r0c2 + s_r0c1 * o_r1c2 + s_r0c2 * o_r2c2 + s_r0c3 * o_r3c2,
                s_r1c0 * o_r0c2 + s_r1c1 * o_r1c2 + s_r1c2 * o_r2c2 + s_r1c3 * o_r3c2,
                s_r2c0 * o_r0c2 + s_r2c1 * o_r1c2 + s_r2c2 * o_r2c2 + s_r2c3 * o_r3c2,
                s_r3c0 * o_r0c2 + s_r3c1 * o_r1c2 + s_r3c2 * o_r2c2 + s_r3c3 * o_r3c2,
                s_r0c0 * o_r0c3 + s_r0c1 * o_r1c3 + s_r0c2 * o_r2c3 + s_r0c3 * o_r3c3,
                s_r1c0 * o_r0c3 + s_r1c1 * o_r1c3 + s_r1c2 * o_r2c3 + s_r1c3 * o_r3c3,
                s_r2c0 * o_r0c3 + s_r2c1 * o_r1c3 + s_r2c2 * o_r2c3 + s_r2c3 * o_r3c3,
                s_r3c0 * o_r0c3 + s_r3c1 * o_r1c3 + s_r3c2 * o_r2c3 + s_r3c3 * o_r3c3,
            ],
        );
    }
}

/// The matrix product, which does not commute.
impl<'b, Value: Numeric> Mul<&'b Mat4<Value>> for Mat4<Value> {
    type Output = Mat4<Value>;

    fn mul(self, other: &'b Mat4<Value>) -> (r: Mat4<Value>)
        ensures
            r@ == self.terms().times(other.terms()).values(),
    {
        let s_r0c0 = self.0[consts::R0C0];
        let s_r0c1 = self.0[consts::R0C1];
        let s_r0c2 = self.0[consts::R0C2];
        let s_r0c3 = self.0[consts::R0C3];
        let s_r1c0 = self.0[consts::R1C0];
        let s_r1c1 = self.0[consts::R1C1];
        let s_r1c2 = self.0[consts::R1C2];
        let s_r1c3 = self.0[consts::R1C3];
        let s_r2c0 = self.0[consts::R2C0];
        let s_r2c1 = self.0[consts::R2C1];
        let s_r2c2 = self.0[consts::R2C2];
        let s_r2c3 = self.0[consts::R2C3];
        let s_r3c0 = self.0[consts::R3C0];
        let s_r3c1 = self.0[consts::R3C1];
        let s_r3c2 = self.0[consts::R3C2];
        let s_r3c3 = self.0[consts::R3C3];
        let o_r0c0 = other.0[consts::R0C0];
        let o_r0c1 = other.0[consts::R0C1];
        let o_r0c2 = other.0[consts::R0C2];
        let o_r0c3 = other.0[consts::R0C3];
        let o_r1c0 = other.0[consts::R1C0];
        let o_r1c1 = other.0[consts::R1C1];
        let o_r1c2 = other.0[consts::R1C2];
        let o_r1c3 = other.0[consts::R1C3];
        let o_r2c0 = other.0[consts::R2C0];
        let o_r2c1 = other.0[consts::R2C1];
        let o_r2c2 = other.0[consts::R2C2];
        let o_r2c3 = other.0[consts::R2C3];
        let o_r3c0 = other.0[consts::R3C0];
        let o_r3c1 = other.0[consts::R3C1];
        let o_r3c2 = other.0[consts::R3C2];
        let o_r3c3 = other.0[consts::R3C3];
        Mat4(
            [
                s_r0c0 * o_r0c0 + s_r0c1 * o_r1c0 + s_r0c2 * o_r2c0 + s_r0c3 * o_r3c0,
                s_r1c0 * o_r0c0 + s_r1c1 * o_r1c0 + s_r1c2 * o_r2c0 + s_r1c3 * o_r3c0,
                s_r2c0 * o_r0c0 + s_r2c1 * o_r1c0 + s_r2c2 * o_r2c0 + s_r2c3 * o_r3c0,
                s_r3c0 * o_r0c0 + s_r3c1 * o_r1c0 + s_r3c2 * o_r2c0 + s_r3c3 * o_r3c0,
                s_r0c0 * o_r0c1 + s_r0c1 * o_r1c1 + s_r0c2 * o_r2c1 + s_r0c3 * o_r3c1,
                s_r1c0 * o_r0c1 + s_r1c1 * o_r1c1 + s_r1c2 * o_r2c1 + s_r1c3 * o_r3c1,
                s_r2c0 * o_r0c1 + s_r2c1 * o_r1c1 + s_r2c2 * o_r2c1 + s_r2c3 * o_r3c1,
                s_r3c0 * o_r0c1 + s_r3c1 * o_r1c1 + s_r3c2 * o_r2c1 + s_r3c3 * o_r3c1,
                s_r0c0 * o_r0c2 + s_r0c1 * o_r1c2 + s_r0c2 * o_r2c2 + s_r0c3 * o_r3c2,
                s_r1c0 * o_r0c2 + s_r1c1 * o_r1c2 + s_r1c2 * o_r2c2 + s_r1c3 * o_r3c2,
                s_r2c0 * o_r0c2 + s_r2c1 * o_r1c2 + s_r2c2 * o_r2c2 + s_r2c3 * o_r3c2,
                s_r3c0 * o_r0c2 + s_r3c1 * o_r1c2 + s_r3c2 * o_r2c2 + s_r3c3 * o_r3c2,
                s_r0c0 * o_r0c3 + s_r0c1 * o_r1c3 + s_r0c2 * o_r2c3 + s_r0c3 * o_r3c3,
                s_r1c0 * o_r0c3 + s_r1c1 * o_r1c3 + s_r1c2 * o_r2c3 + s_r1c3 * o_r3c3,
                s_r2c0 * o_r0c3 + s_r2c1 * o_r1c3 + s_r2c2 * o_r2c3 + s_r2c3 * o_r3c3,
                s_r3c0 * o_r0c3 + s_r3c1 * o_r1c3 + s_r3c2 * o_r2c3 + s_r3c3 * o_r3c3,
            ],
        )
    }
}

impl<'b, Value: Numeric> MulSpecImpl<&'b Mat4<Value>> for Mat4<Value> {
    open spec fn obeys_mul_spec() -> bool {
        true
    }

    open spec fn mul_req(self, other: &'b Mat4<Value>) -> bool {
        obeys_arith::<Value>() && self.terms().times(other.terms()).defined()
    }

    open spec fn mul_spec(self, other: &'b Mat4<Value>) -> Mat4<Value> {
        self.terms().times(other.terms()).value()
    }
}

/// The matrix applied to a column vector.
impl<'a, Value: Numeric> Mul<Vec4<Value>> for &'a Mat4<Value> {
    type Output = Vec4<Value>;

    fn mul(self, other: Vec4<Value>) -> (r: Vec4<Value>)
        ensures
            r@ == self.terms().apply(other.terms()).values(),
    {
        let x = other.0[0];
        let y = other.0[1];
        let z = other.0[2];
        let w = other.0[3];
        Vec4::new(
            self.0[consts::R0C0] * x + self.0[consts::R0C1] * y + self.0[consts::R0C2] * z + self.0[consts::R0C3] * w,
            self.0[consts::R1C0] * x + self.0[consts::R1C1] * y + self.0[consts::R1C2] * z + self.0[consts::R1C3] * w,
            self.0[consts::R2C0] * x + self.0[consts::R2C1] * y + self.0[consts::R2C2] * z + self.0[consts::R2C3] * w,
            self.0[consts::R3C0] * x + self.0[consts::R3C1] * y + self.0[consts::R3C2] * z + self.0[consts::R3C3] * w,
        )
    }
}

impl<'a, Value: Numeric> MulSpecImpl<Vec4<Value>> for &'a Mat4<Value> {
    open spec fn obeys_mul_spec() -> bool {
        true
    }

    open spec fn mul_req(self, other: Vec4<Value>) -> bool {
        obeys_arith::<Value>() && self.terms().apply(other.terms()).defined()
    }

    open spec fn mul_spec(self, other: Vec4<Value>) -> Vec4<Value> {
        self.terms().apply(other.terms()).value()
    }
}

/// The matrix applied to a column vector.
impl<'a, 'b, Value: Numeric> Mul<&'b Vec4<Value>> for &'a Mat4<Value> {
    type Output = Vec4<Value>;

    fn mul(self, other: &'b Vec4<Value>) -> (r: Vec4<Value>)
        ensures
            r@ == self.terms().apply(other.terms()).values(),
    {
        let x = other.0[0];
        let y = other.0[1];
        let z = other.0[2];
        let w = other.0[3];
        Vec4::new(
            self.0[consts::R0C0] * x + self.0[consts::R0C1] * y + self.0[consts::R0C2] * z + self.0[consts::R0C3] * w,
            self.0[consts::R1C0] * x + self.0[consts::R1C1] * y + self.0[consts::R1C2] * z + self.0[consts::R1C3] * w,
            self.0[consts::R2C0] * x + self.0[consts::R2C1] * y + self.0[consts::R2C2] * z + self.0[consts::R2C3] * w,
            self.0[consts::R3C0] * x + self.0[consts::R3C1] * y + self.0[consts::R3C2] * z + self.0[consts::R3C3] * w,
        )
    }
}

impl<'a, 'b, Value: Numeric> MulSpecImpl<&'b Vec4<Value>> for &'a Mat4<Value> {
    open spec fn obeys_mul_spec() -> bool {
        true
    }

    open spec fn mul_req(self, other: &'b Vec4<Value>) -> bool {
        obeys_arith::<Value>() && self.terms().apply(other.terms()).defined()
    }

    open spec fn mul_spec(self, other: &'b Vec4<Value>) -> Vec4<Value> {
        self.terms().apply(other.terms()).value()
    }
}

impl<Value: Numeric> MulAssign<Value> for Mat4<Value> {
    fn mul_assign(&mut self, other: Value)
        requires
            obeys_arith::<Value>(),
            old(self).terms().times_each(Term::of(other)).defined(),
        ensures
            *final(self) == old(self).terms().times_each(Term::of(other)).value(),
            final(self)@ == old(self).terms().times_each(Term::of(other)).values(),
    {
        *self = Mat4(
            [
                self.0[0] * other, self.0[1] * other, self.0[2] * other, self.0[3] * other,
                self.0[4] * other, self.0[5] * other, self.0[6] * other, self.0[7] * other,
                self.0[8] * other, self.0[9] * other, self.0[10] * other, self.0[11] * other,
                self.0[12] * other, self.0[13] * other, self.0[14] * other, self.0[15] * other,
            ],
        );
    }
}

impl<'b, Value: Numeric> MulAssign<&'b Value> for Mat4<Value> {
    fn mul_assign(&mut self, other: &'b Value)
        requires
            obeys_arith::<Value>(),
            old(self).terms().times_each(Term::of(*other)).defined(),
        ensures
            *final(self) == old(self).terms().times_each(Term::of(*other)).value(),
            final(self)@ == old(self).terms().times_each(Term::of(*other)).values(),
    {
        *self = Mat4(
            [
                self.0[0] * *other, self.0[1] * *other, self.0[2] * *other, self.0[3] * *other,
                self.0[4] * *other, self.0[5] * *other, self.0[6] * *other, self.0[7] * *other,
                self.0[8] * *other, self.0[9] * *other, self.0[10] * *other, self.0[11] * *other,
                self.0[12] * *other, self.0[13] * *other, self.0[14] * *other, self.0[15] * *other,
            ],
        );
    }
}

impl<Value: Numeric> Mul<Value> for Mat4<Value> {
    type Output = Mat4<Value>;

    fn mul(self, other: Value) -> (r: Mat4<Value>)
        ensures
            r@ == self.terms().times_each(Term::of(other)).values(),
    {
        Mat4(
            [
                self.0[0] * other, self.0[1] * other, self.0[2] * other, self.0[3] * other,
                self.0[4] * other, self.0[5] * other, self.0[6] * other, self.0[7] * other,
                self.0[8] * other, self.0[9] * other, self.0[10] * other, self.0[11] * other,
                self.0[12] * other, self.0[13] * other, self.0[14] * other, self.0[15] * other,
            ],
        )
    }
}

impl<Value: Numeric> MulSpecImpl<Value> for Mat4<Value> {
    open spec fn obeys_mul_spec() -> bool {
        true
    }

    open spec fn mul_req(self, other: Value) -> bool {
        obeys_arith::<Value>() && self.terms().times_each(Term::of(other)).defined()
    }

    open spec fn mul_spec(self, other: Value) -> Mat4<Value> {
        self.terms().times_each(Term::of(other)).value()
    }
}

impl<'a, Value: Numeric> Mul<Value> for &'a Mat4<Value> {
    type Output = Mat4<Value>;

    fn mul(self, other: Value) -> (r: Mat4<Value>)
        ensures
            r@ == self.terms().times_each(Term::of(other)).values(),
    {
        Mat4(
            [
                self.0[0] * other, self.0[1] * other, self.0[2] * other, self.0[3] * other,
                self.0[4] * other, self.0[5] * other, self.0[6] * other, self.0[7] * other,
                self.0[8] * other, self.0[9] * other, self.0[10] * other, self.0[11] * other,
                self.0[12] * other, self.0[13] * other, self.0[14] * other, self.0[15] * other,
            ],
        )
    }
}

impl<'a, Value: Numeric> MulSpecImpl<Value> for &'a Mat4<Value> {
    open spec fn obeys_mul_spec() -> bool {
        true
    }

    open spec fn mul_req(self, other: Value) -> bool {
        obeys_arith::<Value>() && self.terms().times_each(Term::of(other)).defined()
    }

    open spec fn mul_spec(self, other: Value) -> Mat4<Value> {
        self.terms().times_each(Term::of(other)).value()
    }
}

impl<'b, Value: Numeric> Mul<&'b Value> for Mat4<Value> {
    type Output = Mat4<Value>;

    fn mul(self, other: &'b Value) -> (r: Mat4<Value>)
        ensures
            r@ == self.terms().times_each(Term::of(*other)).values(),
    {
        Mat4(
            [
                self.0[0] * *other, self.0[1] * *other, self.0[2] * *other, self.0[3] * *other,
                self.0[4] * *other, self.0[5] * *other, self.0[6] * *other, self.0[7] * *other,
                self.0[8] * *other, self.0[9] * *other, self.0[10] * *other, self.0[11] * *other,
                self.0[12] * *other, self.0[13] * *other, self.0[14] * *other, self.0[15] * *other,
            ],
        )
    }
}

impl<'b, Value: Numeric> MulSpecImpl<&'b Value> for Mat4<Value> {
    open spec fn obeys_mul_spec() -> bool {
        true
    }

    open spec fn mul_req(self, other: &'b Value) -> bool {
        obeys_arith::<Value>() && self.terms().times_each(Term::of(*other)).defined()
    }

    open spec fn mul_spec(self, other: &'b Value) -> Mat4<Value> {
        self.terms().times_each(Term::of(*other)).value()
    }
}

impl<'a, 'b, Value: Numeric> Mul<&'b Value> for &'a Mat4<Value> {
    type Output = Mat4<Value>;

    fn mul(self, other: &'b Value) -> (r: Mat4<Value>)
        ensures
            r@ == self.terms().times_each(Term::of(*other)).values(),
    {
        Mat4(
            [
                self.0[0] * *other, self.0[1] * *other, self.0[2] * *other, self.0[3] * *other,
                self.0[4] * *other, self.0[5] * *other, self.0[6] * *other, self.0[7] * *other,
                self.0[8] * *other, self.0[9] * *other, self.0[10] * *other, self.0[11] * *other,
                self.0[12] * *other, self.0[13] * *other, self.0[14] * *other, self.0[15] * *other,
            ],
        )
    }
}

impl<'a, 'b, Value: Numeric> MulSpecImpl<&'b Value> for &'a Mat4<Value> {
    open spec fn obeys_mul_spec() -> bool {
        true
    }

    open spec fn mul_req(self, other: &'b Value) -> bool {
        obeys_arith::<Value>() && self.terms().times_each(Term::of(*other)).defined()
    }

    open spec fn mul_spec(self, other: &'b Value) -> Mat4<Value> {
        self.terms().times_each(Term::of(*other)).value()
    }
}

impl<Value: Numeric> DivAssign<Value> for Mat4<Value> {
    fn div_assign(&mut self, other: Value)
        requires
            obeys_arith::<Value>(),
            old(self).terms().over_each(Term::of(other)).defined(),
        ensures
            *final(self) == old(self).terms().over_each(Term::of(other)).value(),
            final(self)@ == old(self).terms().over_each(Term::of(other)).values(),
    {
        *self = Mat4(
            [
                self.0[0] / other, self.0[1] / other, self.0[2] / other, self.0[3] / other,
                self.0[4] / other, self.0[5] / other, self.0[6] / other, self.0[7] / other,
                self.0[8] / other, self.0[9] / other, self.0[10] / other, self.0[11] / other,
                self.0[12] / other, self.0[13] / other, self.0[14] / other, self.0[15] / other,
            ],
        );
    }
}

impl<'b, Value: Numeric> DivAssign<&'b Value> for Mat4<Value> {
    fn div_assign(&mut self, other: &'b Value)
        requires
            obeys_arith::<Value>(),
            old(self).terms().over_each(Term::of(*other)).defined(),
        ensures
            *final(self) == old(self).terms().over_each(Term::of(*other)).value(),
            final(self)@ == old(self).terms().over_each(Term::of(*other)).values(),
    {
        *self = Mat4(
            [
                self.0[0] / *other, self.0[1] / *other, self.0[2] / *other, self.0[3] / *other,
                self.0[4] / *other, self.0[5] / *other, self.0[6] / *other, self.0[7] / *other,
                self.0[8] / *other, self.0[9] / *other, self.0[10] / *other, self.0[11] / *other,
                self.0[12] / *other, self.0[13] / *other, self.0[14] / *other, self.0[15] / *other,
            ],
        );
    }
}

impl<Value: Numeric> Div<Value> for Mat4<Value> {
    type Output = Mat4<Value>;

    fn div(self, other: Value) -> (r: Mat4<Value>)
        ensures
            r@ == self.terms().over_each(Term::of(other)).values(),
    {
        Mat4(
            [
                self.0[0] / other, self.0[1] / other, self.0[2] / other, self.0[3] / other,
                self.0[4] / other, self.0[5] / other, self.0[6] / other, self.0[7] / other,
                self.0[8] / other, self.0[9] / other, self.0[10] / other, self.0[11] / other,
                self.0[12] / other, self.0[13] / other, self.0[14] / other, self.0[15] / other,
            ],
        )
    }
}

impl<Value: Numeric> DivSpecImpl<Value> for Mat4<Value> {
    open spec fn obeys_div_spec() -> bool {
        true
    }

    open spec fn div_req(self, other: Value) -> bool {
        obeys_arith::<Value>() && self.terms().over_each(Term::of(other)).defined()
    }

    open spec fn div_spec(self, other: Value) -> Mat4<Value> {
        self.terms().over_each(Term::of(other)).value()
    }
}

impl<'a, Value: Numeric> Div<Value> for &'a Mat4<Value> {
    type Output = Mat4<Value>;

    fn div(self, other: Value) -> (r: Mat4<Value>)
        ensures
            r@ == self.terms().over_each(Term::of(other)).values(),
    {
        Mat4(
            [
                self.0[0] / other, self.0[1] / other, self.0[2] / other, self.0[3] / other,
                self.0[4] / other, self.0[5] / other, self.0[6] / other, self.0[7] / other,
                self.0[8] / other, self.0[9] / other, self.0[10] / other, self.0[11] / other,
                self.0[12] / other, self.0[13] / other, self.0[14] / other, self.0[15] / other,
            ],
        )
    }
}

impl<'a, Value: Numeric> DivSpecImpl<Value> for &'a Mat4<Value> {
    open spec fn obeys_div_spec() -> bool {
        true
    }

    open spec fn div_req(self, other: Value) -> bool {
        obeys_arith::<Value>() && self.terms().over_each(Term::of(other)).defined()
    }

    open spec fn div_spec(self, other: Value) -> Mat4<Value> {
        self.terms().over_each(Term::of(other)).value()
    }
}

impl<'b, Value: Numeric> Div<&'b Value> for Mat4<Value> {
    type Output = Mat4<Value>;

    fn div(self, other: &'b Value) -> (r: Mat4<Value>)
        ensures
            r@ == self.terms().over_each(Term::of(*other)).values(),
    {
        Mat4(
            [
                self.0[0] / *other, self.0[1] / *other, self.0[2] / *other, self.0[3] / *other,
                self.0[4] / *other, self.0[5] / *other, self.0[6] / *other, self.0[7] / *other,
                self.0[8] / *other, self.0[9] / *other, self.0[10] / *other, self.0[11] / *other,
                self.0[12] / *other, self.0[13] / *other, self.0[14] / *other, self.0[15] / *other,
            ],
        )
    }
}

impl<'b, Value: Numeric> DivSpecImpl<&'b Value> for Mat4<Value> {
    open spec fn obeys_div_spec() -> bool {
        true
    }

    open spec fn div_req(self, other: &'b Value) -> bool {
        obeys_arith::<Value>() && self.terms().over_each(Term::of(*other)).defined()
    }

    open spec fn div_spec(self, other: &'b Value) -> Mat4<Value> {
        self.terms().over_each(Term::of(*other)).value()
    }
}

impl<'a, 'b, Value: Numeric> Div<&'b Value> for &'a Mat4<Value> {
    type Output = Mat4<Value>;

    fn div(self, other: &'b Value) -> (r: Mat4<Value>)
        ensures
            r@ == self.terms().over_each(Term::of(*other)).values(),
    {
        Mat4(
            [
                self.0[0] / *other, self.0[1] / *other, self.0[2] / *other, self.0[3] / *other,
                self.0[4] / *other, self.0[5] / *other, self.0[6] / *other, self.0[7] / *other,
                self.0[8] / *other, self.0[9] / *other, self.0[10] / *other, self.0[11] / *other,
                self.0[12] / *other, self.0[13] / *other, self.0[14] / *other, self.0[15] / *other,
            ],
        )
    }
}

impl<'a, 'b, Value: Numeric> DivSpecImpl<&'b Value> for &'a Mat4<Value> {
    open spec fn obeys_div_spec() -> bool {
        true
    }

    open spec fn div_req(self, other: &'b Value) -> bool {
        obeys_arith::<Value>() && self.terms().over_each(Term::of(*other)).defined()
    }

    open spec fn div_spec(self, other: &'b Value) -> Mat4<Value> {
        self.terms().over_each(Term::of(*other)).value()
    }
}

} // verus!
