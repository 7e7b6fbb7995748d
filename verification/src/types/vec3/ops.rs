//! The operators of [`Vec3`]: by component between two vectors, and between a vector and a
//! number.
use super::Vec3;
use crate::traits::obeys_arith;
use crate::traits::obeys_neg;
use crate::traits::Division;
use crate::traits::Negation;
use crate::traits::Numeric;
use crate::traits::Ring;
use crate::traits::Term;
use core::ops::Add;
use core::ops::AddAssign;
use core::ops::Div;
use core::ops::DivAssign;
use core::ops::Mul;
use core::ops::MulAssign;
use core::ops::Neg;
use core::ops::Sub;
use core::ops::SubAssign;
use vstd::prelude::*;
use vstd::std_specs::ops::AddSpecImpl;
use vstd::std_specs::ops::DivSpecImpl;
use vstd::std_specs::ops::MulSpecImpl;
use vstd::std_specs::ops::NegSpecImpl;
use vstd::std_specs::ops::SubSpecImpl;

verus! {

impl<Value: Copy + Neg<Output = Value>> Neg for Vec3<Value> {
    type Output = Vec3<Value>;

    fn neg(self) -> (r: Vec3<Value>)
        ensures
            r@ == self.terms().negated().values(),
    {
        Vec3([self.0[0].neg(), self.0[1].neg(), self.0[2].neg()])
    }
}

impl<Value: Copy + Neg<Output = Value>> NegSpecImpl for Vec3<Value> {
    open spec fn obeys_neg_spec() -> bool {
        true
    }

    open spec fn neg_req(self) -> bool {
        obeys_neg::<Value>() && self.terms().negated().defined()
    }

    open spec fn neg_spec(self) -> Vec3<Value> {
        self.terms().negated().value()
    }
}

impl<'a, Value: Copy + Neg<Output = Value>> Neg for &'a Vec3<Value> {
    type Output = Vec3<Value>;

    fn neg(self) -> (r: Vec3<Value>)
        ensures
            r@ == self.terms().negated().values(),
    {
        Vec3([self.0[0].neg(), self.0[1].neg(), self.0[2].neg()])
    }
}

impl<'a, Value: Copy + Neg<Output = Value>> NegSpecImpl for &'a Vec3<Value> {
    open spec fn obeys_neg_spec() -> bool {
        true
    }

    open spec fn neg_req(self) -> bool {
        obeys_neg::<Value>() && self.terms().negated().defined()
    }

    open spec fn neg_spec(self) -> Vec3<Value> {
        self.terms().negated().value()
    }
}

impl<Value: Numeric> Add<Vec3<Value>> for Vec3<Value> {
    type Output = Vec3<Value>;

    fn add(self, other: Vec3<Value>) -> (r: Vec3<Value>)
        ensures
            r@ == self.terms().plus(other.terms()).values(),
    {
        Vec3([self.0[0] + other.0[0], self.0[1] + other.0[1], self.0[2] + other.0[2]])
    }
}

impl<Value: Numeric> AddSpecImpl<Vec3<Value>> for Vec3<Value> {
    open spec fn obeys_add_spec() -> bool {
        true
    }

    open spec fn add_req(self, other: Vec3<Value>) -> bool {
        obeys_arith::<Value>() && self.terms().plus(other.terms()).defined()
    }

    open spec fn add_spec(self, other: Vec3<Value>) -> Vec3<Value> {
        self.terms().plus(other.terms()).value()
    }
}

impl<'a, Value: Numeric> Add<Vec3<Value>> for &'a Vec3<Value> {
    type Output = Vec3<Value>;

    fn add(self, other: Vec3<Value>) -> (r: Vec3<Value>)
        ensures
            r@ == self.terms().plus(other.terms()).values(),
    {
        Vec3([self.0[0] + other.0[0], self.0[1] + other.0[1], self.0[2] + other.0[2]])
    }
}

impl<'a, Value: Numeric> AddSpecImpl<Vec3<Value>> for &'a Vec3<Value> {
    open spec fn obeys_add_spec() -> bool {
        true
    }

    open spec fn add_req(self, other: Vec3<Value>) -> bool {
        obeys_arith::<Value>() && self.terms().plus(other.terms()).defined()
    }

    open spec fn add_spec(self, other: Vec3<Value>) -> Vec3<Value> {
        self.terms().plus(other.terms()).value()
    }
}

impl<'b, Value: Numeric> Add<&'b Vec3<Value>> for Vec3<Value> {
    type Output = Vec3<Value>;

    fn add(self, other: &'b Vec3<Value>) -> (r: Vec3<Value>)
        ensures
            r@ == self.terms().plus(other.terms()).values(),
    {
        Vec3([self.0[0] + other.0[0], self.0[1] + other.0[1], self.0[2] + other.0[2]])
    }
}

impl<'b, Value: Numeric> AddSpecImpl<&'b Vec3<Value>> for Vec3<Value> {
    open spec fn obeys_add_spec() -> bool {
        true
    }

    open spec fn add_req(self, other: &'b Vec3<Value>) -> bool {
        obeys_arith::<Value>() && self.terms().plus(other.terms()).defined()
    }

    open spec fn add_spec(self, other: &'b Vec3<Value>) -> Vec3<Value> {
        self.terms().plus(other.terms()).value()
    }
}

impl<'a, 'b, Value: Numeric> Add<&'b Vec3<Value>> for &'a Vec3<Value> {
    type Output = Vec3<Value>;

    fn add(self, other: &'b Vec3<Value>) -> (r: Vec3<Value>)
        ensures
            r@ == self.terms().plus(other.terms()).values(),
    {
        Vec3([self.0[0] + other.0[0], self.0[1] + other.0[1], self.0[2] + other.0[2]])
    }
}

impl<'a, 'b, Value: Numeric> AddSpecImpl<&'b Vec3<Value>> for &'a Vec3<Value> {
    open spec fn obeys_add_spec() -> bool {
        true
    }

    open spec fn add_req(self, other: &'b Vec3<Value>) -> bool {
        obeys_arith::<Value>() && self.terms().plus(other.terms()).defined()
    }

    open spec fn add_spec(self, other: &'b Vec3<Value>) -> Vec3<Value> {
        self.terms().plus(other.terms()).value()
    }
}

impl<Value: Numeric> Add<Value> for Vec3<Value> {
    type Output = Vec3<Value>;

    fn add(self, other: Value) -> (r: Vec3<Value>)
        ensures
            r@ == self.terms().plus_each(Term::of(other)).values(),
    {
        Vec3([self.0[0] + other, self.0[1] + other, self.0[2] + other])
    }
}

impl<Value: Numeric> AddSpecImpl<Value> for Vec3<Value> {
    open spec fn obeys_add_spec() -> bool {
        true
    }

    open spec fn add_req(self, other: Value) -> bool {
        obeys_arith::<Value>() && self.terms().plus_each(Term::of(other)).defined()
    }

    open spec fn add_spec(self, other: Value) -> Vec3<Value> {
        self.terms().plus_each(Term::of(other)).value()
    }
}

impl<'a, Value: Numeric> Add<Value> for &'a Vec3<Value> {
    type Output = Vec3<Value>;

    fn add(self, other: Value) -> (r: Vec3<Value>)
        ensures
            r@ == self.terms().plus_each(Term::of(other)).values(),
    {
        Vec3([self.0[0] + other, self.0[1] + other, self.0[2] + other])
    }
}

impl<'a, Value: Numeric> AddSpecImpl<Value> for &'a Vec3<Value> {
    open spec fn obeys_add_spec() -> bool {
        true
    }

    open spec fn add_req(self, other: Value) -> bool {
        obeys_arith::<Value>() && self.terms().plus_each(Term::of(other)).defined()
    }

    open spec fn add_spec(self, other: Value) -> Vec3<Value> {
        self.terms().plus_each(Term::of(other)).value()
    }
}

impl<Value: Numeric> AddAssign<Value> for Vec3<Value> {
    fn add_assign(&mut self, other: Value)
        requires
            obeys_arith::<Value>(),
            old(self).terms().plus_each(Term::of(other)).defined(),
        ensures
            *final(self) == old(self).terms().plus_each(Term::of(other)).value(),
            final(self)@ == old(self).terms().plus_each(Term::of(other)).values(),
    {
        *self = Vec3([self.0[0] + other, self.0[1] + other, self.0[2] + other]);
    }
}

impl<Value: Numeric> AddAssign<Vec3<Value>> for Vec3<Value> {
    fn add_assign(&mut self, other: Vec3<Value>)
        requires
            obeys_arith::<Value>(),
            old(self).terms().plus(other.terms()).defined(),
        ensures
            *final(self) == old(self).terms().plus(other.terms()).value(),
            final(self)@ == old(self).terms().plus(other.terms()).values(),
    {
        *self = Vec3([self.0[0] + other.0[0], self.0[1] + other.0[1], self.0[2] + other.0[2]]);
    }
}

impl<'b, Value: Numeric> AddAssign<&'b Vec3<Value>> for Vec3<Value> {
    fn add_assign(&mut self, other: &'b Vec3<Value>)
        requires
            obeys_arith::<Value>(),
            old(self).terms().plus(other.terms()).defined(),
        ensures
            *final(self) == old(self).terms().plus(other.terms()).value(),
            final(self)@ == old(self).terms().plus(other.terms()).values(),
    {
        *self = Vec3([self.0[0] + other.0[0], self.0[1] + other.0[1], self.0[2] + other.0[2]]);
    }
}

impl<Value: Numeric> Sub<Vec3<Value>> for Vec3<Value> {
    type Output = Vec3<Value>;

    fn sub(self, other: Vec3<Value>) -> (r: Vec3<Value>)
        ensures
            r@ == self.terms().minus(other.terms()).values(),
    {
        Vec3([self.0[0] - other.0[0], self.0[1] - other.0[1], self.0[2] - other.0[2]])
    }
}

impl<Value: Numeric> SubSpecImpl<Vec3<Value>> for Vec3<Value> {
    open spec fn obeys_sub_spec() -> bool {
        true
    }

    open spec fn sub_req(self, other: Vec3<Value>) -> bool {
        obeys_arith::<Value>() && self.terms().minus(other.terms()).defined()
    }

    open spec fn sub_spec(self, other: Vec3<Value>) -> Vec3<Value> {
        self.terms().minus(other.terms()).value()
    }
}

impl<'a, Value: Numeric> Sub<Vec3<Value>> for &'a Vec3<Value> {
    type Output = Vec3<Value>;

    fn sub(self, other: Vec3<Value>) -> (r: Vec3<Value>)
        ensures
            r@ == self.terms().minus(other.terms()).values(),
    {
        Vec3([self.0[0] - other.0[0], self.0[1] - other.0[1], self.0[2] - other.0[2]])
    }
}

impl<'a, Value: Numeric> SubSpecImpl<Vec3<Value>> for &'a Vec3<Value> {
    open spec fn obeys_sub_spec() -> bool {
        true
    }

    open spec fn sub_req(self, other: Vec3<Value>) -> bool {
        obeys_arith::<Value>() && self.terms().minus(other.terms()).defined()
    }

    open spec fn sub_spec(self, other: Vec3<Value>) -> Vec3<Value> {
        self.terms().minus(other.terms()).value()
    }
}

impl<'b, Value: Numeric> Sub<&'b Vec3<Value>> for Vec3<Value> {
    type Output = Vec3<Value>;

    fn sub(self, other: &'b Vec3<Value>) -> (r: Vec3<Value>)
        ensures
            r@ == self.terms().minus(other.terms()).values(),
    {
        Vec3([self.0[0] - other.0[0], self.0[1] - other.0[1], self.0[2] - other.0[2]])
    }
}

impl<'b, Value: Numeric> SubSpecImpl<&'b Vec3<Value>> for Vec3<Value> {
    open spec fn obeys_sub_spec() -> bool {
        true
    }

    open spec fn sub_req(self, other: &'b Vec3<Value>) -> bool {
        obeys_arith::<Value>() && self.terms().minus(other.terms()).defined()
    }

    open spec fn sub_spec(self, other: &'b Vec3<Value>) -> Vec3<Value> {
        self.terms().minus(other.terms()).value()
    }
}

impl<'a, 'b, Value: Numeric> Sub<&'b Vec3<Value>> for &'a Vec3<Value> {
    type Output = Vec3<Value>;

    fn sub(self, other: &'b Vec3<Value>) -> (r: Vec3<Value>)
        ensures
            r@ == self.terms().minus(other.terms()).values(),
    {
        Vec3([self.0[0] - other.0[0], self.0[1] - other.0[1], self.0[2] - other.0[2]])
    }
}

impl<'a, 'b, Value: Numeric> SubSpecImpl<&'b Vec3<Value>> for &'a Vec3<Value> {
    open spec fn obeys_sub_spec() -> bool {
        true
    }

    open spec fn sub_req(self, other: &'b Vec3<Value>) -> bool {
        obeys_arith::<Value>() && self.terms().minus(other.terms()).defined()
    }

    open spec fn sub_spec(self, other: &'b Vec3<Value>) -> Vec3<Value> {
        self.terms().minus(other.terms()).value()
    }
}

impl<Value: Numeric> Sub<Value> for Vec3<Value> {
    type Output = Vec3<Value>;

    fn sub(self, other: Value) -> (r: Vec3<Value>)
        ensures
            r@ == self.terms().minus_each(Term::of(other)).values(),
    {
        Vec3([self.0[0] - other, self.0[1] - other, self.0[2] - other])
    }
}

impl<Value: Numeric> SubSpecImpl<Value> for Vec3<Value> {
    open spec fn obeys_sub_spec() -> bool {
        true
    }

    open spec fn sub_req(self, other: Value) -> bool {
        obeys_arith::<Value>() && self.terms().minus_each(Term::of(other)).defined()
    }

    open spec fn sub_spec(self, other: Value) -> Vec3<Value> {
        self.terms().minus_each(Term::of(other)).value()
    }
}

impl<'a, Value: Numeric> Sub<Value> for &'a Vec3<Value> {
    type Output = Vec3<Value>;

    fn sub(self, other: Value) -> (r: Vec3<Value>)
        ensures
            r@ == self.terms().minus_each(Term::of(other)).values(),
    {
        Vec3([self.0[0] - other, self.0[1] - other, self.0[2] - other])
    }
}

impl<'a, Value: Numeric> SubSpecImpl<Value> for &'a Vec3<Value> {
    open spec fn obeys_sub_spec() -> bool {
        true
    }

    open spec fn sub_req(self, other: Value) -> bool {
        obeys_arith::<Value>() && self.terms().minus_each(Term::of(other)).defined()
    }

    open spec fn sub_spec(self, other: Value) -> Vec3<Value> {
        self.terms().minus_each(Term::of(other)).value()
    }
}

impl<Value: Numeric> SubAssign<Value> for Vec3<Value> {
    fn sub_assign(&mut self, other: Value)
        requires
            obeys_arith::<Value>(),
            old(self).terms().minus_each(Term::of(other)).defined(),
        ensures
            *final(self) == old(self).terms().minus_each(Term::of(other)).value(),
            final(self)@ == old(self).terms().minus_each(Term::of(other)).values(),
    {
        *self = Vec3([self.0[0] - other, self.0[1] - other, self.0[2] - other]);
    }
}

impl<Value: Numeric> SubAssign<Vec3<Value>> for Vec3<Value> {
    fn sub_assign(&mut self, other: Vec3<Value>)
        requires
            obeys_arith::<Value>(),
            old(self).terms().minus(other.terms()).defined(),
        ensures
            *final(self) == old(self).terms().minus(other.terms()).value(),
            final(self)@ == old(self).terms().minus(other.terms()).values(),
    {
        *self = Vec3([self.0[0] - other.0[0], self.0[1] - other.0[1], self.0[2] - other.0[2]]);
    }
}

impl<'b, Value: Numeric> SubAssign<&'b Vec3<Value>> for Vec3<Value> {
    fn sub_assign(&mut self, other: &'b Vec3<Value>)
        requires
            obeys_arith::<Value>(),
            old(self).terms().minus(other.terms()).defined(),
        ensures
            *final(self) == old(self).terms().minus(other.terms()).value(),
            final(self)@ == old(self).terms().minus(other.terms()).values(),
    {
        *self = Vec3([self.0[0] - other.0[0], self.0[1] - other.0[1], self.0[2] - other.0[2]]);
    }
}

impl<Value: Numeric> Mul<Vec3<Value>> for Vec3<Value> {
    type Output = Vec3<Value>;

    fn mul(self, other: Vec3<Value>) -> (r: Vec3<Value>)
        ensures
            r@ == self.terms().times(other.terms()).values(),
    {
        Vec3([self.0[0] * other.0[0], self.0[1] * other.0[1], self.0[2] * other.0[2]])
    }
}

impl<Value: Numeric> MulSpecImpl<Vec3<Value>> for Vec3<Value> {
    open spec fn obeys_mul_spec() -> bool {
        true
    }

    open spec fn mul_req(self, other: Vec3<Value>) -> bool {
        obeys_arith::<Value>() && self.terms().times(other.terms()).defined()
    }

    open spec fn mul_spec(self, other: Vec3<Value>) -> Vec3<Value> {
        self.terms().times(other.terms()).value()
    }
}

impl<'a, Value: Numeric> Mul<Vec3<Value>> for &'a Vec3<Value> {
    type Output = Vec3<Value>;

    fn mul(self, other: Vec3<Value>) -> (r: Vec3<Value>)
        ensures
            r@ == self.terms().times(other.terms()).values(),
    {
        Vec3([self.0[0] * other.0[0], self.0[1] * other.0[1], self.0[2] * other.0[2]])
    }
}

impl<'a, Value: Numeric> MulSpecImpl<Vec3<Value>> for &'a Vec3<Value> {
    open spec fn obeys_mul_spec() -> bool {
        true
    }

    open spec fn mul_req(self, other: Vec3<Value>) -> bool {
        obeys_arith::<Value>() && self.terms().times(other.terms()).defined()
    }

    open spec fn mul_spec(self, other: Vec3<Value>) -> Vec3<Value> {
        self.terms().times(other.terms()).value()
    }
}

impl<'b, Value: Numeric> Mul<&'b Vec3<Value>> for Vec3<Value> {
    type Output = Vec3<Value>;

    fn mul(self, other: &'b Vec3<Value>) -> (r: Vec3<Value>)
        ensures
            r@ == self.terms().times(other.terms()).values(),
    {
        Vec3([self.0[0] * other.0[0], self.0[1] * other.0[1], self.0[2] * other.0[2]])
    }
}

impl<'b, Value: Numeric> MulSpecImpl<&'b Vec3<Value>> for Vec3<Value> {
    open spec fn obeys_mul_spec() -> bool {
        true
    }

    open spec fn mul_req(self, other: &'b Vec3<Value>) -> bool {
        obeys_arith::<Value>() && self.terms().times(other.terms()).defined()
    }

    open spec fn mul_spec(self, other: &'b Vec3<Value>) -> Vec3<Value> {
        self.terms().times(other.terms()).value()
    }
}

impl<'a, 'b, Value: Numeric> Mul<&'b Vec3<Value>> for &'a Vec3<Value> {
    type Output = Vec3<Value>;

    fn mul(self, other: &'b Vec3<Value>) -> (r: Vec3<Value>)
        ensures
            r@ == self.terms().times(other.terms()).values(),
    {
        Vec3([self.0[0] * other.0[0], self.0[1] * other.0[1], self.0[2] * other.0[2]])
    }
}

impl<'a, 'b, Value: Numeric> MulSpecImpl<&'b Vec3<Value>> for &'a Vec3<Value> {
    open spec fn obeys_mul_spec() -> bool {
        true
    }

    open spec fn mul_req(self, other: &'b Vec3<Value>) -> bool {
        obeys_arith::<Value>() && self.terms().times(other.terms()).defined()
    }

    open spec fn mul_spec(self, other: &'b Vec3<Value>) -> Vec3<Value> {
        self.terms().times(other.terms()).value()
    }
}

impl<Value: Numeric> Mul<Value> for Vec3<Value> {
    type Output = Vec3<Value>;

    fn mul(self, other: Value) -> (r: Vec3<Value>)
        ensures
            r@ == self.terms().times_each(Term::of(other)).values(),
    {
        Vec3([self.0[0] * other, self.0[1] * other, self.0[2] * other])
    }
}

impl<Value: Numeric> MulSpecImpl<Value> for Vec3<Value> {
    open spec fn obeys_mul_spec() -> bool {
        true
    }

    open spec fn mul_req(self, other: Value) -> bool {
        obeys_arith::<Value>() && self.terms().times_each(Term::of(other)).defined()
    }

    open spec fn mul_spec(self, other: Value) -> Vec3<Value> {
        self.terms().times_each(Term::of(other)).value()
    }
}

impl<'a, Value: Numeric> Mul<Value> for &'a Vec3<Value> {
    type Output = Vec3<Value>;

    fn mul(self, other: Value) -> (r: Vec3<Value>)
        ensures
            r@ == self.terms().times_each(Term::of(other)).values(),
    {
        Vec3([self.0[0] * other, self.0[1] * other, self.0[2] * other])
    }
}

impl<'a, Value: Numeric> MulSpecImpl<Value> for &'a Vec3<Value> {
    open spec fn obeys_mul_spec() -> bool {
        true
    }

    open spec fn mul_req(self, other: Value) -> bool {
        obeys_arith::<Value>() && self.terms().times_each(Term::of(other)).defined()
    }

    open spec fn mul_spec(self, other: Value) -> Vec3<Value> {
        self.terms().times_each(Term::of(other)).value()
    }
}

impl<Value: Numeric> MulAssign<Value> for Vec3<Value> {
    fn mul_assign(&mut self, other: Value)
        requires
            obeys_arith::<Value>(),
            old(self).terms().times_each(Term::of(other)).defined(),
        ensures
            *final(self) == old(self).terms().times_each(Term::of(other)).value(),
            final(self)@ == old(self).terms().times_each(Term::of(other)).values(),
    {
        *self = Vec3([self.0[0] * other, self.0[1] * other, self.0[2] * other]);
    }
}

impl<Value: Numeric> MulAssign<Vec3<Value>> for Vec3<Value> {
    fn mul_assign(&mut self, other: Vec3<Value>)
        requires
            obeys_arith::<Value>(),
            old(self).terms().times(other.terms()).defined(),
        ensures
            *final(self) == old(self).terms().times(other.terms()).value(),
            final(self)@ == old(self).terms().times(other.terms()).values(),
    {
        *self = Vec3([self.0[0] * other.0[0], self.0[1] * other.0[1], self.0[2] * other.0[2]]);
    }
}

impl<'b, Value: Numeric> MulAssign<&'b Vec3<Value>> for Vec3<Value> {
    fn mul_assign(&mut self, other: &'b Vec3<Value>)
        requires
            obeys_arith::<Value>(),
            old(self).terms().times(other.terms()).defined(),
        ensures
            *final(self) == old(self).terms().times(other.terms()).value(),
            final(self)@ == old(self).terms().times(other.terms()).values(),
    {
        *self = Vec3([self.0[0] * other.0[0], self.0[1] * other.0[1], self.0[2] * other.0[2]]);
    }
}

impl<Value: Numeric> Div<Vec3<Value>> for Vec3<Value> {
    type Output = Vec3<Value>;

    fn div(self, other: Vec3<Value>) -> (r: Vec3<Value>)
        ensures
            r@ == self.terms().over(other.terms()).values(),
    {
        Vec3([self.0[0] / other.0[0], self.0[1] / other.0[1], self.0[2] / other.0[2]])
    }
}

impl<Value: Numeric> DivSpecImpl<Vec3<Value>> for Vec3<Value> {
    open spec fn obeys_div_spec() -> bool {
        true
    }

    open spec fn div_req(self, other: Vec3<Value>) -> bool {
        obeys_arith::<Value>() && self.terms().over(other.terms()).defined()
    }

    open spec fn div_spec(self, other: Vec3<Value>) -> Vec3<Value> {
        self.terms().over(other.terms()).value()
    }
}

impl<'a, Value: Numeric> Div<Vec3<Value>> for &'a Vec3<Value> {
    type Output = Vec3<Value>;

    fn div(self, other: Vec3<Value>) -> (r: Vec3<Value>)
        ensures
            r@ == self.terms().over(other.terms()).values(),
    {
        Vec3([self.0[0] / other.0[0], self.0[1] / other.0[1], self.0[2] / other.0[2]])
    }
}

impl<'a, Value: Numeric> DivSpecImpl<Vec3<Value>> for &'a Vec3<Value> {
    open spec fn obeys_div_spec() -> bool {
        true
    }

    open spec fn div_req(self, other: Vec3<Value>) -> bool {
        obeys_arith::<Value>() && self.terms().over(other.terms()).defined()
    }

    open spec fn div_spec(self, other: Vec3<Value>) -> Vec3<Value> {
        self.terms().over(other.terms()).value()
    }
}

impl<'b, Value: Numeric> Div<&'b Vec3<Value>> for Vec3<Value> {
    type Output = Vec3<Value>;

    fn div(self, other: &'b Vec3<Value>) -> (r: Vec3<Value>)
        ensures
            r@ == self.terms().over(other.terms()).values(),
    {
        Vec3([self.0[0] / other.0[0], self.0[1] / other.0[1], self.0[2] / other.0[2]])
    }
}

impl<'b, Value: Numeric> DivSpecImpl<&'b Vec3<Value>> for Vec3<Value> {
    open spec fn obeys_div_spec() -> bool {
        true
    }

    open spec fn div_req(self, other: &'b Vec3<Value>) -> bool {
        obeys_arith::<Value>() && self.terms().over(other.terms()).defined()
    }

    open spec fn div_spec(self, other: &'b Vec3<Value>) -> Vec3<Value> {
        self.terms().over(other.terms()).value()
    }
}

impl<'a, 'b, Value: Numeric> Div<&'b Vec3<Value>> for &'a Vec3<Value> {
    type Output = Vec3<Value>;

    fn div(self, other: &'b Vec3<Value>) -> (r: Vec3<Value>)
        ensures
            r@ == self.terms().over(other.terms()).values(),
    {
        Vec3([self.0[0] / other.0[0], self.0[1] / other.0[1], self.0[2] / other.0[2]])
    }
}

impl<'a, 'b, Value: Numeric> DivSpecImpl<&'b Vec3<Value>> for &'a Vec3<Value> {
    open spec fn obeys_div_spec() -> bool {
        true
    }

    open spec fn div_req(self, other: &'b Vec3<Value>) -> bool {
        obeys_arith::<Value>() && self.terms().over(other.terms()).defined()
    }

    open spec fn div_spec(self, other: &'b Vec3<Value>) -> Vec3<Value> {
        self.terms().over(other.terms()).value()
    }
}

impl<Value: Numeric> Div<Value> for Vec3<Value> {
    type Output = Vec3<Value>;

    fn div(self, other: Value) -> (r: Vec3<Value>)
        ensures
            r@ == self.terms().over_each(Term::of(other)).values(),
    {
        Vec3([self.0[0] / other, self.0[1] / other, self.0[2] / other])
    }
}

impl<Value: Numeric> DivSpecImpl<Value> for Vec3<Value> {
    open spec fn obeys_div_spec() -> bool {
        true
    }

    open spec fn div_req(self, other: Value) -> bool {
        obeys_arith::<Value>() && self.terms().over_each(Term::of(other)).defined()
    }

    open spec fn div_spec(self, other: Value) -> Vec3<Value> {
        self.terms().over_each(Term::of(other)).value()
    }
}

impl<'a, Value: Numeric> Div<Value> for &'a Vec3<Value> {
    type Output = Vec3<Value>;

    fn div(self, other: Value) -> (r: Vec3<Value>)
        ensures
            r@ == self.terms().over_each(Term::of(other)).values(),
    {
        Vec3([self.0[0] / other, self.0[1] / other, self.0[2] / other])
    }
}

impl<'a, Value: Numeric> DivSpecImpl<Value> for &'a Vec3<Value> {
    open spec fn obeys_div_spec() -> bool {
        true
    }

    open spec fn div_req(self, other: Value) -> bool {
        obeys_arith::<Value>() && self.terms().over_each(Term::of(other)).defined()
    }

    open spec fn div_spec(self, other: Value) -> Vec3<Value> {
        self.terms().over_each(Term::of(other)).value()
    }
}

impl<Value: Numeric> DivAssign<Value> for Vec3<Value> {
    fn div_assign(&mut self, other: Value)
        requires
            obeys_arith::<Value>(),
            old(self).terms().over_each(Term::of(other)).defined(),
        ensures
            *final(self) == old(self).terms().over_each(Term::of(other)).value(),
            final(self)@ == old(self).terms().over_each(Term::of(other)).values(),
    {
        *self = Vec3([self.0[0] / other, self.0[1] / other, self.0[2] / other]);
    }
}

impl<Value: Numeric> DivAssign<Vec3<Value>> for Vec3<Value> {
    fn div_assign(&mut self, other: Vec3<Value>)
        requires
            obeys_arith::<Value>(),
            old(self).terms().over(other.terms()).defined(),
        ensures
            *final(self) == old(self).terms().over(other.terms()).value(),
            final(self)@ == old(self).terms().over(other.terms()).values(),
    {
        *self = Vec3([self.0[0] / other.0[0], self.0[1] / other.0[1], self.0[2] / other.0[2]]);
    }
}

impl<'b, Value: Numeric> DivAssign<&'b Vec3<Value>> for Vec3<Value> {
    fn div_assign(&mut self, other: &'b Vec3<Value>)
        requires
            obeys_arith::<Value>(),
            old(self).terms().over(other.terms()).defined(),
        ensures
            *final(self) == old(self).terms().over(other.terms()).value(),
            final(self)@ == old(self).terms().over(other.terms()).values(),
    {
        *self = Vec3([self.0[0] / other.0[0], self.0[1] / other.0[1], self.0[2] / other.0[2]]);
    }
}

} // verus!
