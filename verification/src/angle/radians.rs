//! Angles in radians.
use crate::traits::float::Trig;
use crate::traits::obeys_arith;
use crate::traits::obeys_neg;
use crate::traits::Division;
use crate::traits::Negation;
use crate::traits::Numeric;
use crate::traits::Ring;
use crate::traits::Term;
use core::ops::Add;
use core::ops::AddAssign;
use core::ops::Div;
use core::ops::DivAssign;
use core::ops::Mul;
use core::ops::MulAssign;
use core::ops::Neg;
use core::ops::Sub;
use core::ops::SubAssign;
use vstd::prelude::*;
use vstd::std_specs::ops::AddSpecImpl;
use vstd::std_specs::ops::DivSpecImpl;
use vstd::std_specs::ops::MulSpecImpl;
use vstd::std_specs::ops::NegSpecImpl;
use vstd::std_specs::ops::SubSpecImpl;

verus! {

/// An angle, in radians. Nothing converts into it but by name: a bare number is no angle.
#[derive(Copy, Clone, Debug)]
pub struct Radians<N>(pub N);

impl<N> Radians<N> {
    /// The angle as a term of a formula.
    pub open spec fn term(self) -> Term<N> {
        Term::of(self.0)
    }
}

impl<Number: Trig> Radians<Number> {
    /// The angle of `n` radians.
    pub fn new(n: Number) -> (r: Self)
        ensures
            r.0 == n,
    {
        Radians(n)
    }

    /// The angle whose cosine is `n`.
    pub fn acos(n: Number) -> (r: Self)
        ensures
            r.0 == n.acos_spec(),
    {
        Radians(n.acos())
    }

    /// The angle whose sine is `n`.
    pub fn asin(n: Number) -> (r: Self)
        ensures
            r.0 == n.asin_spec(),
    {
        Radians(n.asin())
    }

    /// The angle whose tangent is `n`.
    pub fn atan(n: Number) -> (r: Self)
        ensures
            r.0 == n.atan_spec(),
    {
        Radians(n.atan())
    }

    pub fn cos(&self) -> (r: Number)
        ensures
            r == self.0.cos_spec(),
    {
        self.0.cos()
    }

    pub fn sin(&self) -> (r: Number)
        ensures
            r == self.0.sin_spec(),
    {
        self.0.sin()
    }

    /// The sine and the cosine, in this order.
    pub fn sin_cos(&self) -> (r: (Number, Number))
        ensures
            r.0 == self.0.sin_spec(),
            r.1 == self.0.cos_spec(),
    {
        (self.sin(), self.cos())
    }

    pub fn tan(&self) -> (r: Number)
        ensures
            r == self.0.tan_spec(),
    {
        self.0.tan()
    }

    /// The number of radians.
    pub fn value(self) -> (r: Number)
        ensures
            r == self.0,
    {
        self.0
    }
}

/// A number read as an angle in radians.
pub trait AsRadians<T> {
    fn as_radians(&self) -> Radians<T>;
}

impl<T: Trig + Copy> AsRadians<T> for T {
    fn as_radians(&self) -> (r: Radians<T>)
        ensures
            r.0 == *self,
    {
        Radians::new(*self)
    }
}

impl<Value: Copy + Neg<Output = Value>> Neg for Radians<Value> {
    type Output = Radians<Value>;

    fn neg(self) -> (r: Radians<Value>) {
        Radians(self.0.neg())
    }
}

impl<Value: Copy + Neg<Output = Value>> NegSpecImpl for Radians<Value> {
    open spec fn obeys_neg_spec() -> bool {
        true
    }

    open spec fn neg_req(self) -> bool {
        obeys_neg::<Value>() && self.term().negated().defined
    }

    open spec fn neg_spec(self) -> Radians<Value> {
        Radians(self.term().negated().value)
    }
}

impl<'a, Value: Copy + Neg<Output = Value>> Neg for &'a Radians<Value> {
    type Output = Radians<Value>;

    fn neg(self) -> (r: Radians<Value>) {
        Radians(self.0.neg())
    }
}

impl<'a, Value: Copy + Neg<Output = Value>> NegSpecImpl for &'a Radians<Value> {
    open spec fn obeys_neg_spec() -> bool {
        true
    }

    open spec fn neg_req(self) -> bool {
        obeys_neg::<Value>() && self.term().negated().defined
    }

    open spec fn neg_spec(self) -> Radians<Value> {
        Radians(self.term().negated().value)
    }
}

impl<Value: Numeric> Add<Radians<Value>> for Radians<Value> {
    type Output = Radians<Value>;

    fn add(self, other: Radians<Value>) -> (r: Radians<Value>) {
        Radians(self.0 + other.0)
    }
}

impl<Value: Numeric> AddSpecImpl<Radians<Value>> for Radians<Value> {
    open spec fn obeys_add_spec() -> bool {
        true
    }

    open spec fn add_req(self, other: Radians<Value>) -> bool {
        obeys_arith::<Value>() && self.term().plus(other.term()).defined
    }

    open spec fn add_spec(self, other: Radians<Value>) -> Radians<Value> {
        Radians(self.term().plus(other.term()).value)
    }
}

impl<'a, Value: Numeric> Add<Radians<Value>> for &'a Radians<Value> {
    type Output = Radians<Value>;

    fn add(self, other: Radians<Value>) -> (r: Radians<Value>) {
        Radians(self.0 + other.0)
    }
}

impl<'a, Value: Numeric> AddSpecImpl<Radians<Value>> for &'a Radians<Value> {
    open spec fn obeys_add_spec() -> bool {
        true
    }

    open spec fn add_req(self, other: Radians<Value>) -> bool {
        obeys_arith::<Value>() && self.term().plus(other.term()).defined
    }

    open spec fn add_spec(self, other: Radians<Value>) -> Radians<Value> {
        Radians(self.term().plus(other.term()).value)
    }
}

impl<'b, Value: Numeric> Add<&'b Radians<Value>> for Radians<Value> {
    type Output = Radians<Value>;

    fn add(self, other: &'b Radians<Value>) -> (r: Radians<Value>) {
        Radians(self.0 + other.0)
    }
}

impl<'b, Value: Numeric> AddSpecImpl<&'b Radians<Value>> for Radians<Value> {
    open spec fn obeys_add_spec() -> bool {
        true
    }

    open spec fn add_req(self, other: &'b Radians<Value>) -> bool {
        obeys_arith::<Value>() && self.term().plus(other.term()).defined
    }

    open spec fn add_spec(self, other: &'b Radians<Value>) -> Radians<Value> {
        Radians(self.term().plus(other.term()).value)
    }
}

impl<'a, 'b, Value: Numeric> Add<&'b Radians<Value>> for &'a Radians<Value> {
    type Output = Radians<Value>;

    fn add(self, other: &'b Radians<Value>) -> (r: Radians<Value>) {
        Radians(self.0 + other.0)
    }
}

impl<'a, 'b, Value: Numeric> AddSpecImpl<&'b Radians<Value>> for &'a Radians<Value> {
    open spec fn obeys_add_spec() -> bool {
        true
    }

    open spec fn add_req(self, other: &'b Radians<Value>) -> bool {
        obeys_arith::<Value>() && self.term().plus(other.term()).defined
    }

    open spec fn add_spec(self, other: &'b Radians<Value>) -> Radians<Value> {
        Radians(self.term().plus(other.term()).value)
    }
}

impl<Value: Numeric> Add<Value> for Radians<Value> {
    type Output = Radians<Value>;

    fn add(self, other: Value) -> (r: Radians<Value>) {
        Radians(self.0 + other)
    }
}

impl<Value: Numeric> AddSpecImpl<Value> for Radians<Value> {
    open spec fn obeys_add_spec() -> bool {
        true
    }

    open spec fn add_req(self, other: Value) -> bool {
        obeys_arith::<Value>() && self.term().plus(Term::of(other)).defined
    }

    open spec fn add_spec(self, other: Value) -> Radians<Value> {
        Radians(self.term().plus(Term::of(other)).value)
    }
}

impl<'a, Value: Numeric> Add<Value> for &'a Radians<Value> {
    type Output = Radians<Value>;

    fn add(self, other: Value) -> (r: Radians<Value>) {
        Radians(self.0 + other)
    }
}

impl<'a, Value: Numeric> AddSpecImpl<Value> for &'a Radians<Value> {
    open spec fn obeys_add_spec() -> bool {
        true
    }

    open spec fn add_req(self, other: Value) -> bool {
        obeys_arith::<Value>() && self.term().plus(Term::of(other)).defined
    }

    open spec fn add_spec(self, other: Value) -> Radians<Value> {
        Radians(self.term().plus(Term::of(other)).value)
    }
}

impl<Value: Numeric> AddAssign<Radians<Value>> for Radians<Value> {
    fn add_assign(&mut self, other: Radians<Value>)
        requires
            obeys_arith::<Value>(),
            old(self).term().plus(other.term()).defined,
        ensures
            *final(self) == Radians(old(self).term().plus(other.term()).value),
    {
        *self = Radians(self.0 + other.0);
    }
}

impl<Value: Numeric> Sub<Radians<Value>> for Radians<Value> {
    type Output = Radians<Value>;

    fn sub(self, other: Radians<Value>) -> (r: Radians<Value>) {
        Radians(self.0 - other.0)
    }
}

impl<Value: Numeric> SubSpecImpl<Radians<Value>> for Radians<Value> {
    open spec fn obeys_sub_spec() -> bool {
        true
    }

    open spec fn sub_req(self, other: Radians<Value>) -> bool {
        obeys_arith::<Value>() && self.term().minus(other.term()).defined
    }

    open spec fn sub_spec(self, other: Radians<Value>) -> Radians<Value> {
        Radians(self.term().minus(other.term()).value)
    }
}

impl<'a, Value: Numeric> Sub<Radians<Value>> for &'a Radians<Value> {
    type Output = Radians<Value>;

    fn sub(self, other: Radians<Value>) -> (r: Radians<Value>) {
        Radians(self.0 - other.0)
    }
}

impl<'a, Value: Numeric> SubSpecImpl<Radians<Value>> for &'a Radians<Value> {
    open spec fn obeys_sub_spec() -> bool {
        true
    }

    open spec fn sub_req(self, other: Radians<Value>) -> bool {
        obeys_arith::<Value>() && self.term().minus(other.term()).defined
    }

    open spec fn sub_spec(self, other: Radians<Value>) -> Radians<Value> {
        Radians(self.term().minus(other.term()).value)
    }
}

impl<'b, Value: Numeric> Sub<&'b Radians<Value>> for Radians<Value> {
    type Output = Radians<Value>;

    fn sub(self, other: &'b Radians<Value>) -> (r: Radians<Value>) {
        Radians(self.0 - other.0)
    }
}

impl<'b, Value: Numeric> SubSpecImpl<&'b Radians<Value>> for Radians<Value> {
    open spec fn obeys_sub_spec() -> bool {
        true
    }

    open spec fn sub_req(self, other: &'b Radians<Value>) -> bool {
        obeys_arith::<Value>() && self.term().minus(other.term()).defined
    }

    open spec fn sub_spec(self, other: &'b Radians<Value>) -> Radians<Value> {
        Radians(self.term().minus(other.term()).value)
    }
}

impl<'a, 'b, Value: Numeric> Sub<&'b Radians<Value>> for &'a Radians<Value> {
    type Output = Radians<Value>;

    fn sub(self, other: &'b Radians<Value>) -> (r: Radians<Value>) {
        Radians(self.0 - other.0)
    }
}

impl<'a, 'b, Value: Numeric> SubSpecImpl<&'b Radians<Value>> for &'a Radians<Value> {
    open spec fn obeys_sub_spec() -> bool {
        true
    }

    open spec fn sub_req(self, other: &'b Radians<Value>) -> bool {
        obeys_arith::<Value>() && self.term().minus(other.term()).defined
    }

    open spec fn sub_spec(self, other: &'b Radians<Value>) -> Radians<Value> {
        Radians(self.term().minus(other.term()).value)
    }
}

impl<Value: Numeric> Sub<Value> for Radians<Value> {
    type Output = Radians<Value>;

    fn sub(self, other: Value) -> (r: Radians<Value>) {
        Radians(self.0 - other)
    }
}

impl<Value: Numeric> SubSpecImpl<Value> for Radians<Value> {
    open spec fn obeys_sub_spec() -> bool {
        true
    }

    open spec fn sub_req(self, other: Value) -> bool {
        obeys_arith::<Value>() && self.term().minus(Term::of(other)).defined
    }

    open spec fn sub_spec(self, other: Value) -> Radians<Value> {
        Radians(self.term().minus(Term::of(other)).value)
    }
}

impl<'a, Value: Numeric> Sub<Value> for &'a Radians<Value> {
    type Output = Radians<Value>;

    fn sub(self, other: Value) -> (r: Radians<Value>) {
        Radians(self.0 - other)
    }
}

impl<'a, Value: Numeric> SubSpecImpl<Value> for &'a Radians<Value> {
    open spec fn obeys_sub_spec() -> bool {
        true
    }

    open spec fn sub_req(self, other: Value) -> bool {
        obeys_arith::<Value>() && self.term().minus(Term::of(other)).defined
    }

    open spec fn sub_spec(self, other: Value) -> Radians<Value> {
        Radians(self.term().minus(Term::of(other)).value)
    }
}

impl<Value: Numeric> SubAssign<Radians<Value>> for Radians<Value> {
    fn sub_assign(&mut self, other: Radians<Value>)
        requires
            obeys_arith::<Value>(),
            old(self).term().minus(other.term()).defined,
        ensures
            *final(self) == Radians(old(self).term().minus(other.term()).value),
    {
        *self = Radians(self.0 - other.0);
    }
}

impl<Value: Numeric> Mul<Value> for Radians<Value> {
    type Output = Radians<Value>;

    fn mul(self, other: Value) -> (r: Radians<Value>) {
        Radians(self.0 * other)
    }
}

impl<Value: Numeric> MulSpecImpl<Value> for Radians<Value> {
    open spec fn obeys_mul_spec() -> bool {
        true
    }

    open spec fn mul_req(self, other: Value) -> bool {
        obeys_arith::<Value>() && self.term().times(Term::of(other)).defined
    }

    open spec fn mul_spec(self, other: Value) -> Radians<Value> {
        Radians(self.term().times(Term::of(other)).value)
    }
}

impl<'a, Value: Numeric> Mul<Value> for &'a Radians<Value> {
    type Output = Radians<Value>;

    fn mul(self, other: Value) -> (r: Radians<Value>) {
        Radians(self.0 * other)
    }
}

impl<'a, Value: Numeric> MulSpecImpl<Value> for &'a Radians<Value> {
    open spec fn obeys_mul_spec() -> bool {
        true
    }

    open spec fn mul_req(self, other: Value) -> bool {
        obeys_arith::<Value>() && self.term().times(Term::of(other)).defined
    }

    open spec fn mul_spec(self, other: Value) -> Radians<Value> {
        Radians(self.term().times(Term::of(other)).value)
    }
}

impl<Value: Numeric> MulAssign<Radians<Value>> for Radians<Value> {
    fn mul_assign(&mut self, other: Radians<Value>)
        requires
            obeys_arith::<Value>(),
            old(self).term().times(other.term()).defined,
        ensures
            *final(self) == Radians(old(self).term().times(other.term()).value),
    {
        *self = Radians(self.0 * other.0);
    }
}

impl<Value: Numeric> Div<Value> for Radians<Value> {
    type Output = Radians<Value>;

    fn div(self, other: Value) -> (r: Radians<Value>) {
        Radians(self.0 / other)
    }
}

impl<Value: Numeric> DivSpecImpl<Value> for Radians<Value> {
    open spec fn obeys_div_spec() -> bool {
        true
    }

    open spec fn div_req(self, other: Value) -> bool {
        obeys_arith::<Value>() && self.term().over(Term::of(other)).defined
    }

    open spec fn div_spec(self, other: Value) -> Radians<Value> {
        Radians(self.term().over(Term::of(other)).value)
    }
}

impl<'a, Value: Numeric> Div<Value> for &'a Radians<Value> {
    type Output = Radians<Value>;

    fn div(self, other: Value) -> (r: Radians<Value>) {
        Radians(self.0 / other)
    }
}

impl<'a, Value: Numeric> DivSpecImpl<Value> for &'a Radians<Value> {
    open spec fn obeys_div_spec() -> bool {
        true
    }

    open spec fn div_req(self, other: Value) -> bool {
        obeys_arith::<Value>() && self.term().over(Term::of(other)).defined
    }

    open spec fn div_spec(self, other: Value) -> Radians<Value> {
        Radians(self.term().over(Term::of(other)).value)
    }
}

impl<Value: Numeric> DivAssign<Radians<Value>> for Radians<Value> {
    fn div_assign(&mut self, other: Radians<Value>)
        requires
            obeys_arith::<Value>(),
            old(self).term().over(other.term()).defined,
        ensures
            *final(self) == Radians(old(self).term().over(other.term()).value),
    {
        *self = Radians(self.0 / other.0);
    }
}

} // verus!
