//! Vectors of two components.
use crate::angle::Radians;
use crate::traits::float::Float;
use crate::traits::float::Sqrt;
use crate::traits::obeys_arith;
use crate::traits::order::exceeds;
use crate::traits::order::obeys_order;
use crate::traits::Division;
use crate::traits::Identity;
use crate::traits::Negation;
use crate::traits::Numeric;
use crate::traits::Ring;
use crate::traits::Term;
use crate::traits::Zero;
use vstd::prelude::*;
use vstd::std_specs::convert::FromSpecImpl;

pub mod ops;
pub mod scalar;
pub mod swizzle;

verus! {

/// A vector of two components, held in the order x, y.
#[derive(Copy, Clone, Debug, Default, PartialEq, PartialOrd)]
pub struct Vec2<Value>(pub [Value; 2]);

/// Two values by name: what a [`Vec2`] holds, or what a formula says of each
/// component.
pub struct Vec2Model<E> {
    pub x: E,
    pub y: E,
}

impl<Value> View for Vec2<Value> {
    type V = Vec2Model<Value>;

    open spec fn view(&self) -> Vec2Model<Value> {
        Vec2Model { x: self.0[0], y: self.0[1] }
    }
}

impl<Value> Vec2<Value> {
    /// The components as the terms of a formula.
    pub open spec fn terms(self) -> Vec2Model<Term<Value>> {
        self@.terms()
    }
}

impl<E> Vec2Model<E> {
    /// The vector of these components.
    pub open spec fn vector(self) -> Vec2<E> {
        Vec2([self.x, self.y])
    }

    /// Each component as a term of a formula.
    pub open spec fn terms(self) -> Vec2Model<Term<E>> {
        Vec2Model { x: Term::of(self.x), y: Term::of(self.y) }
    }
}

impl<V> Vec2Model<Term<V>> {
    /// Every component is defined.
    pub open spec fn defined(self) -> bool {
        self.x.defined && self.y.defined
    }

    /// The components' values.
    pub open spec fn values(self) -> Vec2Model<V> {
        Vec2Model { x: self.x.value, y: self.y.value }
    }

    /// The vector of the components' values.
    pub open spec fn value(self) -> Vec2<V> {
        Vec2([self.x.value, self.y.value])
    }

    /// `self`, where `other` is computed first.
    pub open spec fn after(self, other: Term<V>) -> Self {
        Vec2Model { x: self.x.after(other), y: self.y.after(other) }
    }
}

impl<E: Negation> Vec2Model<E> {
    /// `-self`, by component.
    pub open spec fn negated(self) -> Self {
        Vec2Model { x: self.x.negated(), y: self.y.negated() }
    }
}

impl<E: Division> Vec2Model<E> {
    /// `self / other`, by component.
    pub open spec fn over(self, other: Self) -> Self {
        Vec2Model { x: self.x.over(other.x), y: self.y.over(other.y) }
    }

    /// `self / s`, for each component.
    pub open spec fn over_each(self, s: E) -> Self {
        Vec2Model { x: self.x.over(s), y: self.y.over(s) }
    }

    /// `s / self`, for each component.
    pub open spec fn each_over(self, s: E) -> Self {
        Vec2Model { x: s.over(self.x), y: s.over(self.y) }
    }
}

impl<E: Ring> Vec2Model<E> {
    /// `self + other`, by component.
    pub open spec fn plus(self, other: Self) -> Self {
        Vec2Model { x: self.x.plus(other.x), y: self.y.plus(other.y) }
    }

    /// `self + s`, for each component.
    pub open spec fn plus_each(self, s: E) -> Self {
        Vec2Model { x: self.x.plus(s), y: self.y.plus(s) }
    }

    /// `s + self`, for each component.
    pub open spec fn each_plus(self, s: E) -> Self {
        Vec2Model { x: s.plus(self.x), y: s.plus(self.y) }
    }

    /// `self - other`, by component.
    pub open spec fn minus(self, other: Self) -> Self {
        Vec2Model { x: self.x.minus(other.x), y: self.y.minus(other.y) }
    }

    /// `self - s`, for each component.
    pub open spec fn minus_each(self, s: E) -> Self {
        Vec2Model { x: self.x.minus(s), y: self.y.minus(s) }
    }

    /// `s - self`, for each component.
    pub open spec fn each_minus(self, s: E) -> Self {
        Vec2Model { x: s.minus(self.x), y: s.minus(self.y) }
    }

    /// `self * other`, by component.
    pub open spec fn times(self, other: Self) -> Self {
        Vec2Model { x: self.x.times(other.x), y: self.y.times(other.y) }
    }

    /// `self * s`, for each component.
    pub open spec fn times_each(self, s: E) -> Self {
        Vec2Model { x: self.x.times(s), y: self.y.times(s) }
    }

    /// `s * self`, for each component.
    pub open spec fn each_times(self, s: E) -> Self {
        Vec2Model { x: s.times(self.x), y: s.times(self.y) }
    }

    /// The components added up, from the first to the last.
    pub open spec fn sum(self) -> E {
        self.x.plus(self.y)
    }

    /// The products of the components of the same name, added up from the first to the last.
    pub open spec fn dot(self, other: Self) -> E {
        self.x.times(other.x).plus(self.y.times(other.y))
    }

    /// The dot product of `self` with itself.
    pub open spec fn square_magnitude(self) -> E {
        self.dot(self)
    }

    /// The square magnitude of `self - other`.
    pub open spec fn square_distance(self, other: Self) -> E {
        self.minus(other).square_magnitude()
    }
}

impl<V: Numeric + Sqrt> Vec2Model<Term<V>> {
    /// The square root of the square magnitude.
    pub open spec fn magnitude(self) -> Term<V> {
        self.square_magnitude().root()
    }

    /// The magnitude of `other - self`.
    pub open spec fn distance_to(self, other: Self) -> Term<V> {
        other.minus(self).magnitude()
    }

    /// `self` divided by its magnitude where that is greater than zero, else `self`.
    pub open spec fn normalized(self) -> Self {
        let len = self.magnitude();
        if exceeds(len.value, V::zero_spec()) {
            self.over_each(len)
        } else {
            self.after(len)
        }
    }
}

impl<E: Ring> Vec2Model<E> {
    /// `self` turned counterclockwise by the angle of which `s` and `c` are the sine and the
    /// cosine: `(c·x - s·y, s·x + c·y)`.
    pub open spec fn turned(self, s: E, c: E) -> Self {
        Vec2Model {
            x: c.times(self.x).minus(s.times(self.y)),
            y: s.times(self.x).plus(c.times(self.y)),
        }
    }
}

impl<V: Float> Vec2Model<Term<V>> {
    /// `self` turned by `angle`, counterclockwise.
    pub open spec fn rotated(self, angle: Term<V>) -> Self {
        self.turned(angle.sin(), angle.cos())
    }

    /// The angle whose cosine is the dot product over the product of the magnitudes.
    pub open spec fn angle_between(self, other: Self) -> Term<V> {
        self.dot(other).over(self.magnitude().times(other.magnitude())).acos()
    }
}

impl<Value> Vec2<Value> {
    /// What [`new`](Self::new) returns, for use in specifications.
    pub open spec fn spec_new(x: Value, y: Value) -> Self {
        Vec2([x, y])
    }

    #[verifier::when_used_as_spec(spec_new)]
    pub fn new(x: Value, y: Value) -> (r: Self)
        ensures
            r == Self::spec_new(x, y),
            r == Vec2([x, y]),
            r@ == (Vec2Model { x: x, y: y }),
    {
        Vec2([x, y])
    }

    /// The components in order.
    pub fn iter(&self) -> (r: core::slice::Iter<'_, Value>)
        ensures
            vstd::std_specs::slice::into_iter_elts(r) == self.0@,
    {
        self.0.iter()
    }

    /// `f` applied to each component.
    pub fn map<F>(self, f: F) -> (r: Self) where F: Fn(&Value) -> Value
        requires
            call_requires(f, (&self.0[0],)),
            call_requires(f, (&self.0[1],)),
        ensures
            call_ensures(f, (&self.0[0],), r.0[0]),
            call_ensures(f, (&self.0[1],), r.0[1]),
    {
        let x = f(&self.0[0]);
        let y = f(&self.0[1]);
        Vec2([x, y])
    }
}

impl<Value: Copy> Vec2<Value> {
    pub fn x(&self) -> (r: Value)
        ensures
            r == self.0[0],
            r == self@.x,
    {
        self.0[0]
    }

    pub fn y(&self) -> (r: Value)
        ensures
            r == self.0[1],
            r == self@.y,
    {
        self.0[1]
    }

    pub fn set_x(&mut self, n: Value)
        ensures
            *final(self) == Vec2([n, old(self).0[1]]),
            final(self)@ == (Vec2Model { x: n, y: old(self)@.y }),
    {
        *self = Vec2([n, self.0[1]]);
    }

    pub fn set_y(&mut self, n: Value)
        ensures
            *final(self) == Vec2([old(self).0[0], n]),
            final(self)@ == (Vec2Model { x: old(self)@.x, y: n }),
    {
        *self = Vec2([self.0[0], n]);
    }

    pub fn as_array(&self) -> (r: [Value; 2])
        ensures
            r == self.0,
    {
        self.0
    }
}

impl<Value> vstd::std_specs::core::IndexSpecImpl<usize> for Vec2<Value> {
    open spec fn index_req(&self, i: &usize) -> bool {
        *i < 2
    }
}

impl<Value> core::ops::Index<usize> for Vec2<Value> {
    type Output = Value;

    fn index(&self, i: usize) -> (r: &Value)
        ensures
            *r == self.0[i as int],
    {
        &self.0[i]
    }
}

impl<Value> core::ops::IndexMut<usize> for Vec2<Value> {
    fn index_mut(&mut self, i: usize) -> (r: &mut Value)
        requires
            i < 2,
        ensures
            *r == old(self).0[i as int],
            final(self).0@ == old(self).0@.update(i as int, *final(r)),
    {
        &mut self.0[i]
    }
}

impl<Value: Identity> Identity for Vec2<Value> {
    open spec fn identity_spec() -> Self {
        Vec2([Value::identity_spec(), Value::identity_spec()])
    }

    fn identity() -> (r: Self) {
        Vec2([Value::identity(), Value::identity()])
    }
}

impl<Value: Zero> Zero for Vec2<Value> {
    open spec fn zero_spec() -> Self {
        Vec2([Value::zero_spec(), Value::zero_spec()])
    }

    fn zero() -> (r: Self) {
        Vec2([Value::zero(), Value::zero()])
    }
}

impl<Value: Identity + Zero> Vec2<Value> {
    /// The unit vector along x.
    pub fn unit_x() -> (r: Self)
        ensures
            r == Vec2([Value::identity_spec(), Value::zero_spec()]),
    {
        Vec2([Value::identity(), Value::zero()])
    }

    /// The unit vector along y.
    pub fn unit_y() -> (r: Self)
        ensures
            r == Vec2([Value::zero_spec(), Value::identity_spec()]),
    {
        Vec2([Value::zero(), Value::identity()])
    }
}

impl<Value: Numeric> Vec2<Value> {
    /// The sum of the components.
    pub fn sum(&self) -> (r: Value)
        requires
            obeys_arith::<Value>(),
            self.terms().sum().defined,
        ensures
            r == self.terms().sum().value,
    {
        self.0[0] + self.0[1]
    }

    /// The dot product of two vectors.
    pub fn dot(&self, other: &Self) -> (r: Value)
        requires
            obeys_arith::<Value>(),
            self.terms().dot(other.terms()).defined,
        ensures
            r == self.terms().dot(other.terms()).value,
    {
        self.0[0] * other.0[0] + self.0[1] * other.0[1]
    }

    pub fn square_magnitude(&self) -> (r: Value)
        requires
            obeys_arith::<Value>(),
            self.terms().square_magnitude().defined,
        ensures
            r == self.terms().square_magnitude().value,
    {
        self.dot(self)
    }

    /// The square distance between two vectors.
    pub fn square_distance(&self, other: &Self) -> (r: Value)
        requires
            obeys_arith::<Value>(),
            self.terms().square_distance(other.terms()).defined,
        ensures
            r == self.terms().square_distance(other.terms()).value,
    {
        (self - other).square_magnitude()
    }

    /// Multiplies each component by `scalar`, in place.
    pub fn scale(&mut self, scalar: Value) -> (r: &mut Self)
        requires
            obeys_arith::<Value>(),
            old(self).terms().times_each(Term::of(scalar)).defined(),
        ensures
            *r == old(self).terms().times_each(Term::of(scalar)).value(),
            r@ == old(self).terms().times_each(Term::of(scalar)).values(),
            *final(self) == *final(r),
    {
        *self = Vec2([self.0[0] * scalar, self.0[1] * scalar]);
        self
    }

    /// Multiplies each component by the component of `other` of the same name, in place.
    pub fn scale_by(&mut self, other: &Self) -> (r: &mut Self)
        requires
            obeys_arith::<Value>(),
            old(self).terms().times(other.terms()).defined(),
        ensures
            *r == old(self).terms().times(other.terms()).value(),
            r@ == old(self).terms().times(other.terms()).values(),
            *final(self) == *final(r),
    {
        *self = Vec2([self.0[0] * other.0[0], self.0[1] * other.0[1]]);
        self
    }
}

impl<Value: Numeric + Sqrt> Vec2<Value> {
    pub fn magnitude(&self) -> (r: Value)
        requires
            obeys_arith::<Value>(),
            self.terms().magnitude().defined,
        ensures
            r == self.terms().magnitude().value,
    {
        self.square_magnitude().sqrt()
    }

    /// The distance between two vectors.
    pub fn distance_to(&self, other: &Self) -> (r: Value)
        requires
            obeys_arith::<Value>(),
            self.terms().distance_to(other.terms()).defined,
        ensures
            r == self.terms().distance_to(other.terms()).value,
    {
        (other - self).magnitude()
    }

    /// Divides each component by the magnitude, in place. A vector whose magnitude is not
    /// greater than zero is left as it is.
    pub fn normalize(&mut self) -> (r: &mut Self)
        requires
            obeys_arith::<Value>(),
            obeys_order::<Value>(),
            old(self).terms().normalized().defined(),
        ensures
            *r == old(self).terms().normalized().value(),
            r@ == old(self).terms().normalized().values(),
            *final(self) == *final(r),
    {
        let len = self.magnitude();
        if len > Value::zero() {
            *self = Vec2([self.0[0] / len, self.0[1] / len]);
        }
        assert(self.0 =~= old(self).terms().normalized().value().0);
        self
    }
}

impl<Value: Float> Vec2<Value> {
    /// Turns the vector by `angle`, counterclockwise, in place.
    pub fn rotate(&mut self, angle: Radians<Value>) -> (r: &mut Self)
        requires
            obeys_arith::<Value>(),
            old(self).terms().rotated(angle.term()).defined(),
        ensures
            *r == old(self).terms().rotated(angle.term()).value(),
            r@ == old(self).terms().rotated(angle.term()).values(),
            *final(self) == *final(r),
    {
        let (s, c) = angle.sin_cos();
        let x = self.0[0];
        let y = self.0[1];
        *self = Vec2([c * x - s * y, s * x + c * y]);
        self
    }

    /// The angle between two vectors. Nothing is clamped: where a magnitude is zero, or
    /// rounding takes the cosine out of its range, the result is what `acos` makes of it.
    pub fn angle_between(&self, other: &Self) -> (r: Radians<Value>)
        requires
            obeys_arith::<Value>(),
            self.terms().angle_between(other.terms()).defined,
        ensures
            r.0 == self.terms().angle_between(other.terms()).value,
    {
        Radians::new((self.dot(other) / (self.magnitude() * other.magnitude())).acos())
    }
}

impl<T> FromSpecImpl<(T, T)> for Vec2<T> {
    open spec fn obeys_from_spec() -> bool {
        true
    }

    open spec fn from_spec(v: (T, T)) -> Self {
        Vec2([v.0, v.1])
    }
}

impl<T> From<(T, T)> for Vec2<T> {
    fn from(v: (T, T)) -> (r: Self) {
        Vec2([v.0, v.1])
    }
}

impl<T: Copy> FromSpecImpl<Vec2<T>> for (T, T) {
    open spec fn obeys_from_spec() -> bool {
        true
    }

    open spec fn from_spec(v: Vec2<T>) -> Self {
        (v.0[0], v.0[1])
    }
}

impl<T: Copy> From<Vec2<T>> for (T, T) {
    fn from(v: Vec2<T>) -> (r: Self) {
        (v.0[0], v.0[1])
    }
}

impl<T> FromSpecImpl<[T; 2]> for Vec2<T> {
    open spec fn obeys_from_spec() -> bool {
        true
    }

    open spec fn from_spec(data: [T; 2]) -> Self {
        Vec2(data)
    }
}

impl<T> From<[T; 2]> for Vec2<T> {
    fn from(data: [T; 2]) -> (r: Self) {
        Vec2(data)
    }
}

impl<T> FromSpecImpl<Vec2<T>> for [T; 2] {
    open spec fn obeys_from_spec() -> bool {
        true
    }

    open spec fn from_spec(v: Vec2<T>) -> Self {
        v.0
    }
}

impl<T> From<Vec2<T>> for [T; 2] {
    fn from(v: Vec2<T>) -> (r: Self) {
        v.0
    }
}

impl<'a, T: Copy> FromSpecImpl<&'a [T; 2]> for Vec2<T> {
    open spec fn obeys_from_spec() -> bool {
        true
    }

    open spec fn from_spec(data: &'a [T; 2]) -> Self {
        Vec2(*data)
    }
}

impl<'a, T: Copy> From<&'a [T; 2]> for Vec2<T> {
    fn from(data: &'a [T; 2]) -> (r: Self) {
        Vec2(*data)
    }
}

impl<'a, T: Copy> FromSpecImpl<&'a Vec2<T>> for [T; 2] {
    open spec fn obeys_from_spec() -> bool {
        true
    }

    open spec fn from_spec(v: &'a Vec2<T>) -> Self {
        v.0
    }
}

impl<'a, T: Copy> From<&'a Vec2<T>> for [T; 2] {
    fn from(v: &'a Vec2<T>) -> (r: Self) {
        v.0
    }
}

/// A vector taken apart into a tuple and put together again is the vector it was, and so for
/// an array.
pub proof fn lemma_vec2_round_trip<T: Copy>(v: Vec2<T>)
    ensures
        <Vec2<T> as vstd::std_specs::convert::FromSpec<(T, T)>>::from_spec(
            <(T, T) as vstd::std_specs::convert::FromSpec<Vec2<T>>>::from_spec(v),
        ) == v,
        <Vec2<T> as vstd::std_specs::convert::FromSpec<[T; 2]>>::from_spec(
            <[T; 2] as vstd::std_specs::convert::FromSpec<Vec2<T>>>::from_spec(v),
        ) == v,
{
    assert(Vec2([v.0[0], v.0[1]]).0 =~= v.0);
}

} // verus!
