//! Vectors of four components.
use crate::angle::Radians;
use crate::traits::float::Float;
use crate::traits::float::Sqrt;
use crate::traits::obeys_arith;
use crate::traits::order::exceeds;
use crate::traits::order::obeys_order;
use crate::traits::Division;
use crate::traits::Identity;
use crate::traits::Negation;
use crate::traits::Numeric;
use crate::traits::Ring;
use crate::traits::Term;
use crate::traits::Zero;
use vstd::prelude::*;
use vstd::std_specs::convert::FromSpecImpl;

pub mod ops;
pub mod scalar;

verus! {

/// A vector of four components, held in the order x, y, z, w.
#[derive(Copy, Clone, Debug, Default, PartialEq, PartialOrd)]
pub struct Vec4<Value>(pub [Value; 4]);

/// Four values by name: what a [`Vec4`] holds, or what a formula says of each
/// component.
pub struct Vec4Model<E> {
    pub x: E,
    pub y: E,
    pub z: E,
    pub w: E,
}

impl<Value> View for Vec4<Value> {
    type V = Vec4Model<Value>;

    open spec fn view(&self) -> Vec4Model<Value> {
        Vec4Model { x: self.0[0], y: self.0[1], z: self.0[2], w: self.0[3] }
    }
}

impl<Value> Vec4<Value> {
    /// The components as the terms of a formula.
    pub open spec fn terms(self) -> Vec4Model<Term<Value>> {
        self@.terms()
    }
}

impl<E> Vec4Model<E> {
    /// The vector of these components.
    pub open spec fn vector(self) -> Vec4<E> {
        Vec4([self.x, self.y, self.z, self.w])
    }

    /// Each component as a term of a formula.
    pub open spec fn terms(self) -> Vec4Model<Term<E>> {
        Vec4Model { x: Term::of(self.x), y: Term::of(self.y), z: Term::of(self.z), w: Term::of(self.w) }
    }
}

impl<V> Vec4Model<Term<V>> {
    /// Every component is defined.
    pub open spec fn defined(self) -> bool {
        self.x.defined && self.y.defined && self.z.defined && self.w.defined
    }

    /// The components' values.
    pub open spec fn values(self) -> Vec4Model<V> {
        Vec4Model { x: self.x.value, y: self.y.value, z: self.z.value, w: self.w.value }
    }

    /// The vector of the components' values.
    pub open spec fn value(self) -> Vec4<V> {
        Vec4([self.x.value, self.y.value, self.z.value, self.w.value])
    }

    /// `self`, where `other` is computed first.
    pub open spec fn after(self, other: Term<V>) -> Self {
        Vec4Model { x: self.x.after(other), y: self.y.after(other), z: self.z.after(other), w: self.w.after(other) }
    }
}

impl<E: Negation> Vec4Model<E> {
    /// `-self`, by component.
    pub open spec fn negated(self) -> Self {
        Vec4Model { x: self.x.negated(), y: self.y.negated(), z: self.z.negated(), w: self.w.negated() }
    }
}

impl<E: Division> Vec4Model<E> {
    /// `self / other`, by component.
    pub open spec fn over(self, other: Self) -> Self {
        Vec4Model { x: self.x.over(other.x), y: self.y.over(other.y), z: self.z.over(other.z), w: self.w.over(other.w) }
    }

    /// `self / s`, for each component.
    pub open spec fn over_each(self, s: E) -> Self {
        Vec4Model { x: self.x.over(s), y: self.y.over(s), z: self.z.over(s), w: self.w.over(s) }
    }

    /// `s / self`, for each component.
    pub open spec fn each_over(self, s: E) -> Self {
        Vec4Model { x: s.over(self.x), y: s.over(self.y), z: s.over(self.z), w: s.over(self.w) }
    }
}

impl<E: Ring> Vec4Model<E> {
    /// `self + other`, by component.
    pub open spec fn plus(self, other: Self) -> Self {
        Vec4Model { x: self.x.plus(other.x), y: self.y.plus(other.y), z: self.z.plus(other.z), w: self.w.plus(other.w) }
    }

    /// `self + s`, for each component.
    pub open spec fn plus_each(self, s: E) -> Self {
        Vec4Model { x: self.x.plus(s), y: self.y.plus(s), z: self.z.plus(s), w: self.w.plus(s) }
    }

    /// `s + self`, for each component.
    pub open spec fn each_plus(self, s: E) -> Self {
        Vec4Model { x: s.plus(self.x), y: s.plus(self.y), z: s.plus(self.z), w: s.plus(self.w) }
    }

    /// `self - other`, by component.
    pub open spec fn minus(self, other: Self) -> Self {
        Vec4Model { x: self.x.minus(other.x), y: self.y.minus(other.y), z: self.z.minus(other.z), w: self.w.minus(other.w) }
    }

    /// `self - s`, for each component.
    pub open spec fn minus_each(self, s: E) -> Self {
        Vec4Model { x: self.x.minus(s), y: self.y.minus(s), z: self.z.minus(s), w: self.w.minus(s) }
    }

    /// `s - self`, for each component.
    pub open spec fn each_minus(self, s: E) -> Self {
        Vec4Model { x: s.minus(self.x), y: s.minus(self.y), z: s.minus(self.z), w: s.minus(self.w) }
    }

    /// `self * other`, by component.
    pub open spec fn times(self, other: Self) -> Self {
        Vec4Model { x: self.x.times(other.x), y: self.y.times(other.y), z: self.z.times(other.z), w: self.w.times(other.w) }
    }

    /// `self * s`, for each component.
    pub open spec fn times_each(self, s: E) -> Self {
        Vec4Model { x: self.x.times(s), y: self.y.times(s), z: self.z.times(s), w: self.w.times(s) }
    }

    /// `s * self`, for each component.
    pub open spec fn each_times(self, s: E) -> Self {
        Vec4Model { x: s.times(self.x), y: s.times(self.y), z: s.times(self.z), w: s.times(self.w) }
    }

    /// The components added up, from the first to the last.
    pub open spec fn sum(self) -> E {
        self.x.plus(self.y).plus(self.z).plus(self.w)
    }

    /// The products of the components of the same name, added up from the first to the last.
    pub open spec fn dot(self, other: Self) -> E {
        self.x.times(other.x).plus(self.y.times(other.y)).plus(self.z.times(other.z)).plus(self.w.times(other.w))
    }

    /// The dot product of `self` with itself.
    pub open spec fn square_magnitude(self) -> E {
        self.dot(self)
    }

    /// The square magnitude of `self - other`.
    pub open spec fn square_distance(self, other: Self) -> E {
        self.minus(other).square_magnitude()
    }
}

impl<V: Numeric + Sqrt> Vec4Model<Term<V>> {
    /// The square root of the square magnitude.
    pub open spec fn magnitude(self) -> Term<V> {
        self.square_magnitude().root()
    }

    /// The magnitude of `other - self`.
    pub open spec fn distance_to(self, other: Self) -> Term<V> {
        other.minus(self).magnitude()
    }

    /// `self` divided by its magnitude where that is greater than zero, else `self`.
    pub open spec fn normalized(self) -> Self {
        let len = self.magnitude();
        if exceeds(len.value, V::zero_spec()) {
            self.over_each(len)
        } else {
            self.after(len)
        }
    }
}

impl<V: Float> Vec4Model<Term<V>> {
    /// The angle whose cosine is the dot product over the product of the magnitudes.
    pub open spec fn angle_between(self, other: Self) -> Term<V> {
        self.dot(other).over(self.magnitude().times(other.magnitude())).acos()
    }
}

impl<Value> Vec4<Value> {
    /// What [`new`](Self::new) returns, for use in specifications.
    pub open spec fn spec_new(x: Value, y: Value, z: Value, w: Value) -> Self {
        Vec4([x, y, z, w])
    }

    #[verifier::when_used_as_spec(spec_new)]
    pub fn new(x: Value, y: Value, z: Value, w: Value) -> (r: Self)
        ensures
            r == Self::spec_new(x, y, z, w),
            r == Vec4([x, y, z, w]),
            r@ == (Vec4Model { x: x, y: y, z: z, w: w }),
    {
        Vec4([x, y, z, w])
    }

    /// The components in order.
    pub fn iter(&self) -> (r: core::slice::Iter<'_, Value>)
        ensures
            vstd::std_specs::slice::into_iter_elts(r) == self.0@,
    {
        self.0.iter()
    }
}

impl<Value: Copy> Vec4<Value> {
    pub fn x(&self) -> (r: Value)
        ensures
            r == self.0[0],
            r == self@.x,
    {
        self.0[0]
    }

    pub fn y(&self) -> (r: Value)
        ensures
            r == self.0[1],
            r == self@.y,
    {
        self.0[1]
    }

    pub fn z(&self) -> (r: Value)
        ensures
            r == self.0[2],
            r == self@.z,
    {
        self.0[2]
    }

    pub fn w(&self) -> (r: Value)
        ensures
            r == self.0[3],
            r == self@.w,
    {
        self.0[3]
    }

    pub fn set_x(&mut self, n: Value)
        ensures
            *final(self) == Vec4([n, old(self).0[1], old(self).0[2], old(self).0[3]]),
            final(self)@ == (Vec4Model { x: n, y: old(self)@.y, z: old(self)@.z, w: old(self)@.w }),
    {
        *self = Vec4([n, self.0[1], self.0[2], self.0[3]]);
    }

    pub fn set_y(&mut self, n: Value)
        ensures
            *final(self) == Vec4([old(self).0[0], n, old(self).0[2], old(self).0[3]]),
            final(self)@ == (Vec4Model { x: old(self)@.x, y: n, z: old(self)@.z, w: old(self)@.w }),
    {
        *self = Vec4([self.0[0], n, self.0[2], self.0[3]]);
    }

    pub fn set_z(&mut self, n: Value)
        ensures
            *final(self) == Vec4([old(self).0[0], old(self).0[1], n, old(self).0[3]]),
            final(self)@ == (Vec4Model { x: old(self)@.x, y: old(self)@.y, z: n, w: old(self)@.w }),
    {
        *self = Vec4([self.0[0], self.0[1], n, self.0[3]]);
    }

    pub fn set_w(&mut self, n: Value)
        ensures
            *final(self) == Vec4([old(self).0[0], old(self).0[1], old(self).0[2], n]),
            final(self)@ == (Vec4Model { x: old(self)@.x, y: old(self)@.y, z: old(self)@.z, w: n }),
    {
        *self = Vec4([self.0[0], self.0[1], self.0[2], n]);
    }

    pub fn as_array(&self) -> (r: [Value; 4])
        ensures
            r == self.0,
    {
        self.0
    }
}

impl<Value> vstd::std_specs::core::IndexSpecImpl<usize> for Vec4<Value> {
    open spec fn index_req(&self, i: &usize) -> bool {
        *i < 4
    }
}

impl<Value> core::ops::Index<usize> for Vec4<Value> {
    type Output = Value;

    fn index(&self, i: usize) -> (r: &Value)
        ensures
            *r == self.0[i as int],
    {
        &self.0[i]
    }
}

impl<Value> core::ops::IndexMut<usize> for Vec4<Value> {
    fn index_mut(&mut self, i: usize) -> (r: &mut Value)
        requires
            i < 4,
        ensures
            *r == old(self).0[i as int],
            final(self).0@ == old(self).0@.update(i as int, *final(r)),
    {
        &mut self.0[i]
    }
}

impl<Value: Identity> Identity for Vec4<Value> {
    open spec fn identity_spec() -> Self {
        Vec4([Value::identity_spec(), Value::identity_spec(), Value::identity_spec(), Value::identity_spec()])
    }

    fn identity() -> (r: Self) {
        Vec4([Value::identity(), Value::identity(), Value::identity(), Value::identity()])
    }
}

impl<Value: Zero> Zero for Vec4<Value> {
    open spec fn zero_spec() -> Self {
        Vec4([Value::zero_spec(), Value::zero_spec(), Value::zero_spec(), Value::zero_spec()])
    }

    fn zero() -> (r: Self) {
        Vec4([Value::zero(), Value::zero(), Value::zero(), Value::zero()])
    }
}

impl<Value: Identity + Zero> Vec4<Value> {
    /// The unit vector along x.
    pub fn unit_x() -> (r: Self)
        ensures
            r == Vec4([Value::identity_spec(), Value::zero_spec(), Value::zero_spec(), Value::zero_spec()]),
    {
        Vec4([Value::identity(), Value::zero(), Value::zero(), Value::zero()])
    }

    /// The unit vector along y.
    pub fn unit_y() -> (r: Self)
        ensures
            r == Vec4([Value::zero_spec(), Value::identity_spec(), Value::zero_spec(), Value::zero_spec()]),
    {
        Vec4([Value::zero(), Value::identity(), Value::zero(), Value::zero()])
    }

    /// The unit vector along z.
    pub fn unit_z() -> (r: Self)
        ensures
            r == Vec4([Value::zero_spec(), Value::zero_spec(), Value::identity_spec(), Value::zero_spec()]),
    {
        Vec4([Value::zero(), Value::zero(), Value::identity(), Value::zero()])
    }

    /// The unit vector along w.
    pub fn unit_w() -> (r: Self)
        ensures
            r == Vec4([Value::zero_spec(), Value::zero_spec(), Value::zero_spec(), Value::identity_spec()]),
    {
        Vec4([Value::zero(), Value::zero(), Value::zero(), Value::identity()])
    }
}

impl<Value: Numeric> Vec4<Value> {
    /// The sum of the components.
    pub fn sum(&self) -> (r: Value)
        requires
            obeys_arith::<Value>(),
            self.terms().sum().defined,
        ensures
            r == self.terms().sum().value,
    {
        self.0[0] + self.0[1] + self.0[2] + self.0[3]
    }

    /// The dot product of two vectors.
    pub fn dot(&self, other: &Self) -> (r: Value)
        requires
            obeys_arith::<Value>(),
            self.terms().dot(other.terms()).defined,
        ensures
            r == self.terms().dot(other.terms()).value,
    {
        self.0[0] * other.0[0] + self.0[1] * other.0[1] + self.0[2] * other.0[2] + self.0[3] * other.0[3]
    }

    pub fn square_magnitude(&self) -> (r: Value)
        requires
            obeys_arith::<Value>(),
            self.terms().square_magnitude().defined,
        ensures
            r == self.terms().square_magnitude().value,
    {
        self.dot(self)
    }

    /// The square distance between two vectors.
    pub fn square_distance(&self, other: &Self) -> (r: Value)
        requires
            obeys_arith::<Value>(),
            self.terms().square_distance(other.terms()).defined,
        ensures
            r == self.terms().square_distance(other.terms()).value,
    {
        (self - other).square_magnitude()
    }

    /// Multiplies each component by `scalar`, in place.
    pub fn scale(&mut self, scalar: Value) -> (r: &mut Self)
        requires
            obeys_arith::<Value>(),
            old(self).terms().times_each(Term::of(scalar)).defined(),
        ensures
            *r == old(self).terms().times_each(Term::of(scalar)).value(),
            r@ == old(self).terms().times_each(Term::of(scalar)).values(),
            *final(self) == *final(r),
    {
        *self = Vec4([self.0[0] * scalar, self.0[1] * scalar, self.0[2] * scalar, self.0[3] * scalar]);
        self
    }

    /// Multiplies each component by the component of `other` of the same name, in place.
    pub fn scale_by(&mut self, other: &Self) -> (r: &mut Self)
        requires
            obeys_arith::<Value>(),
            old(self).terms().times(other.terms()).defined(),
        ensures
            *r == old(self).terms().times(other.terms()).value(),
            r@ == old(self).terms().times(other.terms()).values(),
            *final(self) == *final(r),
    {
        *self = Vec4([self.0[0] * other.0[0], self.0[1] * other.0[1], self.0[2] * other.0[2], self.0[3] * other.0[3]]);
        self
    }
}

impl<Value: Numeric + Sqrt> Vec4<Value> {
    pub fn magnitude(&self) -> (r: Value)
        requires
            obeys_arith::<Value>(),
            self.terms().magnitude().defined,
        ensures
            r == self.terms().magnitude().value,
    {
        self.square_magnitude().sqrt()
    }

    /// The distance between two vectors.
    pub fn distance_to(&self, other: &Self) -> (r: Value)
        requires
            obeys_arith::<Value>(),
            self.terms().distance_to(other.terms()).defined,
        ensures
            r == self.terms().distance_to(other.terms()).value,
    {
        (other - self).magnitude()
    }

    /// Divides each component by the magnitude, in place. A vector whose magnitude is not
    /// greater than zero is left as it is.
    pub fn normalize(&mut self) -> (r: &mut Self)
        requires
            obeys_arith::<Value>(),
            obeys_order::<Value>(),
            old(self).terms().normalized().defined(),
        ensures
            *r == old(self).terms().normalized().value(),
            r@ == old(self).terms().normalized().values(),
            *final(self) == *final(r),
    {
        let len = self.magnitude();
        if len > Value::zero() {
            *self = Vec4([self.0[0] / len, self.0[1] / len, self.0[2] / len, self.0[3] / len]);
        }
        assert(self.0 =~= old(self).terms().normalized().value().0);
        self
    }
}

impl<Value: Float> Vec4<Value> {
    /// The angle between two vectors. Nothing is clamped: where a magnitude is zero, or
    /// rounding takes the cosine out of its range, the result is what `acos` makes of it.
    pub fn angle_between(&self, other: &Self) -> (r: Radians<Value>)
        requires
            obeys_arith::<Value>(),
            self.terms().angle_between(other.terms()).defined,
        ensures
            r.0 == self.terms().angle_between(other.terms()).value,
    {
        Radians::new((self.dot(other) / (self.magnitude() * other.magnitude())).acos())
    }
}

impl<T> FromSpecImpl<(T, T, T, T)> for Vec4<T> {
    open spec fn obeys_from_spec() -> bool {
        true
    }

    open spec fn from_spec(v: (T, T, T, T)) -> Self {
        Vec4([v.0, v.1, v.2, v.3])
    }
}

impl<T> From<(T, T, T, T)> for Vec4<T> {
    fn from(v: (T, T, T, T)) -> (r: Self) {
        Vec4([v.0, v.1, v.2, v.3])
    }
}

impl<T: Copy> FromSpecImpl<Vec4<T>> for (T, T, T, T) {
    open spec fn obeys_from_spec() -> bool {
        true
    }

    open spec fn from_spec(v: Vec4<T>) -> Self {
        (v.0[0], v.0[1], v.0[2], v.0[3])
    }
}

impl<T: Copy> From<Vec4<T>> for (T, T, T, T) {
    fn from(v: Vec4<T>) -> (r: Self) {
        (v.0[0], v.0[1], v.0[2], v.0[3])
    }
}

impl<T> FromSpecImpl<[T; 4]> for Vec4<T> {
    open spec fn obeys_from_spec() -> bool {
        true
    }

    open spec fn from_spec(data: [T; 4]) -> Self {
        Vec4(data)
    }
}

impl<T> From<[T; 4]> for Vec4<T> {
    fn from(data: [T; 4]) -> (r: Self) {
        Vec4(data)
    }
}

impl<T> FromSpecImpl<Vec4<T>> for [T; 4] {
    open spec fn obeys_from_spec() -> bool {
        true
    }

    open spec fn from_spec(v: Vec4<T>) -> Self {
        v.0
    }
}

impl<T> From<Vec4<T>> for [T; 4] {
    fn from(v: Vec4<T>) -> (r: Self) {
        v.0
    }
}

impl<'a, T: Copy> FromSpecImpl<&'a [T; 4]> for Vec4<T> {
    open spec fn obeys_from_spec() -> bool {
        true
    }

    open spec fn from_spec(data: &'a [T; 4]) -> Self {
        Vec4(*data)
    }
}

impl<'a, T: Copy> From<&'a [T; 4]> for Vec4<T> {
    fn from(data: &'a [T; 4]) -> (r: Self) {
        Vec4(*data)
    }
}

impl<'a, T: Copy> FromSpecImpl<&'a Vec4<T>> for [T; 4] {
    open spec fn obeys_from_spec() -> bool {
        true
    }

    open spec fn from_spec(v: &'a Vec4<T>) -> Self {
        v.0
    }
}

impl<'a, T: Copy> From<&'a Vec4<T>> for [T; 4] {
    fn from(v: &'a Vec4<T>) -> (r: Self) {
        v.0
    }
}

/// A vector taken apart into a tuple and put together again is the vector it was, and so for
/// an array.
pub proof fn lemma_vec4_round_trip<T: Copy>(v: Vec4<T>)
    ensures
        <Vec4<T> as vstd::std_specs::convert::FromSpec<(T, T, T, T)>>::from_spec(
            <(T, T, T, T) as vstd::std_specs::convert::FromSpec<Vec4<T>>>::from_spec(v),
        ) == v,
        <Vec4<T> as vstd::std_specs::convert::FromSpec<[T; 4]>>::from_spec(
            <[T; 4] as vstd::std_specs::convert::FromSpec<Vec4<T>>>::from_spec(v),
        ) == v,
{
    assert(Vec4([v.0[0], v.0[1], v.0[2], v.0[3]]).0 =~= v.0);
}

} // verus!
