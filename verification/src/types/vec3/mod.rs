//! Vectors of three components.
use crate::angle::Radians;
use crate::traits::float::Float;
use crate::traits::float::Sqrt;
use crate::traits::obeys_arith;
use crate::traits::obeys_neg;
use crate::traits::order::exceeds;
use crate::traits::order::obeys_order;
use crate::traits::Division;
use crate::traits::Identity;
use crate::traits::Negation;
use crate::traits::Numeric;
use crate::traits::Ring;
use crate::traits::Term;
use crate::traits::Zero;
use core::ops::Neg;
use vstd::prelude::*;
use vstd::std_specs::convert::FromSpecImpl;

pub mod ops;
pub mod scalar;
pub mod swizzle;

verus! {

/// A vector of three components, held in the order x, y, z.
#[derive(Copy, Clone, Debug, Default, PartialEq, PartialOrd)]
pub struct Vec3<Value>(pub [Value; 3]);

/// Three values by name: what a [`Vec3`] holds, or what a formula says of each
/// component.
pub struct Vec3Model<E> {
    pub x: E,
    pub y: E,
    pub z: E,
}

impl<Value> View for Vec3<Value> {
    type V = Vec3Model<Value>;

    open spec fn view(&self) -> Vec3Model<Value> {
        Vec3Model { x: self.0[0], y: self.0[1], z: self.0[2] }
    }
}

impl<Value> Vec3<Value> {
    /// The components as the terms of a formula.
    pub open spec fn terms(self) -> Vec3Model<Term<Value>> {
        self@.terms()
    }
}

impl<E> Vec3Model<E> {
    /// The vector of these components.
    pub open spec fn vector(self) -> Vec3<E> {
        Vec3([self.x, self.y, self.z])
    }

    /// Each component as a term of a formula.
    pub open spec fn terms(self) -> Vec3Model<Term<E>> {
        Vec3Model { x: Term::of(self.x), y: Term::of(self.y), z: Term::of(self.z) }
    }
}

impl<V> Vec3Model<Term<V>> {
    /// Every component is defined.
    pub open spec fn defined(self) -> bool {
        self.x.defined && self.y.defined && self.z.defined
    }

    /// The components' values.
    pub open spec fn values(self) -> Vec3Model<V> {
        Vec3Model { x: self.x.value, y: self.y.value, z: self.z.value }
    }

    /// The vector of the components' values.
    pub open spec fn value(self) -> Vec3<V> {
        Vec3([self.x.value, self.y.value, self.z.value])
    }

    /// `self`, where `other` is computed first.
    pub open spec fn after(self, other: Term<V>) -> Self {
        Vec3Model { x: self.x.after(other), y: self.y.after(other), z: self.z.after(other) }
    }
}

impl<E: Negation> Vec3Model<E> {
    /// `-self`, by component.
    pub open spec fn negated(self) -> Self {
        Vec3Model { x: self.x.negated(), y: self.y.negated(), z: self.z.negated() }
    }
}

impl<E: Division> Vec3Model<E> {
    /// `self / other`, by component.
    pub open spec fn over(self, other: Self) -> Self {
        Vec3Model { x: self.x.over(other.x), y: self.y.over(other.y), z: self.z.over(other.z) }
    }

    /// `self / s`, for each component.
    pub open spec fn over_each(self, s: E) -> Self {
        Vec3Model { x: self.x.over(s), y: self.y.over(s), z: self.z.over(s) }
    }

    /// `s / self`, for each component.
    pub open spec fn each_over(self, s: E) -> Self {
        Vec3Model { x: s.over(self.x), y: s.over(self.y), z: s.over(self.z) }
    }
}

impl<E: Ring> Vec3Model<E> {
    /// `self + other`, by component.
    pub open spec fn plus(self, other: Self) -> Self {
        Vec3Model { x: self.x.plus(other.x), y: self.y.plus(other.y), z: self.z.plus(other.z) }
    }

    /// `self + s`, for each component.
    pub open spec fn plus_each(self, s: E) -> Self {
        Vec3Model { x: self.x.plus(s), y: self.y.plus(s), z: self.z.plus(s) }
    }

    /// `s + self`, for each component.
    pub open spec fn each_plus(self, s: E) -> Self {
        Vec3Model { x: s.plus(self.x), y: s.plus(self.y), z: s.plus(self.z) }
    }

    /// `self - other`, by component.
    pub open spec fn minus(self, other: Self) -> Self {
        Vec3Model { x: self.x.minus(other.x), y: self.y.minus(other.y), z: self.z.minus(other.z) }
    }

    /// `self - s`, for each component.
    pub open spec fn minus_each(self, s: E) -> Self {
        Vec3Model { x: self.x.minus(s), y: self.y.minus(s), z: self.z.minus(s) }
    }

    /// `s - self`, for each component.
    pub open spec fn each_minus(self, s: E) -> Self {
        Vec3Model { x: s.minus(self.x), y: s.minus(self.y), z: s.minus(self.z) }
    }

    /// `self * other`, by component.
    pub open spec fn times(self, other: Self) -> Self {
        Vec3Model { x: self.x.times(other.x), y: self.y.times(other.y), z: self.z.times(other.z) }
    }

    /// `self * s`, for each component.
    pub open spec fn times_each(self, s: E) -> Self {
        Vec3Model { x: self.x.times(s), y: self.y.times(s), z: self.z.times(s) }
    }

    /// `s * self`, for each component.
    pub open spec fn each_times(self, s: E) -> Self {
        Vec3Model { x: s.times(self.x), y: s.times(self.y), z: s.times(self.z) }
    }

    /// The components added up, from the first to the last.
    pub open spec fn sum(self) -> E {
        self.x.plus(self.y).plus(self.z)
    }

    /// The products of the components of the same name, added up from the first to the last.
    pub open spec fn dot(self, other: Self) -> E {
        self.x.times(other.x).plus(self.y.times(other.y)).plus(self.z.times(other.z))
    }

    /// The dot product of `self` with itself.
    pub open spec fn square_magnitude(self) -> E {
        self.dot(self)
    }

    /// The square magnitude of `self - other`.
    pub open spec fn square_distance(self, other: Self) -> E {
        self.minus(other).square_magnitude()
    }

    /// The right-handed cross product `self × other`.
    pub open spec fn cross(self, other: Self) -> Self {
        Vec3Model {
            x: self.y.times(other.z).minus(self.z.times(other.y)),
            y: self.z.times(other.x).minus(self.x.times(other.z)),
            z: self.x.times(other.y).minus(self.y.times(other.x)),
        }
    }
}

impl<V: Numeric + Sqrt> Vec3Model<Term<V>> {
    /// The square root of the square magnitude.
    pub open spec fn magnitude(self) -> Term<V> {
        self.square_magnitude().root()
    }

    /// The magnitude of `other - self`.
    pub open spec fn distance_to(self, other: Self) -> Term<V> {
        other.minus(self).magnitude()
    }

    /// `self` divided by its magnitude where that is greater than zero, else `self`.
    pub open spec fn normalized(self) -> Self {
        let len = self.magnitude();
        if exceeds(len.value, V::zero_spec()) {
            self.over_each(len)
        } else {
            self.after(len)
        }
    }
}

impl<E: Ring> Vec3Model<E> {
    /// `self` turned about the x axis, right-handed, by the angle of which `s` and `c` are the
    /// sine and the cosine: `(x, c·y - s·z, s·y + c·z)`.
    pub open spec fn turned_x(self, s: E, c: E) -> Self {
        Vec3Model {
            x: self.x,
            y: c.times(self.y).minus(s.times(self.z)),
            z: s.times(self.y).plus(c.times(self.z)),
        }
    }

    /// `self` turned about the z axis, right-handed, by the angle of which `s` and `c` are the
    /// sine and the cosine: `(c·x - s·y, s·x + c·y, z)`.
    pub open spec fn turned_z(self, s: E, c: E) -> Self {
        Vec3Model {
            x: c.times(self.x).minus(s.times(self.y)),
            y: s.times(self.x).plus(c.times(self.y)),
            z: self.z,
        }
    }
}

impl<E: Ring + Negation> Vec3Model<E> {
    /// `self` turned about the y axis, right-handed, by the angle of which `s` and `c` are the
    /// sine and the cosine: `(c·x + s·z, y, -s·x + c·z)`.
    pub open spec fn turned_y(self, s: E, c: E) -> Self {
        Vec3Model {
            x: c.times(self.x).plus(s.times(self.z)),
            y: self.y,
            z: s.negated().times(self.x).plus(c.times(self.z)),
        }
    }
}

impl<V: Float> Vec3Model<Term<V>> {
    /// `self` turned by `angle` about the x axis, right-handed.
    pub open spec fn rotated_x(self, angle: Term<V>) -> Self {
        self.turned_x(angle.sin(), angle.cos())
    }

    /// `self` turned by `angle` about the y axis, right-handed.
    pub open spec fn rotated_y(self, angle: Term<V>) -> Self {
        self.turned_y(angle.sin(), angle.cos())
    }

    /// `self` turned by `angle` about the z axis, right-handed.
    pub open spec fn rotated_z(self, angle: Term<V>) -> Self {
        self.turned_z(angle.sin(), angle.cos())
    }

    /// The angle whose cosine is the dot product over the product of the magnitudes.
    pub open spec fn angle_between(self, other: Self) -> Term<V> {
        self.dot(other).over(self.magnitude().times(other.magnitude())).acos()
    }
}

impl<Value> Vec3<Value> {
    /// What [`new`](Self::new) returns, for use in specifications.
    pub open spec fn spec_new(x: Value, y: Value, z: Value) -> Self {
        Vec3([x, y, z])
    }

    #[verifier::when_used_as_spec(spec_new)]
    pub fn new(x: Value, y: Value, z: Value) -> (r: Self)
        ensures
            r == Self::spec_new(x, y, z),
            r == Vec3([x, y, z]),
            r@ == (Vec3Model { x: x, y: y, z: z }),
    {
        Vec3([x, y, z])
    }

    /// The components in order.
    pub fn iter(&self) -> (r: core::slice::Iter<'_, Value>)
        ensures
            vstd::std_specs::slice::into_iter_elts(r) == self.0@,
    {
        self.0.iter()
    }
}

impl<Value: Copy> Vec3<Value> {
    pub fn x(&self) -> (r: Value)
        ensures
            r == self.0[0],
            r == self@.x,
    {
        self.0[0]
    }

    pub fn y(&self) -> (r: Value)
        ensures
            r == self.0[1],
            r == self@.y,
    {
        self.0[1]
    }

    pub fn z(&self) -> (r: Value)
        ensures
            r == self.0[2],
            r == self@.z,
    {
        self.0[2]
    }

    pub fn set_x(&mut self, n: Value)
        ensures
            *final(self) == Vec3([n, old(self).0[1], old(self).0[2]]),
            final(self)@ == (Vec3Model { x: n, y: old(self)@.y, z: old(self)@.z }),
    {
        *self = Vec3([n, self.0[1], self.0[2]]);
    }

    pub fn set_y(&mut self, n: Value)
        ensures
            *final(self) == Vec3([old(self).0[0], n, old(self).0[2]]),
            final(self)@ == (Vec3Model { x: old(self)@.x, y: n, z: old(self)@.z }),
    {
        *self = Vec3([self.0[0], n, self.0[2]]);
    }

    pub fn set_z(&mut self, n: Value)
        ensures
            *final(self) == Vec3([old(self).0[0], old(self).0[1], n]),
            final(self)@ == (Vec3Model { x: old(self)@.x, y: old(self)@.y, z: n }),
    {
        *self = Vec3([self.0[0], self.0[1], n]);
    }

    pub fn as_array(&self) -> (r: [Value; 3])
        ensures
            r == self.0,
    {
        self.0
    }
}

impl<Value> vstd::std_specs::core::IndexSpecImpl<usize> for Vec3<Value> {
    open spec fn index_req(&self, i: &usize) -> bool {
        *i < 3
    }
}

impl<Value> core::ops::Index<usize> for Vec3<Value> {
    type Output = Value;

    fn index(&self, i: usize) -> (r: &Value)
        ensures
            *r == self.0[i as int],
    {
        &self.0[i]
    }
}

impl<Value> core::ops::IndexMut<usize> for Vec3<Value> {
    fn index_mut(&mut self, i: usize) -> (r: &mut Value)
        requires
            i < 3,
        ensures
            *r == old(self).0[i as int],
            final(self).0@ == old(self).0@.update(i as int, *final(r)),
    {
        &mut self.0[i]
    }
}

impl<Value: Identity> Identity for Vec3<Value> {
    open spec fn identity_spec() -> Self {
        Vec3([Value::identity_spec(), Value::identity_spec(), Value::identity_spec()])
    }

    fn identity() -> (r: Self) {
        Vec3([Value::identity(), Value::identity(), Value::identity()])
    }
}

impl<Value: Zero> Zero for Vec3<Value> {
    open spec fn zero_spec() -> Self {
        Vec3([Value::zero_spec(), Value::zero_spec(), Value::zero_spec()])
    }

    fn zero() -> (r: Self) {
        Vec3([Value::zero(), Value::zero(), Value::zero()])
    }
}

impl<Value: Identity + Zero> Vec3<Value> {
    /// The unit vector along x.
    pub fn unit_x() -> (r: Self)
        ensures
            r == Vec3([Value::identity_spec(), Value::zero_spec(), Value::zero_spec()]),
    {
        Vec3([Value::identity(), Value::zero(), Value::zero()])
    }

    /// The unit vector along y.
    pub fn unit_y() -> (r: Self)
        ensures
            r == Vec3([Value::zero_spec(), Value::identity_spec(), Value::zero_spec()]),
    {
        Vec3([Value::zero(), Value::identity(), Value::zero()])
    }

    /// The unit vector along z.
    pub fn unit_z() -> (r: Self)
        ensures
            r == Vec3([Value::zero_spec(), Value::zero_spec(), Value::identity_spec()]),
    {
        Vec3([Value::zero(), Value::zero(), Value::identity()])
    }
}

impl<Value: Numeric> Vec3<Value> {
    /// The sum of the components.
    pub fn sum(&self) -> (r: Value)
        requires
            obeys_arith::<Value>(),
            self.terms().sum().defined,
        ensures
            r == self.terms().sum().value,
    {
        self.0[0] + self.0[1] + self.0[2]
    }

    /// The dot product of two vectors.
    pub fn dot(&self, other: &Self) -> (r: Value)
        requires
            obeys_arith::<Value>(),
            self.terms().dot(other.terms()).defined,
        ensures
            r == self.terms().dot(other.terms()).value,
    {
        self.0[0] * other.0[0] + self.0[1] * other.0[1] + self.0[2] * other.0[2]
    }

    /// The cross product of two vectors.
    pub fn cross(&self, other: &Self) -> (r: Self)
        requires
            obeys_arith::<Value>(),
            self.terms().cross(other.terms()).defined(),
        ensures
            r == self.terms().cross(other.terms()).value(),
            r@ == self.terms().cross(other.terms()).values(),
    {
        let x1 = self.0[0];
        let y1 = self.0[1];
        let z1 = self.0[2];
        let x2 = other.0[0];
        let y2 = other.0[1];
        let z2 = other.0[2];
        Vec3([y1 * z2 - z1 * y2, z1 * x2 - x1 * z2, x1 * y2 - y1 * x2])
    }

    pub fn square_magnitude(&self) -> (r: Value)
        requires
            obeys_arith::<Value>(),
            self.terms().square_magnitude().defined,
        ensures
            r == self.terms().square_magnitude().value,
    {
        self.dot(self)
    }

    /// The square distance between two vectors.
    pub fn square_distance(&self, other: &Self) -> (r: Value)
        requires
            obeys_arith::<Value>(),
            self.terms().square_distance(other.terms()).defined,
        ensures
            r == self.terms().square_distance(other.terms()).value,
    {
        (self - other).square_magnitude()
    }

    /// Multiplies each component by `scalar`, in place.
    pub fn scale(&mut self, scalar: Value) -> (r: &mut Self)
        requires
            obeys_arith::<Value>(),
            old(self).terms().times_each(Term::of(scalar)).defined(),
        ensures
            *r == old(self).terms().times_each(Term::of(scalar)).value(),
            r@ == old(self).terms().times_each(Term::of(scalar)).values(),
            *final(self) == *final(r),
    {
        *self = Vec3([self.0[0] * scalar, self.0[1] * scalar, self.0[2] * scalar]);
        self
    }

    /// Multiplies each component by the component of `other` of the same name, in place.
    pub fn scale_by(&mut self, other: &Self) -> (r: &mut Self)
        requires
            obeys_arith::<Value>(),
            old(self).terms().times(other.terms()).defined(),
        ensures
            *r == old(self).terms().times(other.terms()).value(),
            r@ == old(self).terms().times(other.terms()).values(),
            *final(self) == *final(r),
    {
        *self = Vec3([self.0[0] * other.0[0], self.0[1] * other.0[1], self.0[2] * other.0[2]]);
        self
    }
}

impl<Value: Numeric + Sqrt> Vec3<Value> {
    pub fn magnitude(&self) -> (r: Value)
        requires
            obeys_arith::<Value>(),
            self.terms().magnitude().defined,
        ensures
            r == self.terms().magnitude().value,
    {
        self.square_magnitude().sqrt()
    }

    /// The distance between two vectors.
    pub fn distance_to(&self, other: &Self) -> (r: Value)
        requires
            obeys_arith::<Value>(),
            self.terms().distance_to(other.terms()).defined,
        ensures
            r == self.terms().distance_to(other.terms()).value,
    {
        (other - self).magnitude()
    }

    /// Divides each component by the magnitude, in place. A vector whose magnitude is not
    /// greater than zero is left as it is.
    pub fn normalize(&mut self) -> (r: &mut Self)
        requires
            obeys_arith::<Value>(),
            obeys_order::<Value>(),
            old(self).terms().normalized().defined(),
        ensures
            *r == old(self).terms().normalized().value(),
            r@ == old(self).terms().normalized().values(),
            *final(self) == *final(r),
    {
        let len = self.magnitude();
        if len > Value::zero() {
            *self = Vec3([self.0[0] / len, self.0[1] / len, self.0[2] / len]);
        }
        assert(self.0 =~= old(self).terms().normalized().value().0);
        self
    }
}

impl<Value: Float> Vec3<Value> {
    /// Turns the vector by `angle` about the x axis, in place.
    pub fn rotate_x(&mut self, angle: Radians<Value>) -> (r: &mut Self)
        requires
            obeys_arith::<Value>(),
            old(self).terms().rotated_x(angle.term()).defined(),
        ensures
            *r == old(self).terms().rotated_x(angle.term()).value(),
            r@ == old(self).terms().rotated_x(angle.term()).values(),
            *final(self) == *final(r),
    {
        let (s, c) = angle.sin_cos();
        let y = self.0[1];
        let z = self.0[2];
        *self = Vec3([self.0[0], c * y - s * z, s * y + c * z]);
        self
    }

    /// Turns the vector by `angle` about the y axis, in place.
    pub fn rotate_y(&mut self, angle: Radians<Value>) -> (r: &mut Self)
        requires
            obeys_arith::<Value>(),
            obeys_neg::<Value>(),
            old(self).terms().rotated_y(angle.term()).defined(),
        ensures
            *r == old(self).terms().rotated_y(angle.term()).value(),
            r@ == old(self).terms().rotated_y(angle.term()).values(),
            *final(self) == *final(r),
    {
        let (s, c) = angle.sin_cos();
        let x = self.0[0];
        let z = self.0[2];
        *self = Vec3([c * x + s * z, self.0[1], s.neg() * x + c * z]);
        self
    }

    /// Turns the vector by `angle` about the z axis, in place.
    pub fn rotate_z(&mut self, angle: Radians<Value>) -> (r: &mut Self)
        requires
            obeys_arith::<Value>(),
            old(self).terms().rotated_z(angle.term()).defined(),
        ensures
            *r == old(self).terms().rotated_z(angle.term()).value(),
            r@ == old(self).terms().rotated_z(angle.term()).values(),
            *final(self) == *final(r),
    {
        let (s, c) = angle.sin_cos();
        let x = self.0[0];
        let y = self.0[1];
        *self = Vec3([c * x - s * y, s * x + c * y, self.0[2]]);
        self
    }

    /// The angle between two vectors. Nothing is clamped: where a magnitude is zero, or
    /// rounding takes the cosine out of its range, the result is what `acos` makes of it.
    pub fn angle_between(&self, other: &Self) -> (r: Radians<Value>)
        requires
            obeys_arith::<Value>(),
            self.terms().angle_between(other.terms()).defined,
        ensures
            r.0 == self.terms().angle_between(other.terms()).value,
    {
        Radians::new((self.dot(other) / (self.magnitude() * other.magnitude())).acos())
    }
}

impl<T> FromSpecImpl<(T, T, T)> for Vec3<T> {
    open spec fn obeys_from_spec() -> bool {
        true
    }

    open spec fn from_spec(v: (T, T, T)) -> Self {
        Vec3([v.0, v.1, v.2])
    }
}

impl<T> From<(T, T, T)> for Vec3<T> {
    fn from(v: (T, T, T)) -> (r: Self) {
        Vec3([v.0, v.1, v.2])
    }
}

impl<T: Copy> FromSpecImpl<Vec3<T>> for (T, T, T) {
    open spec fn obeys_from_spec() -> bool {
        true
    }

    open spec fn from_spec(v: Vec3<T>) -> Self {
        (v.0[0], v.0[1], v.0[2])
    }
}

impl<T: Copy> From<Vec3<T>> for (T, T, T) {
    fn from(v: Vec3<T>) -> (r: Self) {
        (v.0[0], v.0[1], v.0[2])
    }
}

impl<T> FromSpecImpl<[T; 3]> for Vec3<T> {
    open spec fn obeys_from_spec() -> bool {
        true
    }

    open spec fn from_spec(data: [T; 3]) -> Self {
        Vec3(data)
    }
}

impl<T> From<[T; 3]> for Vec3<T> {
    fn from(data: [T; 3]) -> (r: Self) {
        Vec3(data)
    }
}

impl<T> FromSpecImpl<Vec3<T>> for [T; 3] {
    open spec fn obeys_from_spec() -> bool {
        true
    }

    open spec fn from_spec(v: Vec3<T>) -> Self {
        v.0
    }
}

impl<T> From<Vec3<T>> for [T; 3] {
    fn from(v: Vec3<T>) -> (r: Self) {
        v.0
    }
}

impl<'a, T: Copy> FromSpecImpl<&'a [T; 3]> for Vec3<T> {
    open spec fn obeys_from_spec() -> bool {
        true
    }

    open spec fn from_spec(data: &'a [T; 3]) -> Self {
        Vec3(*data)
    }
}

impl<'a, T: Copy> From<&'a [T; 3]> for Vec3<T> {
    fn from(data: &'a [T; 3]) -> (r: Self) {
        Vec3(*data)
    }
}

impl<'a, T: Copy> FromSpecImpl<&'a Vec3<T>> for [T; 3] {
    open spec fn obeys_from_spec() -> bool {
        true
    }

    open spec fn from_spec(v: &'a Vec3<T>) -> Self {
        v.0
    }
}

impl<'a, T: Copy> From<&'a Vec3<T>> for [T; 3] {
    fn from(v: &'a Vec3<T>) -> (r: Self) {
        v.0
    }
}

/// A vector taken apart into a tuple and put together again is the vector it was, and so for
/// an array.
pub proof fn lemma_vec3_round_trip<T: Copy>(v: Vec3<T>)
    ensures
        <Vec3<T> as vstd::std_specs::convert::FromSpec<(T, T, T)>>::from_spec(
            <(T, T, T) as vstd::std_specs::convert::FromSpec<Vec3<T>>>::from_spec(v),
        ) == v,
        <Vec3<T> as vstd::std_specs::convert::FromSpec<[T; 3]>>::from_spec(
            <[T; 3] as vstd::std_specs::convert::FromSpec<Vec3<T>>>::from_spec(v),
        ) == v,
{
    assert(Vec3([v.0[0], v.0[1], v.0[2]]).0 =~= v.0);
}

} // verus!
