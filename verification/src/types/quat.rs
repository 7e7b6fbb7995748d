//! Quaternions.
use crate::angle::Radians;
use crate::traits::float::Float;
use crate::traits::float::Sqrt;
use crate::traits::obeys_arith;
use crate::traits::obeys_neg;
use crate::traits::order::exceeds;
use crate::traits::order::obeys_order;
use crate::traits::order::reaches;
use crate::traits::Division;
use crate::traits::Identity;
use crate::traits::Negation;
use crate::traits::Numeric;
use crate::traits::Ring;
use crate::traits::Term;
use crate::traits::Zero;
use crate::types::vec3::Vec3Model;
use crate::types::vec4::Vec4Model;
use crate::types::Vec3;
use crate::types::Vec4;
use core::ops::Add;
use core::ops::AddAssign;
use core::ops::Div;
use core::ops::DivAssign;
use core::ops::Mul;
use core::ops::MulAssign;
use core::ops::Neg;
use core::ops::Sub;
use core::ops::SubAssign;
use vstd::prelude::*;
use vstd::std_specs::ops::AddSpecImpl;
use vstd::std_specs::ops::DivSpecImpl;
use vstd::std_specs::ops::MulSpecImpl;
use vstd::std_specs::ops::NegSpecImpl;
use vstd::std_specs::ops::SubSpecImpl;

verus! {

/// The quaternion `s + v.x·i + v.y·j + v.z·k`. One of unit size stands for a rotation.
#[derive(Copy, Clone, Debug, PartialEq, PartialOrd)]
pub struct Quat<Value> {
    pub v: Vec3<Value>,
    pub s: Value,
}

/// A scalar part and a vector part: what a [`Quat`] holds, or what a formula says of each.
pub struct QuatModel<E> {
    pub s: E,
    pub v: Vec3Model<E>,
}

impl<Value> View for Quat<Value> {
    type V = QuatModel<Value>;

    open spec fn view(&self) -> QuatModel<Value> {
        QuatModel { s: self.s, v: self.v@ }
    }
}

impl<Value> Quat<Value> {
    /// The parts as the terms of a formula.
    pub open spec fn terms(self) -> QuatModel<Term<Value>> {
        self@.terms()
    }
}

impl<E> QuatModel<E> {
    /// The quaternion of these parts.
    pub open spec fn quat(self) -> Quat<E> {
        Quat { v: self.v.vector(), s: self.s }
    }

    /// Each part as a term of a formula.
    pub open spec fn terms(self) -> QuatModel<Term<E>> {
        QuatModel { s: Term::of(self.s), v: self.v.terms() }
    }
}

impl<V> QuatModel<Term<V>> {
    /// Every part is defined.
    pub open spec fn defined(self) -> bool {
        self.s.defined && self.v.defined()
    }

    /// The parts' values.
    pub open spec fn values(self) -> QuatModel<V> {
        QuatModel { s: self.s.value, v: self.v.values() }
    }

    /// The quaternion of the parts' values.
    pub open spec fn value(self) -> Quat<V> {
        Quat { v: self.v.value(), s: self.s.value }
    }
}

impl<E: Negation> QuatModel<E> {
    /// `-self`: both parts negated.
    pub open spec fn negated(self) -> Self {
        QuatModel { s: self.s.negated(), v: self.v.negated() }
    }

    /// The conjugate: the vector part negated.
    pub open spec fn conjugate(self) -> Self {
        QuatModel { s: self.s, v: self.v.negated() }
    }
}

impl<E: Division> QuatModel<E> {
    /// Both parts divided by `k`.
    pub open spec fn over_each(self, k: E) -> Self {
        QuatModel { s: self.s.over(k), v: self.v.over_each(k) }
    }
}

impl<E: Ring> QuatModel<E> {
    /// The quaternion whose vector part is `v` and whose scalar part is zero.
    pub open spec fn pure(v: Vec3Model<E>) -> Self {
        QuatModel { s: E::zero(), v }
    }

    /// `self + other`, part by part.
    pub open spec fn plus(self, other: Self) -> Self {
        QuatModel { s: self.s.plus(other.s), v: self.v.plus(other.v) }
    }

    /// `self - other`, part by part.
    pub open spec fn minus(self, other: Self) -> Self {
        QuatModel { s: self.s.minus(other.s), v: self.v.minus(other.v) }
    }

    /// The Hamilton product `self · other`: the scalar part is `s1·s2 - v1·v2`, the vector
    /// part `v2·s1 + v1·s2 + v1 × v2`.
    pub open spec fn times(self, other: Self) -> Self {
        QuatModel {
            s: self.s.times(other.s).minus(self.v.dot(other.v)),
            v: other.v.times_each(self.s).plus(self.v.times_each(other.s)).plus(
                self.v.cross(other.v),
            ),
        }
    }

    /// Both parts multiplied by `k`.
    pub open spec fn times_each(self, k: E) -> Self {
        QuatModel { s: self.s.times(k), v: self.v.times_each(k) }
    }

    /// `self · self`, by its own formula: the scalar part is `s² - x² - y² - z²`, the vector
    /// part `v·(s + s)`.
    pub open spec fn square(self) -> Self {
        QuatModel {
            s: self.s.times(self.s).minus(self.v.x.times(self.v.x)).minus(
                self.v.y.times(self.v.y),
            ).minus(self.v.z.times(self.v.z)),
            v: self.v.times_each(self.s.plus(self.s)),
        }
    }

    /// `s² + |v|²`.
    pub open spec fn square_magnitude(self) -> E {
        self.s.times(self.s).plus(self.v.square_magnitude())
    }

    /// `self + (other - self)·t`.
    pub open spec fn lerp(self, other: Self, t: E) -> Self {
        self.plus(other.minus(self).times_each(t))
    }

    /// The rotation about the axis `unit`, of unit length, by the angle of which `sin_half`
    /// and `cos_half` are the sine and the cosine of the half: `(cos_half, unit·sin_half)`.
    pub open spec fn rotation(unit: Vec3Model<E>, sin_half: E, cos_half: E) -> Self {
        QuatModel { s: cos_half, v: unit.times_each(sin_half) }
    }

    /// `v` turned by `self`, for `self` of unit size:
    /// `v·(s² - u·u) + (u × v)·2·s + u·(u·v)·2`, where `u` is the vector part.
    pub open spec fn apply_rotation(self, v: Vec3Model<E>) -> Vec3Model<E> {
        let two = E::one().plus(E::one());
        let s = self.s;
        let u = self.v;
        v.times_each(s.times(s).minus(u.dot(u))).plus(
            u.cross(v).times_each(two).times_each(s),
        ).plus(u.times_each(u.dot(v)).times_each(two))
    }
}

impl<E: Ring + Negation + Division> QuatModel<E> {
    /// The conjugate divided by the square magnitude.
    pub open spec fn inverse(self) -> Self {
        self.conjugate().over_each(self.square_magnitude())
    }
}

impl<V: Numeric + Sqrt> QuatModel<Term<V>> {
    /// The square root of the square magnitude.
    pub open spec fn magnitude(self) -> Term<V> {
        self.square_magnitude().root()
    }

    /// `self`, where `other` is computed first.
    pub open spec fn after(self, other: Term<V>) -> Self {
        QuatModel { s: self.s.after(other), v: self.v.after(other) }
    }

    /// `self` divided by its magnitude where that is greater than zero, else `self`.
    pub open spec fn normalized(self) -> Self {
        let len = self.magnitude();
        if exceeds(len.value, V::zero_spec()) {
            self.over_each(len)
        } else {
            self.after(len)
        }
    }
}

impl<V: Float> QuatModel<Term<V>> {
    /// The rotation by `angle` about `axis`: `(cos(angle/2), sin(angle/2)·axis/|axis|)`.
    pub open spec fn from_axis_angle(axis: Vec3Model<Term<V>>, angle: Term<V>) -> Self {
        let one = Term::<V>::one();
        let half = angle.over(one.plus(one));
        Self::rotation(axis.normalized(), half.sin(), half.cos())
    }

    /// The normalized [`lerp`](Self::lerp).
    pub open spec fn nlerp(self, other: Self, t: Term<V>) -> Self {
        self.lerp(other, t).normalized()
    }

    /// The dot product of the two quaternions as vectors of four.
    pub open spec fn slerp_dot(self, other: Self) -> Term<V> {
        self.v.dot(other.v).plus(self.s.times(other.s))
    }

    /// The spherical interpolation from `self` to `other` at `t`, along the shorter arc.
    ///
    /// With `d` the dot product of the two: where `|d| >= 1` it is `self`. Else, with
    /// `h = acos(|d|)` and `n = sqrt(1 - |d|²)`, it is
    /// `self·(sign(d)·sin((1 - t)·h)/n) + other·(sin(t·h)/n)`.
    pub open spec fn slerp(self, other: Self, t: Term<V>) -> Self {
        let one = Term::<V>::one();
        let dot = self.slerp_dot(other);
        let dot_abs = dot.abs();
        let dot_sign = dot.signum();
        if reaches(dot_abs.value, V::identity_spec()) {
            self.after(dot_abs)
        } else {
            let half_angle = dot_abs.acos();
            let sin_half_angle = one.minus(dot_abs.times(dot_abs)).root();
            let a = dot_sign.times(one.minus(t).times(half_angle).sin()).over(sin_half_angle);
            let b = t.times(half_angle).sin().over(sin_half_angle);
            self.times_each(a).plus(other.times_each(b))
        }
    }
}

impl<Value> Quat<Value> {
    /// What [`new`](Self::new) returns, for use in specifications.
    pub open spec fn spec_new(s: Value, v: Vec3<Value>) -> Self {
        Quat { v, s }
    }

    #[verifier::when_used_as_spec(spec_new)]
    pub fn new(s: Value, v: Vec3<Value>) -> (r: Self)
        ensures
            r == Self::spec_new(s, v),
            r == (Quat { v, s }),
            r@ == (QuatModel { s, v: v@ }),
    {
        Quat { v, s }
    }
}

impl<Value: Copy> Quat<Value> {
    /// The quaternion whose vector part is `(x, y, z)` of `v` and whose scalar part is its `w`.
    pub fn from_vec4(v: Vec4<Value>) -> (r: Self)
        ensures
            r == (Quat { v: Vec3([v.0[0], v.0[1], v.0[2]]), s: v.0[3] }),
            r@ == (QuatModel { s: v@.w, v: Vec3Model { x: v@.x, y: v@.y, z: v@.z } }),
    {
        Quat { s: v.w(), v: Vec3::new(v.x(), v.y(), v.z()) }
    }

    /// The vector part as `(x, y, z)`, the scalar part as `w`.
    pub fn into_vec4(self) -> (r: Vec4<Value>)
        ensures
            r == Vec4([self.v.0[0], self.v.0[1], self.v.0[2], self.s]),
            r@ == (Vec4Model { x: self@.v.x, y: self@.v.y, z: self@.v.z, w: self@.s }),
    {
        Vec4::new(self.v.x(), self.v.y(), self.v.z(), self.s)
    }

    pub fn s(&self) -> (r: Value)
        ensures
            r == self.s,
            r == self@.s,
    {
        self.s
    }

    pub fn v(&self) -> (r: Vec3<Value>)
        ensures
            r == self.v,
            r@ == self@.v,
    {
        self.v
    }

    pub fn x(&self) -> (r: Value)
        ensures
            r == self.v.0[0],
            r == self@.v.x,
    {
        self.v.x()
    }

    pub fn y(&self) -> (r: Value)
        ensures
            r == self.v.0[1],
            r == self@.v.y,
    {
        self.v.y()
    }

    pub fn z(&self) -> (r: Value)
        ensures
            r == self.v.0[2],
            r == self@.v.z,
    {
        self.v.z()
    }

    pub fn set(&mut self, s: Value, v: Vec3<Value>)
        ensures
            *final(self) == (Quat { v, s }),
            final(self)@ == (QuatModel { s, v: v@ }),
    {
        *self = Quat { v, s };
    }
}

/// The identity is `1 + 0·i + 0·j + 0·k`.
impl<Value: Identity + Zero> Identity for Quat<Value> {
    open spec fn identity_spec() -> Self {
        Quat { s: Value::identity_spec(), v: Vec3::<Value>::zero_spec() }
    }

    fn identity() -> (r: Self) {
        Quat { s: Value::identity(), v: Vec3::zero() }
    }
}

impl<Value: Identity + Zero> Default for Quat<Value> {
    fn default() -> (r: Self)
        ensures
            r == Self::identity_spec(),
    {
        Self::identity()
    }
}

impl<Value: Numeric> Quat<Value> {
    /// The product of the quaternion with itself.
    pub fn square(self) -> (r: Quat<Value>)
        requires
            obeys_arith::<Value>(),
            self.terms().square().defined(),
        ensures
            r == self.terms().square().value(),
            r@ == self.terms().square().values(),
    {
        let s = self.s;
        let x = self.v.0[0];
        let y = self.v.0[1];
        let z = self.v.0[2];
        Quat { s: s * s - x * x - y * y - z * z, v: self.v * (s + s) }
    }

    pub fn square_magnitude(&self) -> (r: Value)
        requires
            obeys_arith::<Value>(),
            self.terms().square_magnitude().defined,
        ensures
            r == self.terms().square_magnitude().value,
    {
        self.s * self.s + self.v.square_magnitude()
    }
}

impl<Value: Numeric + Neg<Output = Value>> Quat<Value> {
    pub fn conjugate(self) -> (r: Quat<Value>)
        requires
            obeys_neg::<Value>(),
            self.terms().conjugate().defined(),
        ensures
            r == self.terms().conjugate().value(),
            r@ == self.terms().conjugate().values(),
    {
        Quat { s: self.s, v: self.v.neg() }
    }

    /// The inverse. That of the zero quaternion is whatever its divisions by zero give.
    pub fn inverse(&self) -> (r: Quat<Value>)
        requires
            obeys_arith::<Value>(),
            obeys_neg::<Value>(),
            self.terms().inverse().defined(),
        ensures
            r == self.terms().inverse().value(),
            r@ == self.terms().inverse().values(),
    {
        self.conjugate() / self.square_magnitude()
    }
}

impl<Value: Numeric + Sqrt> Quat<Value> {
    pub fn magnitude(&self) -> (r: Value)
        requires
            obeys_arith::<Value>(),
            self.terms().magnitude().defined,
        ensures
            r == self.terms().magnitude().value,
    {
        self.square_magnitude().sqrt()
    }

    /// Divides the quaternion by its magnitude, in place. A quaternion whose magnitude is not
    /// greater than zero is left as it is.
    pub fn normalize(&mut self)
        requires
            obeys_arith::<Value>(),
            obeys_order::<Value>(),
            old(self).terms().normalized().defined(),
        ensures
            *final(self) == old(self).terms().normalized().value(),
            final(self)@ == old(self).terms().normalized().values(),
    {
        let len = self.magnitude();
        if len > Value::zero() {
            *self = *self / len;
        }
        assert(self.v.0 =~= old(self).terms().normalized().value().v.0);
    }

    /// The quaternion divided by its magnitude, or the quaternion itself where its magnitude
    /// is not greater than zero.
    pub fn normalized(self) -> (r: Quat<Value>)
        requires
            obeys_arith::<Value>(),
            obeys_order::<Value>(),
            self.terms().normalized().defined(),
        ensures
            r == self.terms().normalized().value(),
            r@ == self.terms().normalized().values(),
    {
        let mut q = self;
        q.normalize();
        q
    }
}

impl<Value: Float> Quat<Value> {
    /// The rotation by `angle` about `axis`, which need not be of unit length.
    pub fn from_axis_angle(axis: Vec3<Value>, angle: Radians<Value>) -> (r: Quat<Value>)
        requires
            obeys_arith::<Value>(),
            obeys_order::<Value>(),
            QuatModel::from_axis_angle(axis.terms(), angle.term()).defined(),
        ensures
            r == QuatModel::from_axis_angle(axis.terms(), angle.term()).value(),
            r@ == QuatModel::from_axis_angle(axis.terms(), angle.term()).values(),
    {
        let one = Value::identity();
        let half_angle = angle / (one + one);
        let mut axis = axis;
        axis.normalize();
        Quat::new(half_angle.cos(), axis * half_angle.sin())
    }

    /// Turns `v` by the quaternion, which is taken to be of unit size.
    pub fn apply_rotation(&self, v: &Vec3<Value>) -> (r: Vec3<Value>)
        requires
            obeys_arith::<Value>(),
            self.terms().apply_rotation(v.terms()).defined(),
        ensures
            r == self.terms().apply_rotation(v.terms()).value(),
            r@ == self.terms().apply_rotation(v.terms()).values(),
    {
        let two = Value::identity() + Value::identity();
        let s = self.s;
        let u = self.v;
        *v * (s * s - u.dot(&u)) + u.cross(v) * two * s + (u * u.dot(v) * two)
    }

    /// The linear interpolation from `self` to `other` at `progress`.
    pub fn lerp(&self, other: &Quat<Value>, progress: Value) -> (r: Quat<Value>)
        requires
            obeys_arith::<Value>(),
            self.terms().lerp(other.terms(), Term::of(progress)).defined(),
        ensures
            r == self.terms().lerp(other.terms(), Term::of(progress)).value(),
            r@ == self.terms().lerp(other.terms(), Term::of(progress)).values(),
    {
        self + (other - self) * progress
    }

    /// The normalized linear interpolation from `self` to `other` at `progress`.
    pub fn nlerp(&self, other: &Quat<Value>, progress: Value) -> (r: Quat<Value>)
        requires
            obeys_arith::<Value>(),
            obeys_order::<Value>(),
            self.terms().nlerp(other.terms(), Term::of(progress)).defined(),
        ensures
            r == self.terms().nlerp(other.terms(), Term::of(progress)).value(),
            r@ == self.terms().nlerp(other.terms(), Term::of(progress)).values(),
    {
        self.lerp(other, progress).normalized()
    }

    /// The spherical interpolation from `self` to `other` at `progress`, both taken to be of
    /// unit size.
    pub fn slerp(&self, other: &Quat<Value>, progress: Value) -> (r: Quat<Value>)
        requires
            obeys_arith::<Value>(),
            obeys_order::<Value>(),
            self.terms().slerp(other.terms(), Term::of(progress)).defined(),
        ensures
            r == self.terms().slerp(other.terms(), Term::of(progress)).value(),
            r@ == self.terms().slerp(other.terms(), Term::of(progress)).values(),
            reaches(self.terms().slerp_dot(other.terms()).abs().value, Value::identity_spec())
                ==> r == *self,
    {
        let one = Value::identity();
        let dot = self.v.dot(&other.v) + self.s * other.s;
        let dot_abs = dot.abs();
        let dot_sign = dot.signum();
        if dot_abs >= one {
            assert(self.terms().slerp(other.terms(), Term::of(progress)).value().v.0 =~= self.v.0);
            return *self;
        }
        let half_angle = dot_abs.acos();
        let sin_half_angle = (one - dot_abs * dot_abs).sqrt();
        let a = dot_sign * ((one - progress) * half_angle).sin() / sin_half_angle;
        let b = (progress * half_angle).sin() / sin_half_angle;
        self * a + other * b
    }
}

impl<Value: Numeric + Neg<Output = Value>> Neg for Quat<Value> {
    type Output = Quat<Value>;

    fn neg(self) -> (r: Quat<Value>)
        ensures
            r@ == self.terms().negated().values(),
    {
        Quat { s: self.s.neg(), v: self.v.neg() }
    }
}

impl<Value: Numeric + Neg<Output = Value>> NegSpecImpl for Quat<Value> {
    open spec fn obeys_neg_spec() -> bool {
        true
    }

    open spec fn neg_req(self) -> bool {
        obeys_neg::<Value>() && self.terms().negated().defined()
    }

    open spec fn neg_spec(self) -> Quat<Value> {
        self.terms().negated().value()
    }
}

impl<'a, Value: Numeric + Neg<Output = Value>> Neg for &'a Quat<Value> {
    type Output = Quat<Value>;

    fn neg(self) -> (r: Quat<Value>)
        ensures
            r@ == self.terms().negated().values(),
    {
        Quat { s: self.s.neg(), v: self.v.neg() }
    }
}

impl<'a, Value: Numeric + Neg<Output = Value>> NegSpecImpl for &'a Quat<Value> {
    open spec fn obeys_neg_spec() -> bool {
        true
    }

    open spec fn neg_req(self) -> bool {
        obeys_neg::<Value>() && self.terms().negated().defined()
    }

    open spec fn neg_spec(self) -> Quat<Value> {
        self.terms().negated().value()
    }
}

impl<Value: Numeric> Add<Quat<Value>> for Quat<Value> {
    type Output = Quat<Value>;

    fn add(self, other: Quat<Value>) -> (r: Quat<Value>)
        ensures
            r@ == self.terms().plus(other.terms()).values(),
    {
        Quat { s: self.s + other.s, v: self.v + other.v }
    }
}

impl<Value: Numeric> AddSpecImpl<Quat<Value>> for Quat<Value> {
    open spec fn obeys_add_spec() -> bool {
        true
    }

    open spec fn add_req(self, other: Quat<Value>) -> bool {
        obeys_arith::<Value>() && self.terms().plus(other.terms()).defined()
    }

    open spec fn add_spec(self, other: Quat<Value>) -> Quat<Value> {
        self.terms().plus(other.terms()).value()
    }
}

impl<'b, Value: Numeric> Add<&'b Quat<Value>> for Quat<Value> {
    type Output = Quat<Value>;

    fn add(self, other: &'b Quat<Value>) -> (r: Quat<Value>)
        ensures
            r@ == self.terms().plus(other.terms()).values(),
    {
        Quat { s: self.s + other.s, v: self.v + other.v }
    }
}

impl<'b, Value: Numeric> AddSpecImpl<&'b Quat<Value>> for Quat<Value> {
    open spec fn obeys_add_spec() -> bool {
        true
    }

    open spec fn add_req(self, other: &'b Quat<Value>) -> bool {
        obeys_arith::<Value>() && self.terms().plus(other.terms()).defined()
    }

    open spec fn add_spec(self, other: &'b Quat<Value>) -> Quat<Value> {
        self.terms().plus(other.terms()).value()
    }
}

impl<'a, Value: Numeric> Add<Quat<Value>> for &'a Quat<Value> {
    type Output = Quat<Value>;

    fn add(self, other: Quat<Value>) -> (r: Quat<Value>)
        ensures
            r@ == self.terms().plus(other.terms()).values(),
    {
        Quat { s: self.s + other.s, v: self.v + other.v }
    }
}

impl<'a, Value: Numeric> AddSpecImpl<Quat<Value>> for &'a Quat<Value> {
    open spec fn obeys_add_spec() -> bool {
        true
    }

    open spec fn add_req(self, other: Quat<Value>) -> bool {
        obeys_arith::<Value>() && self.terms().plus(other.terms()).defined()
    }

    open spec fn add_spec(self, other: Quat<Value>) -> Quat<Value> {
        self.terms().plus(other.terms()).value()
    }
}

impl<'a, 'b, Value: Numeric> Add<&'b Quat<Value>> for &'a Quat<Value> {
    type Output = Quat<Value>;

    fn add(self, other: &'b Quat<Value>) -> (r: Quat<Value>)
        ensures
            r@ == self.terms().plus(other.terms()).values(),
    {
        Quat { s: self.s + other.s, v: self.v + other.v }
    }
}

impl<'a, 'b, Value: Numeric> AddSpecImpl<&'b Quat<Value>> for &'a Quat<Value> {
    open spec fn obeys_add_spec() -> bool {
        true
    }

    open spec fn add_req(self, other: &'b Quat<Value>) -> bool {
        obeys_arith::<Value>() && self.terms().plus(other.terms()).defined()
    }

    open spec fn add_spec(self, other: &'b Quat<Value>) -> Quat<Value> {
        self.terms().plus(other.terms()).value()
    }
}

impl<Value: Numeric> AddAssign<Quat<Value>> for Quat<Value> {
    fn add_assign(&mut self, other: Quat<Value>)
        requires
            obeys_arith::<Value>(),
            old(self).terms().plus(other.terms()).defined(),
        ensures
            *final(self) == old(self).terms().plus(other.terms()).value(),
            final(self)@ == old(self).terms().plus(other.terms()).values(),
    {
        *self = Quat { s: self.s + other.s, v: self.v + other.v };
    }
}

impl<'b, Value: Numeric> AddAssign<&'b Quat<Value>> for Quat<Value> {
    fn add_assign(&mut self, other: &'b Quat<Value>)
        requires
            obeys_arith::<Value>(),
            old(self).terms().plus(other.terms()).defined(),
        ensures
            *final(self) == old(self).terms().plus(other.terms()).value(),
            final(self)@ == old(self).terms().plus(other.terms()).values(),
    {
        *self = Quat { s: self.s + other.s, v: self.v + other.v };
    }
}

impl<Value: Numeric> Sub<Quat<Value>> for Quat<Value> {
    type Output = Quat<Value>;

    fn sub(self, other: Quat<Value>) -> (r: Quat<Value>)
        ensures
            r@ == self.terms().minus(other.terms()).values(),
    {
        Quat { s: self.s - other.s, v: self.v - other.v }
    }
}

impl<Value: Numeric> SubSpecImpl<Quat<Value>> for Quat<Value> {
    open spec fn obeys_sub_spec() -> bool {
        true
    }

    open spec fn sub_req(self, other: Quat<Value>) -> bool {
        obeys_arith::<Value>() && self.terms().minus(other.terms()).defined()
    }

    open spec fn sub_spec(self, other: Quat<Value>) -> Quat<Value> {
        self.terms().minus(other.terms()).value()
    }
}

impl<'b, Value: Numeric> Sub<&'b Quat<Value>> for Quat<Value> {
    type Output = Quat<Value>;

    fn sub(self, other: &'b Quat<Value>) -> (r: Quat<Value>)
        ensures
            r@ == self.terms().minus(other.terms()).values(),
    {
        Quat { s: self.s - other.s, v: self.v - other.v }
    }
}

impl<'b, Value: Numeric> SubSpecImpl<&'b Quat<Value>> for Quat<Value> {
    open spec fn obeys_sub_spec() -> bool {
        true
    }

    open spec fn sub_req(self, other: &'b Quat<Value>) -> bool {
        obeys_arith::<Value>() && self.terms().minus(other.terms()).defined()
    }

    open spec fn sub_spec(self, other: &'b Quat<Value>) -> Quat<Value> {
        self.terms().minus(other.terms()).value()
    }
}

impl<'a, Value: Numeric> Sub<Quat<Value>> for &'a Quat<Value> {
    type Output = Quat<Value>;

    fn sub(self, other: Quat<Value>) -> (r: Quat<Value>)
        ensures
            r@ == self.terms().minus(other.terms()).values(),
    {
        Quat { s: self.s - other.s, v: self.v - other.v }
    }
}

impl<'a, Value: Numeric> SubSpecImpl<Quat<Value>> for &'a Quat<Value> {
    open spec fn obeys_sub_spec() -> bool {
        true
    }

    open spec fn sub_req(self, other: Quat<Value>) -> bool {
        obeys_arith::<Value>() && self.terms().minus(other.terms()).defined()
    }

    open spec fn sub_spec(self, other: Quat<Value>) -> Quat<Value> {
        self.terms().minus(other.terms()).value()
    }
}

impl<'a, 'b, Value: Numeric> Sub<&'b Quat<Value>> for &'a Quat<Value> {
    type Output = Quat<Value>;

    fn sub(self, other: &'b Quat<Value>) -> (r: Quat<Value>)
        ensures
            r@ == self.terms().minus(other.terms()).values(),
    {
        Quat { s: self.s - other.s, v: self.v - other.v }
    }
}

impl<'a, 'b, Value: Numeric> SubSpecImpl<&'b Quat<Value>> for &'a Quat<Value> {
    open spec fn obeys_sub_spec() -> bool {
        true
    }

    open spec fn sub_req(self, other: &'b Quat<Value>) -> bool {
        obeys_arith::<Value>() && self.terms().minus(other.terms()).defined()
    }

    open spec fn sub_spec(self, other: &'b Quat<Value>) -> Quat<Value> {
        self.terms().minus(other.terms()).value()
    }
}

impl<Value: Numeric> SubAssign<Quat<Value>> for Quat<Value> {
    fn sub_assign(&mut self, other: Quat<Value>)
        requires
            obeys_arith::<Value>(),
            old(self).terms().minus(other.terms()).defined(),
        ensures
            *final(self) == old(self).terms().minus(other.terms()).value(),
            final(self)@ == old(self).terms().minus(other.terms()).values(),
    {
        *self = Quat { s: self.s - other.s, v: self.v - other.v };
    }
}

impl<'b, Value: Numeric> SubAssign<&'b Quat<Value>> for Quat<Value> {
    fn sub_assign(&mut self, other: &'b Quat<Value>)
        requires
            obeys_arith::<Value>(),
            old(self).terms().minus(other.terms()).defined(),
        ensures
            *final(self) == old(self).terms().minus(other.terms()).value(),
            final(self)@ == old(self).terms().minus(other.terms()).values(),
    {
        *self = Quat { s: self.s - other.s, v: self.v - other.v };
    }
}

/// The Hamilton product, which does not commute.
impl<Value: Numeric> Mul<Quat<Value>> for Quat<Value> {
    type Output = Quat<Value>;

    fn mul(self, other: Quat<Value>) -> (r: Quat<Value>)
        ensures
            r@ == self.terms().times(other.terms()).values(),
    {
        let s = self.s;
        Quat {
            s: s * other.s - self.v.dot(&other.v),
            v: other.v * s + self.v * other.s + self.v.cross(&other.v),
        }
    }
}

impl<Value: Numeric> MulSpecImpl<Quat<Value>> for Quat<Value> {
    open spec fn obeys_mul_spec() -> bool {
        true
    }

    open spec fn mul_req(self, other: Quat<Value>) -> bool {
        obeys_arith::<Value>() && self.terms().times(other.terms()).defined()
    }

    open spec fn mul_spec(self, other: Quat<Value>) -> Quat<Value> {
        self.terms().times(other.terms()).value()
    }
}

/// The Hamilton product, which does not commute.
impl<'a, Value: Numeric> Mul<Quat<Value>> for &'a Quat<Value> {
    type Output = Quat<Value>;

    fn mul(self, other: Quat<Value>) -> (r: Quat<Value>)
        ensures
            r@ == self.terms().times(other.terms()).values(),
    {
        let s = self.s;
        Quat {
            s: s * other.s - self.v.dot(&other.v),
            v: other.v * s + self.v * other.s + self.v.cross(&other.v),
        }
    }
}

impl<'a, Value: Numeric> MulSpecImpl<Quat<Value>> for &'a Quat<Value> {
    open spec fn obeys_mul_spec() -> bool {
        true
    }

    open spec fn mul_req(self, other: Quat<Value>) -> bool {
        obeys_arith::<Value>() && self.terms().times(other.terms()).defined()
    }

    open spec fn mul_spec(self, other: Quat<Value>) -> Quat<Value> {
        self.terms().times(other.terms()).value()
    }
}

/// The Hamilton product, which does not commute.
impl<'b, Value: Numeric> Mul<&'b Quat<Value>> for Quat<Value> {
    type Output = Quat<Value>;

    fn mul(self, other: &'b Quat<Value>) -> (r: Quat<Value>)
        ensures
            r@ == self.terms().times(other.terms()).values(),
    {
        let s = self.s;
        Quat {
            s: s * other.s - self.v.dot(&other.v),
            v: other.v * s + self.v * other.s + self.v.cross(&other.v),
        }
    }
}

impl<'b, Value: Numeric> MulSpecImpl<&'b Quat<Value>> for Quat<Value> {
    open spec fn obeys_mul_spec() -> bool {
        true
    }

    open spec fn mul_req(self, other: &'b Quat<Value>) -> bool {
        obeys_arith::<Value>() && self.terms().times(other.terms()).defined()
    }

    open spec fn mul_spec(self, other: &'b Quat<Value>) -> Quat<Value> {
        self.terms().times(other.terms()).value()
    }
}

impl<Value: Numeric> MulAssign<Quat<Value>> for Quat<Value> {
    fn mul_assign(&mut self, other: Quat<Value>)
        requires
            obeys_arith::<Value>(),
            old(self).terms().times(other.terms()).defined(),
        ensures
            *final(self) == old(self).terms().times(other.terms()).value(),
            final(self)@ == old(self).terms().times(other.terms()).values(),
    {
        let s = self.s;
        *self = Quat {
            s: s * other.s - self.v.dot(&other.v),
            v: other.v * s + self.v * other.s + self.v.cross(&other.v),
        };
    }
}

impl<'b, Value: Numeric> MulAssign<&'b Quat<Value>> for Quat<Value> {
    fn mul_assign(&mut self, other: &'b Quat<Value>)
        requires
            obeys_arith::<Value>(),
            old(self).terms().times(other.terms()).defined(),
        ensures
            *final(self) == old(self).terms().times(other.terms()).value(),
            final(self)@ == old(self).terms().times(other.terms()).values(),
    {
        let s = self.s;
        *self = Quat {
            s: s * other.s - self.v.dot(&other.v),
            v: other.v * s + self.v * other.s + self.v.cross(&other.v),
        };
    }
}

impl<Value: Numeric> Mul<Value> for Quat<Value> {
    type Output = Quat<Value>;

    fn mul(self, other: Value) -> (r: Quat<Value>)
        ensures
            r@ == self.terms().times_each(Term::of(other)).values(),
    {
        Quat { s: self.s * other, v: self.v * other }
    }
}

impl<Value: Numeric> MulSpecImpl<Value> for Quat<Value> {
    open spec fn obeys_mul_spec() -> bool {
        true
    }

    open spec fn mul_req(self, other: Value) -> bool {
        obeys_arith::<Value>() && self.terms().times_each(Term::of(other)).defined()
    }

    open spec fn mul_spec(self, other: Value) -> Quat<Value> {
        self.terms().times_each(Term::of(other)).value()
    }
}

impl<'a, Value: Numeric> Mul<Value> for &'a Quat<Value> {
    type Output = Quat<Value>;

    fn mul(self, other: Value) -> (r: Quat<Value>)
        ensures
            r@ == self.terms().times_each(Term::of(other)).values(),
    {
        Quat { s: self.s * other, v: self.v * other }
    }
}

impl<'a, Value: Numeric> MulSpecImpl<Value> for &'a Quat<Value> {
    open spec fn obeys_mul_spec() -> bool {
        true
    }

    open spec fn mul_req(self, other: Value) -> bool {
        obeys_arith::<Value>() && self.terms().times_each(Term::of(other)).defined()
    }

    open spec fn mul_spec(self, other: Value) -> Quat<Value> {
        self.terms().times_each(Term::of(other)).value()
    }
}

impl<Value: Numeric> MulAssign<Value> for Quat<Value> {
    fn mul_assign(&mut self, other: Value)
        requires
            obeys_arith::<Value>(),
            old(self).terms().times_each(Term::of(other)).defined(),
        ensures
            *final(self) == old(self).terms().times_each(Term::of(other)).value(),
            final(self)@ == old(self).terms().times_each(Term::of(other)).values(),
    {
        *self = Quat { s: self.s * other, v: self.v * other };
    }
}

impl<Value: Numeric> Div<Value> for Quat<Value> {
    type Output = Quat<Value>;

    fn div(self, other: Value) -> (r: Quat<Value>)
        ensures
            r@ == self.terms().over_each(Term::of(other)).values(),
    {
        Quat { s: self.s / other, v: self.v / other }
    }
}

impl<Value: Numeric> DivSpecImpl<Value> for Quat<Value> {
    open spec fn obeys_div_spec() -> bool {
        true
    }

    open spec fn div_req(self, other: Value) -> bool {
        obeys_arith::<Value>() && self.terms().over_each(Term::of(other)).defined()
    }

    open spec fn div_spec(self, other: Value) -> Quat<Value> {
        self.terms().over_each(Term::of(other)).value()
    }
}

impl<'a, Value: Numeric> Div<Value> for &'a Quat<Value> {
    type Output = Quat<Value>;

    fn div(self, other: Value) -> (r: Quat<Value>)
        ensures
            r@ == self.terms().over_each(Term::of(other)).values(),
    {
        Quat { s: self.s / other, v: self.v / other }
    }
}

impl<'a, Value: Numeric> DivSpecImpl<Value> for &'a Quat<Value> {
    open spec fn obeys_div_spec() -> bool {
        true
    }

    open spec fn div_req(self, other: Value) -> bool {
        obeys_arith::<Value>() && self.terms().over_each(Term::of(other)).defined()
    }

    open spec fn div_spec(self, other: Value) -> Quat<Value> {
        self.terms().over_each(Term::of(other)).value()
    }
}

impl<Value: Numeric> DivAssign<Value> for Quat<Value> {
    fn div_assign(&mut self, other: Value)
        requires
            obeys_arith::<Value>(),
            old(self).terms().over_each(Term::of(other)).defined(),
        ensures
            *final(self) == old(self).terms().over_each(Term::of(other)).value(),
            final(self)@ == old(self).terms().over_each(Term::of(other)).values(),
    {
        *self = Quat { s: self.s / other, v: self.v / other };
    }
}

} // verus!
