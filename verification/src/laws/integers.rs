//! Over an integer element type the formulas are those of the integers.
//!
//! A term over an [`Integer`] is defined exactly when no step of it leaves the range of the
//! type, and then its value stands for what the same formula gives in the integers. So what a
//! function of this crate returns for integers is what the laws of this module's neighbours
//! speak of.
use crate::traits::integer::Integer;
use crate::traits::integer::SignedInteger;
use crate::traits::Negation;
use crate::traits::Ring;
use crate::types::mat3::Mat3Model;
use crate::types::mat4::Mat4Model;
use crate::types::quat::QuatModel;
use crate::types::vec3::Vec3Model;
use crate::types::vec4::Vec4Model;
use vstd::prelude::*;

verus! {

impl<V: Integer> Vec3Model<V> {
    /// The integers that the values stand for.
    pub open spec fn ints(self) -> Vec3Model<int> {
        Vec3Model { x: self.x.as_int(), y: self.y.as_int(), z: self.z.as_int() }
    }
}

impl<V: Integer> Vec4Model<V> {
    /// The integers that the values stand for.
    pub open spec fn ints(self) -> Vec4Model<int> {
        Vec4Model { x: self.x.as_int(), y: self.y.as_int(), z: self.z.as_int(), w: self.w.as_int() }
    }
}

impl<V: Integer> QuatModel<V> {
    /// The integers that the values stand for.
    pub open spec fn ints(self) -> QuatModel<int> {
        QuatModel { s: self.s.as_int(), v: self.v.ints() }
    }
}

impl<V: Integer> Mat3Model<V> {
    /// The integers that the values stand for.
    pub open spec fn ints(self) -> Mat3Model<int> {
        Mat3Model { r0c0: self.r0c0.as_int(), r0c1: self.r0c1.as_int(), r0c2: self.r0c2.as_int(), r1c0: self.r1c0.as_int(), r1c1: self.r1c1.as_int(), r1c2: self.r1c2.as_int(), r2c0: self.r2c0.as_int(), r2c1: self.r2c1.as_int(), r2c2: self.r2c2.as_int() }
    }
}

impl<V: Integer> Mat4Model<V> {
    /// The integers that the values stand for.
    pub open spec fn ints(self) -> Mat4Model<int> {
        Mat4Model { r0c0: self.r0c0.as_int(), r0c1: self.r0c1.as_int(), r0c2: self.r0c2.as_int(), r0c3: self.r0c3.as_int(), r1c0: self.r1c0.as_int(), r1c1: self.r1c1.as_int(), r1c2: self.r1c2.as_int(), r1c3: self.r1c3.as_int(), r2c0: self.r2c0.as_int(), r2c1: self.r2c1.as_int(), r2c2: self.r2c2.as_int(), r2c3: self.r2c3.as_int(), r3c0: self.r3c0.as_int(), r3c1: self.r3c1.as_int(), r3c2: self.r3c2.as_int(), r3c3: self.r3c3.as_int() }
    }
}

/// The dot product of integers is exact.
pub proof fn lemma_vec3_dot_is_exact<V: Integer>(a: Vec3Model<V>, b: Vec3Model<V>)
    requires
        a.terms().dot(b.terms()).defined,
    ensures
        a.terms().dot(b.terms()).value.as_int() == a.ints().dot(b.ints()),
{
    V::arithmetic_is_exact(a.terms().x.value, b.terms().x.value);
    V::arithmetic_is_exact(a.terms().y.value, b.terms().y.value);
    V::arithmetic_is_exact(a.terms().x.times(b.terms().x).value, a.terms().y.times(b.terms().y).value);
    V::arithmetic_is_exact(a.terms().z.value, b.terms().z.value);
    V::arithmetic_is_exact(a.terms().x.times(b.terms().x).plus(a.terms().y.times(b.terms().y)).value, a.terms().z.times(b.terms().z).value);
}

/// The cross product of integers is exact.
pub proof fn lemma_vec3_cross_is_exact<V: Integer>(a: Vec3Model<V>, b: Vec3Model<V>)
    requires
        a.terms().cross(b.terms()).defined(),
    ensures
        a.terms().cross(b.terms()).values().ints() == a.ints().cross(b.ints()),
{
    V::arithmetic_is_exact(a.terms().y.value, b.terms().z.value);
    V::arithmetic_is_exact(a.terms().z.value, b.terms().y.value);
    V::arithmetic_is_exact(a.terms().y.times(b.terms().z).value, a.terms().z.times(b.terms().y).value);
    V::arithmetic_is_exact(a.terms().z.value, b.terms().x.value);
    V::arithmetic_is_exact(a.terms().x.value, b.terms().z.value);
    V::arithmetic_is_exact(a.terms().z.times(b.terms().x).value, a.terms().x.times(b.terms().z).value);
    V::arithmetic_is_exact(a.terms().x.value, b.terms().y.value);
    V::arithmetic_is_exact(a.terms().y.value, b.terms().x.value);
    V::arithmetic_is_exact(a.terms().x.times(b.terms().y).value, a.terms().y.times(b.terms().x).value);
}

/// The product of quaternions of integers is exact.
pub proof fn lemma_quat_product_is_exact<V: Integer>(p: QuatModel<V>, q: QuatModel<V>)
    requires
        p.terms().times(q.terms()).defined(),
    ensures
        p.terms().times(q.terms()).values().ints() == p.ints().times(q.ints()),
{
    V::arithmetic_is_exact(p.terms().s.value, q.terms().s.value);
    V::arithmetic_is_exact(p.terms().v.x.value, q.terms().v.x.value);
    V::arithmetic_is_exact(p.terms().v.y.value, q.terms().v.y.value);
    V::arithmetic_is_exact(p.terms().v.x.times(q.terms().v.x).value, p.terms().v.y.times(q.terms().v.y).value);
    V::arithmetic_is_exact(p.terms().v.z.value, q.terms().v.z.value);
    V::arithmetic_is_exact(p.terms().v.x.times(q.terms().v.x).plus(p.terms().v.y.times(q.terms().v.y)).value, p.terms().v.z.times(q.terms().v.z).value);
    V::arithmetic_is_exact(p.terms().s.times(q.terms().s).value, p.terms().v.x.times(q.terms().v.x).plus(p.terms().v.y.times(q.terms().v.y)).plus(p.terms().v.z.times(q.terms().v.z)).value);
    V::arithmetic_is_exact(q.terms().v.x.value, p.terms().s.value);
    V::arithmetic_is_exact(p.terms().v.x.value, q.terms().s.value);
    V::arithmetic_is_exact(q.terms().v.x.times(p.terms().s).value, p.terms().v.x.times(q.terms().s).value);
    V::arithmetic_is_exact(p.terms().v.y.value, q.terms().v.z.value);
    V::arithmetic_is_exact(p.terms().v.z.value, q.terms().v.y.value);
    V::arithmetic_is_exact(p.terms().v.y.times(q.terms().v.z).value, p.terms().v.z.times(q.terms().v.y).value);
    V::arithmetic_is_exact(q.terms().v.x.times(p.terms().s).plus(p.terms().v.x.times(q.terms().s)).value, p.terms().v.y.times(q.terms().v.z).minus(p.terms().v.z.times(q.terms().v.y)).value);
    V::arithmetic_is_exact(q.terms().v.y.value, p.terms().s.value);
    V::arithmetic_is_exact(p.terms().v.y.value, q.terms().s.value);
    V::arithmetic_is_exact(q.terms().v.y.times(p.terms().s).value, p.terms().v.y.times(q.terms().s).value);
    V::arithmetic_is_exact(p.terms().v.z.value, q.terms().v.x.value);
    V::arithmetic_is_exact(p.terms().v.x.value, q.terms().v.z.value);
    V::arithmetic_is_exact(p.terms().v.z.times(q.terms().v.x).value, p.terms().v.x.times(q.terms().v.z).value);
    V::arithmetic_is_exact(q.terms().v.y.times(p.terms().s).plus(p.terms().v.y.times(q.terms().s)).value, p.terms().v.z.times(q.terms().v.x).minus(p.terms().v.x.times(q.terms().v.z)).value);
    V::arithmetic_is_exact(q.terms().v.z.value, p.terms().s.value);
    V::arithmetic_is_exact(p.terms().v.z.value, q.terms().s.value);
    V::arithmetic_is_exact(q.terms().v.z.times(p.terms().s).value, p.terms().v.z.times(q.terms().s).value);
    V::arithmetic_is_exact(p.terms().v.x.value, q.terms().v.y.value);
    V::arithmetic_is_exact(p.terms().v.y.value, q.terms().v.x.value);
    V::arithmetic_is_exact(p.terms().v.x.times(q.terms().v.y).value, p.terms().v.y.times(q.terms().v.x).value);
    V::arithmetic_is_exact(q.terms().v.z.times(p.terms().s).plus(p.terms().v.z.times(q.terms().s)).value, p.terms().v.x.times(q.terms().v.y).minus(p.terms().v.y.times(q.terms().v.x)).value);
}

/// The product of matrices of integers is exact.
pub proof fn lemma_mat3_product_is_exact<V: Integer>(a: Mat3Model<V>, b: Mat3Model<V>)
    requires
        a.terms().times(b.terms()).defined(),
    ensures
        a.terms().times(b.terms()).values().ints() == a.ints().times(b.ints()),
{
    V::arithmetic_is_exact(a.terms().r0c0.value, b.terms().r0c0.value);
    V::arithmetic_is_exact(a.terms().r0c1.value, b.terms().r1c0.value);
    V::arithmetic_is_exact(a.terms().r0c0.times(b.terms().r0c0).value, a.terms().r0c1.times(b.terms().r1c0).value);
    V::arithmetic_is_exact(a.terms().r0c2.value, b.terms().r2c0.value);
    V::arithmetic_is_exact(a.terms().r0c0.times(b.terms().r0c0).plus(a.terms().r0c1.times(b.terms().r1c0)).value, a.terms().r0c2.times(b.terms().r2c0).value);
    V::arithmetic_is_exact(a.terms().r0c0.value, b.terms().r0c1.value);
    V::arithmetic_is_exact(a.terms().r0c1.value, b.terms().r1c1.value);
    V::arithmetic_is_exact(a.terms().r0c0.times(b.terms().r0c1).value, a.terms().r0c1.times(b.terms().r1c1).value);
    V::arithmetic_is_exact(a.terms().r0c2.value, b.terms().r2c1.value);
    V::arithmetic_is_exact(a.terms().r0c0.times(b.terms().r0c1).plus(a.terms().r0c1.times(b.terms().r1c1)).value, a.terms().r0c2.times(b.terms().r2c1).value);
    V::arithmetic_is_exact(a.terms().r0c0.value, b.terms().r0c2.value);
    V::arithmetic_is_exact(a.terms().r0c1.value, b.terms().r1c2.value);
    V::arithmetic_is_exact(a.terms().r0c0.times(b.terms().r0c2).value, a.terms().r0c1.times(b.terms().r1c2).value);
    V::arithmetic_is_exact(a.terms().r0c2.value, b.terms().r2c2.value);
    V::arithmetic_is_exact(a.terms().r0c0.times(b.terms().r0c2).plus(a.terms().r0c1.times(b.terms().r1c2)).value, a.terms().r0c2.times(b.terms().r2c2).value);
    V::arithmetic_is_exact(a.terms().r1c0.value, b.terms().r0c0.value);
    V::arithmetic_is_exact(a.terms().r1c1.value, b.terms().r1c0.value);
    V::arithmetic_is_exact(a.terms().r1c0.times(b.terms().r0c0).value, a.terms().r1c1.times(b.terms().r1c0).value);
    V::arithmetic_is_exact(a.terms().r1c2.value, b.terms().r2c0.value);
    V::arithmetic_is_exact(a.terms().r1c0.times(b.terms().r0c0).plus(a.terms().r1c1.times(b.terms().r1c0)).value, a.terms().r1c2.times(b.terms().r2c0).value);
    V::arithmetic_is_exact(a.terms().r1c0.value, b.terms().r0c1.value);
    V::arithmetic_is_exact(a.terms().r1c1.value, b.terms().r1c1.value);
    V::arithmetic_is_exact(a.terms().r1c0.times(b.terms().r0c1).value, a.terms().r1c1.times(b.terms().r1c1).value);
    V::arithmetic_is_exact(a.terms().r1c2.value, b.terms().r2c1.value);
    V::arithmetic_is_exact(a.terms().r1c0.times(b.terms().r0c1).plus(a.terms().r1c1.times(b.terms().r1c1)).value, a.terms().r1c2.times(b.terms().r2c1).value);
    V::arithmetic_is_exact(a.terms().r1c0.value, b.terms().r0c2.value);
    V::arithmetic_is_exact(a.terms().r1c1.value, b.terms().r1c2.value);
    V::arithmetic_is_exact(a.terms().r1c0.times(b.terms().r0c2).value, a.terms().r1c1.times(b.terms().r1c2).value);
    V::arithmetic_is_exact(a.terms().r1c2.value, b.terms().r2c2.value);
    V::arithmetic_is_exact(a.terms().r1c0.times(b.terms().r0c2).plus(a.terms().r1c1.times(b.terms().r1c2)).value, a.terms().r1c2.times(b.terms().r2c2).value);
    V::arithmetic_is_exact(a.terms().r2c0.value, b.terms().r0c0.value);
    V::arithmetic_is_exact(a.terms().r2c1.value, b.terms().r1c0.value);
    V::arithmetic_is_exact(a.terms().r2c0.times(b.terms().r0c0).value, a.terms().r2c1.times(b.terms().r1c0).value);
    V::arithmetic_is_exact(a.terms().r2c2.value, b.terms().r2c0.value);
    V::arithmetic_is_exact(a.terms().r2c0.times(b.terms().r0c0).plus(a.terms().r2c1.times(b.terms().r1c0)).value, a.terms().r2c2.times(b.terms().r2c0).value);
    V::arithmetic_is_exact(a.terms().r2c0.value, b.terms().r0c1.value);
    V::arithmetic_is_exact(a.terms().r2c1.value, b.terms().r1c1.value);
    V::arithmetic_is_exact(a.terms().r2c0.times(b.terms().r0c1).value, a.terms().r2c1.times(b.terms().r1c1).value);
    V::arithmetic_is_exact(a.terms().r2c2.value, b.terms().r2c1.value);
    V::arithmetic_is_exact(a.terms().r2c0.times(b.terms().r0c1).plus(a.terms().r2c1.times(b.terms().r1c1)).value, a.terms().r2c2.times(b.terms().r2c1).value);
    V::arithmetic_is_exact(a.terms().r2c0.value, b.terms().r0c2.value);
    V::arithmetic_is_exact(a.terms().r2c1.value, b.terms().r1c2.value);
    V::arithmetic_is_exact(a.terms().r2c0.times(b.terms().r0c2).value, a.terms().r2c1.times(b.terms().r1c2).value);
    V::arithmetic_is_exact(a.terms().r2c2.value, b.terms().r2c2.value);
    V::arithmetic_is_exact(a.terms().r2c0.times(b.terms().r0c2).plus(a.terms().r2c1.times(b.terms().r1c2)).value, a.terms().r2c2.times(b.terms().r2c2).value);
}

/// A matrix of integers applied to a vector of integers is exact.
pub proof fn lemma_mat3_apply_is_exact<V: Integer>(m: Mat3Model<V>, v: Vec3Model<V>)
    requires
        m.terms().apply(v.terms()).defined(),
    ensures
        m.terms().apply(v.terms()).values().ints() == m.ints().apply(v.ints()),
{
    V::arithmetic_is_exact(m.terms().r0c0.value, v.terms().x.value);
    V::arithmetic_is_exact(m.terms().r0c1.value, v.terms().y.value);
    V::arithmetic_is_exact(m.terms().r0c0.times(v.terms().x).value, m.terms().r0c1.times(v.terms().y).value);
    V::arithmetic_is_exact(m.terms().r0c2.value, v.terms().z.value);
    V::arithmetic_is_exact(m.terms().r0c0.times(v.terms().x).plus(m.terms().r0c1.times(v.terms().y)).value, m.terms().r0c2.times(v.terms().z).value);
    V::arithmetic_is_exact(m.terms().r1c0.value, v.terms().x.value);
    V::arithmetic_is_exact(m.terms().r1c1.value, v.terms().y.value);
    V::arithmetic_is_exact(m.terms().r1c0.times(v.terms().x).value, m.terms().r1c1.times(v.terms().y).value);
    V::arithmetic_is_exact(m.terms().r1c2.value, v.terms().z.value);
    V::arithmetic_is_exact(m.terms().r1c0.times(v.terms().x).plus(m.terms().r1c1.times(v.terms().y)).value, m.terms().r1c2.times(v.terms().z).value);
    V::arithmetic_is_exact(m.terms().r2c0.value, v.terms().x.value);
    V::arithmetic_is_exact(m.terms().r2c1.value, v.terms().y.value);
    V::arithmetic_is_exact(m.terms().r2c0.times(v.terms().x).value, m.terms().r2c1.times(v.terms().y).value);
    V::arithmetic_is_exact(m.terms().r2c2.value, v.terms().z.value);
    V::arithmetic_is_exact(m.terms().r2c0.times(v.terms().x).plus(m.terms().r2c1.times(v.terms().y)).value, m.terms().r2c2.times(v.terms().z).value);
}

/// The adjugate and the determinant of a matrix of integers are exact.
pub proof fn lemma_mat3_adjugate_is_exact<V: SignedInteger>(m: Mat3Model<V>)
    requires
        m.terms().adjugate().defined(),
        m.terms().determinant().defined,
    ensures
        m.terms().adjugate().values().ints() == m.ints().adjugate(),
        m.terms().determinant().value.as_int() == m.ints().determinant(),
{
    V::arithmetic_is_exact(m.terms().r1c1.value, m.terms().r2c2.value);
    V::arithmetic_is_exact(m.terms().r2c1.value, m.terms().r1c2.value);
    V::arithmetic_is_exact(m.terms().r1c1.times(m.terms().r2c2).value, m.terms().r2c1.times(m.terms().r1c2).value);
    V::arithmetic_is_exact(m.terms().r0c0.value, m.terms().r1c1.times(m.terms().r2c2).minus(m.terms().r2c1.times(m.terms().r1c2)).value);
    V::arithmetic_is_exact(m.terms().r1c0.value, m.terms().r2c2.value);
    V::arithmetic_is_exact(m.terms().r1c2.value, m.terms().r2c0.value);
    V::arithmetic_is_exact(m.terms().r1c0.times(m.terms().r2c2).value, m.terms().r1c2.times(m.terms().r2c0).value);
    V::arithmetic_is_exact(m.terms().r0c1.value, m.terms().r1c0.times(m.terms().r2c2).minus(m.terms().r1c2.times(m.terms().r2c0)).value);
    V::arithmetic_is_exact(m.terms().r0c0.times(m.terms().r1c1.times(m.terms().r2c2).minus(m.terms().r2c1.times(m.terms().r1c2))).value, m.terms().r0c1.times(m.terms().r1c0.times(m.terms().r2c2).minus(m.terms().r1c2.times(m.terms().r2c0))).value);
    V::arithmetic_is_exact(m.terms().r1c0.value, m.terms().r2c1.value);
    V::arithmetic_is_exact(m.terms().r1c1.value, m.terms().r2c0.value);
    V::arithmetic_is_exact(m.terms().r1c0.times(m.terms().r2c1).value, m.terms().r1c1.times(m.terms().r2c0).value);
    V::arithmetic_is_exact(m.terms().r0c2.value, m.terms().r1c0.times(m.terms().r2c1).minus(m.terms().r1c1.times(m.terms().r2c0)).value);
    V::arithmetic_is_exact(m.terms().r0c0.times(m.terms().r1c1.times(m.terms().r2c2).minus(m.terms().r2c1.times(m.terms().r1c2))).minus(m.terms().r0c1.times(m.terms().r1c0.times(m.terms().r2c2).minus(m.terms().r1c2.times(m.terms().r2c0)))).value, m.terms().r0c2.times(m.terms().r1c0.times(m.terms().r2c1).minus(m.terms().r1c1.times(m.terms().r2c0))).value);
    V::arithmetic_is_exact(m.terms().r0c2.value, m.terms().r2c1.value);
    V::arithmetic_is_exact(m.terms().r0c1.value, m.terms().r2c2.value);
    V::arithmetic_is_exact(m.terms().r0c2.times(m.terms().r2c1).value, m.terms().r0c1.times(m.terms().r2c2).value);
    V::arithmetic_is_exact(m.terms().r0c1.value, m.terms().r1c2.value);
    V::arithmetic_is_exact(m.terms().r0c2.value, m.terms().r1c1.value);
    V::arithmetic_is_exact(m.terms().r0c1.times(m.terms().r1c2).value, m.terms().r0c2.times(m.terms().r1c1).value);
    V::arithmetic_is_exact(m.terms().r1c2.times(m.terms().r2c0).value, m.terms().r1c0.times(m.terms().r2c2).value);
    V::arithmetic_is_exact(m.terms().r0c0.value, m.terms().r2c2.value);
    V::arithmetic_is_exact(m.terms().r0c2.value, m.terms().r2c0.value);
    V::arithmetic_is_exact(m.terms().r0c0.times(m.terms().r2c2).value, m.terms().r0c2.times(m.terms().r2c0).value);
    V::arithmetic_is_exact(m.terms().r1c0.value, m.terms().r0c2.value);
    V::arithmetic_is_exact(m.terms().r0c0.value, m.terms().r1c2.value);
    V::arithmetic_is_exact(m.terms().r1c0.times(m.terms().r0c2).value, m.terms().r0c0.times(m.terms().r1c2).value);
    V::arithmetic_is_exact(m.terms().r2c0.value, m.terms().r1c1.value);
    V::arithmetic_is_exact(m.terms().r1c0.times(m.terms().r2c1).value, m.terms().r2c0.times(m.terms().r1c1).value);
    V::arithmetic_is_exact(m.terms().r2c0.value, m.terms().r0c1.value);
    V::arithmetic_is_exact(m.terms().r0c0.value, m.terms().r2c1.value);
    V::arithmetic_is_exact(m.terms().r2c0.times(m.terms().r0c1).value, m.terms().r0c0.times(m.terms().r2c1).value);
    V::arithmetic_is_exact(m.terms().r0c0.value, m.terms().r1c1.value);
    V::arithmetic_is_exact(m.terms().r1c0.value, m.terms().r0c1.value);
    V::arithmetic_is_exact(m.terms().r0c0.times(m.terms().r1c1).value, m.terms().r1c0.times(m.terms().r0c1).value);
}

/// The product of matrices of integers is exact.
pub proof fn lemma_mat4_product_is_exact<V: Integer>(a: Mat4Model<V>, b: Mat4Model<V>)
    requires
        a.terms().times(b.terms()).defined(),
    ensures
        a.terms().times(b.terms()).values().ints() == a.ints().times(b.ints()),
{
    V::arithmetic_is_exact(a.terms().r0c0.value, b.terms().r0c0.value);
    V::arithmetic_is_exact(a.terms().r0c1.value, b.terms().r1c0.value);
    V::arithmetic_is_exact(a.terms().r0c0.times(b.terms().r0c0).value, a.terms().r0c1.times(b.terms().r1c0).value);
    V::arithmetic_is_exact(a.terms().r0c2.value, b.terms().r2c0.value);
    V::arithmetic_is_exact(a.terms().r0c0.times(b.terms().r0c0).plus(a.terms().r0c1.times(b.terms().r1c0)).value, a.terms().r0c2.times(b.terms().r2c0).value);
    V::arithmetic_is_exact(a.terms().r0c3.value, b.terms().r3c0.value);
    V::arithmetic_is_exact(a.terms().r0c0.times(b.terms().r0c0).plus(a.terms().r0c1.times(b.terms().r1c0)).plus(a.terms().r0c2.times(b.terms().r2c0)).value, a.terms().r0c3.times(b.terms().r3c0).value);
    V::arithmetic_is_exact(a.terms().r0c0.value, b.terms().r0c1.value);
    V::arithmetic_is_exact(a.terms().r0c1.value, b.terms().r1c1.value);
    V::arithmetic_is_exact(a.terms().r0c0.times(b.terms().r0c1).value, a.terms().r0c1.times(b.terms().r1c1).value);
    V::arithmetic_is_exact(a.terms().r0c2.value, b.terms().r2c1.value);
    V::arithmetic_is_exact(a.terms().r0c0.times(b.terms().r0c1).plus(a.terms().r0c1.times(b.terms().r1c1)).value, a.terms().r0c2.times(b.terms().r2c1).value);
    V::arithmetic_is_exact(a.terms().r0c3.value, b.terms().r3c1.value);
    V::arithmetic_is_exact(a.terms().r0c0.times(b.terms().r0c1).plus(a.terms().r0c1.times(b.terms().r1c1)).plus(a.terms().r0c2.times(b.terms().r2c1)).value, a.terms().r0c3.times(b.terms().r3c1).value);
    V::arithmetic_is_exact(a.terms().r0c0.value, b.terms().r0c2.value);
    V::arithmetic_is_exact(a.terms().r0c1.value, b.terms().r1c2.value);
    V::arithmetic_is_exact(a.terms().r0c0.times(b.terms().r0c2).value, a.terms().r0c1.times(b.terms().r1c2).value);
    V::arithmetic_is_exact(a.terms().r0c2.value, b.terms().r2c2.value);
    V::arithmetic_is_exact(a.terms().r0c0.times(b.terms().r0c2).plus(a.terms().r0c1.times(b.terms().r1c2)).value, a.terms().r0c2.times(b.terms().r2c2).value);
    V::arithmetic_is_exact(a.terms().r0c3.value, b.terms().r3c2.value);
    V::arithmetic_is_exact(a.terms().r0c0.times(b.terms().r0c2).plus(a.terms().r0c1.times(b.terms().r1c2)).plus(a.terms().r0c2.times(b.terms().r2c2)).value, a.terms().r0c3.times(b.terms().r3c2).value);
    V::arithmetic_is_exact(a.terms().r0c0.value, b.terms().r0c3.value);
    V::arithmetic_is_exact(a.terms().r0c1.value, b.terms().r1c3.value);
    V::arithmetic_is_exact(a.terms().r0c0.times(b.terms().r0c3).value, a.terms().r0c1.times(b.terms().r1c3).value);
    V::arithmetic_is_exact(a.terms().r0c2.value, b.terms().r2c3.value);
    V::arithmetic_is_exact(a.terms().r0c0.times(b.terms().r0c3).plus(a.terms().r0c1.times(b.terms().r1c3)).value, a.terms().r0c2.times(b.terms().r2c3).value);
    V::arithmetic_is_exact(a.terms().r0c3.value, b.terms().r3c3.value);
    V::arithmetic_is_exact(a.terms().r0c0.times(b.terms().r0c3).plus(a.terms().r0c1.times(b.terms().r1c3)).plus(a.terms().r0c2.times(b.terms().r2c3)).value, a.terms().r0c3.times(b.terms().r3c3).value);
    V::arithmetic_is_exact(a.terms().r1c0.value, b.terms().r0c0.value);
    V::arithmetic_is_exact(a.terms().r1c1.value, b.terms().r1c0.value);
    V::arithmetic_is_exact(a.terms().r1c0.times(b.terms().r0c0).value, a.terms().r1c1.times(b.terms().r1c0).value);
    V::arithmetic_is_exact(a.terms().r1c2.value, b.terms().r2c0.value);
    V::arithmetic_is_exact(a.terms().r1c0.times(b.terms().r0c0).plus(a.terms().r1c1.times(b.terms().r1c0)).value, a.terms().r1c2.times(b.terms().r2c0).value);
    V::arithmetic_is_exact(a.terms().r1c3.value, b.terms().r3c0.value);
    V::arithmetic_is_exact(a.terms().r1c0.times(b.terms().r0c0).plus(a.terms().r1c1.times(b.terms().r1c0)).plus(a.terms().r1c2.times(b.terms().r2c0)).value, a.terms().r1c3.times(b.terms().r3c0).value);
    V::arithmetic_is_exact(a.terms().r1c0.value, b.terms().r0c1.value);
    V::arithmetic_is_exact(a.terms().r1c1.value, b.terms().r1c1.value);
    V::arithmetic_is_exact(a.terms().r1c0.times(b.terms().r0c1).value, a.terms().r1c1.times(b.terms().r1c1).value);
    V::arithmetic_is_exact(a.terms().r1c2.value, b.terms().r2c1.value);
    V::arithmetic_is_exact(a.terms().r1c0.times(b.terms().r0c1).plus(a.terms().r1c1.times(b.terms().r1c1)).value, a.terms().r1c2.times(b.terms().r2c1).value);
    V::arithmetic_is_exact(a.terms().r1c3.value, b.terms().r3c1.value);
    V::arithmetic_is_exact(a.terms().r1c0.times(b.terms().r0c1).plus(a.terms().r1c1.times(b.terms().r1c1)).plus(a.terms().r1c2.times(b.terms().r2c1)).value, a.terms().r1c3.times(b.terms().r3c1).value);
    V::arithmetic_is_exact(a.terms().r1c0.value, b.terms().r0c2.value);
    V::arithmetic_is_exact(a.terms().r1c1.value, b.terms().r1c2.value);
    V::arithmetic_is_exact(a.terms().r1c0.times(b.terms().r0c2).value, a.terms().r1c1.times(b.terms().r1c2).value);
    V::arithmetic_is_exact(a.terms().r1c2.value, b.terms().r2c2.value);
    V::arithmetic_is_exact(a.terms().r1c0.times(b.terms().r0c2).plus(a.terms().r1c1.times(b.terms().r1c2)).value, a.terms().r1c2.times(b.terms().r2c2).value);
    V::arithmetic_is_exact(a.terms().r1c3.value, b.terms().r3c2.value);
    V::arithmetic_is_exact(a.terms().r1c0.times(b.terms().r0c2).plus(a.terms().r1c1.times(b.terms().r1c2)).plus(a.terms().r1c2.times(b.terms().r2c2)).value, a.terms().r1c3.times(b.terms().r3c2).value);
    V::arithmetic_is_exact(a.terms().r1c0.value, b.terms().r0c3.value);
    V::arithmetic_is_exact(a.terms().r1c1.value, b.terms().r1c3.value);
    V::arithmetic_is_exact(a.terms().r1c0.times(b.terms().r0c3).value, a.terms().r1c1.times(b.terms().r1c3).value);
    V::arithmetic_is_exact(a.terms().r1c2.value, b.terms().r2c3.value);
    V::arithmetic_is_exact(a.terms().r1c0.times(b.terms().r0c3).plus(a.terms().r1c1.times(b.terms().r1c3)).value, a.terms().r1c2.times(b.terms().r2c3).value);
    V::arithmetic_is_exact(a.terms().r1c3.value, b.terms().r3c3.value);
    V::arithmetic_is_exact(a.terms().r1c0.times(b.terms().r0c3).plus(a.terms().r1c1.times(b.terms().r1c3)).plus(a.terms().r1c2.times(b.terms().r2c3)).value, a.terms().r1c3.times(b.terms().r3c3).value);
    V::arithmetic_is_exact(a.terms().r2c0.value, b.terms().r0c0.value);
    V::arithmetic_is_exact(a.terms().r2c1.value, b.terms().r1c0.value);
    V::arithmetic_is_exact(a.terms().r2c0.times(b.terms().r0c0).value, a.terms().r2c1.times(b.terms().r1c0).value);
    V::arithmetic_is_exact(a.terms().r2c2.value, b.terms().r2c0.value);
    V::arithmetic_is_exact(a.terms().r2c0.times(b.terms().r0c0).plus(a.terms().r2c1.times(b.terms().r1c0)).value, a.terms().r2c2.times(b.terms().r2c0).value);
    V::arithmetic_is_exact(a.terms().r2c3.value, b.terms().r3c0.value);
    V::arithmetic_is_exact(a.terms().r2c0.times(b.terms().r0c0).plus(a.terms().r2c1.times(b.terms().r1c0)).plus(a.terms().r2c2.times(b.terms().r2c0)).value, a.terms().r2c3.times(b.terms().r3c0).value);
    V::arithmetic_is_exact(a.terms().r2c0.value, b.terms().r0c1.value);
    V::arithmetic_is_exact(a.terms().r2c1.value, b.terms().r1c1.value);
    V::arithmetic_is_exact(a.terms().r2c0.times(b.terms().r0c1).value, a.terms().r2c1.times(b.terms().r1c1).value);
    V::arithmetic_is_exact(a.terms().r2c2.value, b.terms().r2c1.value);
    V::arithmetic_is_exact(a.terms().r2c0.times(b.terms().r0c1).plus(a.terms().r2c1.times(b.terms().r1c1)).value, a.terms().r2c2.times(b.terms().r2c1).value);
    V::arithmetic_is_exact(a.terms().r2c3.value, b.terms().r3c1.value);
    V::arithmetic_is_exact(a.terms().r2c0.times(b.terms().r0c1).plus(a.terms().r2c1.times(b.terms().r1c1)).plus(a.terms().r2c2.times(b.terms().r2c1)).value, a.terms().r2c3.times(b.terms().r3c1).value);
    V::arithmetic_is_exact(a.terms().r2c0.value, b.terms().r0c2.value);
    V::arithmetic_is_exact(a.terms().r2c1.value, b.terms().r1c2.value);
    V::arithmetic_is_exact(a.terms().r2c0.times(b.terms().r0c2).value, a.terms().r2c1.times(b.terms().r1c2).value);
    V::arithmetic_is_exact(a.terms().r2c2.value, b.terms().r2c2.value);
    V::arithmetic_is_exact(a.terms().r2c0.times(b.terms().r0c2).plus(a.terms().r2c1.times(b.terms().r1c2)).value, a.terms().r2c2.times(b.terms().r2c2).value);
    V::arithmetic_is_exact(a.terms().r2c3.value, b.terms().r3c2.value);
    V::arithmetic_is_exact(a.terms().r2c0.times(b.terms().r0c2).plus(a.terms().r2c1.times(b.terms().r1c2)).plus(a.terms().r2c2.times(b.terms().r2c2)).value, a.terms().r2c3.times(b.terms().r3c2).value);
    V::arithmetic_is_exact(a.terms().r2c0.value, b.terms().r0c3.value);
    V::arithmetic_is_exact(a.terms().r2c1.value, b.terms().r1c3.value);
    V::arithmetic_is_exact(a.terms().r2c0.times(b.terms().r0c3).value, a.terms().r2c1.times(b.terms().r1c3).value);
    V::arithmetic_is_exact(a.terms().r2c2.value, b.terms().r2c3.value);
    V::arithmetic_is_exact(a.terms().r2c0.times(b.terms().r0c3).plus(a.terms().r2c1.times(b.terms().r1c3)).value, a.terms().r2c2.times(b.terms().r2c3).value);
    V::arithmetic_is_exact(a.terms().r2c3.value, b.terms().r3c3.value);
    V::arithmetic_is_exact(a.terms().r2c0.times(b.terms().r0c3).plus(a.terms().r2c1.times(b.terms().r1c3)).plus(a.terms().r2c2.times(b.terms().r2c3)).value, a.terms().r2c3.times(b.terms().r3c3).value);
    V::arithmetic_is_exact(a.terms().r3c0.value, b.terms().r0c0.value);
    V::arithmetic_is_exact(a.terms().r3c1.value, b.terms().r1c0.value);
    V::arithmetic_is_exact(a.terms().r3c0.times(b.terms().r0c0).value, a.terms().r3c1.times(b.terms().r1c0).value);
    V::arithmetic_is_exact(a.terms().r3c2.value, b.terms().r2c0.value);
    V::arithmetic_is_exact(a.terms().r3c0.times(b.terms().r0c0).plus(a.terms().r3c1.times(b.terms().r1c0)).value, a.terms().r3c2.times(b.terms().r2c0).value);
    V::arithmetic_is_exact(a.terms().r3c3.value, b.terms().r3c0.value);
    V::arithmetic_is_exact(a.terms().r3c0.times(b.terms().r0c0).plus(a.terms().r3c1.times(b.terms().r1c0)).plus(a.terms().r3c2.times(b.terms().r2c0)).value, a.terms().r3c3.times(b.terms().r3c0).value);
    V::arithmetic_is_exact(a.terms().r3c0.value, b.terms().r0c1.value);
    V::arithmetic_is_exact(a.terms().r3c1.value, b.terms().r1c1.value);
    V::arithmetic_is_exact(a.terms().r3c0.times(b.terms().r0c1).value, a.terms().r3c1.times(b.terms().r1c1).value);
    V::arithmetic_is_exact(a.terms().r3c2.value, b.terms().r2c1.value);
    V::arithmetic_is_exact(a.terms().r3c0.times(b.terms().r0c1).plus(a.terms().r3c1.times(b.terms().r1c1)).value, a.terms().r3c2.times(b.terms().r2c1).value);
    V::arithmetic_is_exact(a.terms().r3c3.value, b.terms().r3c1.value);
    V::arithmetic_is_exact(a.terms().r3c0.times(b.terms().r0c1).plus(a.terms().r3c1.times(b.terms().r1c1)).plus(a.terms().r3c2.times(b.terms().r2c1)).value, a.terms().r3c3.times(b.terms().r3c1).value);
    V::arithmetic_is_exact(a.terms().r3c0.value, b.terms().r0c2.value);
    V::arithmetic_is_exact(a.terms().r3c1.value, b.terms().r1c2.value);
    V::arithmetic_is_exact(a.terms().r3c0.times(b.terms().r0c2).value, a.terms().r3c1.times(b.terms().r1c2).value);
    V::arithmetic_is_exact(a.terms().r3c2.value, b.terms().r2c2.value);
    V::arithmetic_is_exact(a.terms().r3c0.times(b.terms().r0c2).plus(a.terms().r3c1.times(b.terms().r1c2)).value, a.terms().r3c2.times(b.terms().r2c2).value);
    V::arithmetic_is_exact(a.terms().r3c3.value, b.terms().r3c2.value);
    V::arithmetic_is_exact(a.terms().r3c0.times(b.terms().r0c2).plus(a.terms().r3c1.times(b.terms().r1c2)).plus(a.terms().r3c2.times(b.terms().r2c2)).value, a.terms().r3c3.times(b.terms().r3c2).value);
    V::arithmetic_is_exact(a.terms().r3c0.value, b.terms().r0c3.value);
    V::arithmetic_is_exact(a.terms().r3c1.value, b.terms().r1c3.value);
    V::arithmetic_is_exact(a.terms().r3c0.times(b.terms().r0c3).value, a.terms().r3c1.times(b.terms().r1c3).value);
    V::arithmetic_is_exact(a.terms().r3c2.value, b.terms().r2c3.value);
    V::arithmetic_is_exact(a.terms().r3c0.times(b.terms().r0c3).plus(a.terms().r3c1.times(b.terms().r1c3)).value, a.terms().r3c2.times(b.terms().r2c3).value);
    V::arithmetic_is_exact(a.terms().r3c3.value, b.terms().r3c3.value);
    V::arithmetic_is_exact(a.terms().r3c0.times(b.terms().r0c3).plus(a.terms().r3c1.times(b.terms().r1c3)).plus(a.terms().r3c2.times(b.terms().r2c3)).value, a.terms().r3c3.times(b.terms().r3c3).value);
}

/// A matrix of integers applied to a vector of integers is exact.
pub proof fn lemma_mat4_apply_is_exact<V: Integer>(m: Mat4Model<V>, v: Vec4Model<V>)
    requires
        m.terms().apply(v.terms()).defined(),
    ensures
        m.terms().apply(v.terms()).values().ints() == m.ints().apply(v.ints()),
{
    V::arithmetic_is_exact(m.terms().r0c0.value, v.terms().x.value);
    V::arithmetic_is_exact(m.terms().r0c1.value, v.terms().y.value);
    V::arithmetic_is_exact(m.terms().r0c0.times(v.terms().x).value, m.terms().r0c1.times(v.terms().y).value);
    V::arithmetic_is_exact(m.terms().r0c2.value, v.terms().z.value);
    V::arithmetic_is_exact(m.terms().r0c0.times(v.terms().x).plus(m.terms().r0c1.times(v.terms().y)).value, m.terms().r0c2.times(v.terms().z).value);
    V::arithmetic_is_exact(m.terms().r0c3.value, v.terms().w.value);
    V::arithmetic_is_exact(m.terms().r0c0.times(v.terms().x).plus(m.terms().r0c1.times(v.terms().y)).plus(m.terms().r0c2.times(v.terms().z)).value, m.terms().r0c3.times(v.terms().w).value);
    V::arithmetic_is_exact(m.terms().r1c0.value, v.terms().x.value);
    V::arithmetic_is_exact(m.terms().r1c1.value, v.terms().y.value);
    V::arithmetic_is_exact(m.terms().r1c0.times(v.terms().x).value, m.terms().r1c1.times(v.terms().y).value);
    V::arithmetic_is_exact(m.terms().r1c2.value, v.terms().z.value);
    V::arithmetic_is_exact(m.terms().r1c0.times(v.terms().x).plus(m.terms().r1c1.times(v.terms().y)).value, m.terms().r1c2.times(v.terms().z).value);
    V::arithmetic_is_exact(m.terms().r1c3.value, v.terms().w.value);
    V::arithmetic_is_exact(m.terms().r1c0.times(v.terms().x).plus(m.terms().r1c1.times(v.terms().y)).plus(m.terms().r1c2.times(v.terms().z)).value, m.terms().r1c3.times(v.terms().w).value);
    V::arithmetic_is_exact(m.terms().r2c0.value, v.terms().x.value);
    V::arithmetic_is_exact(m.terms().r2c1.value, v.terms().y.value);
    V::arithmetic_is_exact(m.terms().r2c0.times(v.terms().x).value, m.terms().r2c1.times(v.terms().y).value);
    V::arithmetic_is_exact(m.terms().r2c2.value, v.terms().z.value);
    V::arithmetic_is_exact(m.terms().r2c0.times(v.terms().x).plus(m.terms().r2c1.times(v.terms().y)).value, m.terms().r2c2.times(v.terms().z).value);
    V::arithmetic_is_exact(m.terms().r2c3.value, v.terms().w.value);
    V::arithmetic_is_exact(m.terms().r2c0.times(v.terms().x).plus(m.terms().r2c1.times(v.terms().y)).plus(m.terms().r2c2.times(v.terms().z)).value, m.terms().r2c3.times(v.terms().w).value);
    V::arithmetic_is_exact(m.terms().r3c0.value, v.terms().x.value);
    V::arithmetic_is_exact(m.terms().r3c1.value, v.terms().y.value);
    V::arithmetic_is_exact(m.terms().r3c0.times(v.terms().x).value, m.terms().r3c1.times(v.terms().y).value);
    V::arithmetic_is_exact(m.terms().r3c2.value, v.terms().z.value);
    V::arithmetic_is_exact(m.terms().r3c0.times(v.terms().x).plus(m.terms().r3c1.times(v.terms().y)).value, m.terms().r3c2.times(v.terms().z).value);
    V::arithmetic_is_exact(m.terms().r3c3.value, v.terms().w.value);
    V::arithmetic_is_exact(m.terms().r3c0.times(v.terms().x).plus(m.terms().r3c1.times(v.terms().y)).plus(m.terms().r3c2.times(v.terms().z)).value, m.terms().r3c3.times(v.terms().w).value);
}

/// The adjugate and the determinant of a matrix of integers are exact.
pub proof fn lemma_mat4_adjugate_is_exact<V: SignedInteger>(m: Mat4Model<V>)
    requires
        m.terms().adjugate().defined(),
        m.terms().determinant().defined,
    ensures
        m.terms().adjugate().values().ints() == m.ints().adjugate(),
        m.terms().determinant().value.as_int() == m.ints().determinant(),
{
    V::arithmetic_is_exact(m.terms().r0c0.value, m.terms().r1c1.value);
    V::arithmetic_is_exact(m.terms().r1c0.value, m.terms().r0c1.value);
    V::arithmetic_is_exact(m.terms().r0c0.times(m.terms().r1c1).value, m.terms().r1c0.times(m.terms().r0c1).value);
    V::arithmetic_is_exact(m.terms().r0c0.value, m.terms().r1c2.value);
    V::arithmetic_is_exact(m.terms().r1c0.value, m.terms().r0c2.value);
    V::arithmetic_is_exact(m.terms().r0c0.times(m.terms().r1c2).value, m.terms().r1c0.times(m.terms().r0c2).value);
    V::arithmetic_is_exact(m.terms().r0c0.value, m.terms().r1c3.value);
    V::arithmetic_is_exact(m.terms().r1c0.value, m.terms().r0c3.value);
    V::arithmetic_is_exact(m.terms().r0c0.times(m.terms().r1c3).value, m.terms().r1c0.times(m.terms().r0c3).value);
    V::arithmetic_is_exact(m.terms().r0c1.value, m.terms().r1c2.value);
    V::arithmetic_is_exact(m.terms().r1c1.value, m.terms().r0c2.value);
    V::arithmetic_is_exact(m.terms().r0c1.times(m.terms().r1c2).value, m.terms().r1c1.times(m.terms().r0c2).value);
    V::arithmetic_is_exact(m.terms().r0c1.value, m.terms().r1c3.value);
    V::arithmetic_is_exact(m.terms().r1c1.value, m.terms().r0c3.value);
    V::arithmetic_is_exact(m.terms().r0c1.times(m.terms().r1c3).value, m.terms().r1c1.times(m.terms().r0c3).value);
    V::arithmetic_is_exact(m.terms().r0c2.value, m.terms().r1c3.value);
    V::arithmetic_is_exact(m.terms().r1c2.value, m.terms().r0c3.value);
    V::arithmetic_is_exact(m.terms().r0c2.times(m.terms().r1c3).value, m.terms().r1c2.times(m.terms().r0c3).value);
    V::arithmetic_is_exact(m.terms().r2c2.value, m.terms().r3c3.value);
    V::arithmetic_is_exact(m.terms().r3c2.value, m.terms().r2c3.value);
    V::arithmetic_is_exact(m.terms().r2c2.times(m.terms().r3c3).value, m.terms().r3c2.times(m.terms().r2c3).value);
    V::arithmetic_is_exact(m.terms().r2c1.value, m.terms().r3c3.value);
    V::arithmetic_is_exact(m.terms().r3c1.value, m.terms().r2c3.value);
    V::arithmetic_is_exact(m.terms().r2c1.times(m.terms().r3c3).value, m.terms().r3c1.times(m.terms().r2c3).value);
    V::arithmetic_is_exact(m.terms().r2c1.value, m.terms().r3c2.value);
    V::arithmetic_is_exact(m.terms().r3c1.value, m.terms().r2c2.value);
    V::arithmetic_is_exact(m.terms().r2c1.times(m.terms().r3c2).value, m.terms().r3c1.times(m.terms().r2c2).value);
    V::arithmetic_is_exact(m.terms().r2c0.value, m.terms().r3c3.value);
    V::arithmetic_is_exact(m.terms().r3c0.value, m.terms().r2c3.value);
    V::arithmetic_is_exact(m.terms().r2c0.times(m.terms().r3c3).value, m.terms().r3c0.times(m.terms().r2c3).value);
    V::arithmetic_is_exact(m.terms().r2c0.value, m.terms().r3c2.value);
    V::arithmetic_is_exact(m.terms().r3c0.value, m.terms().r2c2.value);
    V::arithmetic_is_exact(m.terms().r2c0.times(m.terms().r3c2).value, m.terms().r3c0.times(m.terms().r2c2).value);
    V::arithmetic_is_exact(m.terms().r2c0.value, m.terms().r3c1.value);
    V::arithmetic_is_exact(m.terms().r3c0.value, m.terms().r2c1.value);
    V::arithmetic_is_exact(m.terms().r2c0.times(m.terms().r3c1).value, m.terms().r3c0.times(m.terms().r2c1).value);
    V::arithmetic_is_exact(m.terms().r0c0.times(m.terms().r1c1).minus(m.terms().r1c0.times(m.terms().r0c1)).value, m.terms().r2c2.times(m.terms().r3c3).minus(m.terms().r3c2.times(m.terms().r2c3)).value);
    V::arithmetic_is_exact(m.terms().r0c0.times(m.terms().r1c2).minus(m.terms().r1c0.times(m.terms().r0c2)).value, m.terms().r2c1.times(m.terms().r3c3).minus(m.terms().r3c1.times(m.terms().r2c3)).value);
    V::arithmetic_is_exact(m.terms().r0c0.times(m.terms().r1c1).minus(m.terms().r1c0.times(m.terms().r0c1)).times(m.terms().r2c2.times(m.terms().r3c3).minus(m.terms().r3c2.times(m.terms().r2c3))).value, m.terms().r0c0.times(m.terms().r1c2).minus(m.terms().r1c0.times(m.terms().r0c2)).times(m.terms().r2c1.times(m.terms().r3c3).minus(m.terms().r3c1.times(m.terms().r2c3))).value);
    V::arithmetic_is_exact(m.terms().r0c0.times(m.terms().r1c3).minus(m.terms().r1c0.times(m.terms().r0c3)).value, m.terms().r2c1.times(m.terms().r3c2).minus(m.terms().r3c1.times(m.terms().r2c2)).value);
    V::arithmetic_is_exact(m.terms().r0c0.times(m.terms().r1c1).minus(m.terms().r1c0.times(m.terms().r0c1)).times(m.terms().r2c2.times(m.terms().r3c3).minus(m.terms().r3c2.times(m.terms().r2c3))).minus(m.terms().r0c0.times(m.terms().r1c2).minus(m.terms().r1c0.times(m.terms().r0c2)).times(m.terms().r2c1.times(m.terms().r3c3).minus(m.terms().r3c1.times(m.terms().r2c3)))).value, m.terms().r0c0.times(m.terms().r1c3).minus(m.terms().r1c0.times(m.terms().r0c3)).times(m.terms().r2c1.times(m.terms().r3c2).minus(m.terms().r3c1.times(m.terms().r2c2))).value);
    V::arithmetic_is_exact(m.terms().r0c1.times(m.terms().r1c2).minus(m.terms().r1c1.times(m.terms().r0c2)).value, m.terms().r2c0.times(m.terms().r3c3).minus(m.terms().r3c0.times(m.terms().r2c3)).value);
    V::arithmetic_is_exact(m.terms().r0c1.times(m.terms().r1c3).minus(m.terms().r1c1.times(m.terms().r0c3)).value, m.terms().r2c0.times(m.terms().r3c2).minus(m.terms().r3c0.times(m.terms().r2c2)).value);
    V::arithmetic_is_exact(m.terms().r0c1.times(m.terms().r1c2).minus(m.terms().r1c1.times(m.terms().r0c2)).times(m.terms().r2c0.times(m.terms().r3c3).minus(m.terms().r3c0.times(m.terms().r2c3))).value, m.terms().r0c1.times(m.terms().r1c3).minus(m.terms().r1c1.times(m.terms().r0c3)).times(m.terms().r2c0.times(m.terms().r3c2).minus(m.terms().r3c0.times(m.terms().r2c2))).value);
    V::arithmetic_is_exact(m.terms().r0c2.times(m.terms().r1c3).minus(m.terms().r1c2.times(m.terms().r0c3)).value, m.terms().r2c0.times(m.terms().r3c1).minus(m.terms().r3c0.times(m.terms().r2c1)).value);
    V::arithmetic_is_exact(m.terms().r0c1.times(m.terms().r1c2).minus(m.terms().r1c1.times(m.terms().r0c2)).times(m.terms().r2c0.times(m.terms().r3c3).minus(m.terms().r3c0.times(m.terms().r2c3))).minus(m.terms().r0c1.times(m.terms().r1c3).minus(m.terms().r1c1.times(m.terms().r0c3)).times(m.terms().r2c0.times(m.terms().r3c2).minus(m.terms().r3c0.times(m.terms().r2c2)))).value, m.terms().r0c2.times(m.terms().r1c3).minus(m.terms().r1c2.times(m.terms().r0c3)).times(m.terms().r2c0.times(m.terms().r3c1).minus(m.terms().r3c0.times(m.terms().r2c1))).value);
    V::arithmetic_is_exact(m.terms().r0c0.times(m.terms().r1c1).minus(m.terms().r1c0.times(m.terms().r0c1)).times(m.terms().r2c2.times(m.terms().r3c3).minus(m.terms().r3c2.times(m.terms().r2c3))).minus(m.terms().r0c0.times(m.terms().r1c2).minus(m.terms().r1c0.times(m.terms().r0c2)).times(m.terms().r2c1.times(m.terms().r3c3).minus(m.terms().r3c1.times(m.terms().r2c3)))).plus(m.terms().r0c0.times(m.terms().r1c3).minus(m.terms().r1c0.times(m.terms().r0c3)).times(m.terms().r2c1.times(m.terms().r3c2).minus(m.terms().r3c1.times(m.terms().r2c2)))).value, m.terms().r0c1.times(m.terms().r1c2).minus(m.terms().r1c1.times(m.terms().r0c2)).times(m.terms().r2c0.times(m.terms().r3c3).minus(m.terms().r3c0.times(m.terms().r2c3))).minus(m.terms().r0c1.times(m.terms().r1c3).minus(m.terms().r1c1.times(m.terms().r0c3)).times(m.terms().r2c0.times(m.terms().r3c2).minus(m.terms().r3c0.times(m.terms().r2c2)))).plus(m.terms().r0c2.times(m.terms().r1c3).minus(m.terms().r1c2.times(m.terms().r0c3)).times(m.terms().r2c0.times(m.terms().r3c1).minus(m.terms().r3c0.times(m.terms().r2c1)))).value);
    V::arithmetic_is_exact(m.terms().r1c1.value, m.terms().r2c2.times(m.terms().r3c3).minus(m.terms().r3c2.times(m.terms().r2c3)).value);
    V::arithmetic_is_exact(m.terms().r1c2.value, m.terms().r2c1.times(m.terms().r3c3).minus(m.terms().r3c1.times(m.terms().r2c3)).value);
    V::arithmetic_is_exact(m.terms().r1c1.times(m.terms().r2c2.times(m.terms().r3c3).minus(m.terms().r3c2.times(m.terms().r2c3))).value, m.terms().r1c2.times(m.terms().r2c1.times(m.terms().r3c3).minus(m.terms().r3c1.times(m.terms().r2c3))).value);
    V::arithmetic_is_exact(m.terms().r1c3.value, m.terms().r2c1.times(m.terms().r3c2).minus(m.terms().r3c1.times(m.terms().r2c2)).value);
    V::arithmetic_is_exact(m.terms().r1c1.times(m.terms().r2c2.times(m.terms().r3c3).minus(m.terms().r3c2.times(m.terms().r2c3))).minus(m.terms().r1c2.times(m.terms().r2c1.times(m.terms().r3c3).minus(m.terms().r3c1.times(m.terms().r2c3)))).value, m.terms().r1c3.times(m.terms().r2c1.times(m.terms().r3c2).minus(m.terms().r3c1.times(m.terms().r2c2))).value);
    V::negation_is_exact(m.terms().r0c1.value);
    V::arithmetic_is_exact(m.terms().r0c1.negated().value, m.terms().r2c2.times(m.terms().r3c3).minus(m.terms().r3c2.times(m.terms().r2c3)).value);
    V::arithmetic_is_exact(m.terms().r0c2.value, m.terms().r2c1.times(m.terms().r3c3).minus(m.terms().r3c1.times(m.terms().r2c3)).value);
    V::arithmetic_is_exact(m.terms().r0c1.negated().times(m.terms().r2c2.times(m.terms().r3c3).minus(m.terms().r3c2.times(m.terms().r2c3))).value, m.terms().r0c2.times(m.terms().r2c1.times(m.terms().r3c3).minus(m.terms().r3c1.times(m.terms().r2c3))).value);
    V::arithmetic_is_exact(m.terms().r0c3.value, m.terms().r2c1.times(m.terms().r3c2).minus(m.terms().r3c1.times(m.terms().r2c2)).value);
    V::arithmetic_is_exact(m.terms().r0c1.negated().times(m.terms().r2c2.times(m.terms().r3c3).minus(m.terms().r3c2.times(m.terms().r2c3))).plus(m.terms().r0c2.times(m.terms().r2c1.times(m.terms().r3c3).minus(m.terms().r3c1.times(m.terms().r2c3)))).value, m.terms().r0c3.times(m.terms().r2c1.times(m.terms().r3c2).minus(m.terms().r3c1.times(m.terms().r2c2))).value);
    V::arithmetic_is_exact(m.terms().r3c1.value, m.terms().r0c2.times(m.terms().r1c3).minus(m.terms().r1c2.times(m.terms().r0c3)).value);
    V::arithmetic_is_exact(m.terms().r3c2.value, m.terms().r0c1.times(m.terms().r1c3).minus(m.terms().r1c1.times(m.terms().r0c3)).value);
    V::arithmetic_is_exact(m.terms().r3c1.times(m.terms().r0c2.times(m.terms().r1c3).minus(m.terms().r1c2.times(m.terms().r0c3))).value, m.terms().r3c2.times(m.terms().r0c1.times(m.terms().r1c3).minus(m.terms().r1c1.times(m.terms().r0c3))).value);
    V::arithmetic_is_exact(m.terms().r3c3.value, m.terms().r0c1.times(m.terms().r1c2).minus(m.terms().r1c1.times(m.terms().r0c2)).value);
    V::arithmetic_is_exact(m.terms().r3c1.times(m.terms().r0c2.times(m.terms().r1c3).minus(m.terms().r1c2.times(m.terms().r0c3))).minus(m.terms().r3c2.times(m.terms().r0c1.times(m.terms().r1c3).minus(m.terms().r1c1.times(m.terms().r0c3)))).value, m.terms().r3c3.times(m.terms().r0c1.times(m.terms().r1c2).minus(m.terms().r1c1.times(m.terms().r0c2))).value);
    V::negation_is_exact(m.terms().r2c1.value);
    V::arithmetic_is_exact(m.terms().r2c1.negated().value, m.terms().r0c2.times(m.terms().r1c3).minus(m.terms().r1c2.times(m.terms().r0c3)).value);
    V::arithmetic_is_exact(m.terms().r2c2.value, m.terms().r0c1.times(m.terms().r1c3).minus(m.terms().r1c1.times(m.terms().r0c3)).value);
    V::arithmetic_is_exact(m.terms().r2c1.negated().times(m.terms().r0c2.times(m.terms().r1c3).minus(m.terms().r1c2.times(m.terms().r0c3))).value, m.terms().r2c2.times(m.terms().r0c1.times(m.terms().r1c3).minus(m.terms().r1c1.times(m.terms().r0c3))).value);
    V::arithmetic_is_exact(m.terms().r2c3.value, m.terms().r0c1.times(m.terms().r1c2).minus(m.terms().r1c1.times(m.terms().r0c2)).value);
    V::arithmetic_is_exact(m.terms().r2c1.negated().times(m.terms().r0c2.times(m.terms().r1c3).minus(m.terms().r1c2.times(m.terms().r0c3))).plus(m.terms().r2c2.times(m.terms().r0c1.times(m.terms().r1c3).minus(m.terms().r1c1.times(m.terms().r0c3)))).value, m.terms().r2c3.times(m.terms().r0c1.times(m.terms().r1c2).minus(m.terms().r1c1.times(m.terms().r0c2))).value);
    V::negation_is_exact(m.terms().r1c0.value);
    V::arithmetic_is_exact(m.terms().r1c0.negated().value, m.terms().r2c2.times(m.terms().r3c3).minus(m.terms().r3c2.times(m.terms().r2c3)).value);
    V::arithmetic_is_exact(m.terms().r1c2.value, m.terms().r2c0.times(m.terms().r3c3).minus(m.terms().r3c0.times(m.terms().r2c3)).value);
    V::arithmetic_is_exact(m.terms().r1c0.negated().times(m.terms().r2c2.times(m.terms().r3c3).minus(m.terms().r3c2.times(m.terms().r2c3))).value, m.terms().r1c2.times(m.terms().r2c0.times(m.terms().r3c3).minus(m.terms().r3c0.times(m.terms().r2c3))).value);
    V::arithmetic_is_exact(m.terms().r1c3.value, m.terms().r2c0.times(m.terms().r3c2).minus(m.terms().r3c0.times(m.terms().r2c2)).value);
    V::arithmetic_is_exact(m.terms().r1c0.negated().times(m.terms().r2c2.times(m.terms().r3c3).minus(m.terms().r3c2.times(m.terms().r2c3))).plus(m.terms().r1c2.times(m.terms().r2c0.times(m.terms().r3c3).minus(m.terms().r3c0.times(m.terms().r2c3)))).value, m.terms().r1c3.times(m.terms().r2c0.times(m.terms().r3c2).minus(m.terms().r3c0.times(m.terms().r2c2))).value);
    V::arithmetic_is_exact(m.terms().r0c0.value, m.terms().r2c2.times(m.terms().r3c3).minus(m.terms().r3c2.times(m.terms().r2c3)).value);
    V::arithmetic_is_exact(m.terms().r0c2.value, m.terms().r2c0.times(m.terms().r3c3).minus(m.terms().r3c0.times(m.terms().r2c3)).value);
    V::arithmetic_is_exact(m.terms().r0c0.times(m.terms().r2c2.times(m.terms().r3c3).minus(m.terms().r3c2.times(m.terms().r2c3))).value, m.terms().r0c2.times(m.terms().r2c0.times(m.terms().r3c3).minus(m.terms().r3c0.times(m.terms().r2c3))).value);
    V::arithmetic_is_exact(m.terms().r0c3.value, m.terms().r2c0.times(m.terms().r3c2).minus(m.terms().r3c0.times(m.terms().r2c2)).value);
    V::arithmetic_is_exact(m.terms().r0c0.times(m.terms().r2c2.times(m.terms().r3c3).minus(m.terms().r3c2.times(m.terms().r2c3))).minus(m.terms().r0c2.times(m.terms().r2c0.times(m.terms().r3c3).minus(m.terms().r3c0.times(m.terms().r2c3)))).value, m.terms().r0c3.times(m.terms().r2c0.times(m.terms().r3c2).minus(m.terms().r3c0.times(m.terms().r2c2))).value);
    V::negation_is_exact(m.terms().r3c0.value);
    V::arithmetic_is_exact(m.terms().r3c0.negated().value, m.terms().r0c2.times(m.terms().r1c3).minus(m.terms().r1c2.times(m.terms().r0c3)).value);
    V::arithmetic_is_exact(m.terms().r3c2.value, m.terms().r0c0.times(m.terms().r1c3).minus(m.terms().r1c0.times(m.terms().r0c3)).value);
    V::arithmetic_is_exact(m.terms().r3c0.negated().times(m.terms().r0c2.times(m.terms().r1c3).minus(m.terms().r1c2.times(m.terms().r0c3))).value, m.terms().r3c2.times(m.terms().r0c0.times(m.terms().r1c3).minus(m.terms().r1c0.times(m.terms().r0c3))).value);
    V::arithmetic_is_exact(m.terms().r3c3.value, m.terms().r0c0.times(m.terms().r1c2).minus(m.terms().r1c0.times(m.terms().r0c2)).value);
    V::arithmetic_is_exact(m.terms().r3c0.negated().times(m.terms().r0c2.times(m.terms().r1c3).minus(m.terms().r1c2.times(m.terms().r0c3))).plus(m.terms().r3c2.times(m.terms().r0c0.times(m.terms().r1c3).minus(m.terms().r1c0.times(m.terms().r0c3)))).value, m.terms().r3c3.times(m.terms().r0c0.times(m.terms().r1c2).minus(m.terms().r1c0.times(m.terms().r0c2))).value);
    V::arithmetic_is_exact(m.terms().r2c0.value, m.terms().r0c2.times(m.terms().r1c3).minus(m.terms().r1c2.times(m.terms().r0c3)).value);
    V::arithmetic_is_exact(m.terms().r2c2.value, m.terms().r0c0.times(m.terms().r1c3).minus(m.terms().r1c0.times(m.terms().r0c3)).value);
    V::arithmetic_is_exact(m.terms().r2c0.times(m.terms().r0c2.times(m.terms().r1c3).minus(m.terms().r1c2.times(m.terms().r0c3))).value, m.terms().r2c2.times(m.terms().r0c0.times(m.terms().r1c3).minus(m.terms().r1c0.times(m.terms().r0c3))).value);
    V::arithmetic_is_exact(m.terms().r2c3.value, m.terms().r0c0.times(m.terms().r1c2).minus(m.terms().r1c0.times(m.terms().r0c2)).value);
    V::arithmetic_is_exact(m.terms().r2c0.times(m.terms().r0c2.times(m.terms().r1c3).minus(m.terms().r1c2.times(m.terms().r0c3))).minus(m.terms().r2c2.times(m.terms().r0c0.times(m.terms().r1c3).minus(m.terms().r1c0.times(m.terms().r0c3)))).value, m.terms().r2c3.times(m.terms().r0c0.times(m.terms().r1c2).minus(m.terms().r1c0.times(m.terms().r0c2))).value);
    V::arithmetic_is_exact(m.terms().r1c0.value, m.terms().r2c1.times(m.terms().r3c3).minus(m.terms().r3c1.times(m.terms().r2c3)).value);
    V::arithmetic_is_exact(m.terms().r1c1.value, m.terms().r2c0.times(m.terms().r3c3).minus(m.terms().r3c0.times(m.terms().r2c3)).value);
    V::arithmetic_is_exact(m.terms().r1c0.times(m.terms().r2c1.times(m.terms().r3c3).minus(m.terms().r3c1.times(m.terms().r2c3))).value, m.terms().r1c1.times(m.terms().r2c0.times(m.terms().r3c3).minus(m.terms().r3c0.times(m.terms().r2c3))).value);
    V::arithmetic_is_exact(m.terms().r1c3.value, m.terms().r2c0.times(m.terms().r3c1).minus(m.terms().r3c0.times(m.terms().r2c1)).value);
    V::arithmetic_is_exact(m.terms().r1c0.times(m.terms().r2c1.times(m.terms().r3c3).minus(m.terms().r3c1.times(m.terms().r2c3))).minus(m.terms().r1c1.times(m.terms().r2c0.times(m.terms().r3c3).minus(m.terms().r3c0.times(m.terms().r2c3)))).value, m.terms().r1c3.times(m.terms().r2c0.times(m.terms().r3c1).minus(m.terms().r3c0.times(m.terms().r2c1))).value);
    V::negation_is_exact(m.terms().r0c0.value);
    V::arithmetic_is_exact(m.terms().r0c0.negated().value, m.terms().r2c1.times(m.terms().r3c3).minus(m.terms().r3c1.times(m.terms().r2c3)).value);
    V::arithmetic_is_exact(m.terms().r0c1.value, m.terms().r2c0.times(m.terms().r3c3).minus(m.terms().r3c0.times(m.terms().r2c3)).value);
    V::arithmetic_is_exact(m.terms().r0c0.negated().times(m.terms().r2c1.times(m.terms().r3c3).minus(m.terms().r3c1.times(m.terms().r2c3))).value, m.terms().r0c1.times(m.terms().r2c0.times(m.terms().r3c3).minus(m.terms().r3c0.times(m.terms().r2c3))).value);
    V::arithmetic_is_exact(m.terms().r0c3.value, m.terms().r2c0.times(m.terms().r3c1).minus(m.terms().r3c0.times(m.terms().r2c1)).value);
    V::arithmetic_is_exact(m.terms().r0c0.negated().times(m.terms().r2c1.times(m.terms().r3c3).minus(m.terms().r3c1.times(m.terms().r2c3))).plus(m.terms().r0c1.times(m.terms().r2c0.times(m.terms().r3c3).minus(m.terms().r3c0.times(m.terms().r2c3)))).value, m.terms().r0c3.times(m.terms().r2c0.times(m.terms().r3c1).minus(m.terms().r3c0.times(m.terms().r2c1))).value);
    V::arithmetic_is_exact(m.terms().r3c0.value, m.terms().r0c1.times(m.terms().r1c3).minus(m.terms().r1c1.times(m.terms().r0c3)).value);
    V::arithmetic_is_exact(m.terms().r3c1.value, m.terms().r0c0.times(m.terms().r1c3).minus(m.terms().r1c0.times(m.terms().r0c3)).value);
    V::arithmetic_is_exact(m.terms().r3c0.times(m.terms().r0c1.times(m.terms().r1c3).minus(m.terms().r1c1.times(m.terms().r0c3))).value, m.terms().r3c1.times(m.terms().r0c0.times(m.terms().r1c3).minus(m.terms().r1c0.times(m.terms().r0c3))).value);
    V::arithmetic_is_exact(m.terms().r3c3.value, m.terms().r0c0.times(m.terms().r1c1).minus(m.terms().r1c0.times(m.terms().r0c1)).value);
    V::arithmetic_is_exact(m.terms().r3c0.times(m.terms().r0c1.times(m.terms().r1c3).minus(m.terms().r1c1.times(m.terms().r0c3))).minus(m.terms().r3c1.times(m.terms().r0c0.times(m.terms().r1c3).minus(m.terms().r1c0.times(m.terms().r0c3)))).value, m.terms().r3c3.times(m.terms().r0c0.times(m.terms().r1c1).minus(m.terms().r1c0.times(m.terms().r0c1))).value);
    V::negation_is_exact(m.terms().r2c0.value);
    V::arithmetic_is_exact(m.terms().r2c0.negated().value, m.terms().r0c1.times(m.terms().r1c3).minus(m.terms().r1c1.times(m.terms().r0c3)).value);
    V::arithmetic_is_exact(m.terms().r2c1.value, m.terms().r0c0.times(m.terms().r1c3).minus(m.terms().r1c0.times(m.terms().r0c3)).value);
    V::arithmetic_is_exact(m.terms().r2c0.negated().times(m.terms().r0c1.times(m.terms().r1c3).minus(m.terms().r1c1.times(m.terms().r0c3))).value, m.terms().r2c1.times(m.terms().r0c0.times(m.terms().r1c3).minus(m.terms().r1c0.times(m.terms().r0c3))).value);
    V::arithmetic_is_exact(m.terms().r2c3.value, m.terms().r0c0.times(m.terms().r1c1).minus(m.terms().r1c0.times(m.terms().r0c1)).value);
    V::arithmetic_is_exact(m.terms().r2c0.negated().times(m.terms().r0c1.times(m.terms().r1c3).minus(m.terms().r1c1.times(m.terms().r0c3))).plus(m.terms().r2c1.times(m.terms().r0c0.times(m.terms().r1c3).minus(m.terms().r1c0.times(m.terms().r0c3)))).value, m.terms().r2c3.times(m.terms().r0c0.times(m.terms().r1c1).minus(m.terms().r1c0.times(m.terms().r0c1))).value);
    V::arithmetic_is_exact(m.terms().r1c0.negated().value, m.terms().r2c1.times(m.terms().r3c2).minus(m.terms().r3c1.times(m.terms().r2c2)).value);
    V::arithmetic_is_exact(m.terms().r1c1.value, m.terms().r2c0.times(m.terms().r3c2).minus(m.terms().r3c0.times(m.terms().r2c2)).value);
    V::arithmetic_is_exact(m.terms().r1c0.negated().times(m.terms().r2c1.times(m.terms().r3c2).minus(m.terms().r3c1.times(m.terms().r2c2))).value, m.terms().r1c1.times(m.terms().r2c0.times(m.terms().r3c2).minus(m.terms().r3c0.times(m.terms().r2c2))).value);
    V::arithmetic_is_exact(m.terms().r1c2.value, m.terms().r2c0.times(m.terms().r3c1).minus(m.terms().r3c0.times(m.terms().r2c1)).value);
    V::arithmetic_is_exact(m.terms().r1c0.negated().times(m.terms().r2c1.times(m.terms().r3c2).minus(m.terms().r3c1.times(m.terms().r2c2))).plus(m.terms().r1c1.times(m.terms().r2c0.times(m.terms().r3c2).minus(m.terms().r3c0.times(m.terms().r2c2)))).value, m.terms().r1c2.times(m.terms().r2c0.times(m.terms().r3c1).minus(m.terms().r3c0.times(m.terms().r2c1))).value);
    V::arithmetic_is_exact(m.terms().r0c0.value, m.terms().r2c1.times(m.terms().r3c2).minus(m.terms().r3c1.times(m.terms().r2c2)).value);
    V::arithmetic_is_exact(m.terms().r0c1.value, m.terms().r2c0.times(m.terms().r3c2).minus(m.terms().r3c0.times(m.terms().r2c2)).value);
    V::arithmetic_is_exact(m.terms().r0c0.times(m.terms().r2c1.times(m.terms().r3c2).minus(m.terms().r3c1.times(m.terms().r2c2))).value, m.terms().r0c1.times(m.terms().r2c0.times(m.terms().r3c2).minus(m.terms().r3c0.times(m.terms().r2c2))).value);
    V::arithmetic_is_exact(m.terms().r0c2.value, m.terms().r2c0.times(m.terms().r3c1).minus(m.terms().r3c0.times(m.terms().r2c1)).value);
    V::arithmetic_is_exact(m.terms().r0c0.times(m.terms().r2c1.times(m.terms().r3c2).minus(m.terms().r3c1.times(m.terms().r2c2))).minus(m.terms().r0c1.times(m.terms().r2c0.times(m.terms().r3c2).minus(m.terms().r3c0.times(m.terms().r2c2)))).value, m.terms().r0c2.times(m.terms().r2c0.times(m.terms().r3c1).minus(m.terms().r3c0.times(m.terms().r2c1))).value);
    V::arithmetic_is_exact(m.terms().r3c0.negated().value, m.terms().r0c1.times(m.terms().r1c2).minus(m.terms().r1c1.times(m.terms().r0c2)).value);
    V::arithmetic_is_exact(m.terms().r3c1.value, m.terms().r0c0.times(m.terms().r1c2).minus(m.terms().r1c0.times(m.terms().r0c2)).value);
    V::arithmetic_is_exact(m.terms().r3c0.negated().times(m.terms().r0c1.times(m.terms().r1c2).minus(m.terms().r1c1.times(m.terms().r0c2))).value, m.terms().r3c1.times(m.terms().r0c0.times(m.terms().r1c2).minus(m.terms().r1c0.times(m.terms().r0c2))).value);
    V::arithmetic_is_exact(m.terms().r3c2.value, m.terms().r0c0.times(m.terms().r1c1).minus(m.terms().r1c0.times(m.terms().r0c1)).value);
    V::arithmetic_is_exact(m.terms().r3c0.negated().times(m.terms().r0c1.times(m.terms().r1c2).minus(m.terms().r1c1.times(m.terms().r0c2))).plus(m.terms().r3c1.times(m.terms().r0c0.times(m.terms().r1c2).minus(m.terms().r1c0.times(m.terms().r0c2)))).value, m.terms().r3c2.times(m.terms().r0c0.times(m.terms().r1c1).minus(m.terms().r1c0.times(m.terms().r0c1))).value);
    V::arithmetic_is_exact(m.terms().r2c0.value, m.terms().r0c1.times(m.terms().r1c2).minus(m.terms().r1c1.times(m.terms().r0c2)).value);
    V::arithmetic_is_exact(m.terms().r2c1.value, m.terms().r0c0.times(m.terms().r1c2).minus(m.terms().r1c0.times(m.terms().r0c2)).value);
    V::arithmetic_is_exact(m.terms().r2c0.times(m.terms().r0c1.times(m.terms().r1c2).minus(m.terms().r1c1.times(m.terms().r0c2))).value, m.terms().r2c1.times(m.terms().r0c0.times(m.terms().r1c2).minus(m.terms().r1c0.times(m.terms().r0c2))).value);
    V::arithmetic_is_exact(m.terms().r2c2.value, m.terms().r0c0.times(m.terms().r1c1).minus(m.terms().r1c0.times(m.terms().r0c1)).value);
    V::arithmetic_is_exact(m.terms().r2c0.times(m.terms().r0c1.times(m.terms().r1c2).minus(m.terms().r1c1.times(m.terms().r0c2))).minus(m.terms().r2c1.times(m.terms().r0c0.times(m.terms().r1c2).minus(m.terms().r1c0.times(m.terms().r0c2)))).value, m.terms().r2c2.times(m.terms().r0c0.times(m.terms().r1c1).minus(m.terms().r1c0.times(m.terms().r0c1))).value);
}

} // verus!
