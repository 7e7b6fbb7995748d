//! The algebra of the quaternions, over the integers.
use crate::traits::Ring;
use crate::types::quat::QuatModel;
use crate::types::vec3::Vec3Model;
use vstd::prelude::*;

verus! {

proof fn lemma_quat_square_is_own_product_s(q: QuatModel<int>)
    ensures
        q.square().s == q.times(q).s,
{
}

proof fn lemma_quat_square_is_own_product_v_x(q: QuatModel<int>)
    ensures
        q.square().v.x == q.times(q).v.x,
{
    assert((q.v.x * (q.s + q.s)) == (q.v.x * q.s) + (q.v.x * q.s)) by (nonlinear_arith);
    assert((q.v.x * q.s) == q.s * q.v.x) by (nonlinear_arith);
    assert((q.v.z * q.v.y) == q.v.y * q.v.z) by (nonlinear_arith);
}

proof fn lemma_quat_square_is_own_product_v_y(q: QuatModel<int>)
    ensures
        q.square().v.y == q.times(q).v.y,
{
    assert((q.v.y * (q.s + q.s)) == (q.v.y * q.s) + (q.v.y * q.s)) by (nonlinear_arith);
    assert((q.v.y * q.s) == q.s * q.v.y) by (nonlinear_arith);
    assert((q.v.z * q.v.x) == q.v.x * q.v.z) by (nonlinear_arith);
}

proof fn lemma_quat_square_is_own_product_v_z(q: QuatModel<int>)
    ensures
        q.square().v.z == q.times(q).v.z,
{
    assert((q.v.z * (q.s + q.s)) == (q.v.z * q.s) + (q.v.z * q.s)) by (nonlinear_arith);
    assert((q.v.z * q.s) == q.s * q.v.z) by (nonlinear_arith);
    assert((q.v.y * q.v.x) == q.v.x * q.v.y) by (nonlinear_arith);
}

/// The square of a quaternion, by its own formula, is the product of the quaternion with itself.
pub proof fn lemma_quat_square_is_own_product(q: QuatModel<int>)
    ensures
        q.square() == q.times(q),
{
    lemma_quat_square_is_own_product_s(q);
    lemma_quat_square_is_own_product_v_x(q);
    lemma_quat_square_is_own_product_v_y(q);
    lemma_quat_square_is_own_product_v_z(q);
}

proof fn lemma_quat_product_associates_s(p: QuatModel<int>, q: QuatModel<int>, r: QuatModel<int>)
    ensures
        p.times(q).times(r).s == p.times(q.times(r)).s,
{
    assert((((p.s * q.s) - (((p.v.x * q.v.x) + (p.v.y * q.v.y)) + (p.v.z * q.v.z))) * r.s)
        == ((p.s * q.s) * r.s) - ((p.v.x * q.v.x) * r.s) - ((p.v.y * q.v.y) * r.s) - ((p.v.z * q.v.z) * r.s)) by (nonlinear_arith);
    assert(((p.s * q.s) * r.s) == p.s * q.s * r.s) by (nonlinear_arith);
    assert(((p.v.x * q.v.x) * r.s) == p.v.x * q.v.x * r.s) by (nonlinear_arith);
    assert(((p.v.y * q.v.y) * r.s) == p.v.y * q.v.y * r.s) by (nonlinear_arith);
    assert(((p.v.z * q.v.z) * r.s) == p.v.z * q.v.z * r.s) by (nonlinear_arith);
    assert(((((q.v.x * p.s) + (p.v.x * q.s)) + ((p.v.y * q.v.z) - (p.v.z * q.v.y))) * r.v.x)
        == ((q.v.x * p.s) * r.v.x) + ((p.v.x * q.s) * r.v.x) + ((p.v.y * q.v.z) * r.v.x) - ((p.v.z * q.v.y) * r.v.x)) by (nonlinear_arith);
    assert(((q.v.x * p.s) * r.v.x) == p.s * q.v.x * r.v.x) by (nonlinear_arith);
    assert(((p.v.x * q.s) * r.v.x) == p.v.x * q.s * r.v.x) by (nonlinear_arith);
    assert(((p.v.y * q.v.z) * r.v.x) == p.v.y * q.v.z * r.v.x) by (nonlinear_arith);
    assert(((p.v.z * q.v.y) * r.v.x) == p.v.z * q.v.y * r.v.x) by (nonlinear_arith);
    assert(((((q.v.y * p.s) + (p.v.y * q.s)) + ((p.v.z * q.v.x) - (p.v.x * q.v.z))) * r.v.y)
        == ((q.v.y * p.s) * r.v.y) + ((p.v.y * q.s) * r.v.y) + ((p.v.z * q.v.x) * r.v.y) - ((p.v.x * q.v.z) * r.v.y)) by (nonlinear_arith);
    assert(((q.v.y * p.s) * r.v.y) == p.s * q.v.y * r.v.y) by (nonlinear_arith);
    assert(((p.v.y * q.s) * r.v.y) == p.v.y * q.s * r.v.y) by (nonlinear_arith);
    assert(((p.v.z * q.v.x) * r.v.y) == p.v.z * q.v.x * r.v.y) by (nonlinear_arith);
    assert(((p.v.x * q.v.z) * r.v.y) == p.v.x * q.v.z * r.v.y) by (nonlinear_arith);
    assert(((((q.v.z * p.s) + (p.v.z * q.s)) + ((p.v.x * q.v.y) - (p.v.y * q.v.x))) * r.v.z)
        == ((q.v.z * p.s) * r.v.z) + ((p.v.z * q.s) * r.v.z) + ((p.v.x * q.v.y) * r.v.z) - ((p.v.y * q.v.x) * r.v.z)) by (nonlinear_arith);
    assert(((q.v.z * p.s) * r.v.z) == p.s * q.v.z * r.v.z) by (nonlinear_arith);
    assert(((p.v.z * q.s) * r.v.z) == p.v.z * q.s * r.v.z) by (nonlinear_arith);
    assert(((p.v.x * q.v.y) * r.v.z) == p.v.x * q.v.y * r.v.z) by (nonlinear_arith);
    assert(((p.v.y * q.v.x) * r.v.z) == p.v.y * q.v.x * r.v.z) by (nonlinear_arith);
    assert((p.s * ((q.s * r.s) - (((q.v.x * r.v.x) + (q.v.y * r.v.y)) + (q.v.z * r.v.z))))
        == (p.s * (q.s * r.s)) - (p.s * (q.v.x * r.v.x)) - (p.s * (q.v.y * r.v.y)) - (p.s * (q.v.z * r.v.z))) by (nonlinear_arith);
    assert((p.s * (q.s * r.s)) == p.s * q.s * r.s) by (nonlinear_arith);
    assert((p.s * (q.v.x * r.v.x)) == p.s * q.v.x * r.v.x) by (nonlinear_arith);
    assert((p.s * (q.v.y * r.v.y)) == p.s * q.v.y * r.v.y) by (nonlinear_arith);
    assert((p.s * (q.v.z * r.v.z)) == p.s * q.v.z * r.v.z) by (nonlinear_arith);
    assert((p.v.x * (((r.v.x * q.s) + (q.v.x * r.s)) + ((q.v.y * r.v.z) - (q.v.z * r.v.y))))
        == (p.v.x * (r.v.x * q.s)) + (p.v.x * (q.v.x * r.s)) + (p.v.x * (q.v.y * r.v.z)) - (p.v.x * (q.v.z * r.v.y))) by (nonlinear_arith);
    assert((p.v.x * (r.v.x * q.s)) == p.v.x * q.s * r.v.x) by (nonlinear_arith);
    assert((p.v.x * (q.v.x * r.s)) == p.v.x * q.v.x * r.s) by (nonlinear_arith);
    assert((p.v.x * (q.v.y * r.v.z)) == p.v.x * q.v.y * r.v.z) by (nonlinear_arith);
    assert((p.v.x * (q.v.z * r.v.y)) == p.v.x * q.v.z * r.v.y) by (nonlinear_arith);
    assert((p.v.y * (((r.v.y * q.s) + (q.v.y * r.s)) + ((q.v.z * r.v.x) - (q.v.x * r.v.z))))
        == (p.v.y * (r.v.y * q.s)) + (p.v.y * (q.v.y * r.s)) + (p.v.y * (q.v.z * r.v.x)) - (p.v.y * (q.v.x * r.v.z))) by (nonlinear_arith);
    assert((p.v.y * (r.v.y * q.s)) == p.v.y * q.s * r.v.y) by (nonlinear_arith);
    assert((p.v.y * (q.v.y * r.s)) == p.v.y * q.v.y * r.s) by (nonlinear_arith);
    assert((p.v.y * (q.v.z * r.v.x)) == p.v.y * q.v.z * r.v.x) by (nonlinear_arith);
    assert((p.v.y * (q.v.x * r.v.z)) == p.v.y * q.v.x * r.v.z) by (nonlinear_arith);
    assert((p.v.z * (((r.v.z * q.s) + (q.v.z * r.s)) + ((q.v.x * r.v.y) - (q.v.y * r.v.x))))
        == (p.v.z * (r.v.z * q.s)) + (p.v.z * (q.v.z * r.s)) + (p.v.z * (q.v.x * r.v.y)) - (p.v.z * (q.v.y * r.v.x))) by (nonlinear_arith);
    assert((p.v.z * (r.v.z * q.s)) == p.v.z * q.s * r.v.z) by (nonlinear_arith);
    assert((p.v.z * (q.v.z * r.s)) == p.v.z * q.v.z * r.s) by (nonlinear_arith);
    assert((p.v.z * (q.v.x * r.v.y)) == p.v.z * q.v.x * r.v.y) by (nonlinear_arith);
    assert((p.v.z * (q.v.y * r.v.x)) == p.v.z * q.v.y * r.v.x) by (nonlinear_arith);
}

proof fn lemma_quat_product_associates_v_x(p: QuatModel<int>, q: QuatModel<int>, r: QuatModel<int>)
    ensures
        p.times(q).times(r).v.x == p.times(q.times(r)).v.x,
{
    assert((r.v.x * ((p.s * q.s) - (((p.v.x * q.v.x) + (p.v.y * q.v.y)) + (p.v.z * q.v.z))))
        == (r.v.x * (p.s * q.s)) - (r.v.x * (p.v.x * q.v.x)) - (r.v.x * (p.v.y * q.v.y)) - (r.v.x * (p.v.z * q.v.z))) by (nonlinear_arith);
    assert((r.v.x * (p.s * q.s)) == p.s * q.s * r.v.x) by (nonlinear_arith);
    assert((r.v.x * (p.v.x * q.v.x)) == p.v.x * q.v.x * r.v.x) by (nonlinear_arith);
    assert((r.v.x * (p.v.y * q.v.y)) == p.v.y * q.v.y * r.v.x) by (nonlinear_arith);
    assert((r.v.x * (p.v.z * q.v.z)) == p.v.z * q.v.z * r.v.x) by (nonlinear_arith);
    assert(((((q.v.x * p.s) + (p.v.x * q.s)) + ((p.v.y * q.v.z) - (p.v.z * q.v.y))) * r.s)
        == ((q.v.x * p.s) * r.s) + ((p.v.x * q.s) * r.s) + ((p.v.y * q.v.z) * r.s) - ((p.v.z * q.v.y) * r.s)) by (nonlinear_arith);
    assert(((q.v.x * p.s) * r.s) == p.s * q.v.x * r.s) by (nonlinear_arith);
    assert(((p.v.x * q.s) * r.s) == p.v.x * q.s * r.s) by (nonlinear_arith);
    assert(((p.v.y * q.v.z) * r.s) == p.v.y * q.v.z * r.s) by (nonlinear_arith);
    assert(((p.v.z * q.v.y) * r.s) == p.v.z * q.v.y * r.s) by (nonlinear_arith);
    assert(((((q.v.y * p.s) + (p.v.y * q.s)) + ((p.v.z * q.v.x) - (p.v.x * q.v.z))) * r.v.z)
        == ((q.v.y * p.s) * r.v.z) + ((p.v.y * q.s) * r.v.z) + ((p.v.z * q.v.x) * r.v.z) - ((p.v.x * q.v.z) * r.v.z)) by (nonlinear_arith);
    assert(((q.v.y * p.s) * r.v.z) == p.s * q.v.y * r.v.z) by (nonlinear_arith);
    assert(((p.v.y * q.s) * r.v.z) == p.v.y * q.s * r.v.z) by (nonlinear_arith);
    assert(((p.v.z * q.v.x) * r.v.z) == p.v.z * q.v.x * r.v.z) by (nonlinear_arith);
    assert(((p.v.x * q.v.z) * r.v.z) == p.v.x * q.v.z * r.v.z) by (nonlinear_arith);
    assert(((((q.v.z * p.s) + (p.v.z * q.s)) + ((p.v.x * q.v.y) - (p.v.y * q.v.x))) * r.v.y)
        == ((q.v.z * p.s) * r.v.y) + ((p.v.z * q.s) * r.v.y) + ((p.v.x * q.v.y) * r.v.y) - ((p.v.y * q.v.x) * r.v.y)) by (nonlinear_arith);
    assert(((q.v.z * p.s) * r.v.y) == p.s * q.v.z * r.v.y) by (nonlinear_arith);
    assert(((p.v.z * q.s) * r.v.y) == p.v.z * q.s * r.v.y) by (nonlinear_arith);
    assert(((p.v.x * q.v.y) * r.v.y) == p.v.x * q.v.y * r.v.y) by (nonlinear_arith);
    assert(((p.v.y * q.v.x) * r.v.y) == p.v.y * q.v.x * r.v.y) by (nonlinear_arith);
    assert(((((r.v.x * q.s) + (q.v.x * r.s)) + ((q.v.y * r.v.z) - (q.v.z * r.v.y))) * p.s)
        == ((r.v.x * q.s) * p.s) + ((q.v.x * r.s) * p.s) + ((q.v.y * r.v.z) * p.s) - ((q.v.z * r.v.y) * p.s)) by (nonlinear_arith);
    assert(((r.v.x * q.s) * p.s) == p.s * q.s * r.v.x) by (nonlinear_arith);
    assert(((q.v.x * r.s) * p.s) == p.s * q.v.x * r.s) by (nonlinear_arith);
    assert(((q.v.y * r.v.z) * p.s) == p.s * q.v.y * r.v.z) by (nonlinear_arith);
    assert(((q.v.z * r.v.y) * p.s) == p.s * q.v.z * r.v.y) by (nonlinear_arith);
    assert((p.v.x * ((q.s * r.s) - (((q.v.x * r.v.x) + (q.v.y * r.v.y)) + (q.v.z * r.v.z))))
        == (p.v.x * (q.s * r.s)) - (p.v.x * (q.v.x * r.v.x)) - (p.v.x * (q.v.y * r.v.y)) - (p.v.x * (q.v.z * r.v.z))) by (nonlinear_arith);
    assert((p.v.x * (q.s * r.s)) == p.v.x * q.s * r.s) by (nonlinear_arith);
    assert((p.v.x * (q.v.x * r.v.x)) == p.v.x * q.v.x * r.v.x) by (nonlinear_arith);
    assert((p.v.x * (q.v.y * r.v.y)) == p.v.x * q.v.y * r.v.y) by (nonlinear_arith);
    assert((p.v.x * (q.v.z * r.v.z)) == p.v.x * q.v.z * r.v.z) by (nonlinear_arith);
    assert((p.v.y * (((r.v.z * q.s) + (q.v.z * r.s)) + ((q.v.x * r.v.y) - (q.v.y * r.v.x))))
        == (p.v.y * (r.v.z * q.s)) + (p.v.y * (q.v.z * r.s)) + (p.v.y * (q.v.x * r.v.y)) - (p.v.y * (q.v.y * r.v.x))) by (nonlinear_arith);
    assert((p.v.y * (r.v.z * q.s)) == p.v.y * q.s * r.v.z) by (nonlinear_arith);
    assert((p.v.y * (q.v.z * r.s)) == p.v.y * q.v.z * r.s) by (nonlinear_arith);
    assert((p.v.y * (q.v.x * r.v.y)) == p.v.y * q.v.x * r.v.y) by (nonlinear_arith);
    assert((p.v.y * (q.v.y * r.v.x)) == p.v.y * q.v.y * r.v.x) by (nonlinear_arith);
    assert((p.v.z * (((r.v.y * q.s) + (q.v.y * r.s)) + ((q.v.z * r.v.x) - (q.v.x * r.v.z))))
        == (p.v.z * (r.v.y * q.s)) + (p.v.z * (q.v.y * r.s)) + (p.v.z * (q.v.z * r.v.x)) - (p.v.z * (q.v.x * r.v.z))) by (nonlinear_arith);
    assert((p.v.z * (r.v.y * q.s)) == p.v.z * q.s * r.v.y) by (nonlinear_arith);
    assert((p.v.z * (q.v.y * r.s)) == p.v.z * q.v.y * r.s) by (nonlinear_arith);
    assert((p.v.z * (q.v.z * r.v.x)) == p.v.z * q.v.z * r.v.x) by (nonlinear_arith);
    assert((p.v.z * (q.v.x * r.v.z)) == p.v.z * q.v.x * r.v.z) by (nonlinear_arith);
}

proof fn lemma_quat_product_associates_v_y(p: QuatModel<int>, q: QuatModel<int>, r: QuatModel<int>)
    ensures
        p.times(q).times(r).v.y == p.times(q.times(r)).v.y,
{
    assert((r.v.y * ((p.s * q.s) - (((p.v.x * q.v.x) + (p.v.y * q.v.y)) + (p.v.z * q.v.z))))
        == (r.v.y * (p.s * q.s)) - (r.v.y * (p.v.x * q.v.x)) - (r.v.y * (p.v.y * q.v.y)) - (r.v.y * (p.v.z * q.v.z))) by (nonlinear_arith);
    assert((r.v.y * (p.s * q.s)) == p.s * q.s * r.v.y) by (nonlinear_arith);
    assert((r.v.y * (p.v.x * q.v.x)) == p.v.x * q.v.x * r.v.y) by (nonlinear_arith);
    assert((r.v.y * (p.v.y * q.v.y)) == p.v.y * q.v.y * r.v.y) by (nonlinear_arith);
    assert((r.v.y * (p.v.z * q.v.z)) == p.v.z * q.v.z * r.v.y) by (nonlinear_arith);
    assert(((((q.v.y * p.s) + (p.v.y * q.s)) + ((p.v.z * q.v.x) - (p.v.x * q.v.z))) * r.s)
        == ((q.v.y * p.s) * r.s) + ((p.v.y * q.s) * r.s) + ((p.v.z * q.v.x) * r.s) - ((p.v.x * q.v.z) * r.s)) by (nonlinear_arith);
    assert(((q.v.y * p.s) * r.s) == p.s * q.v.y * r.s) by (nonlinear_arith);
    assert(((p.v.y * q.s) * r.s) == p.v.y * q.s * r.s) by (nonlinear_arith);
    assert(((p.v.z * q.v.x) * r.s) == p.v.z * q.v.x * r.s) by (nonlinear_arith);
    assert(((p.v.x * q.v.z) * r.s) == p.v.x * q.v.z * r.s) by (nonlinear_arith);
    assert(((((q.v.z * p.s) + (p.v.z * q.s)) + ((p.v.x * q.v.y) - (p.v.y * q.v.x))) * r.v.x)
        == ((q.v.z * p.s) * r.v.x) + ((p.v.z * q.s) * r.v.x) + ((p.v.x * q.v.y) * r.v.x) - ((p.v.y * q.v.x) * r.v.x)) by (nonlinear_arith);
    assert(((q.v.z * p.s) * r.v.x) == p.s * q.v.z * r.v.x) by (nonlinear_arith);
    assert(((p.v.z * q.s) * r.v.x) == p.v.z * q.s * r.v.x) by (nonlinear_arith);
    assert(((p.v.x * q.v.y) * r.v.x) == p.v.x * q.v.y * r.v.x) by (nonlinear_arith);
    assert(((p.v.y * q.v.x) * r.v.x) == p.v.y * q.v.x * r.v.x) by (nonlinear_arith);
    assert(((((q.v.x * p.s) + (p.v.x * q.s)) + ((p.v.y * q.v.z) - (p.v.z * q.v.y))) * r.v.z)
        == ((q.v.x * p.s) * r.v.z) + ((p.v.x * q.s) * r.v.z) + ((p.v.y * q.v.z) * r.v.z) - ((p.v.z * q.v.y) * r.v.z)) by (nonlinear_arith);
    assert(((q.v.x * p.s) * r.v.z) == p.s * q.v.x * r.v.z) by (nonlinear_arith);
    assert(((p.v.x * q.s) * r.v.z) == p.v.x * q.s * r.v.z) by (nonlinear_arith);
    assert(((p.v.y * q.v.z) * r.v.z) == p.v.y * q.v.z * r.v.z) by (nonlinear_arith);
    assert(((p.v.z * q.v.y) * r.v.z) == p.v.z * q.v.y * r.v.z) by (nonlinear_arith);
    assert(((((r.v.y * q.s) + (q.v.y * r.s)) + ((q.v.z * r.v.x) - (q.v.x * r.v.z))) * p.s)
        == ((r.v.y * q.s) * p.s) + ((q.v.y * r.s) * p.s) + ((q.v.z * r.v.x) * p.s) - ((q.v.x * r.v.z) * p.s)) by (nonlinear_arith);
    assert(((r.v.y * q.s) * p.s) == p.s * q.s * r.v.y) by (nonlinear_arith);
    assert(((q.v.y * r.s) * p.s) == p.s * q.v.y * r.s) by (nonlinear_arith);
    assert(((q.v.z * r.v.x) * p.s) == p.s * q.v.z * r.v.x) by (nonlinear_arith);
    assert(((q.v.x * r.v.z) * p.s) == p.s * q.v.x * r.v.z) by (nonlinear_arith);
    assert((p.v.y * ((q.s * r.s) - (((q.v.x * r.v.x) + (q.v.y * r.v.y)) + (q.v.z * r.v.z))))
        == (p.v.y * (q.s * r.s)) - (p.v.y * (q.v.x * r.v.x)) - (p.v.y * (q.v.y * r.v.y)) - (p.v.y * (q.v.z * r.v.z))) by (nonlinear_arith);
    assert((p.v.y * (q.s * r.s)) == p.v.y * q.s * r.s) by (nonlinear_arith);
    assert((p.v.y * (q.v.x * r.v.x)) == p.v.y * q.v.x * r.v.x) by (nonlinear_arith);
    assert((p.v.y * (q.v.y * r.v.y)) == p.v.y * q.v.y * r.v.y) by (nonlinear_arith);
    assert((p.v.y * (q.v.z * r.v.z)) == p.v.y * q.v.z * r.v.z) by (nonlinear_arith);
    assert((p.v.z * (((r.v.x * q.s) + (q.v.x * r.s)) + ((q.v.y * r.v.z) - (q.v.z * r.v.y))))
        == (p.v.z * (r.v.x * q.s)) + (p.v.z * (q.v.x * r.s)) + (p.v.z * (q.v.y * r.v.z)) - (p.v.z * (q.v.z * r.v.y))) by (nonlinear_arith);
    assert((p.v.z * (r.v.x * q.s)) == p.v.z * q.s * r.v.x) by (nonlinear_arith);
    assert((p.v.z * (q.v.x * r.s)) == p.v.z * q.v.x * r.s) by (nonlinear_arith);
    assert((p.v.z * (q.v.y * r.v.z)) == p.v.z * q.v.y * r.v.z) by (nonlinear_arith);
    assert((p.v.z * (q.v.z * r.v.y)) == p.v.z * q.v.z * r.v.y) by (nonlinear_arith);
    assert((p.v.x * (((r.v.z * q.s) + (q.v.z * r.s)) + ((q.v.x * r.v.y) - (q.v.y * r.v.x))))
        == (p.v.x * (r.v.z * q.s)) + (p.v.x * (q.v.z * r.s)) + (p.v.x * (q.v.x * r.v.y)) - (p.v.x * (q.v.y * r.v.x))) by (nonlinear_arith);
    assert((p.v.x * (r.v.z * q.s)) == p.v.x * q.s * r.v.z) by (nonlinear_arith);
    assert((p.v.x * (q.v.z * r.s)) == p.v.x * q.v.z * r.s) by (nonlinear_arith);
    assert((p.v.x * (q.v.x * r.v.y)) == p.v.x * q.v.x * r.v.y) by (nonlinear_arith);
    assert((p.v.x * (q.v.y * r.v.x)) == p.v.x * q.v.y * r.v.x) by (nonlinear_arith);
}

proof fn lemma_quat_product_associates_v_z(p: QuatModel<int>, q: QuatModel<int>, r: QuatModel<int>)
    ensures
        p.times(q).times(r).v.z == p.times(q.times(r)).v.z,
{
    assert((r.v.z * ((p.s * q.s) - (((p.v.x * q.v.x) + (p.v.y * q.v.y)) + (p.v.z * q.v.z))))
        == (r.v.z * (p.s * q.s)) - (r.v.z * (p.v.x * q.v.x)) - (r.v.z * (p.v.y * q.v.y)) - (r.v.z * (p.v.z * q.v.z))) by (nonlinear_arith);
    assert((r.v.z * (p.s * q.s)) == p.s * q.s * r.v.z) by (nonlinear_arith);
    assert((r.v.z * (p.v.x * q.v.x)) == p.v.x * q.v.x * r.v.z) by (nonlinear_arith);
    assert((r.v.z * (p.v.y * q.v.y)) == p.v.y * q.v.y * r.v.z) by (nonlinear_arith);
    assert((r.v.z * (p.v.z * q.v.z)) == p.v.z * q.v.z * r.v.z) by (nonlinear_arith);
    assert(((((q.v.z * p.s) + (p.v.z * q.s)) + ((p.v.x * q.v.y) - (p.v.y * q.v.x))) * r.s)
        == ((q.v.z * p.s) * r.s) + ((p.v.z * q.s) * r.s) + ((p.v.x * q.v.y) * r.s) - ((p.v.y * q.v.x) * r.s)) by (nonlinear_arith);
    assert(((q.v.z * p.s) * r.s) == p.s * q.v.z * r.s) by (nonlinear_arith);
    assert(((p.v.z * q.s) * r.s) == p.v.z * q.s * r.s) by (nonlinear_arith);
    assert(((p.v.x * q.v.y) * r.s) == p.v.x * q.v.y * r.s) by (nonlinear_arith);
    assert(((p.v.y * q.v.x) * r.s) == p.v.y * q.v.x * r.s) by (nonlinear_arith);
    assert(((((q.v.x * p.s) + (p.v.x * q.s)) + ((p.v.y * q.v.z) - (p.v.z * q.v.y))) * r.v.y)
        == ((q.v.x * p.s) * r.v.y) + ((p.v.x * q.s) * r.v.y) + ((p.v.y * q.v.z) * r.v.y) - ((p.v.z * q.v.y) * r.v.y)) by (nonlinear_arith);
    assert(((q.v.x * p.s) * r.v.y) == p.s * q.v.x * r.v.y) by (nonlinear_arith);
    assert(((p.v.x * q.s) * r.v.y) == p.v.x * q.s * r.v.y) by (nonlinear_arith);
    assert(((p.v.y * q.v.z) * r.v.y) == p.v.y * q.v.z * r.v.y) by (nonlinear_arith);
    assert(((p.v.z * q.v.y) * r.v.y) == p.v.z * q.v.y * r.v.y) by (nonlinear_arith);
    assert(((((q.v.y * p.s) + (p.v.y * q.s)) + ((p.v.z * q.v.x) - (p.v.x * q.v.z))) * r.v.x)
        == ((q.v.y * p.s) * r.v.x) + ((p.v.y * q.s) * r.v.x) + ((p.v.z * q.v.x) * r.v.x) - ((p.v.x * q.v.z) * r.v.x)) by (nonlinear_arith);
    assert(((q.v.y * p.s) * r.v.x) == p.s * q.v.y * r.v.x) by (nonlinear_arith);
    assert(((p.v.y * q.s) * r.v.x) == p.v.y * q.s * r.v.x) by (nonlinear_arith);
    assert(((p.v.z * q.v.x) * r.v.x) == p.v.z * q.v.x * r.v.x) by (nonlinear_arith);
    assert(((p.v.x * q.v.z) * r.v.x) == p.v.x * q.v.z * r.v.x) by (nonlinear_arith);
    assert(((((r.v.z * q.s) + (q.v.z * r.s)) + ((q.v.x * r.v.y) - (q.v.y * r.v.x))) * p.s)
        == ((r.v.z * q.s) * p.s) + ((q.v.z * r.s) * p.s) + ((q.v.x * r.v.y) * p.s) - ((q.v.y * r.v.x) * p.s)) by (nonlinear_arith);
    assert(((r.v.z * q.s) * p.s) == p.s * q.s * r.v.z) by (nonlinear_arith);
    assert(((q.v.z * r.s) * p.s) == p.s * q.v.z * r.s) by (nonlinear_arith);
    assert(((q.v.x * r.v.y) * p.s) == p.s * q.v.x * r.v.y) by (nonlinear_arith);
    assert(((q.v.y * r.v.x) * p.s) == p.s * q.v.y * r.v.x) by (nonlinear_arith);
    assert((p.v.z * ((q.s * r.s) - (((q.v.x * r.v.x) + (q.v.y * r.v.y)) + (q.v.z * r.v.z))))
        == (p.v.z * (q.s * r.s)) - (p.v.z * (q.v.x * r.v.x)) - (p.v.z * (q.v.y * r.v.y)) - (p.v.z * (q.v.z * r.v.z))) by (nonlinear_arith);
    assert((p.v.z * (q.s * r.s)) == p.v.z * q.s * r.s) by (nonlinear_arith);
    assert((p.v.z * (q.v.x * r.v.x)) == p.v.z * q.v.x * r.v.x) by (nonlinear_arith);
    assert((p.v.z * (q.v.y * r.v.y)) == p.v.z * q.v.y * r.v.y) by (nonlinear_arith);
    assert((p.v.z * (q.v.z * r.v.z)) == p.v.z * q.v.z * r.v.z) by (nonlinear_arith);
    assert((p.v.x * (((r.v.y * q.s) + (q.v.y * r.s)) + ((q.v.z * r.v.x) - (q.v.x * r.v.z))))
        == (p.v.x * (r.v.y * q.s)) + (p.v.x * (q.v.y * r.s)) + (p.v.x * (q.v.z * r.v.x)) - (p.v.x * (q.v.x * r.v.z))) by (nonlinear_arith);
    assert((p.v.x * (r.v.y * q.s)) == p.v.x * q.s * r.v.y) by (nonlinear_arith);
    assert((p.v.x * (q.v.y * r.s)) == p.v.x * q.v.y * r.s) by (nonlinear_arith);
    assert((p.v.x * (q.v.z * r.v.x)) == p.v.x * q.v.z * r.v.x) by (nonlinear_arith);
    assert((p.v.x * (q.v.x * r.v.z)) == p.v.x * q.v.x * r.v.z) by (nonlinear_arith);
    assert((p.v.y * (((r.v.x * q.s) + (q.v.x * r.s)) + ((q.v.y * r.v.z) - (q.v.z * r.v.y))))
        == (p.v.y * (r.v.x * q.s)) + (p.v.y * (q.v.x * r.s)) + (p.v.y * (q.v.y * r.v.z)) - (p.v.y * (q.v.z * r.v.y))) by (nonlinear_arith);
    assert((p.v.y * (r.v.x * q.s)) == p.v.y * q.s * r.v.x) by (nonlinear_arith);
    assert((p.v.y * (q.v.x * r.s)) == p.v.y * q.v.x * r.s) by (nonlinear_arith);
    assert((p.v.y * (q.v.y * r.v.z)) == p.v.y * q.v.y * r.v.z) by (nonlinear_arith);
    assert((p.v.y * (q.v.z * r.v.y)) == p.v.y * q.v.z * r.v.y) by (nonlinear_arith);
}

/// The product of quaternions associates. It does not commute.
pub proof fn lemma_quat_product_associates(p: QuatModel<int>, q: QuatModel<int>, r: QuatModel<int>)
    ensures
        p.times(q).times(r) == p.times(q.times(r)),
{
    lemma_quat_product_associates_s(p, q, r);
    lemma_quat_product_associates_v_x(p, q, r);
    lemma_quat_product_associates_v_y(p, q, r);
    lemma_quat_product_associates_v_z(p, q, r);
}

proof fn lemma_quat_times_conjugate_s(q: QuatModel<int>)
    ensures
        q.times(q.conjugate()).s == (QuatModel { s: q.square_magnitude(), v: Vec3Model { x: 0int, y: 0int, z: 0int } }).s,
{
    assert((q.v.x * (-q.v.x)) == 0int - (q.v.x * q.v.x)) by (nonlinear_arith);
    assert((q.v.y * (-q.v.y)) == 0int - (q.v.y * q.v.y)) by (nonlinear_arith);
    assert((q.v.z * (-q.v.z)) == 0int - (q.v.z * q.v.z)) by (nonlinear_arith);
}

proof fn lemma_quat_times_conjugate_v_x(q: QuatModel<int>)
    ensures
        q.times(q.conjugate()).v.x == (QuatModel { s: q.square_magnitude(), v: Vec3Model { x: 0int, y: 0int, z: 0int } }).v.x,
{
    assert(((-q.v.x) * q.s) == 0int - (q.v.x * q.s)) by (nonlinear_arith);
    assert((q.v.x * q.s) == q.s * q.v.x) by (nonlinear_arith);
    assert((q.v.y * (-q.v.z)) == 0int - (q.v.y * q.v.z)) by (nonlinear_arith);
    assert((q.v.z * (-q.v.y)) == 0int - (q.v.z * q.v.y)) by (nonlinear_arith);
    assert((q.v.z * q.v.y) == q.v.y * q.v.z) by (nonlinear_arith);
}

proof fn lemma_quat_times_conjugate_v_y(q: QuatModel<int>)
    ensures
        q.times(q.conjugate()).v.y == (QuatModel { s: q.square_magnitude(), v: Vec3Model { x: 0int, y: 0int, z: 0int } }).v.y,
{
    assert(((-q.v.y) * q.s) == 0int - (q.v.y * q.s)) by (nonlinear_arith);
    assert((q.v.y * q.s) == q.s * q.v.y) by (nonlinear_arith);
    assert((q.v.z * (-q.v.x)) == 0int - (q.v.z * q.v.x)) by (nonlinear_arith);
    assert((q.v.z * q.v.x) == q.v.x * q.v.z) by (nonlinear_arith);
    assert((q.v.x * (-q.v.z)) == 0int - (q.v.x * q.v.z)) by (nonlinear_arith);
}

proof fn lemma_quat_times_conjugate_v_z(q: QuatModel<int>)
    ensures
        q.times(q.conjugate()).v.z == (QuatModel { s: q.square_magnitude(), v: Vec3Model { x: 0int, y: 0int, z: 0int } }).v.z,
{
    assert(((-q.v.z) * q.s) == 0int - (q.v.z * q.s)) by (nonlinear_arith);
    assert((q.v.z * q.s) == q.s * q.v.z) by (nonlinear_arith);
    assert((q.v.x * (-q.v.y)) == 0int - (q.v.x * q.v.y)) by (nonlinear_arith);
    assert((q.v.y * (-q.v.x)) == 0int - (q.v.y * q.v.x)) by (nonlinear_arith);
    assert((q.v.y * q.v.x) == q.v.x * q.v.y) by (nonlinear_arith);
}

/// A quaternion times its conjugate is its square magnitude, with no vector part.
pub proof fn lemma_quat_times_conjugate(q: QuatModel<int>)
    ensures
        q.times(q.conjugate()) == (QuatModel { s: q.square_magnitude(), v: Vec3Model { x: 0int, y: 0int, z: 0int } }),
{
    lemma_quat_times_conjugate_s(q);
    lemma_quat_times_conjugate_v_x(q);
    lemma_quat_times_conjugate_v_y(q);
    lemma_quat_times_conjugate_v_z(q);
}

proof fn lemma_quat_rotation_is_sandwich_x(q: QuatModel<int>, v: Vec3Model<int>)
    ensures
        q.apply_rotation(v).x == q.times(QuatModel::pure(v)).times(q.conjugate()).v.x,
{
    assert((v.x * ((q.s * q.s) - (((q.v.x * q.v.x) + (q.v.y * q.v.y)) + (q.v.z * q.v.z))))
        == (v.x * (q.s * q.s)) - (v.x * (q.v.x * q.v.x)) - (v.x * (q.v.y * q.v.y)) - (v.x * (q.v.z * q.v.z))) by (nonlinear_arith);
    assert((v.x * (q.s * q.s)) == q.s * q.s * v.x) by (nonlinear_arith);
    assert((v.x * (q.v.x * q.v.x)) == q.v.x * q.v.x * v.x) by (nonlinear_arith);
    assert((v.x * (q.v.y * q.v.y)) == q.v.y * q.v.y * v.x) by (nonlinear_arith);
    assert((v.x * (q.v.z * q.v.z)) == q.v.z * q.v.z * v.x) by (nonlinear_arith);
    assert(((((q.v.y * v.z) - (q.v.z * v.y)) * (1int + 1int)) * q.s)
        == (((q.v.y * v.z) * (1int + 1int)) * q.s) - (((q.v.z * v.y) * (1int + 1int)) * q.s)) by (nonlinear_arith);
    assert((((q.v.y * v.z) * (1int + 1int)) * q.s)
        == (((q.v.y * v.z) * 1int) * q.s) + (((q.v.y * v.z) * 1int) * q.s)) by (nonlinear_arith);
    assert((((q.v.y * v.z) * 1int) * q.s) == q.s * q.v.y * v.z) by (nonlinear_arith);
    assert((((q.v.z * v.y) * (1int + 1int)) * q.s)
        == (((q.v.z * v.y) * 1int) * q.s) + (((q.v.z * v.y) * 1int) * q.s)) by (nonlinear_arith);
    assert((((q.v.z * v.y) * 1int) * q.s) == q.s * q.v.z * v.y) by (nonlinear_arith);
    assert(((q.v.x * (((q.v.x * v.x) + (q.v.y * v.y)) + (q.v.z * v.z))) * (1int + 1int))
        == ((q.v.x * (q.v.x * v.x)) * (1int + 1int)) + ((q.v.x * (q.v.y * v.y)) * (1int + 1int)) + ((q.v.x * (q.v.z * v.z)) * (1int + 1int))) by (nonlinear_arith);
    assert(((q.v.x * (q.v.x * v.x)) * (1int + 1int))
        == ((q.v.x * (q.v.x * v.x)) * 1int) + ((q.v.x * (q.v.x * v.x)) * 1int)) by (nonlinear_arith);
    assert(((q.v.x * (q.v.x * v.x)) * 1int) == q.v.x * q.v.x * v.x) by (nonlinear_arith);
    assert(((q.v.x * (q.v.y * v.y)) * (1int + 1int))
        == ((q.v.x * (q.v.y * v.y)) * 1int) + ((q.v.x * (q.v.y * v.y)) * 1int)) by (nonlinear_arith);
    assert(((q.v.x * (q.v.y * v.y)) * 1int) == q.v.x * q.v.y * v.y) by (nonlinear_arith);
    assert(((q.v.x * (q.v.z * v.z)) * (1int + 1int))
        == ((q.v.x * (q.v.z * v.z)) * 1int) + ((q.v.x * (q.v.z * v.z)) * 1int)) by (nonlinear_arith);
    assert(((q.v.x * (q.v.z * v.z)) * 1int) == q.v.x * q.v.z * v.z) by (nonlinear_arith);
    assert(((-q.v.x) * ((q.s * 0int) - (((q.v.x * v.x) + (q.v.y * v.y)) + (q.v.z * v.z))))
        == 0int - (q.v.x * ((q.s * 0int) - (((q.v.x * v.x) + (q.v.y * v.y)) + (q.v.z * v.z))))) by (nonlinear_arith);
    assert((q.v.x * ((q.s * 0int) - (((q.v.x * v.x) + (q.v.y * v.y)) + (q.v.z * v.z))))
        == (q.v.x * (q.s * 0int)) - (q.v.x * (q.v.x * v.x)) - (q.v.x * (q.v.y * v.y)) - (q.v.x * (q.v.z * v.z))) by (nonlinear_arith);
    assert((q.v.x * (q.s * 0int)) == 0int) by (nonlinear_arith);
    assert((q.v.x * (q.v.x * v.x)) == q.v.x * q.v.x * v.x) by (nonlinear_arith);
    assert((q.v.x * (q.v.y * v.y)) == q.v.x * q.v.y * v.y) by (nonlinear_arith);
    assert((q.v.x * (q.v.z * v.z)) == q.v.x * q.v.z * v.z) by (nonlinear_arith);
    assert(((((v.x * q.s) + (q.v.x * 0int)) + ((q.v.y * v.z) - (q.v.z * v.y))) * q.s)
        == ((v.x * q.s) * q.s) + ((q.v.x * 0int) * q.s) + ((q.v.y * v.z) * q.s) - ((q.v.z * v.y) * q.s)) by (nonlinear_arith);
    assert(((v.x * q.s) * q.s) == q.s * q.s * v.x) by (nonlinear_arith);
    assert(((q.v.x * 0int) * q.s) == 0int) by (nonlinear_arith);
    assert(((q.v.y * v.z) * q.s) == q.s * q.v.y * v.z) by (nonlinear_arith);
    assert(((q.v.z * v.y) * q.s) == q.s * q.v.z * v.y) by (nonlinear_arith);
    assert(((((v.y * q.s) + (q.v.y * 0int)) + ((q.v.z * v.x) - (q.v.x * v.z))) * (-q.v.z))
        == ((v.y * q.s) * (-q.v.z)) + ((q.v.y * 0int) * (-q.v.z)) + ((q.v.z * v.x) * (-q.v.z)) - ((q.v.x * v.z) * (-q.v.z))) by (nonlinear_arith);
    assert(((v.y * q.s) * (-q.v.z)) == 0int - ((v.y * q.s) * q.v.z)) by (nonlinear_arith);
    assert(((v.y * q.s) * q.v.z) == q.s * q.v.z * v.y) by (nonlinear_arith);
    assert(((q.v.y * 0int) * (-q.v.z)) == 0int - ((q.v.y * 0int) * q.v.z)) by (nonlinear_arith);
    assert(((q.v.y * 0int) * q.v.z) == 0int) by (nonlinear_arith);
    assert(((q.v.z * v.x) * (-q.v.z)) == 0int - ((q.v.z * v.x) * q.v.z)) by (nonlinear_arith);
    assert(((q.v.z * v.x) * q.v.z) == q.v.z * q.v.z * v.x) by (nonlinear_arith);
    assert(((q.v.x * v.z) * (-q.v.z)) == 0int - ((q.v.x * v.z) * q.v.z)) by (nonlinear_arith);
    assert(((q.v.x * v.z) * q.v.z) == q.v.x * q.v.z * v.z) by (nonlinear_arith);
    assert(((((v.z * q.s) + (q.v.z * 0int)) + ((q.v.x * v.y) - (q.v.y * v.x))) * (-q.v.y))
        == ((v.z * q.s) * (-q.v.y)) + ((q.v.z * 0int) * (-q.v.y)) + ((q.v.x * v.y) * (-q.v.y)) - ((q.v.y * v.x) * (-q.v.y))) by (nonlinear_arith);
    assert(((v.z * q.s) * (-q.v.y)) == 0int - ((v.z * q.s) * q.v.y)) by (nonlinear_arith);
    assert(((v.z * q.s) * q.v.y) == q.s * q.v.y * v.z) by (nonlinear_arith);
    assert(((q.v.z * 0int) * (-q.v.y)) == 0int - ((q.v.z * 0int) * q.v.y)) by (nonlinear_arith);
    assert(((q.v.z * 0int) * q.v.y) == 0int) by (nonlinear_arith);
    assert(((q.v.x * v.y) * (-q.v.y)) == 0int - ((q.v.x * v.y) * q.v.y)) by (nonlinear_arith);
    assert(((q.v.x * v.y) * q.v.y) == q.v.x * q.v.y * v.y) by (nonlinear_arith);
    assert(((q.v.y * v.x) * (-q.v.y)) == 0int - ((q.v.y * v.x) * q.v.y)) by (nonlinear_arith);
    assert(((q.v.y * v.x) * q.v.y) == q.v.y * q.v.y * v.x) by (nonlinear_arith);
}

proof fn lemma_quat_rotation_is_sandwich_y(q: QuatModel<int>, v: Vec3Model<int>)
    ensures
        q.apply_rotation(v).y == q.times(QuatModel::pure(v)).times(q.conjugate()).v.y,
{
    assert((v.y * ((q.s * q.s) - (((q.v.x * q.v.x) + (q.v.y * q.v.y)) + (q.v.z * q.v.z))))
        == (v.y * (q.s * q.s)) - (v.y * (q.v.x * q.v.x)) - (v.y * (q.v.y * q.v.y)) - (v.y * (q.v.z * q.v.z))) by (nonlinear_arith);
    assert((v.y * (q.s * q.s)) == q.s * q.s * v.y) by (nonlinear_arith);
    assert((v.y * (q.v.x * q.v.x)) == q.v.x * q.v.x * v.y) by (nonlinear_arith);
    assert((v.y * (q.v.y * q.v.y)) == q.v.y * q.v.y * v.y) by (nonlinear_arith);
    assert((v.y * (q.v.z * q.v.z)) == q.v.z * q.v.z * v.y) by (nonlinear_arith);
    assert(((((q.v.z * v.x) - (q.v.x * v.z)) * (1int + 1int)) * q.s)
        == (((q.v.z * v.x) * (1int + 1int)) * q.s) - (((q.v.x * v.z) * (1int + 1int)) * q.s)) by (nonlinear_arith);
    assert((((q.v.z * v.x) * (1int + 1int)) * q.s)
        == (((q.v.z * v.x) * 1int) * q.s) + (((q.v.z * v.x) * 1int) * q.s)) by (nonlinear_arith);
    assert((((q.v.z * v.x) * 1int) * q.s) == q.s * q.v.z * v.x) by (nonlinear_arith);
    assert((((q.v.x * v.z) * (1int + 1int)) * q.s)
        == (((q.v.x * v.z) * 1int) * q.s) + (((q.v.x * v.z) * 1int) * q.s)) by (nonlinear_arith);
    assert((((q.v.x * v.z) * 1int) * q.s) == q.s * q.v.x * v.z) by (nonlinear_arith);
    assert(((q.v.y * (((q.v.x * v.x) + (q.v.y * v.y)) + (q.v.z * v.z))) * (1int + 1int))
        == ((q.v.y * (q.v.x * v.x)) * (1int + 1int)) + ((q.v.y * (q.v.y * v.y)) * (1int + 1int)) + ((q.v.y * (q.v.z * v.z)) * (1int + 1int))) by (nonlinear_arith);
    assert(((q.v.y * (q.v.x * v.x)) * (1int + 1int))
        == ((q.v.y * (q.v.x * v.x)) * 1int) + ((q.v.y * (q.v.x * v.x)) * 1int)) by (nonlinear_arith);
    assert(((q.v.y * (q.v.x * v.x)) * 1int) == q.v.x * q.v.y * v.x) by (nonlinear_arith);
    assert(((q.v.y * (q.v.y * v.y)) * (1int + 1int))
        == ((q.v.y * (q.v.y * v.y)) * 1int) + ((q.v.y * (q.v.y * v.y)) * 1int)) by (nonlinear_arith);
    assert(((q.v.y * (q.v.y * v.y)) * 1int) == q.v.y * q.v.y * v.y) by (nonlinear_arith);
    assert(((q.v.y * (q.v.z * v.z)) * (1int + 1int))
        == ((q.v.y * (q.v.z * v.z)) * 1int) + ((q.v.y * (q.v.z * v.z)) * 1int)) by (nonlinear_arith);
    assert(((q.v.y * (q.v.z * v.z)) * 1int) == q.v.y * q.v.z * v.z) by (nonlinear_arith);
    assert(((-q.v.y) * ((q.s * 0int) - (((q.v.x * v.x) + (q.v.y * v.y)) + (q.v.z * v.z))))
        == 0int - (q.v.y * ((q.s * 0int) - (((q.v.x * v.x) + (q.v.y * v.y)) + (q.v.z * v.z))))) by (nonlinear_arith);
    assert((q.v.y * ((q.s * 0int) - (((q.v.x * v.x) + (q.v.y * v.y)) + (q.v.z * v.z))))
        == (q.v.y * (q.s * 0int)) - (q.v.y * (q.v.x * v.x)) - (q.v.y * (q.v.y * v.y)) - (q.v.y * (q.v.z * v.z))) by (nonlinear_arith);
    assert((q.v.y * (q.s * 0int)) == 0int) by (nonlinear_arith);
    assert((q.v.y * (q.v.x * v.x)) == q.v.x * q.v.y * v.x) by (nonlinear_arith);
    assert((q.v.y * (q.v.y * v.y)) == q.v.y * q.v.y * v.y) by (nonlinear_arith);
    assert((q.v.y * (q.v.z * v.z)) == q.v.y * q.v.z * v.z) by (nonlinear_arith);
    assert(((((v.y * q.s) + (q.v.y * 0int)) + ((q.v.z * v.x) - (q.v.x * v.z))) * q.s)
        == ((v.y * q.s) * q.s) + ((q.v.y * 0int) * q.s) + ((q.v.z * v.x) * q.s) - ((q.v.x * v.z) * q.s)) by (nonlinear_arith);
    assert(((v.y * q.s) * q.s) == q.s * q.s * v.y) by (nonlinear_arith);
    assert(((q.v.y * 0int) * q.s) == 0int) by (nonlinear_arith);
    assert(((q.v.z * v.x) * q.s) == q.s * q.v.z * v.x) by (nonlinear_arith);
    assert(((q.v.x * v.z) * q.s) == q.s * q.v.x * v.z) by (nonlinear_arith);
    assert(((((v.z * q.s) + (q.v.z * 0int)) + ((q.v.x * v.y) - (q.v.y * v.x))) * (-q.v.x))
        == ((v.z * q.s) * (-q.v.x)) + ((q.v.z * 0int) * (-q.v.x)) + ((q.v.x * v.y) * (-q.v.x)) - ((q.v.y * v.x) * (-q.v.x))) by (nonlinear_arith);
    assert(((v.z * q.s) * (-q.v.x)) == 0int - ((v.z * q.s) * q.v.x)) by (nonlinear_arith);
    assert(((v.z * q.s) * q.v.x) == q.s * q.v.x * v.z) by (nonlinear_arith);
    assert(((q.v.z * 0int) * (-q.v.x)) == 0int - ((q.v.z * 0int) * q.v.x)) by (nonlinear_arith);
    assert(((q.v.z * 0int) * q.v.x) == 0int) by (nonlinear_arith);
    assert(((q.v.x * v.y) * (-q.v.x)) == 0int - ((q.v.x * v.y) * q.v.x)) by (nonlinear_arith);
    assert(((q.v.x * v.y) * q.v.x) == q.v.x * q.v.x * v.y) by (nonlinear_arith);
    assert(((q.v.y * v.x) * (-q.v.x)) == 0int - ((q.v.y * v.x) * q.v.x)) by (nonlinear_arith);
    assert(((q.v.y * v.x) * q.v.x) == q.v.x * q.v.y * v.x) by (nonlinear_arith);
    assert(((((v.x * q.s) + (q.v.x * 0int)) + ((q.v.y * v.z) - (q.v.z * v.y))) * (-q.v.z))
        == ((v.x * q.s) * (-q.v.z)) + ((q.v.x * 0int) * (-q.v.z)) + ((q.v.y * v.z) * (-q.v.z)) - ((q.v.z * v.y) * (-q.v.z))) by (nonlinear_arith);
    assert(((v.x * q.s) * (-q.v.z)) == 0int - ((v.x * q.s) * q.v.z)) by (nonlinear_arith);
    assert(((v.x * q.s) * q.v.z) == q.s * q.v.z * v.x) by (nonlinear_arith);
    assert(((q.v.x * 0int) * (-q.v.z)) == 0int - ((q.v.x * 0int) * q.v.z)) by (nonlinear_arith);
    assert(((q.v.x * 0int) * q.v.z) == 0int) by (nonlinear_arith);
    assert(((q.v.y * v.z) * (-q.v.z)) == 0int - ((q.v.y * v.z) * q.v.z)) by (nonlinear_arith);
    assert(((q.v.y * v.z) * q.v.z) == q.v.y * q.v.z * v.z) by (nonlinear_arith);
    assert(((q.v.z * v.y) * (-q.v.z)) == 0int - ((q.v.z * v.y) * q.v.z)) by (nonlinear_arith);
    assert(((q.v.z * v.y) * q.v.z) == q.v.z * q.v.z * v.y) by (nonlinear_arith);
}

proof fn lemma_quat_rotation_is_sandwich_z(q: QuatModel<int>, v: Vec3Model<int>)
    ensures
        q.apply_rotation(v).z == q.times(QuatModel::pure(v)).times(q.conjugate()).v.z,
{
    assert((v.z * ((q.s * q.s) - (((q.v.x * q.v.x) + (q.v.y * q.v.y)) + (q.v.z * q.v.z))))
        == (v.z * (q.s * q.s)) - (v.z * (q.v.x * q.v.x)) - (v.z * (q.v.y * q.v.y)) - (v.z * (q.v.z * q.v.z))) by (nonlinear_arith);
    assert((v.z * (q.s * q.s)) == q.s * q.s * v.z) by (nonlinear_arith);
    assert((v.z * (q.v.x * q.v.x)) == q.v.x * q.v.x * v.z) by (nonlinear_arith);
    assert((v.z * (q.v.y * q.v.y)) == q.v.y * q.v.y * v.z) by (nonlinear_arith);
    assert((v.z * (q.v.z * q.v.z)) == q.v.z * q.v.z * v.z) by (nonlinear_arith);
    assert(((((q.v.x * v.y) - (q.v.y * v.x)) * (1int + 1int)) * q.s)
        == (((q.v.x * v.y) * (1int + 1int)) * q.s) - (((q.v.y * v.x) * (1int + 1int)) * q.s)) by (nonlinear_arith);
    assert((((q.v.x * v.y) * (1int + 1int)) * q.s)
        == (((q.v.x * v.y) * 1int) * q.s) + (((q.v.x * v.y) * 1int) * q.s)) by (nonlinear_arith);
    assert((((q.v.x * v.y) * 1int) * q.s) == q.s * q.v.x * v.y) by (nonlinear_arith);
    assert((((q.v.y * v.x) * (1int + 1int)) * q.s)
        == (((q.v.y * v.x) * 1int) * q.s) + (((q.v.y * v.x) * 1int) * q.s)) by (nonlinear_arith);
    assert((((q.v.y * v.x) * 1int) * q.s) == q.s * q.v.y * v.x) by (nonlinear_arith);
    assert(((q.v.z * (((q.v.x * v.x) + (q.v.y * v.y)) + (q.v.z * v.z))) * (1int + 1int))
        == ((q.v.z * (q.v.x * v.x)) * (1int + 1int)) + ((q.v.z * (q.v.y * v.y)) * (1int + 1int)) + ((q.v.z * (q.v.z * v.z)) * (1int + 1int))) by (nonlinear_arith);
    assert(((q.v.z * (q.v.x * v.x)) * (1int + 1int))
        == ((q.v.z * (q.v.x * v.x)) * 1int) + ((q.v.z * (q.v.x * v.x)) * 1int)) by (nonlinear_arith);
    assert(((q.v.z * (q.v.x * v.x)) * 1int) == q.v.x * q.v.z * v.x) by (nonlinear_arith);
    assert(((q.v.z * (q.v.y * v.y)) * (1int + 1int))
        == ((q.v.z * (q.v.y * v.y)) * 1int) + ((q.v.z * (q.v.y * v.y)) * 1int)) by (nonlinear_arith);
    assert(((q.v.z * (q.v.y * v.y)) * 1int) == q.v.y * q.v.z * v.y) by (nonlinear_arith);
    assert(((q.v.z * (q.v.z * v.z)) * (1int + 1int))
        == ((q.v.z * (q.v.z * v.z)) * 1int) + ((q.v.z * (q.v.z * v.z)) * 1int)) by (nonlinear_arith);
    assert(((q.v.z * (q.v.z * v.z)) * 1int) == q.v.z * q.v.z * v.z) by (nonlinear_arith);
    assert(((-q.v.z) * ((q.s * 0int) - (((q.v.x * v.x) + (q.v.y * v.y)) + (q.v.z * v.z))))
        == 0int - (q.v.z * ((q.s * 0int) - (((q.v.x * v.x) + (q.v.y * v.y)) + (q.v.z * v.z))))) by (nonlinear_arith);
    assert((q.v.z * ((q.s * 0int) - (((q.v.x * v.x) + (q.v.y * v.y)) + (q.v.z * v.z))))
        == (q.v.z * (q.s * 0int)) - (q.v.z * (q.v.x * v.x)) - (q.v.z * (q.v.y * v.y)) - (q.v.z * (q.v.z * v.z))) by (nonlinear_arith);
    assert((q.v.z * (q.s * 0int)) == 0int) by (nonlinear_arith);
    assert((q.v.z * (q.v.x * v.x)) == q.v.x * q.v.z * v.x) by (nonlinear_arith);
    assert((q.v.z * (q.v.y * v.y)) == q.v.y * q.v.z * v.y) by (nonlinear_arith);
    assert((q.v.z * (q.v.z * v.z)) == q.v.z * q.v.z * v.z) by (nonlinear_arith);
    assert(((((v.z * q.s) + (q.v.z * 0int)) + ((q.v.x * v.y) - (q.v.y * v.x))) * q.s)
        == ((v.z * q.s) * q.s) + ((q.v.z * 0int) * q.s) + ((q.v.x * v.y) * q.s) - ((q.v.y * v.x) * q.s)) by (nonlinear_arith);
    assert(((v.z * q.s) * q.s) == q.s * q.s * v.z) by (nonlinear_arith);
    assert(((q.v.z * 0int) * q.s) == 0int) by (nonlinear_arith);
    assert(((q.v.x * v.y) * q.s) == q.s * q.v.x * v.y) by (nonlinear_arith);
    assert(((q.v.y * v.x) * q.s) == q.s * q.v.y * v.x) by (nonlinear_arith);
    assert(((((v.x * q.s) + (q.v.x * 0int)) + ((q.v.y * v.z) - (q.v.z * v.y))) * (-q.v.y))
        == ((v.x * q.s) * (-q.v.y)) + ((q.v.x * 0int) * (-q.v.y)) + ((q.v.y * v.z) * (-q.v.y)) - ((q.v.z * v.y) * (-q.v.y))) by (nonlinear_arith);
    assert(((v.x * q.s) * (-q.v.y)) == 0int - ((v.x * q.s) * q.v.y)) by (nonlinear_arith);
    assert(((v.x * q.s) * q.v.y) == q.s * q.v.y * v.x) by (nonlinear_arith);
    assert(((q.v.x * 0int) * (-q.v.y)) == 0int - ((q.v.x * 0int) * q.v.y)) by (nonlinear_arith);
    assert(((q.v.x * 0int) * q.v.y) == 0int) by (nonlinear_arith);
    assert(((q.v.y * v.z) * (-q.v.y)) == 0int - ((q.v.y * v.z) * q.v.y)) by (nonlinear_arith);
    assert(((q.v.y * v.z) * q.v.y) == q.v.y * q.v.y * v.z) by (nonlinear_arith);
    assert(((q.v.z * v.y) * (-q.v.y)) == 0int - ((q.v.z * v.y) * q.v.y)) by (nonlinear_arith);
    assert(((q.v.z * v.y) * q.v.y) == q.v.y * q.v.z * v.y) by (nonlinear_arith);
    assert(((((v.y * q.s) + (q.v.y * 0int)) + ((q.v.z * v.x) - (q.v.x * v.z))) * (-q.v.x))
        == ((v.y * q.s) * (-q.v.x)) + ((q.v.y * 0int) * (-q.v.x)) + ((q.v.z * v.x) * (-q.v.x)) - ((q.v.x * v.z) * (-q.v.x))) by (nonlinear_arith);
    assert(((v.y * q.s) * (-q.v.x)) == 0int - ((v.y * q.s) * q.v.x)) by (nonlinear_arith);
    assert(((v.y * q.s) * q.v.x) == q.s * q.v.x * v.y) by (nonlinear_arith);
    assert(((q.v.y * 0int) * (-q.v.x)) == 0int - ((q.v.y * 0int) * q.v.x)) by (nonlinear_arith);
    assert(((q.v.y * 0int) * q.v.x) == 0int) by (nonlinear_arith);
    assert(((q.v.z * v.x) * (-q.v.x)) == 0int - ((q.v.z * v.x) * q.v.x)) by (nonlinear_arith);
    assert(((q.v.z * v.x) * q.v.x) == q.v.x * q.v.z * v.x) by (nonlinear_arith);
    assert(((q.v.x * v.z) * (-q.v.x)) == 0int - ((q.v.x * v.z) * q.v.x)) by (nonlinear_arith);
    assert(((q.v.x * v.z) * q.v.x) == q.v.x * q.v.x * v.z) by (nonlinear_arith);
}

/// What `apply_rotation` computes is the vector part of `q · (0, v) · conjugate(q)`, for every
/// quaternion `q`. The conjugate of a quaternion of unit size is its inverse.
pub proof fn lemma_quat_rotation_is_sandwich(q: QuatModel<int>, v: Vec3Model<int>)
    ensures
        q.apply_rotation(v) == q.times(QuatModel::pure(v)).times(q.conjugate()).v,
{
    lemma_quat_rotation_is_sandwich_x(q, v);
    lemma_quat_rotation_is_sandwich_y(q, v);
    lemma_quat_rotation_is_sandwich_z(q, v);
}

} // verus!
