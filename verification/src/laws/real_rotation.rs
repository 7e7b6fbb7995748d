//! Rotations as quaternions and as matrices, over the real numbers.
use crate::traits::Ring;
use crate::types::mat3::Mat3Model;
use crate::types::mat4::Mat4Model;
use crate::types::quat::QuatModel;
use crate::types::vec3::Vec3Model;
use vstd::prelude::*;

verus! {

proof fn lemma_real_quat_rotation_is_sandwich_x(q: QuatModel<real>, v: Vec3Model<real>)
    ensures
        q.apply_rotation(v).x == q.times(QuatModel::pure(v)).times(q.conjugate()).v.x,
{
    assert((v.x * ((q.s * q.s) - (((q.v.x * q.v.x) + (q.v.y * q.v.y)) + (q.v.z * q.v.z))))
        == (v.x * (q.s * q.s)) - (v.x * (q.v.x * q.v.x)) - (v.x * (q.v.y * q.v.y)) - (v.x * (q.v.z * q.v.z))) by (nonlinear_arith);
    assert((v.x * (q.s * q.s)) == q.s * q.s * v.x) by (nonlinear_arith);
    assert((v.x * (q.v.x * q.v.x)) == q.v.x * q.v.x * v.x) by (nonlinear_arith);
    assert((v.x * (q.v.y * q.v.y)) == q.v.y * q.v.y * v.x) by (nonlinear_arith);
    assert((v.x * (q.v.z * q.v.z)) == q.v.z * q.v.z * v.x) by (nonlinear_arith);
    assert(((((q.v.y * v.z) - (q.v.z * v.y)) * (1real + 1real)) * q.s)
        == (((q.v.y * v.z) * (1real + 1real)) * q.s) - (((q.v.z * v.y) * (1real + 1real)) * q.s)) by (nonlinear_arith);
    assert((((q.v.y * v.z) * (1real + 1real)) * q.s)
        == (((q.v.y * v.z) * 1real) * q.s) + (((q.v.y * v.z) * 1real) * q.s)) by (nonlinear_arith);
    assert((((q.v.y * v.z) * 1real) * q.s) == q.s * q.v.y * v.z) by (nonlinear_arith);
    assert((((q.v.z * v.y) * (1real + 1real)) * q.s)
        == (((q.v.z * v.y) * 1real) * q.s) + (((q.v.z * v.y) * 1real) * q.s)) by (nonlinear_arith);
    assert((((q.v.z * v.y) * 1real) * q.s) == q.s * q.v.z * v.y) by (nonlinear_arith);
    assert(((q.v.x * (((q.v.x * v.x) + (q.v.y * v.y)) + (q.v.z * v.z))) * (1real + 1real))
        == ((q.v.x * (q.v.x * v.x)) * (1real + 1real)) + ((q.v.x * (q.v.y * v.y)) * (1real + 1real)) + ((q.v.x * (q.v.z * v.z)) * (1real + 1real))) by (nonlinear_arith);
    assert(((q.v.x * (q.v.x * v.x)) * (1real + 1real))
        == ((q.v.x * (q.v.x * v.x)) * 1real) + ((q.v.x * (q.v.x * v.x)) * 1real)) by (nonlinear_arith);
    assert(((q.v.x * (q.v.x * v.x)) * 1real) == q.v.x * q.v.x * v.x) by (nonlinear_arith);
    assert(((q.v.x * (q.v.y * v.y)) * (1real + 1real))
        == ((q.v.x * (q.v.y * v.y)) * 1real) + ((q.v.x * (q.v.y * v.y)) * 1real)) by (nonlinear_arith);
    assert(((q.v.x * (q.v.y * v.y)) * 1real) == q.v.x * q.v.y * v.y) by (nonlinear_arith);
    assert(((q.v.x * (q.v.z * v.z)) * (1real + 1real))
        == ((q.v.x * (q.v.z * v.z)) * 1real) + ((q.v.x * (q.v.z * v.z)) * 1real)) by (nonlinear_arith);
    assert(((q.v.x * (q.v.z * v.z)) * 1real) == q.v.x * q.v.z * v.z) by (nonlinear_arith);
    assert(((-q.v.x) * ((q.s * 0real) - (((q.v.x * v.x) + (q.v.y * v.y)) + (q.v.z * v.z))))
        == 0real - (q.v.x * ((q.s * 0real) - (((q.v.x * v.x) + (q.v.y * v.y)) + (q.v.z * v.z))))) by (nonlinear_arith);
    assert((q.v.x * ((q.s * 0real) - (((q.v.x * v.x) + (q.v.y * v.y)) + (q.v.z * v.z))))
        == (q.v.x * (q.s * 0real)) - (q.v.x * (q.v.x * v.x)) - (q.v.x * (q.v.y * v.y)) - (q.v.x * (q.v.z * v.z))) by (nonlinear_arith);
    assert((q.v.x * (q.s * 0real)) == 0real) by (nonlinear_arith);
    assert((q.v.x * (q.v.x * v.x)) == q.v.x * q.v.x * v.x) by (nonlinear_arith);
    assert((q.v.x * (q.v.y * v.y)) == q.v.x * q.v.y * v.y) by (nonlinear_arith);
    assert((q.v.x * (q.v.z * v.z)) == q.v.x * q.v.z * v.z) by (nonlinear_arith);
    assert(((((v.x * q.s) + (q.v.x * 0real)) + ((q.v.y * v.z) - (q.v.z * v.y))) * q.s)
        == ((v.x * q.s) * q.s) + ((q.v.x * 0real) * q.s) + ((q.v.y * v.z) * q.s) - ((q.v.z * v.y) * q.s)) by (nonlinear_arith);
    assert(((v.x * q.s) * q.s) == q.s * q.s * v.x) by (nonlinear_arith);
    assert(((q.v.x * 0real) * q.s) == 0real) by (nonlinear_arith);
    assert(((q.v.y * v.z) * q.s) == q.s * q.v.y * v.z) by (nonlinear_arith);
    assert(((q.v.z * v.y) * q.s) == q.s * q.v.z * v.y) by (nonlinear_arith);
    assert(((((v.y * q.s) + (q.v.y * 0real)) + ((q.v.z * v.x) - (q.v.x * v.z))) * (-q.v.z))
        == ((v.y * q.s) * (-q.v.z)) + ((q.v.y * 0real) * (-q.v.z)) + ((q.v.z * v.x) * (-q.v.z)) - ((q.v.x * v.z) * (-q.v.z))) by (nonlinear_arith);
    assert(((v.y * q.s) * (-q.v.z)) == 0real - ((v.y * q.s) * q.v.z)) by (nonlinear_arith);
    assert(((v.y * q.s) * q.v.z) == q.s * q.v.z * v.y) by (nonlinear_arith);
    assert(((q.v.y * 0real) * (-q.v.z)) == 0real - ((q.v.y * 0real) * q.v.z)) by (nonlinear_arith);
    assert(((q.v.y * 0real) * q.v.z) == 0real) by (nonlinear_arith);
    assert(((q.v.z * v.x) * (-q.v.z)) == 0real - ((q.v.z * v.x) * q.v.z)) by (nonlinear_arith);
    assert(((q.v.z * v.x) * q.v.z) == q.v.z * q.v.z * v.x) by (nonlinear_arith);
    assert(((q.v.x * v.z) * (-q.v.z)) == 0real - ((q.v.x * v.z) * q.v.z)) by (nonlinear_arith);
    assert(((q.v.x * v.z) * q.v.z) == q.v.x * q.v.z * v.z) by (nonlinear_arith);
    assert(((((v.z * q.s) + (q.v.z * 0real)) + ((q.v.x * v.y) - (q.v.y * v.x))) * (-q.v.y))
        == ((v.z * q.s) * (-q.v.y)) + ((q.v.z * 0real) * (-q.v.y)) + ((q.v.x * v.y) * (-q.v.y)) - ((q.v.y * v.x) * (-q.v.y))) by (nonlinear_arith);
    assert(((v.z * q.s) * (-q.v.y)) == 0real - ((v.z * q.s) * q.v.y)) by (nonlinear_arith);
    assert(((v.z * q.s) * q.v.y) == q.s * q.v.y * v.z) by (nonlinear_arith);
    assert(((q.v.z * 0real) * (-q.v.y)) == 0real - ((q.v.z * 0real) * q.v.y)) by (nonlinear_arith);
    assert(((q.v.z * 0real) * q.v.y) == 0real) by (nonlinear_arith);
    assert(((q.v.x * v.y) * (-q.v.y)) == 0real - ((q.v.x * v.y) * q.v.y)) by (nonlinear_arith);
    assert(((q.v.x * v.y) * q.v.y) == q.v.x * q.v.y * v.y) by (nonlinear_arith);
    assert(((q.v.y * v.x) * (-q.v.y)) == 0real - ((q.v.y * v.x) * q.v.y)) by (nonlinear_arith);
    assert(((q.v.y * v.x) * q.v.y) == q.v.y * q.v.y * v.x) by (nonlinear_arith);
}

proof fn lemma_real_quat_rotation_is_sandwich_y(q: QuatModel<real>, v: Vec3Model<real>)
    ensures
        q.apply_rotation(v).y == q.times(QuatModel::pure(v)).times(q.conjugate()).v.y,
{
    assert((v.y * ((q.s * q.s) - (((q.v.x * q.v.x) + (q.v.y * q.v.y)) + (q.v.z * q.v.z))))
        == (v.y * (q.s * q.s)) - (v.y * (q.v.x * q.v.x)) - (v.y * (q.v.y * q.v.y)) - (v.y * (q.v.z * q.v.z))) by (nonlinear_arith);
    assert((v.y * (q.s * q.s)) == q.s * q.s * v.y) by (nonlinear_arith);
    assert((v.y * (q.v.x * q.v.x)) == q.v.x * q.v.x * v.y) by (nonlinear_arith);
    assert((v.y * (q.v.y * q.v.y)) == q.v.y * q.v.y * v.y) by (nonlinear_arith);
    assert((v.y * (q.v.z * q.v.z)) == q.v.z * q.v.z * v.y) by (nonlinear_arith);
    assert(((((q.v.z * v.x) - (q.v.x * v.z)) * (1real + 1real)) * q.s)
        == (((q.v.z * v.x) * (1real + 1real)) * q.s) - (((q.v.x * v.z) * (1real + 1real)) * q.s)) by (nonlinear_arith);
    assert((((q.v.z * v.x) * (1real + 1real)) * q.s)
        == (((q.v.z * v.x) * 1real) * q.s) + (((q.v.z * v.x) * 1real) * q.s)) by (nonlinear_arith);
    assert((((q.v.z * v.x) * 1real) * q.s) == q.s * q.v.z * v.x) by (nonlinear_arith);
    assert((((q.v.x * v.z) * (1real + 1real)) * q.s)
        == (((q.v.x * v.z) * 1real) * q.s) + (((q.v.x * v.z) * 1real) * q.s)) by (nonlinear_arith);
    assert((((q.v.x * v.z) * 1real) * q.s) == q.s * q.v.x * v.z) by (nonlinear_arith);
    assert(((q.v.y * (((q.v.x * v.x) + (q.v.y * v.y)) + (q.v.z * v.z))) * (1real + 1real))
        == ((q.v.y * (q.v.x * v.x)) * (1real + 1real)) + ((q.v.y * (q.v.y * v.y)) * (1real + 1real)) + ((q.v.y * (q.v.z * v.z)) * (1real + 1real))) by (nonlinear_arith);
    assert(((q.v.y * (q.v.x * v.x)) * (1real + 1real))
        == ((q.v.y * (q.v.x * v.x)) * 1real) + ((q.v.y * (q.v.x * v.x)) * 1real)) by (nonlinear_arith);
    assert(((q.v.y * (q.v.x * v.x)) * 1real) == q.v.x * q.v.y * v.x) by (nonlinear_arith);
    assert(((q.v.y * (q.v.y * v.y)) * (1real + 1real))
        == ((q.v.y * (q.v.y * v.y)) * 1real) + ((q.v.y * (q.v.y * v.y)) * 1real)) by (nonlinear_arith);
    assert(((q.v.y * (q.v.y * v.y)) * 1real) == q.v.y * q.v.y * v.y) by (nonlinear_arith);
    assert(((q.v.y * (q.v.z * v.z)) * (1real + 1real))
        == ((q.v.y * (q.v.z * v.z)) * 1real) + ((q.v.y * (q.v.z * v.z)) * 1real)) by (nonlinear_arith);
    assert(((q.v.y * (q.v.z * v.z)) * 1real) == q.v.y * q.v.z * v.z) by (nonlinear_arith);
    assert(((-q.v.y) * ((q.s * 0real) - (((q.v.x * v.x) + (q.v.y * v.y)) + (q.v.z * v.z))))
        == 0real - (q.v.y * ((q.s * 0real) - (((q.v.x * v.x) + (q.v.y * v.y)) + (q.v.z * v.z))))) by (nonlinear_arith);
    assert((q.v.y * ((q.s * 0real) - (((q.v.x * v.x) + (q.v.y * v.y)) + (q.v.z * v.z))))
        == (q.v.y * (q.s * 0real)) - (q.v.y * (q.v.x * v.x)) - (q.v.y * (q.v.y * v.y)) - (q.v.y * (q.v.z * v.z))) by (nonlinear_arith);
    assert((q.v.y * (q.s * 0real)) == 0real) by (nonlinear_arith);
    assert((q.v.y * (q.v.x * v.x)) == q.v.x * q.v.y * v.x) by (nonlinear_arith);
    assert((q.v.y * (q.v.y * v.y)) == q.v.y * q.v.y * v.y) by (nonlinear_arith);
    assert((q.v.y * (q.v.z * v.z)) == q.v.y * q.v.z * v.z) by (nonlinear_arith);
    assert(((((v.y * q.s) + (q.v.y * 0real)) + ((q.v.z * v.x) - (q.v.x * v.z))) * q.s)
        == ((v.y * q.s) * q.s) + ((q.v.y * 0real) * q.s) + ((q.v.z * v.x) * q.s) - ((q.v.x * v.z) * q.s)) by (nonlinear_arith);
    assert(((v.y * q.s) * q.s) == q.s * q.s * v.y) by (nonlinear_arith);
    assert(((q.v.y * 0real) * q.s) == 0real) by (nonlinear_arith);
    assert(((q.v.z * v.x) * q.s) == q.s * q.v.z * v.x) by (nonlinear_arith);
    assert(((q.v.x * v.z) * q.s) == q.s * q.v.x * v.z) by (nonlinear_arith);
    assert(((((v.z * q.s) + (q.v.z * 0real)) + ((q.v.x * v.y) - (q.v.y * v.x))) * (-q.v.x))
        == ((v.z * q.s) * (-q.v.x)) + ((q.v.z * 0real) * (-q.v.x)) + ((q.v.x * v.y) * (-q.v.x)) - ((q.v.y * v.x) * (-q.v.x))) by (nonlinear_arith);
    assert(((v.z * q.s) * (-q.v.x)) == 0real - ((v.z * q.s) * q.v.x)) by (nonlinear_arith);
    assert(((v.z * q.s) * q.v.x) == q.s * q.v.x * v.z) by (nonlinear_arith);
    assert(((q.v.z * 0real) * (-q.v.x)) == 0real - ((q.v.z * 0real) * q.v.x)) by (nonlinear_arith);
    assert(((q.v.z * 0real) * q.v.x) == 0real) by (nonlinear_arith);
    assert(((q.v.x * v.y) * (-q.v.x)) == 0real - ((q.v.x * v.y) * q.v.x)) by (nonlinear_arith);
    assert(((q.v.x * v.y) * q.v.x) == q.v.x * q.v.x * v.y) by (nonlinear_arith);
    assert(((q.v.y * v.x) * (-q.v.x)) == 0real - ((q.v.y * v.x) * q.v.x)) by (nonlinear_arith);
    assert(((q.v.y * v.x) * q.v.x) == q.v.x * q.v.y * v.x) by (nonlinear_arith);
    assert(((((v.x * q.s) + (q.v.x * 0real)) + ((q.v.y * v.z) - (q.v.z * v.y))) * (-q.v.z))
        == ((v.x * q.s) * (-q.v.z)) + ((q.v.x * 0real) * (-q.v.z)) + ((q.v.y * v.z) * (-q.v.z)) - ((q.v.z * v.y) * (-q.v.z))) by (nonlinear_arith);
    assert(((v.x * q.s) * (-q.v.z)) == 0real - ((v.x * q.s) * q.v.z)) by (nonlinear_arith);
    assert(((v.x * q.s) * q.v.z) == q.s * q.v.z * v.x) by (nonlinear_arith);
    assert(((q.v.x * 0real) * (-q.v.z)) == 0real - ((q.v.x * 0real) * q.v.z)) by (nonlinear_arith);
    assert(((q.v.x * 0real) * q.v.z) == 0real) by (nonlinear_arith);
    assert(((q.v.y * v.z) * (-q.v.z)) == 0real - ((q.v.y * v.z) * q.v.z)) by (nonlinear_arith);
    assert(((q.v.y * v.z) * q.v.z) == q.v.y * q.v.z * v.z) by (nonlinear_arith);
    assert(((q.v.z * v.y) * (-q.v.z)) == 0real - ((q.v.z * v.y) * q.v.z)) by (nonlinear_arith);
    assert(((q.v.z * v.y) * q.v.z) == q.v.z * q.v.z * v.y) by (nonlinear_arith);
}

proof fn lemma_real_quat_rotation_is_sandwich_z(q: QuatModel<real>, v: Vec3Model<real>)
    ensures
        q.apply_rotation(v).z == q.times(QuatModel::pure(v)).times(q.conjugate()).v.z,
{
    assert((v.z * ((q.s * q.s) - (((q.v.x * q.v.x) + (q.v.y * q.v.y)) + (q.v.z * q.v.z))))
        == (v.z * (q.s * q.s)) - (v.z * (q.v.x * q.v.x)) - (v.z * (q.v.y * q.v.y)) - (v.z * (q.v.z * q.v.z))) by (nonlinear_arith);
    assert((v.z * (q.s * q.s)) == q.s * q.s * v.z) by (nonlinear_arith);
    assert((v.z * (q.v.x * q.v.x)) == q.v.x * q.v.x * v.z) by (nonlinear_arith);
    assert((v.z * (q.v.y * q.v.y)) == q.v.y * q.v.y * v.z) by (nonlinear_arith);
    assert((v.z * (q.v.z * q.v.z)) == q.v.z * q.v.z * v.z) by (nonlinear_arith);
    assert(((((q.v.x * v.y) - (q.v.y * v.x)) * (1real + 1real)) * q.s)
        == (((q.v.x * v.y) * (1real + 1real)) * q.s) - (((q.v.y * v.x) * (1real + 1real)) * q.s)) by (nonlinear_arith);
    assert((((q.v.x * v.y) * (1real + 1real)) * q.s)
        == (((q.v.x * v.y) * 1real) * q.s) + (((q.v.x * v.y) * 1real) * q.s)) by (nonlinear_arith);
    assert((((q.v.x * v.y) * 1real) * q.s) == q.s * q.v.x * v.y) by (nonlinear_arith);
    assert((((q.v.y * v.x) * (1real + 1real)) * q.s)
        == (((q.v.y * v.x) * 1real) * q.s) + (((q.v.y * v.x) * 1real) * q.s)) by (nonlinear_arith);
    assert((((q.v.y * v.x) * 1real) * q.s) == q.s * q.v.y * v.x) by (nonlinear_arith);
    assert(((q.v.z * (((q.v.x * v.x) + (q.v.y * v.y)) + (q.v.z * v.z))) * (1real + 1real))
        == ((q.v.z * (q.v.x * v.x)) * (1real + 1real)) + ((q.v.z * (q.v.y * v.y)) * (1real + 1real)) + ((q.v.z * (q.v.z * v.z)) * (1real + 1real))) by (nonlinear_arith);
    assert(((q.v.z * (q.v.x * v.x)) * (1real + 1real))
        == ((q.v.z * (q.v.x * v.x)) * 1real) + ((q.v.z * (q.v.x * v.x)) * 1real)) by (nonlinear_arith);
    assert(((q.v.z * (q.v.x * v.x)) * 1real) == q.v.x * q.v.z * v.x) by (nonlinear_arith);
    assert(((q.v.z * (q.v.y * v.y)) * (1real + 1real))
        == ((q.v.z * (q.v.y * v.y)) * 1real) + ((q.v.z * (q.v.y * v.y)) * 1real)) by (nonlinear_arith);
    assert(((q.v.z * (q.v.y * v.y)) * 1real) == q.v.y * q.v.z * v.y) by (nonlinear_arith);
    assert(((q.v.z * (q.v.z * v.z)) * (1real + 1real))
        == ((q.v.z * (q.v.z * v.z)) * 1real) + ((q.v.z * (q.v.z * v.z)) * 1real)) by (nonlinear_arith);
    assert(((q.v.z * (q.v.z * v.z)) * 1real) == q.v.z * q.v.z * v.z) by (nonlinear_arith);
    assert(((-q.v.z) * ((q.s * 0real) - (((q.v.x * v.x) + (q.v.y * v.y)) + (q.v.z * v.z))))
        == 0real - (q.v.z * ((q.s * 0real) - (((q.v.x * v.x) + (q.v.y * v.y)) + (q.v.z * v.z))))) by (nonlinear_arith);
    assert((q.v.z * ((q.s * 0real) - (((q.v.x * v.x) + (q.v.y * v.y)) + (q.v.z * v.z))))
        == (q.v.z * (q.s * 0real)) - (q.v.z * (q.v.x * v.x)) - (q.v.z * (q.v.y * v.y)) - (q.v.z * (q.v.z * v.z))) by (nonlinear_arith);
    assert((q.v.z * (q.s * 0real)) == 0real) by (nonlinear_arith);
    assert((q.v.z * (q.v.x * v.x)) == q.v.x * q.v.z * v.x) by (nonlinear_arith);
    assert((q.v.z * (q.v.y * v.y)) == q.v.y * q.v.z * v.y) by (nonlinear_arith);
    assert((q.v.z * (q.v.z * v.z)) == q.v.z * q.v.z * v.z) by (nonlinear_arith);
    assert(((((v.z * q.s) + (q.v.z * 0real)) + ((q.v.x * v.y) - (q.v.y * v.x))) * q.s)
        == ((v.z * q.s) * q.s) + ((q.v.z * 0real) * q.s) + ((q.v.x * v.y) * q.s) - ((q.v.y * v.x) * q.s)) by (nonlinear_arith);
    assert(((v.z * q.s) * q.s) == q.s * q.s * v.z) by (nonlinear_arith);
    assert(((q.v.z * 0real) * q.s) == 0real) by (nonlinear_arith);
    assert(((q.v.x * v.y) * q.s) == q.s * q.v.x * v.y) by (nonlinear_arith);
    assert(((q.v.y * v.x) * q.s) == q.s * q.v.y * v.x) by (nonlinear_arith);
    assert(((((v.x * q.s) + (q.v.x * 0real)) + ((q.v.y * v.z) - (q.v.z * v.y))) * (-q.v.y))
        == ((v.x * q.s) * (-q.v.y)) + ((q.v.x * 0real) * (-q.v.y)) + ((q.v.y * v.z) * (-q.v.y)) - ((q.v.z * v.y) * (-q.v.y))) by (nonlinear_arith);
    assert(((v.x * q.s) * (-q.v.y)) == 0real - ((v.x * q.s) * q.v.y)) by (nonlinear_arith);
    assert(((v.x * q.s) * q.v.y) == q.s * q.v.y * v.x) by (nonlinear_arith);
    assert(((q.v.x * 0real) * (-q.v.y)) == 0real - ((q.v.x * 0real) * q.v.y)) by (nonlinear_arith);
    assert(((q.v.x * 0real) * q.v.y) == 0real) by (nonlinear_arith);
    assert(((q.v.y * v.z) * (-q.v.y)) == 0real - ((q.v.y * v.z) * q.v.y)) by (nonlinear_arith);
    assert(((q.v.y * v.z) * q.v.y) == q.v.y * q.v.y * v.z) by (nonlinear_arith);
    assert(((q.v.z * v.y) * (-q.v.y)) == 0real - ((q.v.z * v.y) * q.v.y)) by (nonlinear_arith);
    assert(((q.v.z * v.y) * q.v.y) == q.v.y * q.v.z * v.y) by (nonlinear_arith);
    assert(((((v.y * q.s) + (q.v.y * 0real)) + ((q.v.z * v.x) - (q.v.x * v.z))) * (-q.v.x))
        == ((v.y * q.s) * (-q.v.x)) + ((q.v.y * 0real) * (-q.v.x)) + ((q.v.z * v.x) * (-q.v.x)) - ((q.v.x * v.z) * (-q.v.x))) by (nonlinear_arith);
    assert(((v.y * q.s) * (-q.v.x)) == 0real - ((v.y * q.s) * q.v.x)) by (nonlinear_arith);
    assert(((v.y * q.s) * q.v.x) == q.s * q.v.x * v.y) by (nonlinear_arith);
    assert(((q.v.y * 0real) * (-q.v.x)) == 0real - ((q.v.y * 0real) * q.v.x)) by (nonlinear_arith);
    assert(((q.v.y * 0real) * q.v.x) == 0real) by (nonlinear_arith);
    assert(((q.v.z * v.x) * (-q.v.x)) == 0real - ((q.v.z * v.x) * q.v.x)) by (nonlinear_arith);
    assert(((q.v.z * v.x) * q.v.x) == q.v.x * q.v.z * v.x) by (nonlinear_arith);
    assert(((q.v.x * v.z) * (-q.v.x)) == 0real - ((q.v.x * v.z) * q.v.x)) by (nonlinear_arith);
    assert(((q.v.x * v.z) * q.v.x) == q.v.x * q.v.x * v.z) by (nonlinear_arith);
}

/// What `apply_rotation` computes is the vector part of `q · (0, v) · conjugate(q)`.
pub proof fn lemma_real_quat_rotation_is_sandwich(q: QuatModel<real>, v: Vec3Model<real>)
    ensures
        q.apply_rotation(v) == q.times(QuatModel::pure(v)).times(q.conjugate()).v,
{
    lemma_real_quat_rotation_is_sandwich_x(q, v);
    lemma_real_quat_rotation_is_sandwich_y(q, v);
    lemma_real_quat_rotation_is_sandwich_z(q, v);
}

proof fn lemma_real_mat3_rodrigues_about_x_r0c0(s: real, c: real)
    ensures
        Mat3Model::rodrigues(Vec3Model { x: 1real, y: 0real, z: 0real }, s, c).r0c0 == Mat3Model::rotation_x(s, c).r0c0,
{
    assert(((1real * 1real) * (1real - c))
        == ((1real * 1real) * 1real) - ((1real * 1real) * c)) by (nonlinear_arith);
    assert(((1real * 1real) * 1real) == 1real) by (nonlinear_arith);
    assert(((1real * 1real) * c) == c) by (nonlinear_arith);
}

proof fn lemma_real_mat3_rodrigues_about_x_r0c1(s: real, c: real)
    ensures
        Mat3Model::rodrigues(Vec3Model { x: 1real, y: 0real, z: 0real }, s, c).r0c1 == Mat3Model::rotation_x(s, c).r0c1,
{
    assert(((1real * 0real) * (1real - c))
        == ((1real * 0real) * 1real) - ((1real * 0real) * c)) by (nonlinear_arith);
    assert(((1real * 0real) * 1real) == 0real) by (nonlinear_arith);
    assert(((1real * 0real) * c) == 0real) by (nonlinear_arith);
    assert((0real * s) == 0real) by (nonlinear_arith);
}

proof fn lemma_real_mat3_rodrigues_about_x_r0c2(s: real, c: real)
    ensures
        Mat3Model::rodrigues(Vec3Model { x: 1real, y: 0real, z: 0real }, s, c).r0c2 == Mat3Model::rotation_x(s, c).r0c2,
{
    assert(((1real * 0real) * (1real - c))
        == ((1real * 0real) * 1real) - ((1real * 0real) * c)) by (nonlinear_arith);
    assert(((1real * 0real) * 1real) == 0real) by (nonlinear_arith);
    assert(((1real * 0real) * c) == 0real) by (nonlinear_arith);
    assert((0real * s) == 0real) by (nonlinear_arith);
}

proof fn lemma_real_mat3_rodrigues_about_x_r1c0(s: real, c: real)
    ensures
        Mat3Model::rodrigues(Vec3Model { x: 1real, y: 0real, z: 0real }, s, c).r1c0 == Mat3Model::rotation_x(s, c).r1c0,
{
    assert(((1real * 0real) * (1real - c))
        == ((1real * 0real) * 1real) - ((1real * 0real) * c)) by (nonlinear_arith);
    assert(((1real * 0real) * 1real) == 0real) by (nonlinear_arith);
    assert(((1real * 0real) * c) == 0real) by (nonlinear_arith);
    assert((0real * s) == 0real) by (nonlinear_arith);
}

proof fn lemma_real_mat3_rodrigues_about_x_r1c1(s: real, c: real)
    ensures
        Mat3Model::rodrigues(Vec3Model { x: 1real, y: 0real, z: 0real }, s, c).r1c1 == Mat3Model::rotation_x(s, c).r1c1,
{
    assert(((0real * 0real) * (1real - c))
        == ((0real * 0real) * 1real) - ((0real * 0real) * c)) by (nonlinear_arith);
    assert(((0real * 0real) * 1real) == 0real) by (nonlinear_arith);
    assert(((0real * 0real) * c) == 0real) by (nonlinear_arith);
}

proof fn lemma_real_mat3_rodrigues_about_x_r1c2(s: real, c: real)
    ensures
        Mat3Model::rodrigues(Vec3Model { x: 1real, y: 0real, z: 0real }, s, c).r1c2 == Mat3Model::rotation_x(s, c).r1c2,
{
    assert(((0real * 0real) * (1real - c))
        == ((0real * 0real) * 1real) - ((0real * 0real) * c)) by (nonlinear_arith);
    assert(((0real * 0real) * 1real) == 0real) by (nonlinear_arith);
    assert(((0real * 0real) * c) == 0real) by (nonlinear_arith);
    assert((1real * s) == s) by (nonlinear_arith);
}

proof fn lemma_real_mat3_rodrigues_about_x_r2c0(s: real, c: real)
    ensures
        Mat3Model::rodrigues(Vec3Model { x: 1real, y: 0real, z: 0real }, s, c).r2c0 == Mat3Model::rotation_x(s, c).r2c0,
{
    assert(((1real * 0real) * (1real - c))
        == ((1real * 0real) * 1real) - ((1real * 0real) * c)) by (nonlinear_arith);
    assert(((1real * 0real) * 1real) == 0real) by (nonlinear_arith);
    assert(((1real * 0real) * c) == 0real) by (nonlinear_arith);
    assert((0real * s) == 0real) by (nonlinear_arith);
}

proof fn lemma_real_mat3_rodrigues_about_x_r2c1(s: real, c: real)
    ensures
        Mat3Model::rodrigues(Vec3Model { x: 1real, y: 0real, z: 0real }, s, c).r2c1 == Mat3Model::rotation_x(s, c).r2c1,
{
    assert(((0real * 0real) * (1real - c))
        == ((0real * 0real) * 1real) - ((0real * 0real) * c)) by (nonlinear_arith);
    assert(((0real * 0real) * 1real) == 0real) by (nonlinear_arith);
    assert(((0real * 0real) * c) == 0real) by (nonlinear_arith);
    assert((1real * s) == s) by (nonlinear_arith);
}

proof fn lemma_real_mat3_rodrigues_about_x_r2c2(s: real, c: real)
    ensures
        Mat3Model::rodrigues(Vec3Model { x: 1real, y: 0real, z: 0real }, s, c).r2c2 == Mat3Model::rotation_x(s, c).r2c2,
{
    assert(((0real * 0real) * (1real - c))
        == ((0real * 0real) * 1real) - ((0real * 0real) * c)) by (nonlinear_arith);
    assert(((0real * 0real) * 1real) == 0real) by (nonlinear_arith);
    assert(((0real * 0real) * c) == 0real) by (nonlinear_arith);
}

/// About the x axis the formula of Rodrigues gives the rotation about that axis.
pub proof fn lemma_real_mat3_rodrigues_about_x(s: real, c: real)
    ensures
        Mat3Model::rodrigues(Vec3Model { x: 1real, y: 0real, z: 0real }, s, c) == Mat3Model::rotation_x(s, c),
{
    lemma_real_mat3_rodrigues_about_x_r0c0(s, c);
    lemma_real_mat3_rodrigues_about_x_r0c1(s, c);
    lemma_real_mat3_rodrigues_about_x_r0c2(s, c);
    lemma_real_mat3_rodrigues_about_x_r1c0(s, c);
    lemma_real_mat3_rodrigues_about_x_r1c1(s, c);
    lemma_real_mat3_rodrigues_about_x_r1c2(s, c);
    lemma_real_mat3_rodrigues_about_x_r2c0(s, c);
    lemma_real_mat3_rodrigues_about_x_r2c1(s, c);
    lemma_real_mat3_rodrigues_about_x_r2c2(s, c);
}

proof fn lemma_real_mat3_rodrigues_about_y_r0c0(s: real, c: real)
    ensures
        Mat3Model::rodrigues(Vec3Model { x: 0real, y: 1real, z: 0real }, s, c).r0c0 == Mat3Model::rotation_y(s, c).r0c0,
{
    assert(((0real * 0real) * (1real - c))
        == ((0real * 0real) * 1real) - ((0real * 0real) * c)) by (nonlinear_arith);
    assert(((0real * 0real) * 1real) == 0real) by (nonlinear_arith);
    assert(((0real * 0real) * c) == 0real) by (nonlinear_arith);
}

proof fn lemma_real_mat3_rodrigues_about_y_r0c1(s: real, c: real)
    ensures
        Mat3Model::rodrigues(Vec3Model { x: 0real, y: 1real, z: 0real }, s, c).r0c1 == Mat3Model::rotation_y(s, c).r0c1,
{
    assert(((0real * 1real) * (1real - c))
        == ((0real * 1real) * 1real) - ((0real * 1real) * c)) by (nonlinear_arith);
    assert(((0real * 1real) * 1real) == 0real) by (nonlinear_arith);
    assert(((0real * 1real) * c) == 0real) by (nonlinear_arith);
    assert((0real * s) == 0real) by (nonlinear_arith);
}

proof fn lemma_real_mat3_rodrigues_about_y_r0c2(s: real, c: real)
    ensures
        Mat3Model::rodrigues(Vec3Model { x: 0real, y: 1real, z: 0real }, s, c).r0c2 == Mat3Model::rotation_y(s, c).r0c2,
{
    assert(((0real * 0real) * (1real - c))
        == ((0real * 0real) * 1real) - ((0real * 0real) * c)) by (nonlinear_arith);
    assert(((0real * 0real) * 1real) == 0real) by (nonlinear_arith);
    assert(((0real * 0real) * c) == 0real) by (nonlinear_arith);
    assert((1real * s) == s) by (nonlinear_arith);
}

proof fn lemma_real_mat3_rodrigues_about_y_r1c0(s: real, c: real)
    ensures
        Mat3Model::rodrigues(Vec3Model { x: 0real, y: 1real, z: 0real }, s, c).r1c0 == Mat3Model::rotation_y(s, c).r1c0,
{
    assert(((0real * 1real) * (1real - c))
        == ((0real * 1real) * 1real) - ((0real * 1real) * c)) by (nonlinear_arith);
    assert(((0real * 1real) * 1real) == 0real) by (nonlinear_arith);
    assert(((0real * 1real) * c) == 0real) by (nonlinear_arith);
    assert((0real * s) == 0real) by (nonlinear_arith);
}

proof fn lemma_real_mat3_rodrigues_about_y_r1c1(s: real, c: real)
    ensures
        Mat3Model::rodrigues(Vec3Model { x: 0real, y: 1real, z: 0real }, s, c).r1c1 == Mat3Model::rotation_y(s, c).r1c1,
{
    assert(((1real * 1real) * (1real - c))
        == ((1real * 1real) * 1real) - ((1real * 1real) * c)) by (nonlinear_arith);
    assert(((1real * 1real) * 1real) == 1real) by (nonlinear_arith);
    assert(((1real * 1real) * c) == c) by (nonlinear_arith);
}

proof fn lemma_real_mat3_rodrigues_about_y_r1c2(s: real, c: real)
    ensures
        Mat3Model::rodrigues(Vec3Model { x: 0real, y: 1real, z: 0real }, s, c).r1c2 == Mat3Model::rotation_y(s, c).r1c2,
{
    assert(((1real * 0real) * (1real - c))
        == ((1real * 0real) * 1real) - ((1real * 0real) * c)) by (nonlinear_arith);
    assert(((1real * 0real) * 1real) == 0real) by (nonlinear_arith);
    assert(((1real * 0real) * c) == 0real) by (nonlinear_arith);
    assert((0real * s) == 0real) by (nonlinear_arith);
}

proof fn lemma_real_mat3_rodrigues_about_y_r2c0(s: real, c: real)
    ensures
        Mat3Model::rodrigues(Vec3Model { x: 0real, y: 1real, z: 0real }, s, c).r2c0 == Mat3Model::rotation_y(s, c).r2c0,
{
    assert(((0real * 0real) * (1real - c))
        == ((0real * 0real) * 1real) - ((0real * 0real) * c)) by (nonlinear_arith);
    assert(((0real * 0real) * 1real) == 0real) by (nonlinear_arith);
    assert(((0real * 0real) * c) == 0real) by (nonlinear_arith);
    assert((1real * s) == s) by (nonlinear_arith);
}

proof fn lemma_real_mat3_rodrigues_about_y_r2c1(s: real, c: real)
    ensures
        Mat3Model::rodrigues(Vec3Model { x: 0real, y: 1real, z: 0real }, s, c).r2c1 == Mat3Model::rotation_y(s, c).r2c1,
{
    assert(((1real * 0real) * (1real - c))
        == ((1real * 0real) * 1real) - ((1real * 0real) * c)) by (nonlinear_arith);
    assert(((1real * 0real) * 1real) == 0real) by (nonlinear_arith);
    assert(((1real * 0real) * c) == 0real) by (nonlinear_arith);
    assert((0real * s) == 0real) by (nonlinear_arith);
}

proof fn lemma_real_mat3_rodrigues_about_y_r2c2(s: real, c: real)
    ensures
        Mat3Model::rodrigues(Vec3Model { x: 0real, y: 1real, z: 0real }, s, c).r2c2 == Mat3Model::rotation_y(s, c).r2c2,
{
    assert(((0real * 0real) * (1real - c))
        == ((0real * 0real) * 1real) - ((0real * 0real) * c)) by (nonlinear_arith);
    assert(((0real * 0real) * 1real) == 0real) by (nonlinear_arith);
    assert(((0real * 0real) * c) == 0real) by (nonlinear_arith);
}

/// About the y axis the formula of Rodrigues gives the rotation about that axis.
pub proof fn lemma_real_mat3_rodrigues_about_y(s: real, c: real)
    ensures
        Mat3Model::rodrigues(Vec3Model { x: 0real, y: 1real, z: 0real }, s, c) == Mat3Model::rotation_y(s, c),
{
    lemma_real_mat3_rodrigues_about_y_r0c0(s, c);
    lemma_real_mat3_rodrigues_about_y_r0c1(s, c);
    lemma_real_mat3_rodrigues_about_y_r0c2(s, c);
    lemma_real_mat3_rodrigues_about_y_r1c0(s, c);
    lemma_real_mat3_rodrigues_about_y_r1c1(s, c);
    lemma_real_mat3_rodrigues_about_y_r1c2(s, c);
    lemma_real_mat3_rodrigues_about_y_r2c0(s, c);
    lemma_real_mat3_rodrigues_about_y_r2c1(s, c);
    lemma_real_mat3_rodrigues_about_y_r2c2(s, c);
}

proof fn lemma_real_mat3_rodrigues_about_z_r0c0(s: real, c: real)
    ensures
        Mat3Model::rodrigues(Vec3Model { x: 0real, y: 0real, z: 1real }, s, c).r0c0 == Mat3Model::rotation_z(s, c).r0c0,
{
    assert(((0real * 0real) * (1real - c))
        == ((0real * 0real) * 1real) - ((0real * 0real) * c)) by (nonlinear_arith);
    assert(((0real * 0real) * 1real) == 0real) by (nonlinear_arith);
    assert(((0real * 0real) * c) == 0real) by (nonlinear_arith);
}

proof fn lemma_real_mat3_rodrigues_about_z_r0c1(s: real, c: real)
    ensures
        Mat3Model::rodrigues(Vec3Model { x: 0real, y: 0real, z: 1real }, s, c).r0c1 == Mat3Model::rotation_z(s, c).r0c1,
{
    assert(((0real * 0real) * (1real - c))
        == ((0real * 0real) * 1real) - ((0real * 0real) * c)) by (nonlinear_arith);
    assert(((0real * 0real) * 1real) == 0real) by (nonlinear_arith);
    assert(((0real * 0real) * c) == 0real) by (nonlinear_arith);
    assert((1real * s) == s) by (nonlinear_arith);
}

proof fn lemma_real_mat3_rodrigues_about_z_r0c2(s: real, c: real)
    ensures
        Mat3Model::rodrigues(Vec3Model { x: 0real, y: 0real, z: 1real }, s, c).r0c2 == Mat3Model::rotation_z(s, c).r0c2,
{
    assert(((0real * 1real) * (1real - c))
        == ((0real * 1real) * 1real) - ((0real * 1real) * c)) by (nonlinear_arith);
    assert(((0real * 1real) * 1real) == 0real) by (nonlinear_arith);
    assert(((0real * 1real) * c) == 0real) by (nonlinear_arith);
    assert((0real * s) == 0real) by (nonlinear_arith);
}

proof fn lemma_real_mat3_rodrigues_about_z_r1c0(s: real, c: real)
    ensures
        Mat3Model::rodrigues(Vec3Model { x: 0real, y: 0real, z: 1real }, s, c).r1c0 == Mat3Model::rotation_z(s, c).r1c0,
{
    assert(((0real * 0real) * (1real - c))
        == ((0real * 0real) * 1real) - ((0real * 0real) * c)) by (nonlinear_arith);
    assert(((0real * 0real) * 1real) == 0real) by (nonlinear_arith);
    assert(((0real * 0real) * c) == 0real) by (nonlinear_arith);
    assert((1real * s) == s) by (nonlinear_arith);
}

proof fn lemma_real_mat3_rodrigues_about_z_r1c1(s: real, c: real)
    ensures
        Mat3Model::rodrigues(Vec3Model { x: 0real, y: 0real, z: 1real }, s, c).r1c1 == Mat3Model::rotation_z(s, c).r1c1,
{
    assert(((0real * 0real) * (1real - c))
        == ((0real * 0real) * 1real) - ((0real * 0real) * c)) by (nonlinear_arith);
    assert(((0real * 0real) * 1real) == 0real) by (nonlinear_arith);
    assert(((0real * 0real) * c) == 0real) by (nonlinear_arith);
}

proof fn lemma_real_mat3_rodrigues_about_z_r1c2(s: real, c: real)
    ensures
        Mat3Model::rodrigues(Vec3Model { x: 0real, y: 0real, z: 1real }, s, c).r1c2 == Mat3Model::rotation_z(s, c).r1c2,
{
    assert(((0real * 1real) * (1real - c))
        == ((0real * 1real) * 1real) - ((0real * 1real) * c)) by (nonlinear_arith);
    assert(((0real * 1real) * 1real) == 0real) by (nonlinear_arith);
    assert(((0real * 1real) * c) == 0real) by (nonlinear_arith);
    assert((0real * s) == 0real) by (nonlinear_arith);
}

proof fn lemma_real_mat3_rodrigues_about_z_r2c0(s: real, c: real)
    ensures
        Mat3Model::rodrigues(Vec3Model { x: 0real, y: 0real, z: 1real }, s, c).r2c0 == Mat3Model::rotation_z(s, c).r2c0,
{
    assert(((0real * 1real) * (1real - c))
        == ((0real * 1real) * 1real) - ((0real * 1real) * c)) by (nonlinear_arith);
    assert(((0real * 1real) * 1real) == 0real) by (nonlinear_arith);
    assert(((0real * 1real) * c) == 0real) by (nonlinear_arith);
    assert((0real * s) == 0real) by (nonlinear_arith);
}

proof fn lemma_real_mat3_rodrigues_about_z_r2c1(s: real, c: real)
    ensures
        Mat3Model::rodrigues(Vec3Model { x: 0real, y: 0real, z: 1real }, s, c).r2c1 == Mat3Model::rotation_z(s, c).r2c1,
{
    assert(((0real * 1real) * (1real - c))
        == ((0real * 1real) * 1real) - ((0real * 1real) * c)) by (nonlinear_arith);
    assert(((0real * 1real) * 1real) == 0real) by (nonlinear_arith);
    assert(((0real * 1real) * c) == 0real) by (nonlinear_arith);
    assert((0real * s) == 0real) by (nonlinear_arith);
}

proof fn lemma_real_mat3_rodrigues_about_z_r2c2(s: real, c: real)
    ensures
        Mat3Model::rodrigues(Vec3Model { x: 0real, y: 0real, z: 1real }, s, c).r2c2 == Mat3Model::rotation_z(s, c).r2c2,
{
    assert(((1real * 1real) * (1real - c))
        == ((1real * 1real) * 1real) - ((1real * 1real) * c)) by (nonlinear_arith);
    assert(((1real * 1real) * 1real) == 1real) by (nonlinear_arith);
    assert(((1real * 1real) * c) == c) by (nonlinear_arith);
}

/// About the z axis the formula of Rodrigues gives the rotation about that axis.
pub proof fn lemma_real_mat3_rodrigues_about_z(s: real, c: real)
    ensures
        Mat3Model::rodrigues(Vec3Model { x: 0real, y: 0real, z: 1real }, s, c) == Mat3Model::rotation_z(s, c),
{
    lemma_real_mat3_rodrigues_about_z_r0c0(s, c);
    lemma_real_mat3_rodrigues_about_z_r0c1(s, c);
    lemma_real_mat3_rodrigues_about_z_r0c2(s, c);
    lemma_real_mat3_rodrigues_about_z_r1c0(s, c);
    lemma_real_mat3_rodrigues_about_z_r1c1(s, c);
    lemma_real_mat3_rodrigues_about_z_r1c2(s, c);
    lemma_real_mat3_rodrigues_about_z_r2c0(s, c);
    lemma_real_mat3_rodrigues_about_z_r2c1(s, c);
    lemma_real_mat3_rodrigues_about_z_r2c2(s, c);
}

proof fn lemma_real_mat4_rodrigues_about_x_r0c0(s: real, c: real)
    ensures
        Mat4Model::rodrigues(Vec3Model { x: 1real, y: 0real, z: 0real }, s, c).r0c0 == Mat4Model::rotation_x(s, c).r0c0,
{
    assert(((1real * 1real) * (1real - c))
        == ((1real * 1real) * 1real) - ((1real * 1real) * c)) by (nonlinear_arith);
    assert(((1real * 1real) * 1real) == 1real) by (nonlinear_arith);
    assert(((1real * 1real) * c) == c) by (nonlinear_arith);
}

proof fn lemma_real_mat4_rodrigues_about_x_r0c1(s: real, c: real)
    ensures
        Mat4Model::rodrigues(Vec3Model { x: 1real, y: 0real, z: 0real }, s, c).r0c1 == Mat4Model::rotation_x(s, c).r0c1,
{
    assert(((1real * 0real) * (1real - c))
        == ((1real * 0real) * 1real) - ((1real * 0real) * c)) by (nonlinear_arith);
    assert(((1real * 0real) * 1real) == 0real) by (nonlinear_arith);
    assert(((1real * 0real) * c) == 0real) by (nonlinear_arith);
    assert((0real * s) == 0real) by (nonlinear_arith);
}

proof fn lemma_real_mat4_rodrigues_about_x_r0c2(s: real, c: real)
    ensures
        Mat4Model::rodrigues(Vec3Model { x: 1real, y: 0real, z: 0real }, s, c).r0c2 == Mat4Model::rotation_x(s, c).r0c2,
{
    assert(((1real * 0real) * (1real - c))
        == ((1real * 0real) * 1real) - ((1real * 0real) * c)) by (nonlinear_arith);
    assert(((1real * 0real) * 1real) == 0real) by (nonlinear_arith);
    assert(((1real * 0real) * c) == 0real) by (nonlinear_arith);
    assert((0real * s) == 0real) by (nonlinear_arith);
}

proof fn lemma_real_mat4_rodrigues_about_x_r0c3(s: real, c: real)
    ensures
        Mat4Model::rodrigues(Vec3Model { x: 1real, y: 0real, z: 0real }, s, c).r0c3 == Mat4Model::rotation_x(s, c).r0c3,
{
}

proof fn lemma_real_mat4_rodrigues_about_x_r1c0(s: real, c: real)
    ensures
        Mat4Model::rodrigues(Vec3Model { x: 1real, y: 0real, z: 0real }, s, c).r1c0 == Mat4Model::rotation_x(s, c).r1c0,
{
    assert(((1real * 0real) * (1real - c))
        == ((1real * 0real) * 1real) - ((1real * 0real) * c)) by (nonlinear_arith);
    assert(((1real * 0real) * 1real) == 0real) by (nonlinear_arith);
    assert(((1real * 0real) * c) == 0real) by (nonlinear_arith);
    assert((0real * s) == 0real) by (nonlinear_arith);
}

proof fn lemma_real_mat4_rodrigues_about_x_r1c1(s: real, c: real)
    ensures
        Mat4Model::rodrigues(Vec3Model { x: 1real, y: 0real, z: 0real }, s, c).r1c1 == Mat4Model::rotation_x(s, c).r1c1,
{
    assert(((0real * 0real) * (1real - c))
        == ((0real * 0real) * 1real) - ((0real * 0real) * c)) by (nonlinear_arith);
    assert(((0real * 0real) * 1real) == 0real) by (nonlinear_arith);
    assert(((0real * 0real) * c) == 0real) by (nonlinear_arith);
}

proof fn lemma_real_mat4_rodrigues_about_x_r1c2(s: real, c: real)
    ensures
        Mat4Model::rodrigues(Vec3Model { x: 1real, y: 0real, z: 0real }, s, c).r1c2 == Mat4Model::rotation_x(s, c).r1c2,
{
    assert(((0real * 0real) * (1real - c))
        == ((0real * 0real) * 1real) - ((0real * 0real) * c)) by (nonlinear_arith);
    assert(((0real * 0real) * 1real) == 0real) by (nonlinear_arith);
    assert(((0real * 0real) * c) == 0real) by (nonlinear_arith);
    assert((1real * s) == s) by (nonlinear_arith);
}

proof fn lemma_real_mat4_rodrigues_about_x_r1c3(s: real, c: real)
    ensures
        Mat4Model::rodrigues(Vec3Model { x: 1real, y: 0real, z: 0real }, s, c).r1c3 == Mat4Model::rotation_x(s, c).r1c3,
{
}

proof fn lemma_real_mat4_rodrigues_about_x_r2c0(s: real, c: real)
    ensures
        Mat4Model::rodrigues(Vec3Model { x: 1real, y: 0real, z: 0real }, s, c).r2c0 == Mat4Model::rotation_x(s, c).r2c0,
{
    assert(((1real * 0real) * (1real - c))
        == ((1real * 0real) * 1real) - ((1real * 0real) * c)) by (nonlinear_arith);
    assert(((1real * 0real) * 1real) == 0real) by (nonlinear_arith);
    assert(((1real * 0real) * c) == 0real) by (nonlinear_arith);
    assert((0real * s) == 0real) by (nonlinear_arith);
}

proof fn lemma_real_mat4_rodrigues_about_x_r2c1(s: real, c: real)
    ensures
        Mat4Model::rodrigues(Vec3Model { x: 1real, y: 0real, z: 0real }, s, c).r2c1 == Mat4Model::rotation_x(s, c).r2c1,
{
    assert(((0real * 0real) * (1real - c))
        == ((0real * 0real) * 1real) - ((0real * 0real) * c)) by (nonlinear_arith);
    assert(((0real * 0real) * 1real) == 0real) by (nonlinear_arith);
    assert(((0real * 0real) * c) == 0real) by (nonlinear_arith);
    assert((1real * s) == s) by (nonlinear_arith);
}

proof fn lemma_real_mat4_rodrigues_about_x_r2c2(s: real, c: real)
    ensures
        Mat4Model::rodrigues(Vec3Model { x: 1real, y: 0real, z: 0real }, s, c).r2c2 == Mat4Model::rotation_x(s, c).r2c2,
{
    assert(((0real * 0real) * (1real - c))
        == ((0real * 0real) * 1real) - ((0real * 0real) * c)) by (nonlinear_arith);
    assert(((0real * 0real) * 1real) == 0real) by (nonlinear_arith);
    assert(((0real * 0real) * c) == 0real) by (nonlinear_arith);
}

proof fn lemma_real_mat4_rodrigues_about_x_r2c3(s: real, c: real)
    ensures
        Mat4Model::rodrigues(Vec3Model { x: 1real, y: 0real, z: 0real }, s, c).r2c3 == Mat4Model::rotation_x(s, c).r2c3,
{
}

proof fn lemma_real_mat4_rodrigues_about_x_r3c0(s: real, c: real)
    ensures
        Mat4Model::rodrigues(Vec3Model { x: 1real, y: 0real, z: 0real }, s, c).r3c0 == Mat4Model::rotation_x(s, c).r3c0,
{
}

proof fn lemma_real_mat4_rodrigues_about_x_r3c1(s: real, c: real)
    ensures
        Mat4Model::rodrigues(Vec3Model { x: 1real, y: 0real, z: 0real }, s, c).r3c1 == Mat4Model::rotation_x(s, c).r3c1,
{
}

proof fn lemma_real_mat4_rodrigues_about_x_r3c2(s: real, c: real)
    ensures
        Mat4Model::rodrigues(Vec3Model { x: 1real, y: 0real, z: 0real }, s, c).r3c2 == Mat4Model::rotation_x(s, c).r3c2,
{
}

proof fn lemma_real_mat4_rodrigues_about_x_r3c3(s: real, c: real)
    ensures
        Mat4Model::rodrigues(Vec3Model { x: 1real, y: 0real, z: 0real }, s, c).r3c3 == Mat4Model::rotation_x(s, c).r3c3,
{
}

/// About the x axis the formula of Rodrigues gives the rotation about that axis.
pub proof fn lemma_real_mat4_rodrigues_about_x(s: real, c: real)
    ensures
        Mat4Model::rodrigues(Vec3Model { x: 1real, y: 0real, z: 0real }, s, c) == Mat4Model::rotation_x(s, c),
{
    lemma_real_mat4_rodrigues_about_x_r0c0(s, c);
    lemma_real_mat4_rodrigues_about_x_r0c1(s, c);
    lemma_real_mat4_rodrigues_about_x_r0c2(s, c);
    lemma_real_mat4_rodrigues_about_x_r0c3(s, c);
    lemma_real_mat4_rodrigues_about_x_r1c0(s, c);
    lemma_real_mat4_rodrigues_about_x_r1c1(s, c);
    lemma_real_mat4_rodrigues_about_x_r1c2(s, c);
    lemma_real_mat4_rodrigues_about_x_r1c3(s, c);
    lemma_real_mat4_rodrigues_about_x_r2c0(s, c);
    lemma_real_mat4_rodrigues_about_x_r2c1(s, c);
    lemma_real_mat4_rodrigues_about_x_r2c2(s, c);
    lemma_real_mat4_rodrigues_about_x_r2c3(s, c);
    lemma_real_mat4_rodrigues_about_x_r3c0(s, c);
    lemma_real_mat4_rodrigues_about_x_r3c1(s, c);
    lemma_real_mat4_rodrigues_about_x_r3c2(s, c);
    lemma_real_mat4_rodrigues_about_x_r3c3(s, c);
}

proof fn lemma_real_mat4_rodrigues_about_y_r0c0(s: real, c: real)
    ensures
        Mat4Model::rodrigues(Vec3Model { x: 0real, y: 1real, z: 0real }, s, c).r0c0 == Mat4Model::rotation_y(s, c).r0c0,
{
    assert(((0real * 0real) * (1real - c))
        == ((0real * 0real) * 1real) - ((0real * 0real) * c)) by (nonlinear_arith);
    assert(((0real * 0real) * 1real) == 0real) by (nonlinear_arith);
    assert(((0real * 0real) * c) == 0real) by (nonlinear_arith);
}

proof fn lemma_real_mat4_rodrigues_about_y_r0c1(s: real, c: real)
    ensures
        Mat4Model::rodrigues(Vec3Model { x: 0real, y: 1real, z: 0real }, s, c).r0c1 == Mat4Model::rotation_y(s, c).r0c1,
{
    assert(((0real * 1real) * (1real - c))
        == ((0real * 1real) * 1real) - ((0real * 1real) * c)) by (nonlinear_arith);
    assert(((0real * 1real) * 1real) == 0real) by (nonlinear_arith);
    assert(((0real * 1real) * c) == 0real) by (nonlinear_arith);
    assert((0real * s) == 0real) by (nonlinear_arith);
}

proof fn lemma_real_mat4_rodrigues_about_y_r0c2(s: real, c: real)
    ensures
        Mat4Model::rodrigues(Vec3Model { x: 0real, y: 1real, z: 0real }, s, c).r0c2 == Mat4Model::rotation_y(s, c).r0c2,
{
    assert(((0real * 0real) * (1real - c))
        == ((0real * 0real) * 1real) - ((0real * 0real) * c)) by (nonlinear_arith);
    assert(((0real * 0real) * 1real) == 0real) by (nonlinear_arith);
    assert(((0real * 0real) * c) == 0real) by (nonlinear_arith);
    assert((1real * s) == s) by (nonlinear_arith);
}

proof fn lemma_real_mat4_rodrigues_about_y_r0c3(s: real, c: real)
    ensures
        Mat4Model::rodrigues(Vec3Model { x: 0real, y: 1real, z: 0real }, s, c).r0c3 == Mat4Model::rotation_y(s, c).r0c3,
{
}

proof fn lemma_real_mat4_rodrigues_about_y_r1c0(s: real, c: real)
    ensures
        Mat4Model::rodrigues(Vec3Model { x: 0real, y: 1real, z: 0real }, s, c).r1c0 == Mat4Model::rotation_y(s, c).r1c0,
{
    assert(((0real * 1real) * (1real - c))
        == ((0real * 1real) * 1real) - ((0real * 1real) * c)) by (nonlinear_arith);
    assert(((0real * 1real) * 1real) == 0real) by (nonlinear_arith);
    assert(((0real * 1real) * c) == 0real) by (nonlinear_arith);
    assert((0real * s) == 0real) by (nonlinear_arith);
}

proof fn lemma_real_mat4_rodrigues_about_y_r1c1(s: real, c: real)
    ensures
        Mat4Model::rodrigues(Vec3Model { x: 0real, y: 1real, z: 0real }, s, c).r1c1 == Mat4Model::rotation_y(s, c).r1c1,
{
    assert(((1real * 1real) * (1real - c))
        == ((1real * 1real) * 1real) - ((1real * 1real) * c)) by (nonlinear_arith);
    assert(((1real * 1real) * 1real) == 1real) by (nonlinear_arith);
    assert(((1real * 1real) * c) == c) by (nonlinear_arith);
}

proof fn lemma_real_mat4_rodrigues_about_y_r1c2(s: real, c: real)
    ensures
        Mat4Model::rodrigues(Vec3Model { x: 0real, y: 1real, z: 0real }, s, c).r1c2 == Mat4Model::rotation_y(s, c).r1c2,
{
    assert(((1real * 0real) * (1real - c))
        == ((1real * 0real) * 1real) - ((1real * 0real) * c)) by (nonlinear_arith);
    assert(((1real * 0real) * 1real) == 0real) by (nonlinear_arith);
    assert(((1real * 0real) * c) == 0real) by (nonlinear_arith);
    assert((0real * s) == 0real) by (nonlinear_arith);
}

proof fn lemma_real_mat4_rodrigues_about_y_r1c3(s: real, c: real)
    ensures
        Mat4Model::rodrigues(Vec3Model { x: 0real, y: 1real, z: 0real }, s, c).r1c3 == Mat4Model::rotation_y(s, c).r1c3,
{
}

proof fn lemma_real_mat4_rodrigues_about_y_r2c0(s: real, c: real)
    ensures
        Mat4Model::rodrigues(Vec3Model { x: 0real, y: 1real, z: 0real }, s, c).r2c0 == Mat4Model::rotation_y(s, c).r2c0,
{
    assert(((0real * 0real) * (1real - c))
        == ((0real * 0real) * 1real) - ((0real * 0real) * c)) by (nonlinear_arith);
    assert(((0real * 0real) * 1real) == 0real) by (nonlinear_arith);
    assert(((0real * 0real) * c) == 0real) by (nonlinear_arith);
    assert((1real * s) == s) by (nonlinear_arith);
}

proof fn lemma_real_mat4_rodrigues_about_y_r2c1(s: real, c: real)
    ensures
        Mat4Model::rodrigues(Vec3Model { x: 0real, y: 1real, z: 0real }, s, c).r2c1 == Mat4Model::rotation_y(s, c).r2c1,
{
    assert(((1real * 0real) * (1real - c))
        == ((1real * 0real) * 1real) - ((1real * 0real) * c)) by (nonlinear_arith);
    assert(((1real * 0real) * 1real) == 0real) by (nonlinear_arith);
    assert(((1real * 0real) * c) == 0real) by (nonlinear_arith);
    assert((0real * s) == 0real) by (nonlinear_arith);
}

proof fn lemma_real_mat4_rodrigues_about_y_r2c2(s: real, c: real)
    ensures
        Mat4Model::rodrigues(Vec3Model { x: 0real, y: 1real, z: 0real }, s, c).r2c2 == Mat4Model::rotation_y(s, c).r2c2,
{
    assert(((0real * 0real) * (1real - c))
        == ((0real * 0real) * 1real) - ((0real * 0real) * c)) by (nonlinear_arith);
    assert(((0real * 0real) * 1real) == 0real) by (nonlinear_arith);
    assert(((0real * 0real) * c) == 0real) by (nonlinear_arith);
}

proof fn lemma_real_mat4_rodrigues_about_y_r2c3(s: real, c: real)
    ensures
        Mat4Model::rodrigues(Vec3Model { x: 0real, y: 1real, z: 0real }, s, c).r2c3 == Mat4Model::rotation_y(s, c).r2c3,
{
}

proof fn lemma_real_mat4_rodrigues_about_y_r3c0(s: real, c: real)
    ensures
        Mat4Model::rodrigues(Vec3Model { x: 0real, y: 1real, z: 0real }, s, c).r3c0 == Mat4Model::rotation_y(s, c).r3c0,
{
}

proof fn lemma_real_mat4_rodrigues_about_y_r3c1(s: real, c: real)
    ensures
        Mat4Model::rodrigues(Vec3Model { x: 0real, y: 1real, z: 0real }, s, c).r3c1 == Mat4Model::rotation_y(s, c).r3c1,
{
}

proof fn lemma_real_mat4_rodrigues_about_y_r3c2(s: real, c: real)
    ensures
        Mat4Model::rodrigues(Vec3Model { x: 0real, y: 1real, z: 0real }, s, c).r3c2 == Mat4Model::rotation_y(s, c).r3c2,
{
}

proof fn lemma_real_mat4_rodrigues_about_y_r3c3(s: real, c: real)
    ensures
        Mat4Model::rodrigues(Vec3Model { x: 0real, y: 1real, z: 0real }, s, c).r3c3 == Mat4Model::rotation_y(s, c).r3c3,
{
}

/// About the y axis the formula of Rodrigues gives the rotation about that axis.
pub proof fn lemma_real_mat4_rodrigues_about_y(s: real, c: real)
    ensures
        Mat4Model::rodrigues(Vec3Model { x: 0real, y: 1real, z: 0real }, s, c) == Mat4Model::rotation_y(s, c),
{
    lemma_real_mat4_rodrigues_about_y_r0c0(s, c);
    lemma_real_mat4_rodrigues_about_y_r0c1(s, c);
    lemma_real_mat4_rodrigues_about_y_r0c2(s, c);
    lemma_real_mat4_rodrigues_about_y_r0c3(s, c);
    lemma_real_mat4_rodrigues_about_y_r1c0(s, c);
    lemma_real_mat4_rodrigues_about_y_r1c1(s, c);
    lemma_real_mat4_rodrigues_about_y_r1c2(s, c);
    lemma_real_mat4_rodrigues_about_y_r1c3(s, c);
    lemma_real_mat4_rodrigues_about_y_r2c0(s, c);
    lemma_real_mat4_rodrigues_about_y_r2c1(s, c);
    lemma_real_mat4_rodrigues_about_y_r2c2(s, c);
    lemma_real_mat4_rodrigues_about_y_r2c3(s, c);
    lemma_real_mat4_rodrigues_about_y_r3c0(s, c);
    lemma_real_mat4_rodrigues_about_y_r3c1(s, c);
    lemma_real_mat4_rodrigues_about_y_r3c2(s, c);
    lemma_real_mat4_rodrigues_about_y_r3c3(s, c);
}

proof fn lemma_real_mat4_rodrigues_about_z_r0c0(s: real, c: real)
    ensures
        Mat4Model::rodrigues(Vec3Model { x: 0real, y: 0real, z: 1real }, s, c).r0c0 == Mat4Model::rotation_z(s, c).r0c0,
{
    assert(((0real * 0real) * (1real - c))
        == ((0real * 0real) * 1real) - ((0real * 0real) * c)) by (nonlinear_arith);
    assert(((0real * 0real) * 1real) == 0real) by (nonlinear_arith);
    assert(((0real * 0real) * c) == 0real) by (nonlinear_arith);
}

proof fn lemma_real_mat4_rodrigues_about_z_r0c1(s: real, c: real)
    ensures
        Mat4Model::rodrigues(Vec3Model { x: 0real, y: 0real, z: 1real }, s, c).r0c1 == Mat4Model::rotation_z(s, c).r0c1,
{
    assert(((0real * 0real) * (1real - c))
        == ((0real * 0real) * 1real) - ((0real * 0real) * c)) by (nonlinear_arith);
    assert(((0real * 0real) * 1real) == 0real) by (nonlinear_arith);
    assert(((0real * 0real) * c) == 0real) by (nonlinear_arith);
    assert((1real * s) == s) by (nonlinear_arith);
}

proof fn lemma_real_mat4_rodrigues_about_z_r0c2(s: real, c: real)
    ensures
        Mat4Model::rodrigues(Vec3Model { x: 0real, y: 0real, z: 1real }, s, c).r0c2 == Mat4Model::rotation_z(s, c).r0c2,
{
    assert(((0real * 1real) * (1real - c))
        == ((0real * 1real) * 1real) - ((0real * 1real) * c)) by (nonlinear_arith);
    assert(((0real * 1real) * 1real) == 0real) by (nonlinear_arith);
    assert(((0real * 1real) * c) == 0real) by (nonlinear_arith);
    assert((0real * s) == 0real) by (nonlinear_arith);
}

proof fn lemma_real_mat4_rodrigues_about_z_r0c3(s: real, c: real)
    ensures
        Mat4Model::rodrigues(Vec3Model { x: 0real, y: 0real, z: 1real }, s, c).r0c3 == Mat4Model::rotation_z(s, c).r0c3,
{
}

proof fn lemma_real_mat4_rodrigues_about_z_r1c0(s: real, c: real)
    ensures
        Mat4Model::rodrigues(Vec3Model { x: 0real, y: 0real, z: 1real }, s, c).r1c0 == Mat4Model::rotation_z(s, c).r1c0,
{
    assert(((0real * 0real) * (1real - c))
        == ((0real * 0real) * 1real) - ((0real * 0real) * c)) by (nonlinear_arith);
    assert(((0real * 0real) * 1real) == 0real) by (nonlinear_arith);
    assert(((0real * 0real) * c) == 0real) by (nonlinear_arith);
    assert((1real * s) == s) by (nonlinear_arith);
}

proof fn lemma_real_mat4_rodrigues_about_z_r1c1(s: real, c: real)
    ensures
        Mat4Model::rodrigues(Vec3Model { x: 0real, y: 0real, z: 1real }, s, c).r1c1 == Mat4Model::rotation_z(s, c).r1c1,
{
    assert(((0real * 0real) * (1real - c))
        == ((0real * 0real) * 1real) - ((0real * 0real) * c)) by (nonlinear_arith);
    assert(((0real * 0real) * 1real) == 0real) by (nonlinear_arith);
    assert(((0real * 0real) * c) == 0real) by (nonlinear_arith);
}

proof fn lemma_real_mat4_rodrigues_about_z_r1c2(s: real, c: real)
    ensures
        Mat4Model::rodrigues(Vec3Model { x: 0real, y: 0real, z: 1real }, s, c).r1c2 == Mat4Model::rotation_z(s, c).r1c2,
{
    assert(((0real * 1real) * (1real - c))
        == ((0real * 1real) * 1real) - ((0real * 1real) * c)) by (nonlinear_arith);
    assert(((0real * 1real) * 1real) == 0real) by (nonlinear_arith);
    assert(((0real * 1real) * c) == 0real) by (nonlinear_arith);
    assert((0real * s) == 0real) by (nonlinear_arith);
}

proof fn lemma_real_mat4_rodrigues_about_z_r1c3(s: real, c: real)
    ensures
        Mat4Model::rodrigues(Vec3Model { x: 0real, y: 0real, z: 1real }, s, c).r1c3 == Mat4Model::rotation_z(s, c).r1c3,
{
}

proof fn lemma_real_mat4_rodrigues_about_z_r2c0(s: real, c: real)
    ensures
        Mat4Model::rodrigues(Vec3Model { x: 0real, y: 0real, z: 1real }, s, c).r2c0 == Mat4Model::rotation_z(s, c).r2c0,
{
    assert(((0real * 1real) * (1real - c))
        == ((0real * 1real) * 1real) - ((0real * 1real) * c)) by (nonlinear_arith);
    assert(((0real * 1real) * 1real) == 0real) by (nonlinear_arith);
    assert(((0real * 1real) * c) == 0real) by (nonlinear_arith);
    assert((0real * s) == 0real) by (nonlinear_arith);
}

proof fn lemma_real_mat4_rodrigues_about_z_r2c1(s: real, c: real)
    ensures
        Mat4Model::rodrigues(Vec3Model { x: 0real, y: 0real, z: 1real }, s, c).r2c1 == Mat4Model::rotation_z(s, c).r2c1,
{
    assert(((0real * 1real) * (1real - c))
        == ((0real * 1real) * 1real) - ((0real * 1real) * c)) by (nonlinear_arith);
    assert(((0real * 1real) * 1real) == 0real) by (nonlinear_arith);
    assert(((0real * 1real) * c) == 0real) by (nonlinear_arith);
    assert((0real * s) == 0real) by (nonlinear_arith);
}

proof fn lemma_real_mat4_rodrigues_about_z_r2c2(s: real, c: real)
    ensures
        Mat4Model::rodrigues(Vec3Model { x: 0real, y: 0real, z: 1real }, s, c).r2c2 == Mat4Model::rotation_z(s, c).r2c2,
{
    assert(((1real * 1real) * (1real - c))
        == ((1real * 1real) * 1real) - ((1real * 1real) * c)) by (nonlinear_arith);
    assert(((1real * 1real) * 1real) == 1real) by (nonlinear_arith);
    assert(((1real * 1real) * c) == c) by (nonlinear_arith);
}

proof fn lemma_real_mat4_rodrigues_about_z_r2c3(s: real, c: real)
    ensures
        Mat4Model::rodrigues(Vec3Model { x: 0real, y: 0real, z: 1real }, s, c).r2c3 == Mat4Model::rotation_z(s, c).r2c3,
{
}

proof fn lemma_real_mat4_rodrigues_about_z_r3c0(s: real, c: real)
    ensures
        Mat4Model::rodrigues(Vec3Model { x: 0real, y: 0real, z: 1real }, s, c).r3c0 == Mat4Model::rotation_z(s, c).r3c0,
{
}

proof fn lemma_real_mat4_rodrigues_about_z_r3c1(s: real, c: real)
    ensures
        Mat4Model::rodrigues(Vec3Model { x: 0real, y: 0real, z: 1real }, s, c).r3c1 == Mat4Model::rotation_z(s, c).r3c1,
{
}

proof fn lemma_real_mat4_rodrigues_about_z_r3c2(s: real, c: real)
    ensures
        Mat4Model::rodrigues(Vec3Model { x: 0real, y: 0real, z: 1real }, s, c).r3c2 == Mat4Model::rotation_z(s, c).r3c2,
{
}

proof fn lemma_real_mat4_rodrigues_about_z_r3c3(s: real, c: real)
    ensures
        Mat4Model::rodrigues(Vec3Model { x: 0real, y: 0real, z: 1real }, s, c).r3c3 == Mat4Model::rotation_z(s, c).r3c3,
{
}

/// About the z axis the formula of Rodrigues gives the rotation about that axis.
pub proof fn lemma_real_mat4_rodrigues_about_z(s: real, c: real)
    ensures
        Mat4Model::rodrigues(Vec3Model { x: 0real, y: 0real, z: 1real }, s, c) == Mat4Model::rotation_z(s, c),
{
    lemma_real_mat4_rodrigues_about_z_r0c0(s, c);
    lemma_real_mat4_rodrigues_about_z_r0c1(s, c);
    lemma_real_mat4_rodrigues_about_z_r0c2(s, c);
    lemma_real_mat4_rodrigues_about_z_r0c3(s, c);
    lemma_real_mat4_rodrigues_about_z_r1c0(s, c);
    lemma_real_mat4_rodrigues_about_z_r1c1(s, c);
    lemma_real_mat4_rodrigues_about_z_r1c2(s, c);
    lemma_real_mat4_rodrigues_about_z_r1c3(s, c);
    lemma_real_mat4_rodrigues_about_z_r2c0(s, c);
    lemma_real_mat4_rodrigues_about_z_r2c1(s, c);
    lemma_real_mat4_rodrigues_about_z_r2c2(s, c);
    lemma_real_mat4_rodrigues_about_z_r2c3(s, c);
    lemma_real_mat4_rodrigues_about_z_r3c0(s, c);
    lemma_real_mat4_rodrigues_about_z_r3c1(s, c);
    lemma_real_mat4_rodrigues_about_z_r3c2(s, c);
    lemma_real_mat4_rodrigues_about_z_r3c3(s, c);
}

proof fn lemma_mat3_of_quaternion_is_rodrigues_r0c0(u: Vec3Model<real>, sh: real, ch: real)
    requires
        u.square_magnitude() == 1real,
    ensures
        Mat3Model::from_quat(QuatModel::rotation(u, sh, ch)).r0c0 == Mat3Model::rodrigues(u, 2real * sh * ch, 1real - 2real * sh * sh).r0c0,
{
    assert(((((u.y * sh) * (u.y * sh)) + ((u.z * sh) * (u.z * sh))) * (1real + 1real))
        == (((u.y * sh) * (u.y * sh)) * (1real + 1real)) + (((u.z * sh) * (u.z * sh)) * (1real + 1real))) by (nonlinear_arith);
    assert((((u.y * sh) * (u.y * sh)) * (1real + 1real))
        == (((u.y * sh) * (u.y * sh)) * 1real) + (((u.y * sh) * (u.y * sh)) * 1real)) by (nonlinear_arith);
    assert((((u.y * sh) * (u.y * sh)) * 1real) == sh * sh * u.y * u.y) by (nonlinear_arith);
    assert((((u.z * sh) * (u.z * sh)) * (1real + 1real))
        == (((u.z * sh) * (u.z * sh)) * 1real) + (((u.z * sh) * (u.z * sh)) * 1real)) by (nonlinear_arith);
    assert((((u.z * sh) * (u.z * sh)) * 1real) == sh * sh * u.z * u.z) by (nonlinear_arith);
    assert(((2real * sh) * sh) == 2real * (sh * sh)) by (nonlinear_arith);
    assert(((u.x * u.x) * (1real - (1real - ((2real * sh) * sh))))
        == ((u.x * u.x) * 1real) - ((u.x * u.x) * 1real) + ((u.x * u.x) * ((2real * sh) * sh))) by (nonlinear_arith);
    assert(((u.x * u.x) * 1real) == u.x * u.x) by (nonlinear_arith);
    assert(((u.x * u.x) * ((2real * sh) * sh))
        == 2real * (sh * sh * u.x * u.x)) by (nonlinear_arith);
    assert((((2real * sh) * sh) * (1real - (((u.x * u.x) + (u.y * u.y)) + (u.z * u.z))))
        == (((2real * sh) * sh) * 1real) - (((2real * sh) * sh) * (u.x * u.x)) - (((2real * sh) * sh) * (u.y * u.y)) - (((2real * sh) * sh) * (u.z * u.z))) by (nonlinear_arith);
    assert((((2real * sh) * sh) * 1real) == 2real * (sh * sh)) by (nonlinear_arith);
    assert((((2real * sh) * sh) * (u.x * u.x))
        == 2real * (sh * sh * u.x * u.x)) by (nonlinear_arith);
    assert((((2real * sh) * sh) * (u.y * u.y))
        == 2real * (sh * sh * u.y * u.y)) by (nonlinear_arith);
    assert((((2real * sh) * sh) * (u.z * u.z))
        == 2real * (sh * sh * u.z * u.z)) by (nonlinear_arith);
    assert((((2real * sh) * sh) * (1real - (((u.x * u.x) + (u.y * u.y)) + (u.z * u.z))))
        == 0real) by (nonlinear_arith)
        requires
            ((u.x * u.x) + (u.y * u.y)) + (u.z * u.z) == 1real,
    ;
}

proof fn lemma_mat3_of_quaternion_is_rodrigues_r0c1(u: Vec3Model<real>, sh: real, ch: real)
    requires
        u.square_magnitude() == 1real,
    ensures
        Mat3Model::from_quat(QuatModel::rotation(u, sh, ch)).r0c1 == Mat3Model::rodrigues(u, 2real * sh * ch, 1real - 2real * sh * sh).r0c1,
{
    assert(((((u.x * sh) * (u.y * sh)) - ((u.z * sh) * ch)) * (1real + 1real))
        == (((u.x * sh) * (u.y * sh)) * (1real + 1real)) - (((u.z * sh) * ch) * (1real + 1real))) by (nonlinear_arith);
    assert((((u.x * sh) * (u.y * sh)) * (1real + 1real))
        == (((u.x * sh) * (u.y * sh)) * 1real) + (((u.x * sh) * (u.y * sh)) * 1real)) by (nonlinear_arith);
    assert((((u.x * sh) * (u.y * sh)) * 1real) == sh * sh * u.x * u.y) by (nonlinear_arith);
    assert((((u.z * sh) * ch) * (1real + 1real))
        == (((u.z * sh) * ch) * 1real) + (((u.z * sh) * ch) * 1real)) by (nonlinear_arith);
    assert((((u.z * sh) * ch) * 1real) == ch * sh * u.z) by (nonlinear_arith);
    assert(((u.x * u.y) * (1real - (1real - ((2real * sh) * sh))))
        == ((u.x * u.y) * 1real) - ((u.x * u.y) * 1real) + ((u.x * u.y) * ((2real * sh) * sh))) by (nonlinear_arith);
    assert(((u.x * u.y) * 1real) == u.x * u.y) by (nonlinear_arith);
    assert(((u.x * u.y) * ((2real * sh) * sh))
        == 2real * (sh * sh * u.x * u.y)) by (nonlinear_arith);
    assert((u.z * ((2real * sh) * ch)) == 2real * (ch * sh * u.z)) by (nonlinear_arith);
}

proof fn lemma_mat3_of_quaternion_is_rodrigues_r0c2(u: Vec3Model<real>, sh: real, ch: real)
    requires
        u.square_magnitude() == 1real,
    ensures
        Mat3Model::from_quat(QuatModel::rotation(u, sh, ch)).r0c2 == Mat3Model::rodrigues(u, 2real * sh * ch, 1real - 2real * sh * sh).r0c2,
{
    assert(((((u.x * sh) * (u.z * sh)) + ((u.y * sh) * ch)) * (1real + 1real))
        == (((u.x * sh) * (u.z * sh)) * (1real + 1real)) + (((u.y * sh) * ch) * (1real + 1real))) by (nonlinear_arith);
    assert((((u.x * sh) * (u.z * sh)) * (1real + 1real))
        == (((u.x * sh) * (u.z * sh)) * 1real) + (((u.x * sh) * (u.z * sh)) * 1real)) by (nonlinear_arith);
    assert((((u.x * sh) * (u.z * sh)) * 1real) == sh * sh * u.x * u.z) by (nonlinear_arith);
    assert((((u.y * sh) * ch) * (1real + 1real))
        == (((u.y * sh) * ch) * 1real) + (((u.y * sh) * ch) * 1real)) by (nonlinear_arith);
    assert((((u.y * sh) * ch) * 1real) == ch * sh * u.y) by (nonlinear_arith);
    assert(((u.x * u.z) * (1real - (1real - ((2real * sh) * sh))))
        == ((u.x * u.z) * 1real) - ((u.x * u.z) * 1real) + ((u.x * u.z) * ((2real * sh) * sh))) by (nonlinear_arith);
    assert(((u.x * u.z) * 1real) == u.x * u.z) by (nonlinear_arith);
    assert(((u.x * u.z) * ((2real * sh) * sh))
        == 2real * (sh * sh * u.x * u.z)) by (nonlinear_arith);
    assert((u.y * ((2real * sh) * ch)) == 2real * (ch * sh * u.y)) by (nonlinear_arith);
}

proof fn lemma_mat3_of_quaternion_is_rodrigues_r1c0(u: Vec3Model<real>, sh: real, ch: real)
    requires
        u.square_magnitude() == 1real,
    ensures
        Mat3Model::from_quat(QuatModel::rotation(u, sh, ch)).r1c0 == Mat3Model::rodrigues(u, 2real * sh * ch, 1real - 2real * sh * sh).r1c0,
{
    assert(((((u.x * sh) * (u.y * sh)) + ((u.z * sh) * ch)) * (1real + 1real))
        == (((u.x * sh) * (u.y * sh)) * (1real + 1real)) + (((u.z * sh) * ch) * (1real + 1real))) by (nonlinear_arith);
    assert((((u.x * sh) * (u.y * sh)) * (1real + 1real))
        == (((u.x * sh) * (u.y * sh)) * 1real) + (((u.x * sh) * (u.y * sh)) * 1real)) by (nonlinear_arith);
    assert((((u.x * sh) * (u.y * sh)) * 1real) == sh * sh * u.x * u.y) by (nonlinear_arith);
    assert((((u.z * sh) * ch) * (1real + 1real))
        == (((u.z * sh) * ch) * 1real) + (((u.z * sh) * ch) * 1real)) by (nonlinear_arith);
    assert((((u.z * sh) * ch) * 1real) == ch * sh * u.z) by (nonlinear_arith);
    assert(((u.x * u.y) * (1real - (1real - ((2real * sh) * sh))))
        == ((u.x * u.y) * 1real) - ((u.x * u.y) * 1real) + ((u.x * u.y) * ((2real * sh) * sh))) by (nonlinear_arith);
    assert(((u.x * u.y) * 1real) == u.x * u.y) by (nonlinear_arith);
    assert(((u.x * u.y) * ((2real * sh) * sh))
        == 2real * (sh * sh * u.x * u.y)) by (nonlinear_arith);
    assert((u.z * ((2real * sh) * ch)) == 2real * (ch * sh * u.z)) by (nonlinear_arith);
}

proof fn lemma_mat3_of_quaternion_is_rodrigues_r1c1(u: Vec3Model<real>, sh: real, ch: real)
    requires
        u.square_magnitude() == 1real,
    ensures
        Mat3Model::from_quat(QuatModel::rotation(u, sh, ch)).r1c1 == Mat3Model::rodrigues(u, 2real * sh * ch, 1real - 2real * sh * sh).r1c1,
{
    assert(((((u.x * sh) * (u.x * sh)) + ((u.z * sh) * (u.z * sh))) * (1real + 1real))
        == (((u.x * sh) * (u.x * sh)) * (1real + 1real)) + (((u.z * sh) * (u.z * sh)) * (1real + 1real))) by (nonlinear_arith);
    assert((((u.x * sh) * (u.x * sh)) * (1real + 1real))
        == (((u.x * sh) * (u.x * sh)) * 1real) + (((u.x * sh) * (u.x * sh)) * 1real)) by (nonlinear_arith);
    assert((((u.x * sh) * (u.x * sh)) * 1real) == sh * sh * u.x * u.x) by (nonlinear_arith);
    assert((((u.z * sh) * (u.z * sh)) * (1real + 1real))
        == (((u.z * sh) * (u.z * sh)) * 1real) + (((u.z * sh) * (u.z * sh)) * 1real)) by (nonlinear_arith);
    assert((((u.z * sh) * (u.z * sh)) * 1real) == sh * sh * u.z * u.z) by (nonlinear_arith);
    assert(((2real * sh) * sh) == 2real * (sh * sh)) by (nonlinear_arith);
    assert(((u.y * u.y) * (1real - (1real - ((2real * sh) * sh))))
        == ((u.y * u.y) * 1real) - ((u.y * u.y) * 1real) + ((u.y * u.y) * ((2real * sh) * sh))) by (nonlinear_arith);
    assert(((u.y * u.y) * 1real) == u.y * u.y) by (nonlinear_arith);
    assert(((u.y * u.y) * ((2real * sh) * sh))
        == 2real * (sh * sh * u.y * u.y)) by (nonlinear_arith);
    assert((((2real * sh) * sh) * (1real - (((u.x * u.x) + (u.y * u.y)) + (u.z * u.z))))
        == (((2real * sh) * sh) * 1real) - (((2real * sh) * sh) * (u.x * u.x)) - (((2real * sh) * sh) * (u.y * u.y)) - (((2real * sh) * sh) * (u.z * u.z))) by (nonlinear_arith);
    assert((((2real * sh) * sh) * 1real) == 2real * (sh * sh)) by (nonlinear_arith);
    assert((((2real * sh) * sh) * (u.x * u.x))
        == 2real * (sh * sh * u.x * u.x)) by (nonlinear_arith);
    assert((((2real * sh) * sh) * (u.y * u.y))
        == 2real * (sh * sh * u.y * u.y)) by (nonlinear_arith);
    assert((((2real * sh) * sh) * (u.z * u.z))
        == 2real * (sh * sh * u.z * u.z)) by (nonlinear_arith);
    assert((((2real * sh) * sh) * (1real - (((u.x * u.x) + (u.y * u.y)) + (u.z * u.z))))
        == 0real) by (nonlinear_arith)
        requires
            ((u.x * u.x) + (u.y * u.y)) + (u.z * u.z) == 1real,
    ;
}

proof fn lemma_mat3_of_quaternion_is_rodrigues_r1c2(u: Vec3Model<real>, sh: real, ch: real)
    requires
        u.square_magnitude() == 1real,
    ensures
        Mat3Model::from_quat(QuatModel::rotation(u, sh, ch)).r1c2 == Mat3Model::rodrigues(u, 2real * sh * ch, 1real - 2real * sh * sh).r1c2,
{
    assert(((((u.y * sh) * (u.z * sh)) - ((u.x * sh) * ch)) * (1real + 1real))
        == (((u.y * sh) * (u.z * sh)) * (1real + 1real)) - (((u.x * sh) * ch) * (1real + 1real))) by (nonlinear_arith);
    assert((((u.y * sh) * (u.z * sh)) * (1real + 1real))
        == (((u.y * sh) * (u.z * sh)) * 1real) + (((u.y * sh) * (u.z * sh)) * 1real)) by (nonlinear_arith);
    assert((((u.y * sh) * (u.z * sh)) * 1real) == sh * sh * u.y * u.z) by (nonlinear_arith);
    assert((((u.x * sh) * ch) * (1real + 1real))
        == (((u.x * sh) * ch) * 1real) + (((u.x * sh) * ch) * 1real)) by (nonlinear_arith);
    assert((((u.x * sh) * ch) * 1real) == ch * sh * u.x) by (nonlinear_arith);
    assert(((u.y * u.z) * (1real - (1real - ((2real * sh) * sh))))
        == ((u.y * u.z) * 1real) - ((u.y * u.z) * 1real) + ((u.y * u.z) * ((2real * sh) * sh))) by (nonlinear_arith);
    assert(((u.y * u.z) * 1real) == u.y * u.z) by (nonlinear_arith);
    assert(((u.y * u.z) * ((2real * sh) * sh))
        == 2real * (sh * sh * u.y * u.z)) by (nonlinear_arith);
    assert((u.x * ((2real * sh) * ch)) == 2real * (ch * sh * u.x)) by (nonlinear_arith);
}

proof fn lemma_mat3_of_quaternion_is_rodrigues_r2c0(u: Vec3Model<real>, sh: real, ch: real)
    requires
        u.square_magnitude() == 1real,
    ensures
        Mat3Model::from_quat(QuatModel::rotation(u, sh, ch)).r2c0 == Mat3Model::rodrigues(u, 2real * sh * ch, 1real - 2real * sh * sh).r2c0,
{
    assert(((((u.x * sh) * (u.z * sh)) - ((u.y * sh) * ch)) * (1real + 1real))
        == (((u.x * sh) * (u.z * sh)) * (1real + 1real)) - (((u.y * sh) * ch) * (1real + 1real))) by (nonlinear_arith);
    assert((((u.x * sh) * (u.z * sh)) * (1real + 1real))
        == (((u.x * sh) * (u.z * sh)) * 1real) + (((u.x * sh) * (u.z * sh)) * 1real)) by (nonlinear_arith);
    assert((((u.x * sh) * (u.z * sh)) * 1real) == sh * sh * u.x * u.z) by (nonlinear_arith);
    assert((((u.y * sh) * ch) * (1real + 1real))
        == (((u.y * sh) * ch) * 1real) + (((u.y * sh) * ch) * 1real)) by (nonlinear_arith);
    assert((((u.y * sh) * ch) * 1real) == ch * sh * u.y) by (nonlinear_arith);
    assert(((u.x * u.z) * (1real - (1real - ((2real * sh) * sh))))
        == ((u.x * u.z) * 1real) - ((u.x * u.z) * 1real) + ((u.x * u.z) * ((2real * sh) * sh))) by (nonlinear_arith);
    assert(((u.x * u.z) * 1real) == u.x * u.z) by (nonlinear_arith);
    assert(((u.x * u.z) * ((2real * sh) * sh))
        == 2real * (sh * sh * u.x * u.z)) by (nonlinear_arith);
    assert((u.y * ((2real * sh) * ch)) == 2real * (ch * sh * u.y)) by (nonlinear_arith);
}

proof fn lemma_mat3_of_quaternion_is_rodrigues_r2c1(u: Vec3Model<real>, sh: real, ch: real)
    requires
        u.square_magnitude() == 1real,
    ensures
        Mat3Model::from_quat(QuatModel::rotation(u, sh, ch)).r2c1 == Mat3Model::rodrigues(u, 2real * sh * ch, 1real - 2real * sh * sh).r2c1,
{
    assert(((((u.y * sh) * (u.z * sh)) + ((u.x * sh) * ch)) * (1real + 1real))
        == (((u.y * sh) * (u.z * sh)) * (1real + 1real)) + (((u.x * sh) * ch) * (1real + 1real))) by (nonlinear_arith);
    assert((((u.y * sh) * (u.z * sh)) * (1real + 1real))
        == (((u.y * sh) * (u.z * sh)) * 1real) + (((u.y * sh) * (u.z * sh)) * 1real)) by (nonlinear_arith);
    assert((((u.y * sh) * (u.z * sh)) * 1real) == sh * sh * u.y * u.z) by (nonlinear_arith);
    assert((((u.x * sh) * ch) * (1real + 1real))
        == (((u.x * sh) * ch) * 1real) + (((u.x * sh) * ch) * 1real)) by (nonlinear_arith);
    assert((((u.x * sh) * ch) * 1real) == ch * sh * u.x) by (nonlinear_arith);
    assert(((u.y * u.z) * (1real - (1real - ((2real * sh) * sh))))
        == ((u.y * u.z) * 1real) - ((u.y * u.z) * 1real) + ((u.y * u.z) * ((2real * sh) * sh))) by (nonlinear_arith);
    assert(((u.y * u.z) * 1real) == u.y * u.z) by (nonlinear_arith);
    assert(((u.y * u.z) * ((2real * sh) * sh))
        == 2real * (sh * sh * u.y * u.z)) by (nonlinear_arith);
    assert((u.x * ((2real * sh) * ch)) == 2real * (ch * sh * u.x)) by (nonlinear_arith);
}

proof fn lemma_mat3_of_quaternion_is_rodrigues_r2c2(u: Vec3Model<real>, sh: real, ch: real)
    requires
        u.square_magnitude() == 1real,
    ensures
        Mat3Model::from_quat(QuatModel::rotation(u, sh, ch)).r2c2 == Mat3Model::rodrigues(u, 2real * sh * ch, 1real - 2real * sh * sh).r2c2,
{
    assert(((((u.x * sh) * (u.x * sh)) + ((u.y * sh) * (u.y * sh))) * (1real + 1real))
        == (((u.x * sh) * (u.x * sh)) * (1real + 1real)) + (((u.y * sh) * (u.y * sh)) * (1real + 1real))) by (nonlinear_arith);
    assert((((u.x * sh) * (u.x * sh)) * (1real + 1real))
        == (((u.x * sh) * (u.x * sh)) * 1real) + (((u.x * sh) * (u.x * sh)) * 1real)) by (nonlinear_arith);
    assert((((u.x * sh) * (u.x * sh)) * 1real) == sh * sh * u.x * u.x) by (nonlinear_arith);
    assert((((u.y * sh) * (u.y * sh)) * (1real + 1real))
        == (((u.y * sh) * (u.y * sh)) * 1real) + (((u.y * sh) * (u.y * sh)) * 1real)) by (nonlinear_arith);
    assert((((u.y * sh) * (u.y * sh)) * 1real) == sh * sh * u.y * u.y) by (nonlinear_arith);
    assert(((2real * sh) * sh) == 2real * (sh * sh)) by (nonlinear_arith);
    assert(((u.z * u.z) * (1real - (1real - ((2real * sh) * sh))))
        == ((u.z * u.z) * 1real) - ((u.z * u.z) * 1real) + ((u.z * u.z) * ((2real * sh) * sh))) by (nonlinear_arith);
    assert(((u.z * u.z) * 1real) == u.z * u.z) by (nonlinear_arith);
    assert(((u.z * u.z) * ((2real * sh) * sh))
        == 2real * (sh * sh * u.z * u.z)) by (nonlinear_arith);
    assert((((2real * sh) * sh) * (1real - (((u.x * u.x) + (u.y * u.y)) + (u.z * u.z))))
        == (((2real * sh) * sh) * 1real) - (((2real * sh) * sh) * (u.x * u.x)) - (((2real * sh) * sh) * (u.y * u.y)) - (((2real * sh) * sh) * (u.z * u.z))) by (nonlinear_arith);
    assert((((2real * sh) * sh) * 1real) == 2real * (sh * sh)) by (nonlinear_arith);
    assert((((2real * sh) * sh) * (u.x * u.x))
        == 2real * (sh * sh * u.x * u.x)) by (nonlinear_arith);
    assert((((2real * sh) * sh) * (u.y * u.y))
        == 2real * (sh * sh * u.y * u.y)) by (nonlinear_arith);
    assert((((2real * sh) * sh) * (u.z * u.z))
        == 2real * (sh * sh * u.z * u.z)) by (nonlinear_arith);
    assert((((2real * sh) * sh) * (1real - (((u.x * u.x) + (u.y * u.y)) + (u.z * u.z))))
        == 0real) by (nonlinear_arith)
        requires
            ((u.x * u.x) + (u.y * u.y)) + (u.z * u.z) == 1real,
    ;
}

/// The matrix of the quaternion of a rotation about a unit axis is the rotation that the
/// formula of Rodrigues gives, where `sh` and `ch` stand for the sine and the cosine of half the
/// angle and the sine and the cosine of the whole angle are `2·sh·ch` and `1 - 2·sh²`.
pub proof fn lemma_mat3_of_quaternion_is_rodrigues(u: Vec3Model<real>, sh: real, ch: real)
    requires
        u.square_magnitude() == 1real,
    ensures
        Mat3Model::from_quat(QuatModel::rotation(u, sh, ch)) == Mat3Model::rodrigues(u, 2real * sh * ch, 1real - 2real * sh * sh),
{
    lemma_mat3_of_quaternion_is_rodrigues_r0c0(u, sh, ch);
    lemma_mat3_of_quaternion_is_rodrigues_r0c1(u, sh, ch);
    lemma_mat3_of_quaternion_is_rodrigues_r0c2(u, sh, ch);
    lemma_mat3_of_quaternion_is_rodrigues_r1c0(u, sh, ch);
    lemma_mat3_of_quaternion_is_rodrigues_r1c1(u, sh, ch);
    lemma_mat3_of_quaternion_is_rodrigues_r1c2(u, sh, ch);
    lemma_mat3_of_quaternion_is_rodrigues_r2c0(u, sh, ch);
    lemma_mat3_of_quaternion_is_rodrigues_r2c1(u, sh, ch);
    lemma_mat3_of_quaternion_is_rodrigues_r2c2(u, sh, ch);
}

proof fn lemma_mat4_of_quaternion_is_rodrigues_r0c0(u: Vec3Model<real>, sh: real, ch: real)
    requires
        u.square_magnitude() == 1real,
    ensures
        Mat4Model::from_quat(QuatModel::rotation(u, sh, ch)).r0c0 == Mat4Model::rodrigues(u, 2real * sh * ch, 1real - 2real * sh * sh).r0c0,
{
    assert(((((u.y * sh) * (u.y * sh)) + ((u.z * sh) * (u.z * sh))) * (1real + 1real))
        == (((u.y * sh) * (u.y * sh)) * (1real + 1real)) + (((u.z * sh) * (u.z * sh)) * (1real + 1real))) by (nonlinear_arith);
    assert((((u.y * sh) * (u.y * sh)) * (1real + 1real))
        == (((u.y * sh) * (u.y * sh)) * 1real) + (((u.y * sh) * (u.y * sh)) * 1real)) by (nonlinear_arith);
    assert((((u.y * sh) * (u.y * sh)) * 1real) == sh * sh * u.y * u.y) by (nonlinear_arith);
    assert((((u.z * sh) * (u.z * sh)) * (1real + 1real))
        == (((u.z * sh) * (u.z * sh)) * 1real) + (((u.z * sh) * (u.z * sh)) * 1real)) by (nonlinear_arith);
    assert((((u.z * sh) * (u.z * sh)) * 1real) == sh * sh * u.z * u.z) by (nonlinear_arith);
    assert(((2real * sh) * sh) == 2real * (sh * sh)) by (nonlinear_arith);
    assert(((u.x * u.x) * (1real - (1real - ((2real * sh) * sh))))
        == ((u.x * u.x) * 1real) - ((u.x * u.x) * 1real) + ((u.x * u.x) * ((2real * sh) * sh))) by (nonlinear_arith);
    assert(((u.x * u.x) * 1real) == u.x * u.x) by (nonlinear_arith);
    assert(((u.x * u.x) * ((2real * sh) * sh))
        == 2real * (sh * sh * u.x * u.x)) by (nonlinear_arith);
    assert((((2real * sh) * sh) * (1real - (((u.x * u.x) + (u.y * u.y)) + (u.z * u.z))))
        == (((2real * sh) * sh) * 1real) - (((2real * sh) * sh) * (u.x * u.x)) - (((2real * sh) * sh) * (u.y * u.y)) - (((2real * sh) * sh) * (u.z * u.z))) by (nonlinear_arith);
    assert((((2real * sh) * sh) * 1real) == 2real * (sh * sh)) by (nonlinear_arith);
    assert((((2real * sh) * sh) * (u.x * u.x))
        == 2real * (sh * sh * u.x * u.x)) by (nonlinear_arith);
    assert((((2real * sh) * sh) * (u.y * u.y))
        == 2real * (sh * sh * u.y * u.y)) by (nonlinear_arith);
    assert((((2real * sh) * sh) * (u.z * u.z))
        == 2real * (sh * sh * u.z * u.z)) by (nonlinear_arith);
    assert((((2real * sh) * sh) * (1real - (((u.x * u.x) + (u.y * u.y)) + (u.z * u.z))))
        == 0real) by (nonlinear_arith)
        requires
            ((u.x * u.x) + (u.y * u.y)) + (u.z * u.z) == 1real,
    ;
}

proof fn lemma_mat4_of_quaternion_is_rodrigues_r0c1(u: Vec3Model<real>, sh: real, ch: real)
    requires
        u.square_magnitude() == 1real,
    ensures
        Mat4Model::from_quat(QuatModel::rotation(u, sh, ch)).r0c1 == Mat4Model::rodrigues(u, 2real * sh * ch, 1real - 2real * sh * sh).r0c1,
{
    assert(((((u.x * sh) * (u.y * sh)) - ((u.z * sh) * ch)) * (1real + 1real))
        == (((u.x * sh) * (u.y * sh)) * (1real + 1real)) - (((u.z * sh) * ch) * (1real + 1real))) by (nonlinear_arith);
    assert((((u.x * sh) * (u.y * sh)) * (1real + 1real))
        == (((u.x * sh) * (u.y * sh)) * 1real) + (((u.x * sh) * (u.y * sh)) * 1real)) by (nonlinear_arith);
    assert((((u.x * sh) * (u.y * sh)) * 1real) == sh * sh * u.x * u.y) by (nonlinear_arith);
    assert((((u.z * sh) * ch) * (1real + 1real))
        == (((u.z * sh) * ch) * 1real) + (((u.z * sh) * ch) * 1real)) by (nonlinear_arith);
    assert((((u.z * sh) * ch) * 1real) == ch * sh * u.z) by (nonlinear_arith);
    assert(((u.x * u.y) * (1real - (1real - ((2real * sh) * sh))))
        == ((u.x * u.y) * 1real) - ((u.x * u.y) * 1real) + ((u.x * u.y) * ((2real * sh) * sh))) by (nonlinear_arith);
    assert(((u.x * u.y) * 1real) == u.x * u.y) by (nonlinear_arith);
    assert(((u.x * u.y) * ((2real * sh) * sh))
        == 2real * (sh * sh * u.x * u.y)) by (nonlinear_arith);
    assert((u.z * ((2real * sh) * ch)) == 2real * (ch * sh * u.z)) by (nonlinear_arith);
}

proof fn lemma_mat4_of_quaternion_is_rodrigues_r0c2(u: Vec3Model<real>, sh: real, ch: real)
    requires
        u.square_magnitude() == 1real,
    ensures
        Mat4Model::from_quat(QuatModel::rotation(u, sh, ch)).r0c2 == Mat4Model::rodrigues(u, 2real * sh * ch, 1real - 2real * sh * sh).r0c2,
{
    assert(((((u.x * sh) * (u.z * sh)) + ((u.y * sh) * ch)) * (1real + 1real))
        == (((u.x * sh) * (u.z * sh)) * (1real + 1real)) + (((u.y * sh) * ch) * (1real + 1real))) by (nonlinear_arith);
    assert((((u.x * sh) * (u.z * sh)) * (1real + 1real))
        == (((u.x * sh) * (u.z * sh)) * 1real) + (((u.x * sh) * (u.z * sh)) * 1real)) by (nonlinear_arith);
    assert((((u.x * sh) * (u.z * sh)) * 1real) == sh * sh * u.x * u.z) by (nonlinear_arith);
    assert((((u.y * sh) * ch) * (1real + 1real))
        == (((u.y * sh) * ch) * 1real) + (((u.y * sh) * ch) * 1real)) by (nonlinear_arith);
    assert((((u.y * sh) * ch) * 1real) == ch * sh * u.y) by (nonlinear_arith);
    assert(((u.x * u.z) * (1real - (1real - ((2real * sh) * sh))))
        == ((u.x * u.z) * 1real) - ((u.x * u.z) * 1real) + ((u.x * u.z) * ((2real * sh) * sh))) by (nonlinear_arith);
    assert(((u.x * u.z) * 1real) == u.x * u.z) by (nonlinear_arith);
    assert(((u.x * u.z) * ((2real * sh) * sh))
        == 2real * (sh * sh * u.x * u.z)) by (nonlinear_arith);
    assert((u.y * ((2real * sh) * ch)) == 2real * (ch * sh * u.y)) by (nonlinear_arith);
}

proof fn lemma_mat4_of_quaternion_is_rodrigues_r0c3(u: Vec3Model<real>, sh: real, ch: real)
    requires
        u.square_magnitude() == 1real,
    ensures
        Mat4Model::from_quat(QuatModel::rotation(u, sh, ch)).r0c3 == Mat4Model::rodrigues(u, 2real * sh * ch, 1real - 2real * sh * sh).r0c3,
{
}

proof fn lemma_mat4_of_quaternion_is_rodrigues_r1c0(u: Vec3Model<real>, sh: real, ch: real)
    requires
        u.square_magnitude() == 1real,
    ensures
        Mat4Model::from_quat(QuatModel::rotation(u, sh, ch)).r1c0 == Mat4Model::rodrigues(u, 2real * sh * ch, 1real - 2real * sh * sh).r1c0,
{
    assert(((((u.x * sh) * (u.y * sh)) + ((u.z * sh) * ch)) * (1real + 1real))
        == (((u.x * sh) * (u.y * sh)) * (1real + 1real)) + (((u.z * sh) * ch) * (1real + 1real))) by (nonlinear_arith);
    assert((((u.x * sh) * (u.y * sh)) * (1real + 1real))
        == (((u.x * sh) * (u.y * sh)) * 1real) + (((u.x * sh) * (u.y * sh)) * 1real)) by (nonlinear_arith);
    assert((((u.x * sh) * (u.y * sh)) * 1real) == sh * sh * u.x * u.y) by (nonlinear_arith);
    assert((((u.z * sh) * ch) * (1real + 1real))
        == (((u.z * sh) * ch) * 1real) + (((u.z * sh) * ch) * 1real)) by (nonlinear_arith);
    assert((((u.z * sh) * ch) * 1real) == ch * sh * u.z) by (nonlinear_arith);
    assert(((u.x * u.y) * (1real - (1real - ((2real * sh) * sh))))
        == ((u.x * u.y) * 1real) - ((u.x * u.y) * 1real) + ((u.x * u.y) * ((2real * sh) * sh))) by (nonlinear_arith);
    assert(((u.x * u.y) * 1real) == u.x * u.y) by (nonlinear_arith);
    assert(((u.x * u.y) * ((2real * sh) * sh))
        == 2real * (sh * sh * u.x * u.y)) by (nonlinear_arith);
    assert((u.z * ((2real * sh) * ch)) == 2real * (ch * sh * u.z)) by (nonlinear_arith);
}

proof fn lemma_mat4_of_quaternion_is_rodrigues_r1c1(u: Vec3Model<real>, sh: real, ch: real)
    requires
        u.square_magnitude() == 1real,
    ensures
        Mat4Model::from_quat(QuatModel::rotation(u, sh, ch)).r1c1 == Mat4Model::rodrigues(u, 2real * sh * ch, 1real - 2real * sh * sh).r1c1,
{
    assert(((((u.x * sh) * (u.x * sh)) + ((u.z * sh) * (u.z * sh))) * (1real + 1real))
        == (((u.x * sh) * (u.x * sh)) * (1real + 1real)) + (((u.z * sh) * (u.z * sh)) * (1real + 1real))) by (nonlinear_arith);
    assert((((u.x * sh) * (u.x * sh)) * (1real + 1real))
        == (((u.x * sh) * (u.x * sh)) * 1real) + (((u.x * sh) * (u.x * sh)) * 1real)) by (nonlinear_arith);
    assert((((u.x * sh) * (u.x * sh)) * 1real) == sh * sh * u.x * u.x) by (nonlinear_arith);
    assert((((u.z * sh) * (u.z * sh)) * (1real + 1real))
        == (((u.z * sh) * (u.z * sh)) * 1real) + (((u.z * sh) * (u.z * sh)) * 1real)) by (nonlinear_arith);
    assert((((u.z * sh) * (u.z * sh)) * 1real) == sh * sh * u.z * u.z) by (nonlinear_arith);
    assert(((2real * sh) * sh) == 2real * (sh * sh)) by (nonlinear_arith);
    assert(((u.y * u.y) * (1real - (1real - ((2real * sh) * sh))))
        == ((u.y * u.y) * 1real) - ((u.y * u.y) * 1real) + ((u.y * u.y) * ((2real * sh) * sh))) by (nonlinear_arith);
    assert(((u.y * u.y) * 1real) == u.y * u.y) by (nonlinear_arith);
    assert(((u.y * u.y) * ((2real * sh) * sh))
        == 2real * (sh * sh * u.y * u.y)) by (nonlinear_arith);
    assert((((2real * sh) * sh) * (1real - (((u.x * u.x) + (u.y * u.y)) + (u.z * u.z))))
        == (((2real * sh) * sh) * 1real) - (((2real * sh) * sh) * (u.x * u.x)) - (((2real * sh) * sh) * (u.y * u.y)) - (((2real * sh) * sh) * (u.z * u.z))) by (nonlinear_arith);
    assert((((2real * sh) * sh) * 1real) == 2real * (sh * sh)) by (nonlinear_arith);
    assert((((2real * sh) * sh) * (u.x * u.x))
        == 2real * (sh * sh * u.x * u.x)) by (nonlinear_arith);
    assert((((2real * sh) * sh) * (u.y * u.y))
        == 2real * (sh * sh * u.y * u.y)) by (nonlinear_arith);
    assert((((2real * sh) * sh) * (u.z * u.z))
        == 2real * (sh * sh * u.z * u.z)) by (nonlinear_arith);
    assert((((2real * sh) * sh) * (1real - (((u.x * u.x) + (u.y * u.y)) + (u.z * u.z))))
        == 0real) by (nonlinear_arith)
        requires
            ((u.x * u.x) + (u.y * u.y)) + (u.z * u.z) == 1real,
    ;
}

proof fn lemma_mat4_of_quaternion_is_rodrigues_r1c2(u: Vec3Model<real>, sh: real, ch: real)
    requires
        u.square_magnitude() == 1real,
    ensures
        Mat4Model::from_quat(QuatModel::rotation(u, sh, ch)).r1c2 == Mat4Model::rodrigues(u, 2real * sh * ch, 1real - 2real * sh * sh).r1c2,
{
    assert(((((u.y * sh) * (u.z * sh)) - ((u.x * sh) * ch)) * (1real + 1real))
        == (((u.y * sh) * (u.z * sh)) * (1real + 1real)) - (((u.x * sh) * ch) * (1real + 1real))) by (nonlinear_arith);
    assert((((u.y * sh) * (u.z * sh)) * (1real + 1real))
        == (((u.y * sh) * (u.z * sh)) * 1real) + (((u.y * sh) * (u.z * sh)) * 1real)) by (nonlinear_arith);
    assert((((u.y * sh) * (u.z * sh)) * 1real) == sh * sh * u.y * u.z) by (nonlinear_arith);
    assert((((u.x * sh) * ch) * (1real + 1real))
        == (((u.x * sh) * ch) * 1real) + (((u.x * sh) * ch) * 1real)) by (nonlinear_arith);
    assert((((u.x * sh) * ch) * 1real) == ch * sh * u.x) by (nonlinear_arith);
    assert(((u.y * u.z) * (1real - (1real - ((2real * sh) * sh))))
        == ((u.y * u.z) * 1real) - ((u.y * u.z) * 1real) + ((u.y * u.z) * ((2real * sh) * sh))) by (nonlinear_arith);
    assert(((u.y * u.z) * 1real) == u.y * u.z) by (nonlinear_arith);
    assert(((u.y * u.z) * ((2real * sh) * sh))
        == 2real * (sh * sh * u.y * u.z)) by (nonlinear_arith);
    assert((u.x * ((2real * sh) * ch)) == 2real * (ch * sh * u.x)) by (nonlinear_arith);
}

proof fn lemma_mat4_of_quaternion_is_rodrigues_r1c3(u: Vec3Model<real>, sh: real, ch: real)
    requires
        u.square_magnitude() == 1real,
    ensures
        Mat4Model::from_quat(QuatModel::rotation(u, sh, ch)).r1c3 == Mat4Model::rodrigues(u, 2real * sh * ch, 1real - 2real * sh * sh).r1c3,
{
}

proof fn lemma_mat4_of_quaternion_is_rodrigues_r2c0(u: Vec3Model<real>, sh: real, ch: real)
    requires
        u.square_magnitude() == 1real,
    ensures
        Mat4Model::from_quat(QuatModel::rotation(u, sh, ch)).r2c0 == Mat4Model::rodrigues(u, 2real * sh * ch, 1real - 2real * sh * sh).r2c0,
{
    assert(((((u.x * sh) * (u.z * sh)) - ((u.y * sh) * ch)) * (1real + 1real))
        == (((u.x * sh) * (u.z * sh)) * (1real + 1real)) - (((u.y * sh) * ch) * (1real + 1real))) by (nonlinear_arith);
    assert((((u.x * sh) * (u.z * sh)) * (1real + 1real))
        == (((u.x * sh) * (u.z * sh)) * 1real) + (((u.x * sh) * (u.z * sh)) * 1real)) by (nonlinear_arith);
    assert((((u.x * sh) * (u.z * sh)) * 1real) == sh * sh * u.x * u.z) by (nonlinear_arith);
    assert((((u.y * sh) * ch) * (1real + 1real))
        == (((u.y * sh) * ch) * 1real) + (((u.y * sh) * ch) * 1real)) by (nonlinear_arith);
    assert((((u.y * sh) * ch) * 1real) == ch * sh * u.y) by (nonlinear_arith);
    assert(((u.x * u.z) * (1real - (1real - ((2real * sh) * sh))))
        == ((u.x * u.z) * 1real) - ((u.x * u.z) * 1real) + ((u.x * u.z) * ((2real * sh) * sh))) by (nonlinear_arith);
    assert(((u.x * u.z) * 1real) == u.x * u.z) by (nonlinear_arith);
    assert(((u.x * u.z) * ((2real * sh) * sh))
        == 2real * (sh * sh * u.x * u.z)) by (nonlinear_arith);
    assert((u.y * ((2real * sh) * ch)) == 2real * (ch * sh * u.y)) by (nonlinear_arith);
}

proof fn lemma_mat4_of_quaternion_is_rodrigues_r2c1(u: Vec3Model<real>, sh: real, ch: real)
    requires
        u.square_magnitude() == 1real,
    ensures
        Mat4Model::from_quat(QuatModel::rotation(u, sh, ch)).r2c1 == Mat4Model::rodrigues(u, 2real * sh * ch, 1real - 2real * sh * sh).r2c1,
{
    assert(((((u.y * sh) * (u.z * sh)) + ((u.x * sh) * ch)) * (1real + 1real))
        == (((u.y * sh) * (u.z * sh)) * (1real + 1real)) + (((u.x * sh) * ch) * (1real + 1real))) by (nonlinear_arith);
    assert((((u.y * sh) * (u.z * sh)) * (1real + 1real))
        == (((u.y * sh) * (u.z * sh)) * 1real) + (((u.y * sh) * (u.z * sh)) * 1real)) by (nonlinear_arith);
    assert((((u.y * sh) * (u.z * sh)) * 1real) == sh * sh * u.y * u.z) by (nonlinear_arith);
    assert((((u.x * sh) * ch) * (1real + 1real))
        == (((u.x * sh) * ch) * 1real) + (((u.x * sh) * ch) * 1real)) by (nonlinear_arith);
    assert((((u.x * sh) * ch) * 1real) == ch * sh * u.x) by (nonlinear_arith);
    assert(((u.y * u.z) * (1real - (1real - ((2real * sh) * sh))))
        == ((u.y * u.z) * 1real) - ((u.y * u.z) * 1real) + ((u.y * u.z) * ((2real * sh) * sh))) by (nonlinear_arith);
    assert(((u.y * u.z) * 1real) == u.y * u.z) by (nonlinear_arith);
    assert(((u.y * u.z) * ((2real * sh) * sh))
        == 2real * (sh * sh * u.y * u.z)) by (nonlinear_arith);
    assert((u.x * ((2real * sh) * ch)) == 2real * (ch * sh * u.x)) by (nonlinear_arith);
}

proof fn lemma_mat4_of_quaternion_is_rodrigues_r2c2(u: Vec3Model<real>, sh: real, ch: real)
    requires
        u.square_magnitude() == 1real,
    ensures
        Mat4Model::from_quat(QuatModel::rotation(u, sh, ch)).r2c2 == Mat4Model::rodrigues(u, 2real * sh * ch, 1real - 2real * sh * sh).r2c2,
{
    assert(((((u.x * sh) * (u.x * sh)) + ((u.y * sh) * (u.y * sh))) * (1real + 1real))
        == (((u.x * sh) * (u.x * sh)) * (1real + 1real)) + (((u.y * sh) * (u.y * sh)) * (1real + 1real))) by (nonlinear_arith);
    assert((((u.x * sh) * (u.x * sh)) * (1real + 1real))
        == (((u.x * sh) * (u.x * sh)) * 1real) + (((u.x * sh) * (u.x * sh)) * 1real)) by (nonlinear_arith);
    assert((((u.x * sh) * (u.x * sh)) * 1real) == sh * sh * u.x * u.x) by (nonlinear_arith);
    assert((((u.y * sh) * (u.y * sh)) * (1real + 1real))
        == (((u.y * sh) * (u.y * sh)) * 1real) + (((u.y * sh) * (u.y * sh)) * 1real)) by (nonlinear_arith);
    assert((((u.y * sh) * (u.y * sh)) * 1real) == sh * sh * u.y * u.y) by (nonlinear_arith);
    assert(((2real * sh) * sh) == 2real * (sh * sh)) by (nonlinear_arith);
    assert(((u.z * u.z) * (1real - (1real - ((2real * sh) * sh))))
        == ((u.z * u.z) * 1real) - ((u.z * u.z) * 1real) + ((u.z * u.z) * ((2real * sh) * sh))) by (nonlinear_arith);
    assert(((u.z * u.z) * 1real) == u.z * u.z) by (nonlinear_arith);
    assert(((u.z * u.z) * ((2real * sh) * sh))
        == 2real * (sh * sh * u.z * u.z)) by (nonlinear_arith);
    assert((((2real * sh) * sh) * (1real - (((u.x * u.x) + (u.y * u.y)) + (u.z * u.z))))
        == (((2real * sh) * sh) * 1real) - (((2real * sh) * sh) * (u.x * u.x)) - (((2real * sh) * sh) * (u.y * u.y)) - (((2real * sh) * sh) * (u.z * u.z))) by (nonlinear_arith);
    assert((((2real * sh) * sh) * 1real) == 2real * (sh * sh)) by (nonlinear_arith);
    assert((((2real * sh) * sh) * (u.x * u.x))
        == 2real * (sh * sh * u.x * u.x)) by (nonlinear_arith);
    assert((((2real * sh) * sh) * (u.y * u.y))
        == 2real * (sh * sh * u.y * u.y)) by (nonlinear_arith);
    assert((((2real * sh) * sh) * (u.z * u.z))
        == 2real * (sh * sh * u.z * u.z)) by (nonlinear_arith);
    assert((((2real * sh) * sh) * (1real - (((u.x * u.x) + (u.y * u.y)) + (u.z * u.z))))
        == 0real) by (nonlinear_arith)
        requires
            ((u.x * u.x) + (u.y * u.y)) + (u.z * u.z) == 1real,
    ;
}

proof fn lemma_mat4_of_quaternion_is_rodrigues_r2c3(u: Vec3Model<real>, sh: real, ch: real)
    requires
        u.square_magnitude() == 1real,
    ensures
        Mat4Model::from_quat(QuatModel::rotation(u, sh, ch)).r2c3 == Mat4Model::rodrigues(u, 2real * sh * ch, 1real - 2real * sh * sh).r2c3,
{
}

proof fn lemma_mat4_of_quaternion_is_rodrigues_r3c0(u: Vec3Model<real>, sh: real, ch: real)
    requires
        u.square_magnitude() == 1real,
    ensures
        Mat4Model::from_quat(QuatModel::rotation(u, sh, ch)).r3c0 == Mat4Model::rodrigues(u, 2real * sh * ch, 1real - 2real * sh * sh).r3c0,
{
}

proof fn lemma_mat4_of_quaternion_is_rodrigues_r3c1(u: Vec3Model<real>, sh: real, ch: real)
    requires
        u.square_magnitude() == 1real,
    ensures
        Mat4Model::from_quat(QuatModel::rotation(u, sh, ch)).r3c1 == Mat4Model::rodrigues(u, 2real * sh * ch, 1real - 2real * sh * sh).r3c1,
{
}

proof fn lemma_mat4_of_quaternion_is_rodrigues_r3c2(u: Vec3Model<real>, sh: real, ch: real)
    requires
        u.square_magnitude() == 1real,
    ensures
        Mat4Model::from_quat(QuatModel::rotation(u, sh, ch)).r3c2 == Mat4Model::rodrigues(u, 2real * sh * ch, 1real - 2real * sh * sh).r3c2,
{
}

proof fn lemma_mat4_of_quaternion_is_rodrigues_r3c3(u: Vec3Model<real>, sh: real, ch: real)
    requires
        u.square_magnitude() == 1real,
    ensures
        Mat4Model::from_quat(QuatModel::rotation(u, sh, ch)).r3c3 == Mat4Model::rodrigues(u, 2real * sh * ch, 1real - 2real * sh * sh).r3c3,
{
}

/// The matrix of the quaternion of a rotation about a unit axis is the rotation that the
/// formula of Rodrigues gives, where `sh` and `ch` stand for the sine and the cosine of half the
/// angle and the sine and the cosine of the whole angle are `2·sh·ch` and `1 - 2·sh²`.
pub proof fn lemma_mat4_of_quaternion_is_rodrigues(u: Vec3Model<real>, sh: real, ch: real)
    requires
        u.square_magnitude() == 1real,
    ensures
        Mat4Model::from_quat(QuatModel::rotation(u, sh, ch)) == Mat4Model::rodrigues(u, 2real * sh * ch, 1real - 2real * sh * sh),
{
    lemma_mat4_of_quaternion_is_rodrigues_r0c0(u, sh, ch);
    lemma_mat4_of_quaternion_is_rodrigues_r0c1(u, sh, ch);
    lemma_mat4_of_quaternion_is_rodrigues_r0c2(u, sh, ch);
    lemma_mat4_of_quaternion_is_rodrigues_r0c3(u, sh, ch);
    lemma_mat4_of_quaternion_is_rodrigues_r1c0(u, sh, ch);
    lemma_mat4_of_quaternion_is_rodrigues_r1c1(u, sh, ch);
    lemma_mat4_of_quaternion_is_rodrigues_r1c2(u, sh, ch);
    lemma_mat4_of_quaternion_is_rodrigues_r1c3(u, sh, ch);
    lemma_mat4_of_quaternion_is_rodrigues_r2c0(u, sh, ch);
    lemma_mat4_of_quaternion_is_rodrigues_r2c1(u, sh, ch);
    lemma_mat4_of_quaternion_is_rodrigues_r2c2(u, sh, ch);
    lemma_mat4_of_quaternion_is_rodrigues_r2c3(u, sh, ch);
    lemma_mat4_of_quaternion_is_rodrigues_r3c0(u, sh, ch);
    lemma_mat4_of_quaternion_is_rodrigues_r3c1(u, sh, ch);
    lemma_mat4_of_quaternion_is_rodrigues_r3c2(u, sh, ch);
    lemma_mat4_of_quaternion_is_rodrigues_r3c3(u, sh, ch);
}

/// The inverse of a quaternion of unit size is its conjugate.
pub proof fn lemma_quat_inverse_of_unit(q: QuatModel<real>)
    requires
        q.square_magnitude() == 1real,
    ensures
        q.inverse() == q.conjugate(),
{
}

/// A quaternion `q` of unit size turns a vector `v` into the vector part of
/// `q · (0, v) · inverse(q)`.
pub proof fn lemma_quat_rotation_by_unit(q: QuatModel<real>, v: Vec3Model<real>)
    requires
        q.square_magnitude() == 1real,
    ensures
        q.apply_rotation(v) == q.times(QuatModel::pure(v)).times(q.inverse()).v,
{
    lemma_quat_inverse_of_unit(q);
    lemma_real_quat_rotation_is_sandwich(q, v);
}

} // verus!
