//! Vectors turned about an axis, over the integers.
use crate::types::mat3::Mat3Model;
use crate::types::vec2::Vec2Model;
use crate::types::vec3::Vec3Model;
use vstd::prelude::*;

verus! {

proof fn lemma_vec3_turned_x_x(v: Vec3Model<int>, s: int, c: int)
    ensures
        v.turned_x(s, c).x == Mat3Model::rotation_x(s, c).apply(v).x,
{
    assert((1int * v.x) == v.x) by (nonlinear_arith);
    assert((0int * v.y) == 0int) by (nonlinear_arith);
    assert((0int * v.z) == 0int) by (nonlinear_arith);
}

proof fn lemma_vec3_turned_x_y(v: Vec3Model<int>, s: int, c: int)
    ensures
        v.turned_x(s, c).y == Mat3Model::rotation_x(s, c).apply(v).y,
{
    assert((0int * v.x) == 0int) by (nonlinear_arith);
    assert(((-s) * v.z) == 0int - (s * v.z)) by (nonlinear_arith);
}

proof fn lemma_vec3_turned_x_z(v: Vec3Model<int>, s: int, c: int)
    ensures
        v.turned_x(s, c).z == Mat3Model::rotation_x(s, c).apply(v).z,
{
    assert((0int * v.x) == 0int) by (nonlinear_arith);
}

/// Turning a vector about the x axis applies the rotation about that axis to it.
pub proof fn lemma_vec3_turned_x(v: Vec3Model<int>, s: int, c: int)
    ensures
        v.turned_x(s, c) == Mat3Model::rotation_x(s, c).apply(v),
{
    lemma_vec3_turned_x_x(v, s, c);
    lemma_vec3_turned_x_y(v, s, c);
    lemma_vec3_turned_x_z(v, s, c);
}

proof fn lemma_vec3_turned_x_and_back_x(v: Vec3Model<int>, s: int, c: int)
    ensures
        v.turned_x(s, c).turned_x(-s, c).x == (Vec3Model { x: v.x, y: (c * c + s * s) * v.y, z: (c * c + s * s) * v.z }).x,
{
}

proof fn lemma_vec3_turned_x_and_back_y(v: Vec3Model<int>, s: int, c: int)
    ensures
        v.turned_x(s, c).turned_x(-s, c).y == (Vec3Model { x: v.x, y: (c * c + s * s) * v.y, z: (c * c + s * s) * v.z }).y,
{
    assert((c * ((c * v.y) - (s * v.z))) == (c * (c * v.y)) - (c * (s * v.z))) by (nonlinear_arith);
    assert((c * (c * v.y)) == c * c * v.y) by (nonlinear_arith);
    assert((c * (s * v.z)) == c * s * v.z) by (nonlinear_arith);
    assert(((-s) * ((s * v.y) + (c * v.z)))
        == 0int - (s * ((s * v.y) + (c * v.z)))) by (nonlinear_arith);
    assert((s * ((s * v.y) + (c * v.z))) == (s * (s * v.y)) + (s * (c * v.z))) by (nonlinear_arith);
    assert((s * (s * v.y)) == s * s * v.y) by (nonlinear_arith);
    assert((s * (c * v.z)) == c * s * v.z) by (nonlinear_arith);
    assert((((c * c) + (s * s)) * v.y) == ((c * c) * v.y) + ((s * s) * v.y)) by (nonlinear_arith);
    assert(((c * c) * v.y) == c * c * v.y) by (nonlinear_arith);
    assert(((s * s) * v.y) == s * s * v.y) by (nonlinear_arith);
}

proof fn lemma_vec3_turned_x_and_back_z(v: Vec3Model<int>, s: int, c: int)
    ensures
        v.turned_x(s, c).turned_x(-s, c).z == (Vec3Model { x: v.x, y: (c * c + s * s) * v.y, z: (c * c + s * s) * v.z }).z,
{
    assert(((-s) * ((c * v.y) - (s * v.z)))
        == 0int - (s * ((c * v.y) - (s * v.z)))) by (nonlinear_arith);
    assert((s * ((c * v.y) - (s * v.z))) == (s * (c * v.y)) - (s * (s * v.z))) by (nonlinear_arith);
    assert((s * (c * v.y)) == c * s * v.y) by (nonlinear_arith);
    assert((s * (s * v.z)) == s * s * v.z) by (nonlinear_arith);
    assert((c * ((s * v.y) + (c * v.z))) == (c * (s * v.y)) + (c * (c * v.z))) by (nonlinear_arith);
    assert((c * (s * v.y)) == c * s * v.y) by (nonlinear_arith);
    assert((c * (c * v.z)) == c * c * v.z) by (nonlinear_arith);
    assert((((c * c) + (s * s)) * v.z) == ((c * c) * v.z) + ((s * s) * v.z)) by (nonlinear_arith);
    assert(((c * c) * v.z) == c * c * v.z) by (nonlinear_arith);
    assert(((s * s) * v.z) == s * s * v.z) by (nonlinear_arith);
}

/// A turn about the x axis followed by the opposite turn gives the vector back, times
/// `c² + s²`, which is one for the sine and the cosine of an angle.
pub proof fn lemma_vec3_turned_x_and_back(v: Vec3Model<int>, s: int, c: int)
    ensures
        v.turned_x(s, c).turned_x(-s, c) == (Vec3Model { x: v.x, y: (c * c + s * s) * v.y, z: (c * c + s * s) * v.z }),
{
    lemma_vec3_turned_x_and_back_x(v, s, c);
    lemma_vec3_turned_x_and_back_y(v, s, c);
    lemma_vec3_turned_x_and_back_z(v, s, c);
}

/// A turn about the x axis keeps the part along the axis and multiplies the square of the
/// rest by `c² + s²`: it keeps the length for the sine and the cosine of an angle.
pub proof fn lemma_vec3_turned_x_keeps_length(v: Vec3Model<int>, s: int, c: int)
    ensures
        v.turned_x(s, c).square_magnitude() == (c * c + s * s) * (v.y * v.y + v.z * v.z) + v.x * v.x,
{
    assert((((c * v.y) - (s * v.z)) * ((c * v.y) - (s * v.z)))
        == ((c * v.y) * ((c * v.y) - (s * v.z))) - ((s * v.z) * ((c * v.y) - (s * v.z)))) by (nonlinear_arith);
    assert(((c * v.y) * ((c * v.y) - (s * v.z)))
        == ((c * v.y) * (c * v.y)) - ((c * v.y) * (s * v.z))) by (nonlinear_arith);
    assert(((c * v.y) * (c * v.y)) == c * c * v.y * v.y) by (nonlinear_arith);
    assert(((c * v.y) * (s * v.z)) == c * s * v.y * v.z) by (nonlinear_arith);
    assert(((s * v.z) * ((c * v.y) - (s * v.z)))
        == ((s * v.z) * (c * v.y)) - ((s * v.z) * (s * v.z))) by (nonlinear_arith);
    assert(((s * v.z) * (c * v.y)) == c * s * v.y * v.z) by (nonlinear_arith);
    assert(((s * v.z) * (s * v.z)) == s * s * v.z * v.z) by (nonlinear_arith);
    assert((((s * v.y) + (c * v.z)) * ((s * v.y) + (c * v.z)))
        == ((s * v.y) * ((s * v.y) + (c * v.z))) + ((c * v.z) * ((s * v.y) + (c * v.z)))) by (nonlinear_arith);
    assert(((s * v.y) * ((s * v.y) + (c * v.z)))
        == ((s * v.y) * (s * v.y)) + ((s * v.y) * (c * v.z))) by (nonlinear_arith);
    assert(((s * v.y) * (s * v.y)) == s * s * v.y * v.y) by (nonlinear_arith);
    assert(((s * v.y) * (c * v.z)) == c * s * v.y * v.z) by (nonlinear_arith);
    assert(((c * v.z) * ((s * v.y) + (c * v.z)))
        == ((c * v.z) * (s * v.y)) + ((c * v.z) * (c * v.z))) by (nonlinear_arith);
    assert(((c * v.z) * (s * v.y)) == c * s * v.y * v.z) by (nonlinear_arith);
    assert(((c * v.z) * (c * v.z)) == c * c * v.z * v.z) by (nonlinear_arith);
    assert((((c * c) + (s * s)) * ((v.y * v.y) + (v.z * v.z)))
        == ((c * c) * ((v.y * v.y) + (v.z * v.z))) + ((s * s) * ((v.y * v.y) + (v.z * v.z)))) by (nonlinear_arith);
    assert(((c * c) * ((v.y * v.y) + (v.z * v.z)))
        == ((c * c) * (v.y * v.y)) + ((c * c) * (v.z * v.z))) by (nonlinear_arith);
    assert(((c * c) * (v.y * v.y)) == c * c * v.y * v.y) by (nonlinear_arith);
    assert(((c * c) * (v.z * v.z)) == c * c * v.z * v.z) by (nonlinear_arith);
    assert(((s * s) * ((v.y * v.y) + (v.z * v.z)))
        == ((s * s) * (v.y * v.y)) + ((s * s) * (v.z * v.z))) by (nonlinear_arith);
    assert(((s * s) * (v.y * v.y)) == s * s * v.y * v.y) by (nonlinear_arith);
    assert(((s * s) * (v.z * v.z)) == s * s * v.z * v.z) by (nonlinear_arith);
}

proof fn lemma_vec3_turned_y_x(v: Vec3Model<int>, s: int, c: int)
    ensures
        v.turned_y(s, c).x == Mat3Model::rotation_y(s, c).apply(v).x,
{
    assert((0int * v.y) == 0int) by (nonlinear_arith);
}

proof fn lemma_vec3_turned_y_y(v: Vec3Model<int>, s: int, c: int)
    ensures
        v.turned_y(s, c).y == Mat3Model::rotation_y(s, c).apply(v).y,
{
    assert((0int * v.x) == 0int) by (nonlinear_arith);
    assert((1int * v.y) == v.y) by (nonlinear_arith);
    assert((0int * v.z) == 0int) by (nonlinear_arith);
}

proof fn lemma_vec3_turned_y_z(v: Vec3Model<int>, s: int, c: int)
    ensures
        v.turned_y(s, c).z == Mat3Model::rotation_y(s, c).apply(v).z,
{
    assert(((-s) * v.x) == 0int - (s * v.x)) by (nonlinear_arith);
    assert((0int * v.y) == 0int) by (nonlinear_arith);
}

/// Turning a vector about the y axis applies the rotation about that axis to it.
pub proof fn lemma_vec3_turned_y(v: Vec3Model<int>, s: int, c: int)
    ensures
        v.turned_y(s, c) == Mat3Model::rotation_y(s, c).apply(v),
{
    lemma_vec3_turned_y_x(v, s, c);
    lemma_vec3_turned_y_y(v, s, c);
    lemma_vec3_turned_y_z(v, s, c);
}

proof fn lemma_vec3_turned_y_and_back_x(v: Vec3Model<int>, s: int, c: int)
    ensures
        v.turned_y(s, c).turned_y(-s, c).x == (Vec3Model { x: (c * c + s * s) * v.x, y: v.y, z: (c * c + s * s) * v.z }).x,
{
    assert((c * ((c * v.x) + (s * v.z))) == (c * (c * v.x)) + (c * (s * v.z))) by (nonlinear_arith);
    assert((c * (c * v.x)) == c * c * v.x) by (nonlinear_arith);
    assert((c * (s * v.z)) == c * s * v.z) by (nonlinear_arith);
    assert(((-s) * (((-s) * v.x) + (c * v.z)))
        == 0int - (s * (((-s) * v.x) + (c * v.z)))) by (nonlinear_arith);
    assert((s * (((-s) * v.x) + (c * v.z)))
        == (s * ((-s) * v.x)) + (s * (c * v.z))) by (nonlinear_arith);
    assert((s * ((-s) * v.x)) == 0int - (s * (s * v.x))) by (nonlinear_arith);
    assert((s * (s * v.x)) == s * s * v.x) by (nonlinear_arith);
    assert((s * (c * v.z)) == c * s * v.z) by (nonlinear_arith);
    assert((((c * c) + (s * s)) * v.x) == ((c * c) * v.x) + ((s * s) * v.x)) by (nonlinear_arith);
    assert(((c * c) * v.x) == c * c * v.x) by (nonlinear_arith);
    assert(((s * s) * v.x) == s * s * v.x) by (nonlinear_arith);
}

proof fn lemma_vec3_turned_y_and_back_y(v: Vec3Model<int>, s: int, c: int)
    ensures
        v.turned_y(s, c).turned_y(-s, c).y == (Vec3Model { x: (c * c + s * s) * v.x, y: v.y, z: (c * c + s * s) * v.z }).y,
{
}

proof fn lemma_vec3_turned_y_and_back_z(v: Vec3Model<int>, s: int, c: int)
    ensures
        v.turned_y(s, c).turned_y(-s, c).z == (Vec3Model { x: (c * c + s * s) * v.x, y: v.y, z: (c * c + s * s) * v.z }).z,
{
    assert(((-(-s)) * ((c * v.x) + (s * v.z)))
        == (s * ((c * v.x) + (s * v.z)))) by (nonlinear_arith);
    assert((s * ((c * v.x) + (s * v.z))) == (s * (c * v.x)) + (s * (s * v.z))) by (nonlinear_arith);
    assert((s * (c * v.x)) == c * s * v.x) by (nonlinear_arith);
    assert((s * (s * v.z)) == s * s * v.z) by (nonlinear_arith);
    assert((c * (((-s) * v.x) + (c * v.z)))
        == (c * ((-s) * v.x)) + (c * (c * v.z))) by (nonlinear_arith);
    assert((c * ((-s) * v.x)) == 0int - (c * (s * v.x))) by (nonlinear_arith);
    assert((c * (s * v.x)) == c * s * v.x) by (nonlinear_arith);
    assert((c * (c * v.z)) == c * c * v.z) by (nonlinear_arith);
    assert((((c * c) + (s * s)) * v.z) == ((c * c) * v.z) + ((s * s) * v.z)) by (nonlinear_arith);
    assert(((c * c) * v.z) == c * c * v.z) by (nonlinear_arith);
    assert(((s * s) * v.z) == s * s * v.z) by (nonlinear_arith);
}

/// A turn about the y axis followed by the opposite turn gives the vector back, times
/// `c² + s²`, which is one for the sine and the cosine of an angle.
pub proof fn lemma_vec3_turned_y_and_back(v: Vec3Model<int>, s: int, c: int)
    ensures
        v.turned_y(s, c).turned_y(-s, c) == (Vec3Model { x: (c * c + s * s) * v.x, y: v.y, z: (c * c + s * s) * v.z }),
{
    lemma_vec3_turned_y_and_back_x(v, s, c);
    lemma_vec3_turned_y_and_back_y(v, s, c);
    lemma_vec3_turned_y_and_back_z(v, s, c);
}

/// A turn about the y axis keeps the part along the axis and multiplies the square of the
/// rest by `c² + s²`: it keeps the length for the sine and the cosine of an angle.
pub proof fn lemma_vec3_turned_y_keeps_length(v: Vec3Model<int>, s: int, c: int)
    ensures
        v.turned_y(s, c).square_magnitude() == (c * c + s * s) * (v.x * v.x + v.z * v.z) + v.y * v.y,
{
    assert((((c * v.x) + (s * v.z)) * ((c * v.x) + (s * v.z)))
        == ((c * v.x) * ((c * v.x) + (s * v.z))) + ((s * v.z) * ((c * v.x) + (s * v.z)))) by (nonlinear_arith);
    assert(((c * v.x) * ((c * v.x) + (s * v.z)))
        == ((c * v.x) * (c * v.x)) + ((c * v.x) * (s * v.z))) by (nonlinear_arith);
    assert(((c * v.x) * (c * v.x)) == c * c * v.x * v.x) by (nonlinear_arith);
    assert(((c * v.x) * (s * v.z)) == c * s * v.x * v.z) by (nonlinear_arith);
    assert(((s * v.z) * ((c * v.x) + (s * v.z)))
        == ((s * v.z) * (c * v.x)) + ((s * v.z) * (s * v.z))) by (nonlinear_arith);
    assert(((s * v.z) * (c * v.x)) == c * s * v.x * v.z) by (nonlinear_arith);
    assert(((s * v.z) * (s * v.z)) == s * s * v.z * v.z) by (nonlinear_arith);
    assert(((((-s) * v.x) + (c * v.z)) * (((-s) * v.x) + (c * v.z)))
        == (((-s) * v.x) * (((-s) * v.x) + (c * v.z))) + ((c * v.z) * (((-s) * v.x) + (c * v.z)))) by (nonlinear_arith);
    assert((((-s) * v.x) * (((-s) * v.x) + (c * v.z)))
        == 0int - ((s * v.x) * (((-s) * v.x) + (c * v.z)))) by (nonlinear_arith);
    assert(((s * v.x) * (((-s) * v.x) + (c * v.z)))
        == ((s * v.x) * ((-s) * v.x)) + ((s * v.x) * (c * v.z))) by (nonlinear_arith);
    assert(((s * v.x) * ((-s) * v.x)) == 0int - ((s * v.x) * (s * v.x))) by (nonlinear_arith);
    assert(((s * v.x) * (s * v.x)) == s * s * v.x * v.x) by (nonlinear_arith);
    assert(((s * v.x) * (c * v.z)) == c * s * v.x * v.z) by (nonlinear_arith);
    assert(((c * v.z) * (((-s) * v.x) + (c * v.z)))
        == ((c * v.z) * ((-s) * v.x)) + ((c * v.z) * (c * v.z))) by (nonlinear_arith);
    assert(((c * v.z) * ((-s) * v.x)) == 0int - ((c * v.z) * (s * v.x))) by (nonlinear_arith);
    assert(((c * v.z) * (s * v.x)) == c * s * v.x * v.z) by (nonlinear_arith);
    assert(((c * v.z) * (c * v.z)) == c * c * v.z * v.z) by (nonlinear_arith);
    assert((((c * c) + (s * s)) * ((v.x * v.x) + (v.z * v.z)))
        == ((c * c) * ((v.x * v.x) + (v.z * v.z))) + ((s * s) * ((v.x * v.x) + (v.z * v.z)))) by (nonlinear_arith);
    assert(((c * c) * ((v.x * v.x) + (v.z * v.z)))
        == ((c * c) * (v.x * v.x)) + ((c * c) * (v.z * v.z))) by (nonlinear_arith);
    assert(((c * c) * (v.x * v.x)) == c * c * v.x * v.x) by (nonlinear_arith);
    assert(((c * c) * (v.z * v.z)) == c * c * v.z * v.z) by (nonlinear_arith);
    assert(((s * s) * ((v.x * v.x) + (v.z * v.z)))
        == ((s * s) * (v.x * v.x)) + ((s * s) * (v.z * v.z))) by (nonlinear_arith);
    assert(((s * s) * (v.x * v.x)) == s * s * v.x * v.x) by (nonlinear_arith);
    assert(((s * s) * (v.z * v.z)) == s * s * v.z * v.z) by (nonlinear_arith);
}

proof fn lemma_vec3_turned_z_x(v: Vec3Model<int>, s: int, c: int)
    ensures
        v.turned_z(s, c).x == Mat3Model::rotation_z(s, c).apply(v).x,
{
    assert(((-s) * v.y) == 0int - (s * v.y)) by (nonlinear_arith);
    assert((0int * v.z) == 0int) by (nonlinear_arith);
}

proof fn lemma_vec3_turned_z_y(v: Vec3Model<int>, s: int, c: int)
    ensures
        v.turned_z(s, c).y == Mat3Model::rotation_z(s, c).apply(v).y,
{
    assert((0int * v.z) == 0int) by (nonlinear_arith);
}

proof fn lemma_vec3_turned_z_z(v: Vec3Model<int>, s: int, c: int)
    ensures
        v.turned_z(s, c).z == Mat3Model::rotation_z(s, c).apply(v).z,
{
    assert((0int * v.x) == 0int) by (nonlinear_arith);
    assert((0int * v.y) == 0int) by (nonlinear_arith);
    assert((1int * v.z) == v.z) by (nonlinear_arith);
}

/// Turning a vector about the z axis applies the rotation about that axis to it.
pub proof fn lemma_vec3_turned_z(v: Vec3Model<int>, s: int, c: int)
    ensures
        v.turned_z(s, c) == Mat3Model::rotation_z(s, c).apply(v),
{
    lemma_vec3_turned_z_x(v, s, c);
    lemma_vec3_turned_z_y(v, s, c);
    lemma_vec3_turned_z_z(v, s, c);
}

proof fn lemma_vec3_turned_z_and_back_x(v: Vec3Model<int>, s: int, c: int)
    ensures
        v.turned_z(s, c).turned_z(-s, c).x == (Vec3Model { x: (c * c + s * s) * v.x, y: (c * c + s * s) * v.y, z: v.z }).x,
{
    assert((c * ((c * v.x) - (s * v.y))) == (c * (c * v.x)) - (c * (s * v.y))) by (nonlinear_arith);
    assert((c * (c * v.x)) == c * c * v.x) by (nonlinear_arith);
    assert((c * (s * v.y)) == c * s * v.y) by (nonlinear_arith);
    assert(((-s) * ((s * v.x) + (c * v.y)))
        == 0int - (s * ((s * v.x) + (c * v.y)))) by (nonlinear_arith);
    assert((s * ((s * v.x) + (c * v.y))) == (s * (s * v.x)) + (s * (c * v.y))) by (nonlinear_arith);
    assert((s * (s * v.x)) == s * s * v.x) by (nonlinear_arith);
    assert((s * (c * v.y)) == c * s * v.y) by (nonlinear_arith);
    assert((((c * c) + (s * s)) * v.x) == ((c * c) * v.x) + ((s * s) * v.x)) by (nonlinear_arith);
    assert(((c * c) * v.x) == c * c * v.x) by (nonlinear_arith);
    assert(((s * s) * v.x) == s * s * v.x) by (nonlinear_arith);
}

proof fn lemma_vec3_turned_z_and_back_y(v: Vec3Model<int>, s: int, c: int)
    ensures
        v.turned_z(s, c).turned_z(-s, c).y == (Vec3Model { x: (c * c + s * s) * v.x, y: (c * c + s * s) * v.y, z: v.z }).y,
{
    assert(((-s) * ((c * v.x) - (s * v.y)))
        == 0int - (s * ((c * v.x) - (s * v.y)))) by (nonlinear_arith);
    assert((s * ((c * v.x) - (s * v.y))) == (s * (c * v.x)) - (s * (s * v.y))) by (nonlinear_arith);
    assert((s * (c * v.x)) == c * s * v.x) by (nonlinear_arith);
    assert((s * (s * v.y)) == s * s * v.y) by (nonlinear_arith);
    assert((c * ((s * v.x) + (c * v.y))) == (c * (s * v.x)) + (c * (c * v.y))) by (nonlinear_arith);
    assert((c * (s * v.x)) == c * s * v.x) by (nonlinear_arith);
    assert((c * (c * v.y)) == c * c * v.y) by (nonlinear_arith);
    assert((((c * c) + (s * s)) * v.y) == ((c * c) * v.y) + ((s * s) * v.y)) by (nonlinear_arith);
    assert(((c * c) * v.y) == c * c * v.y) by (nonlinear_arith);
    assert(((s * s) * v.y) == s * s * v.y) by (nonlinear_arith);
}

proof fn lemma_vec3_turned_z_and_back_z(v: Vec3Model<int>, s: int, c: int)
    ensures
        v.turned_z(s, c).turned_z(-s, c).z == (Vec3Model { x: (c * c + s * s) * v.x, y: (c * c + s * s) * v.y, z: v.z }).z,
{
}

/// A turn about the z axis followed by the opposite turn gives the vector back, times
/// `c² + s²`, which is one for the sine and the cosine of an angle.
pub proof fn lemma_vec3_turned_z_and_back(v: Vec3Model<int>, s: int, c: int)
    ensures
        v.turned_z(s, c).turned_z(-s, c) == (Vec3Model { x: (c * c + s * s) * v.x, y: (c * c + s * s) * v.y, z: v.z }),
{
    lemma_vec3_turned_z_and_back_x(v, s, c);
    lemma_vec3_turned_z_and_back_y(v, s, c);
    lemma_vec3_turned_z_and_back_z(v, s, c);
}

/// A turn about the z axis keeps the part along the axis and multiplies the square of the
/// rest by `c² + s²`: it keeps the length for the sine and the cosine of an angle.
pub proof fn lemma_vec3_turned_z_keeps_length(v: Vec3Model<int>, s: int, c: int)
    ensures
        v.turned_z(s, c).square_magnitude() == (c * c + s * s) * (v.x * v.x + v.y * v.y) + v.z * v.z,
{
    assert((((c * v.x) - (s * v.y)) * ((c * v.x) - (s * v.y)))
        == ((c * v.x) * ((c * v.x) - (s * v.y))) - ((s * v.y) * ((c * v.x) - (s * v.y)))) by (nonlinear_arith);
    assert(((c * v.x) * ((c * v.x) - (s * v.y)))
        == ((c * v.x) * (c * v.x)) - ((c * v.x) * (s * v.y))) by (nonlinear_arith);
    assert(((c * v.x) * (c * v.x)) == c * c * v.x * v.x) by (nonlinear_arith);
    assert(((c * v.x) * (s * v.y)) == c * s * v.x * v.y) by (nonlinear_arith);
    assert(((s * v.y) * ((c * v.x) - (s * v.y)))
        == ((s * v.y) * (c * v.x)) - ((s * v.y) * (s * v.y))) by (nonlinear_arith);
    assert(((s * v.y) * (c * v.x)) == c * s * v.x * v.y) by (nonlinear_arith);
    assert(((s * v.y) * (s * v.y)) == s * s * v.y * v.y) by (nonlinear_arith);
    assert((((s * v.x) + (c * v.y)) * ((s * v.x) + (c * v.y)))
        == ((s * v.x) * ((s * v.x) + (c * v.y))) + ((c * v.y) * ((s * v.x) + (c * v.y)))) by (nonlinear_arith);
    assert(((s * v.x) * ((s * v.x) + (c * v.y)))
        == ((s * v.x) * (s * v.x)) + ((s * v.x) * (c * v.y))) by (nonlinear_arith);
    assert(((s * v.x) * (s * v.x)) == s * s * v.x * v.x) by (nonlinear_arith);
    assert(((s * v.x) * (c * v.y)) == c * s * v.x * v.y) by (nonlinear_arith);
    assert(((c * v.y) * ((s * v.x) + (c * v.y)))
        == ((c * v.y) * (s * v.x)) + ((c * v.y) * (c * v.y))) by (nonlinear_arith);
    assert(((c * v.y) * (s * v.x)) == c * s * v.x * v.y) by (nonlinear_arith);
    assert(((c * v.y) * (c * v.y)) == c * c * v.y * v.y) by (nonlinear_arith);
    assert((((c * c) + (s * s)) * ((v.x * v.x) + (v.y * v.y)))
        == ((c * c) * ((v.x * v.x) + (v.y * v.y))) + ((s * s) * ((v.x * v.x) + (v.y * v.y)))) by (nonlinear_arith);
    assert(((c * c) * ((v.x * v.x) + (v.y * v.y)))
        == ((c * c) * (v.x * v.x)) + ((c * c) * (v.y * v.y))) by (nonlinear_arith);
    assert(((c * c) * (v.x * v.x)) == c * c * v.x * v.x) by (nonlinear_arith);
    assert(((c * c) * (v.y * v.y)) == c * c * v.y * v.y) by (nonlinear_arith);
    assert(((s * s) * ((v.x * v.x) + (v.y * v.y)))
        == ((s * s) * (v.x * v.x)) + ((s * s) * (v.y * v.y))) by (nonlinear_arith);
    assert(((s * s) * (v.x * v.x)) == s * s * v.x * v.x) by (nonlinear_arith);
    assert(((s * s) * (v.y * v.y)) == s * s * v.y * v.y) by (nonlinear_arith);
}

proof fn lemma_vec2_turned_x(v: Vec2Model<int>, s: int, c: int)
    ensures
        (Vec3Model { x: v.turned(s, c).x, y: v.turned(s, c).y, z: 0int }).x == Mat3Model::rotation_z(s, c).apply(Vec3Model { x: v.x, y: v.y, z: 0int }).x,
{
    assert(((-s) * v.y) == 0int - (s * v.y)) by (nonlinear_arith);
    assert((0int * 0int) == 0int) by (nonlinear_arith);
}

proof fn lemma_vec2_turned_y(v: Vec2Model<int>, s: int, c: int)
    ensures
        (Vec3Model { x: v.turned(s, c).x, y: v.turned(s, c).y, z: 0int }).y == Mat3Model::rotation_z(s, c).apply(Vec3Model { x: v.x, y: v.y, z: 0int }).y,
{
    assert((0int * 0int) == 0int) by (nonlinear_arith);
}

proof fn lemma_vec2_turned_z(v: Vec2Model<int>, s: int, c: int)
    ensures
        (Vec3Model { x: v.turned(s, c).x, y: v.turned(s, c).y, z: 0int }).z == Mat3Model::rotation_z(s, c).apply(Vec3Model { x: v.x, y: v.y, z: 0int }).z,
{
    assert((0int * v.x) == 0int) by (nonlinear_arith);
    assert((0int * v.y) == 0int) by (nonlinear_arith);
    assert((1int * 0int) == 0int) by (nonlinear_arith);
}

/// Turning a vector of the plane applies the rotation about the z axis to it.
pub proof fn lemma_vec2_turned(v: Vec2Model<int>, s: int, c: int)
    ensures
        (Vec3Model { x: v.turned(s, c).x, y: v.turned(s, c).y, z: 0int }) == Mat3Model::rotation_z(s, c).apply(Vec3Model { x: v.x, y: v.y, z: 0int }),
{
    lemma_vec2_turned_x(v, s, c);
    lemma_vec2_turned_y(v, s, c);
    lemma_vec2_turned_z(v, s, c);
}

proof fn lemma_vec2_turned_and_back_x(v: Vec2Model<int>, s: int, c: int)
    ensures
        v.turned(s, c).turned(-s, c).x == (Vec2Model { x: (c * c + s * s) * v.x, y: (c * c + s * s) * v.y }).x,
{
    assert((c * ((c * v.x) - (s * v.y))) == (c * (c * v.x)) - (c * (s * v.y))) by (nonlinear_arith);
    assert((c * (c * v.x)) == c * c * v.x) by (nonlinear_arith);
    assert((c * (s * v.y)) == c * s * v.y) by (nonlinear_arith);
    assert(((-s) * ((s * v.x) + (c * v.y)))
        == 0int - (s * ((s * v.x) + (c * v.y)))) by (nonlinear_arith);
    assert((s * ((s * v.x) + (c * v.y))) == (s * (s * v.x)) + (s * (c * v.y))) by (nonlinear_arith);
    assert((s * (s * v.x)) == s * s * v.x) by (nonlinear_arith);
    assert((s * (c * v.y)) == c * s * v.y) by (nonlinear_arith);
    assert((((c * c) + (s * s)) * v.x) == ((c * c) * v.x) + ((s * s) * v.x)) by (nonlinear_arith);
    assert(((c * c) * v.x) == c * c * v.x) by (nonlinear_arith);
    assert(((s * s) * v.x) == s * s * v.x) by (nonlinear_arith);
}

proof fn lemma_vec2_turned_and_back_y(v: Vec2Model<int>, s: int, c: int)
    ensures
        v.turned(s, c).turned(-s, c).y == (Vec2Model { x: (c * c + s * s) * v.x, y: (c * c + s * s) * v.y }).y,
{
    assert(((-s) * ((c * v.x) - (s * v.y)))
        == 0int - (s * ((c * v.x) - (s * v.y)))) by (nonlinear_arith);
    assert((s * ((c * v.x) - (s * v.y))) == (s * (c * v.x)) - (s * (s * v.y))) by (nonlinear_arith);
    assert((s * (c * v.x)) == c * s * v.x) by (nonlinear_arith);
    assert((s * (s * v.y)) == s * s * v.y) by (nonlinear_arith);
    assert((c * ((s * v.x) + (c * v.y))) == (c * (s * v.x)) + (c * (c * v.y))) by (nonlinear_arith);
    assert((c * (s * v.x)) == c * s * v.x) by (nonlinear_arith);
    assert((c * (c * v.y)) == c * c * v.y) by (nonlinear_arith);
    assert((((c * c) + (s * s)) * v.y) == ((c * c) * v.y) + ((s * s) * v.y)) by (nonlinear_arith);
    assert(((c * c) * v.y) == c * c * v.y) by (nonlinear_arith);
    assert(((s * s) * v.y) == s * s * v.y) by (nonlinear_arith);
}

/// A turn followed by the opposite turn gives the vector back, times `c² + s²`.
pub proof fn lemma_vec2_turned_and_back(v: Vec2Model<int>, s: int, c: int)
    ensures
        v.turned(s, c).turned(-s, c) == (Vec2Model { x: (c * c + s * s) * v.x, y: (c * c + s * s) * v.y }),
{
    lemma_vec2_turned_and_back_x(v, s, c);
    lemma_vec2_turned_and_back_y(v, s, c);
}

/// A turn multiplies the square of the length by `c² + s²`.
pub proof fn lemma_vec2_turned_keeps_length(v: Vec2Model<int>, s: int, c: int)
    ensures
        v.turned(s, c).square_magnitude() == (c * c + s * s) * (v.x * v.x + v.y * v.y),
{
    assert((((c * v.x) - (s * v.y)) * ((c * v.x) - (s * v.y)))
        == ((c * v.x) * ((c * v.x) - (s * v.y))) - ((s * v.y) * ((c * v.x) - (s * v.y)))) by (nonlinear_arith);
    assert(((c * v.x) * ((c * v.x) - (s * v.y)))
        == ((c * v.x) * (c * v.x)) - ((c * v.x) * (s * v.y))) by (nonlinear_arith);
    assert(((c * v.x) * (c * v.x)) == c * c * v.x * v.x) by (nonlinear_arith);
    assert(((c * v.x) * (s * v.y)) == c * s * v.x * v.y) by (nonlinear_arith);
    assert(((s * v.y) * ((c * v.x) - (s * v.y)))
        == ((s * v.y) * (c * v.x)) - ((s * v.y) * (s * v.y))) by (nonlinear_arith);
    assert(((s * v.y) * (c * v.x)) == c * s * v.x * v.y) by (nonlinear_arith);
    assert(((s * v.y) * (s * v.y)) == s * s * v.y * v.y) by (nonlinear_arith);
    assert((((s * v.x) + (c * v.y)) * ((s * v.x) + (c * v.y)))
        == ((s * v.x) * ((s * v.x) + (c * v.y))) + ((c * v.y) * ((s * v.x) + (c * v.y)))) by (nonlinear_arith);
    assert(((s * v.x) * ((s * v.x) + (c * v.y)))
        == ((s * v.x) * (s * v.x)) + ((s * v.x) * (c * v.y))) by (nonlinear_arith);
    assert(((s * v.x) * (s * v.x)) == s * s * v.x * v.x) by (nonlinear_arith);
    assert(((s * v.x) * (c * v.y)) == c * s * v.x * v.y) by (nonlinear_arith);
    assert(((c * v.y) * ((s * v.x) + (c * v.y)))
        == ((c * v.y) * (s * v.x)) + ((c * v.y) * (c * v.y))) by (nonlinear_arith);
    assert(((c * v.y) * (s * v.x)) == c * s * v.x * v.y) by (nonlinear_arith);
    assert(((c * v.y) * (c * v.y)) == c * c * v.y * v.y) by (nonlinear_arith);
    assert((((c * c) + (s * s)) * ((v.x * v.x) + (v.y * v.y)))
        == ((c * c) * ((v.x * v.x) + (v.y * v.y))) + ((s * s) * ((v.x * v.x) + (v.y * v.y)))) by (nonlinear_arith);
    assert(((c * c) * ((v.x * v.x) + (v.y * v.y)))
        == ((c * c) * (v.x * v.x)) + ((c * c) * (v.y * v.y))) by (nonlinear_arith);
    assert(((c * c) * (v.x * v.x)) == c * c * v.x * v.x) by (nonlinear_arith);
    assert(((c * c) * (v.y * v.y)) == c * c * v.y * v.y) by (nonlinear_arith);
    assert(((s * s) * ((v.x * v.x) + (v.y * v.y)))
        == ((s * s) * (v.x * v.x)) + ((s * s) * (v.y * v.y))) by (nonlinear_arith);
    assert(((s * s) * (v.x * v.x)) == s * s * v.x * v.x) by (nonlinear_arith);
    assert(((s * s) * (v.y * v.y)) == s * s * v.y * v.y) by (nonlinear_arith);
}

} // verus!
