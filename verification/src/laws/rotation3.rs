//! Rotations as matrices of three rows, over the integers.
use crate::traits::Ring;
use crate::types::mat3::Mat3Model;
use crate::types::vec3::Vec3Model;
use vstd::prelude::*;

verus! {

proof fn lemma_mat3_rodrigues_about_x_r0c0(s: int, c: int)
    ensures
        Mat3Model::rodrigues(Vec3Model { x: 1int, y: 0int, z: 0int }, s, c).r0c0 == Mat3Model::rotation_x(s, c).r0c0,
{
    assert(((1int * 1int) * (1int - c))
        == ((1int * 1int) * 1int) - ((1int * 1int) * c)) by (nonlinear_arith);
    assert(((1int * 1int) * 1int) == 1int) by (nonlinear_arith);
    assert(((1int * 1int) * c) == c) by (nonlinear_arith);
}

proof fn lemma_mat3_rodrigues_about_x_r0c1(s: int, c: int)
    ensures
        Mat3Model::rodrigues(Vec3Model { x: 1int, y: 0int, z: 0int }, s, c).r0c1 == Mat3Model::rotation_x(s, c).r0c1,
{
    assert(((1int * 0int) * (1int - c))
        == ((1int * 0int) * 1int) - ((1int * 0int) * c)) by (nonlinear_arith);
    assert(((1int * 0int) * 1int) == 0int) by (nonlinear_arith);
    assert(((1int * 0int) * c) == 0int) by (nonlinear_arith);
    assert((0int * s) == 0int) by (nonlinear_arith);
}

proof fn lemma_mat3_rodrigues_about_x_r0c2(s: int, c: int)
    ensures
        Mat3Model::rodrigues(Vec3Model { x: 1int, y: 0int, z: 0int }, s, c).r0c2 == Mat3Model::rotation_x(s, c).r0c2,
{
    assert(((1int * 0int) * (1int - c))
        == ((1int * 0int) * 1int) - ((1int * 0int) * c)) by (nonlinear_arith);
    assert(((1int * 0int) * 1int) == 0int) by (nonlinear_arith);
    assert(((1int * 0int) * c) == 0int) by (nonlinear_arith);
    assert((0int * s) == 0int) by (nonlinear_arith);
}

proof fn lemma_mat3_rodrigues_about_x_r1c0(s: int, c: int)
    ensures
        Mat3Model::rodrigues(Vec3Model { x: 1int, y: 0int, z: 0int }, s, c).r1c0 == Mat3Model::rotation_x(s, c).r1c0,
{
    assert(((1int * 0int) * (1int - c))
        == ((1int * 0int) * 1int) - ((1int * 0int) * c)) by (nonlinear_arith);
    assert(((1int * 0int) * 1int) == 0int) by (nonlinear_arith);
    assert(((1int * 0int) * c) == 0int) by (nonlinear_arith);
    assert((0int * s) == 0int) by (nonlinear_arith);
}

proof fn lemma_mat3_rodrigues_about_x_r1c1(s: int, c: int)
    ensures
        Mat3Model::rodrigues(Vec3Model { x: 1int, y: 0int, z: 0int }, s, c).r1c1 == Mat3Model::rotation_x(s, c).r1c1,
{
    assert(((0int * 0int) * (1int - c))
        == ((0int * 0int) * 1int) - ((0int * 0int) * c)) by (nonlinear_arith);
    assert(((0int * 0int) * 1int) == 0int) by (nonlinear_arith);
    assert(((0int * 0int) * c) == 0int) by (nonlinear_arith);
}

proof fn lemma_mat3_rodrigues_about_x_r1c2(s: int, c: int)
    ensures
        Mat3Model::rodrigues(Vec3Model { x: 1int, y: 0int, z: 0int }, s, c).r1c2 == Mat3Model::rotation_x(s, c).r1c2,
{
    assert(((0int * 0int) * (1int - c))
        == ((0int * 0int) * 1int) - ((0int * 0int) * c)) by (nonlinear_arith);
    assert(((0int * 0int) * 1int) == 0int) by (nonlinear_arith);
    assert(((0int * 0int) * c) == 0int) by (nonlinear_arith);
    assert((1int * s) == s) by (nonlinear_arith);
}

proof fn lemma_mat3_rodrigues_about_x_r2c0(s: int, c: int)
    ensures
        Mat3Model::rodrigues(Vec3Model { x: 1int, y: 0int, z: 0int }, s, c).r2c0 == Mat3Model::rotation_x(s, c).r2c0,
{
    assert(((1int * 0int) * (1int - c))
        == ((1int * 0int) * 1int) - ((1int * 0int) * c)) by (nonlinear_arith);
    assert(((1int * 0int) * 1int) == 0int) by (nonlinear_arith);
    assert(((1int * 0int) * c) == 0int) by (nonlinear_arith);
    assert((0int * s) == 0int) by (nonlinear_arith);
}

proof fn lemma_mat3_rodrigues_about_x_r2c1(s: int, c: int)
    ensures
        Mat3Model::rodrigues(Vec3Model { x: 1int, y: 0int, z: 0int }, s, c).r2c1 == Mat3Model::rotation_x(s, c).r2c1,
{
    assert(((0int * 0int) * (1int - c))
        == ((0int * 0int) * 1int) - ((0int * 0int) * c)) by (nonlinear_arith);
    assert(((0int * 0int) * 1int) == 0int) by (nonlinear_arith);
    assert(((0int * 0int) * c) == 0int) by (nonlinear_arith);
    assert((1int * s) == s) by (nonlinear_arith);
}

proof fn lemma_mat3_rodrigues_about_x_r2c2(s: int, c: int)
    ensures
        Mat3Model::rodrigues(Vec3Model { x: 1int, y: 0int, z: 0int }, s, c).r2c2 == Mat3Model::rotation_x(s, c).r2c2,
{
    assert(((0int * 0int) * (1int - c))
        == ((0int * 0int) * 1int) - ((0int * 0int) * c)) by (nonlinear_arith);
    assert(((0int * 0int) * 1int) == 0int) by (nonlinear_arith);
    assert(((0int * 0int) * c) == 0int) by (nonlinear_arith);
}

/// About the x axis the formula of Rodrigues gives the rotation about that axis.
pub proof fn lemma_mat3_rodrigues_about_x(s: int, c: int)
    ensures
        Mat3Model::rodrigues(Vec3Model { x: 1int, y: 0int, z: 0int }, s, c) == Mat3Model::rotation_x(s, c),
{
    lemma_mat3_rodrigues_about_x_r0c0(s, c);
    lemma_mat3_rodrigues_about_x_r0c1(s, c);
    lemma_mat3_rodrigues_about_x_r0c2(s, c);
    lemma_mat3_rodrigues_about_x_r1c0(s, c);
    lemma_mat3_rodrigues_about_x_r1c1(s, c);
    lemma_mat3_rodrigues_about_x_r1c2(s, c);
    lemma_mat3_rodrigues_about_x_r2c0(s, c);
    lemma_mat3_rodrigues_about_x_r2c1(s, c);
    lemma_mat3_rodrigues_about_x_r2c2(s, c);
}

proof fn lemma_mat3_rodrigues_about_y_r0c0(s: int, c: int)
    ensures
        Mat3Model::rodrigues(Vec3Model { x: 0int, y: 1int, z: 0int }, s, c).r0c0 == Mat3Model::rotation_y(s, c).r0c0,
{
    assert(((0int * 0int) * (1int - c))
        == ((0int * 0int) * 1int) - ((0int * 0int) * c)) by (nonlinear_arith);
    assert(((0int * 0int) * 1int) == 0int) by (nonlinear_arith);
    assert(((0int * 0int) * c) == 0int) by (nonlinear_arith);
}

proof fn lemma_mat3_rodrigues_about_y_r0c1(s: int, c: int)
    ensures
        Mat3Model::rodrigues(Vec3Model { x: 0int, y: 1int, z: 0int }, s, c).r0c1 == Mat3Model::rotation_y(s, c).r0c1,
{
    assert(((0int * 1int) * (1int - c))
        == ((0int * 1int) * 1int) - ((0int * 1int) * c)) by (nonlinear_arith);
    assert(((0int * 1int) * 1int) == 0int) by (nonlinear_arith);
    assert(((0int * 1int) * c) == 0int) by (nonlinear_arith);
    assert((0int * s) == 0int) by (nonlinear_arith);
}

proof fn lemma_mat3_rodrigues_about_y_r0c2(s: int, c: int)
    ensures
        Mat3Model::rodrigues(Vec3Model { x: 0int, y: 1int, z: 0int }, s, c).r0c2 == Mat3Model::rotation_y(s, c).r0c2,
{
    assert(((0int * 0int) * (1int - c))
        == ((0int * 0int) * 1int) - ((0int * 0int) * c)) by (nonlinear_arith);
    assert(((0int * 0int) * 1int) == 0int) by (nonlinear_arith);
    assert(((0int * 0int) * c) == 0int) by (nonlinear_arith);
    assert((1int * s) == s) by (nonlinear_arith);
}

proof fn lemma_mat3_rodrigues_about_y_r1c0(s: int, c: int)
    ensures
        Mat3Model::rodrigues(Vec3Model { x: 0int, y: 1int, z: 0int }, s, c).r1c0 == Mat3Model::rotation_y(s, c).r1c0,
{
    assert(((0int * 1int) * (1int - c))
        == ((0int * 1int) * 1int) - ((0int * 1int) * c)) by (nonlinear_arith);
    assert(((0int * 1int) * 1int) == 0int) by (nonlinear_arith);
    assert(((0int * 1int) * c) == 0int) by (nonlinear_arith);
    assert((0int * s) == 0int) by (nonlinear_arith);
}

proof fn lemma_mat3_rodrigues_about_y_r1c1(s: int, c: int)
    ensures
        Mat3Model::rodrigues(Vec3Model { x: 0int, y: 1int, z: 0int }, s, c).r1c1 == Mat3Model::rotation_y(s, c).r1c1,
{
    assert(((1int * 1int) * (1int - c))
        == ((1int * 1int) * 1int) - ((1int * 1int) * c)) by (nonlinear_arith);
    assert(((1int * 1int) * 1int) == 1int) by (nonlinear_arith);
    assert(((1int * 1int) * c) == c) by (nonlinear_arith);
}

proof fn lemma_mat3_rodrigues_about_y_r1c2(s: int, c: int)
    ensures
        Mat3Model::rodrigues(Vec3Model { x: 0int, y: 1int, z: 0int }, s, c).r1c2 == Mat3Model::rotation_y(s, c).r1c2,
{
    assert(((1int * 0int) * (1int - c))
        == ((1int * 0int) * 1int) - ((1int * 0int) * c)) by (nonlinear_arith);
    assert(((1int * 0int) * 1int) == 0int) by (nonlinear_arith);
    assert(((1int * 0int) * c) == 0int) by (nonlinear_arith);
    assert((0int * s) == 0int) by (nonlinear_arith);
}

proof fn lemma_mat3_rodrigues_about_y_r2c0(s: int, c: int)
    ensures
        Mat3Model::rodrigues(Vec3Model { x: 0int, y: 1int, z: 0int }, s, c).r2c0 == Mat3Model::rotation_y(s, c).r2c0,
{
    assert(((0int * 0int) * (1int - c))
        == ((0int * 0int) * 1int) - ((0int * 0int) * c)) by (nonlinear_arith);
    assert(((0int * 0int) * 1int) == 0int) by (nonlinear_arith);
    assert(((0int * 0int) * c) == 0int) by (nonlinear_arith);
    assert((1int * s) == s) by (nonlinear_arith);
}

proof fn lemma_mat3_rodrigues_about_y_r2c1(s: int, c: int)
    ensures
        Mat3Model::rodrigues(Vec3Model { x: 0int, y: 1int, z: 0int }, s, c).r2c1 == Mat3Model::rotation_y(s, c).r2c1,
{
    assert(((1int * 0int) * (1int - c))
        == ((1int * 0int) * 1int) - ((1int * 0int) * c)) by (nonlinear_arith);
    assert(((1int * 0int) * 1int) == 0int) by (nonlinear_arith);
    assert(((1int * 0int) * c) == 0int) by (nonlinear_arith);
    assert((0int * s) == 0int) by (nonlinear_arith);
}

proof fn lemma_mat3_rodrigues_about_y_r2c2(s: int, c: int)
    ensures
        Mat3Model::rodrigues(Vec3Model { x: 0int, y: 1int, z: 0int }, s, c).r2c2 == Mat3Model::rotation_y(s, c).r2c2,
{
    assert(((0int * 0int) * (1int - c))
        == ((0int * 0int) * 1int) - ((0int * 0int) * c)) by (nonlinear_arith);
    assert(((0int * 0int) * 1int) == 0int) by (nonlinear_arith);
    assert(((0int * 0int) * c) == 0int) by (nonlinear_arith);
}

/// About the y axis the formula of Rodrigues gives the rotation about that axis.
pub proof fn lemma_mat3_rodrigues_about_y(s: int, c: int)
    ensures
        Mat3Model::rodrigues(Vec3Model { x: 0int, y: 1int, z: 0int }, s, c) == Mat3Model::rotation_y(s, c),
{
    lemma_mat3_rodrigues_about_y_r0c0(s, c);
    lemma_mat3_rodrigues_about_y_r0c1(s, c);
    lemma_mat3_rodrigues_about_y_r0c2(s, c);
    lemma_mat3_rodrigues_about_y_r1c0(s, c);
    lemma_mat3_rodrigues_about_y_r1c1(s, c);
    lemma_mat3_rodrigues_about_y_r1c2(s, c);
    lemma_mat3_rodrigues_about_y_r2c0(s, c);
    lemma_mat3_rodrigues_about_y_r2c1(s, c);
    lemma_mat3_rodrigues_about_y_r2c2(s, c);
}

proof fn lemma_mat3_rodrigues_about_z_r0c0(s: int, c: int)
    ensures
        Mat3Model::rodrigues(Vec3Model { x: 0int, y: 0int, z: 1int }, s, c).r0c0 == Mat3Model::rotation_z(s, c).r0c0,
{
    assert(((0int * 0int) * (1int - c))
        == ((0int * 0int) * 1int) - ((0int * 0int) * c)) by (nonlinear_arith);
    assert(((0int * 0int) * 1int) == 0int) by (nonlinear_arith);
    assert(((0int * 0int) * c) == 0int) by (nonlinear_arith);
}

proof fn lemma_mat3_rodrigues_about_z_r0c1(s: int, c: int)
    ensures
        Mat3Model::rodrigues(Vec3Model { x: 0int, y: 0int, z: 1int }, s, c).r0c1 == Mat3Model::rotation_z(s, c).r0c1,
{
    assert(((0int * 0int) * (1int - c))
        == ((0int * 0int) * 1int) - ((0int * 0int) * c)) by (nonlinear_arith);
    assert(((0int * 0int) * 1int) == 0int) by (nonlinear_arith);
    assert(((0int * 0int) * c) == 0int) by (nonlinear_arith);
    assert((1int * s) == s) by (nonlinear_arith);
}

proof fn lemma_mat3_rodrigues_about_z_r0c2(s: int, c: int)
    ensures
        Mat3Model::rodrigues(Vec3Model { x: 0int, y: 0int, z: 1int }, s, c).r0c2 == Mat3Model::rotation_z(s, c).r0c2,
{
    assert(((0int * 1int) * (1int - c))
        == ((0int * 1int) * 1int) - ((0int * 1int) * c)) by (nonlinear_arith);
    assert(((0int * 1int) * 1int) == 0int) by (nonlinear_arith);
    assert(((0int * 1int) * c) == 0int) by (nonlinear_arith);
    assert((0int * s) == 0int) by (nonlinear_arith);
}

proof fn lemma_mat3_rodrigues_about_z_r1c0(s: int, c: int)
    ensures
        Mat3Model::rodrigues(Vec3Model { x: 0int, y: 0int, z: 1int }, s, c).r1c0 == Mat3Model::rotation_z(s, c).r1c0,
{
    assert(((0int * 0int) * (1int - c))
        == ((0int * 0int) * 1int) - ((0int * 0int) * c)) by (nonlinear_arith);
    assert(((0int * 0int) * 1int) == 0int) by (nonlinear_arith);
    assert(((0int * 0int) * c) == 0int) by (nonlinear_arith);
    assert((1int * s) == s) by (nonlinear_arith);
}

proof fn lemma_mat3_rodrigues_about_z_r1c1(s: int, c: int)
    ensures
        Mat3Model::rodrigues(Vec3Model { x: 0int, y: 0int, z: 1int }, s, c).r1c1 == Mat3Model::rotation_z(s, c).r1c1,
{
    assert(((0int * 0int) * (1int - c))
        == ((0int * 0int) * 1int) - ((0int * 0int) * c)) by (nonlinear_arith);
    assert(((0int * 0int) * 1int) == 0int) by (nonlinear_arith);
    assert(((0int * 0int) * c) == 0int) by (nonlinear_arith);
}

proof fn lemma_mat3_rodrigues_about_z_r1c2(s: int, c: int)
    ensures
        Mat3Model::rodrigues(Vec3Model { x: 0int, y: 0int, z: 1int }, s, c).r1c2 == Mat3Model::rotation_z(s, c).r1c2,
{
    assert(((0int * 1int) * (1int - c))
        == ((0int * 1int) * 1int) - ((0int * 1int) * c)) by (nonlinear_arith);
    assert(((0int * 1int) * 1int) == 0int) by (nonlinear_arith);
    assert(((0int * 1int) * c) == 0int) by (nonlinear_arith);
    assert((0int * s) == 0int) by (nonlinear_arith);
}

proof fn lemma_mat3_rodrigues_about_z_r2c0(s: int, c: int)
    ensures
        Mat3Model::rodrigues(Vec3Model { x: 0int, y: 0int, z: 1int }, s, c).r2c0 == Mat3Model::rotation_z(s, c).r2c0,
{
    assert(((0int * 1int) * (1int - c))
        == ((0int * 1int) * 1int) - ((0int * 1int) * c)) by (nonlinear_arith);
    assert(((0int * 1int) * 1int) == 0int) by (nonlinear_arith);
    assert(((0int * 1int) * c) == 0int) by (nonlinear_arith);
    assert((0int * s) == 0int) by (nonlinear_arith);
}

proof fn lemma_mat3_rodrigues_about_z_r2c1(s: int, c: int)
    ensures
        Mat3Model::rodrigues(Vec3Model { x: 0int, y: 0int, z: 1int }, s, c).r2c1 == Mat3Model::rotation_z(s, c).r2c1,
{
    assert(((0int * 1int) * (1int - c))
        == ((0int * 1int) * 1int) - ((0int * 1int) * c)) by (nonlinear_arith);
    assert(((0int * 1int) * 1int) == 0int) by (nonlinear_arith);
    assert(((0int * 1int) * c) == 0int) by (nonlinear_arith);
    assert((0int * s) == 0int) by (nonlinear_arith);
}

proof fn lemma_mat3_rodrigues_about_z_r2c2(s: int, c: int)
    ensures
        Mat3Model::rodrigues(Vec3Model { x: 0int, y: 0int, z: 1int }, s, c).r2c2 == Mat3Model::rotation_z(s, c).r2c2,
{
    assert(((1int * 1int) * (1int - c))
        == ((1int * 1int) * 1int) - ((1int * 1int) * c)) by (nonlinear_arith);
    assert(((1int * 1int) * 1int) == 1int) by (nonlinear_arith);
    assert(((1int * 1int) * c) == c) by (nonlinear_arith);
}

/// About the z axis the formula of Rodrigues gives the rotation about that axis.
pub proof fn lemma_mat3_rodrigues_about_z(s: int, c: int)
    ensures
        Mat3Model::rodrigues(Vec3Model { x: 0int, y: 0int, z: 1int }, s, c) == Mat3Model::rotation_z(s, c),
{
    lemma_mat3_rodrigues_about_z_r0c0(s, c);
    lemma_mat3_rodrigues_about_z_r0c1(s, c);
    lemma_mat3_rodrigues_about_z_r0c2(s, c);
    lemma_mat3_rodrigues_about_z_r1c0(s, c);
    lemma_mat3_rodrigues_about_z_r1c1(s, c);
    lemma_mat3_rodrigues_about_z_r1c2(s, c);
    lemma_mat3_rodrigues_about_z_r2c0(s, c);
    lemma_mat3_rodrigues_about_z_r2c1(s, c);
    lemma_mat3_rodrigues_about_z_r2c2(s, c);
}

proof fn lemma_mat3_turned_2d_r0c0(m: Mat3Model<int>, s: int, c: int)
    ensures
        m.turned_2d(s, c).r0c0 == Mat3Model::rotation_z(s, c).times(m).r0c0,
{
    assert((s * m.r1c0) == m.r1c0 * s) by (nonlinear_arith);
    assert(((-s) * m.r1c0) == 0int - (s * m.r1c0)) by (nonlinear_arith);
    assert((0int * m.r2c0) == 0int) by (nonlinear_arith);
}

proof fn lemma_mat3_turned_2d_r0c1(m: Mat3Model<int>, s: int, c: int)
    ensures
        m.turned_2d(s, c).r0c1 == Mat3Model::rotation_z(s, c).times(m).r0c1,
{
    assert((s * m.r1c1) == m.r1c1 * s) by (nonlinear_arith);
    assert(((-s) * m.r1c1) == 0int - (s * m.r1c1)) by (nonlinear_arith);
    assert((0int * m.r2c1) == 0int) by (nonlinear_arith);
}

proof fn lemma_mat3_turned_2d_r0c2(m: Mat3Model<int>, s: int, c: int)
    ensures
        m.turned_2d(s, c).r0c2 == Mat3Model::rotation_z(s, c).times(m).r0c2,
{
    assert((s * m.r1c2) == m.r1c2 * s) by (nonlinear_arith);
    assert(((-s) * m.r1c2) == 0int - (s * m.r1c2)) by (nonlinear_arith);
    assert((0int * m.r2c2) == 0int) by (nonlinear_arith);
}

proof fn lemma_mat3_turned_2d_r1c0(m: Mat3Model<int>, s: int, c: int)
    ensures
        m.turned_2d(s, c).r1c0 == Mat3Model::rotation_z(s, c).times(m).r1c0,
{
    assert((s * m.r0c0) == m.r0c0 * s) by (nonlinear_arith);
    assert((0int * m.r2c0) == 0int) by (nonlinear_arith);
}

proof fn lemma_mat3_turned_2d_r1c1(m: Mat3Model<int>, s: int, c: int)
    ensures
        m.turned_2d(s, c).r1c1 == Mat3Model::rotation_z(s, c).times(m).r1c1,
{
    assert((s * m.r0c1) == m.r0c1 * s) by (nonlinear_arith);
    assert((0int * m.r2c1) == 0int) by (nonlinear_arith);
}

proof fn lemma_mat3_turned_2d_r1c2(m: Mat3Model<int>, s: int, c: int)
    ensures
        m.turned_2d(s, c).r1c2 == Mat3Model::rotation_z(s, c).times(m).r1c2,
{
    assert((s * m.r0c2) == m.r0c2 * s) by (nonlinear_arith);
    assert((0int * m.r2c2) == 0int) by (nonlinear_arith);
}

proof fn lemma_mat3_turned_2d_r2c0(m: Mat3Model<int>, s: int, c: int)
    ensures
        m.turned_2d(s, c).r2c0 == Mat3Model::rotation_z(s, c).times(m).r2c0,
{
    assert((0int * m.r0c0) == 0int) by (nonlinear_arith);
    assert((0int * m.r1c0) == 0int) by (nonlinear_arith);
    assert((1int * m.r2c0) == m.r2c0) by (nonlinear_arith);
}

proof fn lemma_mat3_turned_2d_r2c1(m: Mat3Model<int>, s: int, c: int)
    ensures
        m.turned_2d(s, c).r2c1 == Mat3Model::rotation_z(s, c).times(m).r2c1,
{
    assert((0int * m.r0c1) == 0int) by (nonlinear_arith);
    assert((0int * m.r1c1) == 0int) by (nonlinear_arith);
    assert((1int * m.r2c1) == m.r2c1) by (nonlinear_arith);
}

proof fn lemma_mat3_turned_2d_r2c2(m: Mat3Model<int>, s: int, c: int)
    ensures
        m.turned_2d(s, c).r2c2 == Mat3Model::rotation_z(s, c).times(m).r2c2,
{
    assert((0int * m.r0c2) == 0int) by (nonlinear_arith);
    assert((0int * m.r1c2) == 0int) by (nonlinear_arith);
    assert((1int * m.r2c2) == m.r2c2) by (nonlinear_arith);
}

/// Turning a matrix about the z axis multiplies it by the rotation about that axis, from the left.
pub proof fn lemma_mat3_turned_2d(m: Mat3Model<int>, s: int, c: int)
    ensures
        m.turned_2d(s, c) == Mat3Model::rotation_z(s, c).times(m),
{
    lemma_mat3_turned_2d_r0c0(m, s, c);
    lemma_mat3_turned_2d_r0c1(m, s, c);
    lemma_mat3_turned_2d_r0c2(m, s, c);
    lemma_mat3_turned_2d_r1c0(m, s, c);
    lemma_mat3_turned_2d_r1c1(m, s, c);
    lemma_mat3_turned_2d_r1c2(m, s, c);
    lemma_mat3_turned_2d_r2c0(m, s, c);
    lemma_mat3_turned_2d_r2c1(m, s, c);
    lemma_mat3_turned_2d_r2c2(m, s, c);
}

proof fn lemma_mat3_identity_turned_2d_r0c0(s: int, c: int)
    ensures
        Mat3Model::<int>::identity().turned_2d(s, c).r0c0 == Mat3Model::rotation_z(s, c).r0c0,
{
    assert((c * 1int) == c) by (nonlinear_arith);
    assert((s * 0int) == 0int) by (nonlinear_arith);
}

proof fn lemma_mat3_identity_turned_2d_r0c1(s: int, c: int)
    ensures
        Mat3Model::<int>::identity().turned_2d(s, c).r0c1 == Mat3Model::rotation_z(s, c).r0c1,
{
    assert((c * 0int) == 0int) by (nonlinear_arith);
    assert((s * 1int) == s) by (nonlinear_arith);
}

proof fn lemma_mat3_identity_turned_2d_r0c2(s: int, c: int)
    ensures
        Mat3Model::<int>::identity().turned_2d(s, c).r0c2 == Mat3Model::rotation_z(s, c).r0c2,
{
    assert((c * 0int) == 0int) by (nonlinear_arith);
    assert((s * 0int) == 0int) by (nonlinear_arith);
}

proof fn lemma_mat3_identity_turned_2d_r1c0(s: int, c: int)
    ensures
        Mat3Model::<int>::identity().turned_2d(s, c).r1c0 == Mat3Model::rotation_z(s, c).r1c0,
{
    assert((s * 1int) == s) by (nonlinear_arith);
    assert((c * 0int) == 0int) by (nonlinear_arith);
}

proof fn lemma_mat3_identity_turned_2d_r1c1(s: int, c: int)
    ensures
        Mat3Model::<int>::identity().turned_2d(s, c).r1c1 == Mat3Model::rotation_z(s, c).r1c1,
{
    assert((s * 0int) == 0int) by (nonlinear_arith);
    assert((c * 1int) == c) by (nonlinear_arith);
}

proof fn lemma_mat3_identity_turned_2d_r1c2(s: int, c: int)
    ensures
        Mat3Model::<int>::identity().turned_2d(s, c).r1c2 == Mat3Model::rotation_z(s, c).r1c2,
{
    assert((s * 0int) == 0int) by (nonlinear_arith);
    assert((c * 0int) == 0int) by (nonlinear_arith);
}

proof fn lemma_mat3_identity_turned_2d_r2c0(s: int, c: int)
    ensures
        Mat3Model::<int>::identity().turned_2d(s, c).r2c0 == Mat3Model::rotation_z(s, c).r2c0,
{
}

proof fn lemma_mat3_identity_turned_2d_r2c1(s: int, c: int)
    ensures
        Mat3Model::<int>::identity().turned_2d(s, c).r2c1 == Mat3Model::rotation_z(s, c).r2c1,
{
}

proof fn lemma_mat3_identity_turned_2d_r2c2(s: int, c: int)
    ensures
        Mat3Model::<int>::identity().turned_2d(s, c).r2c2 == Mat3Model::rotation_z(s, c).r2c2,
{
}

/// The identity turned about the z axis is the rotation about that axis.
pub proof fn lemma_mat3_identity_turned_2d(s: int, c: int)
    ensures
        Mat3Model::<int>::identity().turned_2d(s, c) == Mat3Model::rotation_z(s, c),
{
    lemma_mat3_identity_turned_2d_r0c0(s, c);
    lemma_mat3_identity_turned_2d_r0c1(s, c);
    lemma_mat3_identity_turned_2d_r0c2(s, c);
    lemma_mat3_identity_turned_2d_r1c0(s, c);
    lemma_mat3_identity_turned_2d_r1c1(s, c);
    lemma_mat3_identity_turned_2d_r1c2(s, c);
    lemma_mat3_identity_turned_2d_r2c0(s, c);
    lemma_mat3_identity_turned_2d_r2c1(s, c);
    lemma_mat3_identity_turned_2d_r2c2(s, c);
}

} // verus!
