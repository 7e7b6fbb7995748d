//! Rotations as matrices of four rows, over the integers.
use crate::traits::Ring;
use crate::types::mat4::Mat4Model;
use crate::types::vec3::Vec3Model;
use vstd::prelude::*;

verus! {

proof fn lemma_mat4_rodrigues_about_x_r0c0(s: int, c: int)
    ensures
        Mat4Model::rodrigues(Vec3Model { x: 1int, y: 0int, z: 0int }, s, c).r0c0 == Mat4Model::rotation_x(s, c).r0c0,
{
    assert(((1int * 1int) * (1int - c))
        == ((1int * 1int) * 1int) - ((1int * 1int) * c)) by (nonlinear_arith);
    assert(((1int * 1int) * 1int) == 1int) by (nonlinear_arith);
    assert(((1int * 1int) * c) == c) by (nonlinear_arith);
}

proof fn lemma_mat4_rodrigues_about_x_r0c1(s: int, c: int)
    ensures
        Mat4Model::rodrigues(Vec3Model { x: 1int, y: 0int, z: 0int }, s, c).r0c1 == Mat4Model::rotation_x(s, c).r0c1,
{
    assert(((1int * 0int) * (1int - c))
        == ((1int * 0int) * 1int) - ((1int * 0int) * c)) by (nonlinear_arith);
    assert(((1int * 0int) * 1int) == 0int) by (nonlinear_arith);
    assert(((1int * 0int) * c) == 0int) by (nonlinear_arith);
    assert((0int * s) == 0int) by (nonlinear_arith);
}

proof fn lemma_mat4_rodrigues_about_x_r0c2(s: int, c: int)
    ensures
        Mat4Model::rodrigues(Vec3Model { x: 1int, y: 0int, z: 0int }, s, c).r0c2 == Mat4Model::rotation_x(s, c).r0c2,
{
    assert(((1int * 0int) * (1int - c))
        == ((1int * 0int) * 1int) - ((1int * 0int) * c)) by (nonlinear_arith);
    assert(((1int * 0int) * 1int) == 0int) by (nonlinear_arith);
    assert(((1int * 0int) * c) == 0int) by (nonlinear_arith);
    assert((0int * s) == 0int) by (nonlinear_arith);
}

proof fn lemma_mat4_rodrigues_about_x_r0c3(s: int, c: int)
    ensures
        Mat4Model::rodrigues(Vec3Model { x: 1int, y: 0int, z: 0int }, s, c).r0c3 == Mat4Model::rotation_x(s, c).r0c3,
{
}

proof fn lemma_mat4_rodrigues_about_x_r1c0(s: int, c: int)
    ensures
        Mat4Model::rodrigues(Vec3Model { x: 1int, y: 0int, z: 0int }, s, c).r1c0 == Mat4Model::rotation_x(s, c).r1c0,
{
    assert(((1int * 0int) * (1int - c))
        == ((1int * 0int) * 1int) - ((1int * 0int) * c)) by (nonlinear_arith);
    assert(((1int * 0int) * 1int) == 0int) by (nonlinear_arith);
    assert(((1int * 0int) * c) == 0int) by (nonlinear_arith);
    assert((0int * s) == 0int) by (nonlinear_arith);
}

proof fn lemma_mat4_rodrigues_about_x_r1c1(s: int, c: int)
    ensures
        Mat4Model::rodrigues(Vec3Model { x: 1int, y: 0int, z: 0int }, s, c).r1c1 == Mat4Model::rotation_x(s, c).r1c1,
{
    assert(((0int * 0int) * (1int - c))
        == ((0int * 0int) * 1int) - ((0int * 0int) * c)) by (nonlinear_arith);
    assert(((0int * 0int) * 1int) == 0int) by (nonlinear_arith);
    assert(((0int * 0int) * c) == 0int) by (nonlinear_arith);
}

proof fn lemma_mat4_rodrigues_about_x_r1c2(s: int, c: int)
    ensures
        Mat4Model::rodrigues(Vec3Model { x: 1int, y: 0int, z: 0int }, s, c).r1c2 == Mat4Model::rotation_x(s, c).r1c2,
{
    assert(((0int * 0int) * (1int - c))
        == ((0int * 0int) * 1int) - ((0int * 0int) * c)) by (nonlinear_arith);
    assert(((0int * 0int) * 1int) == 0int) by (nonlinear_arith);
    assert(((0int * 0int) * c) == 0int) by (nonlinear_arith);
    assert((1int * s) == s) by (nonlinear_arith);
}

proof fn lemma_mat4_rodrigues_about_x_r1c3(s: int, c: int)
    ensures
        Mat4Model::rodrigues(Vec3Model { x: 1int, y: 0int, z: 0int }, s, c).r1c3 == Mat4Model::rotation_x(s, c).r1c3,
{
}

proof fn lemma_mat4_rodrigues_about_x_r2c0(s: int, c: int)
    ensures
        Mat4Model::rodrigues(Vec3Model { x: 1int, y: 0int, z: 0int }, s, c).r2c0 == Mat4Model::rotation_x(s, c).r2c0,
{
    assert(((1int * 0int) * (1int - c))
        == ((1int * 0int) * 1int) - ((1int * 0int) * c)) by (nonlinear_arith);
    assert(((1int * 0int) * 1int) == 0int) by (nonlinear_arith);
    assert(((1int * 0int) * c) == 0int) by (nonlinear_arith);
    assert((0int * s) == 0int) by (nonlinear_arith);
}

proof fn lemma_mat4_rodrigues_about_x_r2c1(s: int, c: int)
    ensures
        Mat4Model::rodrigues(Vec3Model { x: 1int, y: 0int, z: 0int }, s, c).r2c1 == Mat4Model::rotation_x(s, c).r2c1,
{
    assert(((0int * 0int) * (1int - c))
        == ((0int * 0int) * 1int) - ((0int * 0int) * c)) by (nonlinear_arith);
    assert(((0int * 0int) * 1int) == 0int) by (nonlinear_arith);
    assert(((0int * 0int) * c) == 0int) by (nonlinear_arith);
    assert((1int * s) == s) by (nonlinear_arith);
}

proof fn lemma_mat4_rodrigues_about_x_r2c2(s: int, c: int)
    ensures
        Mat4Model::rodrigues(Vec3Model { x: 1int, y: 0int, z: 0int }, s, c).r2c2 == Mat4Model::rotation_x(s, c).r2c2,
{
    assert(((0int * 0int) * (1int - c))
        == ((0int * 0int) * 1int) - ((0int * 0int) * c)) by (nonlinear_arith);
    assert(((0int * 0int) * 1int) == 0int) by (nonlinear_arith);
    assert(((0int * 0int) * c) == 0int) by (nonlinear_arith);
}

proof fn lemma_mat4_rodrigues_about_x_r2c3(s: int, c: int)
    ensures
        Mat4Model::rodrigues(Vec3Model { x: 1int, y: 0int, z: 0int }, s, c).r2c3 == Mat4Model::rotation_x(s, c).r2c3,
{
}

proof fn lemma_mat4_rodrigues_about_x_r3c0(s: int, c: int)
    ensures
        Mat4Model::rodrigues(Vec3Model { x: 1int, y: 0int, z: 0int }, s, c).r3c0 == Mat4Model::rotation_x(s, c).r3c0,
{
}

proof fn lemma_mat4_rodrigues_about_x_r3c1(s: int, c: int)
    ensures
        Mat4Model::rodrigues(Vec3Model { x: 1int, y: 0int, z: 0int }, s, c).r3c1 == Mat4Model::rotation_x(s, c).r3c1,
{
}

proof fn lemma_mat4_rodrigues_about_x_r3c2(s: int, c: int)
    ensures
        Mat4Model::rodrigues(Vec3Model { x: 1int, y: 0int, z: 0int }, s, c).r3c2 == Mat4Model::rotation_x(s, c).r3c2,
{
}

proof fn lemma_mat4_rodrigues_about_x_r3c3(s: int, c: int)
    ensures
        Mat4Model::rodrigues(Vec3Model { x: 1int, y: 0int, z: 0int }, s, c).r3c3 == Mat4Model::rotation_x(s, c).r3c3,
{
}

/// About the x axis the formula of Rodrigues gives the rotation about that axis.
pub proof fn lemma_mat4_rodrigues_about_x(s: int, c: int)
    ensures
        Mat4Model::rodrigues(Vec3Model { x: 1int, y: 0int, z: 0int }, s, c) == Mat4Model::rotation_x(s, c),
{
    lemma_mat4_rodrigues_about_x_r0c0(s, c);
    lemma_mat4_rodrigues_about_x_r0c1(s, c);
    lemma_mat4_rodrigues_about_x_r0c2(s, c);
    lemma_mat4_rodrigues_about_x_r0c3(s, c);
    lemma_mat4_rodrigues_about_x_r1c0(s, c);
    lemma_mat4_rodrigues_about_x_r1c1(s, c);
    lemma_mat4_rodrigues_about_x_r1c2(s, c);
    lemma_mat4_rodrigues_about_x_r1c3(s, c);
    lemma_mat4_rodrigues_about_x_r2c0(s, c);
    lemma_mat4_rodrigues_about_x_r2c1(s, c);
    lemma_mat4_rodrigues_about_x_r2c2(s, c);
    lemma_mat4_rodrigues_about_x_r2c3(s, c);
    lemma_mat4_rodrigues_about_x_r3c0(s, c);
    lemma_mat4_rodrigues_about_x_r3c1(s, c);
    lemma_mat4_rodrigues_about_x_r3c2(s, c);
    lemma_mat4_rodrigues_about_x_r3c3(s, c);
}

proof fn lemma_mat4_rodrigues_about_y_r0c0(s: int, c: int)
    ensures
        Mat4Model::rodrigues(Vec3Model { x: 0int, y: 1int, z: 0int }, s, c).r0c0 == Mat4Model::rotation_y(s, c).r0c0,
{
    assert(((0int * 0int) * (1int - c))
        == ((0int * 0int) * 1int) - ((0int * 0int) * c)) by (nonlinear_arith);
    assert(((0int * 0int) * 1int) == 0int) by (nonlinear_arith);
    assert(((0int * 0int) * c) == 0int) by (nonlinear_arith);
}

proof fn lemma_mat4_rodrigues_about_y_r0c1(s: int, c: int)
    ensures
        Mat4Model::rodrigues(Vec3Model { x: 0int, y: 1int, z: 0int }, s, c).r0c1 == Mat4Model::rotation_y(s, c).r0c1,
{
    assert(((0int * 1int) * (1int - c))
        == ((0int * 1int) * 1int) - ((0int * 1int) * c)) by (nonlinear_arith);
    assert(((0int * 1int) * 1int) == 0int) by (nonlinear_arith);
    assert(((0int * 1int) * c) == 0int) by (nonlinear_arith);
    assert((0int * s) == 0int) by (nonlinear_arith);
}

proof fn lemma_mat4_rodrigues_about_y_r0c2(s: int, c: int)
    ensures
        Mat4Model::rodrigues(Vec3Model { x: 0int, y: 1int, z: 0int }, s, c).r0c2 == Mat4Model::rotation_y(s, c).r0c2,
{
    assert(((0int * 0int) * (1int - c))
        == ((0int * 0int) * 1int) - ((0int * 0int) * c)) by (nonlinear_arith);
    assert(((0int * 0int) * 1int) == 0int) by (nonlinear_arith);
    assert(((0int * 0int) * c) == 0int) by (nonlinear_arith);
    assert((1int * s) == s) by (nonlinear_arith);
}

proof fn lemma_mat4_rodrigues_about_y_r0c3(s: int, c: int)
    ensures
        Mat4Model::rodrigues(Vec3Model { x: 0int, y: 1int, z: 0int }, s, c).r0c3 == Mat4Model::rotation_y(s, c).r0c3,
{
}

proof fn lemma_mat4_rodrigues_about_y_r1c0(s: int, c: int)
    ensures
        Mat4Model::rodrigues(Vec3Model { x: 0int, y: 1int, z: 0int }, s, c).r1c0 == Mat4Model::rotation_y(s, c).r1c0,
{
    assert(((0int * 1int) * (1int - c))
        == ((0int * 1int) * 1int) - ((0int * 1int) * c)) by (nonlinear_arith);
    assert(((0int * 1int) * 1int) == 0int) by (nonlinear_arith);
    assert(((0int * 1int) * c) == 0int) by (nonlinear_arith);
    assert((0int * s) == 0int) by (nonlinear_arith);
}

proof fn lemma_mat4_rodrigues_about_y_r1c1(s: int, c: int)
    ensures
        Mat4Model::rodrigues(Vec3Model { x: 0int, y: 1int, z: 0int }, s, c).r1c1 == Mat4Model::rotation_y(s, c).r1c1,
{
    assert(((1int * 1int) * (1int - c))
        == ((1int * 1int) * 1int) - ((1int * 1int) * c)) by (nonlinear_arith);
    assert(((1int * 1int) * 1int) == 1int) by (nonlinear_arith);
    assert(((1int * 1int) * c) == c) by (nonlinear_arith);
}

proof fn lemma_mat4_rodrigues_about_y_r1c2(s: int, c: int)
    ensures
        Mat4Model::rodrigues(Vec3Model { x: 0int, y: 1int, z: 0int }, s, c).r1c2 == Mat4Model::rotation_y(s, c).r1c2,
{
    assert(((1int * 0int) * (1int - c))
        == ((1int * 0int) * 1int) - ((1int * 0int) * c)) by (nonlinear_arith);
    assert(((1int * 0int) * 1int) == 0int) by (nonlinear_arith);
    assert(((1int * 0int) * c) == 0int) by (nonlinear_arith);
    assert((0int * s) == 0int) by (nonlinear_arith);
}

proof fn lemma_mat4_rodrigues_about_y_r1c3(s: int, c: int)
    ensures
        Mat4Model::rodrigues(Vec3Model { x: 0int, y: 1int, z: 0int }, s, c).r1c3 == Mat4Model::rotation_y(s, c).r1c3,
{
}

proof fn lemma_mat4_rodrigues_about_y_r2c0(s: int, c: int)
    ensures
        Mat4Model::rodrigues(Vec3Model { x: 0int, y: 1int, z: 0int }, s, c).r2c0 == Mat4Model::rotation_y(s, c).r2c0,
{
    assert(((0int * 0int) * (1int - c))
        == ((0int * 0int) * 1int) - ((0int * 0int) * c)) by (nonlinear_arith);
    assert(((0int * 0int) * 1int) == 0int) by (nonlinear_arith);
    assert(((0int * 0int) * c) == 0int) by (nonlinear_arith);
    assert((1int * s) == s) by (nonlinear_arith);
}

proof fn lemma_mat4_rodrigues_about_y_r2c1(s: int, c: int)
    ensures
        Mat4Model::rodrigues(Vec3Model { x: 0int, y: 1int, z: 0int }, s, c).r2c1 == Mat4Model::rotation_y(s, c).r2c1,
{
    assert(((1int * 0int) * (1int - c))
        == ((1int * 0int) * 1int) - ((1int * 0int) * c)) by (nonlinear_arith);
    assert(((1int * 0int) * 1int) == 0int) by (nonlinear_arith);
    assert(((1int * 0int) * c) == 0int) by (nonlinear_arith);
    assert((0int * s) == 0int) by (nonlinear_arith);
}

proof fn lemma_mat4_rodrigues_about_y_r2c2(s: int, c: int)
    ensures
        Mat4Model::rodrigues(Vec3Model { x: 0int, y: 1int, z: 0int }, s, c).r2c2 == Mat4Model::rotation_y(s, c).r2c2,
{
    assert(((0int * 0int) * (1int - c))
        == ((0int * 0int) * 1int) - ((0int * 0int) * c)) by (nonlinear_arith);
    assert(((0int * 0int) * 1int) == 0int) by (nonlinear_arith);
    assert(((0int * 0int) * c) == 0int) by (nonlinear_arith);
}

proof fn lemma_mat4_rodrigues_about_y_r2c3(s: int, c: int)
    ensures
        Mat4Model::rodrigues(Vec3Model { x: 0int, y: 1int, z: 0int }, s, c).r2c3 == Mat4Model::rotation_y(s, c).r2c3,
{
}

proof fn lemma_mat4_rodrigues_about_y_r3c0(s: int, c: int)
    ensures
        Mat4Model::rodrigues(Vec3Model { x: 0int, y: 1int, z: 0int }, s, c).r3c0 == Mat4Model::rotation_y(s, c).r3c0,
{
}

proof fn lemma_mat4_rodrigues_about_y_r3c1(s: int, c: int)
    ensures
        Mat4Model::rodrigues(Vec3Model { x: 0int, y: 1int, z: 0int }, s, c).r3c1 == Mat4Model::rotation_y(s, c).r3c1,
{
}

proof fn lemma_mat4_rodrigues_about_y_r3c2(s: int, c: int)
    ensures
        Mat4Model::rodrigues(Vec3Model { x: 0int, y: 1int, z: 0int }, s, c).r3c2 == Mat4Model::rotation_y(s, c).r3c2,
{
}

proof fn lemma_mat4_rodrigues_about_y_r3c3(s: int, c: int)
    ensures
        Mat4Model::rodrigues(Vec3Model { x: 0int, y: 1int, z: 0int }, s, c).r3c3 == Mat4Model::rotation_y(s, c).r3c3,
{
}

/// About the y axis the formula of Rodrigues gives the rotation about that axis.
pub proof fn lemma_mat4_rodrigues_about_y(s: int, c: int)
    ensures
        Mat4Model::rodrigues(Vec3Model { x: 0int, y: 1int, z: 0int }, s, c) == Mat4Model::rotation_y(s, c),
{
    lemma_mat4_rodrigues_about_y_r0c0(s, c);
    lemma_mat4_rodrigues_about_y_r0c1(s, c);
    lemma_mat4_rodrigues_about_y_r0c2(s, c);
    lemma_mat4_rodrigues_about_y_r0c3(s, c);
    lemma_mat4_rodrigues_about_y_r1c0(s, c);
    lemma_mat4_rodrigues_about_y_r1c1(s, c);
    lemma_mat4_rodrigues_about_y_r1c2(s, c);
    lemma_mat4_rodrigues_about_y_r1c3(s, c);
    lemma_mat4_rodrigues_about_y_r2c0(s, c);
    lemma_mat4_rodrigues_about_y_r2c1(s, c);
    lemma_mat4_rodrigues_about_y_r2c2(s, c);
    lemma_mat4_rodrigues_about_y_r2c3(s, c);
    lemma_mat4_rodrigues_about_y_r3c0(s, c);
    lemma_mat4_rodrigues_about_y_r3c1(s, c);
    lemma_mat4_rodrigues_about_y_r3c2(s, c);
    lemma_mat4_rodrigues_about_y_r3c3(s, c);
}

proof fn lemma_mat4_rodrigues_about_z_r0c0(s: int, c: int)
    ensures
        Mat4Model::rodrigues(Vec3Model { x: 0int, y: 0int, z: 1int }, s, c).r0c0 == Mat4Model::rotation_z(s, c).r0c0,
{
    assert(((0int * 0int) * (1int - c))
        == ((0int * 0int) * 1int) - ((0int * 0int) * c)) by (nonlinear_arith);
    assert(((0int * 0int) * 1int) == 0int) by (nonlinear_arith);
    assert(((0int * 0int) * c) == 0int) by (nonlinear_arith);
}

proof fn lemma_mat4_rodrigues_about_z_r0c1(s: int, c: int)
    ensures
        Mat4Model::rodrigues(Vec3Model { x: 0int, y: 0int, z: 1int }, s, c).r0c1 == Mat4Model::rotation_z(s, c).r0c1,
{
    assert(((0int * 0int) * (1int - c))
        == ((0int * 0int) * 1int) - ((0int * 0int) * c)) by (nonlinear_arith);
    assert(((0int * 0int) * 1int) == 0int) by (nonlinear_arith);
    assert(((0int * 0int) * c) == 0int) by (nonlinear_arith);
    assert((1int * s) == s) by (nonlinear_arith);
}

proof fn lemma_mat4_rodrigues_about_z_r0c2(s: int, c: int)
    ensures
        Mat4Model::rodrigues(Vec3Model { x: 0int, y: 0int, z: 1int }, s, c).r0c2 == Mat4Model::rotation_z(s, c).r0c2,
{
    assert(((0int * 1int) * (1int - c))
        == ((0int * 1int) * 1int) - ((0int * 1int) * c)) by (nonlinear_arith);
    assert(((0int * 1int) * 1int) == 0int) by (nonlinear_arith);
    assert(((0int * 1int) * c) == 0int) by (nonlinear_arith);
    assert((0int * s) == 0int) by (nonlinear_arith);
}

proof fn lemma_mat4_rodrigues_about_z_r0c3(s: int, c: int)
    ensures
        Mat4Model::rodrigues(Vec3Model { x: 0int, y: 0int, z: 1int }, s, c).r0c3 == Mat4Model::rotation_z(s, c).r0c3,
{
}

proof fn lemma_mat4_rodrigues_about_z_r1c0(s: int, c: int)
    ensures
        Mat4Model::rodrigues(Vec3Model { x: 0int, y: 0int, z: 1int }, s, c).r1c0 == Mat4Model::rotation_z(s, c).r1c0,
{
    assert(((0int * 0int) * (1int - c))
        == ((0int * 0int) * 1int) - ((0int * 0int) * c)) by (nonlinear_arith);
    assert(((0int * 0int) * 1int) == 0int) by (nonlinear_arith);
    assert(((0int * 0int) * c) == 0int) by (nonlinear_arith);
    assert((1int * s) == s) by (nonlinear_arith);
}

proof fn lemma_mat4_rodrigues_about_z_r1c1(s: int, c: int)
    ensures
        Mat4Model::rodrigues(Vec3Model { x: 0int, y: 0int, z: 1int }, s, c).r1c1 == Mat4Model::rotation_z(s, c).r1c1,
{
    assert(((0int * 0int) * (1int - c))
        == ((0int * 0int) * 1int) - ((0int * 0int) * c)) by (nonlinear_arith);
    assert(((0int * 0int) * 1int) == 0int) by (nonlinear_arith);
    assert(((0int * 0int) * c) == 0int) by (nonlinear_arith);
}

proof fn lemma_mat4_rodrigues_about_z_r1c2(s: int, c: int)
    ensures
        Mat4Model::rodrigues(Vec3Model { x: 0int, y: 0int, z: 1int }, s, c).r1c2 == Mat4Model::rotation_z(s, c).r1c2,
{
    assert(((0int * 1int) * (1int - c))
        == ((0int * 1int) * 1int) - ((0int * 1int) * c)) by (nonlinear_arith);
    assert(((0int * 1int) * 1int) == 0int) by (nonlinear_arith);
    assert(((0int * 1int) * c) == 0int) by (nonlinear_arith);
    assert((0int * s) == 0int) by (nonlinear_arith);
}

proof fn lemma_mat4_rodrigues_about_z_r1c3(s: int, c: int)
    ensures
        Mat4Model::rodrigues(Vec3Model { x: 0int, y: 0int, z: 1int }, s, c).r1c3 == Mat4Model::rotation_z(s, c).r1c3,
{
}

proof fn lemma_mat4_rodrigues_about_z_r2c0(s: int, c: int)
    ensures
        Mat4Model::rodrigues(Vec3Model { x: 0int, y: 0int, z: 1int }, s, c).r2c0 == Mat4Model::rotation_z(s, c).r2c0,
{
    assert(((0int * 1int) * (1int - c))
        == ((0int * 1int) * 1int) - ((0int * 1int) * c)) by (nonlinear_arith);
    assert(((0int * 1int) * 1int) == 0int) by (nonlinear_arith);
    assert(((0int * 1int) * c) == 0int) by (nonlinear_arith);
    assert((0int * s) == 0int) by (nonlinear_arith);
}

proof fn lemma_mat4_rodrigues_about_z_r2c1(s: int, c: int)
    ensures
        Mat4Model::rodrigues(Vec3Model { x: 0int, y: 0int, z: 1int }, s, c).r2c1 == Mat4Model::rotation_z(s, c).r2c1,
{
    assert(((0int * 1int) * (1int - c))
        == ((0int * 1int) * 1int) - ((0int * 1int) * c)) by (nonlinear_arith);
    assert(((0int * 1int) * 1int) == 0int) by (nonlinear_arith);
    assert(((0int * 1int) * c) == 0int) by (nonlinear_arith);
    assert((0int * s) == 0int) by (nonlinear_arith);
}

proof fn lemma_mat4_rodrigues_about_z_r2c2(s: int, c: int)
    ensures
        Mat4Model::rodrigues(Vec3Model { x: 0int, y: 0int, z: 1int }, s, c).r2c2 == Mat4Model::rotation_z(s, c).r2c2,
{
    assert(((1int * 1int) * (1int - c))
        == ((1int * 1int) * 1int) - ((1int * 1int) * c)) by (nonlinear_arith);
    assert(((1int * 1int) * 1int) == 1int) by (nonlinear_arith);
    assert(((1int * 1int) * c) == c) by (nonlinear_arith);
}

proof fn lemma_mat4_rodrigues_about_z_r2c3(s: int, c: int)
    ensures
        Mat4Model::rodrigues(Vec3Model { x: 0int, y: 0int, z: 1int }, s, c).r2c3 == Mat4Model::rotation_z(s, c).r2c3,
{
}

proof fn lemma_mat4_rodrigues_about_z_r3c0(s: int, c: int)
    ensures
        Mat4Model::rodrigues(Vec3Model { x: 0int, y: 0int, z: 1int }, s, c).r3c0 == Mat4Model::rotation_z(s, c).r3c0,
{
}

proof fn lemma_mat4_rodrigues_about_z_r3c1(s: int, c: int)
    ensures
        Mat4Model::rodrigues(Vec3Model { x: 0int, y: 0int, z: 1int }, s, c).r3c1 == Mat4Model::rotation_z(s, c).r3c1,
{
}

proof fn lemma_mat4_rodrigues_about_z_r3c2(s: int, c: int)
    ensures
        Mat4Model::rodrigues(Vec3Model { x: 0int, y: 0int, z: 1int }, s, c).r3c2 == Mat4Model::rotation_z(s, c).r3c2,
{
}

proof fn lemma_mat4_rodrigues_about_z_r3c3(s: int, c: int)
    ensures
        Mat4Model::rodrigues(Vec3Model { x: 0int, y: 0int, z: 1int }, s, c).r3c3 == Mat4Model::rotation_z(s, c).r3c3,
{
}

/// About the z axis the formula of Rodrigues gives the rotation about that axis.
pub proof fn lemma_mat4_rodrigues_about_z(s: int, c: int)
    ensures
        Mat4Model::rodrigues(Vec3Model { x: 0int, y: 0int, z: 1int }, s, c) == Mat4Model::rotation_z(s, c),
{
    lemma_mat4_rodrigues_about_z_r0c0(s, c);
    lemma_mat4_rodrigues_about_z_r0c1(s, c);
    lemma_mat4_rodrigues_about_z_r0c2(s, c);
    lemma_mat4_rodrigues_about_z_r0c3(s, c);
    lemma_mat4_rodrigues_about_z_r1c0(s, c);
    lemma_mat4_rodrigues_about_z_r1c1(s, c);
    lemma_mat4_rodrigues_about_z_r1c2(s, c);
    lemma_mat4_rodrigues_about_z_r1c3(s, c);
    lemma_mat4_rodrigues_about_z_r2c0(s, c);
    lemma_mat4_rodrigues_about_z_r2c1(s, c);
    lemma_mat4_rodrigues_about_z_r2c2(s, c);
    lemma_mat4_rodrigues_about_z_r2c3(s, c);
    lemma_mat4_rodrigues_about_z_r3c0(s, c);
    lemma_mat4_rodrigues_about_z_r3c1(s, c);
    lemma_mat4_rodrigues_about_z_r3c2(s, c);
    lemma_mat4_rodrigues_about_z_r3c3(s, c);
}

proof fn lemma_mat4_turned_x_r0c0(m: Mat4Model<int>, s: int, c: int)
    ensures
        m.turned_x(s, c).r0c0 == Mat4Model::rotation_x(s, c).times(m).r0c0,
{
    assert((1int * m.r0c0) == m.r0c0) by (nonlinear_arith);
    assert((0int * m.r1c0) == 0int) by (nonlinear_arith);
    assert((0int * m.r2c0) == 0int) by (nonlinear_arith);
    assert((0int * m.r3c0) == 0int) by (nonlinear_arith);
}

proof fn lemma_mat4_turned_x_r0c1(m: Mat4Model<int>, s: int, c: int)
    ensures
        m.turned_x(s, c).r0c1 == Mat4Model::rotation_x(s, c).times(m).r0c1,
{
    assert((1int * m.r0c1) == m.r0c1) by (nonlinear_arith);
    assert((0int * m.r1c1) == 0int) by (nonlinear_arith);
    assert((0int * m.r2c1) == 0int) by (nonlinear_arith);
    assert((0int * m.r3c1) == 0int) by (nonlinear_arith);
}

proof fn lemma_mat4_turned_x_r0c2(m: Mat4Model<int>, s: int, c: int)
    ensures
        m.turned_x(s, c).r0c2 == Mat4Model::rotation_x(s, c).times(m).r0c2,
{
    assert((1int * m.r0c2) == m.r0c2) by (nonlinear_arith);
    assert((0int * m.r1c2) == 0int) by (nonlinear_arith);
    assert((0int * m.r2c2) == 0int) by (nonlinear_arith);
    assert((0int * m.r3c2) == 0int) by (nonlinear_arith);
}

proof fn lemma_mat4_turned_x_r0c3(m: Mat4Model<int>, s: int, c: int)
    ensures
        m.turned_x(s, c).r0c3 == Mat4Model::rotation_x(s, c).times(m).r0c3,
{
    assert((1int * m.r0c3) == m.r0c3) by (nonlinear_arith);
    assert((0int * m.r1c3) == 0int) by (nonlinear_arith);
    assert((0int * m.r2c3) == 0int) by (nonlinear_arith);
    assert((0int * m.r3c3) == 0int) by (nonlinear_arith);
}

proof fn lemma_mat4_turned_x_r1c0(m: Mat4Model<int>, s: int, c: int)
    ensures
        m.turned_x(s, c).r1c0 == Mat4Model::rotation_x(s, c).times(m).r1c0,
{
    assert((s * m.r2c0) == m.r2c0 * s) by (nonlinear_arith);
    assert((0int * m.r0c0) == 0int) by (nonlinear_arith);
    assert(((-s) * m.r2c0) == 0int - (s * m.r2c0)) by (nonlinear_arith);
    assert((0int * m.r3c0) == 0int) by (nonlinear_arith);
}

proof fn lemma_mat4_turned_x_r1c1(m: Mat4Model<int>, s: int, c: int)
    ensures
        m.turned_x(s, c).r1c1 == Mat4Model::rotation_x(s, c).times(m).r1c1,
{
    assert((s * m.r2c1) == m.r2c1 * s) by (nonlinear_arith);
    assert((0int * m.r0c1) == 0int) by (nonlinear_arith);
    assert(((-s) * m.r2c1) == 0int - (s * m.r2c1)) by (nonlinear_arith);
    assert((0int * m.r3c1) == 0int) by (nonlinear_arith);
}

proof fn lemma_mat4_turned_x_r1c2(m: Mat4Model<int>, s: int, c: int)
    ensures
        m.turned_x(s, c).r1c2 == Mat4Model::rotation_x(s, c).times(m).r1c2,
{
    assert((s * m.r2c2) == m.r2c2 * s) by (nonlinear_arith);
    assert((0int * m.r0c2) == 0int) by (nonlinear_arith);
    assert(((-s) * m.r2c2) == 0int - (s * m.r2c2)) by (nonlinear_arith);
    assert((0int * m.r3c2) == 0int) by (nonlinear_arith);
}

proof fn lemma_mat4_turned_x_r1c3(m: Mat4Model<int>, s: int, c: int)
    ensures
        m.turned_x(s, c).r1c3 == Mat4Model::rotation_x(s, c).times(m).r1c3,
{
    assert((s * m.r2c3) == m.r2c3 * s) by (nonlinear_arith);
    assert((0int * m.r0c3) == 0int) by (nonlinear_arith);
    assert(((-s) * m.r2c3) == 0int - (s * m.r2c3)) by (nonlinear_arith);
    assert((0int * m.r3c3) == 0int) by (nonlinear_arith);
}

proof fn lemma_mat4_turned_x_r2c0(m: Mat4Model<int>, s: int, c: int)
    ensures
        m.turned_x(s, c).r2c0 == Mat4Model::rotation_x(s, c).times(m).r2c0,
{
    assert((s * m.r1c0) == m.r1c0 * s) by (nonlinear_arith);
    assert((0int * m.r0c0) == 0int) by (nonlinear_arith);
    assert((0int * m.r3c0) == 0int) by (nonlinear_arith);
}

proof fn lemma_mat4_turned_x_r2c1(m: Mat4Model<int>, s: int, c: int)
    ensures
        m.turned_x(s, c).r2c1 == Mat4Model::rotation_x(s, c).times(m).r2c1,
{
    assert((s * m.r1c1) == m.r1c1 * s) by (nonlinear_arith);
    assert((0int * m.r0c1) == 0int) by (nonlinear_arith);
    assert((0int * m.r3c1) == 0int) by (nonlinear_arith);
}

proof fn lemma_mat4_turned_x_r2c2(m: Mat4Model<int>, s: int, c: int)
    ensures
        m.turned_x(s, c).r2c2 == Mat4Model::rotation_x(s, c).times(m).r2c2,
{
    assert((s * m.r1c2) == m.r1c2 * s) by (nonlinear_arith);
    assert((0int * m.r0c2) == 0int) by (nonlinear_arith);
    assert((0int * m.r3c2) == 0int) by (nonlinear_arith);
}

proof fn lemma_mat4_turned_x_r2c3(m: Mat4Model<int>, s: int, c: int)
    ensures
        m.turned_x(s, c).r2c3 == Mat4Model::rotation_x(s, c).times(m).r2c3,
{
    assert((s * m.r1c3) == m.r1c3 * s) by (nonlinear_arith);
    assert((0int * m.r0c3) == 0int) by (nonlinear_arith);
    assert((0int * m.r3c3) == 0int) by (nonlinear_arith);
}

proof fn lemma_mat4_turned_x_r3c0(m: Mat4Model<int>, s: int, c: int)
    ensures
        m.turned_x(s, c).r3c0 == Mat4Model::rotation_x(s, c).times(m).r3c0,
{
    assert((0int * m.r0c0) == 0int) by (nonlinear_arith);
    assert((0int * m.r1c0) == 0int) by (nonlinear_arith);
    assert((0int * m.r2c0) == 0int) by (nonlinear_arith);
    assert((1int * m.r3c0) == m.r3c0) by (nonlinear_arith);
}

proof fn lemma_mat4_turned_x_r3c1(m: Mat4Model<int>, s: int, c: int)
    ensures
        m.turned_x(s, c).r3c1 == Mat4Model::rotation_x(s, c).times(m).r3c1,
{
    assert((0int * m.r0c1) == 0int) by (nonlinear_arith);
    assert((0int * m.r1c1) == 0int) by (nonlinear_arith);
    assert((0int * m.r2c1) == 0int) by (nonlinear_arith);
    assert((1int * m.r3c1) == m.r3c1) by (nonlinear_arith);
}

proof fn lemma_mat4_turned_x_r3c2(m: Mat4Model<int>, s: int, c: int)
    ensures
        m.turned_x(s, c).r3c2 == Mat4Model::rotation_x(s, c).times(m).r3c2,
{
    assert((0int * m.r0c2) == 0int) by (nonlinear_arith);
    assert((0int * m.r1c2) == 0int) by (nonlinear_arith);
    assert((0int * m.r2c2) == 0int) by (nonlinear_arith);
    assert((1int * m.r3c2) == m.r3c2) by (nonlinear_arith);
}

proof fn lemma_mat4_turned_x_r3c3(m: Mat4Model<int>, s: int, c: int)
    ensures
        m.turned_x(s, c).r3c3 == Mat4Model::rotation_x(s, c).times(m).r3c3,
{
    assert((0int * m.r0c3) == 0int) by (nonlinear_arith);
    assert((0int * m.r1c3) == 0int) by (nonlinear_arith);
    assert((0int * m.r2c3) == 0int) by (nonlinear_arith);
    assert((1int * m.r3c3) == m.r3c3) by (nonlinear_arith);
}

/// Turning a matrix about the x axis multiplies it by the rotation about that axis, from the left.
pub proof fn lemma_mat4_turned_x(m: Mat4Model<int>, s: int, c: int)
    ensures
        m.turned_x(s, c) == Mat4Model::rotation_x(s, c).times(m),
{
    lemma_mat4_turned_x_r0c0(m, s, c);
    lemma_mat4_turned_x_r0c1(m, s, c);
    lemma_mat4_turned_x_r0c2(m, s, c);
    lemma_mat4_turned_x_r0c3(m, s, c);
    lemma_mat4_turned_x_r1c0(m, s, c);
    lemma_mat4_turned_x_r1c1(m, s, c);
    lemma_mat4_turned_x_r1c2(m, s, c);
    lemma_mat4_turned_x_r1c3(m, s, c);
    lemma_mat4_turned_x_r2c0(m, s, c);
    lemma_mat4_turned_x_r2c1(m, s, c);
    lemma_mat4_turned_x_r2c2(m, s, c);
    lemma_mat4_turned_x_r2c3(m, s, c);
    lemma_mat4_turned_x_r3c0(m, s, c);
    lemma_mat4_turned_x_r3c1(m, s, c);
    lemma_mat4_turned_x_r3c2(m, s, c);
    lemma_mat4_turned_x_r3c3(m, s, c);
}

proof fn lemma_mat4_turned_y_r0c0(m: Mat4Model<int>, s: int, c: int)
    ensures
        m.turned_y(s, c).r0c0 == Mat4Model::rotation_y(s, c).times(m).r0c0,
{
    assert((s * m.r2c0) == m.r2c0 * s) by (nonlinear_arith);
    assert((0int * m.r1c0) == 0int) by (nonlinear_arith);
    assert((0int * m.r3c0) == 0int) by (nonlinear_arith);
}

proof fn lemma_mat4_turned_y_r0c1(m: Mat4Model<int>, s: int, c: int)
    ensures
        m.turned_y(s, c).r0c1 == Mat4Model::rotation_y(s, c).times(m).r0c1,
{
    assert((s * m.r2c1) == m.r2c1 * s) by (nonlinear_arith);
    assert((0int * m.r1c1) == 0int) by (nonlinear_arith);
    assert((0int * m.r3c1) == 0int) by (nonlinear_arith);
}

proof fn lemma_mat4_turned_y_r0c2(m: Mat4Model<int>, s: int, c: int)
    ensures
        m.turned_y(s, c).r0c2 == Mat4Model::rotation_y(s, c).times(m).r0c2,
{
    assert((s * m.r2c2) == m.r2c2 * s) by (nonlinear_arith);
    assert((0int * m.r1c2) == 0int) by (nonlinear_arith);
    assert((0int * m.r3c2) == 0int) by (nonlinear_arith);
}

proof fn lemma_mat4_turned_y_r0c3(m: Mat4Model<int>, s: int, c: int)
    ensures
        m.turned_y(s, c).r0c3 == Mat4Model::rotation_y(s, c).times(m).r0c3,
{
    assert((s * m.r2c3) == m.r2c3 * s) by (nonlinear_arith);
    assert((0int * m.r1c3) == 0int) by (nonlinear_arith);
    assert((0int * m.r3c3) == 0int) by (nonlinear_arith);
}

proof fn lemma_mat4_turned_y_r1c0(m: Mat4Model<int>, s: int, c: int)
    ensures
        m.turned_y(s, c).r1c0 == Mat4Model::rotation_y(s, c).times(m).r1c0,
{
    assert((0int * m.r0c0) == 0int) by (nonlinear_arith);
    assert((1int * m.r1c0) == m.r1c0) by (nonlinear_arith);
    assert((0int * m.r2c0) == 0int) by (nonlinear_arith);
    assert((0int * m.r3c0) == 0int) by (nonlinear_arith);
}

proof fn lemma_mat4_turned_y_r1c1(m: Mat4Model<int>, s: int, c: int)
    ensures
        m.turned_y(s, c).r1c1 == Mat4Model::rotation_y(s, c).times(m).r1c1,
{
    assert((0int * m.r0c1) == 0int) by (nonlinear_arith);
    assert((1int * m.r1c1) == m.r1c1) by (nonlinear_arith);
    assert((0int * m.r2c1) == 0int) by (nonlinear_arith);
    assert((0int * m.r3c1) == 0int) by (nonlinear_arith);
}

proof fn lemma_mat4_turned_y_r1c2(m: Mat4Model<int>, s: int, c: int)
    ensures
        m.turned_y(s, c).r1c2 == Mat4Model::rotation_y(s, c).times(m).r1c2,
{
    assert((0int * m.r0c2) == 0int) by (nonlinear_arith);
    assert((1int * m.r1c2) == m.r1c2) by (nonlinear_arith);
    assert((0int * m.r2c2) == 0int) by (nonlinear_arith);
    assert((0int * m.r3c2) == 0int) by (nonlinear_arith);
}

proof fn lemma_mat4_turned_y_r1c3(m: Mat4Model<int>, s: int, c: int)
    ensures
        m.turned_y(s, c).r1c3 == Mat4Model::rotation_y(s, c).times(m).r1c3,
{
    assert((0int * m.r0c3) == 0int) by (nonlinear_arith);
    assert((1int * m.r1c3) == m.r1c3) by (nonlinear_arith);
    assert((0int * m.r2c3) == 0int) by (nonlinear_arith);
    assert((0int * m.r3c3) == 0int) by (nonlinear_arith);
}

proof fn lemma_mat4_turned_y_r2c0(m: Mat4Model<int>, s: int, c: int)
    ensures
        m.turned_y(s, c).r2c0 == Mat4Model::rotation_y(s, c).times(m).r2c0,
{
    assert((s * m.r0c0) == m.r0c0 * s) by (nonlinear_arith);
    assert(((-s) * m.r0c0) == 0int - (s * m.r0c0)) by (nonlinear_arith);
    assert((0int * m.r1c0) == 0int) by (nonlinear_arith);
    assert((0int * m.r3c0) == 0int) by (nonlinear_arith);
}

proof fn lemma_mat4_turned_y_r2c1(m: Mat4Model<int>, s: int, c: int)
    ensures
        m.turned_y(s, c).r2c1 == Mat4Model::rotation_y(s, c).times(m).r2c1,
{
    assert((s * m.r0c1) == m.r0c1 * s) by (nonlinear_arith);
    assert(((-s) * m.r0c1) == 0int - (s * m.r0c1)) by (nonlinear_arith);
    assert((0int * m.r1c1) == 0int) by (nonlinear_arith);
    assert((0int * m.r3c1) == 0int) by (nonlinear_arith);
}

proof fn lemma_mat4_turned_y_r2c2(m: Mat4Model<int>, s: int, c: int)
    ensures
        m.turned_y(s, c).r2c2 == Mat4Model::rotation_y(s, c).times(m).r2c2,
{
    assert((s * m.r0c2) == m.r0c2 * s) by (nonlinear_arith);
    assert(((-s) * m.r0c2) == 0int - (s * m.r0c2)) by (nonlinear_arith);
    assert((0int * m.r1c2) == 0int) by (nonlinear_arith);
    assert((0int * m.r3c2) == 0int) by (nonlinear_arith);
}

proof fn lemma_mat4_turned_y_r2c3(m: Mat4Model<int>, s: int, c: int)
    ensures
        m.turned_y(s, c).r2c3 == Mat4Model::rotation_y(s, c).times(m).r2c3,
{
    assert((s * m.r0c3) == m.r0c3 * s) by (nonlinear_arith);
    assert(((-s) * m.r0c3) == 0int - (s * m.r0c3)) by (nonlinear_arith);
    assert((0int * m.r1c3) == 0int) by (nonlinear_arith);
    assert((0int * m.r3c3) == 0int) by (nonlinear_arith);
}

proof fn lemma_mat4_turned_y_r3c0(m: Mat4Model<int>, s: int, c: int)
    ensures
        m.turned_y(s, c).r3c0 == Mat4Model::rotation_y(s, c).times(m).r3c0,
{
    assert((0int * m.r0c0) == 0int) by (nonlinear_arith);
    assert((0int * m.r1c0) == 0int) by (nonlinear_arith);
    assert((0int * m.r2c0) == 0int) by (nonlinear_arith);
    assert((1int * m.r3c0) == m.r3c0) by (nonlinear_arith);
}

proof fn lemma_mat4_turned_y_r3c1(m: Mat4Model<int>, s: int, c: int)
    ensures
        m.turned_y(s, c).r3c1 == Mat4Model::rotation_y(s, c).times(m).r3c1,
{
    assert((0int * m.r0c1) == 0int) by (nonlinear_arith);
    assert((0int * m.r1c1) == 0int) by (nonlinear_arith);
    assert((0int * m.r2c1) == 0int) by (nonlinear_arith);
    assert((1int * m.r3c1) == m.r3c1) by (nonlinear_arith);
}

proof fn lemma_mat4_turned_y_r3c2(m: Mat4Model<int>, s: int, c: int)
    ensures
        m.turned_y(s, c).r3c2 == Mat4Model::rotation_y(s, c).times(m).r3c2,
{
    assert((0int * m.r0c2) == 0int) by (nonlinear_arith);
    assert((0int * m.r1c2) == 0int) by (nonlinear_arith);
    assert((0int * m.r2c2) == 0int) by (nonlinear_arith);
    assert((1int * m.r3c2) == m.r3c2) by (nonlinear_arith);
}

proof fn lemma_mat4_turned_y_r3c3(m: Mat4Model<int>, s: int, c: int)
    ensures
        m.turned_y(s, c).r3c3 == Mat4Model::rotation_y(s, c).times(m).r3c3,
{
    assert((0int * m.r0c3) == 0int) by (nonlinear_arith);
    assert((0int * m.r1c3) == 0int) by (nonlinear_arith);
    assert((0int * m.r2c3) == 0int) by (nonlinear_arith);
    assert((1int * m.r3c3) == m.r3c3) by (nonlinear_arith);
}

/// Turning a matrix about the y axis multiplies it by the rotation about that axis, from the left.
pub proof fn lemma_mat4_turned_y(m: Mat4Model<int>, s: int, c: int)
    ensures
        m.turned_y(s, c) == Mat4Model::rotation_y(s, c).times(m),
{
    lemma_mat4_turned_y_r0c0(m, s, c);
    lemma_mat4_turned_y_r0c1(m, s, c);
    lemma_mat4_turned_y_r0c2(m, s, c);
    lemma_mat4_turned_y_r0c3(m, s, c);
    lemma_mat4_turned_y_r1c0(m, s, c);
    lemma_mat4_turned_y_r1c1(m, s, c);
    lemma_mat4_turned_y_r1c2(m, s, c);
    lemma_mat4_turned_y_r1c3(m, s, c);
    lemma_mat4_turned_y_r2c0(m, s, c);
    lemma_mat4_turned_y_r2c1(m, s, c);
    lemma_mat4_turned_y_r2c2(m, s, c);
    lemma_mat4_turned_y_r2c3(m, s, c);
    lemma_mat4_turned_y_r3c0(m, s, c);
    lemma_mat4_turned_y_r3c1(m, s, c);
    lemma_mat4_turned_y_r3c2(m, s, c);
    lemma_mat4_turned_y_r3c3(m, s, c);
}

proof fn lemma_mat4_turned_z_r0c0(m: Mat4Model<int>, s: int, c: int)
    ensures
        m.turned_z(s, c).r0c0 == Mat4Model::rotation_z(s, c).times(m).r0c0,
{
    assert((s * m.r1c0) == m.r1c0 * s) by (nonlinear_arith);
    assert(((-s) * m.r1c0) == 0int - (s * m.r1c0)) by (nonlinear_arith);
    assert((0int * m.r2c0) == 0int) by (nonlinear_arith);
    assert((0int * m.r3c0) == 0int) by (nonlinear_arith);
}

proof fn lemma_mat4_turned_z_r0c1(m: Mat4Model<int>, s: int, c: int)
    ensures
        m.turned_z(s, c).r0c1 == Mat4Model::rotation_z(s, c).times(m).r0c1,
{
    assert((s * m.r1c1) == m.r1c1 * s) by (nonlinear_arith);
    assert(((-s) * m.r1c1) == 0int - (s * m.r1c1)) by (nonlinear_arith);
    assert((0int * m.r2c1) == 0int) by (nonlinear_arith);
    assert((0int * m.r3c1) == 0int) by (nonlinear_arith);
}

proof fn lemma_mat4_turned_z_r0c2(m: Mat4Model<int>, s: int, c: int)
    ensures
        m.turned_z(s, c).r0c2 == Mat4Model::rotation_z(s, c).times(m).r0c2,
{
    assert((s * m.r1c2) == m.r1c2 * s) by (nonlinear_arith);
    assert(((-s) * m.r1c2) == 0int - (s * m.r1c2)) by (nonlinear_arith);
    assert((0int * m.r2c2) == 0int) by (nonlinear_arith);
    assert((0int * m.r3c2) == 0int) by (nonlinear_arith);
}

proof fn lemma_mat4_turned_z_r0c3(m: Mat4Model<int>, s: int, c: int)
    ensures
        m.turned_z(s, c).r0c3 == Mat4Model::rotation_z(s, c).times(m).r0c3,
{
    assert((s * m.r1c3) == m.r1c3 * s) by (nonlinear_arith);
    assert(((-s) * m.r1c3) == 0int - (s * m.r1c3)) by (nonlinear_arith);
    assert((0int * m.r2c3) == 0int) by (nonlinear_arith);
    assert((0int * m.r3c3) == 0int) by (nonlinear_arith);
}

proof fn lemma_mat4_turned_z_r1c0(m: Mat4Model<int>, s: int, c: int)
    ensures
        m.turned_z(s, c).r1c0 == Mat4Model::rotation_z(s, c).times(m).r1c0,
{
    assert((s * m.r0c0) == m.r0c0 * s) by (nonlinear_arith);
    assert((0int * m.r2c0) == 0int) by (nonlinear_arith);
    assert((0int * m.r3c0) == 0int) by (nonlinear_arith);
}

proof fn lemma_mat4_turned_z_r1c1(m: Mat4Model<int>, s: int, c: int)
    ensures
        m.turned_z(s, c).r1c1 == Mat4Model::rotation_z(s, c).times(m).r1c1,
{
    assert((s * m.r0c1) == m.r0c1 * s) by (nonlinear_arith);
    assert((0int * m.r2c1) == 0int) by (nonlinear_arith);
    assert((0int * m.r3c1) == 0int) by (nonlinear_arith);
}

proof fn lemma_mat4_turned_z_r1c2(m: Mat4Model<int>, s: int, c: int)
    ensures
        m.turned_z(s, c).r1c2 == Mat4Model::rotation_z(s, c).times(m).r1c2,
{
    assert((s * m.r0c2) == m.r0c2 * s) by (nonlinear_arith);
    assert((0int * m.r2c2) == 0int) by (nonlinear_arith);
    assert((0int * m.r3c2) == 0int) by (nonlinear_arith);
}

proof fn lemma_mat4_turned_z_r1c3(m: Mat4Model<int>, s: int, c: int)
    ensures
        m.turned_z(s, c).r1c3 == Mat4Model::rotation_z(s, c).times(m).r1c3,
{
    assert((s * m.r0c3) == m.r0c3 * s) by (nonlinear_arith);
    assert((0int * m.r2c3) == 0int) by (nonlinear_arith);
    assert((0int * m.r3c3) == 0int) by (nonlinear_arith);
}

proof fn lemma_mat4_turned_z_r2c0(m: Mat4Model<int>, s: int, c: int)
    ensures
        m.turned_z(s, c).r2c0 == Mat4Model::rotation_z(s, c).times(m).r2c0,
{
    assert((0int * m.r0c0) == 0int) by (nonlinear_arith);
    assert((0int * m.r1c0) == 0int) by (nonlinear_arith);
    assert((1int * m.r2c0) == m.r2c0) by (nonlinear_arith);
    assert((0int * m.r3c0) == 0int) by (nonlinear_arith);
}

proof fn lemma_mat4_turned_z_r2c1(m: Mat4Model<int>, s: int, c: int)
    ensures
        m.turned_z(s, c).r2c1 == Mat4Model::rotation_z(s, c).times(m).r2c1,
{
    assert((0int * m.r0c1) == 0int) by (nonlinear_arith);
    assert((0int * m.r1c1) == 0int) by (nonlinear_arith);
    assert((1int * m.r2c1) == m.r2c1) by (nonlinear_arith);
    assert((0int * m.r3c1) == 0int) by (nonlinear_arith);
}

proof fn lemma_mat4_turned_z_r2c2(m: Mat4Model<int>, s: int, c: int)
    ensures
        m.turned_z(s, c).r2c2 == Mat4Model::rotation_z(s, c).times(m).r2c2,
{
    assert((0int * m.r0c2) == 0int) by (nonlinear_arith);
    assert((0int * m.r1c2) == 0int) by (nonlinear_arith);
    assert((1int * m.r2c2) == m.r2c2) by (nonlinear_arith);
    assert((0int * m.r3c2) == 0int) by (nonlinear_arith);
}

proof fn lemma_mat4_turned_z_r2c3(m: Mat4Model<int>, s: int, c: int)
    ensures
        m.turned_z(s, c).r2c3 == Mat4Model::rotation_z(s, c).times(m).r2c3,
{
    assert((0int * m.r0c3) == 0int) by (nonlinear_arith);
    assert((0int * m.r1c3) == 0int) by (nonlinear_arith);
    assert((1int * m.r2c3) == m.r2c3) by (nonlinear_arith);
    assert((0int * m.r3c3) == 0int) by (nonlinear_arith);
}

proof fn lemma_mat4_turned_z_r3c0(m: Mat4Model<int>, s: int, c: int)
    ensures
        m.turned_z(s, c).r3c0 == Mat4Model::rotation_z(s, c).times(m).r3c0,
{
    assert((0int * m.r0c0) == 0int) by (nonlinear_arith);
    assert((0int * m.r1c0) == 0int) by (nonlinear_arith);
    assert((0int * m.r2c0) == 0int) by (nonlinear_arith);
    assert((1int * m.r3c0) == m.r3c0) by (nonlinear_arith);
}

proof fn lemma_mat4_turned_z_r3c1(m: Mat4Model<int>, s: int, c: int)
    ensures
        m.turned_z(s, c).r3c1 == Mat4Model::rotation_z(s, c).times(m).r3c1,
{
    assert((0int * m.r0c1) == 0int) by (nonlinear_arith);
    assert((0int * m.r1c1) == 0int) by (nonlinear_arith);
    assert((0int * m.r2c1) == 0int) by (nonlinear_arith);
    assert((1int * m.r3c1) == m.r3c1) by (nonlinear_arith);
}

proof fn lemma_mat4_turned_z_r3c2(m: Mat4Model<int>, s: int, c: int)
    ensures
        m.turned_z(s, c).r3c2 == Mat4Model::rotation_z(s, c).times(m).r3c2,
{
    assert((0int * m.r0c2) == 0int) by (nonlinear_arith);
    assert((0int * m.r1c2) == 0int) by (nonlinear_arith);
    assert((0int * m.r2c2) == 0int) by (nonlinear_arith);
    assert((1int * m.r3c2) == m.r3c2) by (nonlinear_arith);
}

proof fn lemma_mat4_turned_z_r3c3(m: Mat4Model<int>, s: int, c: int)
    ensures
        m.turned_z(s, c).r3c3 == Mat4Model::rotation_z(s, c).times(m).r3c3,
{
    assert((0int * m.r0c3) == 0int) by (nonlinear_arith);
    assert((0int * m.r1c3) == 0int) by (nonlinear_arith);
    assert((0int * m.r2c3) == 0int) by (nonlinear_arith);
    assert((1int * m.r3c3) == m.r3c3) by (nonlinear_arith);
}

/// Turning a matrix about the z axis multiplies it by the rotation about that axis, from the left.
pub proof fn lemma_mat4_turned_z(m: Mat4Model<int>, s: int, c: int)
    ensures
        m.turned_z(s, c) == Mat4Model::rotation_z(s, c).times(m),
{
    lemma_mat4_turned_z_r0c0(m, s, c);
    lemma_mat4_turned_z_r0c1(m, s, c);
    lemma_mat4_turned_z_r0c2(m, s, c);
    lemma_mat4_turned_z_r0c3(m, s, c);
    lemma_mat4_turned_z_r1c0(m, s, c);
    lemma_mat4_turned_z_r1c1(m, s, c);
    lemma_mat4_turned_z_r1c2(m, s, c);
    lemma_mat4_turned_z_r1c3(m, s, c);
    lemma_mat4_turned_z_r2c0(m, s, c);
    lemma_mat4_turned_z_r2c1(m, s, c);
    lemma_mat4_turned_z_r2c2(m, s, c);
    lemma_mat4_turned_z_r2c3(m, s, c);
    lemma_mat4_turned_z_r3c0(m, s, c);
    lemma_mat4_turned_z_r3c1(m, s, c);
    lemma_mat4_turned_z_r3c2(m, s, c);
    lemma_mat4_turned_z_r3c3(m, s, c);
}

proof fn lemma_mat4_identity_turned_x_r0c0(s: int, c: int)
    ensures
        Mat4Model::<int>::identity().turned_x(s, c).r0c0 == Mat4Model::rotation_x(s, c).r0c0,
{
}

proof fn lemma_mat4_identity_turned_x_r0c1(s: int, c: int)
    ensures
        Mat4Model::<int>::identity().turned_x(s, c).r0c1 == Mat4Model::rotation_x(s, c).r0c1,
{
}

proof fn lemma_mat4_identity_turned_x_r0c2(s: int, c: int)
    ensures
        Mat4Model::<int>::identity().turned_x(s, c).r0c2 == Mat4Model::rotation_x(s, c).r0c2,
{
}

proof fn lemma_mat4_identity_turned_x_r0c3(s: int, c: int)
    ensures
        Mat4Model::<int>::identity().turned_x(s, c).r0c3 == Mat4Model::rotation_x(s, c).r0c3,
{
}

proof fn lemma_mat4_identity_turned_x_r1c0(s: int, c: int)
    ensures
        Mat4Model::<int>::identity().turned_x(s, c).r1c0 == Mat4Model::rotation_x(s, c).r1c0,
{
    assert((c * 0int) == 0int) by (nonlinear_arith);
    assert((s * 0int) == 0int) by (nonlinear_arith);
}

proof fn lemma_mat4_identity_turned_x_r1c1(s: int, c: int)
    ensures
        Mat4Model::<int>::identity().turned_x(s, c).r1c1 == Mat4Model::rotation_x(s, c).r1c1,
{
    assert((c * 1int) == c) by (nonlinear_arith);
    assert((s * 0int) == 0int) by (nonlinear_arith);
}

proof fn lemma_mat4_identity_turned_x_r1c2(s: int, c: int)
    ensures
        Mat4Model::<int>::identity().turned_x(s, c).r1c2 == Mat4Model::rotation_x(s, c).r1c2,
{
    assert((c * 0int) == 0int) by (nonlinear_arith);
    assert((s * 1int) == s) by (nonlinear_arith);
}

proof fn lemma_mat4_identity_turned_x_r1c3(s: int, c: int)
    ensures
        Mat4Model::<int>::identity().turned_x(s, c).r1c3 == Mat4Model::rotation_x(s, c).r1c3,
{
    assert((c * 0int) == 0int) by (nonlinear_arith);
    assert((s * 0int) == 0int) by (nonlinear_arith);
}

proof fn lemma_mat4_identity_turned_x_r2c0(s: int, c: int)
    ensures
        Mat4Model::<int>::identity().turned_x(s, c).r2c0 == Mat4Model::rotation_x(s, c).r2c0,
{
    assert((s * 0int) == 0int) by (nonlinear_arith);
    assert((c * 0int) == 0int) by (nonlinear_arith);
}

proof fn lemma_mat4_identity_turned_x_r2c1(s: int, c: int)
    ensures
        Mat4Model::<int>::identity().turned_x(s, c).r2c1 == Mat4Model::rotation_x(s, c).r2c1,
{
    assert((s * 1int) == s) by (nonlinear_arith);
    assert((c * 0int) == 0int) by (nonlinear_arith);
}

proof fn lemma_mat4_identity_turned_x_r2c2(s: int, c: int)
    ensures
        Mat4Model::<int>::identity().turned_x(s, c).r2c2 == Mat4Model::rotation_x(s, c).r2c2,
{
    assert((s * 0int) == 0int) by (nonlinear_arith);
    assert((c * 1int) == c) by (nonlinear_arith);
}

proof fn lemma_mat4_identity_turned_x_r2c3(s: int, c: int)
    ensures
        Mat4Model::<int>::identity().turned_x(s, c).r2c3 == Mat4Model::rotation_x(s, c).r2c3,
{
    assert((s * 0int) == 0int) by (nonlinear_arith);
    assert((c * 0int) == 0int) by (nonlinear_arith);
}

proof fn lemma_mat4_identity_turned_x_r3c0(s: int, c: int)
    ensures
        Mat4Model::<int>::identity().turned_x(s, c).r3c0 == Mat4Model::rotation_x(s, c).r3c0,
{
}

proof fn lemma_mat4_identity_turned_x_r3c1(s: int, c: int)
    ensures
        Mat4Model::<int>::identity().turned_x(s, c).r3c1 == Mat4Model::rotation_x(s, c).r3c1,
{
}

proof fn lemma_mat4_identity_turned_x_r3c2(s: int, c: int)
    ensures
        Mat4Model::<int>::identity().turned_x(s, c).r3c2 == Mat4Model::rotation_x(s, c).r3c2,
{
}

proof fn lemma_mat4_identity_turned_x_r3c3(s: int, c: int)
    ensures
        Mat4Model::<int>::identity().turned_x(s, c).r3c3 == Mat4Model::rotation_x(s, c).r3c3,
{
}

/// The identity turned about the x axis is the rotation about that axis.
pub proof fn lemma_mat4_identity_turned_x(s: int, c: int)
    ensures
        Mat4Model::<int>::identity().turned_x(s, c) == Mat4Model::rotation_x(s, c),
{
    lemma_mat4_identity_turned_x_r0c0(s, c);
    lemma_mat4_identity_turned_x_r0c1(s, c);
    lemma_mat4_identity_turned_x_r0c2(s, c);
    lemma_mat4_identity_turned_x_r0c3(s, c);
    lemma_mat4_identity_turned_x_r1c0(s, c);
    lemma_mat4_identity_turned_x_r1c1(s, c);
    lemma_mat4_identity_turned_x_r1c2(s, c);
    lemma_mat4_identity_turned_x_r1c3(s, c);
    lemma_mat4_identity_turned_x_r2c0(s, c);
    lemma_mat4_identity_turned_x_r2c1(s, c);
    lemma_mat4_identity_turned_x_r2c2(s, c);
    lemma_mat4_identity_turned_x_r2c3(s, c);
    lemma_mat4_identity_turned_x_r3c0(s, c);
    lemma_mat4_identity_turned_x_r3c1(s, c);
    lemma_mat4_identity_turned_x_r3c2(s, c);
    lemma_mat4_identity_turned_x_r3c3(s, c);
}

proof fn lemma_mat4_identity_turned_y_r0c0(s: int, c: int)
    ensures
        Mat4Model::<int>::identity().turned_y(s, c).r0c0 == Mat4Model::rotation_y(s, c).r0c0,
{
    assert((c * 1int) == c) by (nonlinear_arith);
    assert((s * 0int) == 0int) by (nonlinear_arith);
}

proof fn lemma_mat4_identity_turned_y_r0c1(s: int, c: int)
    ensures
        Mat4Model::<int>::identity().turned_y(s, c).r0c1 == Mat4Model::rotation_y(s, c).r0c1,
{
    assert((c * 0int) == 0int) by (nonlinear_arith);
    assert((s * 0int) == 0int) by (nonlinear_arith);
}

proof fn lemma_mat4_identity_turned_y_r0c2(s: int, c: int)
    ensures
        Mat4Model::<int>::identity().turned_y(s, c).r0c2 == Mat4Model::rotation_y(s, c).r0c2,
{
    assert((c * 0int) == 0int) by (nonlinear_arith);
    assert((s * 1int) == s) by (nonlinear_arith);
}

proof fn lemma_mat4_identity_turned_y_r0c3(s: int, c: int)
    ensures
        Mat4Model::<int>::identity().turned_y(s, c).r0c3 == Mat4Model::rotation_y(s, c).r0c3,
{
    assert((c * 0int) == 0int) by (nonlinear_arith);
    assert((s * 0int) == 0int) by (nonlinear_arith);
}

proof fn lemma_mat4_identity_turned_y_r1c0(s: int, c: int)
    ensures
        Mat4Model::<int>::identity().turned_y(s, c).r1c0 == Mat4Model::rotation_y(s, c).r1c0,
{
}

proof fn lemma_mat4_identity_turned_y_r1c1(s: int, c: int)
    ensures
        Mat4Model::<int>::identity().turned_y(s, c).r1c1 == Mat4Model::rotation_y(s, c).r1c1,
{
}

proof fn lemma_mat4_identity_turned_y_r1c2(s: int, c: int)
    ensures
        Mat4Model::<int>::identity().turned_y(s, c).r1c2 == Mat4Model::rotation_y(s, c).r1c2,
{
}

proof fn lemma_mat4_identity_turned_y_r1c3(s: int, c: int)
    ensures
        Mat4Model::<int>::identity().turned_y(s, c).r1c3 == Mat4Model::rotation_y(s, c).r1c3,
{
}

proof fn lemma_mat4_identity_turned_y_r2c0(s: int, c: int)
    ensures
        Mat4Model::<int>::identity().turned_y(s, c).r2c0 == Mat4Model::rotation_y(s, c).r2c0,
{
    assert((c * 0int) == 0int) by (nonlinear_arith);
    assert((s * 1int) == s) by (nonlinear_arith);
}

proof fn lemma_mat4_identity_turned_y_r2c1(s: int, c: int)
    ensures
        Mat4Model::<int>::identity().turned_y(s, c).r2c1 == Mat4Model::rotation_y(s, c).r2c1,
{
    assert((c * 0int) == 0int) by (nonlinear_arith);
    assert((s * 0int) == 0int) by (nonlinear_arith);
}

proof fn lemma_mat4_identity_turned_y_r2c2(s: int, c: int)
    ensures
        Mat4Model::<int>::identity().turned_y(s, c).r2c2 == Mat4Model::rotation_y(s, c).r2c2,
{
    assert((c * 1int) == c) by (nonlinear_arith);
    assert((s * 0int) == 0int) by (nonlinear_arith);
}

proof fn lemma_mat4_identity_turned_y_r2c3(s: int, c: int)
    ensures
        Mat4Model::<int>::identity().turned_y(s, c).r2c3 == Mat4Model::rotation_y(s, c).r2c3,
{
    assert((c * 0int) == 0int) by (nonlinear_arith);
    assert((s * 0int) == 0int) by (nonlinear_arith);
}

proof fn lemma_mat4_identity_turned_y_r3c0(s: int, c: int)
    ensures
        Mat4Model::<int>::identity().turned_y(s, c).r3c0 == Mat4Model::rotation_y(s, c).r3c0,
{
}

proof fn lemma_mat4_identity_turned_y_r3c1(s: int, c: int)
    ensures
        Mat4Model::<int>::identity().turned_y(s, c).r3c1 == Mat4Model::rotation_y(s, c).r3c1,
{
}

proof fn lemma_mat4_identity_turned_y_r3c2(s: int, c: int)
    ensures
        Mat4Model::<int>::identity().turned_y(s, c).r3c2 == Mat4Model::rotation_y(s, c).r3c2,
{
}

proof fn lemma_mat4_identity_turned_y_r3c3(s: int, c: int)
    ensures
        Mat4Model::<int>::identity().turned_y(s, c).r3c3 == Mat4Model::rotation_y(s, c).r3c3,
{
}

/// The identity turned about the y axis is the rotation about that axis.
pub proof fn lemma_mat4_identity_turned_y(s: int, c: int)
    ensures
        Mat4Model::<int>::identity().turned_y(s, c) == Mat4Model::rotation_y(s, c),
{
    lemma_mat4_identity_turned_y_r0c0(s, c);
    lemma_mat4_identity_turned_y_r0c1(s, c);
    lemma_mat4_identity_turned_y_r0c2(s, c);
    lemma_mat4_identity_turned_y_r0c3(s, c);
    lemma_mat4_identity_turned_y_r1c0(s, c);
    lemma_mat4_identity_turned_y_r1c1(s, c);
    lemma_mat4_identity_turned_y_r1c2(s, c);
    lemma_mat4_identity_turned_y_r1c3(s, c);
    lemma_mat4_identity_turned_y_r2c0(s, c);
    lemma_mat4_identity_turned_y_r2c1(s, c);
    lemma_mat4_identity_turned_y_r2c2(s, c);
    lemma_mat4_identity_turned_y_r2c3(s, c);
    lemma_mat4_identity_turned_y_r3c0(s, c);
    lemma_mat4_identity_turned_y_r3c1(s, c);
    lemma_mat4_identity_turned_y_r3c2(s, c);
    lemma_mat4_identity_turned_y_r3c3(s, c);
}

proof fn lemma_mat4_identity_turned_z_r0c0(s: int, c: int)
    ensures
        Mat4Model::<int>::identity().turned_z(s, c).r0c0 == Mat4Model::rotation_z(s, c).r0c0,
{
    assert((c * 1int) == c) by (nonlinear_arith);
    assert((s * 0int) == 0int) by (nonlinear_arith);
}

proof fn lemma_mat4_identity_turned_z_r0c1(s: int, c: int)
    ensures
        Mat4Model::<int>::identity().turned_z(s, c).r0c1 == Mat4Model::rotation_z(s, c).r0c1,
{
    assert((c * 0int) == 0int) by (nonlinear_arith);
    assert((s * 1int) == s) by (nonlinear_arith);
}

proof fn lemma_mat4_identity_turned_z_r0c2(s: int, c: int)
    ensures
        Mat4Model::<int>::identity().turned_z(s, c).r0c2 == Mat4Model::rotation_z(s, c).r0c2,
{
    assert((c * 0int) == 0int) by (nonlinear_arith);
    assert((s * 0int) == 0int) by (nonlinear_arith);
}

proof fn lemma_mat4_identity_turned_z_r0c3(s: int, c: int)
    ensures
        Mat4Model::<int>::identity().turned_z(s, c).r0c3 == Mat4Model::rotation_z(s, c).r0c3,
{
    assert((c * 0int) == 0int) by (nonlinear_arith);
    assert((s * 0int) == 0int) by (nonlinear_arith);
}

proof fn lemma_mat4_identity_turned_z_r1c0(s: int, c: int)
    ensures
        Mat4Model::<int>::identity().turned_z(s, c).r1c0 == Mat4Model::rotation_z(s, c).r1c0,
{
    assert((s * 1int) == s) by (nonlinear_arith);
    assert((c * 0int) == 0int) by (nonlinear_arith);
}

proof fn lemma_mat4_identity_turned_z_r1c1(s: int, c: int)
    ensures
        Mat4Model::<int>::identity().turned_z(s, c).r1c1 == Mat4Model::rotation_z(s, c).r1c1,
{
    assert((s * 0int) == 0int) by (nonlinear_arith);
    assert((c * 1int) == c) by (nonlinear_arith);
}

proof fn lemma_mat4_identity_turned_z_r1c2(s: int, c: int)
    ensures
        Mat4Model::<int>::identity().turned_z(s, c).r1c2 == Mat4Model::rotation_z(s, c).r1c2,
{
    assert((s * 0int) == 0int) by (nonlinear_arith);
    assert((c * 0int) == 0int) by (nonlinear_arith);
}

proof fn lemma_mat4_identity_turned_z_r1c3(s: int, c: int)
    ensures
        Mat4Model::<int>::identity().turned_z(s, c).r1c3 == Mat4Model::rotation_z(s, c).r1c3,
{
    assert((s * 0int) == 0int) by (nonlinear_arith);
    assert((c * 0int) == 0int) by (nonlinear_arith);
}

proof fn lemma_mat4_identity_turned_z_r2c0(s: int, c: int)
    ensures
        Mat4Model::<int>::identity().turned_z(s, c).r2c0 == Mat4Model::rotation_z(s, c).r2c0,
{
}

proof fn lemma_mat4_identity_turned_z_r2c1(s: int, c: int)
    ensures
        Mat4Model::<int>::identity().turned_z(s, c).r2c1 == Mat4Model::rotation_z(s, c).r2c1,
{
}

proof fn lemma_mat4_identity_turned_z_r2c2(s: int, c: int)
    ensures
        Mat4Model::<int>::identity().turned_z(s, c).r2c2 == Mat4Model::rotation_z(s, c).r2c2,
{
}

proof fn lemma_mat4_identity_turned_z_r2c3(s: int, c: int)
    ensures
        Mat4Model::<int>::identity().turned_z(s, c).r2c3 == Mat4Model::rotation_z(s, c).r2c3,
{
}

proof fn lemma_mat4_identity_turned_z_r3c0(s: int, c: int)
    ensures
        Mat4Model::<int>::identity().turned_z(s, c).r3c0 == Mat4Model::rotation_z(s, c).r3c0,
{
}

proof fn lemma_mat4_identity_turned_z_r3c1(s: int, c: int)
    ensures
        Mat4Model::<int>::identity().turned_z(s, c).r3c1 == Mat4Model::rotation_z(s, c).r3c1,
{
}

proof fn lemma_mat4_identity_turned_z_r3c2(s: int, c: int)
    ensures
        Mat4Model::<int>::identity().turned_z(s, c).r3c2 == Mat4Model::rotation_z(s, c).r3c2,
{
}

proof fn lemma_mat4_identity_turned_z_r3c3(s: int, c: int)
    ensures
        Mat4Model::<int>::identity().turned_z(s, c).r3c3 == Mat4Model::rotation_z(s, c).r3c3,
{
}

/// The identity turned about the z axis is the rotation about that axis.
pub proof fn lemma_mat4_identity_turned_z(s: int, c: int)
    ensures
        Mat4Model::<int>::identity().turned_z(s, c) == Mat4Model::rotation_z(s, c),
{
    lemma_mat4_identity_turned_z_r0c0(s, c);
    lemma_mat4_identity_turned_z_r0c1(s, c);
    lemma_mat4_identity_turned_z_r0c2(s, c);
    lemma_mat4_identity_turned_z_r0c3(s, c);
    lemma_mat4_identity_turned_z_r1c0(s, c);
    lemma_mat4_identity_turned_z_r1c1(s, c);
    lemma_mat4_identity_turned_z_r1c2(s, c);
    lemma_mat4_identity_turned_z_r1c3(s, c);
    lemma_mat4_identity_turned_z_r2c0(s, c);
    lemma_mat4_identity_turned_z_r2c1(s, c);
    lemma_mat4_identity_turned_z_r2c2(s, c);
    lemma_mat4_identity_turned_z_r2c3(s, c);
    lemma_mat4_identity_turned_z_r3c0(s, c);
    lemma_mat4_identity_turned_z_r3c1(s, c);
    lemma_mat4_identity_turned_z_r3c2(s, c);
    lemma_mat4_identity_turned_z_r3c3(s, c);
}

} // verus!
