//! The orthographic projections, over the integers.
use crate::traits::integer::truncated;
use crate::types::mat4::Mat4Model;
use vstd::prelude::*;

verus! {

/// A quotient rounded towards zero changes its sign with the sign of the dividend and with
/// that of the divisor.
pub proof fn lemma_truncated_is_odd(a: int, b: int)
    requires
        b != 0,
    ensures
        truncated(-a, b) == -truncated(a, b),
        truncated(a, -b) == -truncated(a, b),
{
    let n: int = if a >= 0 {
        a
    } else {
        -a
    };
    assert(n / (-b) == -(n / b)) by (nonlinear_arith)
        requires
            b != 0,
    ;
    assert(0int / b == 0) by (nonlinear_arith)
        requires
            b != 0,
    ;
}

/// The projection of a box that lies evenly about the z axis is the symmetric projection of
/// its width and its height.
pub proof fn lemma_mat4_orthogonal_of_symmetric_box(right: int, top: int, near: int, far: int)
    requires
        right != 0,
        top != 0,
        near != far,
    ensures
        Mat4Model::from_orthogonal(-right, right, -top, top, near, far)
            == Mat4Model::from_orthogonal_symmetric(right + right, top + top, near, far),
{
    let a = Mat4Model::from_orthogonal(-right, right, -top, top, near, far);
    let b = Mat4Model::from_orthogonal_symmetric(right + right, top + top, near, far);
    let dz = far - near;
    assert(near - far == -dz);
    lemma_truncated_is_odd(0, right - (-right));
    lemma_truncated_is_odd(0, top - (-top));
    lemma_truncated_is_odd(2, dz);
    lemma_truncated_is_odd(far + near, dz);
    assert(truncated(0, right - (-right)) == 0) by (nonlinear_arith)
        requires
            right != 0,
            truncated(0, right - (-right)) == 0int / (right - (-right)),
    ;
    assert(truncated(0, top - (-top)) == 0) by (nonlinear_arith)
        requires
            top != 0,
            truncated(0, top - (-top)) == 0int / (top - (-top)),
    ;
    assert(a.r0c0 == b.r0c0);
    assert(a.r1c1 == b.r1c1);
    assert(a.r2c2 == b.r2c2);
    assert(a.r0c3 == b.r0c3);
    assert(a.r1c3 == b.r1c3);
    assert(a.r2c3 == b.r2c3);
}

} // verus!
