//! The inverse of a matrix of integers.
//!
//! Among the integers, `1 / determinant` is exact only where the determinant is one or minus
//! one, and there the inverse that the formula gives is the inverse of the matrix. For any
//! other determinant the division rounds, as it does in its own way for an element type that
//! rounds every operation.
use super::mat3_adjugate::lemma_mat3_times_adjugate;
use super::mat4_adjugate::lemma_mat4_times_adjugate;
use crate::traits::integer::truncated;
use crate::traits::Division;
use crate::traits::Ring;
use crate::types::mat3::Mat3Model;
use crate::types::mat4::Mat4Model;
use vstd::prelude::*;

verus! {

/// One over one is one, and one over minus one is minus one.
proof fn lemma_one_over_unit(d: int)
    requires
        d == 1 || d == -1,
    ensures
        1int.over(d) == d,
{
    if d == 1 {
        assert(truncated(1, 1) == 1);
    } else {
        assert(truncated(1, -1) == -1);
    }
}

proof fn lemma_mat3_times_inverse_r0c0(m: Mat3Model<int>)
    requires
        m.determinant() == 1 || m.determinant() == -1,
    ensures
        m.times(m.inverse()).r0c0 == Mat3Model::<int>::identity().r0c0,
{
    let d = m.determinant();
    let k = 1int.over(d);
    let a0 = m.adjugate().r0c0;
    let x0 = m.r0c0 * a0;
    let a1 = m.adjugate().r1c0;
    let x1 = m.r0c1 * a1;
    let a2 = m.adjugate().r2c0;
    let x2 = m.r0c2 * a2;
    lemma_one_over_unit(d);
    lemma_mat3_times_adjugate(m);
    assert(m.times(m.adjugate()).r0c0 == Mat3Model::<int>::identity().times_each(d).r0c0);
    assert(m.r0c0 * (a0 * k) == x0 * k) by (nonlinear_arith)
        requires
            x0 == m.r0c0 * a0,
    ;
    assert(m.r0c1 * (a1 * k) == x1 * k) by (nonlinear_arith)
        requires
            x1 == m.r0c1 * a1,
    ;
    assert(m.r0c2 * (a2 * k) == x2 * k) by (nonlinear_arith)
        requires
            x2 == m.r0c2 * a2,
    ;
    assert(1int * d == d) by (nonlinear_arith);
    assert(x0 * k + x1 * k + x2 * k == 1) by (nonlinear_arith)
        requires
            x0 + x1 + x2 == d,
            k == d,
            d == 1 || d == -1,
    ;
}

proof fn lemma_mat3_times_inverse_r0c1(m: Mat3Model<int>)
    requires
        m.determinant() == 1 || m.determinant() == -1,
    ensures
        m.times(m.inverse()).r0c1 == Mat3Model::<int>::identity().r0c1,
{
    let d = m.determinant();
    let k = 1int.over(d);
    let a0 = m.adjugate().r0c1;
    let x0 = m.r0c0 * a0;
    let a1 = m.adjugate().r1c1;
    let x1 = m.r0c1 * a1;
    let a2 = m.adjugate().r2c1;
    let x2 = m.r0c2 * a2;
    lemma_one_over_unit(d);
    lemma_mat3_times_adjugate(m);
    assert(m.times(m.adjugate()).r0c1 == Mat3Model::<int>::identity().times_each(d).r0c1);
    assert(m.r0c0 * (a0 * k) == x0 * k) by (nonlinear_arith)
        requires
            x0 == m.r0c0 * a0,
    ;
    assert(m.r0c1 * (a1 * k) == x1 * k) by (nonlinear_arith)
        requires
            x1 == m.r0c1 * a1,
    ;
    assert(m.r0c2 * (a2 * k) == x2 * k) by (nonlinear_arith)
        requires
            x2 == m.r0c2 * a2,
    ;
    assert(0int * d == 0) by (nonlinear_arith);
    assert(x0 * k + x1 * k + x2 * k == 0) by (nonlinear_arith)
        requires
            x0 + x1 + x2 == 0,
    ;
}

proof fn lemma_mat3_times_inverse_r0c2(m: Mat3Model<int>)
    requires
        m.determinant() == 1 || m.determinant() == -1,
    ensures
        m.times(m.inverse()).r0c2 == Mat3Model::<int>::identity().r0c2,
{
    let d = m.determinant();
    let k = 1int.over(d);
    let a0 = m.adjugate().r0c2;
    let x0 = m.r0c0 * a0;
    let a1 = m.adjugate().r1c2;
    let x1 = m.r0c1 * a1;
    let a2 = m.adjugate().r2c2;
    let x2 = m.r0c2 * a2;
    lemma_one_over_unit(d);
    lemma_mat3_times_adjugate(m);
    assert(m.times(m.adjugate()).r0c2 == Mat3Model::<int>::identity().times_each(d).r0c2);
    assert(m.r0c0 * (a0 * k) == x0 * k) by (nonlinear_arith)
        requires
            x0 == m.r0c0 * a0,
    ;
    assert(m.r0c1 * (a1 * k) == x1 * k) by (nonlinear_arith)
        requires
            x1 == m.r0c1 * a1,
    ;
    assert(m.r0c2 * (a2 * k) == x2 * k) by (nonlinear_arith)
        requires
            x2 == m.r0c2 * a2,
    ;
    assert(0int * d == 0) by (nonlinear_arith);
    assert(x0 * k + x1 * k + x2 * k == 0) by (nonlinear_arith)
        requires
            x0 + x1 + x2 == 0,
    ;
}

proof fn lemma_mat3_times_inverse_r1c0(m: Mat3Model<int>)
    requires
        m.determinant() == 1 || m.determinant() == -1,
    ensures
        m.times(m.inverse()).r1c0 == Mat3Model::<int>::identity().r1c0,
{
    let d = m.determinant();
    let k = 1int.over(d);
    let a0 = m.adjugate().r0c0;
    let x0 = m.r1c0 * a0;
    let a1 = m.adjugate().r1c0;
    let x1 = m.r1c1 * a1;
    let a2 = m.adjugate().r2c0;
    let x2 = m.r1c2 * a2;
    lemma_one_over_unit(d);
    lemma_mat3_times_adjugate(m);
    assert(m.times(m.adjugate()).r1c0 == Mat3Model::<int>::identity().times_each(d).r1c0);
    assert(m.r1c0 * (a0 * k) == x0 * k) by (nonlinear_arith)
        requires
            x0 == m.r1c0 * a0,
    ;
    assert(m.r1c1 * (a1 * k) == x1 * k) by (nonlinear_arith)
        requires
            x1 == m.r1c1 * a1,
    ;
    assert(m.r1c2 * (a2 * k) == x2 * k) by (nonlinear_arith)
        requires
            x2 == m.r1c2 * a2,
    ;
    assert(0int * d == 0) by (nonlinear_arith);
    assert(x0 * k + x1 * k + x2 * k == 0) by (nonlinear_arith)
        requires
            x0 + x1 + x2 == 0,
    ;
}

proof fn lemma_mat3_times_inverse_r1c1(m: Mat3Model<int>)
    requires
        m.determinant() == 1 || m.determinant() == -1,
    ensures
        m.times(m.inverse()).r1c1 == Mat3Model::<int>::identity().r1c1,
{
    let d = m.determinant();
    let k = 1int.over(d);
    let a0 = m.adjugate().r0c1;
    let x0 = m.r1c0 * a0;
    let a1 = m.adjugate().r1c1;
    let x1 = m.r1c1 * a1;
    let a2 = m.adjugate().r2c1;
    let x2 = m.r1c2 * a2;
    lemma_one_over_unit(d);
    lemma_mat3_times_adjugate(m);
    assert(m.times(m.adjugate()).r1c1 == Mat3Model::<int>::identity().times_each(d).r1c1);
    assert(m.r1c0 * (a0 * k) == x0 * k) by (nonlinear_arith)
        requires
            x0 == m.r1c0 * a0,
    ;
    assert(m.r1c1 * (a1 * k) == x1 * k) by (nonlinear_arith)
        requires
            x1 == m.r1c1 * a1,
    ;
    assert(m.r1c2 * (a2 * k) == x2 * k) by (nonlinear_arith)
        requires
            x2 == m.r1c2 * a2,
    ;
    assert(1int * d == d) by (nonlinear_arith);
    assert(x0 * k + x1 * k + x2 * k == 1) by (nonlinear_arith)
        requires
            x0 + x1 + x2 == d,
            k == d,
            d == 1 || d == -1,
    ;
}

proof fn lemma_mat3_times_inverse_r1c2(m: Mat3Model<int>)
    requires
        m.determinant() == 1 || m.determinant() == -1,
    ensures
        m.times(m.inverse()).r1c2 == Mat3Model::<int>::identity().r1c2,
{
    let d = m.determinant();
    let k = 1int.over(d);
    let a0 = m.adjugate().r0c2;
    let x0 = m.r1c0 * a0;
    let a1 = m.adjugate().r1c2;
    let x1 = m.r1c1 * a1;
    let a2 = m.adjugate().r2c2;
    let x2 = m.r1c2 * a2;
    lemma_one_over_unit(d);
    lemma_mat3_times_adjugate(m);
    assert(m.times(m.adjugate()).r1c2 == Mat3Model::<int>::identity().times_each(d).r1c2);
    assert(m.r1c0 * (a0 * k) == x0 * k) by (nonlinear_arith)
        requires
            x0 == m.r1c0 * a0,
    ;
    assert(m.r1c1 * (a1 * k) == x1 * k) by (nonlinear_arith)
        requires
            x1 == m.r1c1 * a1,
    ;
    assert(m.r1c2 * (a2 * k) == x2 * k) by (nonlinear_arith)
        requires
            x2 == m.r1c2 * a2,
    ;
    assert(0int * d == 0) by (nonlinear_arith);
    assert(x0 * k + x1 * k + x2 * k == 0) by (nonlinear_arith)
        requires
            x0 + x1 + x2 == 0,
    ;
}

proof fn lemma_mat3_times_inverse_r2c0(m: Mat3Model<int>)
    requires
        m.determinant() == 1 || m.determinant() == -1,
    ensures
        m.times(m.inverse()).r2c0 == Mat3Model::<int>::identity().r2c0,
{
    let d = m.determinant();
    let k = 1int.over(d);
    let a0 = m.adjugate().r0c0;
    let x0 = m.r2c0 * a0;
    let a1 = m.adjugate().r1c0;
    let x1 = m.r2c1 * a1;
    let a2 = m.adjugate().r2c0;
    let x2 = m.r2c2 * a2;
    lemma_one_over_unit(d);
    lemma_mat3_times_adjugate(m);
    assert(m.times(m.adjugate()).r2c0 == Mat3Model::<int>::identity().times_each(d).r2c0);
    assert(m.r2c0 * (a0 * k) == x0 * k) by (nonlinear_arith)
        requires
            x0 == m.r2c0 * a0,
    ;
    assert(m.r2c1 * (a1 * k) == x1 * k) by (nonlinear_arith)
        requires
            x1 == m.r2c1 * a1,
    ;
    assert(m.r2c2 * (a2 * k) == x2 * k) by (nonlinear_arith)
        requires
            x2 == m.r2c2 * a2,
    ;
    assert(0int * d == 0) by (nonlinear_arith);
    assert(x0 * k + x1 * k + x2 * k == 0) by (nonlinear_arith)
        requires
            x0 + x1 + x2 == 0,
    ;
}

proof fn lemma_mat3_times_inverse_r2c1(m: Mat3Model<int>)
    requires
        m.determinant() == 1 || m.determinant() == -1,
    ensures
        m.times(m.inverse()).r2c1 == Mat3Model::<int>::identity().r2c1,
{
    let d = m.determinant();
    let k = 1int.over(d);
    let a0 = m.adjugate().r0c1;
    let x0 = m.r2c0 * a0;
    let a1 = m.adjugate().r1c1;
    let x1 = m.r2c1 * a1;
    let a2 = m.adjugate().r2c1;
    let x2 = m.r2c2 * a2;
    lemma_one_over_unit(d);
    lemma_mat3_times_adjugate(m);
    assert(m.times(m.adjugate()).r2c1 == Mat3Model::<int>::identity().times_each(d).r2c1);
    assert(m.r2c0 * (a0 * k) == x0 * k) by (nonlinear_arith)
        requires
            x0 == m.r2c0 * a0,
    ;
    assert(m.r2c1 * (a1 * k) == x1 * k) by (nonlinear_arith)
        requires
            x1 == m.r2c1 * a1,
    ;
    assert(m.r2c2 * (a2 * k) == x2 * k) by (nonlinear_arith)
        requires
            x2 == m.r2c2 * a2,
    ;
    assert(0int * d == 0) by (nonlinear_arith);
    assert(x0 * k + x1 * k + x2 * k == 0) by (nonlinear_arith)
        requires
            x0 + x1 + x2 == 0,
    ;
}

proof fn lemma_mat3_times_inverse_r2c2(m: Mat3Model<int>)
    requires
        m.determinant() == 1 || m.determinant() == -1,
    ensures
        m.times(m.inverse()).r2c2 == Mat3Model::<int>::identity().r2c2,
{
    let d = m.determinant();
    let k = 1int.over(d);
    let a0 = m.adjugate().r0c2;
    let x0 = m.r2c0 * a0;
    let a1 = m.adjugate().r1c2;
    let x1 = m.r2c1 * a1;
    let a2 = m.adjugate().r2c2;
    let x2 = m.r2c2 * a2;
    lemma_one_over_unit(d);
    lemma_mat3_times_adjugate(m);
    assert(m.times(m.adjugate()).r2c2 == Mat3Model::<int>::identity().times_each(d).r2c2);
    assert(m.r2c0 * (a0 * k) == x0 * k) by (nonlinear_arith)
        requires
            x0 == m.r2c0 * a0,
    ;
    assert(m.r2c1 * (a1 * k) == x1 * k) by (nonlinear_arith)
        requires
            x1 == m.r2c1 * a1,
    ;
    assert(m.r2c2 * (a2 * k) == x2 * k) by (nonlinear_arith)
        requires
            x2 == m.r2c2 * a2,
    ;
    assert(1int * d == d) by (nonlinear_arith);
    assert(x0 * k + x1 * k + x2 * k == 1) by (nonlinear_arith)
        requires
            x0 + x1 + x2 == d,
            k == d,
            d == 1 || d == -1,
    ;
}

/// A matrix of integers whose determinant is one or minus one, times its inverse, is the
/// identity.
pub proof fn lemma_mat3_times_inverse(m: Mat3Model<int>)
    requires
        m.determinant() == 1 || m.determinant() == -1,
    ensures
        m.times(m.inverse()) == Mat3Model::<int>::identity(),
{
    lemma_mat3_times_inverse_r0c0(m);
    lemma_mat3_times_inverse_r0c1(m);
    lemma_mat3_times_inverse_r0c2(m);
    lemma_mat3_times_inverse_r1c0(m);
    lemma_mat3_times_inverse_r1c1(m);
    lemma_mat3_times_inverse_r1c2(m);
    lemma_mat3_times_inverse_r2c0(m);
    lemma_mat3_times_inverse_r2c1(m);
    lemma_mat3_times_inverse_r2c2(m);
}

proof fn lemma_mat4_times_inverse_r0c0(m: Mat4Model<int>)
    requires
        m.determinant() == 1 || m.determinant() == -1,
    ensures
        m.times(m.inverse()).r0c0 == Mat4Model::<int>::identity().r0c0,
{
    let d = m.determinant();
    let k = 1int.over(d);
    let a0 = m.adjugate().r0c0;
    let x0 = m.r0c0 * a0;
    let a1 = m.adjugate().r1c0;
    let x1 = m.r0c1 * a1;
    let a2 = m.adjugate().r2c0;
    let x2 = m.r0c2 * a2;
    let a3 = m.adjugate().r3c0;
    let x3 = m.r0c3 * a3;
    lemma_one_over_unit(d);
    lemma_mat4_times_adjugate(m);
    assert(m.times(m.adjugate()).r0c0 == Mat4Model::<int>::identity().times_each(d).r0c0);
    assert(m.r0c0 * (a0 * k) == x0 * k) by (nonlinear_arith)
        requires
            x0 == m.r0c0 * a0,
    ;
    assert(m.r0c1 * (a1 * k) == x1 * k) by (nonlinear_arith)
        requires
            x1 == m.r0c1 * a1,
    ;
    assert(m.r0c2 * (a2 * k) == x2 * k) by (nonlinear_arith)
        requires
            x2 == m.r0c2 * a2,
    ;
    assert(m.r0c3 * (a3 * k) == x3 * k) by (nonlinear_arith)
        requires
            x3 == m.r0c3 * a3,
    ;
    assert(1int * d == d) by (nonlinear_arith);
    assert(x0 * k + x1 * k + x2 * k + x3 * k == 1) by (nonlinear_arith)
        requires
            x0 + x1 + x2 + x3 == d,
            k == d,
            d == 1 || d == -1,
    ;
}

proof fn lemma_mat4_times_inverse_r0c1(m: Mat4Model<int>)
    requires
        m.determinant() == 1 || m.determinant() == -1,
    ensures
        m.times(m.inverse()).r0c1 == Mat4Model::<int>::identity().r0c1,
{
    let d = m.determinant();
    let k = 1int.over(d);
    let a0 = m.adjugate().r0c1;
    let x0 = m.r0c0 * a0;
    let a1 = m.adjugate().r1c1;
    let x1 = m.r0c1 * a1;
    let a2 = m.adjugate().r2c1;
    let x2 = m.r0c2 * a2;
    let a3 = m.adjugate().r3c1;
    let x3 = m.r0c3 * a3;
    lemma_one_over_unit(d);
    lemma_mat4_times_adjugate(m);
    assert(m.times(m.adjugate()).r0c1 == Mat4Model::<int>::identity().times_each(d).r0c1);
    assert(m.r0c0 * (a0 * k) == x0 * k) by (nonlinear_arith)
        requires
            x0 == m.r0c0 * a0,
    ;
    assert(m.r0c1 * (a1 * k) == x1 * k) by (nonlinear_arith)
        requires
            x1 == m.r0c1 * a1,
    ;
    assert(m.r0c2 * (a2 * k) == x2 * k) by (nonlinear_arith)
        requires
            x2 == m.r0c2 * a2,
    ;
    assert(m.r0c3 * (a3 * k) == x3 * k) by (nonlinear_arith)
        requires
            x3 == m.r0c3 * a3,
    ;
    assert(0int * d == 0) by (nonlinear_arith);
    assert(x0 * k + x1 * k + x2 * k + x3 * k == 0) by (nonlinear_arith)
        requires
            x0 + x1 + x2 + x3 == 0,
    ;
}

proof fn lemma_mat4_times_inverse_r0c2(m: Mat4Model<int>)
    requires
        m.determinant() == 1 || m.determinant() == -1,
    ensures
        m.times(m.inverse()).r0c2 == Mat4Model::<int>::identity().r0c2,
{
    let d = m.determinant();
    let k = 1int.over(d);
    let a0 = m.adjugate().r0c2;
    let x0 = m.r0c0 * a0;
    let a1 = m.adjugate().r1c2;
    let x1 = m.r0c1 * a1;
    let a2 = m.adjugate().r2c2;
    let x2 = m.r0c2 * a2;
    let a3 = m.adjugate().r3c2;
    let x3 = m.r0c3 * a3;
    lemma_one_over_unit(d);
    lemma_mat4_times_adjugate(m);
    assert(m.times(m.adjugate()).r0c2 == Mat4Model::<int>::identity().times_each(d).r0c2);
    assert(m.r0c0 * (a0 * k) == x0 * k) by (nonlinear_arith)
        requires
            x0 == m.r0c0 * a0,
    ;
    assert(m.r0c1 * (a1 * k) == x1 * k) by (nonlinear_arith)
        requires
            x1 == m.r0c1 * a1,
    ;
    assert(m.r0c2 * (a2 * k) == x2 * k) by (nonlinear_arith)
        requires
            x2 == m.r0c2 * a2,
    ;
    assert(m.r0c3 * (a3 * k) == x3 * k) by (nonlinear_arith)
        requires
            x3 == m.r0c3 * a3,
    ;
    assert(0int * d == 0) by (nonlinear_arith);
    assert(x0 * k + x1 * k + x2 * k + x3 * k == 0) by (nonlinear_arith)
        requires
            x0 + x1 + x2 + x3 == 0,
    ;
}

proof fn lemma_mat4_times_inverse_r0c3(m: Mat4Model<int>)
    requires
        m.determinant() == 1 || m.determinant() == -1,
    ensures
        m.times(m.inverse()).r0c3 == Mat4Model::<int>::identity().r0c3,
{
    let d = m.determinant();
    let k = 1int.over(d);
    let a0 = m.adjugate().r0c3;
    let x0 = m.r0c0 * a0;
    let a1 = m.adjugate().r1c3;
    let x1 = m.r0c1 * a1;
    let a2 = m.adjugate().r2c3;
    let x2 = m.r0c2 * a2;
    let a3 = m.adjugate().r3c3;
    let x3 = m.r0c3 * a3;
    lemma_one_over_unit(d);
    lemma_mat4_times_adjugate(m);
    assert(m.times(m.adjugate()).r0c3 == Mat4Model::<int>::identity().times_each(d).r0c3);
    assert(m.r0c0 * (a0 * k) == x0 * k) by (nonlinear_arith)
        requires
            x0 == m.r0c0 * a0,
    ;
    assert(m.r0c1 * (a1 * k) == x1 * k) by (nonlinear_arith)
        requires
            x1 == m.r0c1 * a1,
    ;
    assert(m.r0c2 * (a2 * k) == x2 * k) by (nonlinear_arith)
        requires
            x2 == m.r0c2 * a2,
    ;
    assert(m.r0c3 * (a3 * k) == x3 * k) by (nonlinear_arith)
        requires
            x3 == m.r0c3 * a3,
    ;
    assert(0int * d == 0) by (nonlinear_arith);
    assert(x0 * k + x1 * k + x2 * k + x3 * k == 0) by (nonlinear_arith)
        requires
            x0 + x1 + x2 + x3 == 0,
    ;
}

proof fn lemma_mat4_times_inverse_r1c0(m: Mat4Model<int>)
    requires
        m.determinant() == 1 || m.determinant() == -1,
    ensures
        m.times(m.inverse()).r1c0 == Mat4Model::<int>::identity().r1c0,
{
    let d = m.determinant();
    let k = 1int.over(d);
    let a0 = m.adjugate().r0c0;
    let x0 = m.r1c0 * a0;
    let a1 = m.adjugate().r1c0;
    let x1 = m.r1c1 * a1;
    let a2 = m.adjugate().r2c0;
    let x2 = m.r1c2 * a2;
    let a3 = m.adjugate().r3c0;
    let x3 = m.r1c3 * a3;
    lemma_one_over_unit(d);
    lemma_mat4_times_adjugate(m);
    assert(m.times(m.adjugate()).r1c0 == Mat4Model::<int>::identity().times_each(d).r1c0);
    assert(m.r1c0 * (a0 * k) == x0 * k) by (nonlinear_arith)
        requires
            x0 == m.r1c0 * a0,
    ;
    assert(m.r1c1 * (a1 * k) == x1 * k) by (nonlinear_arith)
        requires
            x1 == m.r1c1 * a1,
    ;
    assert(m.r1c2 * (a2 * k) == x2 * k) by (nonlinear_arith)
        requires
            x2 == m.r1c2 * a2,
    ;
    assert(m.r1c3 * (a3 * k) == x3 * k) by (nonlinear_arith)
        requires
            x3 == m.r1c3 * a3,
    ;
    assert(0int * d == 0) by (nonlinear_arith);
    assert(x0 * k + x1 * k + x2 * k + x3 * k == 0) by (nonlinear_arith)
        requires
            x0 + x1 + x2 + x3 == 0,
    ;
}

proof fn lemma_mat4_times_inverse_r1c1(m: Mat4Model<int>)
    requires
        m.determinant() == 1 || m.determinant() == -1,
    ensures
        m.times(m.inverse()).r1c1 == Mat4Model::<int>::identity().r1c1,
{
    let d = m.determinant();
    let k = 1int.over(d);
    let a0 = m.adjugate().r0c1;
    let x0 = m.r1c0 * a0;
    let a1 = m.adjugate().r1c1;
    let x1 = m.r1c1 * a1;
    let a2 = m.adjugate().r2c1;
    let x2 = m.r1c2 * a2;
    let a3 = m.adjugate().r3c1;
    let x3 = m.r1c3 * a3;
    lemma_one_over_unit(d);
    lemma_mat4_times_adjugate(m);
    assert(m.times(m.adjugate()).r1c1 == Mat4Model::<int>::identity().times_each(d).r1c1);
    assert(m.r1c0 * (a0 * k) == x0 * k) by (nonlinear_arith)
        requires
            x0 == m.r1c0 * a0,
    ;
    assert(m.r1c1 * (a1 * k) == x1 * k) by (nonlinear_arith)
        requires
            x1 == m.r1c1 * a1,
    ;
    assert(m.r1c2 * (a2 * k) == x2 * k) by (nonlinear_arith)
        requires
            x2 == m.r1c2 * a2,
    ;
    assert(m.r1c3 * (a3 * k) == x3 * k) by (nonlinear_arith)
        requires
            x3 == m.r1c3 * a3,
    ;
    assert(1int * d == d) by (nonlinear_arith);
    assert(x0 * k + x1 * k + x2 * k + x3 * k == 1) by (nonlinear_arith)
        requires
            x0 + x1 + x2 + x3 == d,
            k == d,
            d == 1 || d == -1,
    ;
}

proof fn lemma_mat4_times_inverse_r1c2(m: Mat4Model<int>)
    requires
        m.determinant() == 1 || m.determinant() == -1,
    ensures
        m.times(m.inverse()).r1c2 == Mat4Model::<int>::identity().r1c2,
{
    let d = m.determinant();
    let k = 1int.over(d);
    let a0 = m.adjugate().r0c2;
    let x0 = m.r1c0 * a0;
    let a1 = m.adjugate().r1c2;
    let x1 = m.r1c1 * a1;
    let a2 = m.adjugate().r2c2;
    let x2 = m.r1c2 * a2;
    let a3 = m.adjugate().r3c2;
    let x3 = m.r1c3 * a3;
    lemma_one_over_unit(d);
    lemma_mat4_times_adjugate(m);
    assert(m.times(m.adjugate()).r1c2 == Mat4Model::<int>::identity().times_each(d).r1c2);
    assert(m.r1c0 * (a0 * k) == x0 * k) by (nonlinear_arith)
        requires
            x0 == m.r1c0 * a0,
    ;
    assert(m.r1c1 * (a1 * k) == x1 * k) by (nonlinear_arith)
        requires
            x1 == m.r1c1 * a1,
    ;
    assert(m.r1c2 * (a2 * k) == x2 * k) by (nonlinear_arith)
        requires
            x2 == m.r1c2 * a2,
    ;
    assert(m.r1c3 * (a3 * k) == x3 * k) by (nonlinear_arith)
        requires
            x3 == m.r1c3 * a3,
    ;
    assert(0int * d == 0) by (nonlinear_arith);
    assert(x0 * k + x1 * k + x2 * k + x3 * k == 0) by (nonlinear_arith)
        requires
            x0 + x1 + x2 + x3 == 0,
    ;
}

proof fn lemma_mat4_times_inverse_r1c3(m: Mat4Model<int>)
    requires
        m.determinant() == 1 || m.determinant() == -1,
    ensures
        m.times(m.inverse()).r1c3 == Mat4Model::<int>::identity().r1c3,
{
    let d = m.determinant();
    let k = 1int.over(d);
    let a0 = m.adjugate().r0c3;
    let x0 = m.r1c0 * a0;
    let a1 = m.adjugate().r1c3;
    let x1 = m.r1c1 * a1;
    let a2 = m.adjugate().r2c3;
    let x2 = m.r1c2 * a2;
    let a3 = m.adjugate().r3c3;
    let x3 = m.r1c3 * a3;
    lemma_one_over_unit(d);
    lemma_mat4_times_adjugate(m);
    assert(m.times(m.adjugate()).r1c3 == Mat4Model::<int>::identity().times_each(d).r1c3);
    assert(m.r1c0 * (a0 * k) == x0 * k) by (nonlinear_arith)
        requires
            x0 == m.r1c0 * a0,
    ;
    assert(m.r1c1 * (a1 * k) == x1 * k) by (nonlinear_arith)
        requires
            x1 == m.r1c1 * a1,
    ;
    assert(m.r1c2 * (a2 * k) == x2 * k) by (nonlinear_arith)
        requires
            x2 == m.r1c2 * a2,
    ;
    assert(m.r1c3 * (a3 * k) == x3 * k) by (nonlinear_arith)
        requires
            x3 == m.r1c3 * a3,
    ;
    assert(0int * d == 0) by (nonlinear_arith);
    assert(x0 * k + x1 * k + x2 * k + x3 * k == 0) by (nonlinear_arith)
        requires
            x0 + x1 + x2 + x3 == 0,
    ;
}

proof fn lemma_mat4_times_inverse_r2c0(m: Mat4Model<int>)
    requires
        m.determinant() == 1 || m.determinant() == -1,
    ensures
        m.times(m.inverse()).r2c0 == Mat4Model::<int>::identity().r2c0,
{
    let d = m.determinant();
    let k = 1int.over(d);
    let a0 = m.adjugate().r0c0;
    let x0 = m.r2c0 * a0;
    let a1 = m.adjugate().r1c0;
    let x1 = m.r2c1 * a1;
    let a2 = m.adjugate().r2c0;
    let x2 = m.r2c2 * a2;
    let a3 = m.adjugate().r3c0;
    let x3 = m.r2c3 * a3;
    lemma_one_over_unit(d);
    lemma_mat4_times_adjugate(m);
    assert(m.times(m.adjugate()).r2c0 == Mat4Model::<int>::identity().times_each(d).r2c0);
    assert(m.r2c0 * (a0 * k) == x0 * k) by (nonlinear_arith)
        requires
            x0 == m.r2c0 * a0,
    ;
    assert(m.r2c1 * (a1 * k) == x1 * k) by (nonlinear_arith)
        requires
            x1 == m.r2c1 * a1,
    ;
    assert(m.r2c2 * (a2 * k) == x2 * k) by (nonlinear_arith)
        requires
            x2 == m.r2c2 * a2,
    ;
    assert(m.r2c3 * (a3 * k) == x3 * k) by (nonlinear_arith)
        requires
            x3 == m.r2c3 * a3,
    ;
    assert(0int * d == 0) by (nonlinear_arith);
    assert(x0 * k + x1 * k + x2 * k + x3 * k == 0) by (nonlinear_arith)
        requires
            x0 + x1 + x2 + x3 == 0,
    ;
}

proof fn lemma_mat4_times_inverse_r2c1(m: Mat4Model<int>)
    requires
        m.determinant() == 1 || m.determinant() == -1,
    ensures
        m.times(m.inverse()).r2c1 == Mat4Model::<int>::identity().r2c1,
{
    let d = m.determinant();
    let k = 1int.over(d);
    let a0 = m.adjugate().r0c1;
    let x0 = m.r2c0 * a0;
    let a1 = m.adjugate().r1c1;
    let x1 = m.r2c1 * a1;
    let a2 = m.adjugate().r2c1;
    let x2 = m.r2c2 * a2;
    let a3 = m.adjugate().r3c1;
    let x3 = m.r2c3 * a3;
    lemma_one_over_unit(d);
    lemma_mat4_times_adjugate(m);
    assert(m.times(m.adjugate()).r2c1 == Mat4Model::<int>::identity().times_each(d).r2c1);
    assert(m.r2c0 * (a0 * k) == x0 * k) by (nonlinear_arith)
        requires
            x0 == m.r2c0 * a0,
    ;
    assert(m.r2c1 * (a1 * k) == x1 * k) by (nonlinear_arith)
        requires
            x1 == m.r2c1 * a1,
    ;
    assert(m.r2c2 * (a2 * k) == x2 * k) by (nonlinear_arith)
        requires
            x2 == m.r2c2 * a2,
    ;
    assert(m.r2c3 * (a3 * k) == x3 * k) by (nonlinear_arith)
        requires
            x3 == m.r2c3 * a3,
    ;
    assert(0int * d == 0) by (nonlinear_arith);
    assert(x0 * k + x1 * k + x2 * k + x3 * k == 0) by (nonlinear_arith)
        requires
            x0 + x1 + x2 + x3 == 0,
    ;
}

proof fn lemma_mat4_times_inverse_r2c2(m: Mat4Model<int>)
    requires
        m.determinant() == 1 || m.determinant() == -1,
    ensures
        m.times(m.inverse()).r2c2 == Mat4Model::<int>::identity().r2c2,
{
    let d = m.determinant();
    let k = 1int.over(d);
    let a0 = m.adjugate().r0c2;
    let x0 = m.r2c0 * a0;
    let a1 = m.adjugate().r1c2;
    let x1 = m.r2c1 * a1;
    let a2 = m.adjugate().r2c2;
    let x2 = m.r2c2 * a2;
    let a3 = m.adjugate().r3c2;
    let x3 = m.r2c3 * a3;
    lemma_one_over_unit(d);
    lemma_mat4_times_adjugate(m);
    assert(m.times(m.adjugate()).r2c2 == Mat4Model::<int>::identity().times_each(d).r2c2);
    assert(m.r2c0 * (a0 * k) == x0 * k) by (nonlinear_arith)
        requires
            x0 == m.r2c0 * a0,
    ;
    assert(m.r2c1 * (a1 * k) == x1 * k) by (nonlinear_arith)
        requires
            x1 == m.r2c1 * a1,
    ;
    assert(m.r2c2 * (a2 * k) == x2 * k) by (nonlinear_arith)
        requires
            x2 == m.r2c2 * a2,
    ;
    assert(m.r2c3 * (a3 * k) == x3 * k) by (nonlinear_arith)
        requires
            x3 == m.r2c3 * a3,
    ;
    assert(1int * d == d) by (nonlinear_arith);
    assert(x0 * k + x1 * k + x2 * k + x3 * k == 1) by (nonlinear_arith)
        requires
            x0 + x1 + x2 + x3 == d,
            k == d,
            d == 1 || d == -1,
    ;
}

proof fn lemma_mat4_times_inverse_r2c3(m: Mat4Model<int>)
    requires
        m.determinant() == 1 || m.determinant() == -1,
    ensures
        m.times(m.inverse()).r2c3 == Mat4Model::<int>::identity().r2c3,
{
    let d = m.determinant();
    let k = 1int.over(d);
    let a0 = m.adjugate().r0c3;
    let x0 = m.r2c0 * a0;
    let a1 = m.adjugate().r1c3;
    let x1 = m.r2c1 * a1;
    let a2 = m.adjugate().r2c3;
    let x2 = m.r2c2 * a2;
    let a3 = m.adjugate().r3c3;
    let x3 = m.r2c3 * a3;
    lemma_one_over_unit(d);
    lemma_mat4_times_adjugate(m);
    assert(m.times(m.adjugate()).r2c3 == Mat4Model::<int>::identity().times_each(d).r2c3);
    assert(m.r2c0 * (a0 * k) == x0 * k) by (nonlinear_arith)
        requires
            x0 == m.r2c0 * a0,
    ;
    assert(m.r2c1 * (a1 * k) == x1 * k) by (nonlinear_arith)
        requires
            x1 == m.r2c1 * a1,
    ;
    assert(m.r2c2 * (a2 * k) == x2 * k) by (nonlinear_arith)
        requires
            x2 == m.r2c2 * a2,
    ;
    assert(m.r2c3 * (a3 * k) == x3 * k) by (nonlinear_arith)
        requires
            x3 == m.r2c3 * a3,
    ;
    assert(0int * d == 0) by (nonlinear_arith);
    assert(x0 * k + x1 * k + x2 * k + x3 * k == 0) by (nonlinear_arith)
        requires
            x0 + x1 + x2 + x3 == 0,
    ;
}

proof fn lemma_mat4_times_inverse_r3c0(m: Mat4Model<int>)
    requires
        m.determinant() == 1 || m.determinant() == -1,
    ensures
        m.times(m.inverse()).r3c0 == Mat4Model::<int>::identity().r3c0,
{
    let d = m.determinant();
    let k = 1int.over(d);
    let a0 = m.adjugate().r0c0;
    let x0 = m.r3c0 * a0;
    let a1 = m.adjugate().r1c0;
    let x1 = m.r3c1 * a1;
    let a2 = m.adjugate().r2c0;
    let x2 = m.r3c2 * a2;
    let a3 = m.adjugate().r3c0;
    let x3 = m.r3c3 * a3;
    lemma_one_over_unit(d);
    lemma_mat4_times_adjugate(m);
    assert(m.times(m.adjugate()).r3c0 == Mat4Model::<int>::identity().times_each(d).r3c0);
    assert(m.r3c0 * (a0 * k) == x0 * k) by (nonlinear_arith)
        requires
            x0 == m.r3c0 * a0,
    ;
    assert(m.r3c1 * (a1 * k) == x1 * k) by (nonlinear_arith)
        requires
            x1 == m.r3c1 * a1,
    ;
    assert(m.r3c2 * (a2 * k) == x2 * k) by (nonlinear_arith)
        requires
            x2 == m.r3c2 * a2,
    ;
    assert(m.r3c3 * (a3 * k) == x3 * k) by (nonlinear_arith)
        requires
            x3 == m.r3c3 * a3,
    ;
    assert(0int * d == 0) by (nonlinear_arith);
    assert(x0 * k + x1 * k + x2 * k + x3 * k == 0) by (nonlinear_arith)
        requires
            x0 + x1 + x2 + x3 == 0,
    ;
}

proof fn lemma_mat4_times_inverse_r3c1(m: Mat4Model<int>)
    requires
        m.determinant() == 1 || m.determinant() == -1,
    ensures
        m.times(m.inverse()).r3c1 == Mat4Model::<int>::identity().r3c1,
{
    let d = m.determinant();
    let k = 1int.over(d);
    let a0 = m.adjugate().r0c1;
    let x0 = m.r3c0 * a0;
    let a1 = m.adjugate().r1c1;
    let x1 = m.r3c1 * a1;
    let a2 = m.adjugate().r2c1;
    let x2 = m.r3c2 * a2;
    let a3 = m.adjugate().r3c1;
    let x3 = m.r3c3 * a3;
    lemma_one_over_unit(d);
    lemma_mat4_times_adjugate(m);
    assert(m.times(m.adjugate()).r3c1 == Mat4Model::<int>::identity().times_each(d).r3c1);
    assert(m.r3c0 * (a0 * k) == x0 * k) by (nonlinear_arith)
        requires
            x0 == m.r3c0 * a0,
    ;
    assert(m.r3c1 * (a1 * k) == x1 * k) by (nonlinear_arith)
        requires
            x1 == m.r3c1 * a1,
    ;
    assert(m.r3c2 * (a2 * k) == x2 * k) by (nonlinear_arith)
        requires
            x2 == m.r3c2 * a2,
    ;
    assert(m.r3c3 * (a3 * k) == x3 * k) by (nonlinear_arith)
        requires
            x3 == m.r3c3 * a3,
    ;
    assert(0int * d == 0) by (nonlinear_arith);
    assert(x0 * k + x1 * k + x2 * k + x3 * k == 0) by (nonlinear_arith)
        requires
            x0 + x1 + x2 + x3 == 0,
    ;
}

proof fn lemma_mat4_times_inverse_r3c2(m: Mat4Model<int>)
    requires
        m.determinant() == 1 || m.determinant() == -1,
    ensures
        m.times(m.inverse()).r3c2 == Mat4Model::<int>::identity().r3c2,
{
    let d = m.determinant();
    let k = 1int.over(d);
    let a0 = m.adjugate().r0c2;
    let x0 = m.r3c0 * a0;
    let a1 = m.adjugate().r1c2;
    let x1 = m.r3c1 * a1;
    let a2 = m.adjugate().r2c2;
    let x2 = m.r3c2 * a2;
    let a3 = m.adjugate().r3c2;
    let x3 = m.r3c3 * a3;
    lemma_one_over_unit(d);
    lemma_mat4_times_adjugate(m);
    assert(m.times(m.adjugate()).r3c2 == Mat4Model::<int>::identity().times_each(d).r3c2);
    assert(m.r3c0 * (a0 * k) == x0 * k) by (nonlinear_arith)
        requires
            x0 == m.r3c0 * a0,
    ;
    assert(m.r3c1 * (a1 * k) == x1 * k) by (nonlinear_arith)
        requires
            x1 == m.r3c1 * a1,
    ;
    assert(m.r3c2 * (a2 * k) == x2 * k) by (nonlinear_arith)
        requires
            x2 == m.r3c2 * a2,
    ;
    assert(m.r3c3 * (a3 * k) == x3 * k) by (nonlinear_arith)
        requires
            x3 == m.r3c3 * a3,
    ;
    assert(0int * d == 0) by (nonlinear_arith);
    assert(x0 * k + x1 * k + x2 * k + x3 * k == 0) by (nonlinear_arith)
        requires
            x0 + x1 + x2 + x3 == 0,
    ;
}

proof fn lemma_mat4_times_inverse_r3c3(m: Mat4Model<int>)
    requires
        m.determinant() == 1 || m.determinant() == -1,
    ensures
        m.times(m.inverse()).r3c3 == Mat4Model::<int>::identity().r3c3,
{
    let d = m.determinant();
    let k = 1int.over(d);
    let a0 = m.adjugate().r0c3;
    let x0 = m.r3c0 * a0;
    let a1 = m.adjugate().r1c3;
    let x1 = m.r3c1 * a1;
    let a2 = m.adjugate().r2c3;
    let x2 = m.r3c2 * a2;
    let a3 = m.adjugate().r3c3;
    let x3 = m.r3c3 * a3;
    lemma_one_over_unit(d);
    lemma_mat4_times_adjugate(m);
    assert(m.times(m.adjugate()).r3c3 == Mat4Model::<int>::identity().times_each(d).r3c3);
    assert(m.r3c0 * (a0 * k) == x0 * k) by (nonlinear_arith)
        requires
            x0 == m.r3c0 * a0,
    ;
    assert(m.r3c1 * (a1 * k) == x1 * k) by (nonlinear_arith)
        requires
            x1 == m.r3c1 * a1,
    ;
    assert(m.r3c2 * (a2 * k) == x2 * k) by (nonlinear_arith)
        requires
            x2 == m.r3c2 * a2,
    ;
    assert(m.r3c3 * (a3 * k) == x3 * k) by (nonlinear_arith)
        requires
            x3 == m.r3c3 * a3,
    ;
    assert(1int * d == d) by (nonlinear_arith);
    assert(x0 * k + x1 * k + x2 * k + x3 * k == 1) by (nonlinear_arith)
        requires
            x0 + x1 + x2 + x3 == d,
            k == d,
            d == 1 || d == -1,
    ;
}

/// A matrix of integers whose determinant is one or minus one, times its inverse, is the
/// identity.
pub proof fn lemma_mat4_times_inverse(m: Mat4Model<int>)
    requires
        m.determinant() == 1 || m.determinant() == -1,
    ensures
        m.times(m.inverse()) == Mat4Model::<int>::identity(),
{
    lemma_mat4_times_inverse_r0c0(m);
    lemma_mat4_times_inverse_r0c1(m);
    lemma_mat4_times_inverse_r0c2(m);
    lemma_mat4_times_inverse_r0c3(m);
    lemma_mat4_times_inverse_r1c0(m);
    lemma_mat4_times_inverse_r1c1(m);
    lemma_mat4_times_inverse_r1c2(m);
    lemma_mat4_times_inverse_r1c3(m);
    lemma_mat4_times_inverse_r2c0(m);
    lemma_mat4_times_inverse_r2c1(m);
    lemma_mat4_times_inverse_r2c2(m);
    lemma_mat4_times_inverse_r2c3(m);
    lemma_mat4_times_inverse_r3c0(m);
    lemma_mat4_times_inverse_r3c1(m);
    lemma_mat4_times_inverse_r3c2(m);
    lemma_mat4_times_inverse_r3c3(m);
}

} // verus!
