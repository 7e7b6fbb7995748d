//! The inverse of a matrix, over the real numbers.
//!
//! A matrix whose determinant is not zero, times the inverse that the formula gives, is the
//! identity. An element type that rounds comes as close to this as its rounding lets it.
use super::real_mat3_adjugate::lemma_real_mat3_times_adjugate;
use super::real_mat4_adjugate::lemma_real_mat4_times_adjugate;
use crate::traits::Ring;
use crate::types::mat3::Mat3Model;
use crate::types::mat4::Mat4Model;
use vstd::prelude::*;

verus! {

proof fn lemma_real_mat3_times_inverse_r0c0(m: Mat3Model<real>)
    requires
        m.determinant() != 0real,
    ensures
        m.times(m.inverse()).r0c0 == Mat3Model::<real>::identity().r0c0,
{
    let d = m.determinant();
    let k = 1real / d;
    let a0 = m.adjugate().r0c0;
    let x0 = m.r0c0 * a0;
    let a1 = m.adjugate().r1c0;
    let x1 = m.r0c1 * a1;
    let a2 = m.adjugate().r2c0;
    let x2 = m.r0c2 * a2;
    lemma_real_mat3_times_adjugate(m);
    assert(m.times(m.adjugate()).r0c0 == Mat3Model::<real>::identity().times_each(d).r0c0);
    assert(m.r0c0 * (a0 * k) == x0 * k) by (nonlinear_arith)
        requires
            x0 == m.r0c0 * a0,
    ;
    assert(m.r0c1 * (a1 * k) == x1 * k) by (nonlinear_arith)
        requires
            x1 == m.r0c1 * a1,
    ;
    assert(m.r0c2 * (a2 * k) == x2 * k) by (nonlinear_arith)
        requires
            x2 == m.r0c2 * a2,
    ;
    assert(1real * d == d) by (nonlinear_arith);
    assert(d * k == 1real) by (nonlinear_arith)
        requires
            d != 0real,
            k == 1real / d,
    ;
    assert(x0 * k + x1 * k + x2 * k == (x0 + x1 + x2) * k) by (nonlinear_arith);
}

proof fn lemma_real_mat3_times_inverse_r0c1(m: Mat3Model<real>)
    requires
        m.determinant() != 0real,
    ensures
        m.times(m.inverse()).r0c1 == Mat3Model::<real>::identity().r0c1,
{
    let d = m.determinant();
    let k = 1real / d;
    let a0 = m.adjugate().r0c1;
    let x0 = m.r0c0 * a0;
    let a1 = m.adjugate().r1c1;
    let x1 = m.r0c1 * a1;
    let a2 = m.adjugate().r2c1;
    let x2 = m.r0c2 * a2;
    lemma_real_mat3_times_adjugate(m);
    assert(m.times(m.adjugate()).r0c1 == Mat3Model::<real>::identity().times_each(d).r0c1);
    assert(m.r0c0 * (a0 * k) == x0 * k) by (nonlinear_arith)
        requires
            x0 == m.r0c0 * a0,
    ;
    assert(m.r0c1 * (a1 * k) == x1 * k) by (nonlinear_arith)
        requires
            x1 == m.r0c1 * a1,
    ;
    assert(m.r0c2 * (a2 * k) == x2 * k) by (nonlinear_arith)
        requires
            x2 == m.r0c2 * a2,
    ;
    assert(0real * d == 0real) by (nonlinear_arith);
    assert(x0 * k + x1 * k + x2 * k == (x0 + x1 + x2) * k) by (nonlinear_arith);
    assert(0real * k == 0real) by (nonlinear_arith);
}

proof fn lemma_real_mat3_times_inverse_r0c2(m: Mat3Model<real>)
    requires
        m.determinant() != 0real,
    ensures
        m.times(m.inverse()).r0c2 == Mat3Model::<real>::identity().r0c2,
{
    let d = m.determinant();
    let k = 1real / d;
    let a0 = m.adjugate().r0c2;
    let x0 = m.r0c0 * a0;
    let a1 = m.adjugate().r1c2;
    let x1 = m.r0c1 * a1;
    let a2 = m.adjugate().r2c2;
    let x2 = m.r0c2 * a2;
    lemma_real_mat3_times_adjugate(m);
    assert(m.times(m.adjugate()).r0c2 == Mat3Model::<real>::identity().times_each(d).r0c2);
    assert(m.r0c0 * (a0 * k) == x0 * k) by (nonlinear_arith)
        requires
            x0 == m.r0c0 * a0,
    ;
    assert(m.r0c1 * (a1 * k) == x1 * k) by (nonlinear_arith)
        requires
            x1 == m.r0c1 * a1,
    ;
    assert(m.r0c2 * (a2 * k) == x2 * k) by (nonlinear_arith)
        requires
            x2 == m.r0c2 * a2,
    ;
    assert(0real * d == 0real) by (nonlinear_arith);
    assert(x0 * k + x1 * k + x2 * k == (x0 + x1 + x2) * k) by (nonlinear_arith);
    assert(0real * k == 0real) by (nonlinear_arith);
}

proof fn lemma_real_mat3_times_inverse_r1c0(m: Mat3Model<real>)
    requires
        m.determinant() != 0real,
    ensures
        m.times(m.inverse()).r1c0 == Mat3Model::<real>::identity().r1c0,
{
    let d = m.determinant();
    let k = 1real / d;
    let a0 = m.adjugate().r0c0;
    let x0 = m.r1c0 * a0;
    let a1 = m.adjugate().r1c0;
    let x1 = m.r1c1 * a1;
    let a2 = m.adjugate().r2c0;
    let x2 = m.r1c2 * a2;
    lemma_real_mat3_times_adjugate(m);
    assert(m.times(m.adjugate()).r1c0 == Mat3Model::<real>::identity().times_each(d).r1c0);
    assert(m.r1c0 * (a0 * k) == x0 * k) by (nonlinear_arith)
        requires
            x0 == m.r1c0 * a0,
    ;
    assert(m.r1c1 * (a1 * k) == x1 * k) by (nonlinear_arith)
        requires
            x1 == m.r1c1 * a1,
    ;
    assert(m.r1c2 * (a2 * k) == x2 * k) by (nonlinear_arith)
        requires
            x2 == m.r1c2 * a2,
    ;
    assert(0real * d == 0real) by (nonlinear_arith);
    assert(x0 * k + x1 * k + x2 * k == (x0 + x1 + x2) * k) by (nonlinear_arith);
    assert(0real * k == 0real) by (nonlinear_arith);
}

proof fn lemma_real_mat3_times_inverse_r1c1(m: Mat3Model<real>)
    requires
        m.determinant() != 0real,
    ensures
        m.times(m.inverse()).r1c1 == Mat3Model::<real>::identity().r1c1,
{
    let d = m.determinant();
    let k = 1real / d;
    let a0 = m.adjugate().r0c1;
    let x0 = m.r1c0 * a0;
    let a1 = m.adjugate().r1c1;
    let x1 = m.r1c1 * a1;
    let a2 = m.adjugate().r2c1;
    let x2 = m.r1c2 * a2;
    lemma_real_mat3_times_adjugate(m);
    assert(m.times(m.adjugate()).r1c1 == Mat3Model::<real>::identity().times_each(d).r1c1);
    assert(m.r1c0 * (a0 * k) == x0 * k) by (nonlinear_arith)
        requires
            x0 == m.r1c0 * a0,
    ;
    assert(m.r1c1 * (a1 * k) == x1 * k) by (nonlinear_arith)
        requires
            x1 == m.r1c1 * a1,
    ;
    assert(m.r1c2 * (a2 * k) == x2 * k) by (nonlinear_arith)
        requires
            x2 == m.r1c2 * a2,
    ;
    assert(1real * d == d) by (nonlinear_arith);
    assert(d * k == 1real) by (nonlinear_arith)
        requires
            d != 0real,
            k == 1real / d,
    ;
    assert(x0 * k + x1 * k + x2 * k == (x0 + x1 + x2) * k) by (nonlinear_arith);
}

proof fn lemma_real_mat3_times_inverse_r1c2(m: Mat3Model<real>)
    requires
        m.determinant() != 0real,
    ensures
        m.times(m.inverse()).r1c2 == Mat3Model::<real>::identity().r1c2,
{
    let d = m.determinant();
    let k = 1real / d;
    let a0 = m.adjugate().r0c2;
    let x0 = m.r1c0 * a0;
    let a1 = m.adjugate().r1c2;
    let x1 = m.r1c1 * a1;
    let a2 = m.adjugate().r2c2;
    let x2 = m.r1c2 * a2;
    lemma_real_mat3_times_adjugate(m);
    assert(m.times(m.adjugate()).r1c2 == Mat3Model::<real>::identity().times_each(d).r1c2);
    assert(m.r1c0 * (a0 * k) == x0 * k) by (nonlinear_arith)
        requires
            x0 == m.r1c0 * a0,
    ;
    assert(m.r1c1 * (a1 * k) == x1 * k) by (nonlinear_arith)
        requires
            x1 == m.r1c1 * a1,
    ;
    assert(m.r1c2 * (a2 * k) == x2 * k) by (nonlinear_arith)
        requires
            x2 == m.r1c2 * a2,
    ;
    assert(0real * d == 0real) by (nonlinear_arith);
    assert(x0 * k + x1 * k + x2 * k == (x0 + x1 + x2) * k) by (nonlinear_arith);
    assert(0real * k == 0real) by (nonlinear_arith);
}

proof fn lemma_real_mat3_times_inverse_r2c0(m: Mat3Model<real>)
    requires
        m.determinant() != 0real,
    ensures
        m.times(m.inverse()).r2c0 == Mat3Model::<real>::identity().r2c0,
{
    let d = m.determinant();
    let k = 1real / d;
    let a0 = m.adjugate().r0c0;
    let x0 = m.r2c0 * a0;
    let a1 = m.adjugate().r1c0;
    let x1 = m.r2c1 * a1;
    let a2 = m.adjugate().r2c0;
    let x2 = m.r2c2 * a2;
    lemma_real_mat3_times_adjugate(m);
    assert(m.times(m.adjugate()).r2c0 == Mat3Model::<real>::identity().times_each(d).r2c0);
    assert(m.r2c0 * (a0 * k) == x0 * k) by (nonlinear_arith)
        requires
            x0 == m.r2c0 * a0,
    ;
    assert(m.r2c1 * (a1 * k) == x1 * k) by (nonlinear_arith)
        requires
            x1 == m.r2c1 * a1,
    ;
    assert(m.r2c2 * (a2 * k) == x2 * k) by (nonlinear_arith)
        requires
            x2 == m.r2c2 * a2,
    ;
    assert(0real * d == 0real) by (nonlinear_arith);
    assert(x0 * k + x1 * k + x2 * k == (x0 + x1 + x2) * k) by (nonlinear_arith);
    assert(0real * k == 0real) by (nonlinear_arith);
}

proof fn lemma_real_mat3_times_inverse_r2c1(m: Mat3Model<real>)
    requires
        m.determinant() != 0real,
    ensures
        m.times(m.inverse()).r2c1 == Mat3Model::<real>::identity().r2c1,
{
    let d = m.determinant();
    let k = 1real / d;
    let a0 = m.adjugate().r0c1;
    let x0 = m.r2c0 * a0;
    let a1 = m.adjugate().r1c1;
    let x1 = m.r2c1 * a1;
    let a2 = m.adjugate().r2c1;
    let x2 = m.r2c2 * a2;
    lemma_real_mat3_times_adjugate(m);
    assert(m.times(m.adjugate()).r2c1 == Mat3Model::<real>::identity().times_each(d).r2c1);
    assert(m.r2c0 * (a0 * k) == x0 * k) by (nonlinear_arith)
        requires
            x0 == m.r2c0 * a0,
    ;
    assert(m.r2c1 * (a1 * k) == x1 * k) by (nonlinear_arith)
        requires
            x1 == m.r2c1 * a1,
    ;
    assert(m.r2c2 * (a2 * k) == x2 * k) by (nonlinear_arith)
        requires
            x2 == m.r2c2 * a2,
    ;
    assert(0real * d == 0real) by (nonlinear_arith);
    assert(x0 * k + x1 * k + x2 * k == (x0 + x1 + x2) * k) by (nonlinear_arith);
    assert(0real * k == 0real) by (nonlinear_arith);
}

proof fn lemma_real_mat3_times_inverse_r2c2(m: Mat3Model<real>)
    requires
        m.determinant() != 0real,
    ensures
        m.times(m.inverse()).r2c2 == Mat3Model::<real>::identity().r2c2,
{
    let d = m.determinant();
    let k = 1real / d;
    let a0 = m.adjugate().r0c2;
    let x0 = m.r2c0 * a0;
    let a1 = m.adjugate().r1c2;
    let x1 = m.r2c1 * a1;
    let a2 = m.adjugate().r2c2;
    let x2 = m.r2c2 * a2;
    lemma_real_mat3_times_adjugate(m);
    assert(m.times(m.adjugate()).r2c2 == Mat3Model::<real>::identity().times_each(d).r2c2);
    assert(m.r2c0 * (a0 * k) == x0 * k) by (nonlinear_arith)
        requires
            x0 == m.r2c0 * a0,
    ;
    assert(m.r2c1 * (a1 * k) == x1 * k) by (nonlinear_arith)
        requires
            x1 == m.r2c1 * a1,
    ;
    assert(m.r2c2 * (a2 * k) == x2 * k) by (nonlinear_arith)
        requires
            x2 == m.r2c2 * a2,
    ;
    assert(1real * d == d) by (nonlinear_arith);
    assert(d * k == 1real) by (nonlinear_arith)
        requires
            d != 0real,
            k == 1real / d,
    ;
    assert(x0 * k + x1 * k + x2 * k == (x0 + x1 + x2) * k) by (nonlinear_arith);
}

/// A matrix whose determinant is not zero, times its inverse, is the identity.
pub proof fn lemma_real_mat3_times_inverse(m: Mat3Model<real>)
    requires
        m.determinant() != 0real,
    ensures
        m.times(m.inverse()) == Mat3Model::<real>::identity(),
{
    lemma_real_mat3_times_inverse_r0c0(m);
    lemma_real_mat3_times_inverse_r0c1(m);
    lemma_real_mat3_times_inverse_r0c2(m);
    lemma_real_mat3_times_inverse_r1c0(m);
    lemma_real_mat3_times_inverse_r1c1(m);
    lemma_real_mat3_times_inverse_r1c2(m);
    lemma_real_mat3_times_inverse_r2c0(m);
    lemma_real_mat3_times_inverse_r2c1(m);
    lemma_real_mat3_times_inverse_r2c2(m);
}

proof fn lemma_real_mat4_times_inverse_r0c0(m: Mat4Model<real>)
    requires
        m.determinant() != 0real,
    ensures
        m.times(m.inverse()).r0c0 == Mat4Model::<real>::identity().r0c0,
{
    let d = m.determinant();
    let k = 1real / d;
    let a0 = m.adjugate().r0c0;
    let x0 = m.r0c0 * a0;
    let a1 = m.adjugate().r1c0;
    let x1 = m.r0c1 * a1;
    let a2 = m.adjugate().r2c0;
    let x2 = m.r0c2 * a2;
    let a3 = m.adjugate().r3c0;
    let x3 = m.r0c3 * a3;
    lemma_real_mat4_times_adjugate(m);
    assert(m.times(m.adjugate()).r0c0 == Mat4Model::<real>::identity().times_each(d).r0c0);
    assert(m.r0c0 * (a0 * k) == x0 * k) by (nonlinear_arith)
        requires
            x0 == m.r0c0 * a0,
    ;
    assert(m.r0c1 * (a1 * k) == x1 * k) by (nonlinear_arith)
        requires
            x1 == m.r0c1 * a1,
    ;
    assert(m.r0c2 * (a2 * k) == x2 * k) by (nonlinear_arith)
        requires
            x2 == m.r0c2 * a2,
    ;
    assert(m.r0c3 * (a3 * k) == x3 * k) by (nonlinear_arith)
        requires
            x3 == m.r0c3 * a3,
    ;
    assert(1real * d == d) by (nonlinear_arith);
    assert(d * k == 1real) by (nonlinear_arith)
        requires
            d != 0real,
            k == 1real / d,
    ;
    assert(x0 * k + x1 * k + x2 * k + x3 * k == (x0 + x1 + x2 + x3) * k) by (nonlinear_arith);
}

proof fn lemma_real_mat4_times_inverse_r0c1(m: Mat4Model<real>)
    requires
        m.determinant() != 0real,
    ensures
        m.times(m.inverse()).r0c1 == Mat4Model::<real>::identity().r0c1,
{
    let d = m.determinant();
    let k = 1real / d;
    let a0 = m.adjugate().r0c1;
    let x0 = m.r0c0 * a0;
    let a1 = m.adjugate().r1c1;
    let x1 = m.r0c1 * a1;
    let a2 = m.adjugate().r2c1;
    let x2 = m.r0c2 * a2;
    let a3 = m.adjugate().r3c1;
    let x3 = m.r0c3 * a3;
    lemma_real_mat4_times_adjugate(m);
    assert(m.times(m.adjugate()).r0c1 == Mat4Model::<real>::identity().times_each(d).r0c1);
    assert(m.r0c0 * (a0 * k) == x0 * k) by (nonlinear_arith)
        requires
            x0 == m.r0c0 * a0,
    ;
    assert(m.r0c1 * (a1 * k) == x1 * k) by (nonlinear_arith)
        requires
            x1 == m.r0c1 * a1,
    ;
    assert(m.r0c2 * (a2 * k) == x2 * k) by (nonlinear_arith)
        requires
            x2 == m.r0c2 * a2,
    ;
    assert(m.r0c3 * (a3 * k) == x3 * k) by (nonlinear_arith)
        requires
            x3 == m.r0c3 * a3,
    ;
    assert(0real * d == 0real) by (nonlinear_arith);
    assert(x0 * k + x1 * k + x2 * k + x3 * k == (x0 + x1 + x2 + x3) * k) by (nonlinear_arith);
    assert(0real * k == 0real) by (nonlinear_arith);
}

proof fn lemma_real_mat4_times_inverse_r0c2(m: Mat4Model<real>)
    requires
        m.determinant() != 0real,
    ensures
        m.times(m.inverse()).r0c2 == Mat4Model::<real>::identity().r0c2,
{
    let d = m.determinant();
    let k = 1real / d;
    let a0 = m.adjugate().r0c2;
    let x0 = m.r0c0 * a0;
    let a1 = m.adjugate().r1c2;
    let x1 = m.r0c1 * a1;
    let a2 = m.adjugate().r2c2;
    let x2 = m.r0c2 * a2;
    let a3 = m.adjugate().r3c2;
    let x3 = m.r0c3 * a3;
    lemma_real_mat4_times_adjugate(m);
    assert(m.times(m.adjugate()).r0c2 == Mat4Model::<real>::identity().times_each(d).r0c2);
    assert(m.r0c0 * (a0 * k) == x0 * k) by (nonlinear_arith)
        requires
            x0 == m.r0c0 * a0,
    ;
    assert(m.r0c1 * (a1 * k) == x1 * k) by (nonlinear_arith)
        requires
            x1 == m.r0c1 * a1,
    ;
    assert(m.r0c2 * (a2 * k) == x2 * k) by (nonlinear_arith)
        requires
            x2 == m.r0c2 * a2,
    ;
    assert(m.r0c3 * (a3 * k) == x3 * k) by (nonlinear_arith)
        requires
            x3 == m.r0c3 * a3,
    ;
    assert(0real * d == 0real) by (nonlinear_arith);
    assert(x0 * k + x1 * k + x2 * k + x3 * k == (x0 + x1 + x2 + x3) * k) by (nonlinear_arith);
    assert(0real * k == 0real) by (nonlinear_arith);
}

proof fn lemma_real_mat4_times_inverse_r0c3(m: Mat4Model<real>)
    requires
        m.determinant() != 0real,
    ensures
        m.times(m.inverse()).r0c3 == Mat4Model::<real>::identity().r0c3,
{
    let d = m.determinant();
    let k = 1real / d;
    let a0 = m.adjugate().r0c3;
    let x0 = m.r0c0 * a0;
    let a1 = m.adjugate().r1c3;
    let x1 = m.r0c1 * a1;
    let a2 = m.adjugate().r2c3;
    let x2 = m.r0c2 * a2;
    let a3 = m.adjugate().r3c3;
    let x3 = m.r0c3 * a3;
    lemma_real_mat4_times_adjugate(m);
    assert(m.times(m.adjugate()).r0c3 == Mat4Model::<real>::identity().times_each(d).r0c3);
    assert(m.r0c0 * (a0 * k) == x0 * k) by (nonlinear_arith)
        requires
            x0 == m.r0c0 * a0,
    ;
    assert(m.r0c1 * (a1 * k) == x1 * k) by (nonlinear_arith)
        requires
            x1 == m.r0c1 * a1,
    ;
    assert(m.r0c2 * (a2 * k) == x2 * k) by (nonlinear_arith)
        requires
            x2 == m.r0c2 * a2,
    ;
    assert(m.r0c3 * (a3 * k) == x3 * k) by (nonlinear_arith)
        requires
            x3 == m.r0c3 * a3,
    ;
    assert(0real * d == 0real) by (nonlinear_arith);
    assert(x0 * k + x1 * k + x2 * k + x3 * k == (x0 + x1 + x2 + x3) * k) by (nonlinear_arith);
    assert(0real * k == 0real) by (nonlinear_arith);
}

proof fn lemma_real_mat4_times_inverse_r1c0(m: Mat4Model<real>)
    requires
        m.determinant() != 0real,
    ensures
        m.times(m.inverse()).r1c0 == Mat4Model::<real>::identity().r1c0,
{
    let d = m.determinant();
    let k = 1real / d;
    let a0 = m.adjugate().r0c0;
    let x0 = m.r1c0 * a0;
    let a1 = m.adjugate().r1c0;
    let x1 = m.r1c1 * a1;
    let a2 = m.adjugate().r2c0;
    let x2 = m.r1c2 * a2;
    let a3 = m.adjugate().r3c0;
    let x3 = m.r1c3 * a3;
    lemma_real_mat4_times_adjugate(m);
    assert(m.times(m.adjugate()).r1c0 == Mat4Model::<real>::identity().times_each(d).r1c0);
    assert(m.r1c0 * (a0 * k) == x0 * k) by (nonlinear_arith)
        requires
            x0 == m.r1c0 * a0,
    ;
    assert(m.r1c1 * (a1 * k) == x1 * k) by (nonlinear_arith)
        requires
            x1 == m.r1c1 * a1,
    ;
    assert(m.r1c2 * (a2 * k) == x2 * k) by (nonlinear_arith)
        requires
            x2 == m.r1c2 * a2,
    ;
    assert(m.r1c3 * (a3 * k) == x3 * k) by (nonlinear_arith)
        requires
            x3 == m.r1c3 * a3,
    ;
    assert(0real * d == 0real) by (nonlinear_arith);
    assert(x0 * k + x1 * k + x2 * k + x3 * k == (x0 + x1 + x2 + x3) * k) by (nonlinear_arith);
    assert(0real * k == 0real) by (nonlinear_arith);
}

proof fn lemma_real_mat4_times_inverse_r1c1(m: Mat4Model<real>)
    requires
        m.determinant() != 0real,
    ensures
        m.times(m.inverse()).r1c1 == Mat4Model::<real>::identity().r1c1,
{
    let d = m.determinant();
    let k = 1real / d;
    let a0 = m.adjugate().r0c1;
    let x0 = m.r1c0 * a0;
    let a1 = m.adjugate().r1c1;
    let x1 = m.r1c1 * a1;
    let a2 = m.adjugate().r2c1;
    let x2 = m.r1c2 * a2;
    let a3 = m.adjugate().r3c1;
    let x3 = m.r1c3 * a3;
    lemma_real_mat4_times_adjugate(m);
    assert(m.times(m.adjugate()).r1c1 == Mat4Model::<real>::identity().times_each(d).r1c1);
    assert(m.r1c0 * (a0 * k) == x0 * k) by (nonlinear_arith)
        requires
            x0 == m.r1c0 * a0,
    ;
    assert(m.r1c1 * (a1 * k) == x1 * k) by (nonlinear_arith)
        requires
            x1 == m.r1c1 * a1,
    ;
    assert(m.r1c2 * (a2 * k) == x2 * k) by (nonlinear_arith)
        requires
            x2 == m.r1c2 * a2,
    ;
    assert(m.r1c3 * (a3 * k) == x3 * k) by (nonlinear_arith)
        requires
            x3 == m.r1c3 * a3,
    ;
    assert(1real * d == d) by (nonlinear_arith);
    assert(d * k == 1real) by (nonlinear_arith)
        requires
            d != 0real,
            k == 1real / d,
    ;
    assert(x0 * k + x1 * k + x2 * k + x3 * k == (x0 + x1 + x2 + x3) * k) by (nonlinear_arith);
}

proof fn lemma_real_mat4_times_inverse_r1c2(m: Mat4Model<real>)
    requires
        m.determinant() != 0real,
    ensures
        m.times(m.inverse()).r1c2 == Mat4Model::<real>::identity().r1c2,
{
    let d = m.determinant();
    let k = 1real / d;
    let a0 = m.adjugate().r0c2;
    let x0 = m.r1c0 * a0;
    let a1 = m.adjugate().r1c2;
    let x1 = m.r1c1 * a1;
    let a2 = m.adjugate().r2c2;
    let x2 = m.r1c2 * a2;
    let a3 = m.adjugate().r3c2;
    let x3 = m.r1c3 * a3;
    lemma_real_mat4_times_adjugate(m);
    assert(m.times(m.adjugate()).r1c2 == Mat4Model::<real>::identity().times_each(d).r1c2);
    assert(m.r1c0 * (a0 * k) == x0 * k) by (nonlinear_arith)
        requires
            x0 == m.r1c0 * a0,
    ;
    assert(m.r1c1 * (a1 * k) == x1 * k) by (nonlinear_arith)
        requires
            x1 == m.r1c1 * a1,
    ;
    assert(m.r1c2 * (a2 * k) == x2 * k) by (nonlinear_arith)
        requires
            x2 == m.r1c2 * a2,
    ;
    assert(m.r1c3 * (a3 * k) == x3 * k) by (nonlinear_arith)
        requires
            x3 == m.r1c3 * a3,
    ;
    assert(0real * d == 0real) by (nonlinear_arith);
    assert(x0 * k + x1 * k + x2 * k + x3 * k == (x0 + x1 + x2 + x3) * k) by (nonlinear_arith);
    assert(0real * k == 0real) by (nonlinear_arith);
}

proof fn lemma_real_mat4_times_inverse_r1c3(m: Mat4Model<real>)
    requires
        m.determinant() != 0real,
    ensures
        m.times(m.inverse()).r1c3 == Mat4Model::<real>::identity().r1c3,
{
    let d = m.determinant();
    let k = 1real / d;
    let a0 = m.adjugate().r0c3;
    let x0 = m.r1c0 * a0;
    let a1 = m.adjugate().r1c3;
    let x1 = m.r1c1 * a1;
    let a2 = m.adjugate().r2c3;
    let x2 = m.r1c2 * a2;
    let a3 = m.adjugate().r3c3;
    let x3 = m.r1c3 * a3;
    lemma_real_mat4_times_adjugate(m);
    assert(m.times(m.adjugate()).r1c3 == Mat4Model::<real>::identity().times_each(d).r1c3);
    assert(m.r1c0 * (a0 * k) == x0 * k) by (nonlinear_arith)
        requires
            x0 == m.r1c0 * a0,
    ;
    assert(m.r1c1 * (a1 * k) == x1 * k) by (nonlinear_arith)
        requires
            x1 == m.r1c1 * a1,
    ;
    assert(m.r1c2 * (a2 * k) == x2 * k) by (nonlinear_arith)
        requires
            x2 == m.r1c2 * a2,
    ;
    assert(m.r1c3 * (a3 * k) == x3 * k) by (nonlinear_arith)
        requires
            x3 == m.r1c3 * a3,
    ;
    assert(0real * d == 0real) by (nonlinear_arith);
    assert(x0 * k + x1 * k + x2 * k + x3 * k == (x0 + x1 + x2 + x3) * k) by (nonlinear_arith);
    assert(0real * k == 0real) by (nonlinear_arith);
}

proof fn lemma_real_mat4_times_inverse_r2c0(m: Mat4Model<real>)
    requires
        m.determinant() != 0real,
    ensures
        m.times(m.inverse()).r2c0 == Mat4Model::<real>::identity().r2c0,
{
    let d = m.determinant();
    let k = 1real / d;
    let a0 = m.adjugate().r0c0;
    let x0 = m.r2c0 * a0;
    let a1 = m.adjugate().r1c0;
    let x1 = m.r2c1 * a1;
    let a2 = m.adjugate().r2c0;
    let x2 = m.r2c2 * a2;
    let a3 = m.adjugate().r3c0;
    let x3 = m.r2c3 * a3;
    lemma_real_mat4_times_adjugate(m);
    assert(m.times(m.adjugate()).r2c0 == Mat4Model::<real>::identity().times_each(d).r2c0);
    assert(m.r2c0 * (a0 * k) == x0 * k) by (nonlinear_arith)
        requires
            x0 == m.r2c0 * a0,
    ;
    assert(m.r2c1 * (a1 * k) == x1 * k) by (nonlinear_arith)
        requires
            x1 == m.r2c1 * a1,
    ;
    assert(m.r2c2 * (a2 * k) == x2 * k) by (nonlinear_arith)
        requires
            x2 == m.r2c2 * a2,
    ;
    assert(m.r2c3 * (a3 * k) == x3 * k) by (nonlinear_arith)
        requires
            x3 == m.r2c3 * a3,
    ;
    assert(0real * d == 0real) by (nonlinear_arith);
    assert(x0 * k + x1 * k + x2 * k + x3 * k == (x0 + x1 + x2 + x3) * k) by (nonlinear_arith);
    assert(0real * k == 0real) by (nonlinear_arith);
}

proof fn lemma_real_mat4_times_inverse_r2c1(m: Mat4Model<real>)
    requires
        m.determinant() != 0real,
    ensures
        m.times(m.inverse()).r2c1 == Mat4Model::<real>::identity().r2c1,
{
    let d = m.determinant();
    let k = 1real / d;
    let a0 = m.adjugate().r0c1;
    let x0 = m.r2c0 * a0;
    let a1 = m.adjugate().r1c1;
    let x1 = m.r2c1 * a1;
    let a2 = m.adjugate().r2c1;
    let x2 = m.r2c2 * a2;
    let a3 = m.adjugate().r3c1;
    let x3 = m.r2c3 * a3;
    lemma_real_mat4_times_adjugate(m);
    assert(m.times(m.adjugate()).r2c1 == Mat4Model::<real>::identity().times_each(d).r2c1);
    assert(m.r2c0 * (a0 * k) == x0 * k) by (nonlinear_arith)
        requires
            x0 == m.r2c0 * a0,
    ;
    assert(m.r2c1 * (a1 * k) == x1 * k) by (nonlinear_arith)
        requires
            x1 == m.r2c1 * a1,
    ;
    assert(m.r2c2 * (a2 * k) == x2 * k) by (nonlinear_arith)
        requires
            x2 == m.r2c2 * a2,
    ;
    assert(m.r2c3 * (a3 * k) == x3 * k) by (nonlinear_arith)
        requires
            x3 == m.r2c3 * a3,
    ;
    assert(0real * d == 0real) by (nonlinear_arith);
    assert(x0 * k + x1 * k + x2 * k + x3 * k == (x0 + x1 + x2 + x3) * k) by (nonlinear_arith);
    assert(0real * k == 0real) by (nonlinear_arith);
}

proof fn lemma_real_mat4_times_inverse_r2c2(m: Mat4Model<real>)
    requires
        m.determinant() != 0real,
    ensures
        m.times(m.inverse()).r2c2 == Mat4Model::<real>::identity().r2c2,
{
    let d = m.determinant();
    let k = 1real / d;
    let a0 = m.adjugate().r0c2;
    let x0 = m.r2c0 * a0;
    let a1 = m.adjugate().r1c2;
    let x1 = m.r2c1 * a1;
    let a2 = m.adjugate().r2c2;
    let x2 = m.r2c2 * a2;
    let a3 = m.adjugate().r3c2;
    let x3 = m.r2c3 * a3;
    lemma_real_mat4_times_adjugate(m);
    assert(m.times(m.adjugate()).r2c2 == Mat4Model::<real>::identity().times_each(d).r2c2);
    assert(m.r2c0 * (a0 * k) == x0 * k) by (nonlinear_arith)
        requires
            x0 == m.r2c0 * a0,
    ;
    assert(m.r2c1 * (a1 * k) == x1 * k) by (nonlinear_arith)
        requires
            x1 == m.r2c1 * a1,
    ;
    assert(m.r2c2 * (a2 * k) == x2 * k) by (nonlinear_arith)
        requires
            x2 == m.r2c2 * a2,
    ;
    assert(m.r2c3 * (a3 * k) == x3 * k) by (nonlinear_arith)
        requires
            x3 == m.r2c3 * a3,
    ;
    assert(1real * d == d) by (nonlinear_arith);
    assert(d * k == 1real) by (nonlinear_arith)
        requires
            d != 0real,
            k == 1real / d,
    ;
    assert(x0 * k + x1 * k + x2 * k + x3 * k == (x0 + x1 + x2 + x3) * k) by (nonlinear_arith);
}

proof fn lemma_real_mat4_times_inverse_r2c3(m: Mat4Model<real>)
    requires
        m.determinant() != 0real,
    ensures
        m.times(m.inverse()).r2c3 == Mat4Model::<real>::identity().r2c3,
{
    let d = m.determinant();
    let k = 1real / d;
    let a0 = m.adjugate().r0c3;
    let x0 = m.r2c0 * a0;
    let a1 = m.adjugate().r1c3;
    let x1 = m.r2c1 * a1;
    let a2 = m.adjugate().r2c3;
    let x2 = m.r2c2 * a2;
    let a3 = m.adjugate().r3c3;
    let x3 = m.r2c3 * a3;
    lemma_real_mat4_times_adjugate(m);
    assert(m.times(m.adjugate()).r2c3 == Mat4Model::<real>::identity().times_each(d).r2c3);
    assert(m.r2c0 * (a0 * k) == x0 * k) by (nonlinear_arith)
        requires
            x0 == m.r2c0 * a0,
    ;
    assert(m.r2c1 * (a1 * k) == x1 * k) by (nonlinear_arith)
        requires
            x1 == m.r2c1 * a1,
    ;
    assert(m.r2c2 * (a2 * k) == x2 * k) by (nonlinear_arith)
        requires
            x2 == m.r2c2 * a2,
    ;
    assert(m.r2c3 * (a3 * k) == x3 * k) by (nonlinear_arith)
        requires
            x3 == m.r2c3 * a3,
    ;
    assert(0real * d == 0real) by (nonlinear_arith);
    assert(x0 * k + x1 * k + x2 * k + x3 * k == (x0 + x1 + x2 + x3) * k) by (nonlinear_arith);
    assert(0real * k == 0real) by (nonlinear_arith);
}

proof fn lemma_real_mat4_times_inverse_r3c0(m: Mat4Model<real>)
    requires
        m.determinant() != 0real,
    ensures
        m.times(m.inverse()).r3c0 == Mat4Model::<real>::identity().r3c0,
{
    let d = m.determinant();
    let k = 1real / d;
    let a0 = m.adjugate().r0c0;
    let x0 = m.r3c0 * a0;
    let a1 = m.adjugate().r1c0;
    let x1 = m.r3c1 * a1;
    let a2 = m.adjugate().r2c0;
    let x2 = m.r3c2 * a2;
    let a3 = m.adjugate().r3c0;
    let x3 = m.r3c3 * a3;
    lemma_real_mat4_times_adjugate(m);
    assert(m.times(m.adjugate()).r3c0 == Mat4Model::<real>::identity().times_each(d).r3c0);
    assert(m.r3c0 * (a0 * k) == x0 * k) by (nonlinear_arith)
        requires
            x0 == m.r3c0 * a0,
    ;
    assert(m.r3c1 * (a1 * k) == x1 * k) by (nonlinear_arith)
        requires
            x1 == m.r3c1 * a1,
    ;
    assert(m.r3c2 * (a2 * k) == x2 * k) by (nonlinear_arith)
        requires
            x2 == m.r3c2 * a2,
    ;
    assert(m.r3c3 * (a3 * k) == x3 * k) by (nonlinear_arith)
        requires
            x3 == m.r3c3 * a3,
    ;
    assert(0real * d == 0real) by (nonlinear_arith);
    assert(x0 * k + x1 * k + x2 * k + x3 * k == (x0 + x1 + x2 + x3) * k) by (nonlinear_arith);
    assert(0real * k == 0real) by (nonlinear_arith);
}

proof fn lemma_real_mat4_times_inverse_r3c1(m: Mat4Model<real>)
    requires
        m.determinant() != 0real,
    ensures
        m.times(m.inverse()).r3c1 == Mat4Model::<real>::identity().r3c1,
{
    let d = m.determinant();
    let k = 1real / d;
    let a0 = m.adjugate().r0c1;
    let x0 = m.r3c0 * a0;
    let a1 = m.adjugate().r1c1;
    let x1 = m.r3c1 * a1;
    let a2 = m.adjugate().r2c1;
    let x2 = m.r3c2 * a2;
    let a3 = m.adjugate().r3c1;
    let x3 = m.r3c3 * a3;
    lemma_real_mat4_times_adjugate(m);
    assert(m.times(m.adjugate()).r3c1 == Mat4Model::<real>::identity().times_each(d).r3c1);
    assert(m.r3c0 * (a0 * k) == x0 * k) by (nonlinear_arith)
        requires
            x0 == m.r3c0 * a0,
    ;
    assert(m.r3c1 * (a1 * k) == x1 * k) by (nonlinear_arith)
        requires
            x1 == m.r3c1 * a1,
    ;
    assert(m.r3c2 * (a2 * k) == x2 * k) by (nonlinear_arith)
        requires
            x2 == m.r3c2 * a2,
    ;
    assert(m.r3c3 * (a3 * k) == x3 * k) by (nonlinear_arith)
        requires
            x3 == m.r3c3 * a3,
    ;
    assert(0real * d == 0real) by (nonlinear_arith);
    assert(x0 * k + x1 * k + x2 * k + x3 * k == (x0 + x1 + x2 + x3) * k) by (nonlinear_arith);
    assert(0real * k == 0real) by (nonlinear_arith);
}

proof fn lemma_real_mat4_times_inverse_r3c2(m: Mat4Model<real>)
    requires
        m.determinant() != 0real,
    ensures
        m.times(m.inverse()).r3c2 == Mat4Model::<real>::identity().r3c2,
{
    let d = m.determinant();
    let k = 1real / d;
    let a0 = m.adjugate().r0c2;
    let x0 = m.r3c0 * a0;
    let a1 = m.adjugate().r1c2;
    let x1 = m.r3c1 * a1;
    let a2 = m.adjugate().r2c2;
    let x2 = m.r3c2 * a2;
    let a3 = m.adjugate().r3c2;
    let x3 = m.r3c3 * a3;
    lemma_real_mat4_times_adjugate(m);
    assert(m.times(m.adjugate()).r3c2 == Mat4Model::<real>::identity().times_each(d).r3c2);
    assert(m.r3c0 * (a0 * k) == x0 * k) by (nonlinear_arith)
        requires
            x0 == m.r3c0 * a0,
    ;
    assert(m.r3c1 * (a1 * k) == x1 * k) by (nonlinear_arith)
        requires
            x1 == m.r3c1 * a1,
    ;
    assert(m.r3c2 * (a2 * k) == x2 * k) by (nonlinear_arith)
        requires
            x2 == m.r3c2 * a2,
    ;
    assert(m.r3c3 * (a3 * k) == x3 * k) by (nonlinear_arith)
        requires
            x3 == m.r3c3 * a3,
    ;
    assert(0real * d == 0real) by (nonlinear_arith);
    assert(x0 * k + x1 * k + x2 * k + x3 * k == (x0 + x1 + x2 + x3) * k) by (nonlinear_arith);
    assert(0real * k == 0real) by (nonlinear_arith);
}

proof fn lemma_real_mat4_times_inverse_r3c3(m: Mat4Model<real>)
    requires
        m.determinant() != 0real,
    ensures
        m.times(m.inverse()).r3c3 == Mat4Model::<real>::identity().r3c3,
{
    let d = m.determinant();
    let k = 1real / d;
    let a0 = m.adjugate().r0c3;
    let x0 = m.r3c0 * a0;
    let a1 = m.adjugate().r1c3;
    let x1 = m.r3c1 * a1;
    let a2 = m.adjugate().r2c3;
    let x2 = m.r3c2 * a2;
    let a3 = m.adjugate().r3c3;
    let x3 = m.r3c3 * a3;
    lemma_real_mat4_times_adjugate(m);
    assert(m.times(m.adjugate()).r3c3 == Mat4Model::<real>::identity().times_each(d).r3c3);
    assert(m.r3c0 * (a0 * k) == x0 * k) by (nonlinear_arith)
        requires
            x0 == m.r3c0 * a0,
    ;
    assert(m.r3c1 * (a1 * k) == x1 * k) by (nonlinear_arith)
        requires
            x1 == m.r3c1 * a1,
    ;
    assert(m.r3c2 * (a2 * k) == x2 * k) by (nonlinear_arith)
        requires
            x2 == m.r3c2 * a2,
    ;
    assert(m.r3c3 * (a3 * k) == x3 * k) by (nonlinear_arith)
        requires
            x3 == m.r3c3 * a3,
    ;
    assert(1real * d == d) by (nonlinear_arith);
    assert(d * k == 1real) by (nonlinear_arith)
        requires
            d != 0real,
            k == 1real / d,
    ;
    assert(x0 * k + x1 * k + x2 * k + x3 * k == (x0 + x1 + x2 + x3) * k) by (nonlinear_arith);
}

/// A matrix whose determinant is not zero, times its inverse, is the identity.
pub proof fn lemma_real_mat4_times_inverse(m: Mat4Model<real>)
    requires
        m.determinant() != 0real,
    ensures
        m.times(m.inverse()) == Mat4Model::<real>::identity(),
{
    lemma_real_mat4_times_inverse_r0c0(m);
    lemma_real_mat4_times_inverse_r0c1(m);
    lemma_real_mat4_times_inverse_r0c2(m);
    lemma_real_mat4_times_inverse_r0c3(m);
    lemma_real_mat4_times_inverse_r1c0(m);
    lemma_real_mat4_times_inverse_r1c1(m);
    lemma_real_mat4_times_inverse_r1c2(m);
    lemma_real_mat4_times_inverse_r1c3(m);
    lemma_real_mat4_times_inverse_r2c0(m);
    lemma_real_mat4_times_inverse_r2c1(m);
    lemma_real_mat4_times_inverse_r2c2(m);
    lemma_real_mat4_times_inverse_r2c3(m);
    lemma_real_mat4_times_inverse_r3c0(m);
    lemma_real_mat4_times_inverse_r3c1(m);
    lemma_real_mat4_times_inverse_r3c2(m);
    lemma_real_mat4_times_inverse_r3c3(m);
}

} // verus!
