//! The adjugate of a matrix of four rows, over the real numbers.
use crate::traits::Ring;
use crate::types::mat4::Mat4Model;
use vstd::prelude::*;

verus! {

proof fn lemma_real_mat4_times_adjugate_r0c0(m: Mat4Model<real>)
    ensures
        m.times(m.adjugate()).r0c0 == Mat4Model::<real>::identity().times_each(m.determinant()).r0c0,
{
    assert((m.r0c0 * (((m.r1c1 * ((m.r2c2 * m.r3c3) - (m.r3c2 * m.r2c3))) - (m.r1c2 * ((m.r2c1 * m.r3c3) - (m.r3c1 * m.r2c3)))) + (m.r1c3 * ((m.r2c1 * m.r3c2) - (m.r3c1 * m.r2c2)))))
        == (m.r0c0 * (m.r1c1 * ((m.r2c2 * m.r3c3) - (m.r3c2 * m.r2c3)))) - (m.r0c0 * (m.r1c2 * ((m.r2c1 * m.r3c3) - (m.r3c1 * m.r2c3)))) + (m.r0c0 * (m.r1c3 * ((m.r2c1 * m.r3c2) - (m.r3c1 * m.r2c2))))) by (nonlinear_arith);
    assert((m.r0c0 * (m.r1c1 * ((m.r2c2 * m.r3c3) - (m.r3c2 * m.r2c3))))
        == (m.r0c0 * (m.r1c1 * (m.r2c2 * m.r3c3))) - (m.r0c0 * (m.r1c1 * (m.r3c2 * m.r2c3)))) by (nonlinear_arith);
    assert((m.r0c0 * (m.r1c1 * (m.r2c2 * m.r3c3)))
        == m.r0c0 * m.r1c1 * m.r2c2 * m.r3c3) by (nonlinear_arith);
    assert((m.r0c0 * (m.r1c1 * (m.r3c2 * m.r2c3)))
        == m.r0c0 * m.r1c1 * m.r2c3 * m.r3c2) by (nonlinear_arith);
    assert((m.r0c0 * (m.r1c2 * ((m.r2c1 * m.r3c3) - (m.r3c1 * m.r2c3))))
        == (m.r0c0 * (m.r1c2 * (m.r2c1 * m.r3c3))) - (m.r0c0 * (m.r1c2 * (m.r3c1 * m.r2c3)))) by (nonlinear_arith);
    assert((m.r0c0 * (m.r1c2 * (m.r2c1 * m.r3c3)))
        == m.r0c0 * m.r1c2 * m.r2c1 * m.r3c3) by (nonlinear_arith);
    assert((m.r0c0 * (m.r1c2 * (m.r3c1 * m.r2c3)))
        == m.r0c0 * m.r1c2 * m.r2c3 * m.r3c1) by (nonlinear_arith);
    assert((m.r0c0 * (m.r1c3 * ((m.r2c1 * m.r3c2) - (m.r3c1 * m.r2c2))))
        == (m.r0c0 * (m.r1c3 * (m.r2c1 * m.r3c2))) - (m.r0c0 * (m.r1c3 * (m.r3c1 * m.r2c2)))) by (nonlinear_arith);
    assert((m.r0c0 * (m.r1c3 * (m.r2c1 * m.r3c2)))
        == m.r0c0 * m.r1c3 * m.r2c1 * m.r3c2) by (nonlinear_arith);
    assert((m.r0c0 * (m.r1c3 * (m.r3c1 * m.r2c2)))
        == m.r0c0 * m.r1c3 * m.r2c2 * m.r3c1) by (nonlinear_arith);
    assert((m.r0c1 * ((((-m.r1c0) * ((m.r2c2 * m.r3c3) - (m.r3c2 * m.r2c3))) + (m.r1c2 * ((m.r2c0 * m.r3c3) - (m.r3c0 * m.r2c3)))) - (m.r1c3 * ((m.r2c0 * m.r3c2) - (m.r3c0 * m.r2c2)))))
        == (m.r0c1 * ((-m.r1c0) * ((m.r2c2 * m.r3c3) - (m.r3c2 * m.r2c3)))) + (m.r0c1 * (m.r1c2 * ((m.r2c0 * m.r3c3) - (m.r3c0 * m.r2c3)))) - (m.r0c1 * (m.r1c3 * ((m.r2c0 * m.r3c2) - (m.r3c0 * m.r2c2))))) by (nonlinear_arith);
    assert((m.r0c1 * ((-m.r1c0) * ((m.r2c2 * m.r3c3) - (m.r3c2 * m.r2c3))))
        == 0real - (m.r0c1 * (m.r1c0 * ((m.r2c2 * m.r3c3) - (m.r3c2 * m.r2c3))))) by (nonlinear_arith);
    assert((m.r0c1 * (m.r1c0 * ((m.r2c2 * m.r3c3) - (m.r3c2 * m.r2c3))))
        == (m.r0c1 * (m.r1c0 * (m.r2c2 * m.r3c3))) - (m.r0c1 * (m.r1c0 * (m.r3c2 * m.r2c3)))) by (nonlinear_arith);
    assert((m.r0c1 * (m.r1c0 * (m.r2c2 * m.r3c3)))
        == m.r0c1 * m.r1c0 * m.r2c2 * m.r3c3) by (nonlinear_arith);
    assert((m.r0c1 * (m.r1c0 * (m.r3c2 * m.r2c3)))
        == m.r0c1 * m.r1c0 * m.r2c3 * m.r3c2) by (nonlinear_arith);
    assert((m.r0c1 * (m.r1c2 * ((m.r2c0 * m.r3c3) - (m.r3c0 * m.r2c3))))
        == (m.r0c1 * (m.r1c2 * (m.r2c0 * m.r3c3))) - (m.r0c1 * (m.r1c2 * (m.r3c0 * m.r2c3)))) by (nonlinear_arith);
    assert((m.r0c1 * (m.r1c2 * (m.r2c0 * m.r3c3)))
        == m.r0c1 * m.r1c2 * m.r2c0 * m.r3c3) by (nonlinear_arith);
    assert((m.r0c1 * (m.r1c2 * (m.r3c0 * m.r2c3)))
        == m.r0c1 * m.r1c2 * m.r2c3 * m.r3c0) by (nonlinear_arith);
    assert((m.r0c1 * (m.r1c3 * ((m.r2c0 * m.r3c2) - (m.r3c0 * m.r2c2))))
        == (m.r0c1 * (m.r1c3 * (m.r2c0 * m.r3c2))) - (m.r0c1 * (m.r1c3 * (m.r3c0 * m.r2c2)))) by (nonlinear_arith);
    assert((m.r0c1 * (m.r1c3 * (m.r2c0 * m.r3c2)))
        == m.r0c1 * m.r1c3 * m.r2c0 * m.r3c2) by (nonlinear_arith);
    assert((m.r0c1 * (m.r1c3 * (m.r3c0 * m.r2c2)))
        == m.r0c1 * m.r1c3 * m.r2c2 * m.r3c0) by (nonlinear_arith);
    assert((m.r0c2 * (((m.r1c0 * ((m.r2c1 * m.r3c3) - (m.r3c1 * m.r2c3))) - (m.r1c1 * ((m.r2c0 * m.r3c3) - (m.r3c0 * m.r2c3)))) + (m.r1c3 * ((m.r2c0 * m.r3c1) - (m.r3c0 * m.r2c1)))))
        == (m.r0c2 * (m.r1c0 * ((m.r2c1 * m.r3c3) - (m.r3c1 * m.r2c3)))) - (m.r0c2 * (m.r1c1 * ((m.r2c0 * m.r3c3) - (m.r3c0 * m.r2c3)))) + (m.r0c2 * (m.r1c3 * ((m.r2c0 * m.r3c1) - (m.r3c0 * m.r2c1))))) by (nonlinear_arith);
    assert((m.r0c2 * (m.r1c0 * ((m.r2c1 * m.r3c3) - (m.r3c1 * m.r2c3))))
        == (m.r0c2 * (m.r1c0 * (m.r2c1 * m.r3c3))) - (m.r0c2 * (m.r1c0 * (m.r3c1 * m.r2c3)))) by (nonlinear_arith);
    assert((m.r0c2 * (m.r1c0 * (m.r2c1 * m.r3c3)))
        == m.r0c2 * m.r1c0 * m.r2c1 * m.r3c3) by (nonlinear_arith);
    assert((m.r0c2 * (m.r1c0 * (m.r3c1 * m.r2c3)))
        == m.r0c2 * m.r1c0 * m.r2c3 * m.r3c1) by (nonlinear_arith);
    assert((m.r0c2 * (m.r1c1 * ((m.r2c0 * m.r3c3) - (m.r3c0 * m.r2c3))))
        == (m.r0c2 * (m.r1c1 * (m.r2c0 * m.r3c3))) - (m.r0c2 * (m.r1c1 * (m.r3c0 * m.r2c3)))) by (nonlinear_arith);
    assert((m.r0c2 * (m.r1c1 * (m.r2c0 * m.r3c3)))
        == m.r0c2 * m.r1c1 * m.r2c0 * m.r3c3) by (nonlinear_arith);
    assert((m.r0c2 * (m.r1c1 * (m.r3c0 * m.r2c3)))
        == m.r0c2 * m.r1c1 * m.r2c3 * m.r3c0) by (nonlinear_arith);
    assert((m.r0c2 * (m.r1c3 * ((m.r2c0 * m.r3c1) - (m.r3c0 * m.r2c1))))
        == (m.r0c2 * (m.r1c3 * (m.r2c0 * m.r3c1))) - (m.r0c2 * (m.r1c3 * (m.r3c0 * m.r2c1)))) by (nonlinear_arith);
    assert((m.r0c2 * (m.r1c3 * (m.r2c0 * m.r3c1)))
        == m.r0c2 * m.r1c3 * m.r2c0 * m.r3c1) by (nonlinear_arith);
    assert((m.r0c2 * (m.r1c3 * (m.r3c0 * m.r2c1)))
        == m.r0c2 * m.r1c3 * m.r2c1 * m.r3c0) by (nonlinear_arith);
    assert((m.r0c3 * ((((-m.r1c0) * ((m.r2c1 * m.r3c2) - (m.r3c1 * m.r2c2))) + (m.r1c1 * ((m.r2c0 * m.r3c2) - (m.r3c0 * m.r2c2)))) - (m.r1c2 * ((m.r2c0 * m.r3c1) - (m.r3c0 * m.r2c1)))))
        == (m.r0c3 * ((-m.r1c0) * ((m.r2c1 * m.r3c2) - (m.r3c1 * m.r2c2)))) + (m.r0c3 * (m.r1c1 * ((m.r2c0 * m.r3c2) - (m.r3c0 * m.r2c2)))) - (m.r0c3 * (m.r1c2 * ((m.r2c0 * m.r3c1) - (m.r3c0 * m.r2c1))))) by (nonlinear_arith);
    assert((m.r0c3 * ((-m.r1c0) * ((m.r2c1 * m.r3c2) - (m.r3c1 * m.r2c2))))
        == 0real - (m.r0c3 * (m.r1c0 * ((m.r2c1 * m.r3c2) - (m.r3c1 * m.r2c2))))) by (nonlinear_arith);
    assert((m.r0c3 * (m.r1c0 * ((m.r2c1 * m.r3c2) - (m.r3c1 * m.r2c2))))
        == (m.r0c3 * (m.r1c0 * (m.r2c1 * m.r3c2))) - (m.r0c3 * (m.r1c0 * (m.r3c1 * m.r2c2)))) by (nonlinear_arith);
    assert((m.r0c3 * (m.r1c0 * (m.r2c1 * m.r3c2)))
        == m.r0c3 * m.r1c0 * m.r2c1 * m.r3c2) by (nonlinear_arith);
    assert((m.r0c3 * (m.r1c0 * (m.r3c1 * m.r2c2)))
        == m.r0c3 * m.r1c0 * m.r2c2 * m.r3c1) by (nonlinear_arith);
    assert((m.r0c3 * (m.r1c1 * ((m.r2c0 * m.r3c2) - (m.r3c0 * m.r2c2))))
        == (m.r0c3 * (m.r1c1 * (m.r2c0 * m.r3c2))) - (m.r0c3 * (m.r1c1 * (m.r3c0 * m.r2c2)))) by (nonlinear_arith);
    assert((m.r0c3 * (m.r1c1 * (m.r2c0 * m.r3c2)))
        == m.r0c3 * m.r1c1 * m.r2c0 * m.r3c2) by (nonlinear_arith);
    assert((m.r0c3 * (m.r1c1 * (m.r3c0 * m.r2c2)))
        == m.r0c3 * m.r1c1 * m.r2c2 * m.r3c0) by (nonlinear_arith);
    assert((m.r0c3 * (m.r1c2 * ((m.r2c0 * m.r3c1) - (m.r3c0 * m.r2c1))))
        == (m.r0c3 * (m.r1c2 * (m.r2c0 * m.r3c1))) - (m.r0c3 * (m.r1c2 * (m.r3c0 * m.r2c1)))) by (nonlinear_arith);
    assert((m.r0c3 * (m.r1c2 * (m.r2c0 * m.r3c1)))
        == m.r0c3 * m.r1c2 * m.r2c0 * m.r3c1) by (nonlinear_arith);
    assert((m.r0c3 * (m.r1c2 * (m.r3c0 * m.r2c1)))
        == m.r0c3 * m.r1c2 * m.r2c1 * m.r3c0) by (nonlinear_arith);
    assert((1real * ((((((m.r0c0 * m.r1c1) - (m.r1c0 * m.r0c1)) * ((m.r2c2 * m.r3c3) - (m.r3c2 * m.r2c3))) - (((m.r0c0 * m.r1c2) - (m.r1c0 * m.r0c2)) * ((m.r2c1 * m.r3c3) - (m.r3c1 * m.r2c3)))) + (((m.r0c0 * m.r1c3) - (m.r1c0 * m.r0c3)) * ((m.r2c1 * m.r3c2) - (m.r3c1 * m.r2c2)))) + (((((m.r0c1 * m.r1c2) - (m.r1c1 * m.r0c2)) * ((m.r2c0 * m.r3c3) - (m.r3c0 * m.r2c3))) - (((m.r0c1 * m.r1c3) - (m.r1c1 * m.r0c3)) * ((m.r2c0 * m.r3c2) - (m.r3c0 * m.r2c2)))) + (((m.r0c2 * m.r1c3) - (m.r1c2 * m.r0c3)) * ((m.r2c0 * m.r3c1) - (m.r3c0 * m.r2c1))))))
        == (1real * (((m.r0c0 * m.r1c1) - (m.r1c0 * m.r0c1)) * ((m.r2c2 * m.r3c3) - (m.r3c2 * m.r2c3)))) - (1real * (((m.r0c0 * m.r1c2) - (m.r1c0 * m.r0c2)) * ((m.r2c1 * m.r3c3) - (m.r3c1 * m.r2c3)))) + (1real * (((m.r0c0 * m.r1c3) - (m.r1c0 * m.r0c3)) * ((m.r2c1 * m.r3c2) - (m.r3c1 * m.r2c2)))) + (1real * (((m.r0c1 * m.r1c2) - (m.r1c1 * m.r0c2)) * ((m.r2c0 * m.r3c3) - (m.r3c0 * m.r2c3)))) - (1real * (((m.r0c1 * m.r1c3) - (m.r1c1 * m.r0c3)) * ((m.r2c0 * m.r3c2) - (m.r3c0 * m.r2c2)))) + (1real * (((m.r0c2 * m.r1c3) - (m.r1c2 * m.r0c3)) * ((m.r2c0 * m.r3c1) - (m.r3c0 * m.r2c1))))) by (nonlinear_arith);
    assert((1real * (((m.r0c0 * m.r1c1) - (m.r1c0 * m.r0c1)) * ((m.r2c2 * m.r3c3) - (m.r3c2 * m.r2c3))))
        == (1real * ((m.r0c0 * m.r1c1) * ((m.r2c2 * m.r3c3) - (m.r3c2 * m.r2c3)))) - (1real * ((m.r1c0 * m.r0c1) * ((m.r2c2 * m.r3c3) - (m.r3c2 * m.r2c3))))) by (nonlinear_arith);
    assert((1real * ((m.r0c0 * m.r1c1) * ((m.r2c2 * m.r3c3) - (m.r3c2 * m.r2c3))))
        == (1real * ((m.r0c0 * m.r1c1) * (m.r2c2 * m.r3c3))) - (1real * ((m.r0c0 * m.r1c1) * (m.r3c2 * m.r2c3)))) by (nonlinear_arith);
    assert((1real * ((m.r0c0 * m.r1c1) * (m.r2c2 * m.r3c3)))
        == m.r0c0 * m.r1c1 * m.r2c2 * m.r3c3) by (nonlinear_arith);
    assert((1real * ((m.r0c0 * m.r1c1) * (m.r3c2 * m.r2c3)))
        == m.r0c0 * m.r1c1 * m.r2c3 * m.r3c2) by (nonlinear_arith);
    assert((1real * ((m.r1c0 * m.r0c1) * ((m.r2c2 * m.r3c3) - (m.r3c2 * m.r2c3))))
        == (1real * ((m.r1c0 * m.r0c1) * (m.r2c2 * m.r3c3))) - (1real * ((m.r1c0 * m.r0c1) * (m.r3c2 * m.r2c3)))) by (nonlinear_arith);
    assert((1real * ((m.r1c0 * m.r0c1) * (m.r2c2 * m.r3c3)))
        == m.r0c1 * m.r1c0 * m.r2c2 * m.r3c3) by (nonlinear_arith);
    assert((1real * ((m.r1c0 * m.r0c1) * (m.r3c2 * m.r2c3)))
        == m.r0c1 * m.r1c0 * m.r2c3 * m.r3c2) by (nonlinear_arith);
    assert((1real * (((m.r0c0 * m.r1c2) - (m.r1c0 * m.r0c2)) * ((m.r2c1 * m.r3c3) - (m.r3c1 * m.r2c3))))
        == (1real * ((m.r0c0 * m.r1c2) * ((m.r2c1 * m.r3c3) - (m.r3c1 * m.r2c3)))) - (1real * ((m.r1c0 * m.r0c2) * ((m.r2c1 * m.r3c3) - (m.r3c1 * m.r2c3))))) by (nonlinear_arith);
    assert((1real * ((m.r0c0 * m.r1c2) * ((m.r2c1 * m.r3c3) - (m.r3c1 * m.r2c3))))
        == (1real * ((m.r0c0 * m.r1c2) * (m.r2c1 * m.r3c3))) - (1real * ((m.r0c0 * m.r1c2) * (m.r3c1 * m.r2c3)))) by (nonlinear_arith);
    assert((1real * ((m.r0c0 * m.r1c2) * (m.r2c1 * m.r3c3)))
        == m.r0c0 * m.r1c2 * m.r2c1 * m.r3c3) by (nonlinear_arith);
    assert((1real * ((m.r0c0 * m.r1c2) * (m.r3c1 * m.r2c3)))
        == m.r0c0 * m.r1c2 * m.r2c3 * m.r3c1) by (nonlinear_arith);
    assert((1real * ((m.r1c0 * m.r0c2) * ((m.r2c1 * m.r3c3) - (m.r3c1 * m.r2c3))))
        == (1real * ((m.r1c0 * m.r0c2) * (m.r2c1 * m.r3c3))) - (1real * ((m.r1c0 * m.r0c2) * (m.r3c1 * m.r2c3)))) by (nonlinear_arith);
    assert((1real * ((m.r1c0 * m.r0c2) * (m.r2c1 * m.r3c3)))
        == m.r0c2 * m.r1c0 * m.r2c1 * m.r3c3) by (nonlinear_arith);
    assert((1real * ((m.r1c0 * m.r0c2) * (m.r3c1 * m.r2c3)))
        == m.r0c2 * m.r1c0 * m.r2c3 * m.r3c1) by (nonlinear_arith);
    assert((1real * (((m.r0c0 * m.r1c3) - (m.r1c0 * m.r0c3)) * ((m.r2c1 * m.r3c2) - (m.r3c1 * m.r2c2))))
        == (1real * ((m.r0c0 * m.r1c3) * ((m.r2c1 * m.r3c2) - (m.r3c1 * m.r2c2)))) - (1real * ((m.r1c0 * m.r0c3) * ((m.r2c1 * m.r3c2) - (m.r3c1 * m.r2c2))))) by (nonlinear_arith);
    assert((1real * ((m.r0c0 * m.r1c3) * ((m.r2c1 * m.r3c2) - (m.r3c1 * m.r2c2))))
        == (1real * ((m.r0c0 * m.r1c3) * (m.r2c1 * m.r3c2))) - (1real * ((m.r0c0 * m.r1c3) * (m.r3c1 * m.r2c2)))) by (nonlinear_arith);
    assert((1real * ((m.r0c0 * m.r1c3) * (m.r2c1 * m.r3c2)))
        == m.r0c0 * m.r1c3 * m.r2c1 * m.r3c2) by (nonlinear_arith);
    assert((1real * ((m.r0c0 * m.r1c3) * (m.r3c1 * m.r2c2)))
        == m.r0c0 * m.r1c3 * m.r2c2 * m.r3c1) by (nonlinear_arith);
    assert((1real * ((m.r1c0 * m.r0c3) * ((m.r2c1 * m.r3c2) - (m.r3c1 * m.r2c2))))
        == (1real * ((m.r1c0 * m.r0c3) * (m.r2c1 * m.r3c2))) - (1real * ((m.r1c0 * m.r0c3) * (m.r3c1 * m.r2c2)))) by (nonlinear_arith);
    assert((1real * ((m.r1c0 * m.r0c3) * (m.r2c1 * m.r3c2)))
        == m.r0c3 * m.r1c0 * m.r2c1 * m.r3c2) by (nonlinear_arith);
    assert((1real * ((m.r1c0 * m.r0c3) * (m.r3c1 * m.r2c2)))
        == m.r0c3 * m.r1c0 * m.r2c2 * m.r3c1) by (nonlinear_arith);
    assert((1real * (((m.r0c1 * m.r1c2) - (m.r1c1 * m.r0c2)) * ((m.r2c0 * m.r3c3) - (m.r3c0 * m.r2c3))))
        == (1real * ((m.r0c1 * m.r1c2) * ((m.r2c0 * m.r3c3) - (m.r3c0 * m.r2c3)))) - (1real * ((m.r1c1 * m.r0c2) * ((m.r2c0 * m.r3c3) - (m.r3c0 * m.r2c3))))) by (nonlinear_arith);
    assert((1real * ((m.r0c1 * m.r1c2) * ((m.r2c0 * m.r3c3) - (m.r3c0 * m.r2c3))))
        == (1real * ((m.r0c1 * m.r1c2) * (m.r2c0 * m.r3c3))) - (1real * ((m.r0c1 * m.r1c2) * (m.r3c0 * m.r2c3)))) by (nonlinear_arith);
    assert((1real * ((m.r0c1 * m.r1c2) * (m.r2c0 * m.r3c3)))
        == m.r0c1 * m.r1c2 * m.r2c0 * m.r3c3) by (nonlinear_arith);
    assert((1real * ((m.r0c1 * m.r1c2) * (m.r3c0 * m.r2c3)))
        == m.r0c1 * m.r1c2 * m.r2c3 * m.r3c0) by (nonlinear_arith);
    assert((1real * ((m.r1c1 * m.r0c2) * ((m.r2c0 * m.r3c3) - (m.r3c0 * m.r2c3))))
        == (1real * ((m.r1c1 * m.r0c2) * (m.r2c0 * m.r3c3))) - (1real * ((m.r1c1 * m.r0c2) * (m.r3c0 * m.r2c3)))) by (nonlinear_arith);
    assert((1real * ((m.r1c1 * m.r0c2) * (m.r2c0 * m.r3c3)))
        == m.r0c2 * m.r1c1 * m.r2c0 * m.r3c3) by (nonlinear_arith);
    assert((1real * ((m.r1c1 * m.r0c2) * (m.r3c0 * m.r2c3)))
        == m.r0c2 * m.r1c1 * m.r2c3 * m.r3c0) by (nonlinear_arith);
    assert((1real * (((m.r0c1 * m.r1c3) - (m.r1c1 * m.r0c3)) * ((m.r2c0 * m.r3c2) - (m.r3c0 * m.r2c2))))
        == (1real * ((m.r0c1 * m.r1c3) * ((m.r2c0 * m.r3c2) - (m.r3c0 * m.r2c2)))) - (1real * ((m.r1c1 * m.r0c3) * ((m.r2c0 * m.r3c2) - (m.r3c0 * m.r2c2))))) by (nonlinear_arith);
    assert((1real * ((m.r0c1 * m.r1c3) * ((m.r2c0 * m.r3c2) - (m.r3c0 * m.r2c2))))
        == (1real * ((m.r0c1 * m.r1c3) * (m.r2c0 * m.r3c2))) - (1real * ((m.r0c1 * m.r1c3) * (m.r3c0 * m.r2c2)))) by (nonlinear_arith);
    assert((1real * ((m.r0c1 * m.r1c3) * (m.r2c0 * m.r3c2)))
        == m.r0c1 * m.r1c3 * m.r2c0 * m.r3c2) by (nonlinear_arith);
    assert((1real * ((m.r0c1 * m.r1c3) * (m.r3c0 * m.r2c2)))
        == m.r0c1 * m.r1c3 * m.r2c2 * m.r3c0) by (nonlinear_arith);
    assert((1real * ((m.r1c1 * m.r0c3) * ((m.r2c0 * m.r3c2) - (m.r3c0 * m.r2c2))))
        == (1real * ((m.r1c1 * m.r0c3) * (m.r2c0 * m.r3c2))) - (1real * ((m.r1c1 * m.r0c3) * (m.r3c0 * m.r2c2)))) by (nonlinear_arith);
    assert((1real * ((m.r1c1 * m.r0c3) * (m.r2c0 * m.r3c2)))
        == m.r0c3 * m.r1c1 * m.r2c0 * m.r3c2) by (nonlinear_arith);
    assert((1real * ((m.r1c1 * m.r0c3) * (m.r3c0 * m.r2c2)))
        == m.r0c3 * m.r1c1 * m.r2c2 * m.r3c0) by (nonlinear_arith);
    assert((1real * (((m.r0c2 * m.r1c3) - (m.r1c2 * m.r0c3)) * ((m.r2c0 * m.r3c1) - (m.r3c0 * m.r2c1))))
        == (1real * ((m.r0c2 * m.r1c3) * ((m.r2c0 * m.r3c1) - (m.r3c0 * m.r2c1)))) - (1real * ((m.r1c2 * m.r0c3) * ((m.r2c0 * m.r3c1) - (m.r3c0 * m.r2c1))))) by (nonlinear_arith);
    assert((1real * ((m.r0c2 * m.r1c3) * ((m.r2c0 * m.r3c1) - (m.r3c0 * m.r2c1))))
        == (1real * ((m.r0c2 * m.r1c3) * (m.r2c0 * m.r3c1))) - (1real * ((m.r0c2 * m.r1c3) * (m.r3c0 * m.r2c1)))) by (nonlinear_arith);
    assert((1real * ((m.r0c2 * m.r1c3) * (m.r2c0 * m.r3c1)))
        == m.r0c2 * m.r1c3 * m.r2c0 * m.r3c1) by (nonlinear_arith);
    assert((1real * ((m.r0c2 * m.r1c3) * (m.r3c0 * m.r2c1)))
        == m.r0c2 * m.r1c3 * m.r2c1 * m.r3c0) by (nonlinear_arith);
    assert((1real * ((m.r1c2 * m.r0c3) * ((m.r2c0 * m.r3c1) - (m.r3c0 * m.r2c1))))
        == (1real * ((m.r1c2 * m.r0c3) * (m.r2c0 * m.r3c1))) - (1real * ((m.r1c2 * m.r0c3) * (m.r3c0 * m.r2c1)))) by (nonlinear_arith);
    assert((1real * ((m.r1c2 * m.r0c3) * (m.r2c0 * m.r3c1)))
        == m.r0c3 * m.r1c2 * m.r2c0 * m.r3c1) by (nonlinear_arith);
    assert((1real * ((m.r1c2 * m.r0c3) * (m.r3c0 * m.r2c1)))
        == m.r0c3 * m.r1c2 * m.r2c1 * m.r3c0) by (nonlinear_arith);
}

proof fn lemma_real_mat4_times_adjugate_r0c1(m: Mat4Model<real>)
    ensures
        m.times(m.adjugate()).r0c1 == Mat4Model::<real>::identity().times_each(m.determinant()).r0c1,
{
    assert((m.r0c0 * ((((-m.r0c1) * ((m.r2c2 * m.r3c3) - (m.r3c2 * m.r2c3))) + (m.r0c2 * ((m.r2c1 * m.r3c3) - (m.r3c1 * m.r2c3)))) - (m.r0c3 * ((m.r2c1 * m.r3c2) - (m.r3c1 * m.r2c2)))))
        == (m.r0c0 * ((-m.r0c1) * ((m.r2c2 * m.r3c3) - (m.r3c2 * m.r2c3)))) + (m.r0c0 * (m.r0c2 * ((m.r2c1 * m.r3c3) - (m.r3c1 * m.r2c3)))) - (m.r0c0 * (m.r0c3 * ((m.r2c1 * m.r3c2) - (m.r3c1 * m.r2c2))))) by (nonlinear_arith);
    assert((m.r0c0 * ((-m.r0c1) * ((m.r2c2 * m.r3c3) - (m.r3c2 * m.r2c3))))
        == 0real - (m.r0c0 * (m.r0c1 * ((m.r2c2 * m.r3c3) - (m.r3c2 * m.r2c3))))) by (nonlinear_arith);
    assert((m.r0c0 * (m.r0c1 * ((m.r2c2 * m.r3c3) - (m.r3c2 * m.r2c3))))
        == (m.r0c0 * (m.r0c1 * (m.r2c2 * m.r3c3))) - (m.r0c0 * (m.r0c1 * (m.r3c2 * m.r2c3)))) by (nonlinear_arith);
    assert((m.r0c0 * (m.r0c1 * (m.r2c2 * m.r3c3)))
        == m.r0c0 * m.r0c1 * m.r2c2 * m.r3c3) by (nonlinear_arith);
    assert((m.r0c0 * (m.r0c1 * (m.r3c2 * m.r2c3)))
        == m.r0c0 * m.r0c1 * m.r2c3 * m.r3c2) by (nonlinear_arith);
    assert((m.r0c0 * (m.r0c2 * ((m.r2c1 * m.r3c3) - (m.r3c1 * m.r2c3))))
        == (m.r0c0 * (m.r0c2 * (m.r2c1 * m.r3c3))) - (m.r0c0 * (m.r0c2 * (m.r3c1 * m.r2c3)))) by (nonlinear_arith);
    assert((m.r0c0 * (m.r0c2 * (m.r2c1 * m.r3c3)))
        == m.r0c0 * m.r0c2 * m.r2c1 * m.r3c3) by (nonlinear_arith);
    assert((m.r0c0 * (m.r0c2 * (m.r3c1 * m.r2c3)))
        == m.r0c0 * m.r0c2 * m.r2c3 * m.r3c1) by (nonlinear_arith);
    assert((m.r0c0 * (m.r0c3 * ((m.r2c1 * m.r3c2) - (m.r3c1 * m.r2c2))))
        == (m.r0c0 * (m.r0c3 * (m.r2c1 * m.r3c2))) - (m.r0c0 * (m.r0c3 * (m.r3c1 * m.r2c2)))) by (nonlinear_arith);
    assert((m.r0c0 * (m.r0c3 * (m.r2c1 * m.r3c2)))
        == m.r0c0 * m.r0c3 * m.r2c1 * m.r3c2) by (nonlinear_arith);
    assert((m.r0c0 * (m.r0c3 * (m.r3c1 * m.r2c2)))
        == m.r0c0 * m.r0c3 * m.r2c2 * m.r3c1) by (nonlinear_arith);
    assert((m.r0c1 * (((m.r0c0 * ((m.r2c2 * m.r3c3) - (m.r3c2 * m.r2c3))) - (m.r0c2 * ((m.r2c0 * m.r3c3) - (m.r3c0 * m.r2c3)))) + (m.r0c3 * ((m.r2c0 * m.r3c2) - (m.r3c0 * m.r2c2)))))
        == (m.r0c1 * (m.r0c0 * ((m.r2c2 * m.r3c3) - (m.r3c2 * m.r2c3)))) - (m.r0c1 * (m.r0c2 * ((m.r2c0 * m.r3c3) - (m.r3c0 * m.r2c3)))) + (m.r0c1 * (m.r0c3 * ((m.r2c0 * m.r3c2) - (m.r3c0 * m.r2c2))))) by (nonlinear_arith);
    assert((m.r0c1 * (m.r0c0 * ((m.r2c2 * m.r3c3) - (m.r3c2 * m.r2c3))))
        == (m.r0c1 * (m.r0c0 * (m.r2c2 * m.r3c3))) - (m.r0c1 * (m.r0c0 * (m.r3c2 * m.r2c3)))) by (nonlinear_arith);
    assert((m.r0c1 * (m.r0c0 * (m.r2c2 * m.r3c3)))
        == m.r0c0 * m.r0c1 * m.r2c2 * m.r3c3) by (nonlinear_arith);
    assert((m.r0c1 * (m.r0c0 * (m.r3c2 * m.r2c3)))
        == m.r0c0 * m.r0c1 * m.r2c3 * m.r3c2) by (nonlinear_arith);
    assert((m.r0c1 * (m.r0c2 * ((m.r2c0 * m.r3c3) - (m.r3c0 * m.r2c3))))
        == (m.r0c1 * (m.r0c2 * (m.r2c0 * m.r3c3))) - (m.r0c1 * (m.r0c2 * (m.r3c0 * m.r2c3)))) by (nonlinear_arith);
    assert((m.r0c1 * (m.r0c2 * (m.r2c0 * m.r3c3)))
        == m.r0c1 * m.r0c2 * m.r2c0 * m.r3c3) by (nonlinear_arith);
    assert((m.r0c1 * (m.r0c2 * (m.r3c0 * m.r2c3)))
        == m.r0c1 * m.r0c2 * m.r2c3 * m.r3c0) by (nonlinear_arith);
    assert((m.r0c1 * (m.r0c3 * ((m.r2c0 * m.r3c2) - (m.r3c0 * m.r2c2))))
        == (m.r0c1 * (m.r0c3 * (m.r2c0 * m.r3c2))) - (m.r0c1 * (m.r0c3 * (m.r3c0 * m.r2c2)))) by (nonlinear_arith);
    assert((m.r0c1 * (m.r0c3 * (m.r2c0 * m.r3c2)))
        == m.r0c1 * m.r0c3 * m.r2c0 * m.r3c2) by (nonlinear_arith);
    assert((m.r0c1 * (m.r0c3 * (m.r3c0 * m.r2c2)))
        == m.r0c1 * m.r0c3 * m.r2c2 * m.r3c0) by (nonlinear_arith);
    assert((m.r0c2 * ((((-m.r0c0) * ((m.r2c1 * m.r3c3) - (m.r3c1 * m.r2c3))) + (m.r0c1 * ((m.r2c0 * m.r3c3) - (m.r3c0 * m.r2c3)))) - (m.r0c3 * ((m.r2c0 * m.r3c1) - (m.r3c0 * m.r2c1)))))
        == (m.r0c2 * ((-m.r0c0) * ((m.r2c1 * m.r3c3) - (m.r3c1 * m.r2c3)))) + (m.r0c2 * (m.r0c1 * ((m.r2c0 * m.r3c3) - (m.r3c0 * m.r2c3)))) - (m.r0c2 * (m.r0c3 * ((m.r2c0 * m.r3c1) - (m.r3c0 * m.r2c1))))) by (nonlinear_arith);
    assert((m.r0c2 * ((-m.r0c0) * ((m.r2c1 * m.r3c3) - (m.r3c1 * m.r2c3))))
        == 0real - (m.r0c2 * (m.r0c0 * ((m.r2c1 * m.r3c3) - (m.r3c1 * m.r2c3))))) by (nonlinear_arith);
    assert((m.r0c2 * (m.r0c0 * ((m.r2c1 * m.r3c3) - (m.r3c1 * m.r2c3))))
        == (m.r0c2 * (m.r0c0 * (m.r2c1 * m.r3c3))) - (m.r0c2 * (m.r0c0 * (m.r3c1 * m.r2c3)))) by (nonlinear_arith);
    assert((m.r0c2 * (m.r0c0 * (m.r2c1 * m.r3c3)))
        == m.r0c0 * m.r0c2 * m.r2c1 * m.r3c3) by (nonlinear_arith);
    assert((m.r0c2 * (m.r0c0 * (m.r3c1 * m.r2c3)))
        == m.r0c0 * m.r0c2 * m.r2c3 * m.r3c1) by (nonlinear_arith);
    assert((m.r0c2 * (m.r0c1 * ((m.r2c0 * m.r3c3) - (m.r3c0 * m.r2c3))))
        == (m.r0c2 * (m.r0c1 * (m.r2c0 * m.r3c3))) - (m.r0c2 * (m.r0c1 * (m.r3c0 * m.r2c3)))) by (nonlinear_arith);
    assert((m.r0c2 * (m.r0c1 * (m.r2c0 * m.r3c3)))
        == m.r0c1 * m.r0c2 * m.r2c0 * m.r3c3) by (nonlinear_arith);
    assert((m.r0c2 * (m.r0c1 * (m.r3c0 * m.r2c3)))
        == m.r0c1 * m.r0c2 * m.r2c3 * m.r3c0) by (nonlinear_arith);
    assert((m.r0c2 * (m.r0c3 * ((m.r2c0 * m.r3c1) - (m.r3c0 * m.r2c1))))
        == (m.r0c2 * (m.r0c3 * (m.r2c0 * m.r3c1))) - (m.r0c2 * (m.r0c3 * (m.r3c0 * m.r2c1)))) by (nonlinear_arith);
    assert((m.r0c2 * (m.r0c3 * (m.r2c0 * m.r3c1)))
        == m.r0c2 * m.r0c3 * m.r2c0 * m.r3c1) by (nonlinear_arith);
    assert((m.r0c2 * (m.r0c3 * (m.r3c0 * m.r2c1)))
        == m.r0c2 * m.r0c3 * m.r2c1 * m.r3c0) by (nonlinear_arith);
    assert((m.r0c3 * (((m.r0c0 * ((m.r2c1 * m.r3c2) - (m.r3c1 * m.r2c2))) - (m.r0c1 * ((m.r2c0 * m.r3c2) - (m.r3c0 * m.r2c2)))) + (m.r0c2 * ((m.r2c0 * m.r3c1) - (m.r3c0 * m.r2c1)))))
        == (m.r0c3 * (m.r0c0 * ((m.r2c1 * m.r3c2) - (m.r3c1 * m.r2c2)))) - (m.r0c3 * (m.r0c1 * ((m.r2c0 * m.r3c2) - (m.r3c0 * m.r2c2)))) + (m.r0c3 * (m.r0c2 * ((m.r2c0 * m.r3c1) - (m.r3c0 * m.r2c1))))) by (nonlinear_arith);
    assert((m.r0c3 * (m.r0c0 * ((m.r2c1 * m.r3c2) - (m.r3c1 * m.r2c2))))
        == (m.r0c3 * (m.r0c0 * (m.r2c1 * m.r3c2))) - (m.r0c3 * (m.r0c0 * (m.r3c1 * m.r2c2)))) by (nonlinear_arith);
    assert((m.r0c3 * (m.r0c0 * (m.r2c1 * m.r3c2)))
        == m.r0c0 * m.r0c3 * m.r2c1 * m.r3c2) by (nonlinear_arith);
    assert((m.r0c3 * (m.r0c0 * (m.r3c1 * m.r2c2)))
        == m.r0c0 * m.r0c3 * m.r2c2 * m.r3c1) by (nonlinear_arith);
    assert((m.r0c3 * (m.r0c1 * ((m.r2c0 * m.r3c2) - (m.r3c0 * m.r2c2))))
        == (m.r0c3 * (m.r0c1 * (m.r2c0 * m.r3c2))) - (m.r0c3 * (m.r0c1 * (m.r3c0 * m.r2c2)))) by (nonlinear_arith);
    assert((m.r0c3 * (m.r0c1 * (m.r2c0 * m.r3c2)))
        == m.r0c1 * m.r0c3 * m.r2c0 * m.r3c2) by (nonlinear_arith);
    assert((m.r0c3 * (m.r0c1 * (m.r3c0 * m.r2c2)))
        == m.r0c1 * m.r0c3 * m.r2c2 * m.r3c0) by (nonlinear_arith);
    assert((m.r0c3 * (m.r0c2 * ((m.r2c0 * m.r3c1) - (m.r3c0 * m.r2c1))))
        == (m.r0c3 * (m.r0c2 * (m.r2c0 * m.r3c1))) - (m.r0c3 * (m.r0c2 * (m.r3c0 * m.r2c1)))) by (nonlinear_arith);
    assert((m.r0c3 * (m.r0c2 * (m.r2c0 * m.r3c1)))
        == m.r0c2 * m.r0c3 * m.r2c0 * m.r3c1) by (nonlinear_arith);
    assert((m.r0c3 * (m.r0c2 * (m.r3c0 * m.r2c1)))
        == m.r0c2 * m.r0c3 * m.r2c1 * m.r3c0) by (nonlinear_arith);
    assert((0real * ((((((m.r0c0 * m.r1c1) - (m.r1c0 * m.r0c1)) * ((m.r2c2 * m.r3c3) - (m.r3c2 * m.r2c3))) - (((m.r0c0 * m.r1c2) - (m.r1c0 * m.r0c2)) * ((m.r2c1 * m.r3c3) - (m.r3c1 * m.r2c3)))) + (((m.r0c0 * m.r1c3) - (m.r1c0 * m.r0c3)) * ((m.r2c1 * m.r3c2) - (m.r3c1 * m.r2c2)))) + (((((m.r0c1 * m.r1c2) - (m.r1c1 * m.r0c2)) * ((m.r2c0 * m.r3c3) - (m.r3c0 * m.r2c3))) - (((m.r0c1 * m.r1c3) - (m.r1c1 * m.r0c3)) * ((m.r2c0 * m.r3c2) - (m.r3c0 * m.r2c2)))) + (((m.r0c2 * m.r1c3) - (m.r1c2 * m.r0c3)) * ((m.r2c0 * m.r3c1) - (m.r3c0 * m.r2c1))))))
        == (0real * (((m.r0c0 * m.r1c1) - (m.r1c0 * m.r0c1)) * ((m.r2c2 * m.r3c3) - (m.r3c2 * m.r2c3)))) - (0real * (((m.r0c0 * m.r1c2) - (m.r1c0 * m.r0c2)) * ((m.r2c1 * m.r3c3) - (m.r3c1 * m.r2c3)))) + (0real * (((m.r0c0 * m.r1c3) - (m.r1c0 * m.r0c3)) * ((m.r2c1 * m.r3c2) - (m.r3c1 * m.r2c2)))) + (0real * (((m.r0c1 * m.r1c2) - (m.r1c1 * m.r0c2)) * ((m.r2c0 * m.r3c3) - (m.r3c0 * m.r2c3)))) - (0real * (((m.r0c1 * m.r1c3) - (m.r1c1 * m.r0c3)) * ((m.r2c0 * m.r3c2) - (m.r3c0 * m.r2c2)))) + (0real * (((m.r0c2 * m.r1c3) - (m.r1c2 * m.r0c3)) * ((m.r2c0 * m.r3c1) - (m.r3c0 * m.r2c1))))) by (nonlinear_arith);
    assert((0real * (((m.r0c0 * m.r1c1) - (m.r1c0 * m.r0c1)) * ((m.r2c2 * m.r3c3) - (m.r3c2 * m.r2c3))))
        == (0real * ((m.r0c0 * m.r1c1) * ((m.r2c2 * m.r3c3) - (m.r3c2 * m.r2c3)))) - (0real * ((m.r1c0 * m.r0c1) * ((m.r2c2 * m.r3c3) - (m.r3c2 * m.r2c3))))) by (nonlinear_arith);
    assert((0real * ((m.r0c0 * m.r1c1) * ((m.r2c2 * m.r3c3) - (m.r3c2 * m.r2c3))))
        == (0real * ((m.r0c0 * m.r1c1) * (m.r2c2 * m.r3c3))) - (0real * ((m.r0c0 * m.r1c1) * (m.r3c2 * m.r2c3)))) by (nonlinear_arith);
    assert((0real * ((m.r0c0 * m.r1c1) * (m.r2c2 * m.r3c3))) == 0real) by (nonlinear_arith);
    assert((0real * ((m.r0c0 * m.r1c1) * (m.r3c2 * m.r2c3))) == 0real) by (nonlinear_arith);
    assert((0real * ((m.r1c0 * m.r0c1) * ((m.r2c2 * m.r3c3) - (m.r3c2 * m.r2c3))))
        == (0real * ((m.r1c0 * m.r0c1) * (m.r2c2 * m.r3c3))) - (0real * ((m.r1c0 * m.r0c1) * (m.r3c2 * m.r2c3)))) by (nonlinear_arith);
    assert((0real * ((m.r1c0 * m.r0c1) * (m.r2c2 * m.r3c3))) == 0real) by (nonlinear_arith);
    assert((0real * ((m.r1c0 * m.r0c1) * (m.r3c2 * m.r2c3))) == 0real) by (nonlinear_arith);
    assert((0real * (((m.r0c0 * m.r1c2) - (m.r1c0 * m.r0c2)) * ((m.r2c1 * m.r3c3) - (m.r3c1 * m.r2c3))))
        == (0real * ((m.r0c0 * m.r1c2) * ((m.r2c1 * m.r3c3) - (m.r3c1 * m.r2c3)))) - (0real * ((m.r1c0 * m.r0c2) * ((m.r2c1 * m.r3c3) - (m.r3c1 * m.r2c3))))) by (nonlinear_arith);
    assert((0real * ((m.r0c0 * m.r1c2) * ((m.r2c1 * m.r3c3) - (m.r3c1 * m.r2c3))))
        == (0real * ((m.r0c0 * m.r1c2) * (m.r2c1 * m.r3c3))) - (0real * ((m.r0c0 * m.r1c2) * (m.r3c1 * m.r2c3)))) by (nonlinear_arith);
    assert((0real * ((m.r0c0 * m.r1c2) * (m.r2c1 * m.r3c3))) == 0real) by (nonlinear_arith);
    assert((0real * ((m.r0c0 * m.r1c2) * (m.r3c1 * m.r2c3))) == 0real) by (nonlinear_arith);
    assert((0real * ((m.r1c0 * m.r0c2) * ((m.r2c1 * m.r3c3) - (m.r3c1 * m.r2c3))))
        == (0real * ((m.r1c0 * m.r0c2) * (m.r2c1 * m.r3c3))) - (0real * ((m.r1c0 * m.r0c2) * (m.r3c1 * m.r2c3)))) by (nonlinear_arith);
    assert((0real * ((m.r1c0 * m.r0c2) * (m.r2c1 * m.r3c3))) == 0real) by (nonlinear_arith);
    assert((0real * ((m.r1c0 * m.r0c2) * (m.r3c1 * m.r2c3))) == 0real) by (nonlinear_arith);
    assert((0real * (((m.r0c0 * m.r1c3) - (m.r1c0 * m.r0c3)) * ((m.r2c1 * m.r3c2) - (m.r3c1 * m.r2c2))))
        == (0real * ((m.r0c0 * m.r1c3) * ((m.r2c1 * m.r3c2) - (m.r3c1 * m.r2c2)))) - (0real * ((m.r1c0 * m.r0c3) * ((m.r2c1 * m.r3c2) - (m.r3c1 * m.r2c2))))) by (nonlinear_arith);
    assert((0real * ((m.r0c0 * m.r1c3) * ((m.r2c1 * m.r3c2) - (m.r3c1 * m.r2c2))))
        == (0real * ((m.r0c0 * m.r1c3) * (m.r2c1 * m.r3c2))) - (0real * ((m.r0c0 * m.r1c3) * (m.r3c1 * m.r2c2)))) by (nonlinear_arith);
    assert((0real * ((m.r0c0 * m.r1c3) * (m.r2c1 * m.r3c2))) == 0real) by (nonlinear_arith);
    assert((0real * ((m.r0c0 * m.r1c3) * (m.r3c1 * m.r2c2))) == 0real) by (nonlinear_arith);
    assert((0real * ((m.r1c0 * m.r0c3) * ((m.r2c1 * m.r3c2) - (m.r3c1 * m.r2c2))))
        == (0real * ((m.r1c0 * m.r0c3) * (m.r2c1 * m.r3c2))) - (0real * ((m.r1c0 * m.r0c3) * (m.r3c1 * m.r2c2)))) by (nonlinear_arith);
    assert((0real * ((m.r1c0 * m.r0c3) * (m.r2c1 * m.r3c2))) == 0real) by (nonlinear_arith);
    assert((0real * ((m.r1c0 * m.r0c3) * (m.r3c1 * m.r2c2))) == 0real) by (nonlinear_arith);
    assert((0real * (((m.r0c1 * m.r1c2) - (m.r1c1 * m.r0c2)) * ((m.r2c0 * m.r3c3) - (m.r3c0 * m.r2c3))))
        == (0real * ((m.r0c1 * m.r1c2) * ((m.r2c0 * m.r3c3) - (m.r3c0 * m.r2c3)))) - (0real * ((m.r1c1 * m.r0c2) * ((m.r2c0 * m.r3c3) - (m.r3c0 * m.r2c3))))) by (nonlinear_arith);
    assert((0real * ((m.r0c1 * m.r1c2) * ((m.r2c0 * m.r3c3) - (m.r3c0 * m.r2c3))))
        == (0real * ((m.r0c1 * m.r1c2) * (m.r2c0 * m.r3c3))) - (0real * ((m.r0c1 * m.r1c2) * (m.r3c0 * m.r2c3)))) by (nonlinear_arith);
    assert((0real * ((m.r0c1 * m.r1c2) * (m.r2c0 * m.r3c3))) == 0real) by (nonlinear_arith);
    assert((0real * ((m.r0c1 * m.r1c2) * (m.r3c0 * m.r2c3))) == 0real) by (nonlinear_arith);
    assert((0real * ((m.r1c1 * m.r0c2) * ((m.r2c0 * m.r3c3) - (m.r3c0 * m.r2c3))))
        == (0real * ((m.r1c1 * m.r0c2) * (m.r2c0 * m.r3c3))) - (0real * ((m.r1c1 * m.r0c2) * (m.r3c0 * m.r2c3)))) by (nonlinear_arith);
    assert((0real * ((m.r1c1 * m.r0c2) * (m.r2c0 * m.r3c3))) == 0real) by (nonlinear_arith);
    assert((0real * ((m.r1c1 * m.r0c2) * (m.r3c0 * m.r2c3))) == 0real) by (nonlinear_arith);
    assert((0real * (((m.r0c1 * m.r1c3) - (m.r1c1 * m.r0c3)) * ((m.r2c0 * m.r3c2) - (m.r3c0 * m.r2c2))))
        == (0real * ((m.r0c1 * m.r1c3) * ((m.r2c0 * m.r3c2) - (m.r3c0 * m.r2c2)))) - (0real * ((m.r1c1 * m.r0c3) * ((m.r2c0 * m.r3c2) - (m.r3c0 * m.r2c2))))) by (nonlinear_arith);
    assert((0real * ((m.r0c1 * m.r1c3) * ((m.r2c0 * m.r3c2) - (m.r3c0 * m.r2c2))))
        == (0real * ((m.r0c1 * m.r1c3) * (m.r2c0 * m.r3c2))) - (0real * ((m.r0c1 * m.r1c3) * (m.r3c0 * m.r2c2)))) by (nonlinear_arith);
    assert((0real * ((m.r0c1 * m.r1c3) * (m.r2c0 * m.r3c2))) == 0real) by (nonlinear_arith);
    assert((0real * ((m.r0c1 * m.r1c3) * (m.r3c0 * m.r2c2))) == 0real) by (nonlinear_arith);
    assert((0real * ((m.r1c1 * m.r0c3) * ((m.r2c0 * m.r3c2) - (m.r3c0 * m.r2c2))))
        == (0real * ((m.r1c1 * m.r0c3) * (m.r2c0 * m.r3c2))) - (0real * ((m.r1c1 * m.r0c3) * (m.r3c0 * m.r2c2)))) by (nonlinear_arith);
    assert((0real * ((m.r1c1 * m.r0c3) * (m.r2c0 * m.r3c2))) == 0real) by (nonlinear_arith);
    assert((0real * ((m.r1c1 * m.r0c3) * (m.r3c0 * m.r2c2))) == 0real) by (nonlinear_arith);
    assert((0real * (((m.r0c2 * m.r1c3) - (m.r1c2 * m.r0c3)) * ((m.r2c0 * m.r3c1) - (m.r3c0 * m.r2c1))))
        == (0real * ((m.r0c2 * m.r1c3) * ((m.r2c0 * m.r3c1) - (m.r3c0 * m.r2c1)))) - (0real * ((m.r1c2 * m.r0c3) * ((m.r2c0 * m.r3c1) - (m.r3c0 * m.r2c1))))) by (nonlinear_arith);
    assert((0real * ((m.r0c2 * m.r1c3) * ((m.r2c0 * m.r3c1) - (m.r3c0 * m.r2c1))))
        == (0real * ((m.r0c2 * m.r1c3) * (m.r2c0 * m.r3c1))) - (0real * ((m.r0c2 * m.r1c3) * (m.r3c0 * m.r2c1)))) by (nonlinear_arith);
    assert((0real * ((m.r0c2 * m.r1c3) * (m.r2c0 * m.r3c1))) == 0real) by (nonlinear_arith);
    assert((0real * ((m.r0c2 * m.r1c3) * (m.r3c0 * m.r2c1))) == 0real) by (nonlinear_arith);
    assert((0real * ((m.r1c2 * m.r0c3) * ((m.r2c0 * m.r3c1) - (m.r3c0 * m.r2c1))))
        == (0real * ((m.r1c2 * m.r0c3) * (m.r2c0 * m.r3c1))) - (0real * ((m.r1c2 * m.r0c3) * (m.r3c0 * m.r2c1)))) by (nonlinear_arith);
    assert((0real * ((m.r1c2 * m.r0c3) * (m.r2c0 * m.r3c1))) == 0real) by (nonlinear_arith);
    assert((0real * ((m.r1c2 * m.r0c3) * (m.r3c0 * m.r2c1))) == 0real) by (nonlinear_arith);
}

proof fn lemma_real_mat4_times_adjugate_r0c2(m: Mat4Model<real>)
    ensures
        m.times(m.adjugate()).r0c2 == Mat4Model::<real>::identity().times_each(m.determinant()).r0c2,
{
    assert((m.r0c0 * (((m.r3c1 * ((m.r0c2 * m.r1c3) - (m.r1c2 * m.r0c3))) - (m.r3c2 * ((m.r0c1 * m.r1c3) - (m.r1c1 * m.r0c3)))) + (m.r3c3 * ((m.r0c1 * m.r1c2) - (m.r1c1 * m.r0c2)))))
        == (m.r0c0 * (m.r3c1 * ((m.r0c2 * m.r1c3) - (m.r1c2 * m.r0c3)))) - (m.r0c0 * (m.r3c2 * ((m.r0c1 * m.r1c3) - (m.r1c1 * m.r0c3)))) + (m.r0c0 * (m.r3c3 * ((m.r0c1 * m.r1c2) - (m.r1c1 * m.r0c2))))) by (nonlinear_arith);
    assert((m.r0c0 * (m.r3c1 * ((m.r0c2 * m.r1c3) - (m.r1c2 * m.r0c3))))
        == (m.r0c0 * (m.r3c1 * (m.r0c2 * m.r1c3))) - (m.r0c0 * (m.r3c1 * (m.r1c2 * m.r0c3)))) by (nonlinear_arith);
    assert((m.r0c0 * (m.r3c1 * (m.r0c2 * m.r1c3)))
        == m.r0c0 * m.r0c2 * m.r1c3 * m.r3c1) by (nonlinear_arith);
    assert((m.r0c0 * (m.r3c1 * (m.r1c2 * m.r0c3)))
        == m.r0c0 * m.r0c3 * m.r1c2 * m.r3c1) by (nonlinear_arith);
    assert((m.r0c0 * (m.r3c2 * ((m.r0c1 * m.r1c3) - (m.r1c1 * m.r0c3))))
        == (m.r0c0 * (m.r3c2 * (m.r0c1 * m.r1c3))) - (m.r0c0 * (m.r3c2 * (m.r1c1 * m.r0c3)))) by (nonlinear_arith);
    assert((m.r0c0 * (m.r3c2 * (m.r0c1 * m.r1c3)))
        == m.r0c0 * m.r0c1 * m.r1c3 * m.r3c2) by (nonlinear_arith);
    assert((m.r0c0 * (m.r3c2 * (m.r1c1 * m.r0c3)))
        == m.r0c0 * m.r0c3 * m.r1c1 * m.r3c2) by (nonlinear_arith);
    assert((m.r0c0 * (m.r3c3 * ((m.r0c1 * m.r1c2) - (m.r1c1 * m.r0c2))))
        == (m.r0c0 * (m.r3c3 * (m.r0c1 * m.r1c2))) - (m.r0c0 * (m.r3c3 * (m.r1c1 * m.r0c2)))) by (nonlinear_arith);
    assert((m.r0c0 * (m.r3c3 * (m.r0c1 * m.r1c2)))
        == m.r0c0 * m.r0c1 * m.r1c2 * m.r3c3) by (nonlinear_arith);
    assert((m.r0c0 * (m.r3c3 * (m.r1c1 * m.r0c2)))
        == m.r0c0 * m.r0c2 * m.r1c1 * m.r3c3) by (nonlinear_arith);
    assert((m.r0c1 * ((((-m.r3c0) * ((m.r0c2 * m.r1c3) - (m.r1c2 * m.r0c3))) + (m.r3c2 * ((m.r0c0 * m.r1c3) - (m.r1c0 * m.r0c3)))) - (m.r3c3 * ((m.r0c0 * m.r1c2) - (m.r1c0 * m.r0c2)))))
        == (m.r0c1 * ((-m.r3c0) * ((m.r0c2 * m.r1c3) - (m.r1c2 * m.r0c3)))) + (m.r0c1 * (m.r3c2 * ((m.r0c0 * m.r1c3) - (m.r1c0 * m.r0c3)))) - (m.r0c1 * (m.r3c3 * ((m.r0c0 * m.r1c2) - (m.r1c0 * m.r0c2))))) by (nonlinear_arith);
    assert((m.r0c1 * ((-m.r3c0) * ((m.r0c2 * m.r1c3) - (m.r1c2 * m.r0c3))))
        == 0real - (m.r0c1 * (m.r3c0 * ((m.r0c2 * m.r1c3) - (m.r1c2 * m.r0c3))))) by (nonlinear_arith);
    assert((m.r0c1 * (m.r3c0 * ((m.r0c2 * m.r1c3) - (m.r1c2 * m.r0c3))))
        == (m.r0c1 * (m.r3c0 * (m.r0c2 * m.r1c3))) - (m.r0c1 * (m.r3c0 * (m.r1c2 * m.r0c3)))) by (nonlinear_arith);
    assert((m.r0c1 * (m.r3c0 * (m.r0c2 * m.r1c3)))
        == m.r0c1 * m.r0c2 * m.r1c3 * m.r3c0) by (nonlinear_arith);
    assert((m.r0c1 * (m.r3c0 * (m.r1c2 * m.r0c3)))
        == m.r0c1 * m.r0c3 * m.r1c2 * m.r3c0) by (nonlinear_arith);
    assert((m.r0c1 * (m.r3c2 * ((m.r0c0 * m.r1c3) - (m.r1c0 * m.r0c3))))
        == (m.r0c1 * (m.r3c2 * (m.r0c0 * m.r1c3))) - (m.r0c1 * (m.r3c2 * (m.r1c0 * m.r0c3)))) by (nonlinear_arith);
    assert((m.r0c1 * (m.r3c2 * (m.r0c0 * m.r1c3)))
        == m.r0c0 * m.r0c1 * m.r1c3 * m.r3c2) by (nonlinear_arith);
    assert((m.r0c1 * (m.r3c2 * (m.r1c0 * m.r0c3)))
        == m.r0c1 * m.r0c3 * m.r1c0 * m.r3c2) by (nonlinear_arith);
    assert((m.r0c1 * (m.r3c3 * ((m.r0c0 * m.r1c2) - (m.r1c0 * m.r0c2))))
        == (m.r0c1 * (m.r3c3 * (m.r0c0 * m.r1c2))) - (m.r0c1 * (m.r3c3 * (m.r1c0 * m.r0c2)))) by (nonlinear_arith);
    assert((m.r0c1 * (m.r3c3 * (m.r0c0 * m.r1c2)))
        == m.r0c0 * m.r0c1 * m.r1c2 * m.r3c3) by (nonlinear_arith);
    assert((m.r0c1 * (m.r3c3 * (m.r1c0 * m.r0c2)))
        == m.r0c1 * m.r0c2 * m.r1c0 * m.r3c3) by (nonlinear_arith);
    assert((m.r0c2 * (((m.r3c0 * ((m.r0c1 * m.r1c3) - (m.r1c1 * m.r0c3))) - (m.r3c1 * ((m.r0c0 * m.r1c3) - (m.r1c0 * m.r0c3)))) + (m.r3c3 * ((m.r0c0 * m.r1c1) - (m.r1c0 * m.r0c1)))))
        == (m.r0c2 * (m.r3c0 * ((m.r0c1 * m.r1c3) - (m.r1c1 * m.r0c3)))) - (m.r0c2 * (m.r3c1 * ((m.r0c0 * m.r1c3) - (m.r1c0 * m.r0c3)))) + (m.r0c2 * (m.r3c3 * ((m.r0c0 * m.r1c1) - (m.r1c0 * m.r0c1))))) by (nonlinear_arith);
    assert((m.r0c2 * (m.r3c0 * ((m.r0c1 * m.r1c3) - (m.r1c1 * m.r0c3))))
        == (m.r0c2 * (m.r3c0 * (m.r0c1 * m.r1c3))) - (m.r0c2 * (m.r3c0 * (m.r1c1 * m.r0c3)))) by (nonlinear_arith);
    assert((m.r0c2 * (m.r3c0 * (m.r0c1 * m.r1c3)))
        == m.r0c1 * m.r0c2 * m.r1c3 * m.r3c0) by (nonlinear_arith);
    assert((m.r0c2 * (m.r3c0 * (m.r1c1 * m.r0c3)))
        == m.r0c2 * m.r0c3 * m.r1c1 * m.r3c0) by (nonlinear_arith);
    assert((m.r0c2 * (m.r3c1 * ((m.r0c0 * m.r1c3) - (m.r1c0 * m.r0c3))))
        == (m.r0c2 * (m.r3c1 * (m.r0c0 * m.r1c3))) - (m.r0c2 * (m.r3c1 * (m.r1c0 * m.r0c3)))) by (nonlinear_arith);
    assert((m.r0c2 * (m.r3c1 * (m.r0c0 * m.r1c3)))
        == m.r0c0 * m.r0c2 * m.r1c3 * m.r3c1) by (nonlinear_arith);
    assert((m.r0c2 * (m.r3c1 * (m.r1c0 * m.r0c3)))
        == m.r0c2 * m.r0c3 * m.r1c0 * m.r3c1) by (nonlinear_arith);
    assert((m.r0c2 * (m.r3c3 * ((m.r0c0 * m.r1c1) - (m.r1c0 * m.r0c1))))
        == (m.r0c2 * (m.r3c3 * (m.r0c0 * m.r1c1))) - (m.r0c2 * (m.r3c3 * (m.r1c0 * m.r0c1)))) by (nonlinear_arith);
    assert((m.r0c2 * (m.r3c3 * (m.r0c0 * m.r1c1)))
        == m.r0c0 * m.r0c2 * m.r1c1 * m.r3c3) by (nonlinear_arith);
    assert((m.r0c2 * (m.r3c3 * (m.r1c0 * m.r0c1)))
        == m.r0c1 * m.r0c2 * m.r1c0 * m.r3c3) by (nonlinear_arith);
    assert((m.r0c3 * ((((-m.r3c0) * ((m.r0c1 * m.r1c2) - (m.r1c1 * m.r0c2))) + (m.r3c1 * ((m.r0c0 * m.r1c2) - (m.r1c0 * m.r0c2)))) - (m.r3c2 * ((m.r0c0 * m.r1c1) - (m.r1c0 * m.r0c1)))))
        == (m.r0c3 * ((-m.r3c0) * ((m.r0c1 * m.r1c2) - (m.r1c1 * m.r0c2)))) + (m.r0c3 * (m.r3c1 * ((m.r0c0 * m.r1c2) - (m.r1c0 * m.r0c2)))) - (m.r0c3 * (m.r3c2 * ((m.r0c0 * m.r1c1) - (m.r1c0 * m.r0c1))))) by (nonlinear_arith);
    assert((m.r0c3 * ((-m.r3c0) * ((m.r0c1 * m.r1c2) - (m.r1c1 * m.r0c2))))
        == 0real - (m.r0c3 * (m.r3c0 * ((m.r0c1 * m.r1c2) - (m.r1c1 * m.r0c2))))) by (nonlinear_arith);
    assert((m.r0c3 * (m.r3c0 * ((m.r0c1 * m.r1c2) - (m.r1c1 * m.r0c2))))
        == (m.r0c3 * (m.r3c0 * (m.r0c1 * m.r1c2))) - (m.r0c3 * (m.r3c0 * (m.r1c1 * m.r0c2)))) by (nonlinear_arith);
    assert((m.r0c3 * (m.r3c0 * (m.r0c1 * m.r1c2)))
        == m.r0c1 * m.r0c3 * m.r1c2 * m.r3c0) by (nonlinear_arith);
    assert((m.r0c3 * (m.r3c0 * (m.r1c1 * m.r0c2)))
        == m.r0c2 * m.r0c3 * m.r1c1 * m.r3c0) by (nonlinear_arith);
    assert((m.r0c3 * (m.r3c1 * ((m.r0c0 * m.r1c2) - (m.r1c0 * m.r0c2))))
        == (m.r0c3 * (m.r3c1 * (m.r0c0 * m.r1c2))) - (m.r0c3 * (m.r3c1 * (m.r1c0 * m.r0c2)))) by (nonlinear_arith);
    assert((m.r0c3 * (m.r3c1 * (m.r0c0 * m.r1c2)))
        == m.r0c0 * m.r0c3 * m.r1c2 * m.r3c1) by (nonlinear_arith);
    assert((m.r0c3 * (m.r3c1 * (m.r1c0 * m.r0c2)))
        == m.r0c2 * m.r0c3 * m.r1c0 * m.r3c1) by (nonlinear_arith);
    assert((m.r0c3 * (m.r3c2 * ((m.r0c0 * m.r1c1) - (m.r1c0 * m.r0c1))))
        == (m.r0c3 * (m.r3c2 * (m.r0c0 * m.r1c1))) - (m.r0c3 * (m.r3c2 * (m.r1c0 * m.r0c1)))) by (nonlinear_arith);
    assert((m.r0c3 * (m.r3c2 * (m.r0c0 * m.r1c1)))
        == m.r0c0 * m.r0c3 * m.r1c1 * m.r3c2) by (nonlinear_arith);
    assert((m.r0c3 * (m.r3c2 * (m.r1c0 * m.r0c1)))
        == m.r0c1 * m.r0c3 * m.r1c0 * m.r3c2) by (nonlinear_arith);
    assert((0real * ((((((m.r0c0 * m.r1c1) - (m.r1c0 * m.r0c1)) * ((m.r2c2 * m.r3c3) - (m.r3c2 * m.r2c3))) - (((m.r0c0 * m.r1c2) - (m.r1c0 * m.r0c2)) * ((m.r2c1 * m.r3c3) - (m.r3c1 * m.r2c3)))) + (((m.r0c0 * m.r1c3) - (m.r1c0 * m.r0c3)) * ((m.r2c1 * m.r3c2) - (m.r3c1 * m.r2c2)))) + (((((m.r0c1 * m.r1c2) - (m.r1c1 * m.r0c2)) * ((m.r2c0 * m.r3c3) - (m.r3c0 * m.r2c3))) - (((m.r0c1 * m.r1c3) - (m.r1c1 * m.r0c3)) * ((m.r2c0 * m.r3c2) - (m.r3c0 * m.r2c2)))) + (((m.r0c2 * m.r1c3) - (m.r1c2 * m.r0c3)) * ((m.r2c0 * m.r3c1) - (m.r3c0 * m.r2c1))))))
        == (0real * (((m.r0c0 * m.r1c1) - (m.r1c0 * m.r0c1)) * ((m.r2c2 * m.r3c3) - (m.r3c2 * m.r2c3)))) - (0real * (((m.r0c0 * m.r1c2) - (m.r1c0 * m.r0c2)) * ((m.r2c1 * m.r3c3) - (m.r3c1 * m.r2c3)))) + (0real * (((m.r0c0 * m.r1c3) - (m.r1c0 * m.r0c3)) * ((m.r2c1 * m.r3c2) - (m.r3c1 * m.r2c2)))) + (0real * (((m.r0c1 * m.r1c2) - (m.r1c1 * m.r0c2)) * ((m.r2c0 * m.r3c3) - (m.r3c0 * m.r2c3)))) - (0real * (((m.r0c1 * m.r1c3) - (m.r1c1 * m.r0c3)) * ((m.r2c0 * m.r3c2) - (m.r3c0 * m.r2c2)))) + (0real * (((m.r0c2 * m.r1c3) - (m.r1c2 * m.r0c3)) * ((m.r2c0 * m.r3c1) - (m.r3c0 * m.r2c1))))) by (nonlinear_arith);
    assert((0real * (((m.r0c0 * m.r1c1) - (m.r1c0 * m.r0c1)) * ((m.r2c2 * m.r3c3) - (m.r3c2 * m.r2c3))))
        == (0real * ((m.r0c0 * m.r1c1) * ((m.r2c2 * m.r3c3) - (m.r3c2 * m.r2c3)))) - (0real * ((m.r1c0 * m.r0c1) * ((m.r2c2 * m.r3c3) - (m.r3c2 * m.r2c3))))) by (nonlinear_arith);
    assert((0real * ((m.r0c0 * m.r1c1) * ((m.r2c2 * m.r3c3) - (m.r3c2 * m.r2c3))))
        == (0real * ((m.r0c0 * m.r1c1) * (m.r2c2 * m.r3c3))) - (0real * ((m.r0c0 * m.r1c1) * (m.r3c2 * m.r2c3)))) by (nonlinear_arith);
    assert((0real * ((m.r0c0 * m.r1c1) * (m.r2c2 * m.r3c3))) == 0real) by (nonlinear_arith);
    assert((0real * ((m.r0c0 * m.r1c1) * (m.r3c2 * m.r2c3))) == 0real) by (nonlinear_arith);
    assert((0real * ((m.r1c0 * m.r0c1) * ((m.r2c2 * m.r3c3) - (m.r3c2 * m.r2c3))))
        == (0real * ((m.r1c0 * m.r0c1) * (m.r2c2 * m.r3c3))) - (0real * ((m.r1c0 * m.r0c1) * (m.r3c2 * m.r2c3)))) by (nonlinear_arith);
    assert((0real * ((m.r1c0 * m.r0c1) * (m.r2c2 * m.r3c3))) == 0real) by (nonlinear_arith);
    assert((0real * ((m.r1c0 * m.r0c1) * (m.r3c2 * m.r2c3))) == 0real) by (nonlinear_arith);
    assert((0real * (((m.r0c0 * m.r1c2) - (m.r1c0 * m.r0c2)) * ((m.r2c1 * m.r3c3) - (m.r3c1 * m.r2c3))))
        == (0real * ((m.r0c0 * m.r1c2) * ((m.r2c1 * m.r3c3) - (m.r3c1 * m.r2c3)))) - (0real * ((m.r1c0 * m.r0c2) * ((m.r2c1 * m.r3c3) - (m.r3c1 * m.r2c3))))) by (nonlinear_arith);
    assert((0real * ((m.r0c0 * m.r1c2) * ((m.r2c1 * m.r3c3) - (m.r3c1 * m.r2c3))))
        == (0real * ((m.r0c0 * m.r1c2) * (m.r2c1 * m.r3c3))) - (0real * ((m.r0c0 * m.r1c2) * (m.r3c1 * m.r2c3)))) by (nonlinear_arith);
    assert((0real * ((m.r0c0 * m.r1c2) * (m.r2c1 * m.r3c3))) == 0real) by (nonlinear_arith);
    assert((0real * ((m.r0c0 * m.r1c2) * (m.r3c1 * m.r2c3))) == 0real) by (nonlinear_arith);
    assert((0real * ((m.r1c0 * m.r0c2) * ((m.r2c1 * m.r3c3) - (m.r3c1 * m.r2c3))))
        == (0real * ((m.r1c0 * m.r0c2) * (m.r2c1 * m.r3c3))) - (0real * ((m.r1c0 * m.r0c2) * (m.r3c1 * m.r2c3)))) by (nonlinear_arith);
    assert((0real * ((m.r1c0 * m.r0c2) * (m.r2c1 * m.r3c3))) == 0real) by (nonlinear_arith);
    assert((0real * ((m.r1c0 * m.r0c2) * (m.r3c1 * m.r2c3))) == 0real) by (nonlinear_arith);
    assert((0real * (((m.r0c0 * m.r1c3) - (m.r1c0 * m.r0c3)) * ((m.r2c1 * m.r3c2) - (m.r3c1 * m.r2c2))))
        == (0real * ((m.r0c0 * m.r1c3) * ((m.r2c1 * m.r3c2) - (m.r3c1 * m.r2c2)))) - (0real * ((m.r1c0 * m.r0c3) * ((m.r2c1 * m.r3c2) - (m.r3c1 * m.r2c2))))) by (nonlinear_arith);
    assert((0real * ((m.r0c0 * m.r1c3) * ((m.r2c1 * m.r3c2) - (m.r3c1 * m.r2c2))))
        == (0real * ((m.r0c0 * m.r1c3) * (m.r2c1 * m.r3c2))) - (0real * ((m.r0c0 * m.r1c3) * (m.r3c1 * m.r2c2)))) by (nonlinear_arith);
    assert((0real * ((m.r0c0 * m.r1c3) * (m.r2c1 * m.r3c2))) == 0real) by (nonlinear_arith);
    assert((0real * ((m.r0c0 * m.r1c3) * (m.r3c1 * m.r2c2))) == 0real) by (nonlinear_arith);
    assert((0real * ((m.r1c0 * m.r0c3) * ((m.r2c1 * m.r3c2) - (m.r3c1 * m.r2c2))))
        == (0real * ((m.r1c0 * m.r0c3) * (m.r2c1 * m.r3c2))) - (0real * ((m.r1c0 * m.r0c3) * (m.r3c1 * m.r2c2)))) by (nonlinear_arith);
    assert((0real * ((m.r1c0 * m.r0c3) * (m.r2c1 * m.r3c2))) == 0real) by (nonlinear_arith);
    assert((0real * ((m.r1c0 * m.r0c3) * (m.r3c1 * m.r2c2))) == 0real) by (nonlinear_arith);
    assert((0real * (((m.r0c1 * m.r1c2) - (m.r1c1 * m.r0c2)) * ((m.r2c0 * m.r3c3) - (m.r3c0 * m.r2c3))))
        == (0real * ((m.r0c1 * m.r1c2) * ((m.r2c0 * m.r3c3) - (m.r3c0 * m.r2c3)))) - (0real * ((m.r1c1 * m.r0c2) * ((m.r2c0 * m.r3c3) - (m.r3c0 * m.r2c3))))) by (nonlinear_arith);
    assert((0real * ((m.r0c1 * m.r1c2) * ((m.r2c0 * m.r3c3) - (m.r3c0 * m.r2c3))))
        == (0real * ((m.r0c1 * m.r1c2) * (m.r2c0 * m.r3c3))) - (0real * ((m.r0c1 * m.r1c2) * (m.r3c0 * m.r2c3)))) by (nonlinear_arith);
    assert((0real * ((m.r0c1 * m.r1c2) * (m.r2c0 * m.r3c3))) == 0real) by (nonlinear_arith);
    assert((0real * ((m.r0c1 * m.r1c2) * (m.r3c0 * m.r2c3))) == 0real) by (nonlinear_arith);
    assert((0real * ((m.r1c1 * m.r0c2) * ((m.r2c0 * m.r3c3) - (m.r3c0 * m.r2c3))))
        == (0real * ((m.r1c1 * m.r0c2) * (m.r2c0 * m.r3c3))) - (0real * ((m.r1c1 * m.r0c2) * (m.r3c0 * m.r2c3)))) by (nonlinear_arith);
    assert((0real * ((m.r1c1 * m.r0c2) * (m.r2c0 * m.r3c3))) == 0real) by (nonlinear_arith);
    assert((0real * ((m.r1c1 * m.r0c2) * (m.r3c0 * m.r2c3))) == 0real) by (nonlinear_arith);
    assert((0real * (((m.r0c1 * m.r1c3) - (m.r1c1 * m.r0c3)) * ((m.r2c0 * m.r3c2) - (m.r3c0 * m.r2c2))))
        == (0real * ((m.r0c1 * m.r1c3) * ((m.r2c0 * m.r3c2) - (m.r3c0 * m.r2c2)))) - (0real * ((m.r1c1 * m.r0c3) * ((m.r2c0 * m.r3c2) - (m.r3c0 * m.r2c2))))) by (nonlinear_arith);
    assert((0real * ((m.r0c1 * m.r1c3) * ((m.r2c0 * m.r3c2) - (m.r3c0 * m.r2c2))))
        == (0real * ((m.r0c1 * m.r1c3) * (m.r2c0 * m.r3c2))) - (0real * ((m.r0c1 * m.r1c3) * (m.r3c0 * m.r2c2)))) by (nonlinear_arith);
    assert((0real * ((m.r0c1 * m.r1c3) * (m.r2c0 * m.r3c2))) == 0real) by (nonlinear_arith);
    assert((0real * ((m.r0c1 * m.r1c3) * (m.r3c0 * m.r2c2))) == 0real) by (nonlinear_arith);
    assert((0real * ((m.r1c1 * m.r0c3) * ((m.r2c0 * m.r3c2) - (m.r3c0 * m.r2c2))))
        == (0real * ((m.r1c1 * m.r0c3) * (m.r2c0 * m.r3c2))) - (0real * ((m.r1c1 * m.r0c3) * (m.r3c0 * m.r2c2)))) by (nonlinear_arith);
    assert((0real * ((m.r1c1 * m.r0c3) * (m.r2c0 * m.r3c2))) == 0real) by (nonlinear_arith);
    assert((0real * ((m.r1c1 * m.r0c3) * (m.r3c0 * m.r2c2))) == 0real) by (nonlinear_arith);
    assert((0real * (((m.r0c2 * m.r1c3) - (m.r1c2 * m.r0c3)) * ((m.r2c0 * m.r3c1) - (m.r3c0 * m.r2c1))))
        == (0real * ((m.r0c2 * m.r1c3) * ((m.r2c0 * m.r3c1) - (m.r3c0 * m.r2c1)))) - (0real * ((m.r1c2 * m.r0c3) * ((m.r2c0 * m.r3c1) - (m.r3c0 * m.r2c1))))) by (nonlinear_arith);
    assert((0real * ((m.r0c2 * m.r1c3) * ((m.r2c0 * m.r3c1) - (m.r3c0 * m.r2c1))))
        == (0real * ((m.r0c2 * m.r1c3) * (m.r2c0 * m.r3c1))) - (0real * ((m.r0c2 * m.r1c3) * (m.r3c0 * m.r2c1)))) by (nonlinear_arith);
    assert((0real * ((m.r0c2 * m.r1c3) * (m.r2c0 * m.r3c1))) == 0real) by (nonlinear_arith);
    assert((0real * ((m.r0c2 * m.r1c3) * (m.r3c0 * m.r2c1))) == 0real) by (nonlinear_arith);
    assert((0real * ((m.r1c2 * m.r0c3) * ((m.r2c0 * m.r3c1) - (m.r3c0 * m.r2c1))))
        == (0real * ((m.r1c2 * m.r0c3) * (m.r2c0 * m.r3c1))) - (0real * ((m.r1c2 * m.r0c3) * (m.r3c0 * m.r2c1)))) by (nonlinear_arith);
    assert((0real * ((m.r1c2 * m.r0c3) * (m.r2c0 * m.r3c1))) == 0real) by (nonlinear_arith);
    assert((0real * ((m.r1c2 * m.r0c3) * (m.r3c0 * m.r2c1))) == 0real) by (nonlinear_arith);
}

proof fn lemma_real_mat4_times_adjugate_r0c3(m: Mat4Model<real>)
    ensures
        m.times(m.adjugate()).r0c3 == Mat4Model::<real>::identity().times_each(m.determinant()).r0c3,
{
    assert((m.r0c0 * ((((-m.r2c1) * ((m.r0c2 * m.r1c3) - (m.r1c2 * m.r0c3))) + (m.r2c2 * ((m.r0c1 * m.r1c3) - (m.r1c1 * m.r0c3)))) - (m.r2c3 * ((m.r0c1 * m.r1c2) - (m.r1c1 * m.r0c2)))))
        == (m.r0c0 * ((-m.r2c1) * ((m.r0c2 * m.r1c3) - (m.r1c2 * m.r0c3)))) + (m.r0c0 * (m.r2c2 * ((m.r0c1 * m.r1c3) - (m.r1c1 * m.r0c3)))) - (m.r0c0 * (m.r2c3 * ((m.r0c1 * m.r1c2) - (m.r1c1 * m.r0c2))))) by (nonlinear_arith);
    assert((m.r0c0 * ((-m.r2c1) * ((m.r0c2 * m.r1c3) - (m.r1c2 * m.r0c3))))
        == 0real - (m.r0c0 * (m.r2c1 * ((m.r0c2 * m.r1c3) - (m.r1c2 * m.r0c3))))) by (nonlinear_arith);
    assert((m.r0c0 * (m.r2c1 * ((m.r0c2 * m.r1c3) - (m.r1c2 * m.r0c3))))
        == (m.r0c0 * (m.r2c1 * (m.r0c2 * m.r1c3))) - (m.r0c0 * (m.r2c1 * (m.r1c2 * m.r0c3)))) by (nonlinear_arith);
    assert((m.r0c0 * (m.r2c1 * (m.r0c2 * m.r1c3)))
        == m.r0c0 * m.r0c2 * m.r1c3 * m.r2c1) by (nonlinear_arith);
    assert((m.r0c0 * (m.r2c1 * (m.r1c2 * m.r0c3)))
        == m.r0c0 * m.r0c3 * m.r1c2 * m.r2c1) by (nonlinear_arith);
    assert((m.r0c0 * (m.r2c2 * ((m.r0c1 * m.r1c3) - (m.r1c1 * m.r0c3))))
        == (m.r0c0 * (m.r2c2 * (m.r0c1 * m.r1c3))) - (m.r0c0 * (m.r2c2 * (m.r1c1 * m.r0c3)))) by (nonlinear_arith);
    assert((m.r0c0 * (m.r2c2 * (m.r0c1 * m.r1c3)))
        == m.r0c0 * m.r0c1 * m.r1c3 * m.r2c2) by (nonlinear_arith);
    assert((m.r0c0 * (m.r2c2 * (m.r1c1 * m.r0c3)))
        == m.r0c0 * m.r0c3 * m.r1c1 * m.r2c2) by (nonlinear_arith);
    assert((m.r0c0 * (m.r2c3 * ((m.r0c1 * m.r1c2) - (m.r1c1 * m.r0c2))))
        == (m.r0c0 * (m.r2c3 * (m.r0c1 * m.r1c2))) - (m.r0c0 * (m.r2c3 * (m.r1c1 * m.r0c2)))) by (nonlinear_arith);
    assert((m.r0c0 * (m.r2c3 * (m.r0c1 * m.r1c2)))
        == m.r0c0 * m.r0c1 * m.r1c2 * m.r2c3) by (nonlinear_arith);
    assert((m.r0c0 * (m.r2c3 * (m.r1c1 * m.r0c2)))
        == m.r0c0 * m.r0c2 * m.r1c1 * m.r2c3) by (nonlinear_arith);
    assert((m.r0c1 * (((m.r2c0 * ((m.r0c2 * m.r1c3) - (m.r1c2 * m.r0c3))) - (m.r2c2 * ((m.r0c0 * m.r1c3) - (m.r1c0 * m.r0c3)))) + (m.r2c3 * ((m.r0c0 * m.r1c2) - (m.r1c0 * m.r0c2)))))
        == (m.r0c1 * (m.r2c0 * ((m.r0c2 * m.r1c3) - (m.r1c2 * m.r0c3)))) - (m.r0c1 * (m.r2c2 * ((m.r0c0 * m.r1c3) - (m.r1c0 * m.r0c3)))) + (m.r0c1 * (m.r2c3 * ((m.r0c0 * m.r1c2) - (m.r1c0 * m.r0c2))))) by (nonlinear_arith);
    assert((m.r0c1 * (m.r2c0 * ((m.r0c2 * m.r1c3) - (m.r1c2 * m.r0c3))))
        == (m.r0c1 * (m.r2c0 * (m.r0c2 * m.r1c3))) - (m.r0c1 * (m.r2c0 * (m.r1c2 * m.r0c3)))) by (nonlinear_arith);
    assert((m.r0c1 * (m.r2c0 * (m.r0c2 * m.r1c3)))
        == m.r0c1 * m.r0c2 * m.r1c3 * m.r2c0) by (nonlinear_arith);
    assert((m.r0c1 * (m.r2c0 * (m.r1c2 * m.r0c3)))
        == m.r0c1 * m.r0c3 * m.r1c2 * m.r2c0) by (nonlinear_arith);
    assert((m.r0c1 * (m.r2c2 * ((m.r0c0 * m.r1c3) - (m.r1c0 * m.r0c3))))
        == (m.r0c1 * (m.r2c2 * (m.r0c0 * m.r1c3))) - (m.r0c1 * (m.r2c2 * (m.r1c0 * m.r0c3)))) by (nonlinear_arith);
    assert((m.r0c1 * (m.r2c2 * (m.r0c0 * m.r1c3)))
        == m.r0c0 * m.r0c1 * m.r1c3 * m.r2c2) by (nonlinear_arith);
    assert((m.r0c1 * (m.r2c2 * (m.r1c0 * m.r0c3)))
        == m.r0c1 * m.r0c3 * m.r1c0 * m.r2c2) by (nonlinear_arith);
    assert((m.r0c1 * (m.r2c3 * ((m.r0c0 * m.r1c2) - (m.r1c0 * m.r0c2))))
        == (m.r0c1 * (m.r2c3 * (m.r0c0 * m.r1c2))) - (m.r0c1 * (m.r2c3 * (m.r1c0 * m.r0c2)))) by (nonlinear_arith);
    assert((m.r0c1 * (m.r2c3 * (m.r0c0 * m.r1c2)))
        == m.r0c0 * m.r0c1 * m.r1c2 * m.r2c3) by (nonlinear_arith);
    assert((m.r0c1 * (m.r2c3 * (m.r1c0 * m.r0c2)))
        == m.r0c1 * m.r0c2 * m.r1c0 * m.r2c3) by (nonlinear_arith);
    assert((m.r0c2 * ((((-m.r2c0) * ((m.r0c1 * m.r1c3) - (m.r1c1 * m.r0c3))) + (m.r2c1 * ((m.r0c0 * m.r1c3) - (m.r1c0 * m.r0c3)))) - (m.r2c3 * ((m.r0c0 * m.r1c1) - (m.r1c0 * m.r0c1)))))
        == (m.r0c2 * ((-m.r2c0) * ((m.r0c1 * m.r1c3) - (m.r1c1 * m.r0c3)))) + (m.r0c2 * (m.r2c1 * ((m.r0c0 * m.r1c3) - (m.r1c0 * m.r0c3)))) - (m.r0c2 * (m.r2c3 * ((m.r0c0 * m.r1c1) - (m.r1c0 * m.r0c1))))) by (nonlinear_arith);
    assert((m.r0c2 * ((-m.r2c0) * ((m.r0c1 * m.r1c3) - (m.r1c1 * m.r0c3))))
        == 0real - (m.r0c2 * (m.r2c0 * ((m.r0c1 * m.r1c3) - (m.r1c1 * m.r0c3))))) by (nonlinear_arith);
    assert((m.r0c2 * (m.r2c0 * ((m.r0c1 * m.r1c3) - (m.r1c1 * m.r0c3))))
        == (m.r0c2 * (m.r2c0 * (m.r0c1 * m.r1c3))) - (m.r0c2 * (m.r2c0 * (m.r1c1 * m.r0c3)))) by (nonlinear_arith);
    assert((m.r0c2 * (m.r2c0 * (m.r0c1 * m.r1c3)))
        == m.r0c1 * m.r0c2 * m.r1c3 * m.r2c0) by (nonlinear_arith);
    assert((m.r0c2 * (m.r2c0 * (m.r1c1 * m.r0c3)))
        == m.r0c2 * m.r0c3 * m.r1c1 * m.r2c0) by (nonlinear_arith);
    assert((m.r0c2 * (m.r2c1 * ((m.r0c0 * m.r1c3) - (m.r1c0 * m.r0c3))))
        == (m.r0c2 * (m.r2c1 * (m.r0c0 * m.r1c3))) - (m.r0c2 * (m.r2c1 * (m.r1c0 * m.r0c3)))) by (nonlinear_arith);
    assert((m.r0c2 * (m.r2c1 * (m.r0c0 * m.r1c3)))
        == m.r0c0 * m.r0c2 * m.r1c3 * m.r2c1) by (nonlinear_arith);
    assert((m.r0c2 * (m.r2c1 * (m.r1c0 * m.r0c3)))
        == m.r0c2 * m.r0c3 * m.r1c0 * m.r2c1) by (nonlinear_arith);
    assert((m.r0c2 * (m.r2c3 * ((m.r0c0 * m.r1c1) - (m.r1c0 * m.r0c1))))
        == (m.r0c2 * (m.r2c3 * (m.r0c0 * m.r1c1))) - (m.r0c2 * (m.r2c3 * (m.r1c0 * m.r0c1)))) by (nonlinear_arith);
    assert((m.r0c2 * (m.r2c3 * (m.r0c0 * m.r1c1)))
        == m.r0c0 * m.r0c2 * m.r1c1 * m.r2c3) by (nonlinear_arith);
    assert((m.r0c2 * (m.r2c3 * (m.r1c0 * m.r0c1)))
        == m.r0c1 * m.r0c2 * m.r1c0 * m.r2c3) by (nonlinear_arith);
    assert((m.r0c3 * (((m.r2c0 * ((m.r0c1 * m.r1c2) - (m.r1c1 * m.r0c2))) - (m.r2c1 * ((m.r0c0 * m.r1c2) - (m.r1c0 * m.r0c2)))) + (m.r2c2 * ((m.r0c0 * m.r1c1) - (m.r1c0 * m.r0c1)))))
        == (m.r0c3 * (m.r2c0 * ((m.r0c1 * m.r1c2) - (m.r1c1 * m.r0c2)))) - (m.r0c3 * (m.r2c1 * ((m.r0c0 * m.r1c2) - (m.r1c0 * m.r0c2)))) + (m.r0c3 * (m.r2c2 * ((m.r0c0 * m.r1c1) - (m.r1c0 * m.r0c1))))) by (nonlinear_arith);
    assert((m.r0c3 * (m.r2c0 * ((m.r0c1 * m.r1c2) - (m.r1c1 * m.r0c2))))
        == (m.r0c3 * (m.r2c0 * (m.r0c1 * m.r1c2))) - (m.r0c3 * (m.r2c0 * (m.r1c1 * m.r0c2)))) by (nonlinear_arith);
    assert((m.r0c3 * (m.r2c0 * (m.r0c1 * m.r1c2)))
        == m.r0c1 * m.r0c3 * m.r1c2 * m.r2c0) by (nonlinear_arith);
    assert((m.r0c3 * (m.r2c0 * (m.r1c1 * m.r0c2)))
        == m.r0c2 * m.r0c3 * m.r1c1 * m.r2c0) by (nonlinear_arith);
    assert((m.r0c3 * (m.r2c1 * ((m.r0c0 * m.r1c2) - (m.r1c0 * m.r0c2))))
        == (m.r0c3 * (m.r2c1 * (m.r0c0 * m.r1c2))) - (m.r0c3 * (m.r2c1 * (m.r1c0 * m.r0c2)))) by (nonlinear_arith);
    assert((m.r0c3 * (m.r2c1 * (m.r0c0 * m.r1c2)))
        == m.r0c0 * m.r0c3 * m.r1c2 * m.r2c1) by (nonlinear_arith);
    assert((m.r0c3 * (m.r2c1 * (m.r1c0 * m.r0c2)))
        == m.r0c2 * m.r0c3 * m.r1c0 * m.r2c1) by (nonlinear_arith);
    assert((m.r0c3 * (m.r2c2 * ((m.r0c0 * m.r1c1) - (m.r1c0 * m.r0c1))))
        == (m.r0c3 * (m.r2c2 * (m.r0c0 * m.r1c1))) - (m.r0c3 * (m.r2c2 * (m.r1c0 * m.r0c1)))) by (nonlinear_arith);
    assert((m.r0c3 * (m.r2c2 * (m.r0c0 * m.r1c1)))
        == m.r0c0 * m.r0c3 * m.r1c1 * m.r2c2) by (nonlinear_arith);
    assert((m.r0c3 * (m.r2c2 * (m.r1c0 * m.r0c1)))
        == m.r0c1 * m.r0c3 * m.r1c0 * m.r2c2) by (nonlinear_arith);
    assert((0real * ((((((m.r0c0 * m.r1c1) - (m.r1c0 * m.r0c1)) * ((m.r2c2 * m.r3c3) - (m.r3c2 * m.r2c3))) - (((m.r0c0 * m.r1c2) - (m.r1c0 * m.r0c2)) * ((m.r2c1 * m.r3c3) - (m.r3c1 * m.r2c3)))) + (((m.r0c0 * m.r1c3) - (m.r1c0 * m.r0c3)) * ((m.r2c1 * m.r3c2) - (m.r3c1 * m.r2c2)))) + (((((m.r0c1 * m.r1c2) - (m.r1c1 * m.r0c2)) * ((m.r2c0 * m.r3c3) - (m.r3c0 * m.r2c3))) - (((m.r0c1 * m.r1c3) - (m.r1c1 * m.r0c3)) * ((m.r2c0 * m.r3c2) - (m.r3c0 * m.r2c2)))) + (((m.r0c2 * m.r1c3) - (m.r1c2 * m.r0c3)) * ((m.r2c0 * m.r3c1) - (m.r3c0 * m.r2c1))))))
        == (0real * (((m.r0c0 * m.r1c1) - (m.r1c0 * m.r0c1)) * ((m.r2c2 * m.r3c3) - (m.r3c2 * m.r2c3)))) - (0real * (((m.r0c0 * m.r1c2) - (m.r1c0 * m.r0c2)) * ((m.r2c1 * m.r3c3) - (m.r3c1 * m.r2c3)))) + (0real * (((m.r0c0 * m.r1c3) - (m.r1c0 * m.r0c3)) * ((m.r2c1 * m.r3c2) - (m.r3c1 * m.r2c2)))) + (0real * (((m.r0c1 * m.r1c2) - (m.r1c1 * m.r0c2)) * ((m.r2c0 * m.r3c3) - (m.r3c0 * m.r2c3)))) - (0real * (((m.r0c1 * m.r1c3) - (m.r1c1 * m.r0c3)) * ((m.r2c0 * m.r3c2) - (m.r3c0 * m.r2c2)))) + (0real * (((m.r0c2 * m.r1c3) - (m.r1c2 * m.r0c3)) * ((m.r2c0 * m.r3c1) - (m.r3c0 * m.r2c1))))) by (nonlinear_arith);
    assert((0real * (((m.r0c0 * m.r1c1) - (m.r1c0 * m.r0c1)) * ((m.r2c2 * m.r3c3) - (m.r3c2 * m.r2c3))))
        == (0real * ((m.r0c0 * m.r1c1) * ((m.r2c2 * m.r3c3) - (m.r3c2 * m.r2c3)))) - (0real * ((m.r1c0 * m.r0c1) * ((m.r2c2 * m.r3c3) - (m.r3c2 * m.r2c3))))) by (nonlinear_arith);
    assert((0real * ((m.r0c0 * m.r1c1) * ((m.r2c2 * m.r3c3) - (m.r3c2 * m.r2c3))))
        == (0real * ((m.r0c0 * m.r1c1) * (m.r2c2 * m.r3c3))) - (0real * ((m.r0c0 * m.r1c1) * (m.r3c2 * m.r2c3)))) by (nonlinear_arith);
    assert((0real * ((m.r0c0 * m.r1c1) * (m.r2c2 * m.r3c3))) == 0real) by (nonlinear_arith);
    assert((0real * ((m.r0c0 * m.r1c1) * (m.r3c2 * m.r2c3))) == 0real) by (nonlinear_arith);
    assert((0real * ((m.r1c0 * m.r0c1) * ((m.r2c2 * m.r3c3) - (m.r3c2 * m.r2c3))))
        == (0real * ((m.r1c0 * m.r0c1) * (m.r2c2 * m.r3c3))) - (0real * ((m.r1c0 * m.r0c1) * (m.r3c2 * m.r2c3)))) by (nonlinear_arith);
    assert((0real * ((m.r1c0 * m.r0c1) * (m.r2c2 * m.r3c3))) == 0real) by (nonlinear_arith);
    assert((0real * ((m.r1c0 * m.r0c1) * (m.r3c2 * m.r2c3))) == 0real) by (nonlinear_arith);
    assert((0real * (((m.r0c0 * m.r1c2) - (m.r1c0 * m.r0c2)) * ((m.r2c1 * m.r3c3) - (m.r3c1 * m.r2c3))))
        == (0real * ((m.r0c0 * m.r1c2) * ((m.r2c1 * m.r3c3) - (m.r3c1 * m.r2c3)))) - (0real * ((m.r1c0 * m.r0c2) * ((m.r2c1 * m.r3c3) - (m.r3c1 * m.r2c3))))) by (nonlinear_arith);
    assert((0real * ((m.r0c0 * m.r1c2) * ((m.r2c1 * m.r3c3) - (m.r3c1 * m.r2c3))))
        == (0real * ((m.r0c0 * m.r1c2) * (m.r2c1 * m.r3c3))) - (0real * ((m.r0c0 * m.r1c2) * (m.r3c1 * m.r2c3)))) by (nonlinear_arith);
    assert((0real * ((m.r0c0 * m.r1c2) * (m.r2c1 * m.r3c3))) == 0real) by (nonlinear_arith);
    assert((0real * ((m.r0c0 * m.r1c2) * (m.r3c1 * m.r2c3))) == 0real) by (nonlinear_arith);
    assert((0real * ((m.r1c0 * m.r0c2) * ((m.r2c1 * m.r3c3) - (m.r3c1 * m.r2c3))))
        == (0real * ((m.r1c0 * m.r0c2) * (m.r2c1 * m.r3c3))) - (0real * ((m.r1c0 * m.r0c2) * (m.r3c1 * m.r2c3)))) by (nonlinear_arith);
    assert((0real * ((m.r1c0 * m.r0c2) * (m.r2c1 * m.r3c3))) == 0real) by (nonlinear_arith);
    assert((0real * ((m.r1c0 * m.r0c2) * (m.r3c1 * m.r2c3))) == 0real) by (nonlinear_arith);
    assert((0real * (((m.r0c0 * m.r1c3) - (m.r1c0 * m.r0c3)) * ((m.r2c1 * m.r3c2) - (m.r3c1 * m.r2c2))))
        == (0real * ((m.r0c0 * m.r1c3) * ((m.r2c1 * m.r3c2) - (m.r3c1 * m.r2c2)))) - (0real * ((m.r1c0 * m.r0c3) * ((m.r2c1 * m.r3c2) - (m.r3c1 * m.r2c2))))) by (nonlinear_arith);
    assert((0real * ((m.r0c0 * m.r1c3) * ((m.r2c1 * m.r3c2) - (m.r3c1 * m.r2c2))))
        == (0real * ((m.r0c0 * m.r1c3) * (m.r2c1 * m.r3c2))) - (0real * ((m.r0c0 * m.r1c3) * (m.r3c1 * m.r2c2)))) by (nonlinear_arith);
    assert((0real * ((m.r0c0 * m.r1c3) * (m.r2c1 * m.r3c2))) == 0real) by (nonlinear_arith);
    assert((0real * ((m.r0c0 * m.r1c3) * (m.r3c1 * m.r2c2))) == 0real) by (nonlinear_arith);
    assert((0real * ((m.r1c0 * m.r0c3) * ((m.r2c1 * m.r3c2) - (m.r3c1 * m.r2c2))))
        == (0real * ((m.r1c0 * m.r0c3) * (m.r2c1 * m.r3c2))) - (0real * ((m.r1c0 * m.r0c3) * (m.r3c1 * m.r2c2)))) by (nonlinear_arith);
    assert((0real * ((m.r1c0 * m.r0c3) * (m.r2c1 * m.r3c2))) == 0real) by (nonlinear_arith);
    assert((0real * ((m.r1c0 * m.r0c3) * (m.r3c1 * m.r2c2))) == 0real) by (nonlinear_arith);
    assert((0real * (((m.r0c1 * m.r1c2) - (m.r1c1 * m.r0c2)) * ((m.r2c0 * m.r3c3) - (m.r3c0 * m.r2c3))))
        == (0real * ((m.r0c1 * m.r1c2) * ((m.r2c0 * m.r3c3) - (m.r3c0 * m.r2c3)))) - (0real * ((m.r1c1 * m.r0c2) * ((m.r2c0 * m.r3c3) - (m.r3c0 * m.r2c3))))) by (nonlinear_arith);
    assert((0real * ((m.r0c1 * m.r1c2) * ((m.r2c0 * m.r3c3) - (m.r3c0 * m.r2c3))))
        == (0real * ((m.r0c1 * m.r1c2) * (m.r2c0 * m.r3c3))) - (0real * ((m.r0c1 * m.r1c2) * (m.r3c0 * m.r2c3)))) by (nonlinear_arith);
    assert((0real * ((m.r0c1 * m.r1c2) * (m.r2c0 * m.r3c3))) == 0real) by (nonlinear_arith);
    assert((0real * ((m.r0c1 * m.r1c2) * (m.r3c0 * m.r2c3))) == 0real) by (nonlinear_arith);
    assert((0real * ((m.r1c1 * m.r0c2) * ((m.r2c0 * m.r3c3) - (m.r3c0 * m.r2c3))))
        == (0real * ((m.r1c1 * m.r0c2) * (m.r2c0 * m.r3c3))) - (0real * ((m.r1c1 * m.r0c2) * (m.r3c0 * m.r2c3)))) by (nonlinear_arith);
    assert((0real * ((m.r1c1 * m.r0c2) * (m.r2c0 * m.r3c3))) == 0real) by (nonlinear_arith);
    assert((0real * ((m.r1c1 * m.r0c2) * (m.r3c0 * m.r2c3))) == 0real) by (nonlinear_arith);
    assert((0real * (((m.r0c1 * m.r1c3) - (m.r1c1 * m.r0c3)) * ((m.r2c0 * m.r3c2) - (m.r3c0 * m.r2c2))))
        == (0real * ((m.r0c1 * m.r1c3) * ((m.r2c0 * m.r3c2) - (m.r3c0 * m.r2c2)))) - (0real * ((m.r1c1 * m.r0c3) * ((m.r2c0 * m.r3c2) - (m.r3c0 * m.r2c2))))) by (nonlinear_arith);
    assert((0real * ((m.r0c1 * m.r1c3) * ((m.r2c0 * m.r3c2) - (m.r3c0 * m.r2c2))))
        == (0real * ((m.r0c1 * m.r1c3) * (m.r2c0 * m.r3c2))) - (0real * ((m.r0c1 * m.r1c3) * (m.r3c0 * m.r2c2)))) by (nonlinear_arith);
    assert((0real * ((m.r0c1 * m.r1c3) * (m.r2c0 * m.r3c2))) == 0real) by (nonlinear_arith);
    assert((0real * ((m.r0c1 * m.r1c3) * (m.r3c0 * m.r2c2))) == 0real) by (nonlinear_arith);
    assert((0real * ((m.r1c1 * m.r0c3) * ((m.r2c0 * m.r3c2) - (m.r3c0 * m.r2c2))))
        == (0real * ((m.r1c1 * m.r0c3) * (m.r2c0 * m.r3c2))) - (0real * ((m.r1c1 * m.r0c3) * (m.r3c0 * m.r2c2)))) by (nonlinear_arith);
    assert((0real * ((m.r1c1 * m.r0c3) * (m.r2c0 * m.r3c2))) == 0real) by (nonlinear_arith);
    assert((0real * ((m.r1c1 * m.r0c3) * (m.r3c0 * m.r2c2))) == 0real) by (nonlinear_arith);
    assert((0real * (((m.r0c2 * m.r1c3) - (m.r1c2 * m.r0c3)) * ((m.r2c0 * m.r3c1) - (m.r3c0 * m.r2c1))))
        == (0real * ((m.r0c2 * m.r1c3) * ((m.r2c0 * m.r3c1) - (m.r3c0 * m.r2c1)))) - (0real * ((m.r1c2 * m.r0c3) * ((m.r2c0 * m.r3c1) - (m.r3c0 * m.r2c1))))) by (nonlinear_arith);
    assert((0real * ((m.r0c2 * m.r1c3) * ((m.r2c0 * m.r3c1) - (m.r3c0 * m.r2c1))))
        == (0real * ((m.r0c2 * m.r1c3) * (m.r2c0 * m.r3c1))) - (0real * ((m.r0c2 * m.r1c3) * (m.r3c0 * m.r2c1)))) by (nonlinear_arith);
    assert((0real * ((m.r0c2 * m.r1c3) * (m.r2c0 * m.r3c1))) == 0real) by (nonlinear_arith);
    assert((0real * ((m.r0c2 * m.r1c3) * (m.r3c0 * m.r2c1))) == 0real) by (nonlinear_arith);
    assert((0real * ((m.r1c2 * m.r0c3) * ((m.r2c0 * m.r3c1) - (m.r3c0 * m.r2c1))))
        == (0real * ((m.r1c2 * m.r0c3) * (m.r2c0 * m.r3c1))) - (0real * ((m.r1c2 * m.r0c3) * (m.r3c0 * m.r2c1)))) by (nonlinear_arith);
    assert((0real * ((m.r1c2 * m.r0c3) * (m.r2c0 * m.r3c1))) == 0real) by (nonlinear_arith);
    assert((0real * ((m.r1c2 * m.r0c3) * (m.r3c0 * m.r2c1))) == 0real) by (nonlinear_arith);
}

proof fn lemma_real_mat4_times_adjugate_r1c0(m: Mat4Model<real>)
    ensures
        m.times(m.adjugate()).r1c0 == Mat4Model::<real>::identity().times_each(m.determinant()).r1c0,
{
    assert((m.r1c0 * (((m.r1c1 * ((m.r2c2 * m.r3c3) - (m.r3c2 * m.r2c3))) - (m.r1c2 * ((m.r2c1 * m.r3c3) - (m.r3c1 * m.r2c3)))) + (m.r1c3 * ((m.r2c1 * m.r3c2) - (m.r3c1 * m.r2c2)))))
        == (m.r1c0 * (m.r1c1 * ((m.r2c2 * m.r3c3) - (m.r3c2 * m.r2c3)))) - (m.r1c0 * (m.r1c2 * ((m.r2c1 * m.r3c3) - (m.r3c1 * m.r2c3)))) + (m.r1c0 * (m.r1c3 * ((m.r2c1 * m.r3c2) - (m.r3c1 * m.r2c2))))) by (nonlinear_arith);
    assert((m.r1c0 * (m.r1c1 * ((m.r2c2 * m.r3c3) - (m.r3c2 * m.r2c3))))
        == (m.r1c0 * (m.r1c1 * (m.r2c2 * m.r3c3))) - (m.r1c0 * (m.r1c1 * (m.r3c2 * m.r2c3)))) by (nonlinear_arith);
    assert((m.r1c0 * (m.r1c1 * (m.r2c2 * m.r3c3)))
        == m.r1c0 * m.r1c1 * m.r2c2 * m.r3c3) by (nonlinear_arith);
    assert((m.r1c0 * (m.r1c1 * (m.r3c2 * m.r2c3)))
        == m.r1c0 * m.r1c1 * m.r2c3 * m.r3c2) by (nonlinear_arith);
    assert((m.r1c0 * (m.r1c2 * ((m.r2c1 * m.r3c3) - (m.r3c1 * m.r2c3))))
        == (m.r1c0 * (m.r1c2 * (m.r2c1 * m.r3c3))) - (m.r1c0 * (m.r1c2 * (m.r3c1 * m.r2c3)))) by (nonlinear_arith);
    assert((m.r1c0 * (m.r1c2 * (m.r2c1 * m.r3c3)))
        == m.r1c0 * m.r1c2 * m.r2c1 * m.r3c3) by (nonlinear_arith);
    assert((m.r1c0 * (m.r1c2 * (m.r3c1 * m.r2c3)))
        == m.r1c0 * m.r1c2 * m.r2c3 * m.r3c1) by (nonlinear_arith);
    assert((m.r1c0 * (m.r1c3 * ((m.r2c1 * m.r3c2) - (m.r3c1 * m.r2c2))))
        == (m.r1c0 * (m.r1c3 * (m.r2c1 * m.r3c2))) - (m.r1c0 * (m.r1c3 * (m.r3c1 * m.r2c2)))) by (nonlinear_arith);
    assert((m.r1c0 * (m.r1c3 * (m.r2c1 * m.r3c2)))
        == m.r1c0 * m.r1c3 * m.r2c1 * m.r3c2) by (nonlinear_arith);
    assert((m.r1c0 * (m.r1c3 * (m.r3c1 * m.r2c2)))
        == m.r1c0 * m.r1c3 * m.r2c2 * m.r3c1) by (nonlinear_arith);
    assert((m.r1c1 * ((((-m.r1c0) * ((m.r2c2 * m.r3c3) - (m.r3c2 * m.r2c3))) + (m.r1c2 * ((m.r2c0 * m.r3c3) - (m.r3c0 * m.r2c3)))) - (m.r1c3 * ((m.r2c0 * m.r3c2) - (m.r3c0 * m.r2c2)))))
        == (m.r1c1 * ((-m.r1c0) * ((m.r2c2 * m.r3c3) - (m.r3c2 * m.r2c3)))) + (m.r1c1 * (m.r1c2 * ((m.r2c0 * m.r3c3) - (m.r3c0 * m.r2c3)))) - (m.r1c1 * (m.r1c3 * ((m.r2c0 * m.r3c2) - (m.r3c0 * m.r2c2))))) by (nonlinear_arith);
    assert((m.r1c1 * ((-m.r1c0) * ((m.r2c2 * m.r3c3) - (m.r3c2 * m.r2c3))))
        == 0real - (m.r1c1 * (m.r1c0 * ((m.r2c2 * m.r3c3) - (m.r3c2 * m.r2c3))))) by (nonlinear_arith);
    assert((m.r1c1 * (m.r1c0 * ((m.r2c2 * m.r3c3) - (m.r3c2 * m.r2c3))))
        == (m.r1c1 * (m.r1c0 * (m.r2c2 * m.r3c3))) - (m.r1c1 * (m.r1c0 * (m.r3c2 * m.r2c3)))) by (nonlinear_arith);
    assert((m.r1c1 * (m.r1c0 * (m.r2c2 * m.r3c3)))
        == m.r1c0 * m.r1c1 * m.r2c2 * m.r3c3) by (nonlinear_arith);
    assert((m.r1c1 * (m.r1c0 * (m.r3c2 * m.r2c3)))
        == m.r1c0 * m.r1c1 * m.r2c3 * m.r3c2) by (nonlinear_arith);
    assert((m.r1c1 * (m.r1c2 * ((m.r2c0 * m.r3c3) - (m.r3c0 * m.r2c3))))
        == (m.r1c1 * (m.r1c2 * (m.r2c0 * m.r3c3))) - (m.r1c1 * (m.r1c2 * (m.r3c0 * m.r2c3)))) by (nonlinear_arith);
    assert((m.r1c1 * (m.r1c2 * (m.r2c0 * m.r3c3)))
        == m.r1c1 * m.r1c2 * m.r2c0 * m.r3c3) by (nonlinear_arith);
    assert((m.r1c1 * (m.r1c2 * (m.r3c0 * m.r2c3)))
        == m.r1c1 * m.r1c2 * m.r2c3 * m.r3c0) by (nonlinear_arith);
    assert((m.r1c1 * (m.r1c3 * ((m.r2c0 * m.r3c2) - (m.r3c0 * m.r2c2))))
        == (m.r1c1 * (m.r1c3 * (m.r2c0 * m.r3c2))) - (m.r1c1 * (m.r1c3 * (m.r3c0 * m.r2c2)))) by (nonlinear_arith);
    assert((m.r1c1 * (m.r1c3 * (m.r2c0 * m.r3c2)))
        == m.r1c1 * m.r1c3 * m.r2c0 * m.r3c2) by (nonlinear_arith);
    assert((m.r1c1 * (m.r1c3 * (m.r3c0 * m.r2c2)))
        == m.r1c1 * m.r1c3 * m.r2c2 * m.r3c0) by (nonlinear_arith);
    assert((m.r1c2 * (((m.r1c0 * ((m.r2c1 * m.r3c3) - (m.r3c1 * m.r2c3))) - (m.r1c1 * ((m.r2c0 * m.r3c3) - (m.r3c0 * m.r2c3)))) + (m.r1c3 * ((m.r2c0 * m.r3c1) - (m.r3c0 * m.r2c1)))))
        == (m.r1c2 * (m.r1c0 * ((m.r2c1 * m.r3c3) - (m.r3c1 * m.r2c3)))) - (m.r1c2 * (m.r1c1 * ((m.r2c0 * m.r3c3) - (m.r3c0 * m.r2c3)))) + (m.r1c2 * (m.r1c3 * ((m.r2c0 * m.r3c1) - (m.r3c0 * m.r2c1))))) by (nonlinear_arith);
    assert((m.r1c2 * (m.r1c0 * ((m.r2c1 * m.r3c3) - (m.r3c1 * m.r2c3))))
        == (m.r1c2 * (m.r1c0 * (m.r2c1 * m.r3c3))) - (m.r1c2 * (m.r1c0 * (m.r3c1 * m.r2c3)))) by (nonlinear_arith);
    assert((m.r1c2 * (m.r1c0 * (m.r2c1 * m.r3c3)))
        == m.r1c0 * m.r1c2 * m.r2c1 * m.r3c3) by (nonlinear_arith);
    assert((m.r1c2 * (m.r1c0 * (m.r3c1 * m.r2c3)))
        == m.r1c0 * m.r1c2 * m.r2c3 * m.r3c1) by (nonlinear_arith);
    assert((m.r1c2 * (m.r1c1 * ((m.r2c0 * m.r3c3) - (m.r3c0 * m.r2c3))))
        == (m.r1c2 * (m.r1c1 * (m.r2c0 * m.r3c3))) - (m.r1c2 * (m.r1c1 * (m.r3c0 * m.r2c3)))) by (nonlinear_arith);
    assert((m.r1c2 * (m.r1c1 * (m.r2c0 * m.r3c3)))
        == m.r1c1 * m.r1c2 * m.r2c0 * m.r3c3) by (nonlinear_arith);
    assert((m.r1c2 * (m.r1c1 * (m.r3c0 * m.r2c3)))
        == m.r1c1 * m.r1c2 * m.r2c3 * m.r3c0) by (nonlinear_arith);
    assert((m.r1c2 * (m.r1c3 * ((m.r2c0 * m.r3c1) - (m.r3c0 * m.r2c1))))
        == (m.r1c2 * (m.r1c3 * (m.r2c0 * m.r3c1))) - (m.r1c2 * (m.r1c3 * (m.r3c0 * m.r2c1)))) by (nonlinear_arith);
    assert((m.r1c2 * (m.r1c3 * (m.r2c0 * m.r3c1)))
        == m.r1c2 * m.r1c3 * m.r2c0 * m.r3c1) by (nonlinear_arith);
    assert((m.r1c2 * (m.r1c3 * (m.r3c0 * m.r2c1)))
        == m.r1c2 * m.r1c3 * m.r2c1 * m.r3c0) by (nonlinear_arith);
    assert((m.r1c3 * ((((-m.r1c0) * ((m.r2c1 * m.r3c2) - (m.r3c1 * m.r2c2))) + (m.r1c1 * ((m.r2c0 * m.r3c2) - (m.r3c0 * m.r2c2)))) - (m.r1c2 * ((m.r2c0 * m.r3c1) - (m.r3c0 * m.r2c1)))))
        == (m.r1c3 * ((-m.r1c0) * ((m.r2c1 * m.r3c2) - (m.r3c1 * m.r2c2)))) + (m.r1c3 * (m.r1c1 * ((m.r2c0 * m.r3c2) - (m.r3c0 * m.r2c2)))) - (m.r1c3 * (m.r1c2 * ((m.r2c0 * m.r3c1) - (m.r3c0 * m.r2c1))))) by (nonlinear_arith);
    assert((m.r1c3 * ((-m.r1c0) * ((m.r2c1 * m.r3c2) - (m.r3c1 * m.r2c2))))
        == 0real - (m.r1c3 * (m.r1c0 * ((m.r2c1 * m.r3c2) - (m.r3c1 * m.r2c2))))) by (nonlinear_arith);
    assert((m.r1c3 * (m.r1c0 * ((m.r2c1 * m.r3c2) - (m.r3c1 * m.r2c2))))
        == (m.r1c3 * (m.r1c0 * (m.r2c1 * m.r3c2))) - (m.r1c3 * (m.r1c0 * (m.r3c1 * m.r2c2)))) by (nonlinear_arith);
    assert((m.r1c3 * (m.r1c0 * (m.r2c1 * m.r3c2)))
        == m.r1c0 * m.r1c3 * m.r2c1 * m.r3c2) by (nonlinear_arith);
    assert((m.r1c3 * (m.r1c0 * (m.r3c1 * m.r2c2)))
        == m.r1c0 * m.r1c3 * m.r2c2 * m.r3c1) by (nonlinear_arith);
    assert((m.r1c3 * (m.r1c1 * ((m.r2c0 * m.r3c2) - (m.r3c0 * m.r2c2))))
        == (m.r1c3 * (m.r1c1 * (m.r2c0 * m.r3c2))) - (m.r1c3 * (m.r1c1 * (m.r3c0 * m.r2c2)))) by (nonlinear_arith);
    assert((m.r1c3 * (m.r1c1 * (m.r2c0 * m.r3c2)))
        == m.r1c1 * m.r1c3 * m.r2c0 * m.r3c2) by (nonlinear_arith);
    assert((m.r1c3 * (m.r1c1 * (m.r3c0 * m.r2c2)))
        == m.r1c1 * m.r1c3 * m.r2c2 * m.r3c0) by (nonlinear_arith);
    assert((m.r1c3 * (m.r1c2 * ((m.r2c0 * m.r3c1) - (m.r3c0 * m.r2c1))))
        == (m.r1c3 * (m.r1c2 * (m.r2c0 * m.r3c1))) - (m.r1c3 * (m.r1c2 * (m.r3c0 * m.r2c1)))) by (nonlinear_arith);
    assert((m.r1c3 * (m.r1c2 * (m.r2c0 * m.r3c1)))
        == m.r1c2 * m.r1c3 * m.r2c0 * m.r3c1) by (nonlinear_arith);
    assert((m.r1c3 * (m.r1c2 * (m.r3c0 * m.r2c1)))
        == m.r1c2 * m.r1c3 * m.r2c1 * m.r3c0) by (nonlinear_arith);
    assert((0real * ((((((m.r0c0 * m.r1c1) - (m.r1c0 * m.r0c1)) * ((m.r2c2 * m.r3c3) - (m.r3c2 * m.r2c3))) - (((m.r0c0 * m.r1c2) - (m.r1c0 * m.r0c2)) * ((m.r2c1 * m.r3c3) - (m.r3c1 * m.r2c3)))) + (((m.r0c0 * m.r1c3) - (m.r1c0 * m.r0c3)) * ((m.r2c1 * m.r3c2) - (m.r3c1 * m.r2c2)))) + (((((m.r0c1 * m.r1c2) - (m.r1c1 * m.r0c2)) * ((m.r2c0 * m.r3c3) - (m.r3c0 * m.r2c3))) - (((m.r0c1 * m.r1c3) - (m.r1c1 * m.r0c3)) * ((m.r2c0 * m.r3c2) - (m.r3c0 * m.r2c2)))) + (((m.r0c2 * m.r1c3) - (m.r1c2 * m.r0c3)) * ((m.r2c0 * m.r3c1) - (m.r3c0 * m.r2c1))))))
        == (0real * (((m.r0c0 * m.r1c1) - (m.r1c0 * m.r0c1)) * ((m.r2c2 * m.r3c3) - (m.r3c2 * m.r2c3)))) - (0real * (((m.r0c0 * m.r1c2) - (m.r1c0 * m.r0c2)) * ((m.r2c1 * m.r3c3) - (m.r3c1 * m.r2c3)))) + (0real * (((m.r0c0 * m.r1c3) - (m.r1c0 * m.r0c3)) * ((m.r2c1 * m.r3c2) - (m.r3c1 * m.r2c2)))) + (0real * (((m.r0c1 * m.r1c2) - (m.r1c1 * m.r0c2)) * ((m.r2c0 * m.r3c3) - (m.r3c0 * m.r2c3)))) - (0real * (((m.r0c1 * m.r1c3) - (m.r1c1 * m.r0c3)) * ((m.r2c0 * m.r3c2) - (m.r3c0 * m.r2c2)))) + (0real * (((m.r0c2 * m.r1c3) - (m.r1c2 * m.r0c3)) * ((m.r2c0 * m.r3c1) - (m.r3c0 * m.r2c1))))) by (nonlinear_arith);
    assert((0real * (((m.r0c0 * m.r1c1) - (m.r1c0 * m.r0c1)) * ((m.r2c2 * m.r3c3) - (m.r3c2 * m.r2c3))))
        == (0real * ((m.r0c0 * m.r1c1) * ((m.r2c2 * m.r3c3) - (m.r3c2 * m.r2c3)))) - (0real * ((m.r1c0 * m.r0c1) * ((m.r2c2 * m.r3c3) - (m.r3c2 * m.r2c3))))) by (nonlinear_arith);
    assert((0real * ((m.r0c0 * m.r1c1) * ((m.r2c2 * m.r3c3) - (m.r3c2 * m.r2c3))))
        == (0real * ((m.r0c0 * m.r1c1) * (m.r2c2 * m.r3c3))) - (0real * ((m.r0c0 * m.r1c1) * (m.r3c2 * m.r2c3)))) by (nonlinear_arith);
    assert((0real * ((m.r0c0 * m.r1c1) * (m.r2c2 * m.r3c3))) == 0real) by (nonlinear_arith);
    assert((0real * ((m.r0c0 * m.r1c1) * (m.r3c2 * m.r2c3))) == 0real) by (nonlinear_arith);
    assert((0real * ((m.r1c0 * m.r0c1) * ((m.r2c2 * m.r3c3) - (m.r3c2 * m.r2c3))))
        == (0real * ((m.r1c0 * m.r0c1) * (m.r2c2 * m.r3c3))) - (0real * ((m.r1c0 * m.r0c1) * (m.r3c2 * m.r2c3)))) by (nonlinear_arith);
    assert((0real * ((m.r1c0 * m.r0c1) * (m.r2c2 * m.r3c3))) == 0real) by (nonlinear_arith);
    assert((0real * ((m.r1c0 * m.r0c1) * (m.r3c2 * m.r2c3))) == 0real) by (nonlinear_arith);
    assert((0real * (((m.r0c0 * m.r1c2) - (m.r1c0 * m.r0c2)) * ((m.r2c1 * m.r3c3) - (m.r3c1 * m.r2c3))))
        == (0real * ((m.r0c0 * m.r1c2) * ((m.r2c1 * m.r3c3) - (m.r3c1 * m.r2c3)))) - (0real * ((m.r1c0 * m.r0c2) * ((m.r2c1 * m.r3c3) - (m.r3c1 * m.r2c3))))) by (nonlinear_arith);
    assert((0real * ((m.r0c0 * m.r1c2) * ((m.r2c1 * m.r3c3) - (m.r3c1 * m.r2c3))))
        == (0real * ((m.r0c0 * m.r1c2) * (m.r2c1 * m.r3c3))) - (0real * ((m.r0c0 * m.r1c2) * (m.r3c1 * m.r2c3)))) by (nonlinear_arith);
    assert((0real * ((m.r0c0 * m.r1c2) * (m.r2c1 * m.r3c3))) == 0real) by (nonlinear_arith);
    assert((0real * ((m.r0c0 * m.r1c2) * (m.r3c1 * m.r2c3))) == 0real) by (nonlinear_arith);
    assert((0real * ((m.r1c0 * m.r0c2) * ((m.r2c1 * m.r3c3) - (m.r3c1 * m.r2c3))))
        == (0real * ((m.r1c0 * m.r0c2) * (m.r2c1 * m.r3c3))) - (0real * ((m.r1c0 * m.r0c2) * (m.r3c1 * m.r2c3)))) by (nonlinear_arith);
    assert((0real * ((m.r1c0 * m.r0c2) * (m.r2c1 * m.r3c3))) == 0real) by (nonlinear_arith);
    assert((0real * ((m.r1c0 * m.r0c2) * (m.r3c1 * m.r2c3))) == 0real) by (nonlinear_arith);
    assert((0real * (((m.r0c0 * m.r1c3) - (m.r1c0 * m.r0c3)) * ((m.r2c1 * m.r3c2) - (m.r3c1 * m.r2c2))))
        == (0real * ((m.r0c0 * m.r1c3) * ((m.r2c1 * m.r3c2) - (m.r3c1 * m.r2c2)))) - (0real * ((m.r1c0 * m.r0c3) * ((m.r2c1 * m.r3c2) - (m.r3c1 * m.r2c2))))) by (nonlinear_arith);
    assert((0real * ((m.r0c0 * m.r1c3) * ((m.r2c1 * m.r3c2) - (m.r3c1 * m.r2c2))))
        == (0real * ((m.r0c0 * m.r1c3) * (m.r2c1 * m.r3c2))) - (0real * ((m.r0c0 * m.r1c3) * (m.r3c1 * m.r2c2)))) by (nonlinear_arith);
    assert((0real * ((m.r0c0 * m.r1c3) * (m.r2c1 * m.r3c2))) == 0real) by (nonlinear_arith);
    assert((0real * ((m.r0c0 * m.r1c3) * (m.r3c1 * m.r2c2))) == 0real) by (nonlinear_arith);
    assert((0real * ((m.r1c0 * m.r0c3) * ((m.r2c1 * m.r3c2) - (m.r3c1 * m.r2c2))))
        == (0real * ((m.r1c0 * m.r0c3) * (m.r2c1 * m.r3c2))) - (0real * ((m.r1c0 * m.r0c3) * (m.r3c1 * m.r2c2)))) by (nonlinear_arith);
    assert((0real * ((m.r1c0 * m.r0c3) * (m.r2c1 * m.r3c2))) == 0real) by (nonlinear_arith);
    assert((0real * ((m.r1c0 * m.r0c3) * (m.r3c1 * m.r2c2))) == 0real) by (nonlinear_arith);
    assert((0real * (((m.r0c1 * m.r1c2) - (m.r1c1 * m.r0c2)) * ((m.r2c0 * m.r3c3) - (m.r3c0 * m.r2c3))))
        == (0real * ((m.r0c1 * m.r1c2) * ((m.r2c0 * m.r3c3) - (m.r3c0 * m.r2c3)))) - (0real * ((m.r1c1 * m.r0c2) * ((m.r2c0 * m.r3c3) - (m.r3c0 * m.r2c3))))) by (nonlinear_arith);
    assert((0real * ((m.r0c1 * m.r1c2) * ((m.r2c0 * m.r3c3) - (m.r3c0 * m.r2c3))))
        == (0real * ((m.r0c1 * m.r1c2) * (m.r2c0 * m.r3c3))) - (0real * ((m.r0c1 * m.r1c2) * (m.r3c0 * m.r2c3)))) by (nonlinear_arith);
    assert((0real * ((m.r0c1 * m.r1c2) * (m.r2c0 * m.r3c3))) == 0real) by (nonlinear_arith);
    assert((0real * ((m.r0c1 * m.r1c2) * (m.r3c0 * m.r2c3))) == 0real) by (nonlinear_arith);
    assert((0real * ((m.r1c1 * m.r0c2) * ((m.r2c0 * m.r3c3) - (m.r3c0 * m.r2c3))))
        == (0real * ((m.r1c1 * m.r0c2) * (m.r2c0 * m.r3c3))) - (0real * ((m.r1c1 * m.r0c2) * (m.r3c0 * m.r2c3)))) by (nonlinear_arith);
    assert((0real * ((m.r1c1 * m.r0c2) * (m.r2c0 * m.r3c3))) == 0real) by (nonlinear_arith);
    assert((0real * ((m.r1c1 * m.r0c2) * (m.r3c0 * m.r2c3))) == 0real) by (nonlinear_arith);
    assert((0real * (((m.r0c1 * m.r1c3) - (m.r1c1 * m.r0c3)) * ((m.r2c0 * m.r3c2) - (m.r3c0 * m.r2c2))))
        == (0real * ((m.r0c1 * m.r1c3) * ((m.r2c0 * m.r3c2) - (m.r3c0 * m.r2c2)))) - (0real * ((m.r1c1 * m.r0c3) * ((m.r2c0 * m.r3c2) - (m.r3c0 * m.r2c2))))) by (nonlinear_arith);
    assert((0real * ((m.r0c1 * m.r1c3) * ((m.r2c0 * m.r3c2) - (m.r3c0 * m.r2c2))))
        == (0real * ((m.r0c1 * m.r1c3) * (m.r2c0 * m.r3c2))) - (0real * ((m.r0c1 * m.r1c3) * (m.r3c0 * m.r2c2)))) by (nonlinear_arith);
    assert((0real * ((m.r0c1 * m.r1c3) * (m.r2c0 * m.r3c2))) == 0real) by (nonlinear_arith);
    assert((0real * ((m.r0c1 * m.r1c3) * (m.r3c0 * m.r2c2))) == 0real) by (nonlinear_arith);
    assert((0real * ((m.r1c1 * m.r0c3) * ((m.r2c0 * m.r3c2) - (m.r3c0 * m.r2c2))))
        == (0real * ((m.r1c1 * m.r0c3) * (m.r2c0 * m.r3c2))) - (0real * ((m.r1c1 * m.r0c3) * (m.r3c0 * m.r2c2)))) by (nonlinear_arith);
    assert((0real * ((m.r1c1 * m.r0c3) * (m.r2c0 * m.r3c2))) == 0real) by (nonlinear_arith);
    assert((0real * ((m.r1c1 * m.r0c3) * (m.r3c0 * m.r2c2))) == 0real) by (nonlinear_arith);
    assert((0real * (((m.r0c2 * m.r1c3) - (m.r1c2 * m.r0c3)) * ((m.r2c0 * m.r3c1) - (m.r3c0 * m.r2c1))))
        == (0real * ((m.r0c2 * m.r1c3) * ((m.r2c0 * m.r3c1) - (m.r3c0 * m.r2c1)))) - (0real * ((m.r1c2 * m.r0c3) * ((m.r2c0 * m.r3c1) - (m.r3c0 * m.r2c1))))) by (nonlinear_arith);
    assert((0real * ((m.r0c2 * m.r1c3) * ((m.r2c0 * m.r3c1) - (m.r3c0 * m.r2c1))))
        == (0real * ((m.r0c2 * m.r1c3) * (m.r2c0 * m.r3c1))) - (0real * ((m.r0c2 * m.r1c3) * (m.r3c0 * m.r2c1)))) by (nonlinear_arith);
    assert((0real * ((m.r0c2 * m.r1c3) * (m.r2c0 * m.r3c1))) == 0real) by (nonlinear_arith);
    assert((0real * ((m.r0c2 * m.r1c3) * (m.r3c0 * m.r2c1))) == 0real) by (nonlinear_arith);
    assert((0real * ((m.r1c2 * m.r0c3) * ((m.r2c0 * m.r3c1) - (m.r3c0 * m.r2c1))))
        == (0real * ((m.r1c2 * m.r0c3) * (m.r2c0 * m.r3c1))) - (0real * ((m.r1c2 * m.r0c3) * (m.r3c0 * m.r2c1)))) by (nonlinear_arith);
    assert((0real * ((m.r1c2 * m.r0c3) * (m.r2c0 * m.r3c1))) == 0real) by (nonlinear_arith);
    assert((0real * ((m.r1c2 * m.r0c3) * (m.r3c0 * m.r2c1))) == 0real) by (nonlinear_arith);
}

proof fn lemma_real_mat4_times_adjugate_r1c1(m: Mat4Model<real>)
    ensures
        m.times(m.adjugate()).r1c1 == Mat4Model::<real>::identity().times_each(m.determinant()).r1c1,
{
    assert((m.r1c0 * ((((-m.r0c1) * ((m.r2c2 * m.r3c3) - (m.r3c2 * m.r2c3))) + (m.r0c2 * ((m.r2c1 * m.r3c3) - (m.r3c1 * m.r2c3)))) - (m.r0c3 * ((m.r2c1 * m.r3c2) - (m.r3c1 * m.r2c2)))))
        == (m.r1c0 * ((-m.r0c1) * ((m.r2c2 * m.r3c3) - (m.r3c2 * m.r2c3)))) + (m.r1c0 * (m.r0c2 * ((m.r2c1 * m.r3c3) - (m.r3c1 * m.r2c3)))) - (m.r1c0 * (m.r0c3 * ((m.r2c1 * m.r3c2) - (m.r3c1 * m.r2c2))))) by (nonlinear_arith);
    assert((m.r1c0 * ((-m.r0c1) * ((m.r2c2 * m.r3c3) - (m.r3c2 * m.r2c3))))
        == 0real - (m.r1c0 * (m.r0c1 * ((m.r2c2 * m.r3c3) - (m.r3c2 * m.r2c3))))) by (nonlinear_arith);
    assert((m.r1c0 * (m.r0c1 * ((m.r2c2 * m.r3c3) - (m.r3c2 * m.r2c3))))
        == (m.r1c0 * (m.r0c1 * (m.r2c2 * m.r3c3))) - (m.r1c0 * (m.r0c1 * (m.r3c2 * m.r2c3)))) by (nonlinear_arith);
    assert((m.r1c0 * (m.r0c1 * (m.r2c2 * m.r3c3)))
        == m.r0c1 * m.r1c0 * m.r2c2 * m.r3c3) by (nonlinear_arith);
    assert((m.r1c0 * (m.r0c1 * (m.r3c2 * m.r2c3)))
        == m.r0c1 * m.r1c0 * m.r2c3 * m.r3c2) by (nonlinear_arith);
    assert((m.r1c0 * (m.r0c2 * ((m.r2c1 * m.r3c3) - (m.r3c1 * m.r2c3))))
        == (m.r1c0 * (m.r0c2 * (m.r2c1 * m.r3c3))) - (m.r1c0 * (m.r0c2 * (m.r3c1 * m.r2c3)))) by (nonlinear_arith);
    assert((m.r1c0 * (m.r0c2 * (m.r2c1 * m.r3c3)))
        == m.r0c2 * m.r1c0 * m.r2c1 * m.r3c3) by (nonlinear_arith);
    assert((m.r1c0 * (m.r0c2 * (m.r3c1 * m.r2c3)))
        == m.r0c2 * m.r1c0 * m.r2c3 * m.r3c1) by (nonlinear_arith);
    assert((m.r1c0 * (m.r0c3 * ((m.r2c1 * m.r3c2) - (m.r3c1 * m.r2c2))))
        == (m.r1c0 * (m.r0c3 * (m.r2c1 * m.r3c2))) - (m.r1c0 * (m.r0c3 * (m.r3c1 * m.r2c2)))) by (nonlinear_arith);
    assert((m.r1c0 * (m.r0c3 * (m.r2c1 * m.r3c2)))
        == m.r0c3 * m.r1c0 * m.r2c1 * m.r3c2) by (nonlinear_arith);
    assert((m.r1c0 * (m.r0c3 * (m.r3c1 * m.r2c2)))
        == m.r0c3 * m.r1c0 * m.r2c2 * m.r3c1) by (nonlinear_arith);
    assert((m.r1c1 * (((m.r0c0 * ((m.r2c2 * m.r3c3) - (m.r3c2 * m.r2c3))) - (m.r0c2 * ((m.r2c0 * m.r3c3) - (m.r3c0 * m.r2c3)))) + (m.r0c3 * ((m.r2c0 * m.r3c2) - (m.r3c0 * m.r2c2)))))
        == (m.r1c1 * (m.r0c0 * ((m.r2c2 * m.r3c3) - (m.r3c2 * m.r2c3)))) - (m.r1c1 * (m.r0c2 * ((m.r2c0 * m.r3c3) - (m.r3c0 * m.r2c3)))) + (m.r1c1 * (m.r0c3 * ((m.r2c0 * m.r3c2) - (m.r3c0 * m.r2c2))))) by (nonlinear_arith);
    assert((m.r1c1 * (m.r0c0 * ((m.r2c2 * m.r3c3) - (m.r3c2 * m.r2c3))))
        == (m.r1c1 * (m.r0c0 * (m.r2c2 * m.r3c3))) - (m.r1c1 * (m.r0c0 * (m.r3c2 * m.r2c3)))) by (nonlinear_arith);
    assert((m.r1c1 * (m.r0c0 * (m.r2c2 * m.r3c3)))
        == m.r0c0 * m.r1c1 * m.r2c2 * m.r3c3) by (nonlinear_arith);
    assert((m.r1c1 * (m.r0c0 * (m.r3c2 * m.r2c3)))
        == m.r0c0 * m.r1c1 * m.r2c3 * m.r3c2) by (nonlinear_arith);
    assert((m.r1c1 * (m.r0c2 * ((m.r2c0 * m.r3c3) - (m.r3c0 * m.r2c3))))
        == (m.r1c1 * (m.r0c2 * (m.r2c0 * m.r3c3))) - (m.r1c1 * (m.r0c2 * (m.r3c0 * m.r2c3)))) by (nonlinear_arith);
    assert((m.r1c1 * (m.r0c2 * (m.r2c0 * m.r3c3)))
        == m.r0c2 * m.r1c1 * m.r2c0 * m.r3c3) by (nonlinear_arith);
    assert((m.r1c1 * (m.r0c2 * (m.r3c0 * m.r2c3)))
        == m.r0c2 * m.r1c1 * m.r2c3 * m.r3c0) by (nonlinear_arith);
    assert((m.r1c1 * (m.r0c3 * ((m.r2c0 * m.r3c2) - (m.r3c0 * m.r2c2))))
        == (m.r1c1 * (m.r0c3 * (m.r2c0 * m.r3c2))) - (m.r1c1 * (m.r0c3 * (m.r3c0 * m.r2c2)))) by (nonlinear_arith);
    assert((m.r1c1 * (m.r0c3 * (m.r2c0 * m.r3c2)))
        == m.r0c3 * m.r1c1 * m.r2c0 * m.r3c2) by (nonlinear_arith);
    assert((m.r1c1 * (m.r0c3 * (m.r3c0 * m.r2c2)))
        == m.r0c3 * m.r1c1 * m.r2c2 * m.r3c0) by (nonlinear_arith);
    assert((m.r1c2 * ((((-m.r0c0) * ((m.r2c1 * m.r3c3) - (m.r3c1 * m.r2c3))) + (m.r0c1 * ((m.r2c0 * m.r3c3) - (m.r3c0 * m.r2c3)))) - (m.r0c3 * ((m.r2c0 * m.r3c1) - (m.r3c0 * m.r2c1)))))
        == (m.r1c2 * ((-m.r0c0) * ((m.r2c1 * m.r3c3) - (m.r3c1 * m.r2c3)))) + (m.r1c2 * (m.r0c1 * ((m.r2c0 * m.r3c3) - (m.r3c0 * m.r2c3)))) - (m.r1c2 * (m.r0c3 * ((m.r2c0 * m.r3c1) - (m.r3c0 * m.r2c1))))) by (nonlinear_arith);
    assert((m.r1c2 * ((-m.r0c0) * ((m.r2c1 * m.r3c3) - (m.r3c1 * m.r2c3))))
        == 0real - (m.r1c2 * (m.r0c0 * ((m.r2c1 * m.r3c3) - (m.r3c1 * m.r2c3))))) by (nonlinear_arith);
    assert((m.r1c2 * (m.r0c0 * ((m.r2c1 * m.r3c3) - (m.r3c1 * m.r2c3))))
        == (m.r1c2 * (m.r0c0 * (m.r2c1 * m.r3c3))) - (m.r1c2 * (m.r0c0 * (m.r3c1 * m.r2c3)))) by (nonlinear_arith);
    assert((m.r1c2 * (m.r0c0 * (m.r2c1 * m.r3c3)))
        == m.r0c0 * m.r1c2 * m.r2c1 * m.r3c3) by (nonlinear_arith);
    assert((m.r1c2 * (m.r0c0 * (m.r3c1 * m.r2c3)))
        == m.r0c0 * m.r1c2 * m.r2c3 * m.r3c1) by (nonlinear_arith);
    assert((m.r1c2 * (m.r0c1 * ((m.r2c0 * m.r3c3) - (m.r3c0 * m.r2c3))))
        == (m.r1c2 * (m.r0c1 * (m.r2c0 * m.r3c3))) - (m.r1c2 * (m.r0c1 * (m.r3c0 * m.r2c3)))) by (nonlinear_arith);
    assert((m.r1c2 * (m.r0c1 * (m.r2c0 * m.r3c3)))
        == m.r0c1 * m.r1c2 * m.r2c0 * m.r3c3) by (nonlinear_arith);
    assert((m.r1c2 * (m.r0c1 * (m.r3c0 * m.r2c3)))
        == m.r0c1 * m.r1c2 * m.r2c3 * m.r3c0) by (nonlinear_arith);
    assert((m.r1c2 * (m.r0c3 * ((m.r2c0 * m.r3c1) - (m.r3c0 * m.r2c1))))
        == (m.r1c2 * (m.r0c3 * (m.r2c0 * m.r3c1))) - (m.r1c2 * (m.r0c3 * (m.r3c0 * m.r2c1)))) by (nonlinear_arith);
    assert((m.r1c2 * (m.r0c3 * (m.r2c0 * m.r3c1)))
        == m.r0c3 * m.r1c2 * m.r2c0 * m.r3c1) by (nonlinear_arith);
    assert((m.r1c2 * (m.r0c3 * (m.r3c0 * m.r2c1)))
        == m.r0c3 * m.r1c2 * m.r2c1 * m.r3c0) by (nonlinear_arith);
    assert((m.r1c3 * (((m.r0c0 * ((m.r2c1 * m.r3c2) - (m.r3c1 * m.r2c2))) - (m.r0c1 * ((m.r2c0 * m.r3c2) - (m.r3c0 * m.r2c2)))) + (m.r0c2 * ((m.r2c0 * m.r3c1) - (m.r3c0 * m.r2c1)))))
        == (m.r1c3 * (m.r0c0 * ((m.r2c1 * m.r3c2) - (m.r3c1 * m.r2c2)))) - (m.r1c3 * (m.r0c1 * ((m.r2c0 * m.r3c2) - (m.r3c0 * m.r2c2)))) + (m.r1c3 * (m.r0c2 * ((m.r2c0 * m.r3c1) - (m.r3c0 * m.r2c1))))) by (nonlinear_arith);
    assert((m.r1c3 * (m.r0c0 * ((m.r2c1 * m.r3c2) - (m.r3c1 * m.r2c2))))
        == (m.r1c3 * (m.r0c0 * (m.r2c1 * m.r3c2))) - (m.r1c3 * (m.r0c0 * (m.r3c1 * m.r2c2)))) by (nonlinear_arith);
    assert((m.r1c3 * (m.r0c0 * (m.r2c1 * m.r3c2)))
        == m.r0c0 * m.r1c3 * m.r2c1 * m.r3c2) by (nonlinear_arith);
    assert((m.r1c3 * (m.r0c0 * (m.r3c1 * m.r2c2)))
        == m.r0c0 * m.r1c3 * m.r2c2 * m.r3c1) by (nonlinear_arith);
    assert((m.r1c3 * (m.r0c1 * ((m.r2c0 * m.r3c2) - (m.r3c0 * m.r2c2))))
        == (m.r1c3 * (m.r0c1 * (m.r2c0 * m.r3c2))) - (m.r1c3 * (m.r0c1 * (m.r3c0 * m.r2c2)))) by (nonlinear_arith);
    assert((m.r1c3 * (m.r0c1 * (m.r2c0 * m.r3c2)))
        == m.r0c1 * m.r1c3 * m.r2c0 * m.r3c2) by (nonlinear_arith);
    assert((m.r1c3 * (m.r0c1 * (m.r3c0 * m.r2c2)))
        == m.r0c1 * m.r1c3 * m.r2c2 * m.r3c0) by (nonlinear_arith);
    assert((m.r1c3 * (m.r0c2 * ((m.r2c0 * m.r3c1) - (m.r3c0 * m.r2c1))))
        == (m.r1c3 * (m.r0c2 * (m.r2c0 * m.r3c1))) - (m.r1c3 * (m.r0c2 * (m.r3c0 * m.r2c1)))) by (nonlinear_arith);
    assert((m.r1c3 * (m.r0c2 * (m.r2c0 * m.r3c1)))
        == m.r0c2 * m.r1c3 * m.r2c0 * m.r3c1) by (nonlinear_arith);
    assert((m.r1c3 * (m.r0c2 * (m.r3c0 * m.r2c1)))
        == m.r0c2 * m.r1c3 * m.r2c1 * m.r3c0) by (nonlinear_arith);
    assert((1real * ((((((m.r0c0 * m.r1c1) - (m.r1c0 * m.r0c1)) * ((m.r2c2 * m.r3c3) - (m.r3c2 * m.r2c3))) - (((m.r0c0 * m.r1c2) - (m.r1c0 * m.r0c2)) * ((m.r2c1 * m.r3c3) - (m.r3c1 * m.r2c3)))) + (((m.r0c0 * m.r1c3) - (m.r1c0 * m.r0c3)) * ((m.r2c1 * m.r3c2) - (m.r3c1 * m.r2c2)))) + (((((m.r0c1 * m.r1c2) - (m.r1c1 * m.r0c2)) * ((m.r2c0 * m.r3c3) - (m.r3c0 * m.r2c3))) - (((m.r0c1 * m.r1c3) - (m.r1c1 * m.r0c3)) * ((m.r2c0 * m.r3c2) - (m.r3c0 * m.r2c2)))) + (((m.r0c2 * m.r1c3) - (m.r1c2 * m.r0c3)) * ((m.r2c0 * m.r3c1) - (m.r3c0 * m.r2c1))))))
        == (1real * (((m.r0c0 * m.r1c1) - (m.r1c0 * m.r0c1)) * ((m.r2c2 * m.r3c3) - (m.r3c2 * m.r2c3)))) - (1real * (((m.r0c0 * m.r1c2) - (m.r1c0 * m.r0c2)) * ((m.r2c1 * m.r3c3) - (m.r3c1 * m.r2c3)))) + (1real * (((m.r0c0 * m.r1c3) - (m.r1c0 * m.r0c3)) * ((m.r2c1 * m.r3c2) - (m.r3c1 * m.r2c2)))) + (1real * (((m.r0c1 * m.r1c2) - (m.r1c1 * m.r0c2)) * ((m.r2c0 * m.r3c3) - (m.r3c0 * m.r2c3)))) - (1real * (((m.r0c1 * m.r1c3) - (m.r1c1 * m.r0c3)) * ((m.r2c0 * m.r3c2) - (m.r3c0 * m.r2c2)))) + (1real * (((m.r0c2 * m.r1c3) - (m.r1c2 * m.r0c3)) * ((m.r2c0 * m.r3c1) - (m.r3c0 * m.r2c1))))) by (nonlinear_arith);
    assert((1real * (((m.r0c0 * m.r1c1) - (m.r1c0 * m.r0c1)) * ((m.r2c2 * m.r3c3) - (m.r3c2 * m.r2c3))))
        == (1real * ((m.r0c0 * m.r1c1) * ((m.r2c2 * m.r3c3) - (m.r3c2 * m.r2c3)))) - (1real * ((m.r1c0 * m.r0c1) * ((m.r2c2 * m.r3c3) - (m.r3c2 * m.r2c3))))) by (nonlinear_arith);
    assert((1real * ((m.r0c0 * m.r1c1) * ((m.r2c2 * m.r3c3) - (m.r3c2 * m.r2c3))))
        == (1real * ((m.r0c0 * m.r1c1) * (m.r2c2 * m.r3c3))) - (1real * ((m.r0c0 * m.r1c1) * (m.r3c2 * m.r2c3)))) by (nonlinear_arith);
    assert((1real * ((m.r0c0 * m.r1c1) * (m.r2c2 * m.r3c3)))
        == m.r0c0 * m.r1c1 * m.r2c2 * m.r3c3) by (nonlinear_arith);
    assert((1real * ((m.r0c0 * m.r1c1) * (m.r3c2 * m.r2c3)))
        == m.r0c0 * m.r1c1 * m.r2c3 * m.r3c2) by (nonlinear_arith);
    assert((1real * ((m.r1c0 * m.r0c1) * ((m.r2c2 * m.r3c3) - (m.r3c2 * m.r2c3))))
        == (1real * ((m.r1c0 * m.r0c1) * (m.r2c2 * m.r3c3))) - (1real * ((m.r1c0 * m.r0c1) * (m.r3c2 * m.r2c3)))) by (nonlinear_arith);
    assert((1real * ((m.r1c0 * m.r0c1) * (m.r2c2 * m.r3c3)))
        == m.r0c1 * m.r1c0 * m.r2c2 * m.r3c3) by (nonlinear_arith);
    assert((1real * ((m.r1c0 * m.r0c1) * (m.r3c2 * m.r2c3)))
        == m.r0c1 * m.r1c0 * m.r2c3 * m.r3c2) by (nonlinear_arith);
    assert((1real * (((m.r0c0 * m.r1c2) - (m.r1c0 * m.r0c2)) * ((m.r2c1 * m.r3c3) - (m.r3c1 * m.r2c3))))
        == (1real * ((m.r0c0 * m.r1c2) * ((m.r2c1 * m.r3c3) - (m.r3c1 * m.r2c3)))) - (1real * ((m.r1c0 * m.r0c2) * ((m.r2c1 * m.r3c3) - (m.r3c1 * m.r2c3))))) by (nonlinear_arith);
    assert((1real * ((m.r0c0 * m.r1c2) * ((m.r2c1 * m.r3c3) - (m.r3c1 * m.r2c3))))
        == (1real * ((m.r0c0 * m.r1c2) * (m.r2c1 * m.r3c3))) - (1real * ((m.r0c0 * m.r1c2) * (m.r3c1 * m.r2c3)))) by (nonlinear_arith);
    assert((1real * ((m.r0c0 * m.r1c2) * (m.r2c1 * m.r3c3)))
        == m.r0c0 * m.r1c2 * m.r2c1 * m.r3c3) by (nonlinear_arith);
    assert((1real * ((m.r0c0 * m.r1c2) * (m.r3c1 * m.r2c3)))
        == m.r0c0 * m.r1c2 * m.r2c3 * m.r3c1) by (nonlinear_arith);
    assert((1real * ((m.r1c0 * m.r0c2) * ((m.r2c1 * m.r3c3) - (m.r3c1 * m.r2c3))))
        == (1real * ((m.r1c0 * m.r0c2) * (m.r2c1 * m.r3c3))) - (1real * ((m.r1c0 * m.r0c2) * (m.r3c1 * m.r2c3)))) by (nonlinear_arith);
    assert((1real * ((m.r1c0 * m.r0c2) * (m.r2c1 * m.r3c3)))
        == m.r0c2 * m.r1c0 * m.r2c1 * m.r3c3) by (nonlinear_arith);
    assert((1real * ((m.r1c0 * m.r0c2) * (m.r3c1 * m.r2c3)))
        == m.r0c2 * m.r1c0 * m.r2c3 * m.r3c1) by (nonlinear_arith);
    assert((1real * (((m.r0c0 * m.r1c3) - (m.r1c0 * m.r0c3)) * ((m.r2c1 * m.r3c2) - (m.r3c1 * m.r2c2))))
        == (1real * ((m.r0c0 * m.r1c3) * ((m.r2c1 * m.r3c2) - (m.r3c1 * m.r2c2)))) - (1real * ((m.r1c0 * m.r0c3) * ((m.r2c1 * m.r3c2) - (m.r3c1 * m.r2c2))))) by (nonlinear_arith);
    assert((1real * ((m.r0c0 * m.r1c3) * ((m.r2c1 * m.r3c2) - (m.r3c1 * m.r2c2))))
        == (1real * ((m.r0c0 * m.r1c3) * (m.r2c1 * m.r3c2))) - (1real * ((m.r0c0 * m.r1c3) * (m.r3c1 * m.r2c2)))) by (nonlinear_arith);
    assert((1real * ((m.r0c0 * m.r1c3) * (m.r2c1 * m.r3c2)))
        == m.r0c0 * m.r1c3 * m.r2c1 * m.r3c2) by (nonlinear_arith);
    assert((1real * ((m.r0c0 * m.r1c3) * (m.r3c1 * m.r2c2)))
        == m.r0c0 * m.r1c3 * m.r2c2 * m.r3c1) by (nonlinear_arith);
    assert((1real * ((m.r1c0 * m.r0c3) * ((m.r2c1 * m.r3c2) - (m.r3c1 * m.r2c2))))
        == (1real * ((m.r1c0 * m.r0c3) * (m.r2c1 * m.r3c2))) - (1real * ((m.r1c0 * m.r0c3) * (m.r3c1 * m.r2c2)))) by (nonlinear_arith);
    assert((1real * ((m.r1c0 * m.r0c3) * (m.r2c1 * m.r3c2)))
        == m.r0c3 * m.r1c0 * m.r2c1 * m.r3c2) by (nonlinear_arith);
    assert((1real * ((m.r1c0 * m.r0c3) * (m.r3c1 * m.r2c2)))
        == m.r0c3 * m.r1c0 * m.r2c2 * m.r3c1) by (nonlinear_arith);
    assert((1real * (((m.r0c1 * m.r1c2) - (m.r1c1 * m.r0c2)) * ((m.r2c0 * m.r3c3) - (m.r3c0 * m.r2c3))))
        == (1real * ((m.r0c1 * m.r1c2) * ((m.r2c0 * m.r3c3) - (m.r3c0 * m.r2c3)))) - (1real * ((m.r1c1 * m.r0c2) * ((m.r2c0 * m.r3c3) - (m.r3c0 * m.r2c3))))) by (nonlinear_arith);
    assert((1real * ((m.r0c1 * m.r1c2) * ((m.r2c0 * m.r3c3) - (m.r3c0 * m.r2c3))))
        == (1real * ((m.r0c1 * m.r1c2) * (m.r2c0 * m.r3c3))) - (1real * ((m.r0c1 * m.r1c2) * (m.r3c0 * m.r2c3)))) by (nonlinear_arith);
    assert((1real * ((m.r0c1 * m.r1c2) * (m.r2c0 * m.r3c3)))
        == m.r0c1 * m.r1c2 * m.r2c0 * m.r3c3) by (nonlinear_arith);
    assert((1real * ((m.r0c1 * m.r1c2) * (m.r3c0 * m.r2c3)))
        == m.r0c1 * m.r1c2 * m.r2c3 * m.r3c0) by (nonlinear_arith);
    assert((1real * ((m.r1c1 * m.r0c2) * ((m.r2c0 * m.r3c3) - (m.r3c0 * m.r2c3))))
        == (1real * ((m.r1c1 * m.r0c2) * (m.r2c0 * m.r3c3))) - (1real * ((m.r1c1 * m.r0c2) * (m.r3c0 * m.r2c3)))) by (nonlinear_arith);
    assert((1real * ((m.r1c1 * m.r0c2) * (m.r2c0 * m.r3c3)))
        == m.r0c2 * m.r1c1 * m.r2c0 * m.r3c3) by (nonlinear_arith);
    assert((1real * ((m.r1c1 * m.r0c2) * (m.r3c0 * m.r2c3)))
        == m.r0c2 * m.r1c1 * m.r2c3 * m.r3c0) by (nonlinear_arith);
    assert((1real * (((m.r0c1 * m.r1c3) - (m.r1c1 * m.r0c3)) * ((m.r2c0 * m.r3c2) - (m.r3c0 * m.r2c2))))
        == (1real * ((m.r0c1 * m.r1c3) * ((m.r2c0 * m.r3c2) - (m.r3c0 * m.r2c2)))) - (1real * ((m.r1c1 * m.r0c3) * ((m.r2c0 * m.r3c2) - (m.r3c0 * m.r2c2))))) by (nonlinear_arith);
    assert((1real * ((m.r0c1 * m.r1c3) * ((m.r2c0 * m.r3c2) - (m.r3c0 * m.r2c2))))
        == (1real * ((m.r0c1 * m.r1c3) * (m.r2c0 * m.r3c2))) - (1real * ((m.r0c1 * m.r1c3) * (m.r3c0 * m.r2c2)))) by (nonlinear_arith);
    assert((1real * ((m.r0c1 * m.r1c3) * (m.r2c0 * m.r3c2)))
        == m.r0c1 * m.r1c3 * m.r2c0 * m.r3c2) by (nonlinear_arith);
    assert((1real * ((m.r0c1 * m.r1c3) * (m.r3c0 * m.r2c2)))
        == m.r0c1 * m.r1c3 * m.r2c2 * m.r3c0) by (nonlinear_arith);
    assert((1real * ((m.r1c1 * m.r0c3) * ((m.r2c0 * m.r3c2) - (m.r3c0 * m.r2c2))))
        == (1real * ((m.r1c1 * m.r0c3) * (m.r2c0 * m.r3c2))) - (1real * ((m.r1c1 * m.r0c3) * (m.r3c0 * m.r2c2)))) by (nonlinear_arith);
    assert((1real * ((m.r1c1 * m.r0c3) * (m.r2c0 * m.r3c2)))
        == m.r0c3 * m.r1c1 * m.r2c0 * m.r3c2) by (nonlinear_arith);
    assert((1real * ((m.r1c1 * m.r0c3) * (m.r3c0 * m.r2c2)))
        == m.r0c3 * m.r1c1 * m.r2c2 * m.r3c0) by (nonlinear_arith);
    assert((1real * (((m.r0c2 * m.r1c3) - (m.r1c2 * m.r0c3)) * ((m.r2c0 * m.r3c1) - (m.r3c0 * m.r2c1))))
        == (1real * ((m.r0c2 * m.r1c3) * ((m.r2c0 * m.r3c1) - (m.r3c0 * m.r2c1)))) - (1real * ((m.r1c2 * m.r0c3) * ((m.r2c0 * m.r3c1) - (m.r3c0 * m.r2c1))))) by (nonlinear_arith);
    assert((1real * ((m.r0c2 * m.r1c3) * ((m.r2c0 * m.r3c1) - (m.r3c0 * m.r2c1))))
        == (1real * ((m.r0c2 * m.r1c3) * (m.r2c0 * m.r3c1))) - (1real * ((m.r0c2 * m.r1c3) * (m.r3c0 * m.r2c1)))) by (nonlinear_arith);
    assert((1real * ((m.r0c2 * m.r1c3) * (m.r2c0 * m.r3c1)))
        == m.r0c2 * m.r1c3 * m.r2c0 * m.r3c1) by (nonlinear_arith);
    assert((1real * ((m.r0c2 * m.r1c3) * (m.r3c0 * m.r2c1)))
        == m.r0c2 * m.r1c3 * m.r2c1 * m.r3c0) by (nonlinear_arith);
    assert((1real * ((m.r1c2 * m.r0c3) * ((m.r2c0 * m.r3c1) - (m.r3c0 * m.r2c1))))
        == (1real * ((m.r1c2 * m.r0c3) * (m.r2c0 * m.r3c1))) - (1real * ((m.r1c2 * m.r0c3) * (m.r3c0 * m.r2c1)))) by (nonlinear_arith);
    assert((1real * ((m.r1c2 * m.r0c3) * (m.r2c0 * m.r3c1)))
        == m.r0c3 * m.r1c2 * m.r2c0 * m.r3c1) by (nonlinear_arith);
    assert((1real * ((m.r1c2 * m.r0c3) * (m.r3c0 * m.r2c1)))
        == m.r0c3 * m.r1c2 * m.r2c1 * m.r3c0) by (nonlinear_arith);
}

proof fn lemma_real_mat4_times_adjugate_r1c2(m: Mat4Model<real>)
    ensures
        m.times(m.adjugate()).r1c2 == Mat4Model::<real>::identity().times_each(m.determinant()).r1c2,
{
    assert((m.r1c0 * (((m.r3c1 * ((m.r0c2 * m.r1c3) - (m.r1c2 * m.r0c3))) - (m.r3c2 * ((m.r0c1 * m.r1c3) - (m.r1c1 * m.r0c3)))) + (m.r3c3 * ((m.r0c1 * m.r1c2) - (m.r1c1 * m.r0c2)))))
        == (m.r1c0 * (m.r3c1 * ((m.r0c2 * m.r1c3) - (m.r1c2 * m.r0c3)))) - (m.r1c0 * (m.r3c2 * ((m.r0c1 * m.r1c3) - (m.r1c1 * m.r0c3)))) + (m.r1c0 * (m.r3c3 * ((m.r0c1 * m.r1c2) - (m.r1c1 * m.r0c2))))) by (nonlinear_arith);
    assert((m.r1c0 * (m.r3c1 * ((m.r0c2 * m.r1c3) - (m.r1c2 * m.r0c3))))
        == (m.r1c0 * (m.r3c1 * (m.r0c2 * m.r1c3))) - (m.r1c0 * (m.r3c1 * (m.r1c2 * m.r0c3)))) by (nonlinear_arith);
    assert((m.r1c0 * (m.r3c1 * (m.r0c2 * m.r1c3)))
        == m.r0c2 * m.r1c0 * m.r1c3 * m.r3c1) by (nonlinear_arith);
    assert((m.r1c0 * (m.r3c1 * (m.r1c2 * m.r0c3)))
        == m.r0c3 * m.r1c0 * m.r1c2 * m.r3c1) by (nonlinear_arith);
    assert((m.r1c0 * (m.r3c2 * ((m.r0c1 * m.r1c3) - (m.r1c1 * m.r0c3))))
        == (m.r1c0 * (m.r3c2 * (m.r0c1 * m.r1c3))) - (m.r1c0 * (m.r3c2 * (m.r1c1 * m.r0c3)))) by (nonlinear_arith);
    assert((m.r1c0 * (m.r3c2 * (m.r0c1 * m.r1c3)))
        == m.r0c1 * m.r1c0 * m.r1c3 * m.r3c2) by (nonlinear_arith);
    assert((m.r1c0 * (m.r3c2 * (m.r1c1 * m.r0c3)))
        == m.r0c3 * m.r1c0 * m.r1c1 * m.r3c2) by (nonlinear_arith);
    assert((m.r1c0 * (m.r3c3 * ((m.r0c1 * m.r1c2) - (m.r1c1 * m.r0c2))))
        == (m.r1c0 * (m.r3c3 * (m.r0c1 * m.r1c2))) - (m.r1c0 * (m.r3c3 * (m.r1c1 * m.r0c2)))) by (nonlinear_arith);
    assert((m.r1c0 * (m.r3c3 * (m.r0c1 * m.r1c2)))
        == m.r0c1 * m.r1c0 * m.r1c2 * m.r3c3) by (nonlinear_arith);
    assert((m.r1c0 * (m.r3c3 * (m.r1c1 * m.r0c2)))
        == m.r0c2 * m.r1c0 * m.r1c1 * m.r3c3) by (nonlinear_arith);
    assert((m.r1c1 * ((((-m.r3c0) * ((m.r0c2 * m.r1c3) - (m.r1c2 * m.r0c3))) + (m.r3c2 * ((m.r0c0 * m.r1c3) - (m.r1c0 * m.r0c3)))) - (m.r3c3 * ((m.r0c0 * m.r1c2) - (m.r1c0 * m.r0c2)))))
        == (m.r1c1 * ((-m.r3c0) * ((m.r0c2 * m.r1c3) - (m.r1c2 * m.r0c3)))) + (m.r1c1 * (m.r3c2 * ((m.r0c0 * m.r1c3) - (m.r1c0 * m.r0c3)))) - (m.r1c1 * (m.r3c3 * ((m.r0c0 * m.r1c2) - (m.r1c0 * m.r0c2))))) by (nonlinear_arith);
    assert((m.r1c1 * ((-m.r3c0) * ((m.r0c2 * m.r1c3) - (m.r1c2 * m.r0c3))))
        == 0real - (m.r1c1 * (m.r3c0 * ((m.r0c2 * m.r1c3) - (m.r1c2 * m.r0c3))))) by (nonlinear_arith);
    assert((m.r1c1 * (m.r3c0 * ((m.r0c2 * m.r1c3) - (m.r1c2 * m.r0c3))))
        == (m.r1c1 * (m.r3c0 * (m.r0c2 * m.r1c3))) - (m.r1c1 * (m.r3c0 * (m.r1c2 * m.r0c3)))) by (nonlinear_arith);
    assert((m.r1c1 * (m.r3c0 * (m.r0c2 * m.r1c3)))
        == m.r0c2 * m.r1c1 * m.r1c3 * m.r3c0) by (nonlinear_arith);
    assert((m.r1c1 * (m.r3c0 * (m.r1c2 * m.r0c3)))
        == m.r0c3 * m.r1c1 * m.r1c2 * m.r3c0) by (nonlinear_arith);
    assert((m.r1c1 * (m.r3c2 * ((m.r0c0 * m.r1c3) - (m.r1c0 * m.r0c3))))
        == (m.r1c1 * (m.r3c2 * (m.r0c0 * m.r1c3))) - (m.r1c1 * (m.r3c2 * (m.r1c0 * m.r0c3)))) by (nonlinear_arith);
    assert((m.r1c1 * (m.r3c2 * (m.r0c0 * m.r1c3)))
        == m.r0c0 * m.r1c1 * m.r1c3 * m.r3c2) by (nonlinear_arith);
    assert((m.r1c1 * (m.r3c2 * (m.r1c0 * m.r0c3)))
        == m.r0c3 * m.r1c0 * m.r1c1 * m.r3c2) by (nonlinear_arith);
    assert((m.r1c1 * (m.r3c3 * ((m.r0c0 * m.r1c2) - (m.r1c0 * m.r0c2))))
        == (m.r1c1 * (m.r3c3 * (m.r0c0 * m.r1c2))) - (m.r1c1 * (m.r3c3 * (m.r1c0 * m.r0c2)))) by (nonlinear_arith);
    assert((m.r1c1 * (m.r3c3 * (m.r0c0 * m.r1c2)))
        == m.r0c0 * m.r1c1 * m.r1c2 * m.r3c3) by (nonlinear_arith);
    assert((m.r1c1 * (m.r3c3 * (m.r1c0 * m.r0c2)))
        == m.r0c2 * m.r1c0 * m.r1c1 * m.r3c3) by (nonlinear_arith);
    assert((m.r1c2 * (((m.r3c0 * ((m.r0c1 * m.r1c3) - (m.r1c1 * m.r0c3))) - (m.r3c1 * ((m.r0c0 * m.r1c3) - (m.r1c0 * m.r0c3)))) + (m.r3c3 * ((m.r0c0 * m.r1c1) - (m.r1c0 * m.r0c1)))))
        == (m.r1c2 * (m.r3c0 * ((m.r0c1 * m.r1c3) - (m.r1c1 * m.r0c3)))) - (m.r1c2 * (m.r3c1 * ((m.r0c0 * m.r1c3) - (m.r1c0 * m.r0c3)))) + (m.r1c2 * (m.r3c3 * ((m.r0c0 * m.r1c1) - (m.r1c0 * m.r0c1))))) by (nonlinear_arith);
    assert((m.r1c2 * (m.r3c0 * ((m.r0c1 * m.r1c3) - (m.r1c1 * m.r0c3))))
        == (m.r1c2 * (m.r3c0 * (m.r0c1 * m.r1c3))) - (m.r1c2 * (m.r3c0 * (m.r1c1 * m.r0c3)))) by (nonlinear_arith);
    assert((m.r1c2 * (m.r3c0 * (m.r0c1 * m.r1c3)))
        == m.r0c1 * m.r1c2 * m.r1c3 * m.r3c0) by (nonlinear_arith);
    assert((m.r1c2 * (m.r3c0 * (m.r1c1 * m.r0c3)))
        == m.r0c3 * m.r1c1 * m.r1c2 * m.r3c0) by (nonlinear_arith);
    assert((m.r1c2 * (m.r3c1 * ((m.r0c0 * m.r1c3) - (m.r1c0 * m.r0c3))))
        == (m.r1c2 * (m.r3c1 * (m.r0c0 * m.r1c3))) - (m.r1c2 * (m.r3c1 * (m.r1c0 * m.r0c3)))) by (nonlinear_arith);
    assert((m.r1c2 * (m.r3c1 * (m.r0c0 * m.r1c3)))
        == m.r0c0 * m.r1c2 * m.r1c3 * m.r3c1) by (nonlinear_arith);
    assert((m.r1c2 * (m.r3c1 * (m.r1c0 * m.r0c3)))
        == m.r0c3 * m.r1c0 * m.r1c2 * m.r3c1) by (nonlinear_arith);
    assert((m.r1c2 * (m.r3c3 * ((m.r0c0 * m.r1c1) - (m.r1c0 * m.r0c1))))
        == (m.r1c2 * (m.r3c3 * (m.r0c0 * m.r1c1))) - (m.r1c2 * (m.r3c3 * (m.r1c0 * m.r0c1)))) by (nonlinear_arith);
    assert((m.r1c2 * (m.r3c3 * (m.r0c0 * m.r1c1)))
        == m.r0c0 * m.r1c1 * m.r1c2 * m.r3c3) by (nonlinear_arith);
    assert((m.r1c2 * (m.r3c3 * (m.r1c0 * m.r0c1)))
        == m.r0c1 * m.r1c0 * m.r1c2 * m.r3c3) by (nonlinear_arith);
    assert((m.r1c3 * ((((-m.r3c0) * ((m.r0c1 * m.r1c2) - (m.r1c1 * m.r0c2))) + (m.r3c1 * ((m.r0c0 * m.r1c2) - (m.r1c0 * m.r0c2)))) - (m.r3c2 * ((m.r0c0 * m.r1c1) - (m.r1c0 * m.r0c1)))))
        == (m.r1c3 * ((-m.r3c0) * ((m.r0c1 * m.r1c2) - (m.r1c1 * m.r0c2)))) + (m.r1c3 * (m.r3c1 * ((m.r0c0 * m.r1c2) - (m.r1c0 * m.r0c2)))) - (m.r1c3 * (m.r3c2 * ((m.r0c0 * m.r1c1) - (m.r1c0 * m.r0c1))))) by (nonlinear_arith);
    assert((m.r1c3 * ((-m.r3c0) * ((m.r0c1 * m.r1c2) - (m.r1c1 * m.r0c2))))
        == 0real - (m.r1c3 * (m.r3c0 * ((m.r0c1 * m.r1c2) - (m.r1c1 * m.r0c2))))) by (nonlinear_arith);
    assert((m.r1c3 * (m.r3c0 * ((m.r0c1 * m.r1c2) - (m.r1c1 * m.r0c2))))
        == (m.r1c3 * (m.r3c0 * (m.r0c1 * m.r1c2))) - (m.r1c3 * (m.r3c0 * (m.r1c1 * m.r0c2)))) by (nonlinear_arith);
    assert((m.r1c3 * (m.r3c0 * (m.r0c1 * m.r1c2)))
        == m.r0c1 * m.r1c2 * m.r1c3 * m.r3c0) by (nonlinear_arith);
    assert((m.r1c3 * (m.r3c0 * (m.r1c1 * m.r0c2)))
        == m.r0c2 * m.r1c1 * m.r1c3 * m.r3c0) by (nonlinear_arith);
    assert((m.r1c3 * (m.r3c1 * ((m.r0c0 * m.r1c2) - (m.r1c0 * m.r0c2))))
        == (m.r1c3 * (m.r3c1 * (m.r0c0 * m.r1c2))) - (m.r1c3 * (m.r3c1 * (m.r1c0 * m.r0c2)))) by (nonlinear_arith);
    assert((m.r1c3 * (m.r3c1 * (m.r0c0 * m.r1c2)))
        == m.r0c0 * m.r1c2 * m.r1c3 * m.r3c1) by (nonlinear_arith);
    assert((m.r1c3 * (m.r3c1 * (m.r1c0 * m.r0c2)))
        == m.r0c2 * m.r1c0 * m.r1c3 * m.r3c1) by (nonlinear_arith);
    assert((m.r1c3 * (m.r3c2 * ((m.r0c0 * m.r1c1) - (m.r1c0 * m.r0c1))))
        == (m.r1c3 * (m.r3c2 * (m.r0c0 * m.r1c1))) - (m.r1c3 * (m.r3c2 * (m.r1c0 * m.r0c1)))) by (nonlinear_arith);
    assert((m.r1c3 * (m.r3c2 * (m.r0c0 * m.r1c1)))
        == m.r0c0 * m.r1c1 * m.r1c3 * m.r3c2) by (nonlinear_arith);
    assert((m.r1c3 * (m.r3c2 * (m.r1c0 * m.r0c1)))
        == m.r0c1 * m.r1c0 * m.r1c3 * m.r3c2) by (nonlinear_arith);
    assert((0real * ((((((m.r0c0 * m.r1c1) - (m.r1c0 * m.r0c1)) * ((m.r2c2 * m.r3c3) - (m.r3c2 * m.r2c3))) - (((m.r0c0 * m.r1c2) - (m.r1c0 * m.r0c2)) * ((m.r2c1 * m.r3c3) - (m.r3c1 * m.r2c3)))) + (((m.r0c0 * m.r1c3) - (m.r1c0 * m.r0c3)) * ((m.r2c1 * m.r3c2) - (m.r3c1 * m.r2c2)))) + (((((m.r0c1 * m.r1c2) - (m.r1c1 * m.r0c2)) * ((m.r2c0 * m.r3c3) - (m.r3c0 * m.r2c3))) - (((m.r0c1 * m.r1c3) - (m.r1c1 * m.r0c3)) * ((m.r2c0 * m.r3c2) - (m.r3c0 * m.r2c2)))) + (((m.r0c2 * m.r1c3) - (m.r1c2 * m.r0c3)) * ((m.r2c0 * m.r3c1) - (m.r3c0 * m.r2c1))))))
        == (0real * (((m.r0c0 * m.r1c1) - (m.r1c0 * m.r0c1)) * ((m.r2c2 * m.r3c3) - (m.r3c2 * m.r2c3)))) - (0real * (((m.r0c0 * m.r1c2) - (m.r1c0 * m.r0c2)) * ((m.r2c1 * m.r3c3) - (m.r3c1 * m.r2c3)))) + (0real * (((m.r0c0 * m.r1c3) - (m.r1c0 * m.r0c3)) * ((m.r2c1 * m.r3c2) - (m.r3c1 * m.r2c2)))) + (0real * (((m.r0c1 * m.r1c2) - (m.r1c1 * m.r0c2)) * ((m.r2c0 * m.r3c3) - (m.r3c0 * m.r2c3)))) - (0real * (((m.r0c1 * m.r1c3) - (m.r1c1 * m.r0c3)) * ((m.r2c0 * m.r3c2) - (m.r3c0 * m.r2c2)))) + (0real * (((m.r0c2 * m.r1c3) - (m.r1c2 * m.r0c3)) * ((m.r2c0 * m.r3c1) - (m.r3c0 * m.r2c1))))) by (nonlinear_arith);
    assert((0real * (((m.r0c0 * m.r1c1) - (m.r1c0 * m.r0c1)) * ((m.r2c2 * m.r3c3) - (m.r3c2 * m.r2c3))))
        == (0real * ((m.r0c0 * m.r1c1) * ((m.r2c2 * m.r3c3) - (m.r3c2 * m.r2c3)))) - (0real * ((m.r1c0 * m.r0c1) * ((m.r2c2 * m.r3c3) - (m.r3c2 * m.r2c3))))) by (nonlinear_arith);
    assert((0real * ((m.r0c0 * m.r1c1) * ((m.r2c2 * m.r3c3) - (m.r3c2 * m.r2c3))))
        == (0real * ((m.r0c0 * m.r1c1) * (m.r2c2 * m.r3c3))) - (0real * ((m.r0c0 * m.r1c1) * (m.r3c2 * m.r2c3)))) by (nonlinear_arith);
    assert((0real * ((m.r0c0 * m.r1c1) * (m.r2c2 * m.r3c3))) == 0real) by (nonlinear_arith);
    assert((0real * ((m.r0c0 * m.r1c1) * (m.r3c2 * m.r2c3))) == 0real) by (nonlinear_arith);
    assert((0real * ((m.r1c0 * m.r0c1) * ((m.r2c2 * m.r3c3) - (m.r3c2 * m.r2c3))))
        == (0real * ((m.r1c0 * m.r0c1) * (m.r2c2 * m.r3c3))) - (0real * ((m.r1c0 * m.r0c1) * (m.r3c2 * m.r2c3)))) by (nonlinear_arith);
    assert((0real * ((m.r1c0 * m.r0c1) * (m.r2c2 * m.r3c3))) == 0real) by (nonlinear_arith);
    assert((0real * ((m.r1c0 * m.r0c1) * (m.r3c2 * m.r2c3))) == 0real) by (nonlinear_arith);
    assert((0real * (((m.r0c0 * m.r1c2) - (m.r1c0 * m.r0c2)) * ((m.r2c1 * m.r3c3) - (m.r3c1 * m.r2c3))))
        == (0real * ((m.r0c0 * m.r1c2) * ((m.r2c1 * m.r3c3) - (m.r3c1 * m.r2c3)))) - (0real * ((m.r1c0 * m.r0c2) * ((m.r2c1 * m.r3c3) - (m.r3c1 * m.r2c3))))) by (nonlinear_arith);
    assert((0real * ((m.r0c0 * m.r1c2) * ((m.r2c1 * m.r3c3) - (m.r3c1 * m.r2c3))))
        == (0real * ((m.r0c0 * m.r1c2) * (m.r2c1 * m.r3c3))) - (0real * ((m.r0c0 * m.r1c2) * (m.r3c1 * m.r2c3)))) by (nonlinear_arith);
    assert((0real * ((m.r0c0 * m.r1c2) * (m.r2c1 * m.r3c3))) == 0real) by (nonlinear_arith);
    assert((0real * ((m.r0c0 * m.r1c2) * (m.r3c1 * m.r2c3))) == 0real) by (nonlinear_arith);
    assert((0real * ((m.r1c0 * m.r0c2) * ((m.r2c1 * m.r3c3) - (m.r3c1 * m.r2c3))))
        == (0real * ((m.r1c0 * m.r0c2) * (m.r2c1 * m.r3c3))) - (0real * ((m.r1c0 * m.r0c2) * (m.r3c1 * m.r2c3)))) by (nonlinear_arith);
    assert((0real * ((m.r1c0 * m.r0c2) * (m.r2c1 * m.r3c3))) == 0real) by (nonlinear_arith);
    assert((0real * ((m.r1c0 * m.r0c2) * (m.r3c1 * m.r2c3))) == 0real) by (nonlinear_arith);
    assert((0real * (((m.r0c0 * m.r1c3) - (m.r1c0 * m.r0c3)) * ((m.r2c1 * m.r3c2) - (m.r3c1 * m.r2c2))))
        == (0real * ((m.r0c0 * m.r1c3) * ((m.r2c1 * m.r3c2) - (m.r3c1 * m.r2c2)))) - (0real * ((m.r1c0 * m.r0c3) * ((m.r2c1 * m.r3c2) - (m.r3c1 * m.r2c2))))) by (nonlinear_arith);
    assert((0real * ((m.r0c0 * m.r1c3) * ((m.r2c1 * m.r3c2) - (m.r3c1 * m.r2c2))))
        == (0real * ((m.r0c0 * m.r1c3) * (m.r2c1 * m.r3c2))) - (0real * ((m.r0c0 * m.r1c3) * (m.r3c1 * m.r2c2)))) by (nonlinear_arith);
    assert((0real * ((m.r0c0 * m.r1c3) * (m.r2c1 * m.r3c2))) == 0real) by (nonlinear_arith);
    assert((0real * ((m.r0c0 * m.r1c3) * (m.r3c1 * m.r2c2))) == 0real) by (nonlinear_arith);
    assert((0real * ((m.r1c0 * m.r0c3) * ((m.r2c1 * m.r3c2) - (m.r3c1 * m.r2c2))))
        == (0real * ((m.r1c0 * m.r0c3) * (m.r2c1 * m.r3c2))) - (0real * ((m.r1c0 * m.r0c3) * (m.r3c1 * m.r2c2)))) by (nonlinear_arith);
    assert((0real * ((m.r1c0 * m.r0c3) * (m.r2c1 * m.r3c2))) == 0real) by (nonlinear_arith);
    assert((0real * ((m.r1c0 * m.r0c3) * (m.r3c1 * m.r2c2))) == 0real) by (nonlinear_arith);
    assert((0real * (((m.r0c1 * m.r1c2) - (m.r1c1 * m.r0c2)) * ((m.r2c0 * m.r3c3) - (m.r3c0 * m.r2c3))))
        == (0real * ((m.r0c1 * m.r1c2) * ((m.r2c0 * m.r3c3) - (m.r3c0 * m.r2c3)))) - (0real * ((m.r1c1 * m.r0c2) * ((m.r2c0 * m.r3c3) - (m.r3c0 * m.r2c3))))) by (nonlinear_arith);
    assert((0real * ((m.r0c1 * m.r1c2) * ((m.r2c0 * m.r3c3) - (m.r3c0 * m.r2c3))))
        == (0real * ((m.r0c1 * m.r1c2) * (m.r2c0 * m.r3c3))) - (0real * ((m.r0c1 * m.r1c2) * (m.r3c0 * m.r2c3)))) by (nonlinear_arith);
    assert((0real * ((m.r0c1 * m.r1c2) * (m.r2c0 * m.r3c3))) == 0real) by (nonlinear_arith);
    assert((0real * ((m.r0c1 * m.r1c2) * (m.r3c0 * m.r2c3))) == 0real) by (nonlinear_arith);
    assert((0real * ((m.r1c1 * m.r0c2) * ((m.r2c0 * m.r3c3) - (m.r3c0 * m.r2c3))))
        == (0real * ((m.r1c1 * m.r0c2) * (m.r2c0 * m.r3c3))) - (0real * ((m.r1c1 * m.r0c2) * (m.r3c0 * m.r2c3)))) by (nonlinear_arith);
    assert((0real * ((m.r1c1 * m.r0c2) * (m.r2c0 * m.r3c3))) == 0real) by (nonlinear_arith);
    assert((0real * ((m.r1c1 * m.r0c2) * (m.r3c0 * m.r2c3))) == 0real) by (nonlinear_arith);
    assert((0real * (((m.r0c1 * m.r1c3) - (m.r1c1 * m.r0c3)) * ((m.r2c0 * m.r3c2) - (m.r3c0 * m.r2c2))))
        == (0real * ((m.r0c1 * m.r1c3) * ((m.r2c0 * m.r3c2) - (m.r3c0 * m.r2c2)))) - (0real * ((m.r1c1 * m.r0c3) * ((m.r2c0 * m.r3c2) - (m.r3c0 * m.r2c2))))) by (nonlinear_arith);
    assert((0real * ((m.r0c1 * m.r1c3) * ((m.r2c0 * m.r3c2) - (m.r3c0 * m.r2c2))))
        == (0real * ((m.r0c1 * m.r1c3) * (m.r2c0 * m.r3c2))) - (0real * ((m.r0c1 * m.r1c3) * (m.r3c0 * m.r2c2)))) by (nonlinear_arith);
    assert((0real * ((m.r0c1 * m.r1c3) * (m.r2c0 * m.r3c2))) == 0real) by (nonlinear_arith);
    assert((0real * ((m.r0c1 * m.r1c3) * (m.r3c0 * m.r2c2))) == 0real) by (nonlinear_arith);
    assert((0real * ((m.r1c1 * m.r0c3) * ((m.r2c0 * m.r3c2) - (m.r3c0 * m.r2c2))))
        == (0real * ((m.r1c1 * m.r0c3) * (m.r2c0 * m.r3c2))) - (0real * ((m.r1c1 * m.r0c3) * (m.r3c0 * m.r2c2)))) by (nonlinear_arith);
    assert((0real * ((m.r1c1 * m.r0c3) * (m.r2c0 * m.r3c2))) == 0real) by (nonlinear_arith);
    assert((0real * ((m.r1c1 * m.r0c3) * (m.r3c0 * m.r2c2))) == 0real) by (nonlinear_arith);
    assert((0real * (((m.r0c2 * m.r1c3) - (m.r1c2 * m.r0c3)) * ((m.r2c0 * m.r3c1) - (m.r3c0 * m.r2c1))))
        == (0real * ((m.r0c2 * m.r1c3) * ((m.r2c0 * m.r3c1) - (m.r3c0 * m.r2c1)))) - (0real * ((m.r1c2 * m.r0c3) * ((m.r2c0 * m.r3c1) - (m.r3c0 * m.r2c1))))) by (nonlinear_arith);
    assert((0real * ((m.r0c2 * m.r1c3) * ((m.r2c0 * m.r3c1) - (m.r3c0 * m.r2c1))))
        == (0real * ((m.r0c2 * m.r1c3) * (m.r2c0 * m.r3c1))) - (0real * ((m.r0c2 * m.r1c3) * (m.r3c0 * m.r2c1)))) by (nonlinear_arith);
    assert((0real * ((m.r0c2 * m.r1c3) * (m.r2c0 * m.r3c1))) == 0real) by (nonlinear_arith);
    assert((0real * ((m.r0c2 * m.r1c3) * (m.r3c0 * m.r2c1))) == 0real) by (nonlinear_arith);
    assert((0real * ((m.r1c2 * m.r0c3) * ((m.r2c0 * m.r3c1) - (m.r3c0 * m.r2c1))))
        == (0real * ((m.r1c2 * m.r0c3) * (m.r2c0 * m.r3c1))) - (0real * ((m.r1c2 * m.r0c3) * (m.r3c0 * m.r2c1)))) by (nonlinear_arith);
    assert((0real * ((m.r1c2 * m.r0c3) * (m.r2c0 * m.r3c1))) == 0real) by (nonlinear_arith);
    assert((0real * ((m.r1c2 * m.r0c3) * (m.r3c0 * m.r2c1))) == 0real) by (nonlinear_arith);
}

proof fn lemma_real_mat4_times_adjugate_r1c3(m: Mat4Model<real>)
    ensures
        m.times(m.adjugate()).r1c3 == Mat4Model::<real>::identity().times_each(m.determinant()).r1c3,
{
    assert((m.r1c0 * ((((-m.r2c1) * ((m.r0c2 * m.r1c3) - (m.r1c2 * m.r0c3))) + (m.r2c2 * ((m.r0c1 * m.r1c3) - (m.r1c1 * m.r0c3)))) - (m.r2c3 * ((m.r0c1 * m.r1c2) - (m.r1c1 * m.r0c2)))))
        == (m.r1c0 * ((-m.r2c1) * ((m.r0c2 * m.r1c3) - (m.r1c2 * m.r0c3)))) + (m.r1c0 * (m.r2c2 * ((m.r0c1 * m.r1c3) - (m.r1c1 * m.r0c3)))) - (m.r1c0 * (m.r2c3 * ((m.r0c1 * m.r1c2) - (m.r1c1 * m.r0c2))))) by (nonlinear_arith);
    assert((m.r1c0 * ((-m.r2c1) * ((m.r0c2 * m.r1c3) - (m.r1c2 * m.r0c3))))
        == 0real - (m.r1c0 * (m.r2c1 * ((m.r0c2 * m.r1c3) - (m.r1c2 * m.r0c3))))) by (nonlinear_arith);
    assert((m.r1c0 * (m.r2c1 * ((m.r0c2 * m.r1c3) - (m.r1c2 * m.r0c3))))
        == (m.r1c0 * (m.r2c1 * (m.r0c2 * m.r1c3))) - (m.r1c0 * (m.r2c1 * (m.r1c2 * m.r0c3)))) by (nonlinear_arith);
    assert((m.r1c0 * (m.r2c1 * (m.r0c2 * m.r1c3)))
        == m.r0c2 * m.r1c0 * m.r1c3 * m.r2c1) by (nonlinear_arith);
    assert((m.r1c0 * (m.r2c1 * (m.r1c2 * m.r0c3)))
        == m.r0c3 * m.r1c0 * m.r1c2 * m.r2c1) by (nonlinear_arith);
    assert((m.r1c0 * (m.r2c2 * ((m.r0c1 * m.r1c3) - (m.r1c1 * m.r0c3))))
        == (m.r1c0 * (m.r2c2 * (m.r0c1 * m.r1c3))) - (m.r1c0 * (m.r2c2 * (m.r1c1 * m.r0c3)))) by (nonlinear_arith);
    assert((m.r1c0 * (m.r2c2 * (m.r0c1 * m.r1c3)))
        == m.r0c1 * m.r1c0 * m.r1c3 * m.r2c2) by (nonlinear_arith);
    assert((m.r1c0 * (m.r2c2 * (m.r1c1 * m.r0c3)))
        == m.r0c3 * m.r1c0 * m.r1c1 * m.r2c2) by (nonlinear_arith);
    assert((m.r1c0 * (m.r2c3 * ((m.r0c1 * m.r1c2) - (m.r1c1 * m.r0c2))))
        == (m.r1c0 * (m.r2c3 * (m.r0c1 * m.r1c2))) - (m.r1c0 * (m.r2c3 * (m.r1c1 * m.r0c2)))) by (nonlinear_arith);
    assert((m.r1c0 * (m.r2c3 * (m.r0c1 * m.r1c2)))
        == m.r0c1 * m.r1c0 * m.r1c2 * m.r2c3) by (nonlinear_arith);
    assert((m.r1c0 * (m.r2c3 * (m.r1c1 * m.r0c2)))
        == m.r0c2 * m.r1c0 * m.r1c1 * m.r2c3) by (nonlinear_arith);
    assert((m.r1c1 * (((m.r2c0 * ((m.r0c2 * m.r1c3) - (m.r1c2 * m.r0c3))) - (m.r2c2 * ((m.r0c0 * m.r1c3) - (m.r1c0 * m.r0c3)))) + (m.r2c3 * ((m.r0c0 * m.r1c2) - (m.r1c0 * m.r0c2)))))
        == (m.r1c1 * (m.r2c0 * ((m.r0c2 * m.r1c3) - (m.r1c2 * m.r0c3)))) - (m.r1c1 * (m.r2c2 * ((m.r0c0 * m.r1c3) - (m.r1c0 * m.r0c3)))) + (m.r1c1 * (m.r2c3 * ((m.r0c0 * m.r1c2) - (m.r1c0 * m.r0c2))))) by (nonlinear_arith);
    assert((m.r1c1 * (m.r2c0 * ((m.r0c2 * m.r1c3) - (m.r1c2 * m.r0c3))))
        == (m.r1c1 * (m.r2c0 * (m.r0c2 * m.r1c3))) - (m.r1c1 * (m.r2c0 * (m.r1c2 * m.r0c3)))) by (nonlinear_arith);
    assert((m.r1c1 * (m.r2c0 * (m.r0c2 * m.r1c3)))
        == m.r0c2 * m.r1c1 * m.r1c3 * m.r2c0) by (nonlinear_arith);
    assert((m.r1c1 * (m.r2c0 * (m.r1c2 * m.r0c3)))
        == m.r0c3 * m.r1c1 * m.r1c2 * m.r2c0) by (nonlinear_arith);
    assert((m.r1c1 * (m.r2c2 * ((m.r0c0 * m.r1c3) - (m.r1c0 * m.r0c3))))
        == (m.r1c1 * (m.r2c2 * (m.r0c0 * m.r1c3))) - (m.r1c1 * (m.r2c2 * (m.r1c0 * m.r0c3)))) by (nonlinear_arith);
    assert((m.r1c1 * (m.r2c2 * (m.r0c0 * m.r1c3)))
        == m.r0c0 * m.r1c1 * m.r1c3 * m.r2c2) by (nonlinear_arith);
    assert((m.r1c1 * (m.r2c2 * (m.r1c0 * m.r0c3)))
        == m.r0c3 * m.r1c0 * m.r1c1 * m.r2c2) by (nonlinear_arith);
    assert((m.r1c1 * (m.r2c3 * ((m.r0c0 * m.r1c2) - (m.r1c0 * m.r0c2))))
        == (m.r1c1 * (m.r2c3 * (m.r0c0 * m.r1c2))) - (m.r1c1 * (m.r2c3 * (m.r1c0 * m.r0c2)))) by (nonlinear_arith);
    assert((m.r1c1 * (m.r2c3 * (m.r0c0 * m.r1c2)))
        == m.r0c0 * m.r1c1 * m.r1c2 * m.r2c3) by (nonlinear_arith);
    assert((m.r1c1 * (m.r2c3 * (m.r1c0 * m.r0c2)))
        == m.r0c2 * m.r1c0 * m.r1c1 * m.r2c3) by (nonlinear_arith);
    assert((m.r1c2 * ((((-m.r2c0) * ((m.r0c1 * m.r1c3) - (m.r1c1 * m.r0c3))) + (m.r2c1 * ((m.r0c0 * m.r1c3) - (m.r1c0 * m.r0c3)))) - (m.r2c3 * ((m.r0c0 * m.r1c1) - (m.r1c0 * m.r0c1)))))
        == (m.r1c2 * ((-m.r2c0) * ((m.r0c1 * m.r1c3) - (m.r1c1 * m.r0c3)))) + (m.r1c2 * (m.r2c1 * ((m.r0c0 * m.r1c3) - (m.r1c0 * m.r0c3)))) - (m.r1c2 * (m.r2c3 * ((m.r0c0 * m.r1c1) - (m.r1c0 * m.r0c1))))) by (nonlinear_arith);
    assert((m.r1c2 * ((-m.r2c0) * ((m.r0c1 * m.r1c3) - (m.r1c1 * m.r0c3))))
        == 0real - (m.r1c2 * (m.r2c0 * ((m.r0c1 * m.r1c3) - (m.r1c1 * m.r0c3))))) by (nonlinear_arith);
    assert((m.r1c2 * (m.r2c0 * ((m.r0c1 * m.r1c3) - (m.r1c1 * m.r0c3))))
        == (m.r1c2 * (m.r2c0 * (m.r0c1 * m.r1c3))) - (m.r1c2 * (m.r2c0 * (m.r1c1 * m.r0c3)))) by (nonlinear_arith);
    assert((m.r1c2 * (m.r2c0 * (m.r0c1 * m.r1c3)))
        == m.r0c1 * m.r1c2 * m.r1c3 * m.r2c0) by (nonlinear_arith);
    assert((m.r1c2 * (m.r2c0 * (m.r1c1 * m.r0c3)))
        == m.r0c3 * m.r1c1 * m.r1c2 * m.r2c0) by (nonlinear_arith);
    assert((m.r1c2 * (m.r2c1 * ((m.r0c0 * m.r1c3) - (m.r1c0 * m.r0c3))))
        == (m.r1c2 * (m.r2c1 * (m.r0c0 * m.r1c3))) - (m.r1c2 * (m.r2c1 * (m.r1c0 * m.r0c3)))) by (nonlinear_arith);
    assert((m.r1c2 * (m.r2c1 * (m.r0c0 * m.r1c3)))
        == m.r0c0 * m.r1c2 * m.r1c3 * m.r2c1) by (nonlinear_arith);
    assert((m.r1c2 * (m.r2c1 * (m.r1c0 * m.r0c3)))
        == m.r0c3 * m.r1c0 * m.r1c2 * m.r2c1) by (nonlinear_arith);
    assert((m.r1c2 * (m.r2c3 * ((m.r0c0 * m.r1c1) - (m.r1c0 * m.r0c1))))
        == (m.r1c2 * (m.r2c3 * (m.r0c0 * m.r1c1))) - (m.r1c2 * (m.r2c3 * (m.r1c0 * m.r0c1)))) by (nonlinear_arith);
    assert((m.r1c2 * (m.r2c3 * (m.r0c0 * m.r1c1)))
        == m.r0c0 * m.r1c1 * m.r1c2 * m.r2c3) by (nonlinear_arith);
    assert((m.r1c2 * (m.r2c3 * (m.r1c0 * m.r0c1)))
        == m.r0c1 * m.r1c0 * m.r1c2 * m.r2c3) by (nonlinear_arith);
    assert((m.r1c3 * (((m.r2c0 * ((m.r0c1 * m.r1c2) - (m.r1c1 * m.r0c2))) - (m.r2c1 * ((m.r0c0 * m.r1c2) - (m.r1c0 * m.r0c2)))) + (m.r2c2 * ((m.r0c0 * m.r1c1) - (m.r1c0 * m.r0c1)))))
        == (m.r1c3 * (m.r2c0 * ((m.r0c1 * m.r1c2) - (m.r1c1 * m.r0c2)))) - (m.r1c3 * (m.r2c1 * ((m.r0c0 * m.r1c2) - (m.r1c0 * m.r0c2)))) + (m.r1c3 * (m.r2c2 * ((m.r0c0 * m.r1c1) - (m.r1c0 * m.r0c1))))) by (nonlinear_arith);
    assert((m.r1c3 * (m.r2c0 * ((m.r0c1 * m.r1c2) - (m.r1c1 * m.r0c2))))
        == (m.r1c3 * (m.r2c0 * (m.r0c1 * m.r1c2))) - (m.r1c3 * (m.r2c0 * (m.r1c1 * m.r0c2)))) by (nonlinear_arith);
    assert((m.r1c3 * (m.r2c0 * (m.r0c1 * m.r1c2)))
        == m.r0c1 * m.r1c2 * m.r1c3 * m.r2c0) by (nonlinear_arith);
    assert((m.r1c3 * (m.r2c0 * (m.r1c1 * m.r0c2)))
        == m.r0c2 * m.r1c1 * m.r1c3 * m.r2c0) by (nonlinear_arith);
    assert((m.r1c3 * (m.r2c1 * ((m.r0c0 * m.r1c2) - (m.r1c0 * m.r0c2))))
        == (m.r1c3 * (m.r2c1 * (m.r0c0 * m.r1c2))) - (m.r1c3 * (m.r2c1 * (m.r1c0 * m.r0c2)))) by (nonlinear_arith);
    assert((m.r1c3 * (m.r2c1 * (m.r0c0 * m.r1c2)))
        == m.r0c0 * m.r1c2 * m.r1c3 * m.r2c1) by (nonlinear_arith);
    assert((m.r1c3 * (m.r2c1 * (m.r1c0 * m.r0c2)))
        == m.r0c2 * m.r1c0 * m.r1c3 * m.r2c1) by (nonlinear_arith);
    assert((m.r1c3 * (m.r2c2 * ((m.r0c0 * m.r1c1) - (m.r1c0 * m.r0c1))))
        == (m.r1c3 * (m.r2c2 * (m.r0c0 * m.r1c1))) - (m.r1c3 * (m.r2c2 * (m.r1c0 * m.r0c1)))) by (nonlinear_arith);
    assert((m.r1c3 * (m.r2c2 * (m.r0c0 * m.r1c1)))
        == m.r0c0 * m.r1c1 * m.r1c3 * m.r2c2) by (nonlinear_arith);
    assert((m.r1c3 * (m.r2c2 * (m.r1c0 * m.r0c1)))
        == m.r0c1 * m.r1c0 * m.r1c3 * m.r2c2) by (nonlinear_arith);
    assert((0real * ((((((m.r0c0 * m.r1c1) - (m.r1c0 * m.r0c1)) * ((m.r2c2 * m.r3c3) - (m.r3c2 * m.r2c3))) - (((m.r0c0 * m.r1c2) - (m.r1c0 * m.r0c2)) * ((m.r2c1 * m.r3c3) - (m.r3c1 * m.r2c3)))) + (((m.r0c0 * m.r1c3) - (m.r1c0 * m.r0c3)) * ((m.r2c1 * m.r3c2) - (m.r3c1 * m.r2c2)))) + (((((m.r0c1 * m.r1c2) - (m.r1c1 * m.r0c2)) * ((m.r2c0 * m.r3c3) - (m.r3c0 * m.r2c3))) - (((m.r0c1 * m.r1c3) - (m.r1c1 * m.r0c3)) * ((m.r2c0 * m.r3c2) - (m.r3c0 * m.r2c2)))) + (((m.r0c2 * m.r1c3) - (m.r1c2 * m.r0c3)) * ((m.r2c0 * m.r3c1) - (m.r3c0 * m.r2c1))))))
        == (0real * (((m.r0c0 * m.r1c1) - (m.r1c0 * m.r0c1)) * ((m.r2c2 * m.r3c3) - (m.r3c2 * m.r2c3)))) - (0real * (((m.r0c0 * m.r1c2) - (m.r1c0 * m.r0c2)) * ((m.r2c1 * m.r3c3) - (m.r3c1 * m.r2c3)))) + (0real * (((m.r0c0 * m.r1c3) - (m.r1c0 * m.r0c3)) * ((m.r2c1 * m.r3c2) - (m.r3c1 * m.r2c2)))) + (0real * (((m.r0c1 * m.r1c2) - (m.r1c1 * m.r0c2)) * ((m.r2c0 * m.r3c3) - (m.r3c0 * m.r2c3)))) - (0real * (((m.r0c1 * m.r1c3) - (m.r1c1 * m.r0c3)) * ((m.r2c0 * m.r3c2) - (m.r3c0 * m.r2c2)))) + (0real * (((m.r0c2 * m.r1c3) - (m.r1c2 * m.r0c3)) * ((m.r2c0 * m.r3c1) - (m.r3c0 * m.r2c1))))) by (nonlinear_arith);
    assert((0real * (((m.r0c0 * m.r1c1) - (m.r1c0 * m.r0c1)) * ((m.r2c2 * m.r3c3) - (m.r3c2 * m.r2c3))))
        == (0real * ((m.r0c0 * m.r1c1) * ((m.r2c2 * m.r3c3) - (m.r3c2 * m.r2c3)))) - (0real * ((m.r1c0 * m.r0c1) * ((m.r2c2 * m.r3c3) - (m.r3c2 * m.r2c3))))) by (nonlinear_arith);
    assert((0real * ((m.r0c0 * m.r1c1) * ((m.r2c2 * m.r3c3) - (m.r3c2 * m.r2c3))))
        == (0real * ((m.r0c0 * m.r1c1) * (m.r2c2 * m.r3c3))) - (0real * ((m.r0c0 * m.r1c1) * (m.r3c2 * m.r2c3)))) by (nonlinear_arith);
    assert((0real * ((m.r0c0 * m.r1c1) * (m.r2c2 * m.r3c3))) == 0real) by (nonlinear_arith);
    assert((0real * ((m.r0c0 * m.r1c1) * (m.r3c2 * m.r2c3))) == 0real) by (nonlinear_arith);
    assert((0real * ((m.r1c0 * m.r0c1) * ((m.r2c2 * m.r3c3) - (m.r3c2 * m.r2c3))))
        == (0real * ((m.r1c0 * m.r0c1) * (m.r2c2 * m.r3c3))) - (0real * ((m.r1c0 * m.r0c1) * (m.r3c2 * m.r2c3)))) by (nonlinear_arith);
    assert((0real * ((m.r1c0 * m.r0c1) * (m.r2c2 * m.r3c3))) == 0real) by (nonlinear_arith);
    assert((0real * ((m.r1c0 * m.r0c1) * (m.r3c2 * m.r2c3))) == 0real) by (nonlinear_arith);
    assert((0real * (((m.r0c0 * m.r1c2) - (m.r1c0 * m.r0c2)) * ((m.r2c1 * m.r3c3) - (m.r3c1 * m.r2c3))))
        == (0real * ((m.r0c0 * m.r1c2) * ((m.r2c1 * m.r3c3) - (m.r3c1 * m.r2c3)))) - (0real * ((m.r1c0 * m.r0c2) * ((m.r2c1 * m.r3c3) - (m.r3c1 * m.r2c3))))) by (nonlinear_arith);
    assert((0real * ((m.r0c0 * m.r1c2) * ((m.r2c1 * m.r3c3) - (m.r3c1 * m.r2c3))))
        == (0real * ((m.r0c0 * m.r1c2) * (m.r2c1 * m.r3c3))) - (0real * ((m.r0c0 * m.r1c2) * (m.r3c1 * m.r2c3)))) by (nonlinear_arith);
    assert((0real * ((m.r0c0 * m.r1c2) * (m.r2c1 * m.r3c3))) == 0real) by (nonlinear_arith);
    assert((0real * ((m.r0c0 * m.r1c2) * (m.r3c1 * m.r2c3))) == 0real) by (nonlinear_arith);
    assert((0real * ((m.r1c0 * m.r0c2) * ((m.r2c1 * m.r3c3) - (m.r3c1 * m.r2c3))))
        == (0real * ((m.r1c0 * m.r0c2) * (m.r2c1 * m.r3c3))) - (0real * ((m.r1c0 * m.r0c2) * (m.r3c1 * m.r2c3)))) by (nonlinear_arith);
    assert((0real * ((m.r1c0 * m.r0c2) * (m.r2c1 * m.r3c3))) == 0real) by (nonlinear_arith);
    assert((0real * ((m.r1c0 * m.r0c2) * (m.r3c1 * m.r2c3))) == 0real) by (nonlinear_arith);
    assert((0real * (((m.r0c0 * m.r1c3) - (m.r1c0 * m.r0c3)) * ((m.r2c1 * m.r3c2) - (m.r3c1 * m.r2c2))))
        == (0real * ((m.r0c0 * m.r1c3) * ((m.r2c1 * m.r3c2) - (m.r3c1 * m.r2c2)))) - (0real * ((m.r1c0 * m.r0c3) * ((m.r2c1 * m.r3c2) - (m.r3c1 * m.r2c2))))) by (nonlinear_arith);
    assert((0real * ((m.r0c0 * m.r1c3) * ((m.r2c1 * m.r3c2) - (m.r3c1 * m.r2c2))))
        == (0real * ((m.r0c0 * m.r1c3) * (m.r2c1 * m.r3c2))) - (0real * ((m.r0c0 * m.r1c3) * (m.r3c1 * m.r2c2)))) by (nonlinear_arith);
    assert((0real * ((m.r0c0 * m.r1c3) * (m.r2c1 * m.r3c2))) == 0real) by (nonlinear_arith);
    assert((0real * ((m.r0c0 * m.r1c3) * (m.r3c1 * m.r2c2))) == 0real) by (nonlinear_arith);
    assert((0real * ((m.r1c0 * m.r0c3) * ((m.r2c1 * m.r3c2) - (m.r3c1 * m.r2c2))))
        == (0real * ((m.r1c0 * m.r0c3) * (m.r2c1 * m.r3c2))) - (0real * ((m.r1c0 * m.r0c3) * (m.r3c1 * m.r2c2)))) by (nonlinear_arith);
    assert((0real * ((m.r1c0 * m.r0c3) * (m.r2c1 * m.r3c2))) == 0real) by (nonlinear_arith);
    assert((0real * ((m.r1c0 * m.r0c3) * (m.r3c1 * m.r2c2))) == 0real) by (nonlinear_arith);
    assert((0real * (((m.r0c1 * m.r1c2) - (m.r1c1 * m.r0c2)) * ((m.r2c0 * m.r3c3) - (m.r3c0 * m.r2c3))))
        == (0real * ((m.r0c1 * m.r1c2) * ((m.r2c0 * m.r3c3) - (m.r3c0 * m.r2c3)))) - (0real * ((m.r1c1 * m.r0c2) * ((m.r2c0 * m.r3c3) - (m.r3c0 * m.r2c3))))) by (nonlinear_arith);
    assert((0real * ((m.r0c1 * m.r1c2) * ((m.r2c0 * m.r3c3) - (m.r3c0 * m.r2c3))))
        == (0real * ((m.r0c1 * m.r1c2) * (m.r2c0 * m.r3c3))) - (0real * ((m.r0c1 * m.r1c2) * (m.r3c0 * m.r2c3)))) by (nonlinear_arith);
    assert((0real * ((m.r0c1 * m.r1c2) * (m.r2c0 * m.r3c3))) == 0real) by (nonlinear_arith);
    assert((0real * ((m.r0c1 * m.r1c2) * (m.r3c0 * m.r2c3))) == 0real) by (nonlinear_arith);
    assert((0real * ((m.r1c1 * m.r0c2) * ((m.r2c0 * m.r3c3) - (m.r3c0 * m.r2c3))))
        == (0real * ((m.r1c1 * m.r0c2) * (m.r2c0 * m.r3c3))) - (0real * ((m.r1c1 * m.r0c2) * (m.r3c0 * m.r2c3)))) by (nonlinear_arith);
    assert((0real * ((m.r1c1 * m.r0c2) * (m.r2c0 * m.r3c3))) == 0real) by (nonlinear_arith);
    assert((0real * ((m.r1c1 * m.r0c2) * (m.r3c0 * m.r2c3))) == 0real) by (nonlinear_arith);
    assert((0real * (((m.r0c1 * m.r1c3) - (m.r1c1 * m.r0c3)) * ((m.r2c0 * m.r3c2) - (m.r3c0 * m.r2c2))))
        == (0real * ((m.r0c1 * m.r1c3) * ((m.r2c0 * m.r3c2) - (m.r3c0 * m.r2c2)))) - (0real * ((m.r1c1 * m.r0c3) * ((m.r2c0 * m.r3c2) - (m.r3c0 * m.r2c2))))) by (nonlinear_arith);
    assert((0real * ((m.r0c1 * m.r1c3) * ((m.r2c0 * m.r3c2) - (m.r3c0 * m.r2c2))))
        == (0real * ((m.r0c1 * m.r1c3) * (m.r2c0 * m.r3c2))) - (0real * ((m.r0c1 * m.r1c3) * (m.r3c0 * m.r2c2)))) by (nonlinear_arith);
    assert((0real * ((m.r0c1 * m.r1c3) * (m.r2c0 * m.r3c2))) == 0real) by (nonlinear_arith);
    assert((0real * ((m.r0c1 * m.r1c3) * (m.r3c0 * m.r2c2))) == 0real) by (nonlinear_arith);
    assert((0real * ((m.r1c1 * m.r0c3) * ((m.r2c0 * m.r3c2) - (m.r3c0 * m.r2c2))))
        == (0real * ((m.r1c1 * m.r0c3) * (m.r2c0 * m.r3c2))) - (0real * ((m.r1c1 * m.r0c3) * (m.r3c0 * m.r2c2)))) by (nonlinear_arith);
    assert((0real * ((m.r1c1 * m.r0c3) * (m.r2c0 * m.r3c2))) == 0real) by (nonlinear_arith);
    assert((0real * ((m.r1c1 * m.r0c3) * (m.r3c0 * m.r2c2))) == 0real) by (nonlinear_arith);
    assert((0real * (((m.r0c2 * m.r1c3) - (m.r1c2 * m.r0c3)) * ((m.r2c0 * m.r3c1) - (m.r3c0 * m.r2c1))))
        == (0real * ((m.r0c2 * m.r1c3) * ((m.r2c0 * m.r3c1) - (m.r3c0 * m.r2c1)))) - (0real * ((m.r1c2 * m.r0c3) * ((m.r2c0 * m.r3c1) - (m.r3c0 * m.r2c1))))) by (nonlinear_arith);
    assert((0real * ((m.r0c2 * m.r1c3) * ((m.r2c0 * m.r3c1) - (m.r3c0 * m.r2c1))))
        == (0real * ((m.r0c2 * m.r1c3) * (m.r2c0 * m.r3c1))) - (0real * ((m.r0c2 * m.r1c3) * (m.r3c0 * m.r2c1)))) by (nonlinear_arith);
    assert((0real * ((m.r0c2 * m.r1c3) * (m.r2c0 * m.r3c1))) == 0real) by (nonlinear_arith);
    assert((0real * ((m.r0c2 * m.r1c3) * (m.r3c0 * m.r2c1))) == 0real) by (nonlinear_arith);
    assert((0real * ((m.r1c2 * m.r0c3) * ((m.r2c0 * m.r3c1) - (m.r3c0 * m.r2c1))))
        == (0real * ((m.r1c2 * m.r0c3) * (m.r2c0 * m.r3c1))) - (0real * ((m.r1c2 * m.r0c3) * (m.r3c0 * m.r2c1)))) by (nonlinear_arith);
    assert((0real * ((m.r1c2 * m.r0c3) * (m.r2c0 * m.r3c1))) == 0real) by (nonlinear_arith);
    assert((0real * ((m.r1c2 * m.r0c3) * (m.r3c0 * m.r2c1))) == 0real) by (nonlinear_arith);
}

proof fn lemma_real_mat4_times_adjugate_r2c0(m: Mat4Model<real>)
    ensures
        m.times(m.adjugate()).r2c0 == Mat4Model::<real>::identity().times_each(m.determinant()).r2c0,
{
    assert((m.r2c0 * (((m.r1c1 * ((m.r2c2 * m.r3c3) - (m.r3c2 * m.r2c3))) - (m.r1c2 * ((m.r2c1 * m.r3c3) - (m.r3c1 * m.r2c3)))) + (m.r1c3 * ((m.r2c1 * m.r3c2) - (m.r3c1 * m.r2c2)))))
        == (m.r2c0 * (m.r1c1 * ((m.r2c2 * m.r3c3) - (m.r3c2 * m.r2c3)))) - (m.r2c0 * (m.r1c2 * ((m.r2c1 * m.r3c3) - (m.r3c1 * m.r2c3)))) + (m.r2c0 * (m.r1c3 * ((m.r2c1 * m.r3c2) - (m.r3c1 * m.r2c2))))) by (nonlinear_arith);
    assert((m.r2c0 * (m.r1c1 * ((m.r2c2 * m.r3c3) - (m.r3c2 * m.r2c3))))
        == (m.r2c0 * (m.r1c1 * (m.r2c2 * m.r3c3))) - (m.r2c0 * (m.r1c1 * (m.r3c2 * m.r2c3)))) by (nonlinear_arith);
    assert((m.r2c0 * (m.r1c1 * (m.r2c2 * m.r3c3)))
        == m.r1c1 * m.r2c0 * m.r2c2 * m.r3c3) by (nonlinear_arith);
    assert((m.r2c0 * (m.r1c1 * (m.r3c2 * m.r2c3)))
        == m.r1c1 * m.r2c0 * m.r2c3 * m.r3c2) by (nonlinear_arith);
    assert((m.r2c0 * (m.r1c2 * ((m.r2c1 * m.r3c3) - (m.r3c1 * m.r2c3))))
        == (m.r2c0 * (m.r1c2 * (m.r2c1 * m.r3c3))) - (m.r2c0 * (m.r1c2 * (m.r3c1 * m.r2c3)))) by (nonlinear_arith);
    assert((m.r2c0 * (m.r1c2 * (m.r2c1 * m.r3c3)))
        == m.r1c2 * m.r2c0 * m.r2c1 * m.r3c3) by (nonlinear_arith);
    assert((m.r2c0 * (m.r1c2 * (m.r3c1 * m.r2c3)))
        == m.r1c2 * m.r2c0 * m.r2c3 * m.r3c1) by (nonlinear_arith);
    assert((m.r2c0 * (m.r1c3 * ((m.r2c1 * m.r3c2) - (m.r3c1 * m.r2c2))))
        == (m.r2c0 * (m.r1c3 * (m.r2c1 * m.r3c2))) - (m.r2c0 * (m.r1c3 * (m.r3c1 * m.r2c2)))) by (nonlinear_arith);
    assert((m.r2c0 * (m.r1c3 * (m.r2c1 * m.r3c2)))
        == m.r1c3 * m.r2c0 * m.r2c1 * m.r3c2) by (nonlinear_arith);
    assert((m.r2c0 * (m.r1c3 * (m.r3c1 * m.r2c2)))
        == m.r1c3 * m.r2c0 * m.r2c2 * m.r3c1) by (nonlinear_arith);
    assert((m.r2c1 * ((((-m.r1c0) * ((m.r2c2 * m.r3c3) - (m.r3c2 * m.r2c3))) + (m.r1c2 * ((m.r2c0 * m.r3c3) - (m.r3c0 * m.r2c3)))) - (m.r1c3 * ((m.r2c0 * m.r3c2) - (m.r3c0 * m.r2c2)))))
        == (m.r2c1 * ((-m.r1c0) * ((m.r2c2 * m.r3c3) - (m.r3c2 * m.r2c3)))) + (m.r2c1 * (m.r1c2 * ((m.r2c0 * m.r3c3) - (m.r3c0 * m.r2c3)))) - (m.r2c1 * (m.r1c3 * ((m.r2c0 * m.r3c2) - (m.r3c0 * m.r2c2))))) by (nonlinear_arith);
    assert((m.r2c1 * ((-m.r1c0) * ((m.r2c2 * m.r3c3) - (m.r3c2 * m.r2c3))))
        == 0real - (m.r2c1 * (m.r1c0 * ((m.r2c2 * m.r3c3) - (m.r3c2 * m.r2c3))))) by (nonlinear_arith);
    assert((m.r2c1 * (m.r1c0 * ((m.r2c2 * m.r3c3) - (m.r3c2 * m.r2c3))))
        == (m.r2c1 * (m.r1c0 * (m.r2c2 * m.r3c3))) - (m.r2c1 * (m.r1c0 * (m.r3c2 * m.r2c3)))) by (nonlinear_arith);
    assert((m.r2c1 * (m.r1c0 * (m.r2c2 * m.r3c3)))
        == m.r1c0 * m.r2c1 * m.r2c2 * m.r3c3) by (nonlinear_arith);
    assert((m.r2c1 * (m.r1c0 * (m.r3c2 * m.r2c3)))
        == m.r1c0 * m.r2c1 * m.r2c3 * m.r3c2) by (nonlinear_arith);
    assert((m.r2c1 * (m.r1c2 * ((m.r2c0 * m.r3c3) - (m.r3c0 * m.r2c3))))
        == (m.r2c1 * (m.r1c2 * (m.r2c0 * m.r3c3))) - (m.r2c1 * (m.r1c2 * (m.r3c0 * m.r2c3)))) by (nonlinear_arith);
    assert((m.r2c1 * (m.r1c2 * (m.r2c0 * m.r3c3)))
        == m.r1c2 * m.r2c0 * m.r2c1 * m.r3c3) by (nonlinear_arith);
    assert((m.r2c1 * (m.r1c2 * (m.r3c0 * m.r2c3)))
        == m.r1c2 * m.r2c1 * m.r2c3 * m.r3c0) by (nonlinear_arith);
    assert((m.r2c1 * (m.r1c3 * ((m.r2c0 * m.r3c2) - (m.r3c0 * m.r2c2))))
        == (m.r2c1 * (m.r1c3 * (m.r2c0 * m.r3c2))) - (m.r2c1 * (m.r1c3 * (m.r3c0 * m.r2c2)))) by (nonlinear_arith);
    assert((m.r2c1 * (m.r1c3 * (m.r2c0 * m.r3c2)))
        == m.r1c3 * m.r2c0 * m.r2c1 * m.r3c2) by (nonlinear_arith);
    assert((m.r2c1 * (m.r1c3 * (m.r3c0 * m.r2c2)))
        == m.r1c3 * m.r2c1 * m.r2c2 * m.r3c0) by (nonlinear_arith);
    assert((m.r2c2 * (((m.r1c0 * ((m.r2c1 * m.r3c3) - (m.r3c1 * m.r2c3))) - (m.r1c1 * ((m.r2c0 * m.r3c3) - (m.r3c0 * m.r2c3)))) + (m.r1c3 * ((m.r2c0 * m.r3c1) - (m.r3c0 * m.r2c1)))))
        == (m.r2c2 * (m.r1c0 * ((m.r2c1 * m.r3c3) - (m.r3c1 * m.r2c3)))) - (m.r2c2 * (m.r1c1 * ((m.r2c0 * m.r3c3) - (m.r3c0 * m.r2c3)))) + (m.r2c2 * (m.r1c3 * ((m.r2c0 * m.r3c1) - (m.r3c0 * m.r2c1))))) by (nonlinear_arith);
    assert((m.r2c2 * (m.r1c0 * ((m.r2c1 * m.r3c3) - (m.r3c1 * m.r2c3))))
        == (m.r2c2 * (m.r1c0 * (m.r2c1 * m.r3c3))) - (m.r2c2 * (m.r1c0 * (m.r3c1 * m.r2c3)))) by (nonlinear_arith);
    assert((m.r2c2 * (m.r1c0 * (m.r2c1 * m.r3c3)))
        == m.r1c0 * m.r2c1 * m.r2c2 * m.r3c3) by (nonlinear_arith);
    assert((m.r2c2 * (m.r1c0 * (m.r3c1 * m.r2c3)))
        == m.r1c0 * m.r2c2 * m.r2c3 * m.r3c1) by (nonlinear_arith);
    assert((m.r2c2 * (m.r1c1 * ((m.r2c0 * m.r3c3) - (m.r3c0 * m.r2c3))))
        == (m.r2c2 * (m.r1c1 * (m.r2c0 * m.r3c3))) - (m.r2c2 * (m.r1c1 * (m.r3c0 * m.r2c3)))) by (nonlinear_arith);
    assert((m.r2c2 * (m.r1c1 * (m.r2c0 * m.r3c3)))
        == m.r1c1 * m.r2c0 * m.r2c2 * m.r3c3) by (nonlinear_arith);
    assert((m.r2c2 * (m.r1c1 * (m.r3c0 * m.r2c3)))
        == m.r1c1 * m.r2c2 * m.r2c3 * m.r3c0) by (nonlinear_arith);
    assert((m.r2c2 * (m.r1c3 * ((m.r2c0 * m.r3c1) - (m.r3c0 * m.r2c1))))
        == (m.r2c2 * (m.r1c3 * (m.r2c0 * m.r3c1))) - (m.r2c2 * (m.r1c3 * (m.r3c0 * m.r2c1)))) by (nonlinear_arith);
    assert((m.r2c2 * (m.r1c3 * (m.r2c0 * m.r3c1)))
        == m.r1c3 * m.r2c0 * m.r2c2 * m.r3c1) by (nonlinear_arith);
    assert((m.r2c2 * (m.r1c3 * (m.r3c0 * m.r2c1)))
        == m.r1c3 * m.r2c1 * m.r2c2 * m.r3c0) by (nonlinear_arith);
    assert((m.r2c3 * ((((-m.r1c0) * ((m.r2c1 * m.r3c2) - (m.r3c1 * m.r2c2))) + (m.r1c1 * ((m.r2c0 * m.r3c2) - (m.r3c0 * m.r2c2)))) - (m.r1c2 * ((m.r2c0 * m.r3c1) - (m.r3c0 * m.r2c1)))))
        == (m.r2c3 * ((-m.r1c0) * ((m.r2c1 * m.r3c2) - (m.r3c1 * m.r2c2)))) + (m.r2c3 * (m.r1c1 * ((m.r2c0 * m.r3c2) - (m.r3c0 * m.r2c2)))) - (m.r2c3 * (m.r1c2 * ((m.r2c0 * m.r3c1) - (m.r3c0 * m.r2c1))))) by (nonlinear_arith);
    assert((m.r2c3 * ((-m.r1c0) * ((m.r2c1 * m.r3c2) - (m.r3c1 * m.r2c2))))
        == 0real - (m.r2c3 * (m.r1c0 * ((m.r2c1 * m.r3c2) - (m.r3c1 * m.r2c2))))) by (nonlinear_arith);
    assert((m.r2c3 * (m.r1c0 * ((m.r2c1 * m.r3c2) - (m.r3c1 * m.r2c2))))
        == (m.r2c3 * (m.r1c0 * (m.r2c1 * m.r3c2))) - (m.r2c3 * (m.r1c0 * (m.r3c1 * m.r2c2)))) by (nonlinear_arith);
    assert((m.r2c3 * (m.r1c0 * (m.r2c1 * m.r3c2)))
        == m.r1c0 * m.r2c1 * m.r2c3 * m.r3c2) by (nonlinear_arith);
    assert((m.r2c3 * (m.r1c0 * (m.r3c1 * m.r2c2)))
        == m.r1c0 * m.r2c2 * m.r2c3 * m.r3c1) by (nonlinear_arith);
    assert((m.r2c3 * (m.r1c1 * ((m.r2c0 * m.r3c2) - (m.r3c0 * m.r2c2))))
        == (m.r2c3 * (m.r1c1 * (m.r2c0 * m.r3c2))) - (m.r2c3 * (m.r1c1 * (m.r3c0 * m.r2c2)))) by (nonlinear_arith);
    assert((m.r2c3 * (m.r1c1 * (m.r2c0 * m.r3c2)))
        == m.r1c1 * m.r2c0 * m.r2c3 * m.r3c2) by (nonlinear_arith);
    assert((m.r2c3 * (m.r1c1 * (m.r3c0 * m.r2c2)))
        == m.r1c1 * m.r2c2 * m.r2c3 * m.r3c0) by (nonlinear_arith);
    assert((m.r2c3 * (m.r1c2 * ((m.r2c0 * m.r3c1) - (m.r3c0 * m.r2c1))))
        == (m.r2c3 * (m.r1c2 * (m.r2c0 * m.r3c1))) - (m.r2c3 * (m.r1c2 * (m.r3c0 * m.r2c1)))) by (nonlinear_arith);
    assert((m.r2c3 * (m.r1c2 * (m.r2c0 * m.r3c1)))
        == m.r1c2 * m.r2c0 * m.r2c3 * m.r3c1) by (nonlinear_arith);
    assert((m.r2c3 * (m.r1c2 * (m.r3c0 * m.r2c1)))
        == m.r1c2 * m.r2c1 * m.r2c3 * m.r3c0) by (nonlinear_arith);
    assert((0real * ((((((m.r0c0 * m.r1c1) - (m.r1c0 * m.r0c1)) * ((m.r2c2 * m.r3c3) - (m.r3c2 * m.r2c3))) - (((m.r0c0 * m.r1c2) - (m.r1c0 * m.r0c2)) * ((m.r2c1 * m.r3c3) - (m.r3c1 * m.r2c3)))) + (((m.r0c0 * m.r1c3) - (m.r1c0 * m.r0c3)) * ((m.r2c1 * m.r3c2) - (m.r3c1 * m.r2c2)))) + (((((m.r0c1 * m.r1c2) - (m.r1c1 * m.r0c2)) * ((m.r2c0 * m.r3c3) - (m.r3c0 * m.r2c3))) - (((m.r0c1 * m.r1c3) - (m.r1c1 * m.r0c3)) * ((m.r2c0 * m.r3c2) - (m.r3c0 * m.r2c2)))) + (((m.r0c2 * m.r1c3) - (m.r1c2 * m.r0c3)) * ((m.r2c0 * m.r3c1) - (m.r3c0 * m.r2c1))))))
        == (0real * (((m.r0c0 * m.r1c1) - (m.r1c0 * m.r0c1)) * ((m.r2c2 * m.r3c3) - (m.r3c2 * m.r2c3)))) - (0real * (((m.r0c0 * m.r1c2) - (m.r1c0 * m.r0c2)) * ((m.r2c1 * m.r3c3) - (m.r3c1 * m.r2c3)))) + (0real * (((m.r0c0 * m.r1c3) - (m.r1c0 * m.r0c3)) * ((m.r2c1 * m.r3c2) - (m.r3c1 * m.r2c2)))) + (0real * (((m.r0c1 * m.r1c2) - (m.r1c1 * m.r0c2)) * ((m.r2c0 * m.r3c3) - (m.r3c0 * m.r2c3)))) - (0real * (((m.r0c1 * m.r1c3) - (m.r1c1 * m.r0c3)) * ((m.r2c0 * m.r3c2) - (m.r3c0 * m.r2c2)))) + (0real * (((m.r0c2 * m.r1c3) - (m.r1c2 * m.r0c3)) * ((m.r2c0 * m.r3c1) - (m.r3c0 * m.r2c1))))) by (nonlinear_arith);
    assert((0real * (((m.r0c0 * m.r1c1) - (m.r1c0 * m.r0c1)) * ((m.r2c2 * m.r3c3) - (m.r3c2 * m.r2c3))))
        == (0real * ((m.r0c0 * m.r1c1) * ((m.r2c2 * m.r3c3) - (m.r3c2 * m.r2c3)))) - (0real * ((m.r1c0 * m.r0c1) * ((m.r2c2 * m.r3c3) - (m.r3c2 * m.r2c3))))) by (nonlinear_arith);
    assert((0real * ((m.r0c0 * m.r1c1) * ((m.r2c2 * m.r3c3) - (m.r3c2 * m.r2c3))))
        == (0real * ((m.r0c0 * m.r1c1) * (m.r2c2 * m.r3c3))) - (0real * ((m.r0c0 * m.r1c1) * (m.r3c2 * m.r2c3)))) by (nonlinear_arith);
    assert((0real * ((m.r0c0 * m.r1c1) * (m.r2c2 * m.r3c3))) == 0real) by (nonlinear_arith);
    assert((0real * ((m.r0c0 * m.r1c1) * (m.r3c2 * m.r2c3))) == 0real) by (nonlinear_arith);
    assert((0real * ((m.r1c0 * m.r0c1) * ((m.r2c2 * m.r3c3) - (m.r3c2 * m.r2c3))))
        == (0real * ((m.r1c0 * m.r0c1) * (m.r2c2 * m.r3c3))) - (0real * ((m.r1c0 * m.r0c1) * (m.r3c2 * m.r2c3)))) by (nonlinear_arith);
    assert((0real * ((m.r1c0 * m.r0c1) * (m.r2c2 * m.r3c3))) == 0real) by (nonlinear_arith);
    assert((0real * ((m.r1c0 * m.r0c1) * (m.r3c2 * m.r2c3))) == 0real) by (nonlinear_arith);
    assert((0real * (((m.r0c0 * m.r1c2) - (m.r1c0 * m.r0c2)) * ((m.r2c1 * m.r3c3) - (m.r3c1 * m.r2c3))))
        == (0real * ((m.r0c0 * m.r1c2) * ((m.r2c1 * m.r3c3) - (m.r3c1 * m.r2c3)))) - (0real * ((m.r1c0 * m.r0c2) * ((m.r2c1 * m.r3c3) - (m.r3c1 * m.r2c3))))) by (nonlinear_arith);
    assert((0real * ((m.r0c0 * m.r1c2) * ((m.r2c1 * m.r3c3) - (m.r3c1 * m.r2c3))))
        == (0real * ((m.r0c0 * m.r1c2) * (m.r2c1 * m.r3c3))) - (0real * ((m.r0c0 * m.r1c2) * (m.r3c1 * m.r2c3)))) by (nonlinear_arith);
    assert((0real * ((m.r0c0 * m.r1c2) * (m.r2c1 * m.r3c3))) == 0real) by (nonlinear_arith);
    assert((0real * ((m.r0c0 * m.r1c2) * (m.r3c1 * m.r2c3))) == 0real) by (nonlinear_arith);
    assert((0real * ((m.r1c0 * m.r0c2) * ((m.r2c1 * m.r3c3) - (m.r3c1 * m.r2c3))))
        == (0real * ((m.r1c0 * m.r0c2) * (m.r2c1 * m.r3c3))) - (0real * ((m.r1c0 * m.r0c2) * (m.r3c1 * m.r2c3)))) by (nonlinear_arith);
    assert((0real * ((m.r1c0 * m.r0c2) * (m.r2c1 * m.r3c3))) == 0real) by (nonlinear_arith);
    assert((0real * ((m.r1c0 * m.r0c2) * (m.r3c1 * m.r2c3))) == 0real) by (nonlinear_arith);
    assert((0real * (((m.r0c0 * m.r1c3) - (m.r1c0 * m.r0c3)) * ((m.r2c1 * m.r3c2) - (m.r3c1 * m.r2c2))))
        == (0real * ((m.r0c0 * m.r1c3) * ((m.r2c1 * m.r3c2) - (m.r3c1 * m.r2c2)))) - (0real * ((m.r1c0 * m.r0c3) * ((m.r2c1 * m.r3c2) - (m.r3c1 * m.r2c2))))) by (nonlinear_arith);
    assert((0real * ((m.r0c0 * m.r1c3) * ((m.r2c1 * m.r3c2) - (m.r3c1 * m.r2c2))))
        == (0real * ((m.r0c0 * m.r1c3) * (m.r2c1 * m.r3c2))) - (0real * ((m.r0c0 * m.r1c3) * (m.r3c1 * m.r2c2)))) by (nonlinear_arith);
    assert((0real * ((m.r0c0 * m.r1c3) * (m.r2c1 * m.r3c2))) == 0real) by (nonlinear_arith);
    assert((0real * ((m.r0c0 * m.r1c3) * (m.r3c1 * m.r2c2))) == 0real) by (nonlinear_arith);
    assert((0real * ((m.r1c0 * m.r0c3) * ((m.r2c1 * m.r3c2) - (m.r3c1 * m.r2c2))))
        == (0real * ((m.r1c0 * m.r0c3) * (m.r2c1 * m.r3c2))) - (0real * ((m.r1c0 * m.r0c3) * (m.r3c1 * m.r2c2)))) by (nonlinear_arith);
    assert((0real * ((m.r1c0 * m.r0c3) * (m.r2c1 * m.r3c2))) == 0real) by (nonlinear_arith);
    assert((0real * ((m.r1c0 * m.r0c3) * (m.r3c1 * m.r2c2))) == 0real) by (nonlinear_arith);
    assert((0real * (((m.r0c1 * m.r1c2) - (m.r1c1 * m.r0c2)) * ((m.r2c0 * m.r3c3) - (m.r3c0 * m.r2c3))))
        == (0real * ((m.r0c1 * m.r1c2) * ((m.r2c0 * m.r3c3) - (m.r3c0 * m.r2c3)))) - (0real * ((m.r1c1 * m.r0c2) * ((m.r2c0 * m.r3c3) - (m.r3c0 * m.r2c3))))) by (nonlinear_arith);
    assert((0real * ((m.r0c1 * m.r1c2) * ((m.r2c0 * m.r3c3) - (m.r3c0 * m.r2c3))))
        == (0real * ((m.r0c1 * m.r1c2) * (m.r2c0 * m.r3c3))) - (0real * ((m.r0c1 * m.r1c2) * (m.r3c0 * m.r2c3)))) by (nonlinear_arith);
    assert((0real * ((m.r0c1 * m.r1c2) * (m.r2c0 * m.r3c3))) == 0real) by (nonlinear_arith);
    assert((0real * ((m.r0c1 * m.r1c2) * (m.r3c0 * m.r2c3))) == 0real) by (nonlinear_arith);
    assert((0real * ((m.r1c1 * m.r0c2) * ((m.r2c0 * m.r3c3) - (m.r3c0 * m.r2c3))))
        == (0real * ((m.r1c1 * m.r0c2) * (m.r2c0 * m.r3c3))) - (0real * ((m.r1c1 * m.r0c2) * (m.r3c0 * m.r2c3)))) by (nonlinear_arith);
    assert((0real * ((m.r1c1 * m.r0c2) * (m.r2c0 * m.r3c3))) == 0real) by (nonlinear_arith);
    assert((0real * ((m.r1c1 * m.r0c2) * (m.r3c0 * m.r2c3))) == 0real) by (nonlinear_arith);
    assert((0real * (((m.r0c1 * m.r1c3) - (m.r1c1 * m.r0c3)) * ((m.r2c0 * m.r3c2) - (m.r3c0 * m.r2c2))))
        == (0real * ((m.r0c1 * m.r1c3) * ((m.r2c0 * m.r3c2) - (m.r3c0 * m.r2c2)))) - (0real * ((m.r1c1 * m.r0c3) * ((m.r2c0 * m.r3c2) - (m.r3c0 * m.r2c2))))) by (nonlinear_arith);
    assert((0real * ((m.r0c1 * m.r1c3) * ((m.r2c0 * m.r3c2) - (m.r3c0 * m.r2c2))))
        == (0real * ((m.r0c1 * m.r1c3) * (m.r2c0 * m.r3c2))) - (0real * ((m.r0c1 * m.r1c3) * (m.r3c0 * m.r2c2)))) by (nonlinear_arith);
    assert((0real * ((m.r0c1 * m.r1c3) * (m.r2c0 * m.r3c2))) == 0real) by (nonlinear_arith);
    assert((0real * ((m.r0c1 * m.r1c3) * (m.r3c0 * m.r2c2))) == 0real) by (nonlinear_arith);
    assert((0real * ((m.r1c1 * m.r0c3) * ((m.r2c0 * m.r3c2) - (m.r3c0 * m.r2c2))))
        == (0real * ((m.r1c1 * m.r0c3) * (m.r2c0 * m.r3c2))) - (0real * ((m.r1c1 * m.r0c3) * (m.r3c0 * m.r2c2)))) by (nonlinear_arith);
    assert((0real * ((m.r1c1 * m.r0c3) * (m.r2c0 * m.r3c2))) == 0real) by (nonlinear_arith);
    assert((0real * ((m.r1c1 * m.r0c3) * (m.r3c0 * m.r2c2))) == 0real) by (nonlinear_arith);
    assert((0real * (((m.r0c2 * m.r1c3) - (m.r1c2 * m.r0c3)) * ((m.r2c0 * m.r3c1) - (m.r3c0 * m.r2c1))))
        == (0real * ((m.r0c2 * m.r1c3) * ((m.r2c0 * m.r3c1) - (m.r3c0 * m.r2c1)))) - (0real * ((m.r1c2 * m.r0c3) * ((m.r2c0 * m.r3c1) - (m.r3c0 * m.r2c1))))) by (nonlinear_arith);
    assert((0real * ((m.r0c2 * m.r1c3) * ((m.r2c0 * m.r3c1) - (m.r3c0 * m.r2c1))))
        == (0real * ((m.r0c2 * m.r1c3) * (m.r2c0 * m.r3c1))) - (0real * ((m.r0c2 * m.r1c3) * (m.r3c0 * m.r2c1)))) by (nonlinear_arith);
    assert((0real * ((m.r0c2 * m.r1c3) * (m.r2c0 * m.r3c1))) == 0real) by (nonlinear_arith);
    assert((0real * ((m.r0c2 * m.r1c3) * (m.r3c0 * m.r2c1))) == 0real) by (nonlinear_arith);
    assert((0real * ((m.r1c2 * m.r0c3) * ((m.r2c0 * m.r3c1) - (m.r3c0 * m.r2c1))))
        == (0real * ((m.r1c2 * m.r0c3) * (m.r2c0 * m.r3c1))) - (0real * ((m.r1c2 * m.r0c3) * (m.r3c0 * m.r2c1)))) by (nonlinear_arith);
    assert((0real * ((m.r1c2 * m.r0c3) * (m.r2c0 * m.r3c1))) == 0real) by (nonlinear_arith);
    assert((0real * ((m.r1c2 * m.r0c3) * (m.r3c0 * m.r2c1))) == 0real) by (nonlinear_arith);
}

proof fn lemma_real_mat4_times_adjugate_r2c1(m: Mat4Model<real>)
    ensures
        m.times(m.adjugate()).r2c1 == Mat4Model::<real>::identity().times_each(m.determinant()).r2c1,
{
    assert((m.r2c0 * ((((-m.r0c1) * ((m.r2c2 * m.r3c3) - (m.r3c2 * m.r2c3))) + (m.r0c2 * ((m.r2c1 * m.r3c3) - (m.r3c1 * m.r2c3)))) - (m.r0c3 * ((m.r2c1 * m.r3c2) - (m.r3c1 * m.r2c2)))))
        == (m.r2c0 * ((-m.r0c1) * ((m.r2c2 * m.r3c3) - (m.r3c2 * m.r2c3)))) + (m.r2c0 * (m.r0c2 * ((m.r2c1 * m.r3c3) - (m.r3c1 * m.r2c3)))) - (m.r2c0 * (m.r0c3 * ((m.r2c1 * m.r3c2) - (m.r3c1 * m.r2c2))))) by (nonlinear_arith);
    assert((m.r2c0 * ((-m.r0c1) * ((m.r2c2 * m.r3c3) - (m.r3c2 * m.r2c3))))
        == 0real - (m.r2c0 * (m.r0c1 * ((m.r2c2 * m.r3c3) - (m.r3c2 * m.r2c3))))) by (nonlinear_arith);
    assert((m.r2c0 * (m.r0c1 * ((m.r2c2 * m.r3c3) - (m.r3c2 * m.r2c3))))
        == (m.r2c0 * (m.r0c1 * (m.r2c2 * m.r3c3))) - (m.r2c0 * (m.r0c1 * (m.r3c2 * m.r2c3)))) by (nonlinear_arith);
    assert((m.r2c0 * (m.r0c1 * (m.r2c2 * m.r3c3)))
        == m.r0c1 * m.r2c0 * m.r2c2 * m.r3c3) by (nonlinear_arith);
    assert((m.r2c0 * (m.r0c1 * (m.r3c2 * m.r2c3)))
        == m.r0c1 * m.r2c0 * m.r2c3 * m.r3c2) by (nonlinear_arith);
    assert((m.r2c0 * (m.r0c2 * ((m.r2c1 * m.r3c3) - (m.r3c1 * m.r2c3))))
        == (m.r2c0 * (m.r0c2 * (m.r2c1 * m.r3c3))) - (m.r2c0 * (m.r0c2 * (m.r3c1 * m.r2c3)))) by (nonlinear_arith);
    assert((m.r2c0 * (m.r0c2 * (m.r2c1 * m.r3c3)))
        == m.r0c2 * m.r2c0 * m.r2c1 * m.r3c3) by (nonlinear_arith);
    assert((m.r2c0 * (m.r0c2 * (m.r3c1 * m.r2c3)))
        == m.r0c2 * m.r2c0 * m.r2c3 * m.r3c1) by (nonlinear_arith);
    assert((m.r2c0 * (m.r0c3 * ((m.r2c1 * m.r3c2) - (m.r3c1 * m.r2c2))))
        == (m.r2c0 * (m.r0c3 * (m.r2c1 * m.r3c2))) - (m.r2c0 * (m.r0c3 * (m.r3c1 * m.r2c2)))) by (nonlinear_arith);
    assert((m.r2c0 * (m.r0c3 * (m.r2c1 * m.r3c2)))
        == m.r0c3 * m.r2c0 * m.r2c1 * m.r3c2) by (nonlinear_arith);
    assert((m.r2c0 * (m.r0c3 * (m.r3c1 * m.r2c2)))
        == m.r0c3 * m.r2c0 * m.r2c2 * m.r3c1) by (nonlinear_arith);
    assert((m.r2c1 * (((m.r0c0 * ((m.r2c2 * m.r3c3) - (m.r3c2 * m.r2c3))) - (m.r0c2 * ((m.r2c0 * m.r3c3) - (m.r3c0 * m.r2c3)))) + (m.r0c3 * ((m.r2c0 * m.r3c2) - (m.r3c0 * m.r2c2)))))
        == (m.r2c1 * (m.r0c0 * ((m.r2c2 * m.r3c3) - (m.r3c2 * m.r2c3)))) - (m.r2c1 * (m.r0c2 * ((m.r2c0 * m.r3c3) - (m.r3c0 * m.r2c3)))) + (m.r2c1 * (m.r0c3 * ((m.r2c0 * m.r3c2) - (m.r3c0 * m.r2c2))))) by (nonlinear_arith);
    assert((m.r2c1 * (m.r0c0 * ((m.r2c2 * m.r3c3) - (m.r3c2 * m.r2c3))))
        == (m.r2c1 * (m.r0c0 * (m.r2c2 * m.r3c3))) - (m.r2c1 * (m.r0c0 * (m.r3c2 * m.r2c3)))) by (nonlinear_arith);
    assert((m.r2c1 * (m.r0c0 * (m.r2c2 * m.r3c3)))
        == m.r0c0 * m.r2c1 * m.r2c2 * m.r3c3) by (nonlinear_arith);
    assert((m.r2c1 * (m.r0c0 * (m.r3c2 * m.r2c3)))
        == m.r0c0 * m.r2c1 * m.r2c3 * m.r3c2) by (nonlinear_arith);
    assert((m.r2c1 * (m.r0c2 * ((m.r2c0 * m.r3c3) - (m.r3c0 * m.r2c3))))
        == (m.r2c1 * (m.r0c2 * (m.r2c0 * m.r3c3))) - (m.r2c1 * (m.r0c2 * (m.r3c0 * m.r2c3)))) by (nonlinear_arith);
    assert((m.r2c1 * (m.r0c2 * (m.r2c0 * m.r3c3)))
        == m.r0c2 * m.r2c0 * m.r2c1 * m.r3c3) by (nonlinear_arith);
    assert((m.r2c1 * (m.r0c2 * (m.r3c0 * m.r2c3)))
        == m.r0c2 * m.r2c1 * m.r2c3 * m.r3c0) by (nonlinear_arith);
    assert((m.r2c1 * (m.r0c3 * ((m.r2c0 * m.r3c2) - (m.r3c0 * m.r2c2))))
        == (m.r2c1 * (m.r0c3 * (m.r2c0 * m.r3c2))) - (m.r2c1 * (m.r0c3 * (m.r3c0 * m.r2c2)))) by (nonlinear_arith);
    assert((m.r2c1 * (m.r0c3 * (m.r2c0 * m.r3c2)))
        == m.r0c3 * m.r2c0 * m.r2c1 * m.r3c2) by (nonlinear_arith);
    assert((m.r2c1 * (m.r0c3 * (m.r3c0 * m.r2c2)))
        == m.r0c3 * m.r2c1 * m.r2c2 * m.r3c0) by (nonlinear_arith);
    assert((m.r2c2 * ((((-m.r0c0) * ((m.r2c1 * m.r3c3) - (m.r3c1 * m.r2c3))) + (m.r0c1 * ((m.r2c0 * m.r3c3) - (m.r3c0 * m.r2c3)))) - (m.r0c3 * ((m.r2c0 * m.r3c1) - (m.r3c0 * m.r2c1)))))
        == (m.r2c2 * ((-m.r0c0) * ((m.r2c1 * m.r3c3) - (m.r3c1 * m.r2c3)))) + (m.r2c2 * (m.r0c1 * ((m.r2c0 * m.r3c3) - (m.r3c0 * m.r2c3)))) - (m.r2c2 * (m.r0c3 * ((m.r2c0 * m.r3c1) - (m.r3c0 * m.r2c1))))) by (nonlinear_arith);
    assert((m.r2c2 * ((-m.r0c0) * ((m.r2c1 * m.r3c3) - (m.r3c1 * m.r2c3))))
        == 0real - (m.r2c2 * (m.r0c0 * ((m.r2c1 * m.r3c3) - (m.r3c1 * m.r2c3))))) by (nonlinear_arith);
    assert((m.r2c2 * (m.r0c0 * ((m.r2c1 * m.r3c3) - (m.r3c1 * m.r2c3))))
        == (m.r2c2 * (m.r0c0 * (m.r2c1 * m.r3c3))) - (m.r2c2 * (m.r0c0 * (m.r3c1 * m.r2c3)))) by (nonlinear_arith);
    assert((m.r2c2 * (m.r0c0 * (m.r2c1 * m.r3c3)))
        == m.r0c0 * m.r2c1 * m.r2c2 * m.r3c3) by (nonlinear_arith);
    assert((m.r2c2 * (m.r0c0 * (m.r3c1 * m.r2c3)))
        == m.r0c0 * m.r2c2 * m.r2c3 * m.r3c1) by (nonlinear_arith);
    assert((m.r2c2 * (m.r0c1 * ((m.r2c0 * m.r3c3) - (m.r3c0 * m.r2c3))))
        == (m.r2c2 * (m.r0c1 * (m.r2c0 * m.r3c3))) - (m.r2c2 * (m.r0c1 * (m.r3c0 * m.r2c3)))) by (nonlinear_arith);
    assert((m.r2c2 * (m.r0c1 * (m.r2c0 * m.r3c3)))
        == m.r0c1 * m.r2c0 * m.r2c2 * m.r3c3) by (nonlinear_arith);
    assert((m.r2c2 * (m.r0c1 * (m.r3c0 * m.r2c3)))
        == m.r0c1 * m.r2c2 * m.r2c3 * m.r3c0) by (nonlinear_arith);
    assert((m.r2c2 * (m.r0c3 * ((m.r2c0 * m.r3c1) - (m.r3c0 * m.r2c1))))
        == (m.r2c2 * (m.r0c3 * (m.r2c0 * m.r3c1))) - (m.r2c2 * (m.r0c3 * (m.r3c0 * m.r2c1)))) by (nonlinear_arith);
    assert((m.r2c2 * (m.r0c3 * (m.r2c0 * m.r3c1)))
        == m.r0c3 * m.r2c0 * m.r2c2 * m.r3c1) by (nonlinear_arith);
    assert((m.r2c2 * (m.r0c3 * (m.r3c0 * m.r2c1)))
        == m.r0c3 * m.r2c1 * m.r2c2 * m.r3c0) by (nonlinear_arith);
    assert((m.r2c3 * (((m.r0c0 * ((m.r2c1 * m.r3c2) - (m.r3c1 * m.r2c2))) - (m.r0c1 * ((m.r2c0 * m.r3c2) - (m.r3c0 * m.r2c2)))) + (m.r0c2 * ((m.r2c0 * m.r3c1) - (m.r3c0 * m.r2c1)))))
        == (m.r2c3 * (m.r0c0 * ((m.r2c1 * m.r3c2) - (m.r3c1 * m.r2c2)))) - (m.r2c3 * (m.r0c1 * ((m.r2c0 * m.r3c2) - (m.r3c0 * m.r2c2)))) + (m.r2c3 * (m.r0c2 * ((m.r2c0 * m.r3c1) - (m.r3c0 * m.r2c1))))) by (nonlinear_arith);
    assert((m.r2c3 * (m.r0c0 * ((m.r2c1 * m.r3c2) - (m.r3c1 * m.r2c2))))
        == (m.r2c3 * (m.r0c0 * (m.r2c1 * m.r3c2))) - (m.r2c3 * (m.r0c0 * (m.r3c1 * m.r2c2)))) by (nonlinear_arith);
    assert((m.r2c3 * (m.r0c0 * (m.r2c1 * m.r3c2)))
        == m.r0c0 * m.r2c1 * m.r2c3 * m.r3c2) by (nonlinear_arith);
    assert((m.r2c3 * (m.r0c0 * (m.r3c1 * m.r2c2)))
        == m.r0c0 * m.r2c2 * m.r2c3 * m.r3c1) by (nonlinear_arith);
    assert((m.r2c3 * (m.r0c1 * ((m.r2c0 * m.r3c2) - (m.r3c0 * m.r2c2))))
        == (m.r2c3 * (m.r0c1 * (m.r2c0 * m.r3c2))) - (m.r2c3 * (m.r0c1 * (m.r3c0 * m.r2c2)))) by (nonlinear_arith);
    assert((m.r2c3 * (m.r0c1 * (m.r2c0 * m.r3c2)))
        == m.r0c1 * m.r2c0 * m.r2c3 * m.r3c2) by (nonlinear_arith);
    assert((m.r2c3 * (m.r0c1 * (m.r3c0 * m.r2c2)))
        == m.r0c1 * m.r2c2 * m.r2c3 * m.r3c0) by (nonlinear_arith);
    assert((m.r2c3 * (m.r0c2 * ((m.r2c0 * m.r3c1) - (m.r3c0 * m.r2c1))))
        == (m.r2c3 * (m.r0c2 * (m.r2c0 * m.r3c1))) - (m.r2c3 * (m.r0c2 * (m.r3c0 * m.r2c1)))) by (nonlinear_arith);
    assert((m.r2c3 * (m.r0c2 * (m.r2c0 * m.r3c1)))
        == m.r0c2 * m.r2c0 * m.r2c3 * m.r3c1) by (nonlinear_arith);
    assert((m.r2c3 * (m.r0c2 * (m.r3c0 * m.r2c1)))
        == m.r0c2 * m.r2c1 * m.r2c3 * m.r3c0) by (nonlinear_arith);
    assert((0real * ((((((m.r0c0 * m.r1c1) - (m.r1c0 * m.r0c1)) * ((m.r2c2 * m.r3c3) - (m.r3c2 * m.r2c3))) - (((m.r0c0 * m.r1c2) - (m.r1c0 * m.r0c2)) * ((m.r2c1 * m.r3c3) - (m.r3c1 * m.r2c3)))) + (((m.r0c0 * m.r1c3) - (m.r1c0 * m.r0c3)) * ((m.r2c1 * m.r3c2) - (m.r3c1 * m.r2c2)))) + (((((m.r0c1 * m.r1c2) - (m.r1c1 * m.r0c2)) * ((m.r2c0 * m.r3c3) - (m.r3c0 * m.r2c3))) - (((m.r0c1 * m.r1c3) - (m.r1c1 * m.r0c3)) * ((m.r2c0 * m.r3c2) - (m.r3c0 * m.r2c2)))) + (((m.r0c2 * m.r1c3) - (m.r1c2 * m.r0c3)) * ((m.r2c0 * m.r3c1) - (m.r3c0 * m.r2c1))))))
        == (0real * (((m.r0c0 * m.r1c1) - (m.r1c0 * m.r0c1)) * ((m.r2c2 * m.r3c3) - (m.r3c2 * m.r2c3)))) - (0real * (((m.r0c0 * m.r1c2) - (m.r1c0 * m.r0c2)) * ((m.r2c1 * m.r3c3) - (m.r3c1 * m.r2c3)))) + (0real * (((m.r0c0 * m.r1c3) - (m.r1c0 * m.r0c3)) * ((m.r2c1 * m.r3c2) - (m.r3c1 * m.r2c2)))) + (0real * (((m.r0c1 * m.r1c2) - (m.r1c1 * m.r0c2)) * ((m.r2c0 * m.r3c3) - (m.r3c0 * m.r2c3)))) - (0real * (((m.r0c1 * m.r1c3) - (m.r1c1 * m.r0c3)) * ((m.r2c0 * m.r3c2) - (m.r3c0 * m.r2c2)))) + (0real * (((m.r0c2 * m.r1c3) - (m.r1c2 * m.r0c3)) * ((m.r2c0 * m.r3c1) - (m.r3c0 * m.r2c1))))) by (nonlinear_arith);
    assert((0real * (((m.r0c0 * m.r1c1) - (m.r1c0 * m.r0c1)) * ((m.r2c2 * m.r3c3) - (m.r3c2 * m.r2c3))))
        == (0real * ((m.r0c0 * m.r1c1) * ((m.r2c2 * m.r3c3) - (m.r3c2 * m.r2c3)))) - (0real * ((m.r1c0 * m.r0c1) * ((m.r2c2 * m.r3c3) - (m.r3c2 * m.r2c3))))) by (nonlinear_arith);
    assert((0real * ((m.r0c0 * m.r1c1) * ((m.r2c2 * m.r3c3) - (m.r3c2 * m.r2c3))))
        == (0real * ((m.r0c0 * m.r1c1) * (m.r2c2 * m.r3c3))) - (0real * ((m.r0c0 * m.r1c1) * (m.r3c2 * m.r2c3)))) by (nonlinear_arith);
    assert((0real * ((m.r0c0 * m.r1c1) * (m.r2c2 * m.r3c3))) == 0real) by (nonlinear_arith);
    assert((0real * ((m.r0c0 * m.r1c1) * (m.r3c2 * m.r2c3))) == 0real) by (nonlinear_arith);
    assert((0real * ((m.r1c0 * m.r0c1) * ((m.r2c2 * m.r3c3) - (m.r3c2 * m.r2c3))))
        == (0real * ((m.r1c0 * m.r0c1) * (m.r2c2 * m.r3c3))) - (0real * ((m.r1c0 * m.r0c1) * (m.r3c2 * m.r2c3)))) by (nonlinear_arith);
    assert((0real * ((m.r1c0 * m.r0c1) * (m.r2c2 * m.r3c3))) == 0real) by (nonlinear_arith);
    assert((0real * ((m.r1c0 * m.r0c1) * (m.r3c2 * m.r2c3))) == 0real) by (nonlinear_arith);
    assert((0real * (((m.r0c0 * m.r1c2) - (m.r1c0 * m.r0c2)) * ((m.r2c1 * m.r3c3) - (m.r3c1 * m.r2c3))))
        == (0real * ((m.r0c0 * m.r1c2) * ((m.r2c1 * m.r3c3) - (m.r3c1 * m.r2c3)))) - (0real * ((m.r1c0 * m.r0c2) * ((m.r2c1 * m.r3c3) - (m.r3c1 * m.r2c3))))) by (nonlinear_arith);
    assert((0real * ((m.r0c0 * m.r1c2) * ((m.r2c1 * m.r3c3) - (m.r3c1 * m.r2c3))))
        == (0real * ((m.r0c0 * m.r1c2) * (m.r2c1 * m.r3c3))) - (0real * ((m.r0c0 * m.r1c2) * (m.r3c1 * m.r2c3)))) by (nonlinear_arith);
    assert((0real * ((m.r0c0 * m.r1c2) * (m.r2c1 * m.r3c3))) == 0real) by (nonlinear_arith);
    assert((0real * ((m.r0c0 * m.r1c2) * (m.r3c1 * m.r2c3))) == 0real) by (nonlinear_arith);
    assert((0real * ((m.r1c0 * m.r0c2) * ((m.r2c1 * m.r3c3) - (m.r3c1 * m.r2c3))))
        == (0real * ((m.r1c0 * m.r0c2) * (m.r2c1 * m.r3c3))) - (0real * ((m.r1c0 * m.r0c2) * (m.r3c1 * m.r2c3)))) by (nonlinear_arith);
    assert((0real * ((m.r1c0 * m.r0c2) * (m.r2c1 * m.r3c3))) == 0real) by (nonlinear_arith);
    assert((0real * ((m.r1c0 * m.r0c2) * (m.r3c1 * m.r2c3))) == 0real) by (nonlinear_arith);
    assert((0real * (((m.r0c0 * m.r1c3) - (m.r1c0 * m.r0c3)) * ((m.r2c1 * m.r3c2) - (m.r3c1 * m.r2c2))))
        == (0real * ((m.r0c0 * m.r1c3) * ((m.r2c1 * m.r3c2) - (m.r3c1 * m.r2c2)))) - (0real * ((m.r1c0 * m.r0c3) * ((m.r2c1 * m.r3c2) - (m.r3c1 * m.r2c2))))) by (nonlinear_arith);
    assert((0real * ((m.r0c0 * m.r1c3) * ((m.r2c1 * m.r3c2) - (m.r3c1 * m.r2c2))))
        == (0real * ((m.r0c0 * m.r1c3) * (m.r2c1 * m.r3c2))) - (0real * ((m.r0c0 * m.r1c3) * (m.r3c1 * m.r2c2)))) by (nonlinear_arith);
    assert((0real * ((m.r0c0 * m.r1c3) * (m.r2c1 * m.r3c2))) == 0real) by (nonlinear_arith);
    assert((0real * ((m.r0c0 * m.r1c3) * (m.r3c1 * m.r2c2))) == 0real) by (nonlinear_arith);
    assert((0real * ((m.r1c0 * m.r0c3) * ((m.r2c1 * m.r3c2) - (m.r3c1 * m.r2c2))))
        == (0real * ((m.r1c0 * m.r0c3) * (m.r2c1 * m.r3c2))) - (0real * ((m.r1c0 * m.r0c3) * (m.r3c1 * m.r2c2)))) by (nonlinear_arith);
    assert((0real * ((m.r1c0 * m.r0c3) * (m.r2c1 * m.r3c2))) == 0real) by (nonlinear_arith);
    assert((0real * ((m.r1c0 * m.r0c3) * (m.r3c1 * m.r2c2))) == 0real) by (nonlinear_arith);
    assert((0real * (((m.r0c1 * m.r1c2) - (m.r1c1 * m.r0c2)) * ((m.r2c0 * m.r3c3) - (m.r3c0 * m.r2c3))))
        == (0real * ((m.r0c1 * m.r1c2) * ((m.r2c0 * m.r3c3) - (m.r3c0 * m.r2c3)))) - (0real * ((m.r1c1 * m.r0c2) * ((m.r2c0 * m.r3c3) - (m.r3c0 * m.r2c3))))) by (nonlinear_arith);
    assert((0real * ((m.r0c1 * m.r1c2) * ((m.r2c0 * m.r3c3) - (m.r3c0 * m.r2c3))))
        == (0real * ((m.r0c1 * m.r1c2) * (m.r2c0 * m.r3c3))) - (0real * ((m.r0c1 * m.r1c2) * (m.r3c0 * m.r2c3)))) by (nonlinear_arith);
    assert((0real * ((m.r0c1 * m.r1c2) * (m.r2c0 * m.r3c3))) == 0real) by (nonlinear_arith);
    assert((0real * ((m.r0c1 * m.r1c2) * (m.r3c0 * m.r2c3))) == 0real) by (nonlinear_arith);
    assert((0real * ((m.r1c1 * m.r0c2) * ((m.r2c0 * m.r3c3) - (m.r3c0 * m.r2c3))))
        == (0real * ((m.r1c1 * m.r0c2) * (m.r2c0 * m.r3c3))) - (0real * ((m.r1c1 * m.r0c2) * (m.r3c0 * m.r2c3)))) by (nonlinear_arith);
    assert((0real * ((m.r1c1 * m.r0c2) * (m.r2c0 * m.r3c3))) == 0real) by (nonlinear_arith);
    assert((0real * ((m.r1c1 * m.r0c2) * (m.r3c0 * m.r2c3))) == 0real) by (nonlinear_arith);
    assert((0real * (((m.r0c1 * m.r1c3) - (m.r1c1 * m.r0c3)) * ((m.r2c0 * m.r3c2) - (m.r3c0 * m.r2c2))))
        == (0real * ((m.r0c1 * m.r1c3) * ((m.r2c0 * m.r3c2) - (m.r3c0 * m.r2c2)))) - (0real * ((m.r1c1 * m.r0c3) * ((m.r2c0 * m.r3c2) - (m.r3c0 * m.r2c2))))) by (nonlinear_arith);
    assert((0real * ((m.r0c1 * m.r1c3) * ((m.r2c0 * m.r3c2) - (m.r3c0 * m.r2c2))))
        == (0real * ((m.r0c1 * m.r1c3) * (m.r2c0 * m.r3c2))) - (0real * ((m.r0c1 * m.r1c3) * (m.r3c0 * m.r2c2)))) by (nonlinear_arith);
    assert((0real * ((m.r0c1 * m.r1c3) * (m.r2c0 * m.r3c2))) == 0real) by (nonlinear_arith);
    assert((0real * ((m.r0c1 * m.r1c3) * (m.r3c0 * m.r2c2))) == 0real) by (nonlinear_arith);
    assert((0real * ((m.r1c1 * m.r0c3) * ((m.r2c0 * m.r3c2) - (m.r3c0 * m.r2c2))))
        == (0real * ((m.r1c1 * m.r0c3) * (m.r2c0 * m.r3c2))) - (0real * ((m.r1c1 * m.r0c3) * (m.r3c0 * m.r2c2)))) by (nonlinear_arith);
    assert((0real * ((m.r1c1 * m.r0c3) * (m.r2c0 * m.r3c2))) == 0real) by (nonlinear_arith);
    assert((0real * ((m.r1c1 * m.r0c3) * (m.r3c0 * m.r2c2))) == 0real) by (nonlinear_arith);
    assert((0real * (((m.r0c2 * m.r1c3) - (m.r1c2 * m.r0c3)) * ((m.r2c0 * m.r3c1) - (m.r3c0 * m.r2c1))))
        == (0real * ((m.r0c2 * m.r1c3) * ((m.r2c0 * m.r3c1) - (m.r3c0 * m.r2c1)))) - (0real * ((m.r1c2 * m.r0c3) * ((m.r2c0 * m.r3c1) - (m.r3c0 * m.r2c1))))) by (nonlinear_arith);
    assert((0real * ((m.r0c2 * m.r1c3) * ((m.r2c0 * m.r3c1) - (m.r3c0 * m.r2c1))))
        == (0real * ((m.r0c2 * m.r1c3) * (m.r2c0 * m.r3c1))) - (0real * ((m.r0c2 * m.r1c3) * (m.r3c0 * m.r2c1)))) by (nonlinear_arith);
    assert((0real * ((m.r0c2 * m.r1c3) * (m.r2c0 * m.r3c1))) == 0real) by (nonlinear_arith);
    assert((0real * ((m.r0c2 * m.r1c3) * (m.r3c0 * m.r2c1))) == 0real) by (nonlinear_arith);
    assert((0real * ((m.r1c2 * m.r0c3) * ((m.r2c0 * m.r3c1) - (m.r3c0 * m.r2c1))))
        == (0real * ((m.r1c2 * m.r0c3) * (m.r2c0 * m.r3c1))) - (0real * ((m.r1c2 * m.r0c3) * (m.r3c0 * m.r2c1)))) by (nonlinear_arith);
    assert((0real * ((m.r1c2 * m.r0c3) * (m.r2c0 * m.r3c1))) == 0real) by (nonlinear_arith);
    assert((0real * ((m.r1c2 * m.r0c3) * (m.r3c0 * m.r2c1))) == 0real) by (nonlinear_arith);
}

proof fn lemma_real_mat4_times_adjugate_r2c2(m: Mat4Model<real>)
    ensures
        m.times(m.adjugate()).r2c2 == Mat4Model::<real>::identity().times_each(m.determinant()).r2c2,
{
    assert((m.r2c0 * (((m.r3c1 * ((m.r0c2 * m.r1c3) - (m.r1c2 * m.r0c3))) - (m.r3c2 * ((m.r0c1 * m.r1c3) - (m.r1c1 * m.r0c3)))) + (m.r3c3 * ((m.r0c1 * m.r1c2) - (m.r1c1 * m.r0c2)))))
        == (m.r2c0 * (m.r3c1 * ((m.r0c2 * m.r1c3) - (m.r1c2 * m.r0c3)))) - (m.r2c0 * (m.r3c2 * ((m.r0c1 * m.r1c3) - (m.r1c1 * m.r0c3)))) + (m.r2c0 * (m.r3c3 * ((m.r0c1 * m.r1c2) - (m.r1c1 * m.r0c2))))) by (nonlinear_arith);
    assert((m.r2c0 * (m.r3c1 * ((m.r0c2 * m.r1c3) - (m.r1c2 * m.r0c3))))
        == (m.r2c0 * (m.r3c1 * (m.r0c2 * m.r1c3))) - (m.r2c0 * (m.r3c1 * (m.r1c2 * m.r0c3)))) by (nonlinear_arith);
    assert((m.r2c0 * (m.r3c1 * (m.r0c2 * m.r1c3)))
        == m.r0c2 * m.r1c3 * m.r2c0 * m.r3c1) by (nonlinear_arith);
    assert((m.r2c0 * (m.r3c1 * (m.r1c2 * m.r0c3)))
        == m.r0c3 * m.r1c2 * m.r2c0 * m.r3c1) by (nonlinear_arith);
    assert((m.r2c0 * (m.r3c2 * ((m.r0c1 * m.r1c3) - (m.r1c1 * m.r0c3))))
        == (m.r2c0 * (m.r3c2 * (m.r0c1 * m.r1c3))) - (m.r2c0 * (m.r3c2 * (m.r1c1 * m.r0c3)))) by (nonlinear_arith);
    assert((m.r2c0 * (m.r3c2 * (m.r0c1 * m.r1c3)))
        == m.r0c1 * m.r1c3 * m.r2c0 * m.r3c2) by (nonlinear_arith);
    assert((m.r2c0 * (m.r3c2 * (m.r1c1 * m.r0c3)))
        == m.r0c3 * m.r1c1 * m.r2c0 * m.r3c2) by (nonlinear_arith);
    assert((m.r2c0 * (m.r3c3 * ((m.r0c1 * m.r1c2) - (m.r1c1 * m.r0c2))))
        == (m.r2c0 * (m.r3c3 * (m.r0c1 * m.r1c2))) - (m.r2c0 * (m.r3c3 * (m.r1c1 * m.r0c2)))) by (nonlinear_arith);
    assert((m.r2c0 * (m.r3c3 * (m.r0c1 * m.r1c2)))
        == m.r0c1 * m.r1c2 * m.r2c0 * m.r3c3) by (nonlinear_arith);
    assert((m.r2c0 * (m.r3c3 * (m.r1c1 * m.r0c2)))
        == m.r0c2 * m.r1c1 * m.r2c0 * m.r3c3) by (nonlinear_arith);
    assert((m.r2c1 * ((((-m.r3c0) * ((m.r0c2 * m.r1c3) - (m.r1c2 * m.r0c3))) + (m.r3c2 * ((m.r0c0 * m.r1c3) - (m.r1c0 * m.r0c3)))) - (m.r3c3 * ((m.r0c0 * m.r1c2) - (m.r1c0 * m.r0c2)))))
        == (m.r2c1 * ((-m.r3c0) * ((m.r0c2 * m.r1c3) - (m.r1c2 * m.r0c3)))) + (m.r2c1 * (m.r3c2 * ((m.r0c0 * m.r1c3) - (m.r1c0 * m.r0c3)))) - (m.r2c1 * (m.r3c3 * ((m.r0c0 * m.r1c2) - (m.r1c0 * m.r0c2))))) by (nonlinear_arith);
    assert((m.r2c1 * ((-m.r3c0) * ((m.r0c2 * m.r1c3) - (m.r1c2 * m.r0c3))))
        == 0real - (m.r2c1 * (m.r3c0 * ((m.r0c2 * m.r1c3) - (m.r1c2 * m.r0c3))))) by (nonlinear_arith);
    assert((m.r2c1 * (m.r3c0 * ((m.r0c2 * m.r1c3) - (m.r1c2 * m.r0c3))))
        == (m.r2c1 * (m.r3c0 * (m.r0c2 * m.r1c3))) - (m.r2c1 * (m.r3c0 * (m.r1c2 * m.r0c3)))) by (nonlinear_arith);
    assert((m.r2c1 * (m.r3c0 * (m.r0c2 * m.r1c3)))
        == m.r0c2 * m.r1c3 * m.r2c1 * m.r3c0) by (nonlinear_arith);
    assert((m.r2c1 * (m.r3c0 * (m.r1c2 * m.r0c3)))
        == m.r0c3 * m.r1c2 * m.r2c1 * m.r3c0) by (nonlinear_arith);
    assert((m.r2c1 * (m.r3c2 * ((m.r0c0 * m.r1c3) - (m.r1c0 * m.r0c3))))
        == (m.r2c1 * (m.r3c2 * (m.r0c0 * m.r1c3))) - (m.r2c1 * (m.r3c2 * (m.r1c0 * m.r0c3)))) by (nonlinear_arith);
    assert((m.r2c1 * (m.r3c2 * (m.r0c0 * m.r1c3)))
        == m.r0c0 * m.r1c3 * m.r2c1 * m.r3c2) by (nonlinear_arith);
    assert((m.r2c1 * (m.r3c2 * (m.r1c0 * m.r0c3)))
        == m.r0c3 * m.r1c0 * m.r2c1 * m.r3c2) by (nonlinear_arith);
    assert((m.r2c1 * (m.r3c3 * ((m.r0c0 * m.r1c2) - (m.r1c0 * m.r0c2))))
        == (m.r2c1 * (m.r3c3 * (m.r0c0 * m.r1c2))) - (m.r2c1 * (m.r3c3 * (m.r1c0 * m.r0c2)))) by (nonlinear_arith);
    assert((m.r2c1 * (m.r3c3 * (m.r0c0 * m.r1c2)))
        == m.r0c0 * m.r1c2 * m.r2c1 * m.r3c3) by (nonlinear_arith);
    assert((m.r2c1 * (m.r3c3 * (m.r1c0 * m.r0c2)))
        == m.r0c2 * m.r1c0 * m.r2c1 * m.r3c3) by (nonlinear_arith);
    assert((m.r2c2 * (((m.r3c0 * ((m.r0c1 * m.r1c3) - (m.r1c1 * m.r0c3))) - (m.r3c1 * ((m.r0c0 * m.r1c3) - (m.r1c0 * m.r0c3)))) + (m.r3c3 * ((m.r0c0 * m.r1c1) - (m.r1c0 * m.r0c1)))))
        == (m.r2c2 * (m.r3c0 * ((m.r0c1 * m.r1c3) - (m.r1c1 * m.r0c3)))) - (m.r2c2 * (m.r3c1 * ((m.r0c0 * m.r1c3) - (m.r1c0 * m.r0c3)))) + (m.r2c2 * (m.r3c3 * ((m.r0c0 * m.r1c1) - (m.r1c0 * m.r0c1))))) by (nonlinear_arith);
    assert((m.r2c2 * (m.r3c0 * ((m.r0c1 * m.r1c3) - (m.r1c1 * m.r0c3))))
        == (m.r2c2 * (m.r3c0 * (m.r0c1 * m.r1c3))) - (m.r2c2 * (m.r3c0 * (m.r1c1 * m.r0c3)))) by (nonlinear_arith);
    assert((m.r2c2 * (m.r3c0 * (m.r0c1 * m.r1c3)))
        == m.r0c1 * m.r1c3 * m.r2c2 * m.r3c0) by (nonlinear_arith);
    assert((m.r2c2 * (m.r3c0 * (m.r1c1 * m.r0c3)))
        == m.r0c3 * m.r1c1 * m.r2c2 * m.r3c0) by (nonlinear_arith);
    assert((m.r2c2 * (m.r3c1 * ((m.r0c0 * m.r1c3) - (m.r1c0 * m.r0c3))))
        == (m.r2c2 * (m.r3c1 * (m.r0c0 * m.r1c3))) - (m.r2c2 * (m.r3c1 * (m.r1c0 * m.r0c3)))) by (nonlinear_arith);
    assert((m.r2c2 * (m.r3c1 * (m.r0c0 * m.r1c3)))
        == m.r0c0 * m.r1c3 * m.r2c2 * m.r3c1) by (nonlinear_arith);
    assert((m.r2c2 * (m.r3c1 * (m.r1c0 * m.r0c3)))
        == m.r0c3 * m.r1c0 * m.r2c2 * m.r3c1) by (nonlinear_arith);
    assert((m.r2c2 * (m.r3c3 * ((m.r0c0 * m.r1c1) - (m.r1c0 * m.r0c1))))
        == (m.r2c2 * (m.r3c3 * (m.r0c0 * m.r1c1))) - (m.r2c2 * (m.r3c3 * (m.r1c0 * m.r0c1)))) by (nonlinear_arith);
    assert((m.r2c2 * (m.r3c3 * (m.r0c0 * m.r1c1)))
        == m.r0c0 * m.r1c1 * m.r2c2 * m.r3c3) by (nonlinear_arith);
    assert((m.r2c2 * (m.r3c3 * (m.r1c0 * m.r0c1)))
        == m.r0c1 * m.r1c0 * m.r2c2 * m.r3c3) by (nonlinear_arith);
    assert((m.r2c3 * ((((-m.r3c0) * ((m.r0c1 * m.r1c2) - (m.r1c1 * m.r0c2))) + (m.r3c1 * ((m.r0c0 * m.r1c2) - (m.r1c0 * m.r0c2)))) - (m.r3c2 * ((m.r0c0 * m.r1c1) - (m.r1c0 * m.r0c1)))))
        == (m.r2c3 * ((-m.r3c0) * ((m.r0c1 * m.r1c2) - (m.r1c1 * m.r0c2)))) + (m.r2c3 * (m.r3c1 * ((m.r0c0 * m.r1c2) - (m.r1c0 * m.r0c2)))) - (m.r2c3 * (m.r3c2 * ((m.r0c0 * m.r1c1) - (m.r1c0 * m.r0c1))))) by (nonlinear_arith);
    assert((m.r2c3 * ((-m.r3c0) * ((m.r0c1 * m.r1c2) - (m.r1c1 * m.r0c2))))
        == 0real - (m.r2c3 * (m.r3c0 * ((m.r0c1 * m.r1c2) - (m.r1c1 * m.r0c2))))) by (nonlinear_arith);
    assert((m.r2c3 * (m.r3c0 * ((m.r0c1 * m.r1c2) - (m.r1c1 * m.r0c2))))
        == (m.r2c3 * (m.r3c0 * (m.r0c1 * m.r1c2))) - (m.r2c3 * (m.r3c0 * (m.r1c1 * m.r0c2)))) by (nonlinear_arith);
    assert((m.r2c3 * (m.r3c0 * (m.r0c1 * m.r1c2)))
        == m.r0c1 * m.r1c2 * m.r2c3 * m.r3c0) by (nonlinear_arith);
    assert((m.r2c3 * (m.r3c0 * (m.r1c1 * m.r0c2)))
        == m.r0c2 * m.r1c1 * m.r2c3 * m.r3c0) by (nonlinear_arith);
    assert((m.r2c3 * (m.r3c1 * ((m.r0c0 * m.r1c2) - (m.r1c0 * m.r0c2))))
        == (m.r2c3 * (m.r3c1 * (m.r0c0 * m.r1c2))) - (m.r2c3 * (m.r3c1 * (m.r1c0 * m.r0c2)))) by (nonlinear_arith);
    assert((m.r2c3 * (m.r3c1 * (m.r0c0 * m.r1c2)))
        == m.r0c0 * m.r1c2 * m.r2c3 * m.r3c1) by (nonlinear_arith);
    assert((m.r2c3 * (m.r3c1 * (m.r1c0 * m.r0c2)))
        == m.r0c2 * m.r1c0 * m.r2c3 * m.r3c1) by (nonlinear_arith);
    assert((m.r2c3 * (m.r3c2 * ((m.r0c0 * m.r1c1) - (m.r1c0 * m.r0c1))))
        == (m.r2c3 * (m.r3c2 * (m.r0c0 * m.r1c1))) - (m.r2c3 * (m.r3c2 * (m.r1c0 * m.r0c1)))) by (nonlinear_arith);
    assert((m.r2c3 * (m.r3c2 * (m.r0c0 * m.r1c1)))
        == m.r0c0 * m.r1c1 * m.r2c3 * m.r3c2) by (nonlinear_arith);
    assert((m.r2c3 * (m.r3c2 * (m.r1c0 * m.r0c1)))
        == m.r0c1 * m.r1c0 * m.r2c3 * m.r3c2) by (nonlinear_arith);
    assert((1real * ((((((m.r0c0 * m.r1c1) - (m.r1c0 * m.r0c1)) * ((m.r2c2 * m.r3c3) - (m.r3c2 * m.r2c3))) - (((m.r0c0 * m.r1c2) - (m.r1c0 * m.r0c2)) * ((m.r2c1 * m.r3c3) - (m.r3c1 * m.r2c3)))) + (((m.r0c0 * m.r1c3) - (m.r1c0 * m.r0c3)) * ((m.r2c1 * m.r3c2) - (m.r3c1 * m.r2c2)))) + (((((m.r0c1 * m.r1c2) - (m.r1c1 * m.r0c2)) * ((m.r2c0 * m.r3c3) - (m.r3c0 * m.r2c3))) - (((m.r0c1 * m.r1c3) - (m.r1c1 * m.r0c3)) * ((m.r2c0 * m.r3c2) - (m.r3c0 * m.r2c2)))) + (((m.r0c2 * m.r1c3) - (m.r1c2 * m.r0c3)) * ((m.r2c0 * m.r3c1) - (m.r3c0 * m.r2c1))))))
        == (1real * (((m.r0c0 * m.r1c1) - (m.r1c0 * m.r0c1)) * ((m.r2c2 * m.r3c3) - (m.r3c2 * m.r2c3)))) - (1real * (((m.r0c0 * m.r1c2) - (m.r1c0 * m.r0c2)) * ((m.r2c1 * m.r3c3) - (m.r3c1 * m.r2c3)))) + (1real * (((m.r0c0 * m.r1c3) - (m.r1c0 * m.r0c3)) * ((m.r2c1 * m.r3c2) - (m.r3c1 * m.r2c2)))) + (1real * (((m.r0c1 * m.r1c2) - (m.r1c1 * m.r0c2)) * ((m.r2c0 * m.r3c3) - (m.r3c0 * m.r2c3)))) - (1real * (((m.r0c1 * m.r1c3) - (m.r1c1 * m.r0c3)) * ((m.r2c0 * m.r3c2) - (m.r3c0 * m.r2c2)))) + (1real * (((m.r0c2 * m.r1c3) - (m.r1c2 * m.r0c3)) * ((m.r2c0 * m.r3c1) - (m.r3c0 * m.r2c1))))) by (nonlinear_arith);
    assert((1real * (((m.r0c0 * m.r1c1) - (m.r1c0 * m.r0c1)) * ((m.r2c2 * m.r3c3) - (m.r3c2 * m.r2c3))))
        == (1real * ((m.r0c0 * m.r1c1) * ((m.r2c2 * m.r3c3) - (m.r3c2 * m.r2c3)))) - (1real * ((m.r1c0 * m.r0c1) * ((m.r2c2 * m.r3c3) - (m.r3c2 * m.r2c3))))) by (nonlinear_arith);
    assert((1real * ((m.r0c0 * m.r1c1) * ((m.r2c2 * m.r3c3) - (m.r3c2 * m.r2c3))))
        == (1real * ((m.r0c0 * m.r1c1) * (m.r2c2 * m.r3c3))) - (1real * ((m.r0c0 * m.r1c1) * (m.r3c2 * m.r2c3)))) by (nonlinear_arith);
    assert((1real * ((m.r0c0 * m.r1c1) * (m.r2c2 * m.r3c3)))
        == m.r0c0 * m.r1c1 * m.r2c2 * m.r3c3) by (nonlinear_arith);
    assert((1real * ((m.r0c0 * m.r1c1) * (m.r3c2 * m.r2c3)))
        == m.r0c0 * m.r1c1 * m.r2c3 * m.r3c2) by (nonlinear_arith);
    assert((1real * ((m.r1c0 * m.r0c1) * ((m.r2c2 * m.r3c3) - (m.r3c2 * m.r2c3))))
        == (1real * ((m.r1c0 * m.r0c1) * (m.r2c2 * m.r3c3))) - (1real * ((m.r1c0 * m.r0c1) * (m.r3c2 * m.r2c3)))) by (nonlinear_arith);
    assert((1real * ((m.r1c0 * m.r0c1) * (m.r2c2 * m.r3c3)))
        == m.r0c1 * m.r1c0 * m.r2c2 * m.r3c3) by (nonlinear_arith);
    assert((1real * ((m.r1c0 * m.r0c1) * (m.r3c2 * m.r2c3)))
        == m.r0c1 * m.r1c0 * m.r2c3 * m.r3c2) by (nonlinear_arith);
    assert((1real * (((m.r0c0 * m.r1c2) - (m.r1c0 * m.r0c2)) * ((m.r2c1 * m.r3c3) - (m.r3c1 * m.r2c3))))
        == (1real * ((m.r0c0 * m.r1c2) * ((m.r2c1 * m.r3c3) - (m.r3c1 * m.r2c3)))) - (1real * ((m.r1c0 * m.r0c2) * ((m.r2c1 * m.r3c3) - (m.r3c1 * m.r2c3))))) by (nonlinear_arith);
    assert((1real * ((m.r0c0 * m.r1c2) * ((m.r2c1 * m.r3c3) - (m.r3c1 * m.r2c3))))
        == (1real * ((m.r0c0 * m.r1c2) * (m.r2c1 * m.r3c3))) - (1real * ((m.r0c0 * m.r1c2) * (m.r3c1 * m.r2c3)))) by (nonlinear_arith);
    assert((1real * ((m.r0c0 * m.r1c2) * (m.r2c1 * m.r3c3)))
        == m.r0c0 * m.r1c2 * m.r2c1 * m.r3c3) by (nonlinear_arith);
    assert((1real * ((m.r0c0 * m.r1c2) * (m.r3c1 * m.r2c3)))
        == m.r0c0 * m.r1c2 * m.r2c3 * m.r3c1) by (nonlinear_arith);
    assert((1real * ((m.r1c0 * m.r0c2) * ((m.r2c1 * m.r3c3) - (m.r3c1 * m.r2c3))))
        == (1real * ((m.r1c0 * m.r0c2) * (m.r2c1 * m.r3c3))) - (1real * ((m.r1c0 * m.r0c2) * (m.r3c1 * m.r2c3)))) by (nonlinear_arith);
    assert((1real * ((m.r1c0 * m.r0c2) * (m.r2c1 * m.r3c3)))
        == m.r0c2 * m.r1c0 * m.r2c1 * m.r3c3) by (nonlinear_arith);
    assert((1real * ((m.r1c0 * m.r0c2) * (m.r3c1 * m.r2c3)))
        == m.r0c2 * m.r1c0 * m.r2c3 * m.r3c1) by (nonlinear_arith);
    assert((1real * (((m.r0c0 * m.r1c3) - (m.r1c0 * m.r0c3)) * ((m.r2c1 * m.r3c2) - (m.r3c1 * m.r2c2))))
        == (1real * ((m.r0c0 * m.r1c3) * ((m.r2c1 * m.r3c2) - (m.r3c1 * m.r2c2)))) - (1real * ((m.r1c0 * m.r0c3) * ((m.r2c1 * m.r3c2) - (m.r3c1 * m.r2c2))))) by (nonlinear_arith);
    assert((1real * ((m.r0c0 * m.r1c3) * ((m.r2c1 * m.r3c2) - (m.r3c1 * m.r2c2))))
        == (1real * ((m.r0c0 * m.r1c3) * (m.r2c1 * m.r3c2))) - (1real * ((m.r0c0 * m.r1c3) * (m.r3c1 * m.r2c2)))) by (nonlinear_arith);
    assert((1real * ((m.r0c0 * m.r1c3) * (m.r2c1 * m.r3c2)))
        == m.r0c0 * m.r1c3 * m.r2c1 * m.r3c2) by (nonlinear_arith);
    assert((1real * ((m.r0c0 * m.r1c3) * (m.r3c1 * m.r2c2)))
        == m.r0c0 * m.r1c3 * m.r2c2 * m.r3c1) by (nonlinear_arith);
    assert((1real * ((m.r1c0 * m.r0c3) * ((m.r2c1 * m.r3c2) - (m.r3c1 * m.r2c2))))
        == (1real * ((m.r1c0 * m.r0c3) * (m.r2c1 * m.r3c2))) - (1real * ((m.r1c0 * m.r0c3) * (m.r3c1 * m.r2c2)))) by (nonlinear_arith);
    assert((1real * ((m.r1c0 * m.r0c3) * (m.r2c1 * m.r3c2)))
        == m.r0c3 * m.r1c0 * m.r2c1 * m.r3c2) by (nonlinear_arith);
    assert((1real * ((m.r1c0 * m.r0c3) * (m.r3c1 * m.r2c2)))
        == m.r0c3 * m.r1c0 * m.r2c2 * m.r3c1) by (nonlinear_arith);
    assert((1real * (((m.r0c1 * m.r1c2) - (m.r1c1 * m.r0c2)) * ((m.r2c0 * m.r3c3) - (m.r3c0 * m.r2c3))))
        == (1real * ((m.r0c1 * m.r1c2) * ((m.r2c0 * m.r3c3) - (m.r3c0 * m.r2c3)))) - (1real * ((m.r1c1 * m.r0c2) * ((m.r2c0 * m.r3c3) - (m.r3c0 * m.r2c3))))) by (nonlinear_arith);
    assert((1real * ((m.r0c1 * m.r1c2) * ((m.r2c0 * m.r3c3) - (m.r3c0 * m.r2c3))))
        == (1real * ((m.r0c1 * m.r1c2) * (m.r2c0 * m.r3c3))) - (1real * ((m.r0c1 * m.r1c2) * (m.r3c0 * m.r2c3)))) by (nonlinear_arith);
    assert((1real * ((m.r0c1 * m.r1c2) * (m.r2c0 * m.r3c3)))
        == m.r0c1 * m.r1c2 * m.r2c0 * m.r3c3) by (nonlinear_arith);
    assert((1real * ((m.r0c1 * m.r1c2) * (m.r3c0 * m.r2c3)))
        == m.r0c1 * m.r1c2 * m.r2c3 * m.r3c0) by (nonlinear_arith);
    assert((1real * ((m.r1c1 * m.r0c2) * ((m.r2c0 * m.r3c3) - (m.r3c0 * m.r2c3))))
        == (1real * ((m.r1c1 * m.r0c2) * (m.r2c0 * m.r3c3))) - (1real * ((m.r1c1 * m.r0c2) * (m.r3c0 * m.r2c3)))) by (nonlinear_arith);
    assert((1real * ((m.r1c1 * m.r0c2) * (m.r2c0 * m.r3c3)))
        == m.r0c2 * m.r1c1 * m.r2c0 * m.r3c3) by (nonlinear_arith);
    assert((1real * ((m.r1c1 * m.r0c2) * (m.r3c0 * m.r2c3)))
        == m.r0c2 * m.r1c1 * m.r2c3 * m.r3c0) by (nonlinear_arith);
    assert((1real * (((m.r0c1 * m.r1c3) - (m.r1c1 * m.r0c3)) * ((m.r2c0 * m.r3c2) - (m.r3c0 * m.r2c2))))
        == (1real * ((m.r0c1 * m.r1c3) * ((m.r2c0 * m.r3c2) - (m.r3c0 * m.r2c2)))) - (1real * ((m.r1c1 * m.r0c3) * ((m.r2c0 * m.r3c2) - (m.r3c0 * m.r2c2))))) by (nonlinear_arith);
    assert((1real * ((m.r0c1 * m.r1c3) * ((m.r2c0 * m.r3c2) - (m.r3c0 * m.r2c2))))
        == (1real * ((m.r0c1 * m.r1c3) * (m.r2c0 * m.r3c2))) - (1real * ((m.r0c1 * m.r1c3) * (m.r3c0 * m.r2c2)))) by (nonlinear_arith);
    assert((1real * ((m.r0c1 * m.r1c3) * (m.r2c0 * m.r3c2)))
        == m.r0c1 * m.r1c3 * m.r2c0 * m.r3c2) by (nonlinear_arith);
    assert((1real * ((m.r0c1 * m.r1c3) * (m.r3c0 * m.r2c2)))
        == m.r0c1 * m.r1c3 * m.r2c2 * m.r3c0) by (nonlinear_arith);
    assert((1real * ((m.r1c1 * m.r0c3) * ((m.r2c0 * m.r3c2) - (m.r3c0 * m.r2c2))))
        == (1real * ((m.r1c1 * m.r0c3) * (m.r2c0 * m.r3c2))) - (1real * ((m.r1c1 * m.r0c3) * (m.r3c0 * m.r2c2)))) by (nonlinear_arith);
    assert((1real * ((m.r1c1 * m.r0c3) * (m.r2c0 * m.r3c2)))
        == m.r0c3 * m.r1c1 * m.r2c0 * m.r3c2) by (nonlinear_arith);
    assert((1real * ((m.r1c1 * m.r0c3) * (m.r3c0 * m.r2c2)))
        == m.r0c3 * m.r1c1 * m.r2c2 * m.r3c0) by (nonlinear_arith);
    assert((1real * (((m.r0c2 * m.r1c3) - (m.r1c2 * m.r0c3)) * ((m.r2c0 * m.r3c1) - (m.r3c0 * m.r2c1))))
        == (1real * ((m.r0c2 * m.r1c3) * ((m.r2c0 * m.r3c1) - (m.r3c0 * m.r2c1)))) - (1real * ((m.r1c2 * m.r0c3) * ((m.r2c0 * m.r3c1) - (m.r3c0 * m.r2c1))))) by (nonlinear_arith);
    assert((1real * ((m.r0c2 * m.r1c3) * ((m.r2c0 * m.r3c1) - (m.r3c0 * m.r2c1))))
        == (1real * ((m.r0c2 * m.r1c3) * (m.r2c0 * m.r3c1))) - (1real * ((m.r0c2 * m.r1c3) * (m.r3c0 * m.r2c1)))) by (nonlinear_arith);
    assert((1real * ((m.r0c2 * m.r1c3) * (m.r2c0 * m.r3c1)))
        == m.r0c2 * m.r1c3 * m.r2c0 * m.r3c1) by (nonlinear_arith);
    assert((1real * ((m.r0c2 * m.r1c3) * (m.r3c0 * m.r2c1)))
        == m.r0c2 * m.r1c3 * m.r2c1 * m.r3c0) by (nonlinear_arith);
    assert((1real * ((m.r1c2 * m.r0c3) * ((m.r2c0 * m.r3c1) - (m.r3c0 * m.r2c1))))
        == (1real * ((m.r1c2 * m.r0c3) * (m.r2c0 * m.r3c1))) - (1real * ((m.r1c2 * m.r0c3) * (m.r3c0 * m.r2c1)))) by (nonlinear_arith);
    assert((1real * ((m.r1c2 * m.r0c3) * (m.r2c0 * m.r3c1)))
        == m.r0c3 * m.r1c2 * m.r2c0 * m.r3c1) by (nonlinear_arith);
    assert((1real * ((m.r1c2 * m.r0c3) * (m.r3c0 * m.r2c1)))
        == m.r0c3 * m.r1c2 * m.r2c1 * m.r3c0) by (nonlinear_arith);
}

proof fn lemma_real_mat4_times_adjugate_r2c3(m: Mat4Model<real>)
    ensures
        m.times(m.adjugate()).r2c3 == Mat4Model::<real>::identity().times_each(m.determinant()).r2c3,
{
    assert((m.r2c0 * ((((-m.r2c1) * ((m.r0c2 * m.r1c3) - (m.r1c2 * m.r0c3))) + (m.r2c2 * ((m.r0c1 * m.r1c3) - (m.r1c1 * m.r0c3)))) - (m.r2c3 * ((m.r0c1 * m.r1c2) - (m.r1c1 * m.r0c2)))))
        == (m.r2c0 * ((-m.r2c1) * ((m.r0c2 * m.r1c3) - (m.r1c2 * m.r0c3)))) + (m.r2c0 * (m.r2c2 * ((m.r0c1 * m.r1c3) - (m.r1c1 * m.r0c3)))) - (m.r2c0 * (m.r2c3 * ((m.r0c1 * m.r1c2) - (m.r1c1 * m.r0c2))))) by (nonlinear_arith);
    assert((m.r2c0 * ((-m.r2c1) * ((m.r0c2 * m.r1c3) - (m.r1c2 * m.r0c3))))
        == 0real - (m.r2c0 * (m.r2c1 * ((m.r0c2 * m.r1c3) - (m.r1c2 * m.r0c3))))) by (nonlinear_arith);
    assert((m.r2c0 * (m.r2c1 * ((m.r0c2 * m.r1c3) - (m.r1c2 * m.r0c3))))
        == (m.r2c0 * (m.r2c1 * (m.r0c2 * m.r1c3))) - (m.r2c0 * (m.r2c1 * (m.r1c2 * m.r0c3)))) by (nonlinear_arith);
    assert((m.r2c0 * (m.r2c1 * (m.r0c2 * m.r1c3)))
        == m.r0c2 * m.r1c3 * m.r2c0 * m.r2c1) by (nonlinear_arith);
    assert((m.r2c0 * (m.r2c1 * (m.r1c2 * m.r0c3)))
        == m.r0c3 * m.r1c2 * m.r2c0 * m.r2c1) by (nonlinear_arith);
    assert((m.r2c0 * (m.r2c2 * ((m.r0c1 * m.r1c3) - (m.r1c1 * m.r0c3))))
        == (m.r2c0 * (m.r2c2 * (m.r0c1 * m.r1c3))) - (m.r2c0 * (m.r2c2 * (m.r1c1 * m.r0c3)))) by (nonlinear_arith);
    assert((m.r2c0 * (m.r2c2 * (m.r0c1 * m.r1c3)))
        == m.r0c1 * m.r1c3 * m.r2c0 * m.r2c2) by (nonlinear_arith);
    assert((m.r2c0 * (m.r2c2 * (m.r1c1 * m.r0c3)))
        == m.r0c3 * m.r1c1 * m.r2c0 * m.r2c2) by (nonlinear_arith);
    assert((m.r2c0 * (m.r2c3 * ((m.r0c1 * m.r1c2) - (m.r1c1 * m.r0c2))))
        == (m.r2c0 * (m.r2c3 * (m.r0c1 * m.r1c2))) - (m.r2c0 * (m.r2c3 * (m.r1c1 * m.r0c2)))) by (nonlinear_arith);
    assert((m.r2c0 * (m.r2c3 * (m.r0c1 * m.r1c2)))
        == m.r0c1 * m.r1c2 * m.r2c0 * m.r2c3) by (nonlinear_arith);
    assert((m.r2c0 * (m.r2c3 * (m.r1c1 * m.r0c2)))
        == m.r0c2 * m.r1c1 * m.r2c0 * m.r2c3) by (nonlinear_arith);
    assert((m.r2c1 * (((m.r2c0 * ((m.r0c2 * m.r1c3) - (m.r1c2 * m.r0c3))) - (m.r2c2 * ((m.r0c0 * m.r1c3) - (m.r1c0 * m.r0c3)))) + (m.r2c3 * ((m.r0c0 * m.r1c2) - (m.r1c0 * m.r0c2)))))
        == (m.r2c1 * (m.r2c0 * ((m.r0c2 * m.r1c3) - (m.r1c2 * m.r0c3)))) - (m.r2c1 * (m.r2c2 * ((m.r0c0 * m.r1c3) - (m.r1c0 * m.r0c3)))) + (m.r2c1 * (m.r2c3 * ((m.r0c0 * m.r1c2) - (m.r1c0 * m.r0c2))))) by (nonlinear_arith);
    assert((m.r2c1 * (m.r2c0 * ((m.r0c2 * m.r1c3) - (m.r1c2 * m.r0c3))))
        == (m.r2c1 * (m.r2c0 * (m.r0c2 * m.r1c3))) - (m.r2c1 * (m.r2c0 * (m.r1c2 * m.r0c3)))) by (nonlinear_arith);
    assert((m.r2c1 * (m.r2c0 * (m.r0c2 * m.r1c3)))
        == m.r0c2 * m.r1c3 * m.r2c0 * m.r2c1) by (nonlinear_arith);
    assert((m.r2c1 * (m.r2c0 * (m.r1c2 * m.r0c3)))
        == m.r0c3 * m.r1c2 * m.r2c0 * m.r2c1) by (nonlinear_arith);
    assert((m.r2c1 * (m.r2c2 * ((m.r0c0 * m.r1c3) - (m.r1c0 * m.r0c3))))
        == (m.r2c1 * (m.r2c2 * (m.r0c0 * m.r1c3))) - (m.r2c1 * (m.r2c2 * (m.r1c0 * m.r0c3)))) by (nonlinear_arith);
    assert((m.r2c1 * (m.r2c2 * (m.r0c0 * m.r1c3)))
        == m.r0c0 * m.r1c3 * m.r2c1 * m.r2c2) by (nonlinear_arith);
    assert((m.r2c1 * (m.r2c2 * (m.r1c0 * m.r0c3)))
        == m.r0c3 * m.r1c0 * m.r2c1 * m.r2c2) by (nonlinear_arith);
    assert((m.r2c1 * (m.r2c3 * ((m.r0c0 * m.r1c2) - (m.r1c0 * m.r0c2))))
        == (m.r2c1 * (m.r2c3 * (m.r0c0 * m.r1c2))) - (m.r2c1 * (m.r2c3 * (m.r1c0 * m.r0c2)))) by (nonlinear_arith);
    assert((m.r2c1 * (m.r2c3 * (m.r0c0 * m.r1c2)))
        == m.r0c0 * m.r1c2 * m.r2c1 * m.r2c3) by (nonlinear_arith);
    assert((m.r2c1 * (m.r2c3 * (m.r1c0 * m.r0c2)))
        == m.r0c2 * m.r1c0 * m.r2c1 * m.r2c3) by (nonlinear_arith);
    assert((m.r2c2 * ((((-m.r2c0) * ((m.r0c1 * m.r1c3) - (m.r1c1 * m.r0c3))) + (m.r2c1 * ((m.r0c0 * m.r1c3) - (m.r1c0 * m.r0c3)))) - (m.r2c3 * ((m.r0c0 * m.r1c1) - (m.r1c0 * m.r0c1)))))
        == (m.r2c2 * ((-m.r2c0) * ((m.r0c1 * m.r1c3) - (m.r1c1 * m.r0c3)))) + (m.r2c2 * (m.r2c1 * ((m.r0c0 * m.r1c3) - (m.r1c0 * m.r0c3)))) - (m.r2c2 * (m.r2c3 * ((m.r0c0 * m.r1c1) - (m.r1c0 * m.r0c1))))) by (nonlinear_arith);
    assert((m.r2c2 * ((-m.r2c0) * ((m.r0c1 * m.r1c3) - (m.r1c1 * m.r0c3))))
        == 0real - (m.r2c2 * (m.r2c0 * ((m.r0c1 * m.r1c3) - (m.r1c1 * m.r0c3))))) by (nonlinear_arith);
    assert((m.r2c2 * (m.r2c0 * ((m.r0c1 * m.r1c3) - (m.r1c1 * m.r0c3))))
        == (m.r2c2 * (m.r2c0 * (m.r0c1 * m.r1c3))) - (m.r2c2 * (m.r2c0 * (m.r1c1 * m.r0c3)))) by (nonlinear_arith);
    assert((m.r2c2 * (m.r2c0 * (m.r0c1 * m.r1c3)))
        == m.r0c1 * m.r1c3 * m.r2c0 * m.r2c2) by (nonlinear_arith);
    assert((m.r2c2 * (m.r2c0 * (m.r1c1 * m.r0c3)))
        == m.r0c3 * m.r1c1 * m.r2c0 * m.r2c2) by (nonlinear_arith);
    assert((m.r2c2 * (m.r2c1 * ((m.r0c0 * m.r1c3) - (m.r1c0 * m.r0c3))))
        == (m.r2c2 * (m.r2c1 * (m.r0c0 * m.r1c3))) - (m.r2c2 * (m.r2c1 * (m.r1c0 * m.r0c3)))) by (nonlinear_arith);
    assert((m.r2c2 * (m.r2c1 * (m.r0c0 * m.r1c3)))
        == m.r0c0 * m.r1c3 * m.r2c1 * m.r2c2) by (nonlinear_arith);
    assert((m.r2c2 * (m.r2c1 * (m.r1c0 * m.r0c3)))
        == m.r0c3 * m.r1c0 * m.r2c1 * m.r2c2) by (nonlinear_arith);
    assert((m.r2c2 * (m.r2c3 * ((m.r0c0 * m.r1c1) - (m.r1c0 * m.r0c1))))
        == (m.r2c2 * (m.r2c3 * (m.r0c0 * m.r1c1))) - (m.r2c2 * (m.r2c3 * (m.r1c0 * m.r0c1)))) by (nonlinear_arith);
    assert((m.r2c2 * (m.r2c3 * (m.r0c0 * m.r1c1)))
        == m.r0c0 * m.r1c1 * m.r2c2 * m.r2c3) by (nonlinear_arith);
    assert((m.r2c2 * (m.r2c3 * (m.r1c0 * m.r0c1)))
        == m.r0c1 * m.r1c0 * m.r2c2 * m.r2c3) by (nonlinear_arith);
    assert((m.r2c3 * (((m.r2c0 * ((m.r0c1 * m.r1c2) - (m.r1c1 * m.r0c2))) - (m.r2c1 * ((m.r0c0 * m.r1c2) - (m.r1c0 * m.r0c2)))) + (m.r2c2 * ((m.r0c0 * m.r1c1) - (m.r1c0 * m.r0c1)))))
        == (m.r2c3 * (m.r2c0 * ((m.r0c1 * m.r1c2) - (m.r1c1 * m.r0c2)))) - (m.r2c3 * (m.r2c1 * ((m.r0c0 * m.r1c2) - (m.r1c0 * m.r0c2)))) + (m.r2c3 * (m.r2c2 * ((m.r0c0 * m.r1c1) - (m.r1c0 * m.r0c1))))) by (nonlinear_arith);
    assert((m.r2c3 * (m.r2c0 * ((m.r0c1 * m.r1c2) - (m.r1c1 * m.r0c2))))
        == (m.r2c3 * (m.r2c0 * (m.r0c1 * m.r1c2))) - (m.r2c3 * (m.r2c0 * (m.r1c1 * m.r0c2)))) by (nonlinear_arith);
    assert((m.r2c3 * (m.r2c0 * (m.r0c1 * m.r1c2)))
        == m.r0c1 * m.r1c2 * m.r2c0 * m.r2c3) by (nonlinear_arith);
    assert((m.r2c3 * (m.r2c0 * (m.r1c1 * m.r0c2)))
        == m.r0c2 * m.r1c1 * m.r2c0 * m.r2c3) by (nonlinear_arith);
    assert((m.r2c3 * (m.r2c1 * ((m.r0c0 * m.r1c2) - (m.r1c0 * m.r0c2))))
        == (m.r2c3 * (m.r2c1 * (m.r0c0 * m.r1c2))) - (m.r2c3 * (m.r2c1 * (m.r1c0 * m.r0c2)))) by (nonlinear_arith);
    assert((m.r2c3 * (m.r2c1 * (m.r0c0 * m.r1c2)))
        == m.r0c0 * m.r1c2 * m.r2c1 * m.r2c3) by (nonlinear_arith);
    assert((m.r2c3 * (m.r2c1 * (m.r1c0 * m.r0c2)))
        == m.r0c2 * m.r1c0 * m.r2c1 * m.r2c3) by (nonlinear_arith);
    assert((m.r2c3 * (m.r2c2 * ((m.r0c0 * m.r1c1) - (m.r1c0 * m.r0c1))))
        == (m.r2c3 * (m.r2c2 * (m.r0c0 * m.r1c1))) - (m.r2c3 * (m.r2c2 * (m.r1c0 * m.r0c1)))) by (nonlinear_arith);
    assert((m.r2c3 * (m.r2c2 * (m.r0c0 * m.r1c1)))
        == m.r0c0 * m.r1c1 * m.r2c2 * m.r2c3) by (nonlinear_arith);
    assert((m.r2c3 * (m.r2c2 * (m.r1c0 * m.r0c1)))
        == m.r0c1 * m.r1c0 * m.r2c2 * m.r2c3) by (nonlinear_arith);
    assert((0real * ((((((m.r0c0 * m.r1c1) - (m.r1c0 * m.r0c1)) * ((m.r2c2 * m.r3c3) - (m.r3c2 * m.r2c3))) - (((m.r0c0 * m.r1c2) - (m.r1c0 * m.r0c2)) * ((m.r2c1 * m.r3c3) - (m.r3c1 * m.r2c3)))) + (((m.r0c0 * m.r1c3) - (m.r1c0 * m.r0c3)) * ((m.r2c1 * m.r3c2) - (m.r3c1 * m.r2c2)))) + (((((m.r0c1 * m.r1c2) - (m.r1c1 * m.r0c2)) * ((m.r2c0 * m.r3c3) - (m.r3c0 * m.r2c3))) - (((m.r0c1 * m.r1c3) - (m.r1c1 * m.r0c3)) * ((m.r2c0 * m.r3c2) - (m.r3c0 * m.r2c2)))) + (((m.r0c2 * m.r1c3) - (m.r1c2 * m.r0c3)) * ((m.r2c0 * m.r3c1) - (m.r3c0 * m.r2c1))))))
        == (0real * (((m.r0c0 * m.r1c1) - (m.r1c0 * m.r0c1)) * ((m.r2c2 * m.r3c3) - (m.r3c2 * m.r2c3)))) - (0real * (((m.r0c0 * m.r1c2) - (m.r1c0 * m.r0c2)) * ((m.r2c1 * m.r3c3) - (m.r3c1 * m.r2c3)))) + (0real * (((m.r0c0 * m.r1c3) - (m.r1c0 * m.r0c3)) * ((m.r2c1 * m.r3c2) - (m.r3c1 * m.r2c2)))) + (0real * (((m.r0c1 * m.r1c2) - (m.r1c1 * m.r0c2)) * ((m.r2c0 * m.r3c3) - (m.r3c0 * m.r2c3)))) - (0real * (((m.r0c1 * m.r1c3) - (m.r1c1 * m.r0c3)) * ((m.r2c0 * m.r3c2) - (m.r3c0 * m.r2c2)))) + (0real * (((m.r0c2 * m.r1c3) - (m.r1c2 * m.r0c3)) * ((m.r2c0 * m.r3c1) - (m.r3c0 * m.r2c1))))) by (nonlinear_arith);
    assert((0real * (((m.r0c0 * m.r1c1) - (m.r1c0 * m.r0c1)) * ((m.r2c2 * m.r3c3) - (m.r3c2 * m.r2c3))))
        == (0real * ((m.r0c0 * m.r1c1) * ((m.r2c2 * m.r3c3) - (m.r3c2 * m.r2c3)))) - (0real * ((m.r1c0 * m.r0c1) * ((m.r2c2 * m.r3c3) - (m.r3c2 * m.r2c3))))) by (nonlinear_arith);
    assert((0real * ((m.r0c0 * m.r1c1) * ((m.r2c2 * m.r3c3) - (m.r3c2 * m.r2c3))))
        == (0real * ((m.r0c0 * m.r1c1) * (m.r2c2 * m.r3c3))) - (0real * ((m.r0c0 * m.r1c1) * (m.r3c2 * m.r2c3)))) by (nonlinear_arith);
    assert((0real * ((m.r0c0 * m.r1c1) * (m.r2c2 * m.r3c3))) == 0real) by (nonlinear_arith);
    assert((0real * ((m.r0c0 * m.r1c1) * (m.r3c2 * m.r2c3))) == 0real) by (nonlinear_arith);
    assert((0real * ((m.r1c0 * m.r0c1) * ((m.r2c2 * m.r3c3) - (m.r3c2 * m.r2c3))))
        == (0real * ((m.r1c0 * m.r0c1) * (m.r2c2 * m.r3c3))) - (0real * ((m.r1c0 * m.r0c1) * (m.r3c2 * m.r2c3)))) by (nonlinear_arith);
    assert((0real * ((m.r1c0 * m.r0c1) * (m.r2c2 * m.r3c3))) == 0real) by (nonlinear_arith);
    assert((0real * ((m.r1c0 * m.r0c1) * (m.r3c2 * m.r2c3))) == 0real) by (nonlinear_arith);
    assert((0real * (((m.r0c0 * m.r1c2) - (m.r1c0 * m.r0c2)) * ((m.r2c1 * m.r3c3) - (m.r3c1 * m.r2c3))))
        == (0real * ((m.r0c0 * m.r1c2) * ((m.r2c1 * m.r3c3) - (m.r3c1 * m.r2c3)))) - (0real * ((m.r1c0 * m.r0c2) * ((m.r2c1 * m.r3c3) - (m.r3c1 * m.r2c3))))) by (nonlinear_arith);
    assert((0real * ((m.r0c0 * m.r1c2) * ((m.r2c1 * m.r3c3) - (m.r3c1 * m.r2c3))))
        == (0real * ((m.r0c0 * m.r1c2) * (m.r2c1 * m.r3c3))) - (0real * ((m.r0c0 * m.r1c2) * (m.r3c1 * m.r2c3)))) by (nonlinear_arith);
    assert((0real * ((m.r0c0 * m.r1c2) * (m.r2c1 * m.r3c3))) == 0real) by (nonlinear_arith);
    assert((0real * ((m.r0c0 * m.r1c2) * (m.r3c1 * m.r2c3))) == 0real) by (nonlinear_arith);
    assert((0real * ((m.r1c0 * m.r0c2) * ((m.r2c1 * m.r3c3) - (m.r3c1 * m.r2c3))))
        == (0real * ((m.r1c0 * m.r0c2) * (m.r2c1 * m.r3c3))) - (0real * ((m.r1c0 * m.r0c2) * (m.r3c1 * m.r2c3)))) by (nonlinear_arith);
    assert((0real * ((m.r1c0 * m.r0c2) * (m.r2c1 * m.r3c3))) == 0real) by (nonlinear_arith);
    assert((0real * ((m.r1c0 * m.r0c2) * (m.r3c1 * m.r2c3))) == 0real) by (nonlinear_arith);
    assert((0real * (((m.r0c0 * m.r1c3) - (m.r1c0 * m.r0c3)) * ((m.r2c1 * m.r3c2) - (m.r3c1 * m.r2c2))))
        == (0real * ((m.r0c0 * m.r1c3) * ((m.r2c1 * m.r3c2) - (m.r3c1 * m.r2c2)))) - (0real * ((m.r1c0 * m.r0c3) * ((m.r2c1 * m.r3c2) - (m.r3c1 * m.r2c2))))) by (nonlinear_arith);
    assert((0real * ((m.r0c0 * m.r1c3) * ((m.r2c1 * m.r3c2) - (m.r3c1 * m.r2c2))))
        == (0real * ((m.r0c0 * m.r1c3) * (m.r2c1 * m.r3c2))) - (0real * ((m.r0c0 * m.r1c3) * (m.r3c1 * m.r2c2)))) by (nonlinear_arith);
    assert((0real * ((m.r0c0 * m.r1c3) * (m.r2c1 * m.r3c2))) == 0real) by (nonlinear_arith);
    assert((0real * ((m.r0c0 * m.r1c3) * (m.r3c1 * m.r2c2))) == 0real) by (nonlinear_arith);
    assert((0real * ((m.r1c0 * m.r0c3) * ((m.r2c1 * m.r3c2) - (m.r3c1 * m.r2c2))))
        == (0real * ((m.r1c0 * m.r0c3) * (m.r2c1 * m.r3c2))) - (0real * ((m.r1c0 * m.r0c3) * (m.r3c1 * m.r2c2)))) by (nonlinear_arith);
    assert((0real * ((m.r1c0 * m.r0c3) * (m.r2c1 * m.r3c2))) == 0real) by (nonlinear_arith);
    assert((0real * ((m.r1c0 * m.r0c3) * (m.r3c1 * m.r2c2))) == 0real) by (nonlinear_arith);
    assert((0real * (((m.r0c1 * m.r1c2) - (m.r1c1 * m.r0c2)) * ((m.r2c0 * m.r3c3) - (m.r3c0 * m.r2c3))))
        == (0real * ((m.r0c1 * m.r1c2) * ((m.r2c0 * m.r3c3) - (m.r3c0 * m.r2c3)))) - (0real * ((m.r1c1 * m.r0c2) * ((m.r2c0 * m.r3c3) - (m.r3c0 * m.r2c3))))) by (nonlinear_arith);
    assert((0real * ((m.r0c1 * m.r1c2) * ((m.r2c0 * m.r3c3) - (m.r3c0 * m.r2c3))))
        == (0real * ((m.r0c1 * m.r1c2) * (m.r2c0 * m.r3c3))) - (0real * ((m.r0c1 * m.r1c2) * (m.r3c0 * m.r2c3)))) by (nonlinear_arith);
    assert((0real * ((m.r0c1 * m.r1c2) * (m.r2c0 * m.r3c3))) == 0real) by (nonlinear_arith);
    assert((0real * ((m.r0c1 * m.r1c2) * (m.r3c0 * m.r2c3))) == 0real) by (nonlinear_arith);
    assert((0real * ((m.r1c1 * m.r0c2) * ((m.r2c0 * m.r3c3) - (m.r3c0 * m.r2c3))))
        == (0real * ((m.r1c1 * m.r0c2) * (m.r2c0 * m.r3c3))) - (0real * ((m.r1c1 * m.r0c2) * (m.r3c0 * m.r2c3)))) by (nonlinear_arith);
    assert((0real * ((m.r1c1 * m.r0c2) * (m.r2c0 * m.r3c3))) == 0real) by (nonlinear_arith);
    assert((0real * ((m.r1c1 * m.r0c2) * (m.r3c0 * m.r2c3))) == 0real) by (nonlinear_arith);
    assert((0real * (((m.r0c1 * m.r1c3) - (m.r1c1 * m.r0c3)) * ((m.r2c0 * m.r3c2) - (m.r3c0 * m.r2c2))))
        == (0real * ((m.r0c1 * m.r1c3) * ((m.r2c0 * m.r3c2) - (m.r3c0 * m.r2c2)))) - (0real * ((m.r1c1 * m.r0c3) * ((m.r2c0 * m.r3c2) - (m.r3c0 * m.r2c2))))) by (nonlinear_arith);
    assert((0real * ((m.r0c1 * m.r1c3) * ((m.r2c0 * m.r3c2) - (m.r3c0 * m.r2c2))))
        == (0real * ((m.r0c1 * m.r1c3) * (m.r2c0 * m.r3c2))) - (0real * ((m.r0c1 * m.r1c3) * (m.r3c0 * m.r2c2)))) by (nonlinear_arith);
    assert((0real * ((m.r0c1 * m.r1c3) * (m.r2c0 * m.r3c2))) == 0real) by (nonlinear_arith);
    assert((0real * ((m.r0c1 * m.r1c3) * (m.r3c0 * m.r2c2))) == 0real) by (nonlinear_arith);
    assert((0real * ((m.r1c1 * m.r0c3) * ((m.r2c0 * m.r3c2) - (m.r3c0 * m.r2c2))))
        == (0real * ((m.r1c1 * m.r0c3) * (m.r2c0 * m.r3c2))) - (0real * ((m.r1c1 * m.r0c3) * (m.r3c0 * m.r2c2)))) by (nonlinear_arith);
    assert((0real * ((m.r1c1 * m.r0c3) * (m.r2c0 * m.r3c2))) == 0real) by (nonlinear_arith);
    assert((0real * ((m.r1c1 * m.r0c3) * (m.r3c0 * m.r2c2))) == 0real) by (nonlinear_arith);
    assert((0real * (((m.r0c2 * m.r1c3) - (m.r1c2 * m.r0c3)) * ((m.r2c0 * m.r3c1) - (m.r3c0 * m.r2c1))))
        == (0real * ((m.r0c2 * m.r1c3) * ((m.r2c0 * m.r3c1) - (m.r3c0 * m.r2c1)))) - (0real * ((m.r1c2 * m.r0c3) * ((m.r2c0 * m.r3c1) - (m.r3c0 * m.r2c1))))) by (nonlinear_arith);
    assert((0real * ((m.r0c2 * m.r1c3) * ((m.r2c0 * m.r3c1) - (m.r3c0 * m.r2c1))))
        == (0real * ((m.r0c2 * m.r1c3) * (m.r2c0 * m.r3c1))) - (0real * ((m.r0c2 * m.r1c3) * (m.r3c0 * m.r2c1)))) by (nonlinear_arith);
    assert((0real * ((m.r0c2 * m.r1c3) * (m.r2c0 * m.r3c1))) == 0real) by (nonlinear_arith);
    assert((0real * ((m.r0c2 * m.r1c3) * (m.r3c0 * m.r2c1))) == 0real) by (nonlinear_arith);
    assert((0real * ((m.r1c2 * m.r0c3) * ((m.r2c0 * m.r3c1) - (m.r3c0 * m.r2c1))))
        == (0real * ((m.r1c2 * m.r0c3) * (m.r2c0 * m.r3c1))) - (0real * ((m.r1c2 * m.r0c3) * (m.r3c0 * m.r2c1)))) by (nonlinear_arith);
    assert((0real * ((m.r1c2 * m.r0c3) * (m.r2c0 * m.r3c1))) == 0real) by (nonlinear_arith);
    assert((0real * ((m.r1c2 * m.r0c3) * (m.r3c0 * m.r2c1))) == 0real) by (nonlinear_arith);
}

proof fn lemma_real_mat4_times_adjugate_r3c0(m: Mat4Model<real>)
    ensures
        m.times(m.adjugate()).r3c0 == Mat4Model::<real>::identity().times_each(m.determinant()).r3c0,
{
    assert((m.r3c0 * (((m.r1c1 * ((m.r2c2 * m.r3c3) - (m.r3c2 * m.r2c3))) - (m.r1c2 * ((m.r2c1 * m.r3c3) - (m.r3c1 * m.r2c3)))) + (m.r1c3 * ((m.r2c1 * m.r3c2) - (m.r3c1 * m.r2c2)))))
        == (m.r3c0 * (m.r1c1 * ((m.r2c2 * m.r3c3) - (m.r3c2 * m.r2c3)))) - (m.r3c0 * (m.r1c2 * ((m.r2c1 * m.r3c3) - (m.r3c1 * m.r2c3)))) + (m.r3c0 * (m.r1c3 * ((m.r2c1 * m.r3c2) - (m.r3c1 * m.r2c2))))) by (nonlinear_arith);
    assert((m.r3c0 * (m.r1c1 * ((m.r2c2 * m.r3c3) - (m.r3c2 * m.r2c3))))
        == (m.r3c0 * (m.r1c1 * (m.r2c2 * m.r3c3))) - (m.r3c0 * (m.r1c1 * (m.r3c2 * m.r2c3)))) by (nonlinear_arith);
    assert((m.r3c0 * (m.r1c1 * (m.r2c2 * m.r3c3)))
        == m.r1c1 * m.r2c2 * m.r3c0 * m.r3c3) by (nonlinear_arith);
    assert((m.r3c0 * (m.r1c1 * (m.r3c2 * m.r2c3)))
        == m.r1c1 * m.r2c3 * m.r3c0 * m.r3c2) by (nonlinear_arith);
    assert((m.r3c0 * (m.r1c2 * ((m.r2c1 * m.r3c3) - (m.r3c1 * m.r2c3))))
        == (m.r3c0 * (m.r1c2 * (m.r2c1 * m.r3c3))) - (m.r3c0 * (m.r1c2 * (m.r3c1 * m.r2c3)))) by (nonlinear_arith);
    assert((m.r3c0 * (m.r1c2 * (m.r2c1 * m.r3c3)))
        == m.r1c2 * m.r2c1 * m.r3c0 * m.r3c3) by (nonlinear_arith);
    assert((m.r3c0 * (m.r1c2 * (m.r3c1 * m.r2c3)))
        == m.r1c2 * m.r2c3 * m.r3c0 * m.r3c1) by (nonlinear_arith);
    assert((m.r3c0 * (m.r1c3 * ((m.r2c1 * m.r3c2) - (m.r3c1 * m.r2c2))))
        == (m.r3c0 * (m.r1c3 * (m.r2c1 * m.r3c2))) - (m.r3c0 * (m.r1c3 * (m.r3c1 * m.r2c2)))) by (nonlinear_arith);
    assert((m.r3c0 * (m.r1c3 * (m.r2c1 * m.r3c2)))
        == m.r1c3 * m.r2c1 * m.r3c0 * m.r3c2) by (nonlinear_arith);
    assert((m.r3c0 * (m.r1c3 * (m.r3c1 * m.r2c2)))
        == m.r1c3 * m.r2c2 * m.r3c0 * m.r3c1) by (nonlinear_arith);
    assert((m.r3c1 * ((((-m.r1c0) * ((m.r2c2 * m.r3c3) - (m.r3c2 * m.r2c3))) + (m.r1c2 * ((m.r2c0 * m.r3c3) - (m.r3c0 * m.r2c3)))) - (m.r1c3 * ((m.r2c0 * m.r3c2) - (m.r3c0 * m.r2c2)))))
        == (m.r3c1 * ((-m.r1c0) * ((m.r2c2 * m.r3c3) - (m.r3c2 * m.r2c3)))) + (m.r3c1 * (m.r1c2 * ((m.r2c0 * m.r3c3) - (m.r3c0 * m.r2c3)))) - (m.r3c1 * (m.r1c3 * ((m.r2c0 * m.r3c2) - (m.r3c0 * m.r2c2))))) by (nonlinear_arith);
    assert((m.r3c1 * ((-m.r1c0) * ((m.r2c2 * m.r3c3) - (m.r3c2 * m.r2c3))))
        == 0real - (m.r3c1 * (m.r1c0 * ((m.r2c2 * m.r3c3) - (m.r3c2 * m.r2c3))))) by (nonlinear_arith);
    assert((m.r3c1 * (m.r1c0 * ((m.r2c2 * m.r3c3) - (m.r3c2 * m.r2c3))))
        == (m.r3c1 * (m.r1c0 * (m.r2c2 * m.r3c3))) - (m.r3c1 * (m.r1c0 * (m.r3c2 * m.r2c3)))) by (nonlinear_arith);
    assert((m.r3c1 * (m.r1c0 * (m.r2c2 * m.r3c3)))
        == m.r1c0 * m.r2c2 * m.r3c1 * m.r3c3) by (nonlinear_arith);
    assert((m.r3c1 * (m.r1c0 * (m.r3c2 * m.r2c3)))
        == m.r1c0 * m.r2c3 * m.r3c1 * m.r3c2) by (nonlinear_arith);
    assert((m.r3c1 * (m.r1c2 * ((m.r2c0 * m.r3c3) - (m.r3c0 * m.r2c3))))
        == (m.r3c1 * (m.r1c2 * (m.r2c0 * m.r3c3))) - (m.r3c1 * (m.r1c2 * (m.r3c0 * m.r2c3)))) by (nonlinear_arith);
    assert((m.r3c1 * (m.r1c2 * (m.r2c0 * m.r3c3)))
        == m.r1c2 * m.r2c0 * m.r3c1 * m.r3c3) by (nonlinear_arith);
    assert((m.r3c1 * (m.r1c2 * (m.r3c0 * m.r2c3)))
        == m.r1c2 * m.r2c3 * m.r3c0 * m.r3c1) by (nonlinear_arith);
    assert((m.r3c1 * (m.r1c3 * ((m.r2c0 * m.r3c2) - (m.r3c0 * m.r2c2))))
        == (m.r3c1 * (m.r1c3 * (m.r2c0 * m.r3c2))) - (m.r3c1 * (m.r1c3 * (m.r3c0 * m.r2c2)))) by (nonlinear_arith);
    assert((m.r3c1 * (m.r1c3 * (m.r2c0 * m.r3c2)))
        == m.r1c3 * m.r2c0 * m.r3c1 * m.r3c2) by (nonlinear_arith);
    assert((m.r3c1 * (m.r1c3 * (m.r3c0 * m.r2c2)))
        == m.r1c3 * m.r2c2 * m.r3c0 * m.r3c1) by (nonlinear_arith);
    assert((m.r3c2 * (((m.r1c0 * ((m.r2c1 * m.r3c3) - (m.r3c1 * m.r2c3))) - (m.r1c1 * ((m.r2c0 * m.r3c3) - (m.r3c0 * m.r2c3)))) + (m.r1c3 * ((m.r2c0 * m.r3c1) - (m.r3c0 * m.r2c1)))))
        == (m.r3c2 * (m.r1c0 * ((m.r2c1 * m.r3c3) - (m.r3c1 * m.r2c3)))) - (m.r3c2 * (m.r1c1 * ((m.r2c0 * m.r3c3) - (m.r3c0 * m.r2c3)))) + (m.r3c2 * (m.r1c3 * ((m.r2c0 * m.r3c1) - (m.r3c0 * m.r2c1))))) by (nonlinear_arith);
    assert((m.r3c2 * (m.r1c0 * ((m.r2c1 * m.r3c3) - (m.r3c1 * m.r2c3))))
        == (m.r3c2 * (m.r1c0 * (m.r2c1 * m.r3c3))) - (m.r3c2 * (m.r1c0 * (m.r3c1 * m.r2c3)))) by (nonlinear_arith);
    assert((m.r3c2 * (m.r1c0 * (m.r2c1 * m.r3c3)))
        == m.r1c0 * m.r2c1 * m.r3c2 * m.r3c3) by (nonlinear_arith);
    assert((m.r3c2 * (m.r1c0 * (m.r3c1 * m.r2c3)))
        == m.r1c0 * m.r2c3 * m.r3c1 * m.r3c2) by (nonlinear_arith);
    assert((m.r3c2 * (m.r1c1 * ((m.r2c0 * m.r3c3) - (m.r3c0 * m.r2c3))))
        == (m.r3c2 * (m.r1c1 * (m.r2c0 * m.r3c3))) - (m.r3c2 * (m.r1c1 * (m.r3c0 * m.r2c3)))) by (nonlinear_arith);
    assert((m.r3c2 * (m.r1c1 * (m.r2c0 * m.r3c3)))
        == m.r1c1 * m.r2c0 * m.r3c2 * m.r3c3) by (nonlinear_arith);
    assert((m.r3c2 * (m.r1c1 * (m.r3c0 * m.r2c3)))
        == m.r1c1 * m.r2c3 * m.r3c0 * m.r3c2) by (nonlinear_arith);
    assert((m.r3c2 * (m.r1c3 * ((m.r2c0 * m.r3c1) - (m.r3c0 * m.r2c1))))
        == (m.r3c2 * (m.r1c3 * (m.r2c0 * m.r3c1))) - (m.r3c2 * (m.r1c3 * (m.r3c0 * m.r2c1)))) by (nonlinear_arith);
    assert((m.r3c2 * (m.r1c3 * (m.r2c0 * m.r3c1)))
        == m.r1c3 * m.r2c0 * m.r3c1 * m.r3c2) by (nonlinear_arith);
    assert((m.r3c2 * (m.r1c3 * (m.r3c0 * m.r2c1)))
        == m.r1c3 * m.r2c1 * m.r3c0 * m.r3c2) by (nonlinear_arith);
    assert((m.r3c3 * ((((-m.r1c0) * ((m.r2c1 * m.r3c2) - (m.r3c1 * m.r2c2))) + (m.r1c1 * ((m.r2c0 * m.r3c2) - (m.r3c0 * m.r2c2)))) - (m.r1c2 * ((m.r2c0 * m.r3c1) - (m.r3c0 * m.r2c1)))))
        == (m.r3c3 * ((-m.r1c0) * ((m.r2c1 * m.r3c2) - (m.r3c1 * m.r2c2)))) + (m.r3c3 * (m.r1c1 * ((m.r2c0 * m.r3c2) - (m.r3c0 * m.r2c2)))) - (m.r3c3 * (m.r1c2 * ((m.r2c0 * m.r3c1) - (m.r3c0 * m.r2c1))))) by (nonlinear_arith);
    assert((m.r3c3 * ((-m.r1c0) * ((m.r2c1 * m.r3c2) - (m.r3c1 * m.r2c2))))
        == 0real - (m.r3c3 * (m.r1c0 * ((m.r2c1 * m.r3c2) - (m.r3c1 * m.r2c2))))) by (nonlinear_arith);
    assert((m.r3c3 * (m.r1c0 * ((m.r2c1 * m.r3c2) - (m.r3c1 * m.r2c2))))
        == (m.r3c3 * (m.r1c0 * (m.r2c1 * m.r3c2))) - (m.r3c3 * (m.r1c0 * (m.r3c1 * m.r2c2)))) by (nonlinear_arith);
    assert((m.r3c3 * (m.r1c0 * (m.r2c1 * m.r3c2)))
        == m.r1c0 * m.r2c1 * m.r3c2 * m.r3c3) by (nonlinear_arith);
    assert((m.r3c3 * (m.r1c0 * (m.r3c1 * m.r2c2)))
        == m.r1c0 * m.r2c2 * m.r3c1 * m.r3c3) by (nonlinear_arith);
    assert((m.r3c3 * (m.r1c1 * ((m.r2c0 * m.r3c2) - (m.r3c0 * m.r2c2))))
        == (m.r3c3 * (m.r1c1 * (m.r2c0 * m.r3c2))) - (m.r3c3 * (m.r1c1 * (m.r3c0 * m.r2c2)))) by (nonlinear_arith);
    assert((m.r3c3 * (m.r1c1 * (m.r2c0 * m.r3c2)))
        == m.r1c1 * m.r2c0 * m.r3c2 * m.r3c3) by (nonlinear_arith);
    assert((m.r3c3 * (m.r1c1 * (m.r3c0 * m.r2c2)))
        == m.r1c1 * m.r2c2 * m.r3c0 * m.r3c3) by (nonlinear_arith);
    assert((m.r3c3 * (m.r1c2 * ((m.r2c0 * m.r3c1) - (m.r3c0 * m.r2c1))))
        == (m.r3c3 * (m.r1c2 * (m.r2c0 * m.r3c1))) - (m.r3c3 * (m.r1c2 * (m.r3c0 * m.r2c1)))) by (nonlinear_arith);
    assert((m.r3c3 * (m.r1c2 * (m.r2c0 * m.r3c1)))
        == m.r1c2 * m.r2c0 * m.r3c1 * m.r3c3) by (nonlinear_arith);
    assert((m.r3c3 * (m.r1c2 * (m.r3c0 * m.r2c1)))
        == m.r1c2 * m.r2c1 * m.r3c0 * m.r3c3) by (nonlinear_arith);
    assert((0real * ((((((m.r0c0 * m.r1c1) - (m.r1c0 * m.r0c1)) * ((m.r2c2 * m.r3c3) - (m.r3c2 * m.r2c3))) - (((m.r0c0 * m.r1c2) - (m.r1c0 * m.r0c2)) * ((m.r2c1 * m.r3c3) - (m.r3c1 * m.r2c3)))) + (((m.r0c0 * m.r1c3) - (m.r1c0 * m.r0c3)) * ((m.r2c1 * m.r3c2) - (m.r3c1 * m.r2c2)))) + (((((m.r0c1 * m.r1c2) - (m.r1c1 * m.r0c2)) * ((m.r2c0 * m.r3c3) - (m.r3c0 * m.r2c3))) - (((m.r0c1 * m.r1c3) - (m.r1c1 * m.r0c3)) * ((m.r2c0 * m.r3c2) - (m.r3c0 * m.r2c2)))) + (((m.r0c2 * m.r1c3) - (m.r1c2 * m.r0c3)) * ((m.r2c0 * m.r3c1) - (m.r3c0 * m.r2c1))))))
        == (0real * (((m.r0c0 * m.r1c1) - (m.r1c0 * m.r0c1)) * ((m.r2c2 * m.r3c3) - (m.r3c2 * m.r2c3)))) - (0real * (((m.r0c0 * m.r1c2) - (m.r1c0 * m.r0c2)) * ((m.r2c1 * m.r3c3) - (m.r3c1 * m.r2c3)))) + (0real * (((m.r0c0 * m.r1c3) - (m.r1c0 * m.r0c3)) * ((m.r2c1 * m.r3c2) - (m.r3c1 * m.r2c2)))) + (0real * (((m.r0c1 * m.r1c2) - (m.r1c1 * m.r0c2)) * ((m.r2c0 * m.r3c3) - (m.r3c0 * m.r2c3)))) - (0real * (((m.r0c1 * m.r1c3) - (m.r1c1 * m.r0c3)) * ((m.r2c0 * m.r3c2) - (m.r3c0 * m.r2c2)))) + (0real * (((m.r0c2 * m.r1c3) - (m.r1c2 * m.r0c3)) * ((m.r2c0 * m.r3c1) - (m.r3c0 * m.r2c1))))) by (nonlinear_arith);
    assert((0real * (((m.r0c0 * m.r1c1) - (m.r1c0 * m.r0c1)) * ((m.r2c2 * m.r3c3) - (m.r3c2 * m.r2c3))))
        == (0real * ((m.r0c0 * m.r1c1) * ((m.r2c2 * m.r3c3) - (m.r3c2 * m.r2c3)))) - (0real * ((m.r1c0 * m.r0c1) * ((m.r2c2 * m.r3c3) - (m.r3c2 * m.r2c3))))) by (nonlinear_arith);
    assert((0real * ((m.r0c0 * m.r1c1) * ((m.r2c2 * m.r3c3) - (m.r3c2 * m.r2c3))))
        == (0real * ((m.r0c0 * m.r1c1) * (m.r2c2 * m.r3c3))) - (0real * ((m.r0c0 * m.r1c1) * (m.r3c2 * m.r2c3)))) by (nonlinear_arith);
    assert((0real * ((m.r0c0 * m.r1c1) * (m.r2c2 * m.r3c3))) == 0real) by (nonlinear_arith);
    assert((0real * ((m.r0c0 * m.r1c1) * (m.r3c2 * m.r2c3))) == 0real) by (nonlinear_arith);
    assert((0real * ((m.r1c0 * m.r0c1) * ((m.r2c2 * m.r3c3) - (m.r3c2 * m.r2c3))))
        == (0real * ((m.r1c0 * m.r0c1) * (m.r2c2 * m.r3c3))) - (0real * ((m.r1c0 * m.r0c1) * (m.r3c2 * m.r2c3)))) by (nonlinear_arith);
    assert((0real * ((m.r1c0 * m.r0c1) * (m.r2c2 * m.r3c3))) == 0real) by (nonlinear_arith);
    assert((0real * ((m.r1c0 * m.r0c1) * (m.r3c2 * m.r2c3))) == 0real) by (nonlinear_arith);
    assert((0real * (((m.r0c0 * m.r1c2) - (m.r1c0 * m.r0c2)) * ((m.r2c1 * m.r3c3) - (m.r3c1 * m.r2c3))))
        == (0real * ((m.r0c0 * m.r1c2) * ((m.r2c1 * m.r3c3) - (m.r3c1 * m.r2c3)))) - (0real * ((m.r1c0 * m.r0c2) * ((m.r2c1 * m.r3c3) - (m.r3c1 * m.r2c3))))) by (nonlinear_arith);
    assert((0real * ((m.r0c0 * m.r1c2) * ((m.r2c1 * m.r3c3) - (m.r3c1 * m.r2c3))))
        == (0real * ((m.r0c0 * m.r1c2) * (m.r2c1 * m.r3c3))) - (0real * ((m.r0c0 * m.r1c2) * (m.r3c1 * m.r2c3)))) by (nonlinear_arith);
    assert((0real * ((m.r0c0 * m.r1c2) * (m.r2c1 * m.r3c3))) == 0real) by (nonlinear_arith);
    assert((0real * ((m.r0c0 * m.r1c2) * (m.r3c1 * m.r2c3))) == 0real) by (nonlinear_arith);
    assert((0real * ((m.r1c0 * m.r0c2) * ((m.r2c1 * m.r3c3) - (m.r3c1 * m.r2c3))))
        == (0real * ((m.r1c0 * m.r0c2) * (m.r2c1 * m.r3c3))) - (0real * ((m.r1c0 * m.r0c2) * (m.r3c1 * m.r2c3)))) by (nonlinear_arith);
    assert((0real * ((m.r1c0 * m.r0c2) * (m.r2c1 * m.r3c3))) == 0real) by (nonlinear_arith);
    assert((0real * ((m.r1c0 * m.r0c2) * (m.r3c1 * m.r2c3))) == 0real) by (nonlinear_arith);
    assert((0real * (((m.r0c0 * m.r1c3) - (m.r1c0 * m.r0c3)) * ((m.r2c1 * m.r3c2) - (m.r3c1 * m.r2c2))))
        == (0real * ((m.r0c0 * m.r1c3) * ((m.r2c1 * m.r3c2) - (m.r3c1 * m.r2c2)))) - (0real * ((m.r1c0 * m.r0c3) * ((m.r2c1 * m.r3c2) - (m.r3c1 * m.r2c2))))) by (nonlinear_arith);
    assert((0real * ((m.r0c0 * m.r1c3) * ((m.r2c1 * m.r3c2) - (m.r3c1 * m.r2c2))))
        == (0real * ((m.r0c0 * m.r1c3) * (m.r2c1 * m.r3c2))) - (0real * ((m.r0c0 * m.r1c3) * (m.r3c1 * m.r2c2)))) by (nonlinear_arith);
    assert((0real * ((m.r0c0 * m.r1c3) * (m.r2c1 * m.r3c2))) == 0real) by (nonlinear_arith);
    assert((0real * ((m.r0c0 * m.r1c3) * (m.r3c1 * m.r2c2))) == 0real) by (nonlinear_arith);
    assert((0real * ((m.r1c0 * m.r0c3) * ((m.r2c1 * m.r3c2) - (m.r3c1 * m.r2c2))))
        == (0real * ((m.r1c0 * m.r0c3) * (m.r2c1 * m.r3c2))) - (0real * ((m.r1c0 * m.r0c3) * (m.r3c1 * m.r2c2)))) by (nonlinear_arith);
    assert((0real * ((m.r1c0 * m.r0c3) * (m.r2c1 * m.r3c2))) == 0real) by (nonlinear_arith);
    assert((0real * ((m.r1c0 * m.r0c3) * (m.r3c1 * m.r2c2))) == 0real) by (nonlinear_arith);
    assert((0real * (((m.r0c1 * m.r1c2) - (m.r1c1 * m.r0c2)) * ((m.r2c0 * m.r3c3) - (m.r3c0 * m.r2c3))))
        == (0real * ((m.r0c1 * m.r1c2) * ((m.r2c0 * m.r3c3) - (m.r3c0 * m.r2c3)))) - (0real * ((m.r1c1 * m.r0c2) * ((m.r2c0 * m.r3c3) - (m.r3c0 * m.r2c3))))) by (nonlinear_arith);
    assert((0real * ((m.r0c1 * m.r1c2) * ((m.r2c0 * m.r3c3) - (m.r3c0 * m.r2c3))))
        == (0real * ((m.r0c1 * m.r1c2) * (m.r2c0 * m.r3c3))) - (0real * ((m.r0c1 * m.r1c2) * (m.r3c0 * m.r2c3)))) by (nonlinear_arith);
    assert((0real * ((m.r0c1 * m.r1c2) * (m.r2c0 * m.r3c3))) == 0real) by (nonlinear_arith);
    assert((0real * ((m.r0c1 * m.r1c2) * (m.r3c0 * m.r2c3))) == 0real) by (nonlinear_arith);
    assert((0real * ((m.r1c1 * m.r0c2) * ((m.r2c0 * m.r3c3) - (m.r3c0 * m.r2c3))))
        == (0real * ((m.r1c1 * m.r0c2) * (m.r2c0 * m.r3c3))) - (0real * ((m.r1c1 * m.r0c2) * (m.r3c0 * m.r2c3)))) by (nonlinear_arith);
    assert((0real * ((m.r1c1 * m.r0c2) * (m.r2c0 * m.r3c3))) == 0real) by (nonlinear_arith);
    assert((0real * ((m.r1c1 * m.r0c2) * (m.r3c0 * m.r2c3))) == 0real) by (nonlinear_arith);
    assert((0real * (((m.r0c1 * m.r1c3) - (m.r1c1 * m.r0c3)) * ((m.r2c0 * m.r3c2) - (m.r3c0 * m.r2c2))))
        == (0real * ((m.r0c1 * m.r1c3) * ((m.r2c0 * m.r3c2) - (m.r3c0 * m.r2c2)))) - (0real * ((m.r1c1 * m.r0c3) * ((m.r2c0 * m.r3c2) - (m.r3c0 * m.r2c2))))) by (nonlinear_arith);
    assert((0real * ((m.r0c1 * m.r1c3) * ((m.r2c0 * m.r3c2) - (m.r3c0 * m.r2c2))))
        == (0real * ((m.r0c1 * m.r1c3) * (m.r2c0 * m.r3c2))) - (0real * ((m.r0c1 * m.r1c3) * (m.r3c0 * m.r2c2)))) by (nonlinear_arith);
    assert((0real * ((m.r0c1 * m.r1c3) * (m.r2c0 * m.r3c2))) == 0real) by (nonlinear_arith);
    assert((0real * ((m.r0c1 * m.r1c3) * (m.r3c0 * m.r2c2))) == 0real) by (nonlinear_arith);
    assert((0real * ((m.r1c1 * m.r0c3) * ((m.r2c0 * m.r3c2) - (m.r3c0 * m.r2c2))))
        == (0real * ((m.r1c1 * m.r0c3) * (m.r2c0 * m.r3c2))) - (0real * ((m.r1c1 * m.r0c3) * (m.r3c0 * m.r2c2)))) by (nonlinear_arith);
    assert((0real * ((m.r1c1 * m.r0c3) * (m.r2c0 * m.r3c2))) == 0real) by (nonlinear_arith);
    assert((0real * ((m.r1c1 * m.r0c3) * (m.r3c0 * m.r2c2))) == 0real) by (nonlinear_arith);
    assert((0real * (((m.r0c2 * m.r1c3) - (m.r1c2 * m.r0c3)) * ((m.r2c0 * m.r3c1) - (m.r3c0 * m.r2c1))))
        == (0real * ((m.r0c2 * m.r1c3) * ((m.r2c0 * m.r3c1) - (m.r3c0 * m.r2c1)))) - (0real * ((m.r1c2 * m.r0c3) * ((m.r2c0 * m.r3c1) - (m.r3c0 * m.r2c1))))) by (nonlinear_arith);
    assert((0real * ((m.r0c2 * m.r1c3) * ((m.r2c0 * m.r3c1) - (m.r3c0 * m.r2c1))))
        == (0real * ((m.r0c2 * m.r1c3) * (m.r2c0 * m.r3c1))) - (0real * ((m.r0c2 * m.r1c3) * (m.r3c0 * m.r2c1)))) by (nonlinear_arith);
    assert((0real * ((m.r0c2 * m.r1c3) * (m.r2c0 * m.r3c1))) == 0real) by (nonlinear_arith);
    assert((0real * ((m.r0c2 * m.r1c3) * (m.r3c0 * m.r2c1))) == 0real) by (nonlinear_arith);
    assert((0real * ((m.r1c2 * m.r0c3) * ((m.r2c0 * m.r3c1) - (m.r3c0 * m.r2c1))))
        == (0real * ((m.r1c2 * m.r0c3) * (m.r2c0 * m.r3c1))) - (0real * ((m.r1c2 * m.r0c3) * (m.r3c0 * m.r2c1)))) by (nonlinear_arith);
    assert((0real * ((m.r1c2 * m.r0c3) * (m.r2c0 * m.r3c1))) == 0real) by (nonlinear_arith);
    assert((0real * ((m.r1c2 * m.r0c3) * (m.r3c0 * m.r2c1))) == 0real) by (nonlinear_arith);
}

proof fn lemma_real_mat4_times_adjugate_r3c1(m: Mat4Model<real>)
    ensures
        m.times(m.adjugate()).r3c1 == Mat4Model::<real>::identity().times_each(m.determinant()).r3c1,
{
    assert((m.r3c0 * ((((-m.r0c1) * ((m.r2c2 * m.r3c3) - (m.r3c2 * m.r2c3))) + (m.r0c2 * ((m.r2c1 * m.r3c3) - (m.r3c1 * m.r2c3)))) - (m.r0c3 * ((m.r2c1 * m.r3c2) - (m.r3c1 * m.r2c2)))))
        == (m.r3c0 * ((-m.r0c1) * ((m.r2c2 * m.r3c3) - (m.r3c2 * m.r2c3)))) + (m.r3c0 * (m.r0c2 * ((m.r2c1 * m.r3c3) - (m.r3c1 * m.r2c3)))) - (m.r3c0 * (m.r0c3 * ((m.r2c1 * m.r3c2) - (m.r3c1 * m.r2c2))))) by (nonlinear_arith);
    assert((m.r3c0 * ((-m.r0c1) * ((m.r2c2 * m.r3c3) - (m.r3c2 * m.r2c3))))
        == 0real - (m.r3c0 * (m.r0c1 * ((m.r2c2 * m.r3c3) - (m.r3c2 * m.r2c3))))) by (nonlinear_arith);
    assert((m.r3c0 * (m.r0c1 * ((m.r2c2 * m.r3c3) - (m.r3c2 * m.r2c3))))
        == (m.r3c0 * (m.r0c1 * (m.r2c2 * m.r3c3))) - (m.r3c0 * (m.r0c1 * (m.r3c2 * m.r2c3)))) by (nonlinear_arith);
    assert((m.r3c0 * (m.r0c1 * (m.r2c2 * m.r3c3)))
        == m.r0c1 * m.r2c2 * m.r3c0 * m.r3c3) by (nonlinear_arith);
    assert((m.r3c0 * (m.r0c1 * (m.r3c2 * m.r2c3)))
        == m.r0c1 * m.r2c3 * m.r3c0 * m.r3c2) by (nonlinear_arith);
    assert((m.r3c0 * (m.r0c2 * ((m.r2c1 * m.r3c3) - (m.r3c1 * m.r2c3))))
        == (m.r3c0 * (m.r0c2 * (m.r2c1 * m.r3c3))) - (m.r3c0 * (m.r0c2 * (m.r3c1 * m.r2c3)))) by (nonlinear_arith);
    assert((m.r3c0 * (m.r0c2 * (m.r2c1 * m.r3c3)))
        == m.r0c2 * m.r2c1 * m.r3c0 * m.r3c3) by (nonlinear_arith);
    assert((m.r3c0 * (m.r0c2 * (m.r3c1 * m.r2c3)))
        == m.r0c2 * m.r2c3 * m.r3c0 * m.r3c1) by (nonlinear_arith);
    assert((m.r3c0 * (m.r0c3 * ((m.r2c1 * m.r3c2) - (m.r3c1 * m.r2c2))))
        == (m.r3c0 * (m.r0c3 * (m.r2c1 * m.r3c2))) - (m.r3c0 * (m.r0c3 * (m.r3c1 * m.r2c2)))) by (nonlinear_arith);
    assert((m.r3c0 * (m.r0c3 * (m.r2c1 * m.r3c2)))
        == m.r0c3 * m.r2c1 * m.r3c0 * m.r3c2) by (nonlinear_arith);
    assert((m.r3c0 * (m.r0c3 * (m.r3c1 * m.r2c2)))
        == m.r0c3 * m.r2c2 * m.r3c0 * m.r3c1) by (nonlinear_arith);
    assert((m.r3c1 * (((m.r0c0 * ((m.r2c2 * m.r3c3) - (m.r3c2 * m.r2c3))) - (m.r0c2 * ((m.r2c0 * m.r3c3) - (m.r3c0 * m.r2c3)))) + (m.r0c3 * ((m.r2c0 * m.r3c2) - (m.r3c0 * m.r2c2)))))
        == (m.r3c1 * (m.r0c0 * ((m.r2c2 * m.r3c3) - (m.r3c2 * m.r2c3)))) - (m.r3c1 * (m.r0c2 * ((m.r2c0 * m.r3c3) - (m.r3c0 * m.r2c3)))) + (m.r3c1 * (m.r0c3 * ((m.r2c0 * m.r3c2) - (m.r3c0 * m.r2c2))))) by (nonlinear_arith);
    assert((m.r3c1 * (m.r0c0 * ((m.r2c2 * m.r3c3) - (m.r3c2 * m.r2c3))))
        == (m.r3c1 * (m.r0c0 * (m.r2c2 * m.r3c3))) - (m.r3c1 * (m.r0c0 * (m.r3c2 * m.r2c3)))) by (nonlinear_arith);
    assert((m.r3c1 * (m.r0c0 * (m.r2c2 * m.r3c3)))
        == m.r0c0 * m.r2c2 * m.r3c1 * m.r3c3) by (nonlinear_arith);
    assert((m.r3c1 * (m.r0c0 * (m.r3c2 * m.r2c3)))
        == m.r0c0 * m.r2c3 * m.r3c1 * m.r3c2) by (nonlinear_arith);
    assert((m.r3c1 * (m.r0c2 * ((m.r2c0 * m.r3c3) - (m.r3c0 * m.r2c3))))
        == (m.r3c1 * (m.r0c2 * (m.r2c0 * m.r3c3))) - (m.r3c1 * (m.r0c2 * (m.r3c0 * m.r2c3)))) by (nonlinear_arith);
    assert((m.r3c1 * (m.r0c2 * (m.r2c0 * m.r3c3)))
        == m.r0c2 * m.r2c0 * m.r3c1 * m.r3c3) by (nonlinear_arith);
    assert((m.r3c1 * (m.r0c2 * (m.r3c0 * m.r2c3)))
        == m.r0c2 * m.r2c3 * m.r3c0 * m.r3c1) by (nonlinear_arith);
    assert((m.r3c1 * (m.r0c3 * ((m.r2c0 * m.r3c2) - (m.r3c0 * m.r2c2))))
        == (m.r3c1 * (m.r0c3 * (m.r2c0 * m.r3c2))) - (m.r3c1 * (m.r0c3 * (m.r3c0 * m.r2c2)))) by (nonlinear_arith);
    assert((m.r3c1 * (m.r0c3 * (m.r2c0 * m.r3c2)))
        == m.r0c3 * m.r2c0 * m.r3c1 * m.r3c2) by (nonlinear_arith);
    assert((m.r3c1 * (m.r0c3 * (m.r3c0 * m.r2c2)))
        == m.r0c3 * m.r2c2 * m.r3c0 * m.r3c1) by (nonlinear_arith);
    assert((m.r3c2 * ((((-m.r0c0) * ((m.r2c1 * m.r3c3) - (m.r3c1 * m.r2c3))) + (m.r0c1 * ((m.r2c0 * m.r3c3) - (m.r3c0 * m.r2c3)))) - (m.r0c3 * ((m.r2c0 * m.r3c1) - (m.r3c0 * m.r2c1)))))
        == (m.r3c2 * ((-m.r0c0) * ((m.r2c1 * m.r3c3) - (m.r3c1 * m.r2c3)))) + (m.r3c2 * (m.r0c1 * ((m.r2c0 * m.r3c3) - (m.r3c0 * m.r2c3)))) - (m.r3c2 * (m.r0c3 * ((m.r2c0 * m.r3c1) - (m.r3c0 * m.r2c1))))) by (nonlinear_arith);
    assert((m.r3c2 * ((-m.r0c0) * ((m.r2c1 * m.r3c3) - (m.r3c1 * m.r2c3))))
        == 0real - (m.r3c2 * (m.r0c0 * ((m.r2c1 * m.r3c3) - (m.r3c1 * m.r2c3))))) by (nonlinear_arith);
    assert((m.r3c2 * (m.r0c0 * ((m.r2c1 * m.r3c3) - (m.r3c1 * m.r2c3))))
        == (m.r3c2 * (m.r0c0 * (m.r2c1 * m.r3c3))) - (m.r3c2 * (m.r0c0 * (m.r3c1 * m.r2c3)))) by (nonlinear_arith);
    assert((m.r3c2 * (m.r0c0 * (m.r2c1 * m.r3c3)))
        == m.r0c0 * m.r2c1 * m.r3c2 * m.r3c3) by (nonlinear_arith);
    assert((m.r3c2 * (m.r0c0 * (m.r3c1 * m.r2c3)))
        == m.r0c0 * m.r2c3 * m.r3c1 * m.r3c2) by (nonlinear_arith);
    assert((m.r3c2 * (m.r0c1 * ((m.r2c0 * m.r3c3) - (m.r3c0 * m.r2c3))))
        == (m.r3c2 * (m.r0c1 * (m.r2c0 * m.r3c3))) - (m.r3c2 * (m.r0c1 * (m.r3c0 * m.r2c3)))) by (nonlinear_arith);
    assert((m.r3c2 * (m.r0c1 * (m.r2c0 * m.r3c3)))
        == m.r0c1 * m.r2c0 * m.r3c2 * m.r3c3) by (nonlinear_arith);
    assert((m.r3c2 * (m.r0c1 * (m.r3c0 * m.r2c3)))
        == m.r0c1 * m.r2c3 * m.r3c0 * m.r3c2) by (nonlinear_arith);
    assert((m.r3c2 * (m.r0c3 * ((m.r2c0 * m.r3c1) - (m.r3c0 * m.r2c1))))
        == (m.r3c2 * (m.r0c3 * (m.r2c0 * m.r3c1))) - (m.r3c2 * (m.r0c3 * (m.r3c0 * m.r2c1)))) by (nonlinear_arith);
    assert((m.r3c2 * (m.r0c3 * (m.r2c0 * m.r3c1)))
        == m.r0c3 * m.r2c0 * m.r3c1 * m.r3c2) by (nonlinear_arith);
    assert((m.r3c2 * (m.r0c3 * (m.r3c0 * m.r2c1)))
        == m.r0c3 * m.r2c1 * m.r3c0 * m.r3c2) by (nonlinear_arith);
    assert((m.r3c3 * (((m.r0c0 * ((m.r2c1 * m.r3c2) - (m.r3c1 * m.r2c2))) - (m.r0c1 * ((m.r2c0 * m.r3c2) - (m.r3c0 * m.r2c2)))) + (m.r0c2 * ((m.r2c0 * m.r3c1) - (m.r3c0 * m.r2c1)))))
        == (m.r3c3 * (m.r0c0 * ((m.r2c1 * m.r3c2) - (m.r3c1 * m.r2c2)))) - (m.r3c3 * (m.r0c1 * ((m.r2c0 * m.r3c2) - (m.r3c0 * m.r2c2)))) + (m.r3c3 * (m.r0c2 * ((m.r2c0 * m.r3c1) - (m.r3c0 * m.r2c1))))) by (nonlinear_arith);
    assert((m.r3c3 * (m.r0c0 * ((m.r2c1 * m.r3c2) - (m.r3c1 * m.r2c2))))
        == (m.r3c3 * (m.r0c0 * (m.r2c1 * m.r3c2))) - (m.r3c3 * (m.r0c0 * (m.r3c1 * m.r2c2)))) by (nonlinear_arith);
    assert((m.r3c3 * (m.r0c0 * (m.r2c1 * m.r3c2)))
        == m.r0c0 * m.r2c1 * m.r3c2 * m.r3c3) by (nonlinear_arith);
    assert((m.r3c3 * (m.r0c0 * (m.r3c1 * m.r2c2)))
        == m.r0c0 * m.r2c2 * m.r3c1 * m.r3c3) by (nonlinear_arith);
    assert((m.r3c3 * (m.r0c1 * ((m.r2c0 * m.r3c2) - (m.r3c0 * m.r2c2))))
        == (m.r3c3 * (m.r0c1 * (m.r2c0 * m.r3c2))) - (m.r3c3 * (m.r0c1 * (m.r3c0 * m.r2c2)))) by (nonlinear_arith);
    assert((m.r3c3 * (m.r0c1 * (m.r2c0 * m.r3c2)))
        == m.r0c1 * m.r2c0 * m.r3c2 * m.r3c3) by (nonlinear_arith);
    assert((m.r3c3 * (m.r0c1 * (m.r3c0 * m.r2c2)))
        == m.r0c1 * m.r2c2 * m.r3c0 * m.r3c3) by (nonlinear_arith);
    assert((m.r3c3 * (m.r0c2 * ((m.r2c0 * m.r3c1) - (m.r3c0 * m.r2c1))))
        == (m.r3c3 * (m.r0c2 * (m.r2c0 * m.r3c1))) - (m.r3c3 * (m.r0c2 * (m.r3c0 * m.r2c1)))) by (nonlinear_arith);
    assert((m.r3c3 * (m.r0c2 * (m.r2c0 * m.r3c1)))
        == m.r0c2 * m.r2c0 * m.r3c1 * m.r3c3) by (nonlinear_arith);
    assert((m.r3c3 * (m.r0c2 * (m.r3c0 * m.r2c1)))
        == m.r0c2 * m.r2c1 * m.r3c0 * m.r3c3) by (nonlinear_arith);
    assert((0real * ((((((m.r0c0 * m.r1c1) - (m.r1c0 * m.r0c1)) * ((m.r2c2 * m.r3c3) - (m.r3c2 * m.r2c3))) - (((m.r0c0 * m.r1c2) - (m.r1c0 * m.r0c2)) * ((m.r2c1 * m.r3c3) - (m.r3c1 * m.r2c3)))) + (((m.r0c0 * m.r1c3) - (m.r1c0 * m.r0c3)) * ((m.r2c1 * m.r3c2) - (m.r3c1 * m.r2c2)))) + (((((m.r0c1 * m.r1c2) - (m.r1c1 * m.r0c2)) * ((m.r2c0 * m.r3c3) - (m.r3c0 * m.r2c3))) - (((m.r0c1 * m.r1c3) - (m.r1c1 * m.r0c3)) * ((m.r2c0 * m.r3c2) - (m.r3c0 * m.r2c2)))) + (((m.r0c2 * m.r1c3) - (m.r1c2 * m.r0c3)) * ((m.r2c0 * m.r3c1) - (m.r3c0 * m.r2c1))))))
        == (0real * (((m.r0c0 * m.r1c1) - (m.r1c0 * m.r0c1)) * ((m.r2c2 * m.r3c3) - (m.r3c2 * m.r2c3)))) - (0real * (((m.r0c0 * m.r1c2) - (m.r1c0 * m.r0c2)) * ((m.r2c1 * m.r3c3) - (m.r3c1 * m.r2c3)))) + (0real * (((m.r0c0 * m.r1c3) - (m.r1c0 * m.r0c3)) * ((m.r2c1 * m.r3c2) - (m.r3c1 * m.r2c2)))) + (0real * (((m.r0c1 * m.r1c2) - (m.r1c1 * m.r0c2)) * ((m.r2c0 * m.r3c3) - (m.r3c0 * m.r2c3)))) - (0real * (((m.r0c1 * m.r1c3) - (m.r1c1 * m.r0c3)) * ((m.r2c0 * m.r3c2) - (m.r3c0 * m.r2c2)))) + (0real * (((m.r0c2 * m.r1c3) - (m.r1c2 * m.r0c3)) * ((m.r2c0 * m.r3c1) - (m.r3c0 * m.r2c1))))) by (nonlinear_arith);
    assert((0real * (((m.r0c0 * m.r1c1) - (m.r1c0 * m.r0c1)) * ((m.r2c2 * m.r3c3) - (m.r3c2 * m.r2c3))))
        == (0real * ((m.r0c0 * m.r1c1) * ((m.r2c2 * m.r3c3) - (m.r3c2 * m.r2c3)))) - (0real * ((m.r1c0 * m.r0c1) * ((m.r2c2 * m.r3c3) - (m.r3c2 * m.r2c3))))) by (nonlinear_arith);
    assert((0real * ((m.r0c0 * m.r1c1) * ((m.r2c2 * m.r3c3) - (m.r3c2 * m.r2c3))))
        == (0real * ((m.r0c0 * m.r1c1) * (m.r2c2 * m.r3c3))) - (0real * ((m.r0c0 * m.r1c1) * (m.r3c2 * m.r2c3)))) by (nonlinear_arith);
    assert((0real * ((m.r0c0 * m.r1c1) * (m.r2c2 * m.r3c3))) == 0real) by (nonlinear_arith);
    assert((0real * ((m.r0c0 * m.r1c1) * (m.r3c2 * m.r2c3))) == 0real) by (nonlinear_arith);
    assert((0real * ((m.r1c0 * m.r0c1) * ((m.r2c2 * m.r3c3) - (m.r3c2 * m.r2c3))))
        == (0real * ((m.r1c0 * m.r0c1) * (m.r2c2 * m.r3c3))) - (0real * ((m.r1c0 * m.r0c1) * (m.r3c2 * m.r2c3)))) by (nonlinear_arith);
    assert((0real * ((m.r1c0 * m.r0c1) * (m.r2c2 * m.r3c3))) == 0real) by (nonlinear_arith);
    assert((0real * ((m.r1c0 * m.r0c1) * (m.r3c2 * m.r2c3))) == 0real) by (nonlinear_arith);
    assert((0real * (((m.r0c0 * m.r1c2) - (m.r1c0 * m.r0c2)) * ((m.r2c1 * m.r3c3) - (m.r3c1 * m.r2c3))))
        == (0real * ((m.r0c0 * m.r1c2) * ((m.r2c1 * m.r3c3) - (m.r3c1 * m.r2c3)))) - (0real * ((m.r1c0 * m.r0c2) * ((m.r2c1 * m.r3c3) - (m.r3c1 * m.r2c3))))) by (nonlinear_arith);
    assert((0real * ((m.r0c0 * m.r1c2) * ((m.r2c1 * m.r3c3) - (m.r3c1 * m.r2c3))))
        == (0real * ((m.r0c0 * m.r1c2) * (m.r2c1 * m.r3c3))) - (0real * ((m.r0c0 * m.r1c2) * (m.r3c1 * m.r2c3)))) by (nonlinear_arith);
    assert((0real * ((m.r0c0 * m.r1c2) * (m.r2c1 * m.r3c3))) == 0real) by (nonlinear_arith);
    assert((0real * ((m.r0c0 * m.r1c2) * (m.r3c1 * m.r2c3))) == 0real) by (nonlinear_arith);
    assert((0real * ((m.r1c0 * m.r0c2) * ((m.r2c1 * m.r3c3) - (m.r3c1 * m.r2c3))))
        == (0real * ((m.r1c0 * m.r0c2) * (m.r2c1 * m.r3c3))) - (0real * ((m.r1c0 * m.r0c2) * (m.r3c1 * m.r2c3)))) by (nonlinear_arith);
    assert((0real * ((m.r1c0 * m.r0c2) * (m.r2c1 * m.r3c3))) == 0real) by (nonlinear_arith);
    assert((0real * ((m.r1c0 * m.r0c2) * (m.r3c1 * m.r2c3))) == 0real) by (nonlinear_arith);
    assert((0real * (((m.r0c0 * m.r1c3) - (m.r1c0 * m.r0c3)) * ((m.r2c1 * m.r3c2) - (m.r3c1 * m.r2c2))))
        == (0real * ((m.r0c0 * m.r1c3) * ((m.r2c1 * m.r3c2) - (m.r3c1 * m.r2c2)))) - (0real * ((m.r1c0 * m.r0c3) * ((m.r2c1 * m.r3c2) - (m.r3c1 * m.r2c2))))) by (nonlinear_arith);
    assert((0real * ((m.r0c0 * m.r1c3) * ((m.r2c1 * m.r3c2) - (m.r3c1 * m.r2c2))))
        == (0real * ((m.r0c0 * m.r1c3) * (m.r2c1 * m.r3c2))) - (0real * ((m.r0c0 * m.r1c3) * (m.r3c1 * m.r2c2)))) by (nonlinear_arith);
    assert((0real * ((m.r0c0 * m.r1c3) * (m.r2c1 * m.r3c2))) == 0real) by (nonlinear_arith);
    assert((0real * ((m.r0c0 * m.r1c3) * (m.r3c1 * m.r2c2))) == 0real) by (nonlinear_arith);
    assert((0real * ((m.r1c0 * m.r0c3) * ((m.r2c1 * m.r3c2) - (m.r3c1 * m.r2c2))))
        == (0real * ((m.r1c0 * m.r0c3) * (m.r2c1 * m.r3c2))) - (0real * ((m.r1c0 * m.r0c3) * (m.r3c1 * m.r2c2)))) by (nonlinear_arith);
    assert((0real * ((m.r1c0 * m.r0c3) * (m.r2c1 * m.r3c2))) == 0real) by (nonlinear_arith);
    assert((0real * ((m.r1c0 * m.r0c3) * (m.r3c1 * m.r2c2))) == 0real) by (nonlinear_arith);
    assert((0real * (((m.r0c1 * m.r1c2) - (m.r1c1 * m.r0c2)) * ((m.r2c0 * m.r3c3) - (m.r3c0 * m.r2c3))))
        == (0real * ((m.r0c1 * m.r1c2) * ((m.r2c0 * m.r3c3) - (m.r3c0 * m.r2c3)))) - (0real * ((m.r1c1 * m.r0c2) * ((m.r2c0 * m.r3c3) - (m.r3c0 * m.r2c3))))) by (nonlinear_arith);
    assert((0real * ((m.r0c1 * m.r1c2) * ((m.r2c0 * m.r3c3) - (m.r3c0 * m.r2c3))))
        == (0real * ((m.r0c1 * m.r1c2) * (m.r2c0 * m.r3c3))) - (0real * ((m.r0c1 * m.r1c2) * (m.r3c0 * m.r2c3)))) by (nonlinear_arith);
    assert((0real * ((m.r0c1 * m.r1c2) * (m.r2c0 * m.r3c3))) == 0real) by (nonlinear_arith);
    assert((0real * ((m.r0c1 * m.r1c2) * (m.r3c0 * m.r2c3))) == 0real) by (nonlinear_arith);
    assert((0real * ((m.r1c1 * m.r0c2) * ((m.r2c0 * m.r3c3) - (m.r3c0 * m.r2c3))))
        == (0real * ((m.r1c1 * m.r0c2) * (m.r2c0 * m.r3c3))) - (0real * ((m.r1c1 * m.r0c2) * (m.r3c0 * m.r2c3)))) by (nonlinear_arith);
    assert((0real * ((m.r1c1 * m.r0c2) * (m.r2c0 * m.r3c3))) == 0real) by (nonlinear_arith);
    assert((0real * ((m.r1c1 * m.r0c2) * (m.r3c0 * m.r2c3))) == 0real) by (nonlinear_arith);
    assert((0real * (((m.r0c1 * m.r1c3) - (m.r1c1 * m.r0c3)) * ((m.r2c0 * m.r3c2) - (m.r3c0 * m.r2c2))))
        == (0real * ((m.r0c1 * m.r1c3) * ((m.r2c0 * m.r3c2) - (m.r3c0 * m.r2c2)))) - (0real * ((m.r1c1 * m.r0c3) * ((m.r2c0 * m.r3c2) - (m.r3c0 * m.r2c2))))) by (nonlinear_arith);
    assert((0real * ((m.r0c1 * m.r1c3) * ((m.r2c0 * m.r3c2) - (m.r3c0 * m.r2c2))))
        == (0real * ((m.r0c1 * m.r1c3) * (m.r2c0 * m.r3c2))) - (0real * ((m.r0c1 * m.r1c3) * (m.r3c0 * m.r2c2)))) by (nonlinear_arith);
    assert((0real * ((m.r0c1 * m.r1c3) * (m.r2c0 * m.r3c2))) == 0real) by (nonlinear_arith);
    assert((0real * ((m.r0c1 * m.r1c3) * (m.r3c0 * m.r2c2))) == 0real) by (nonlinear_arith);
    assert((0real * ((m.r1c1 * m.r0c3) * ((m.r2c0 * m.r3c2) - (m.r3c0 * m.r2c2))))
        == (0real * ((m.r1c1 * m.r0c3) * (m.r2c0 * m.r3c2))) - (0real * ((m.r1c1 * m.r0c3) * (m.r3c0 * m.r2c2)))) by (nonlinear_arith);
    assert((0real * ((m.r1c1 * m.r0c3) * (m.r2c0 * m.r3c2))) == 0real) by (nonlinear_arith);
    assert((0real * ((m.r1c1 * m.r0c3) * (m.r3c0 * m.r2c2))) == 0real) by (nonlinear_arith);
    assert((0real * (((m.r0c2 * m.r1c3) - (m.r1c2 * m.r0c3)) * ((m.r2c0 * m.r3c1) - (m.r3c0 * m.r2c1))))
        == (0real * ((m.r0c2 * m.r1c3) * ((m.r2c0 * m.r3c1) - (m.r3c0 * m.r2c1)))) - (0real * ((m.r1c2 * m.r0c3) * ((m.r2c0 * m.r3c1) - (m.r3c0 * m.r2c1))))) by (nonlinear_arith);
    assert((0real * ((m.r0c2 * m.r1c3) * ((m.r2c0 * m.r3c1) - (m.r3c0 * m.r2c1))))
        == (0real * ((m.r0c2 * m.r1c3) * (m.r2c0 * m.r3c1))) - (0real * ((m.r0c2 * m.r1c3) * (m.r3c0 * m.r2c1)))) by (nonlinear_arith);
    assert((0real * ((m.r0c2 * m.r1c3) * (m.r2c0 * m.r3c1))) == 0real) by (nonlinear_arith);
    assert((0real * ((m.r0c2 * m.r1c3) * (m.r3c0 * m.r2c1))) == 0real) by (nonlinear_arith);
    assert((0real * ((m.r1c2 * m.r0c3) * ((m.r2c0 * m.r3c1) - (m.r3c0 * m.r2c1))))
        == (0real * ((m.r1c2 * m.r0c3) * (m.r2c0 * m.r3c1))) - (0real * ((m.r1c2 * m.r0c3) * (m.r3c0 * m.r2c1)))) by (nonlinear_arith);
    assert((0real * ((m.r1c2 * m.r0c3) * (m.r2c0 * m.r3c1))) == 0real) by (nonlinear_arith);
    assert((0real * ((m.r1c2 * m.r0c3) * (m.r3c0 * m.r2c1))) == 0real) by (nonlinear_arith);
}

proof fn lemma_real_mat4_times_adjugate_r3c2(m: Mat4Model<real>)
    ensures
        m.times(m.adjugate()).r3c2 == Mat4Model::<real>::identity().times_each(m.determinant()).r3c2,
{
    assert((m.r3c0 * (((m.r3c1 * ((m.r0c2 * m.r1c3) - (m.r1c2 * m.r0c3))) - (m.r3c2 * ((m.r0c1 * m.r1c3) - (m.r1c1 * m.r0c3)))) + (m.r3c3 * ((m.r0c1 * m.r1c2) - (m.r1c1 * m.r0c2)))))
        == (m.r3c0 * (m.r3c1 * ((m.r0c2 * m.r1c3) - (m.r1c2 * m.r0c3)))) - (m.r3c0 * (m.r3c2 * ((m.r0c1 * m.r1c3) - (m.r1c1 * m.r0c3)))) + (m.r3c0 * (m.r3c3 * ((m.r0c1 * m.r1c2) - (m.r1c1 * m.r0c2))))) by (nonlinear_arith);
    assert((m.r3c0 * (m.r3c1 * ((m.r0c2 * m.r1c3) - (m.r1c2 * m.r0c3))))
        == (m.r3c0 * (m.r3c1 * (m.r0c2 * m.r1c3))) - (m.r3c0 * (m.r3c1 * (m.r1c2 * m.r0c3)))) by (nonlinear_arith);
    assert((m.r3c0 * (m.r3c1 * (m.r0c2 * m.r1c3)))
        == m.r0c2 * m.r1c3 * m.r3c0 * m.r3c1) by (nonlinear_arith);
    assert((m.r3c0 * (m.r3c1 * (m.r1c2 * m.r0c3)))
        == m.r0c3 * m.r1c2 * m.r3c0 * m.r3c1) by (nonlinear_arith);
    assert((m.r3c0 * (m.r3c2 * ((m.r0c1 * m.r1c3) - (m.r1c1 * m.r0c3))))
        == (m.r3c0 * (m.r3c2 * (m.r0c1 * m.r1c3))) - (m.r3c0 * (m.r3c2 * (m.r1c1 * m.r0c3)))) by (nonlinear_arith);
    assert((m.r3c0 * (m.r3c2 * (m.r0c1 * m.r1c3)))
        == m.r0c1 * m.r1c3 * m.r3c0 * m.r3c2) by (nonlinear_arith);
    assert((m.r3c0 * (m.r3c2 * (m.r1c1 * m.r0c3)))
        == m.r0c3 * m.r1c1 * m.r3c0 * m.r3c2) by (nonlinear_arith);
    assert((m.r3c0 * (m.r3c3 * ((m.r0c1 * m.r1c2) - (m.r1c1 * m.r0c2))))
        == (m.r3c0 * (m.r3c3 * (m.r0c1 * m.r1c2))) - (m.r3c0 * (m.r3c3 * (m.r1c1 * m.r0c2)))) by (nonlinear_arith);
    assert((m.r3c0 * (m.r3c3 * (m.r0c1 * m.r1c2)))
        == m.r0c1 * m.r1c2 * m.r3c0 * m.r3c3) by (nonlinear_arith);
    assert((m.r3c0 * (m.r3c3 * (m.r1c1 * m.r0c2)))
        == m.r0c2 * m.r1c1 * m.r3c0 * m.r3c3) by (nonlinear_arith);
    assert((m.r3c1 * ((((-m.r3c0) * ((m.r0c2 * m.r1c3) - (m.r1c2 * m.r0c3))) + (m.r3c2 * ((m.r0c0 * m.r1c3) - (m.r1c0 * m.r0c3)))) - (m.r3c3 * ((m.r0c0 * m.r1c2) - (m.r1c0 * m.r0c2)))))
        == (m.r3c1 * ((-m.r3c0) * ((m.r0c2 * m.r1c3) - (m.r1c2 * m.r0c3)))) + (m.r3c1 * (m.r3c2 * ((m.r0c0 * m.r1c3) - (m.r1c0 * m.r0c3)))) - (m.r3c1 * (m.r3c3 * ((m.r0c0 * m.r1c2) - (m.r1c0 * m.r0c2))))) by (nonlinear_arith);
    assert((m.r3c1 * ((-m.r3c0) * ((m.r0c2 * m.r1c3) - (m.r1c2 * m.r0c3))))
        == 0real - (m.r3c1 * (m.r3c0 * ((m.r0c2 * m.r1c3) - (m.r1c2 * m.r0c3))))) by (nonlinear_arith);
    assert((m.r3c1 * (m.r3c0 * ((m.r0c2 * m.r1c3) - (m.r1c2 * m.r0c3))))
        == (m.r3c1 * (m.r3c0 * (m.r0c2 * m.r1c3))) - (m.r3c1 * (m.r3c0 * (m.r1c2 * m.r0c3)))) by (nonlinear_arith);
    assert((m.r3c1 * (m.r3c0 * (m.r0c2 * m.r1c3)))
        == m.r0c2 * m.r1c3 * m.r3c0 * m.r3c1) by (nonlinear_arith);
    assert((m.r3c1 * (m.r3c0 * (m.r1c2 * m.r0c3)))
        == m.r0c3 * m.r1c2 * m.r3c0 * m.r3c1) by (nonlinear_arith);
    assert((m.r3c1 * (m.r3c2 * ((m.r0c0 * m.r1c3) - (m.r1c0 * m.r0c3))))
        == (m.r3c1 * (m.r3c2 * (m.r0c0 * m.r1c3))) - (m.r3c1 * (m.r3c2 * (m.r1c0 * m.r0c3)))) by (nonlinear_arith);
    assert((m.r3c1 * (m.r3c2 * (m.r0c0 * m.r1c3)))
        == m.r0c0 * m.r1c3 * m.r3c1 * m.r3c2) by (nonlinear_arith);
    assert((m.r3c1 * (m.r3c2 * (m.r1c0 * m.r0c3)))
        == m.r0c3 * m.r1c0 * m.r3c1 * m.r3c2) by (nonlinear_arith);
    assert((m.r3c1 * (m.r3c3 * ((m.r0c0 * m.r1c2) - (m.r1c0 * m.r0c2))))
        == (m.r3c1 * (m.r3c3 * (m.r0c0 * m.r1c2))) - (m.r3c1 * (m.r3c3 * (m.r1c0 * m.r0c2)))) by (nonlinear_arith);
    assert((m.r3c1 * (m.r3c3 * (m.r0c0 * m.r1c2)))
        == m.r0c0 * m.r1c2 * m.r3c1 * m.r3c3) by (nonlinear_arith);
    assert((m.r3c1 * (m.r3c3 * (m.r1c0 * m.r0c2)))
        == m.r0c2 * m.r1c0 * m.r3c1 * m.r3c3) by (nonlinear_arith);
    assert((m.r3c2 * (((m.r3c0 * ((m.r0c1 * m.r1c3) - (m.r1c1 * m.r0c3))) - (m.r3c1 * ((m.r0c0 * m.r1c3) - (m.r1c0 * m.r0c3)))) + (m.r3c3 * ((m.r0c0 * m.r1c1) - (m.r1c0 * m.r0c1)))))
        == (m.r3c2 * (m.r3c0 * ((m.r0c1 * m.r1c3) - (m.r1c1 * m.r0c3)))) - (m.r3c2 * (m.r3c1 * ((m.r0c0 * m.r1c3) - (m.r1c0 * m.r0c3)))) + (m.r3c2 * (m.r3c3 * ((m.r0c0 * m.r1c1) - (m.r1c0 * m.r0c1))))) by (nonlinear_arith);
    assert((m.r3c2 * (m.r3c0 * ((m.r0c1 * m.r1c3) - (m.r1c1 * m.r0c3))))
        == (m.r3c2 * (m.r3c0 * (m.r0c1 * m.r1c3))) - (m.r3c2 * (m.r3c0 * (m.r1c1 * m.r0c3)))) by (nonlinear_arith);
    assert((m.r3c2 * (m.r3c0 * (m.r0c1 * m.r1c3)))
        == m.r0c1 * m.r1c3 * m.r3c0 * m.r3c2) by (nonlinear_arith);
    assert((m.r3c2 * (m.r3c0 * (m.r1c1 * m.r0c3)))
        == m.r0c3 * m.r1c1 * m.r3c0 * m.r3c2) by (nonlinear_arith);
    assert((m.r3c2 * (m.r3c1 * ((m.r0c0 * m.r1c3) - (m.r1c0 * m.r0c3))))
        == (m.r3c2 * (m.r3c1 * (m.r0c0 * m.r1c3))) - (m.r3c2 * (m.r3c1 * (m.r1c0 * m.r0c3)))) by (nonlinear_arith);
    assert((m.r3c2 * (m.r3c1 * (m.r0c0 * m.r1c3)))
        == m.r0c0 * m.r1c3 * m.r3c1 * m.r3c2) by (nonlinear_arith);
    assert((m.r3c2 * (m.r3c1 * (m.r1c0 * m.r0c3)))
        == m.r0c3 * m.r1c0 * m.r3c1 * m.r3c2) by (nonlinear_arith);
    assert((m.r3c2 * (m.r3c3 * ((m.r0c0 * m.r1c1) - (m.r1c0 * m.r0c1))))
        == (m.r3c2 * (m.r3c3 * (m.r0c0 * m.r1c1))) - (m.r3c2 * (m.r3c3 * (m.r1c0 * m.r0c1)))) by (nonlinear_arith);
    assert((m.r3c2 * (m.r3c3 * (m.r0c0 * m.r1c1)))
        == m.r0c0 * m.r1c1 * m.r3c2 * m.r3c3) by (nonlinear_arith);
    assert((m.r3c2 * (m.r3c3 * (m.r1c0 * m.r0c1)))
        == m.r0c1 * m.r1c0 * m.r3c2 * m.r3c3) by (nonlinear_arith);
    assert((m.r3c3 * ((((-m.r3c0) * ((m.r0c1 * m.r1c2) - (m.r1c1 * m.r0c2))) + (m.r3c1 * ((m.r0c0 * m.r1c2) - (m.r1c0 * m.r0c2)))) - (m.r3c2 * ((m.r0c0 * m.r1c1) - (m.r1c0 * m.r0c1)))))
        == (m.r3c3 * ((-m.r3c0) * ((m.r0c1 * m.r1c2) - (m.r1c1 * m.r0c2)))) + (m.r3c3 * (m.r3c1 * ((m.r0c0 * m.r1c2) - (m.r1c0 * m.r0c2)))) - (m.r3c3 * (m.r3c2 * ((m.r0c0 * m.r1c1) - (m.r1c0 * m.r0c1))))) by (nonlinear_arith);
    assert((m.r3c3 * ((-m.r3c0) * ((m.r0c1 * m.r1c2) - (m.r1c1 * m.r0c2))))
        == 0real - (m.r3c3 * (m.r3c0 * ((m.r0c1 * m.r1c2) - (m.r1c1 * m.r0c2))))) by (nonlinear_arith);
    assert((m.r3c3 * (m.r3c0 * ((m.r0c1 * m.r1c2) - (m.r1c1 * m.r0c2))))
        == (m.r3c3 * (m.r3c0 * (m.r0c1 * m.r1c2))) - (m.r3c3 * (m.r3c0 * (m.r1c1 * m.r0c2)))) by (nonlinear_arith);
    assert((m.r3c3 * (m.r3c0 * (m.r0c1 * m.r1c2)))
        == m.r0c1 * m.r1c2 * m.r3c0 * m.r3c3) by (nonlinear_arith);
    assert((m.r3c3 * (m.r3c0 * (m.r1c1 * m.r0c2)))
        == m.r0c2 * m.r1c1 * m.r3c0 * m.r3c3) by (nonlinear_arith);
    assert((m.r3c3 * (m.r3c1 * ((m.r0c0 * m.r1c2) - (m.r1c0 * m.r0c2))))
        == (m.r3c3 * (m.r3c1 * (m.r0c0 * m.r1c2))) - (m.r3c3 * (m.r3c1 * (m.r1c0 * m.r0c2)))) by (nonlinear_arith);
    assert((m.r3c3 * (m.r3c1 * (m.r0c0 * m.r1c2)))
        == m.r0c0 * m.r1c2 * m.r3c1 * m.r3c3) by (nonlinear_arith);
    assert((m.r3c3 * (m.r3c1 * (m.r1c0 * m.r0c2)))
        == m.r0c2 * m.r1c0 * m.r3c1 * m.r3c3) by (nonlinear_arith);
    assert((m.r3c3 * (m.r3c2 * ((m.r0c0 * m.r1c1) - (m.r1c0 * m.r0c1))))
        == (m.r3c3 * (m.r3c2 * (m.r0c0 * m.r1c1))) - (m.r3c3 * (m.r3c2 * (m.r1c0 * m.r0c1)))) by (nonlinear_arith);
    assert((m.r3c3 * (m.r3c2 * (m.r0c0 * m.r1c1)))
        == m.r0c0 * m.r1c1 * m.r3c2 * m.r3c3) by (nonlinear_arith);
    assert((m.r3c3 * (m.r3c2 * (m.r1c0 * m.r0c1)))
        == m.r0c1 * m.r1c0 * m.r3c2 * m.r3c3) by (nonlinear_arith);
    assert((0real * ((((((m.r0c0 * m.r1c1) - (m.r1c0 * m.r0c1)) * ((m.r2c2 * m.r3c3) - (m.r3c2 * m.r2c3))) - (((m.r0c0 * m.r1c2) - (m.r1c0 * m.r0c2)) * ((m.r2c1 * m.r3c3) - (m.r3c1 * m.r2c3)))) + (((m.r0c0 * m.r1c3) - (m.r1c0 * m.r0c3)) * ((m.r2c1 * m.r3c2) - (m.r3c1 * m.r2c2)))) + (((((m.r0c1 * m.r1c2) - (m.r1c1 * m.r0c2)) * ((m.r2c0 * m.r3c3) - (m.r3c0 * m.r2c3))) - (((m.r0c1 * m.r1c3) - (m.r1c1 * m.r0c3)) * ((m.r2c0 * m.r3c2) - (m.r3c0 * m.r2c2)))) + (((m.r0c2 * m.r1c3) - (m.r1c2 * m.r0c3)) * ((m.r2c0 * m.r3c1) - (m.r3c0 * m.r2c1))))))
        == (0real * (((m.r0c0 * m.r1c1) - (m.r1c0 * m.r0c1)) * ((m.r2c2 * m.r3c3) - (m.r3c2 * m.r2c3)))) - (0real * (((m.r0c0 * m.r1c2) - (m.r1c0 * m.r0c2)) * ((m.r2c1 * m.r3c3) - (m.r3c1 * m.r2c3)))) + (0real * (((m.r0c0 * m.r1c3) - (m.r1c0 * m.r0c3)) * ((m.r2c1 * m.r3c2) - (m.r3c1 * m.r2c2)))) + (0real * (((m.r0c1 * m.r1c2) - (m.r1c1 * m.r0c2)) * ((m.r2c0 * m.r3c3) - (m.r3c0 * m.r2c3)))) - (0real * (((m.r0c1 * m.r1c3) - (m.r1c1 * m.r0c3)) * ((m.r2c0 * m.r3c2) - (m.r3c0 * m.r2c2)))) + (0real * (((m.r0c2 * m.r1c3) - (m.r1c2 * m.r0c3)) * ((m.r2c0 * m.r3c1) - (m.r3c0 * m.r2c1))))) by (nonlinear_arith);
    assert((0real * (((m.r0c0 * m.r1c1) - (m.r1c0 * m.r0c1)) * ((m.r2c2 * m.r3c3) - (m.r3c2 * m.r2c3))))
        == (0real * ((m.r0c0 * m.r1c1) * ((m.r2c2 * m.r3c3) - (m.r3c2 * m.r2c3)))) - (0real * ((m.r1c0 * m.r0c1) * ((m.r2c2 * m.r3c3) - (m.r3c2 * m.r2c3))))) by (nonlinear_arith);
    assert((0real * ((m.r0c0 * m.r1c1) * ((m.r2c2 * m.r3c3) - (m.r3c2 * m.r2c3))))
        == (0real * ((m.r0c0 * m.r1c1) * (m.r2c2 * m.r3c3))) - (0real * ((m.r0c0 * m.r1c1) * (m.r3c2 * m.r2c3)))) by (nonlinear_arith);
    assert((0real * ((m.r0c0 * m.r1c1) * (m.r2c2 * m.r3c3))) == 0real) by (nonlinear_arith);
    assert((0real * ((m.r0c0 * m.r1c1) * (m.r3c2 * m.r2c3))) == 0real) by (nonlinear_arith);
    assert((0real * ((m.r1c0 * m.r0c1) * ((m.r2c2 * m.r3c3) - (m.r3c2 * m.r2c3))))
        == (0real * ((m.r1c0 * m.r0c1) * (m.r2c2 * m.r3c3))) - (0real * ((m.r1c0 * m.r0c1) * (m.r3c2 * m.r2c3)))) by (nonlinear_arith);
    assert((0real * ((m.r1c0 * m.r0c1) * (m.r2c2 * m.r3c3))) == 0real) by (nonlinear_arith);
    assert((0real * ((m.r1c0 * m.r0c1) * (m.r3c2 * m.r2c3))) == 0real) by (nonlinear_arith);
    assert((0real * (((m.r0c0 * m.r1c2) - (m.r1c0 * m.r0c2)) * ((m.r2c1 * m.r3c3) - (m.r3c1 * m.r2c3))))
        == (0real * ((m.r0c0 * m.r1c2) * ((m.r2c1 * m.r3c3) - (m.r3c1 * m.r2c3)))) - (0real * ((m.r1c0 * m.r0c2) * ((m.r2c1 * m.r3c3) - (m.r3c1 * m.r2c3))))) by (nonlinear_arith);
    assert((0real * ((m.r0c0 * m.r1c2) * ((m.r2c1 * m.r3c3) - (m.r3c1 * m.r2c3))))
        == (0real * ((m.r0c0 * m.r1c2) * (m.r2c1 * m.r3c3))) - (0real * ((m.r0c0 * m.r1c2) * (m.r3c1 * m.r2c3)))) by (nonlinear_arith);
    assert((0real * ((m.r0c0 * m.r1c2) * (m.r2c1 * m.r3c3))) == 0real) by (nonlinear_arith);
    assert((0real * ((m.r0c0 * m.r1c2) * (m.r3c1 * m.r2c3))) == 0real) by (nonlinear_arith);
    assert((0real * ((m.r1c0 * m.r0c2) * ((m.r2c1 * m.r3c3) - (m.r3c1 * m.r2c3))))
        == (0real * ((m.r1c0 * m.r0c2) * (m.r2c1 * m.r3c3))) - (0real * ((m.r1c0 * m.r0c2) * (m.r3c1 * m.r2c3)))) by (nonlinear_arith);
    assert((0real * ((m.r1c0 * m.r0c2) * (m.r2c1 * m.r3c3))) == 0real) by (nonlinear_arith);
    assert((0real * ((m.r1c0 * m.r0c2) * (m.r3c1 * m.r2c3))) == 0real) by (nonlinear_arith);
    assert((0real * (((m.r0c0 * m.r1c3) - (m.r1c0 * m.r0c3)) * ((m.r2c1 * m.r3c2) - (m.r3c1 * m.r2c2))))
        == (0real * ((m.r0c0 * m.r1c3) * ((m.r2c1 * m.r3c2) - (m.r3c1 * m.r2c2)))) - (0real * ((m.r1c0 * m.r0c3) * ((m.r2c1 * m.r3c2) - (m.r3c1 * m.r2c2))))) by (nonlinear_arith);
    assert((0real * ((m.r0c0 * m.r1c3) * ((m.r2c1 * m.r3c2) - (m.r3c1 * m.r2c2))))
        == (0real * ((m.r0c0 * m.r1c3) * (m.r2c1 * m.r3c2))) - (0real * ((m.r0c0 * m.r1c3) * (m.r3c1 * m.r2c2)))) by (nonlinear_arith);
    assert((0real * ((m.r0c0 * m.r1c3) * (m.r2c1 * m.r3c2))) == 0real) by (nonlinear_arith);
    assert((0real * ((m.r0c0 * m.r1c3) * (m.r3c1 * m.r2c2))) == 0real) by (nonlinear_arith);
    assert((0real * ((m.r1c0 * m.r0c3) * ((m.r2c1 * m.r3c2) - (m.r3c1 * m.r2c2))))
        == (0real * ((m.r1c0 * m.r0c3) * (m.r2c1 * m.r3c2))) - (0real * ((m.r1c0 * m.r0c3) * (m.r3c1 * m.r2c2)))) by (nonlinear_arith);
    assert((0real * ((m.r1c0 * m.r0c3) * (m.r2c1 * m.r3c2))) == 0real) by (nonlinear_arith);
    assert((0real * ((m.r1c0 * m.r0c3) * (m.r3c1 * m.r2c2))) == 0real) by (nonlinear_arith);
    assert((0real * (((m.r0c1 * m.r1c2) - (m.r1c1 * m.r0c2)) * ((m.r2c0 * m.r3c3) - (m.r3c0 * m.r2c3))))
        == (0real * ((m.r0c1 * m.r1c2) * ((m.r2c0 * m.r3c3) - (m.r3c0 * m.r2c3)))) - (0real * ((m.r1c1 * m.r0c2) * ((m.r2c0 * m.r3c3) - (m.r3c0 * m.r2c3))))) by (nonlinear_arith);
    assert((0real * ((m.r0c1 * m.r1c2) * ((m.r2c0 * m.r3c3) - (m.r3c0 * m.r2c3))))
        == (0real * ((m.r0c1 * m.r1c2) * (m.r2c0 * m.r3c3))) - (0real * ((m.r0c1 * m.r1c2) * (m.r3c0 * m.r2c3)))) by (nonlinear_arith);
    assert((0real * ((m.r0c1 * m.r1c2) * (m.r2c0 * m.r3c3))) == 0real) by (nonlinear_arith);
    assert((0real * ((m.r0c1 * m.r1c2) * (m.r3c0 * m.r2c3))) == 0real) by (nonlinear_arith);
    assert((0real * ((m.r1c1 * m.r0c2) * ((m.r2c0 * m.r3c3) - (m.r3c0 * m.r2c3))))
        == (0real * ((m.r1c1 * m.r0c2) * (m.r2c0 * m.r3c3))) - (0real * ((m.r1c1 * m.r0c2) * (m.r3c0 * m.r2c3)))) by (nonlinear_arith);
    assert((0real * ((m.r1c1 * m.r0c2) * (m.r2c0 * m.r3c3))) == 0real) by (nonlinear_arith);
    assert((0real * ((m.r1c1 * m.r0c2) * (m.r3c0 * m.r2c3))) == 0real) by (nonlinear_arith);
    assert((0real * (((m.r0c1 * m.r1c3) - (m.r1c1 * m.r0c3)) * ((m.r2c0 * m.r3c2) - (m.r3c0 * m.r2c2))))
        == (0real * ((m.r0c1 * m.r1c3) * ((m.r2c0 * m.r3c2) - (m.r3c0 * m.r2c2)))) - (0real * ((m.r1c1 * m.r0c3) * ((m.r2c0 * m.r3c2) - (m.r3c0 * m.r2c2))))) by (nonlinear_arith);
    assert((0real * ((m.r0c1 * m.r1c3) * ((m.r2c0 * m.r3c2) - (m.r3c0 * m.r2c2))))
        == (0real * ((m.r0c1 * m.r1c3) * (m.r2c0 * m.r3c2))) - (0real * ((m.r0c1 * m.r1c3) * (m.r3c0 * m.r2c2)))) by (nonlinear_arith);
    assert((0real * ((m.r0c1 * m.r1c3) * (m.r2c0 * m.r3c2))) == 0real) by (nonlinear_arith);
    assert((0real * ((m.r0c1 * m.r1c3) * (m.r3c0 * m.r2c2))) == 0real) by (nonlinear_arith);
    assert((0real * ((m.r1c1 * m.r0c3) * ((m.r2c0 * m.r3c2) - (m.r3c0 * m.r2c2))))
        == (0real * ((m.r1c1 * m.r0c3) * (m.r2c0 * m.r3c2))) - (0real * ((m.r1c1 * m.r0c3) * (m.r3c0 * m.r2c2)))) by (nonlinear_arith);
    assert((0real * ((m.r1c1 * m.r0c3) * (m.r2c0 * m.r3c2))) == 0real) by (nonlinear_arith);
    assert((0real * ((m.r1c1 * m.r0c3) * (m.r3c0 * m.r2c2))) == 0real) by (nonlinear_arith);
    assert((0real * (((m.r0c2 * m.r1c3) - (m.r1c2 * m.r0c3)) * ((m.r2c0 * m.r3c1) - (m.r3c0 * m.r2c1))))
        == (0real * ((m.r0c2 * m.r1c3) * ((m.r2c0 * m.r3c1) - (m.r3c0 * m.r2c1)))) - (0real * ((m.r1c2 * m.r0c3) * ((m.r2c0 * m.r3c1) - (m.r3c0 * m.r2c1))))) by (nonlinear_arith);
    assert((0real * ((m.r0c2 * m.r1c3) * ((m.r2c0 * m.r3c1) - (m.r3c0 * m.r2c1))))
        == (0real * ((m.r0c2 * m.r1c3) * (m.r2c0 * m.r3c1))) - (0real * ((m.r0c2 * m.r1c3) * (m.r3c0 * m.r2c1)))) by (nonlinear_arith);
    assert((0real * ((m.r0c2 * m.r1c3) * (m.r2c0 * m.r3c1))) == 0real) by (nonlinear_arith);
    assert((0real * ((m.r0c2 * m.r1c3) * (m.r3c0 * m.r2c1))) == 0real) by (nonlinear_arith);
    assert((0real * ((m.r1c2 * m.r0c3) * ((m.r2c0 * m.r3c1) - (m.r3c0 * m.r2c1))))
        == (0real * ((m.r1c2 * m.r0c3) * (m.r2c0 * m.r3c1))) - (0real * ((m.r1c2 * m.r0c3) * (m.r3c0 * m.r2c1)))) by (nonlinear_arith);
    assert((0real * ((m.r1c2 * m.r0c3) * (m.r2c0 * m.r3c1))) == 0real) by (nonlinear_arith);
    assert((0real * ((m.r1c2 * m.r0c3) * (m.r3c0 * m.r2c1))) == 0real) by (nonlinear_arith);
}

proof fn lemma_real_mat4_times_adjugate_r3c3(m: Mat4Model<real>)
    ensures
        m.times(m.adjugate()).r3c3 == Mat4Model::<real>::identity().times_each(m.determinant()).r3c3,
{
    assert((m.r3c0 * ((((-m.r2c1) * ((m.r0c2 * m.r1c3) - (m.r1c2 * m.r0c3))) + (m.r2c2 * ((m.r0c1 * m.r1c3) - (m.r1c1 * m.r0c3)))) - (m.r2c3 * ((m.r0c1 * m.r1c2) - (m.r1c1 * m.r0c2)))))
        == (m.r3c0 * ((-m.r2c1) * ((m.r0c2 * m.r1c3) - (m.r1c2 * m.r0c3)))) + (m.r3c0 * (m.r2c2 * ((m.r0c1 * m.r1c3) - (m.r1c1 * m.r0c3)))) - (m.r3c0 * (m.r2c3 * ((m.r0c1 * m.r1c2) - (m.r1c1 * m.r0c2))))) by (nonlinear_arith);
    assert((m.r3c0 * ((-m.r2c1) * ((m.r0c2 * m.r1c3) - (m.r1c2 * m.r0c3))))
        == 0real - (m.r3c0 * (m.r2c1 * ((m.r0c2 * m.r1c3) - (m.r1c2 * m.r0c3))))) by (nonlinear_arith);
    assert((m.r3c0 * (m.r2c1 * ((m.r0c2 * m.r1c3) - (m.r1c2 * m.r0c3))))
        == (m.r3c0 * (m.r2c1 * (m.r0c2 * m.r1c3))) - (m.r3c0 * (m.r2c1 * (m.r1c2 * m.r0c3)))) by (nonlinear_arith);
    assert((m.r3c0 * (m.r2c1 * (m.r0c2 * m.r1c3)))
        == m.r0c2 * m.r1c3 * m.r2c1 * m.r3c0) by (nonlinear_arith);
    assert((m.r3c0 * (m.r2c1 * (m.r1c2 * m.r0c3)))
        == m.r0c3 * m.r1c2 * m.r2c1 * m.r3c0) by (nonlinear_arith);
    assert((m.r3c0 * (m.r2c2 * ((m.r0c1 * m.r1c3) - (m.r1c1 * m.r0c3))))
        == (m.r3c0 * (m.r2c2 * (m.r0c1 * m.r1c3))) - (m.r3c0 * (m.r2c2 * (m.r1c1 * m.r0c3)))) by (nonlinear_arith);
    assert((m.r3c0 * (m.r2c2 * (m.r0c1 * m.r1c3)))
        == m.r0c1 * m.r1c3 * m.r2c2 * m.r3c0) by (nonlinear_arith);
    assert((m.r3c0 * (m.r2c2 * (m.r1c1 * m.r0c3)))
        == m.r0c3 * m.r1c1 * m.r2c2 * m.r3c0) by (nonlinear_arith);
    assert((m.r3c0 * (m.r2c3 * ((m.r0c1 * m.r1c2) - (m.r1c1 * m.r0c2))))
        == (m.r3c0 * (m.r2c3 * (m.r0c1 * m.r1c2))) - (m.r3c0 * (m.r2c3 * (m.r1c1 * m.r0c2)))) by (nonlinear_arith);
    assert((m.r3c0 * (m.r2c3 * (m.r0c1 * m.r1c2)))
        == m.r0c1 * m.r1c2 * m.r2c3 * m.r3c0) by (nonlinear_arith);
    assert((m.r3c0 * (m.r2c3 * (m.r1c1 * m.r0c2)))
        == m.r0c2 * m.r1c1 * m.r2c3 * m.r3c0) by (nonlinear_arith);
    assert((m.r3c1 * (((m.r2c0 * ((m.r0c2 * m.r1c3) - (m.r1c2 * m.r0c3))) - (m.r2c2 * ((m.r0c0 * m.r1c3) - (m.r1c0 * m.r0c3)))) + (m.r2c3 * ((m.r0c0 * m.r1c2) - (m.r1c0 * m.r0c2)))))
        == (m.r3c1 * (m.r2c0 * ((m.r0c2 * m.r1c3) - (m.r1c2 * m.r0c3)))) - (m.r3c1 * (m.r2c2 * ((m.r0c0 * m.r1c3) - (m.r1c0 * m.r0c3)))) + (m.r3c1 * (m.r2c3 * ((m.r0c0 * m.r1c2) - (m.r1c0 * m.r0c2))))) by (nonlinear_arith);
    assert((m.r3c1 * (m.r2c0 * ((m.r0c2 * m.r1c3) - (m.r1c2 * m.r0c3))))
        == (m.r3c1 * (m.r2c0 * (m.r0c2 * m.r1c3))) - (m.r3c1 * (m.r2c0 * (m.r1c2 * m.r0c3)))) by (nonlinear_arith);
    assert((m.r3c1 * (m.r2c0 * (m.r0c2 * m.r1c3)))
        == m.r0c2 * m.r1c3 * m.r2c0 * m.r3c1) by (nonlinear_arith);
    assert((m.r3c1 * (m.r2c0 * (m.r1c2 * m.r0c3)))
        == m.r0c3 * m.r1c2 * m.r2c0 * m.r3c1) by (nonlinear_arith);
    assert((m.r3c1 * (m.r2c2 * ((m.r0c0 * m.r1c3) - (m.r1c0 * m.r0c3))))
        == (m.r3c1 * (m.r2c2 * (m.r0c0 * m.r1c3))) - (m.r3c1 * (m.r2c2 * (m.r1c0 * m.r0c3)))) by (nonlinear_arith);
    assert((m.r3c1 * (m.r2c2 * (m.r0c0 * m.r1c3)))
        == m.r0c0 * m.r1c3 * m.r2c2 * m.r3c1) by (nonlinear_arith);
    assert((m.r3c1 * (m.r2c2 * (m.r1c0 * m.r0c3)))
        == m.r0c3 * m.r1c0 * m.r2c2 * m.r3c1) by (nonlinear_arith);
    assert((m.r3c1 * (m.r2c3 * ((m.r0c0 * m.r1c2) - (m.r1c0 * m.r0c2))))
        == (m.r3c1 * (m.r2c3 * (m.r0c0 * m.r1c2))) - (m.r3c1 * (m.r2c3 * (m.r1c0 * m.r0c2)))) by (nonlinear_arith);
    assert((m.r3c1 * (m.r2c3 * (m.r0c0 * m.r1c2)))
        == m.r0c0 * m.r1c2 * m.r2c3 * m.r3c1) by (nonlinear_arith);
    assert((m.r3c1 * (m.r2c3 * (m.r1c0 * m.r0c2)))
        == m.r0c2 * m.r1c0 * m.r2c3 * m.r3c1) by (nonlinear_arith);
    assert((m.r3c2 * ((((-m.r2c0) * ((m.r0c1 * m.r1c3) - (m.r1c1 * m.r0c3))) + (m.r2c1 * ((m.r0c0 * m.r1c3) - (m.r1c0 * m.r0c3)))) - (m.r2c3 * ((m.r0c0 * m.r1c1) - (m.r1c0 * m.r0c1)))))
        == (m.r3c2 * ((-m.r2c0) * ((m.r0c1 * m.r1c3) - (m.r1c1 * m.r0c3)))) + (m.r3c2 * (m.r2c1 * ((m.r0c0 * m.r1c3) - (m.r1c0 * m.r0c3)))) - (m.r3c2 * (m.r2c3 * ((m.r0c0 * m.r1c1) - (m.r1c0 * m.r0c1))))) by (nonlinear_arith);
    assert((m.r3c2 * ((-m.r2c0) * ((m.r0c1 * m.r1c3) - (m.r1c1 * m.r0c3))))
        == 0real - (m.r3c2 * (m.r2c0 * ((m.r0c1 * m.r1c3) - (m.r1c1 * m.r0c3))))) by (nonlinear_arith);
    assert((m.r3c2 * (m.r2c0 * ((m.r0c1 * m.r1c3) - (m.r1c1 * m.r0c3))))
        == (m.r3c2 * (m.r2c0 * (m.r0c1 * m.r1c3))) - (m.r3c2 * (m.r2c0 * (m.r1c1 * m.r0c3)))) by (nonlinear_arith);
    assert((m.r3c2 * (m.r2c0 * (m.r0c1 * m.r1c3)))
        == m.r0c1 * m.r1c3 * m.r2c0 * m.r3c2) by (nonlinear_arith);
    assert((m.r3c2 * (m.r2c0 * (m.r1c1 * m.r0c3)))
        == m.r0c3 * m.r1c1 * m.r2c0 * m.r3c2) by (nonlinear_arith);
    assert((m.r3c2 * (m.r2c1 * ((m.r0c0 * m.r1c3) - (m.r1c0 * m.r0c3))))
        == (m.r3c2 * (m.r2c1 * (m.r0c0 * m.r1c3))) - (m.r3c2 * (m.r2c1 * (m.r1c0 * m.r0c3)))) by (nonlinear_arith);
    assert((m.r3c2 * (m.r2c1 * (m.r0c0 * m.r1c3)))
        == m.r0c0 * m.r1c3 * m.r2c1 * m.r3c2) by (nonlinear_arith);
    assert((m.r3c2 * (m.r2c1 * (m.r1c0 * m.r0c3)))
        == m.r0c3 * m.r1c0 * m.r2c1 * m.r3c2) by (nonlinear_arith);
    assert((m.r3c2 * (m.r2c3 * ((m.r0c0 * m.r1c1) - (m.r1c0 * m.r0c1))))
        == (m.r3c2 * (m.r2c3 * (m.r0c0 * m.r1c1))) - (m.r3c2 * (m.r2c3 * (m.r1c0 * m.r0c1)))) by (nonlinear_arith);
    assert((m.r3c2 * (m.r2c3 * (m.r0c0 * m.r1c1)))
        == m.r0c0 * m.r1c1 * m.r2c3 * m.r3c2) by (nonlinear_arith);
    assert((m.r3c2 * (m.r2c3 * (m.r1c0 * m.r0c1)))
        == m.r0c1 * m.r1c0 * m.r2c3 * m.r3c2) by (nonlinear_arith);
    assert((m.r3c3 * (((m.r2c0 * ((m.r0c1 * m.r1c2) - (m.r1c1 * m.r0c2))) - (m.r2c1 * ((m.r0c0 * m.r1c2) - (m.r1c0 * m.r0c2)))) + (m.r2c2 * ((m.r0c0 * m.r1c1) - (m.r1c0 * m.r0c1)))))
        == (m.r3c3 * (m.r2c0 * ((m.r0c1 * m.r1c2) - (m.r1c1 * m.r0c2)))) - (m.r3c3 * (m.r2c1 * ((m.r0c0 * m.r1c2) - (m.r1c0 * m.r0c2)))) + (m.r3c3 * (m.r2c2 * ((m.r0c0 * m.r1c1) - (m.r1c0 * m.r0c1))))) by (nonlinear_arith);
    assert((m.r3c3 * (m.r2c0 * ((m.r0c1 * m.r1c2) - (m.r1c1 * m.r0c2))))
        == (m.r3c3 * (m.r2c0 * (m.r0c1 * m.r1c2))) - (m.r3c3 * (m.r2c0 * (m.r1c1 * m.r0c2)))) by (nonlinear_arith);
    assert((m.r3c3 * (m.r2c0 * (m.r0c1 * m.r1c2)))
        == m.r0c1 * m.r1c2 * m.r2c0 * m.r3c3) by (nonlinear_arith);
    assert((m.r3c3 * (m.r2c0 * (m.r1c1 * m.r0c2)))
        == m.r0c2 * m.r1c1 * m.r2c0 * m.r3c3) by (nonlinear_arith);
    assert((m.r3c3 * (m.r2c1 * ((m.r0c0 * m.r1c2) - (m.r1c0 * m.r0c2))))
        == (m.r3c3 * (m.r2c1 * (m.r0c0 * m.r1c2))) - (m.r3c3 * (m.r2c1 * (m.r1c0 * m.r0c2)))) by (nonlinear_arith);
    assert((m.r3c3 * (m.r2c1 * (m.r0c0 * m.r1c2)))
        == m.r0c0 * m.r1c2 * m.r2c1 * m.r3c3) by (nonlinear_arith);
    assert((m.r3c3 * (m.r2c1 * (m.r1c0 * m.r0c2)))
        == m.r0c2 * m.r1c0 * m.r2c1 * m.r3c3) by (nonlinear_arith);
    assert((m.r3c3 * (m.r2c2 * ((m.r0c0 * m.r1c1) - (m.r1c0 * m.r0c1))))
        == (m.r3c3 * (m.r2c2 * (m.r0c0 * m.r1c1))) - (m.r3c3 * (m.r2c2 * (m.r1c0 * m.r0c1)))) by (nonlinear_arith);
    assert((m.r3c3 * (m.r2c2 * (m.r0c0 * m.r1c1)))
        == m.r0c0 * m.r1c1 * m.r2c2 * m.r3c3) by (nonlinear_arith);
    assert((m.r3c3 * (m.r2c2 * (m.r1c0 * m.r0c1)))
        == m.r0c1 * m.r1c0 * m.r2c2 * m.r3c3) by (nonlinear_arith);
    assert((1real * ((((((m.r0c0 * m.r1c1) - (m.r1c0 * m.r0c1)) * ((m.r2c2 * m.r3c3) - (m.r3c2 * m.r2c3))) - (((m.r0c0 * m.r1c2) - (m.r1c0 * m.r0c2)) * ((m.r2c1 * m.r3c3) - (m.r3c1 * m.r2c3)))) + (((m.r0c0 * m.r1c3) - (m.r1c0 * m.r0c3)) * ((m.r2c1 * m.r3c2) - (m.r3c1 * m.r2c2)))) + (((((m.r0c1 * m.r1c2) - (m.r1c1 * m.r0c2)) * ((m.r2c0 * m.r3c3) - (m.r3c0 * m.r2c3))) - (((m.r0c1 * m.r1c3) - (m.r1c1 * m.r0c3)) * ((m.r2c0 * m.r3c2) - (m.r3c0 * m.r2c2)))) + (((m.r0c2 * m.r1c3) - (m.r1c2 * m.r0c3)) * ((m.r2c0 * m.r3c1) - (m.r3c0 * m.r2c1))))))
        == (1real * (((m.r0c0 * m.r1c1) - (m.r1c0 * m.r0c1)) * ((m.r2c2 * m.r3c3) - (m.r3c2 * m.r2c3)))) - (1real * (((m.r0c0 * m.r1c2) - (m.r1c0 * m.r0c2)) * ((m.r2c1 * m.r3c3) - (m.r3c1 * m.r2c3)))) + (1real * (((m.r0c0 * m.r1c3) - (m.r1c0 * m.r0c3)) * ((m.r2c1 * m.r3c2) - (m.r3c1 * m.r2c2)))) + (1real * (((m.r0c1 * m.r1c2) - (m.r1c1 * m.r0c2)) * ((m.r2c0 * m.r3c3) - (m.r3c0 * m.r2c3)))) - (1real * (((m.r0c1 * m.r1c3) - (m.r1c1 * m.r0c3)) * ((m.r2c0 * m.r3c2) - (m.r3c0 * m.r2c2)))) + (1real * (((m.r0c2 * m.r1c3) - (m.r1c2 * m.r0c3)) * ((m.r2c0 * m.r3c1) - (m.r3c0 * m.r2c1))))) by (nonlinear_arith);
    assert((1real * (((m.r0c0 * m.r1c1) - (m.r1c0 * m.r0c1)) * ((m.r2c2 * m.r3c3) - (m.r3c2 * m.r2c3))))
        == (1real * ((m.r0c0 * m.r1c1) * ((m.r2c2 * m.r3c3) - (m.r3c2 * m.r2c3)))) - (1real * ((m.r1c0 * m.r0c1) * ((m.r2c2 * m.r3c3) - (m.r3c2 * m.r2c3))))) by (nonlinear_arith);
    assert((1real * ((m.r0c0 * m.r1c1) * ((m.r2c2 * m.r3c3) - (m.r3c2 * m.r2c3))))
        == (1real * ((m.r0c0 * m.r1c1) * (m.r2c2 * m.r3c3))) - (1real * ((m.r0c0 * m.r1c1) * (m.r3c2 * m.r2c3)))) by (nonlinear_arith);
    assert((1real * ((m.r0c0 * m.r1c1) * (m.r2c2 * m.r3c3)))
        == m.r0c0 * m.r1c1 * m.r2c2 * m.r3c3) by (nonlinear_arith);
    assert((1real * ((m.r0c0 * m.r1c1) * (m.r3c2 * m.r2c3)))
        == m.r0c0 * m.r1c1 * m.r2c3 * m.r3c2) by (nonlinear_arith);
    assert((1real * ((m.r1c0 * m.r0c1) * ((m.r2c2 * m.r3c3) - (m.r3c2 * m.r2c3))))
        == (1real * ((m.r1c0 * m.r0c1) * (m.r2c2 * m.r3c3))) - (1real * ((m.r1c0 * m.r0c1) * (m.r3c2 * m.r2c3)))) by (nonlinear_arith);
    assert((1real * ((m.r1c0 * m.r0c1) * (m.r2c2 * m.r3c3)))
        == m.r0c1 * m.r1c0 * m.r2c2 * m.r3c3) by (nonlinear_arith);
    assert((1real * ((m.r1c0 * m.r0c1) * (m.r3c2 * m.r2c3)))
        == m.r0c1 * m.r1c0 * m.r2c3 * m.r3c2) by (nonlinear_arith);
    assert((1real * (((m.r0c0 * m.r1c2) - (m.r1c0 * m.r0c2)) * ((m.r2c1 * m.r3c3) - (m.r3c1 * m.r2c3))))
        == (1real * ((m.r0c0 * m.r1c2) * ((m.r2c1 * m.r3c3) - (m.r3c1 * m.r2c3)))) - (1real * ((m.r1c0 * m.r0c2) * ((m.r2c1 * m.r3c3) - (m.r3c1 * m.r2c3))))) by (nonlinear_arith);
    assert((1real * ((m.r0c0 * m.r1c2) * ((m.r2c1 * m.r3c3) - (m.r3c1 * m.r2c3))))
        == (1real * ((m.r0c0 * m.r1c2) * (m.r2c1 * m.r3c3))) - (1real * ((m.r0c0 * m.r1c2) * (m.r3c1 * m.r2c3)))) by (nonlinear_arith);
    assert((1real * ((m.r0c0 * m.r1c2) * (m.r2c1 * m.r3c3)))
        == m.r0c0 * m.r1c2 * m.r2c1 * m.r3c3) by (nonlinear_arith);
    assert((1real * ((m.r0c0 * m.r1c2) * (m.r3c1 * m.r2c3)))
        == m.r0c0 * m.r1c2 * m.r2c3 * m.r3c1) by (nonlinear_arith);
    assert((1real * ((m.r1c0 * m.r0c2) * ((m.r2c1 * m.r3c3) - (m.r3c1 * m.r2c3))))
        == (1real * ((m.r1c0 * m.r0c2) * (m.r2c1 * m.r3c3))) - (1real * ((m.r1c0 * m.r0c2) * (m.r3c1 * m.r2c3)))) by (nonlinear_arith);
    assert((1real * ((m.r1c0 * m.r0c2) * (m.r2c1 * m.r3c3)))
        == m.r0c2 * m.r1c0 * m.r2c1 * m.r3c3) by (nonlinear_arith);
    assert((1real * ((m.r1c0 * m.r0c2) * (m.r3c1 * m.r2c3)))
        == m.r0c2 * m.r1c0 * m.r2c3 * m.r3c1) by (nonlinear_arith);
    assert((1real * (((m.r0c0 * m.r1c3) - (m.r1c0 * m.r0c3)) * ((m.r2c1 * m.r3c2) - (m.r3c1 * m.r2c2))))
        == (1real * ((m.r0c0 * m.r1c3) * ((m.r2c1 * m.r3c2) - (m.r3c1 * m.r2c2)))) - (1real * ((m.r1c0 * m.r0c3) * ((m.r2c1 * m.r3c2) - (m.r3c1 * m.r2c2))))) by (nonlinear_arith);
    assert((1real * ((m.r0c0 * m.r1c3) * ((m.r2c1 * m.r3c2) - (m.r3c1 * m.r2c2))))
        == (1real * ((m.r0c0 * m.r1c3) * (m.r2c1 * m.r3c2))) - (1real * ((m.r0c0 * m.r1c3) * (m.r3c1 * m.r2c2)))) by (nonlinear_arith);
    assert((1real * ((m.r0c0 * m.r1c3) * (m.r2c1 * m.r3c2)))
        == m.r0c0 * m.r1c3 * m.r2c1 * m.r3c2) by (nonlinear_arith);
    assert((1real * ((m.r0c0 * m.r1c3) * (m.r3c1 * m.r2c2)))
        == m.r0c0 * m.r1c3 * m.r2c2 * m.r3c1) by (nonlinear_arith);
    assert((1real * ((m.r1c0 * m.r0c3) * ((m.r2c1 * m.r3c2) - (m.r3c1 * m.r2c2))))
        == (1real * ((m.r1c0 * m.r0c3) * (m.r2c1 * m.r3c2))) - (1real * ((m.r1c0 * m.r0c3) * (m.r3c1 * m.r2c2)))) by (nonlinear_arith);
    assert((1real * ((m.r1c0 * m.r0c3) * (m.r2c1 * m.r3c2)))
        == m.r0c3 * m.r1c0 * m.r2c1 * m.r3c2) by (nonlinear_arith);
    assert((1real * ((m.r1c0 * m.r0c3) * (m.r3c1 * m.r2c2)))
        == m.r0c3 * m.r1c0 * m.r2c2 * m.r3c1) by (nonlinear_arith);
    assert((1real * (((m.r0c1 * m.r1c2) - (m.r1c1 * m.r0c2)) * ((m.r2c0 * m.r3c3) - (m.r3c0 * m.r2c3))))
        == (1real * ((m.r0c1 * m.r1c2) * ((m.r2c0 * m.r3c3) - (m.r3c0 * m.r2c3)))) - (1real * ((m.r1c1 * m.r0c2) * ((m.r2c0 * m.r3c3) - (m.r3c0 * m.r2c3))))) by (nonlinear_arith);
    assert((1real * ((m.r0c1 * m.r1c2) * ((m.r2c0 * m.r3c3) - (m.r3c0 * m.r2c3))))
        == (1real * ((m.r0c1 * m.r1c2) * (m.r2c0 * m.r3c3))) - (1real * ((m.r0c1 * m.r1c2) * (m.r3c0 * m.r2c3)))) by (nonlinear_arith);
    assert((1real * ((m.r0c1 * m.r1c2) * (m.r2c0 * m.r3c3)))
        == m.r0c1 * m.r1c2 * m.r2c0 * m.r3c3) by (nonlinear_arith);
    assert((1real * ((m.r0c1 * m.r1c2) * (m.r3c0 * m.r2c3)))
        == m.r0c1 * m.r1c2 * m.r2c3 * m.r3c0) by (nonlinear_arith);
    assert((1real * ((m.r1c1 * m.r0c2) * ((m.r2c0 * m.r3c3) - (m.r3c0 * m.r2c3))))
        == (1real * ((m.r1c1 * m.r0c2) * (m.r2c0 * m.r3c3))) - (1real * ((m.r1c1 * m.r0c2) * (m.r3c0 * m.r2c3)))) by (nonlinear_arith);
    assert((1real * ((m.r1c1 * m.r0c2) * (m.r2c0 * m.r3c3)))
        == m.r0c2 * m.r1c1 * m.r2c0 * m.r3c3) by (nonlinear_arith);
    assert((1real * ((m.r1c1 * m.r0c2) * (m.r3c0 * m.r2c3)))
        == m.r0c2 * m.r1c1 * m.r2c3 * m.r3c0) by (nonlinear_arith);
    assert((1real * (((m.r0c1 * m.r1c3) - (m.r1c1 * m.r0c3)) * ((m.r2c0 * m.r3c2) - (m.r3c0 * m.r2c2))))
        == (1real * ((m.r0c1 * m.r1c3) * ((m.r2c0 * m.r3c2) - (m.r3c0 * m.r2c2)))) - (1real * ((m.r1c1 * m.r0c3) * ((m.r2c0 * m.r3c2) - (m.r3c0 * m.r2c2))))) by (nonlinear_arith);
    assert((1real * ((m.r0c1 * m.r1c3) * ((m.r2c0 * m.r3c2) - (m.r3c0 * m.r2c2))))
        == (1real * ((m.r0c1 * m.r1c3) * (m.r2c0 * m.r3c2))) - (1real * ((m.r0c1 * m.r1c3) * (m.r3c0 * m.r2c2)))) by (nonlinear_arith);
    assert((1real * ((m.r0c1 * m.r1c3) * (m.r2c0 * m.r3c2)))
        == m.r0c1 * m.r1c3 * m.r2c0 * m.r3c2) by (nonlinear_arith);
    assert((1real * ((m.r0c1 * m.r1c3) * (m.r3c0 * m.r2c2)))
        == m.r0c1 * m.r1c3 * m.r2c2 * m.r3c0) by (nonlinear_arith);
    assert((1real * ((m.r1c1 * m.r0c3) * ((m.r2c0 * m.r3c2) - (m.r3c0 * m.r2c2))))
        == (1real * ((m.r1c1 * m.r0c3) * (m.r2c0 * m.r3c2))) - (1real * ((m.r1c1 * m.r0c3) * (m.r3c0 * m.r2c2)))) by (nonlinear_arith);
    assert((1real * ((m.r1c1 * m.r0c3) * (m.r2c0 * m.r3c2)))
        == m.r0c3 * m.r1c1 * m.r2c0 * m.r3c2) by (nonlinear_arith);
    assert((1real * ((m.r1c1 * m.r0c3) * (m.r3c0 * m.r2c2)))
        == m.r0c3 * m.r1c1 * m.r2c2 * m.r3c0) by (nonlinear_arith);
    assert((1real * (((m.r0c2 * m.r1c3) - (m.r1c2 * m.r0c3)) * ((m.r2c0 * m.r3c1) - (m.r3c0 * m.r2c1))))
        == (1real * ((m.r0c2 * m.r1c3) * ((m.r2c0 * m.r3c1) - (m.r3c0 * m.r2c1)))) - (1real * ((m.r1c2 * m.r0c3) * ((m.r2c0 * m.r3c1) - (m.r3c0 * m.r2c1))))) by (nonlinear_arith);
    assert((1real * ((m.r0c2 * m.r1c3) * ((m.r2c0 * m.r3c1) - (m.r3c0 * m.r2c1))))
        == (1real * ((m.r0c2 * m.r1c3) * (m.r2c0 * m.r3c1))) - (1real * ((m.r0c2 * m.r1c3) * (m.r3c0 * m.r2c1)))) by (nonlinear_arith);
    assert((1real * ((m.r0c2 * m.r1c3) * (m.r2c0 * m.r3c1)))
        == m.r0c2 * m.r1c3 * m.r2c0 * m.r3c1) by (nonlinear_arith);
    assert((1real * ((m.r0c2 * m.r1c3) * (m.r3c0 * m.r2c1)))
        == m.r0c2 * m.r1c3 * m.r2c1 * m.r3c0) by (nonlinear_arith);
    assert((1real * ((m.r1c2 * m.r0c3) * ((m.r2c0 * m.r3c1) - (m.r3c0 * m.r2c1))))
        == (1real * ((m.r1c2 * m.r0c3) * (m.r2c0 * m.r3c1))) - (1real * ((m.r1c2 * m.r0c3) * (m.r3c0 * m.r2c1)))) by (nonlinear_arith);
    assert((1real * ((m.r1c2 * m.r0c3) * (m.r2c0 * m.r3c1)))
        == m.r0c3 * m.r1c2 * m.r2c0 * m.r3c1) by (nonlinear_arith);
    assert((1real * ((m.r1c2 * m.r0c3) * (m.r3c0 * m.r2c1)))
        == m.r0c3 * m.r1c2 * m.r2c1 * m.r3c0) by (nonlinear_arith);
}

/// A matrix times its adjugate is the identity times the determinant.
pub proof fn lemma_real_mat4_times_adjugate(m: Mat4Model<real>)
    ensures
        m.times(m.adjugate()) == Mat4Model::<real>::identity().times_each(m.determinant()),
{
    lemma_real_mat4_times_adjugate_r0c0(m);
    lemma_real_mat4_times_adjugate_r0c1(m);
    lemma_real_mat4_times_adjugate_r0c2(m);
    lemma_real_mat4_times_adjugate_r0c3(m);
    lemma_real_mat4_times_adjugate_r1c0(m);
    lemma_real_mat4_times_adjugate_r1c1(m);
    lemma_real_mat4_times_adjugate_r1c2(m);
    lemma_real_mat4_times_adjugate_r1c3(m);
    lemma_real_mat4_times_adjugate_r2c0(m);
    lemma_real_mat4_times_adjugate_r2c1(m);
    lemma_real_mat4_times_adjugate_r2c2(m);
    lemma_real_mat4_times_adjugate_r2c3(m);
    lemma_real_mat4_times_adjugate_r3c0(m);
    lemma_real_mat4_times_adjugate_r3c1(m);
    lemma_real_mat4_times_adjugate_r3c2(m);
    lemma_real_mat4_times_adjugate_r3c3(m);
}

} // verus!
