//! The adjugate of a matrix of three rows, over the integers.
use crate::traits::Ring;
use crate::types::mat3::Mat3Model;
use vstd::prelude::*;

verus! {

proof fn lemma_mat3_times_adjugate_r0c0(m: Mat3Model<int>)
    ensures
        m.times(m.adjugate()).r0c0 == Mat3Model::<int>::identity().times_each(m.determinant()).r0c0,
{
    assert((m.r0c0 * ((m.r1c1 * m.r2c2) - (m.r2c1 * m.r1c2)))
        == (m.r0c0 * (m.r1c1 * m.r2c2)) - (m.r0c0 * (m.r2c1 * m.r1c2))) by (nonlinear_arith);
    assert((m.r0c0 * (m.r1c1 * m.r2c2)) == m.r0c0 * m.r1c1 * m.r2c2) by (nonlinear_arith);
    assert((m.r0c0 * (m.r2c1 * m.r1c2)) == m.r0c0 * m.r1c2 * m.r2c1) by (nonlinear_arith);
    assert((m.r0c1 * ((m.r1c2 * m.r2c0) - (m.r1c0 * m.r2c2)))
        == (m.r0c1 * (m.r1c2 * m.r2c0)) - (m.r0c1 * (m.r1c0 * m.r2c2))) by (nonlinear_arith);
    assert((m.r0c1 * (m.r1c2 * m.r2c0)) == m.r0c1 * m.r1c2 * m.r2c0) by (nonlinear_arith);
    assert((m.r0c1 * (m.r1c0 * m.r2c2)) == m.r0c1 * m.r1c0 * m.r2c2) by (nonlinear_arith);
    assert((m.r0c2 * ((m.r1c0 * m.r2c1) - (m.r2c0 * m.r1c1)))
        == (m.r0c2 * (m.r1c0 * m.r2c1)) - (m.r0c2 * (m.r2c0 * m.r1c1))) by (nonlinear_arith);
    assert((m.r0c2 * (m.r1c0 * m.r2c1)) == m.r0c2 * m.r1c0 * m.r2c1) by (nonlinear_arith);
    assert((m.r0c2 * (m.r2c0 * m.r1c1)) == m.r0c2 * m.r1c1 * m.r2c0) by (nonlinear_arith);
    assert((1int * (((m.r0c0 * ((m.r1c1 * m.r2c2) - (m.r2c1 * m.r1c2))) - (m.r0c1 * ((m.r1c0 * m.r2c2) - (m.r1c2 * m.r2c0)))) + (m.r0c2 * ((m.r1c0 * m.r2c1) - (m.r1c1 * m.r2c0)))))
        == (1int * (m.r0c0 * ((m.r1c1 * m.r2c2) - (m.r2c1 * m.r1c2)))) - (1int * (m.r0c1 * ((m.r1c0 * m.r2c2) - (m.r1c2 * m.r2c0)))) + (1int * (m.r0c2 * ((m.r1c0 * m.r2c1) - (m.r1c1 * m.r2c0))))) by (nonlinear_arith);
    assert((1int * (m.r0c0 * ((m.r1c1 * m.r2c2) - (m.r2c1 * m.r1c2))))
        == (1int * (m.r0c0 * (m.r1c1 * m.r2c2))) - (1int * (m.r0c0 * (m.r2c1 * m.r1c2)))) by (nonlinear_arith);
    assert((1int * (m.r0c0 * (m.r1c1 * m.r2c2))) == m.r0c0 * m.r1c1 * m.r2c2) by (nonlinear_arith);
    assert((1int * (m.r0c0 * (m.r2c1 * m.r1c2))) == m.r0c0 * m.r1c2 * m.r2c1) by (nonlinear_arith);
    assert((1int * (m.r0c1 * ((m.r1c0 * m.r2c2) - (m.r1c2 * m.r2c0))))
        == (1int * (m.r0c1 * (m.r1c0 * m.r2c2))) - (1int * (m.r0c1 * (m.r1c2 * m.r2c0)))) by (nonlinear_arith);
    assert((1int * (m.r0c1 * (m.r1c0 * m.r2c2))) == m.r0c1 * m.r1c0 * m.r2c2) by (nonlinear_arith);
    assert((1int * (m.r0c1 * (m.r1c2 * m.r2c0))) == m.r0c1 * m.r1c2 * m.r2c0) by (nonlinear_arith);
    assert((1int * (m.r0c2 * ((m.r1c0 * m.r2c1) - (m.r1c1 * m.r2c0))))
        == (1int * (m.r0c2 * (m.r1c0 * m.r2c1))) - (1int * (m.r0c2 * (m.r1c1 * m.r2c0)))) by (nonlinear_arith);
    assert((1int * (m.r0c2 * (m.r1c0 * m.r2c1))) == m.r0c2 * m.r1c0 * m.r2c1) by (nonlinear_arith);
    assert((1int * (m.r0c2 * (m.r1c1 * m.r2c0))) == m.r0c2 * m.r1c1 * m.r2c0) by (nonlinear_arith);
}

proof fn lemma_mat3_times_adjugate_r0c1(m: Mat3Model<int>)
    ensures
        m.times(m.adjugate()).r0c1 == Mat3Model::<int>::identity().times_each(m.determinant()).r0c1,
{
    assert((m.r0c0 * ((m.r0c2 * m.r2c1) - (m.r0c1 * m.r2c2)))
        == (m.r0c0 * (m.r0c2 * m.r2c1)) - (m.r0c0 * (m.r0c1 * m.r2c2))) by (nonlinear_arith);
    assert((m.r0c0 * (m.r0c2 * m.r2c1)) == m.r0c0 * m.r0c2 * m.r2c1) by (nonlinear_arith);
    assert((m.r0c0 * (m.r0c1 * m.r2c2)) == m.r0c0 * m.r0c1 * m.r2c2) by (nonlinear_arith);
    assert((m.r0c1 * ((m.r0c0 * m.r2c2) - (m.r0c2 * m.r2c0)))
        == (m.r0c1 * (m.r0c0 * m.r2c2)) - (m.r0c1 * (m.r0c2 * m.r2c0))) by (nonlinear_arith);
    assert((m.r0c1 * (m.r0c0 * m.r2c2)) == m.r0c0 * m.r0c1 * m.r2c2) by (nonlinear_arith);
    assert((m.r0c1 * (m.r0c2 * m.r2c0)) == m.r0c1 * m.r0c2 * m.r2c0) by (nonlinear_arith);
    assert((m.r0c2 * ((m.r2c0 * m.r0c1) - (m.r0c0 * m.r2c1)))
        == (m.r0c2 * (m.r2c0 * m.r0c1)) - (m.r0c2 * (m.r0c0 * m.r2c1))) by (nonlinear_arith);
    assert((m.r0c2 * (m.r2c0 * m.r0c1)) == m.r0c1 * m.r0c2 * m.r2c0) by (nonlinear_arith);
    assert((m.r0c2 * (m.r0c0 * m.r2c1)) == m.r0c0 * m.r0c2 * m.r2c1) by (nonlinear_arith);
    assert((0int * (((m.r0c0 * ((m.r1c1 * m.r2c2) - (m.r2c1 * m.r1c2))) - (m.r0c1 * ((m.r1c0 * m.r2c2) - (m.r1c2 * m.r2c0)))) + (m.r0c2 * ((m.r1c0 * m.r2c1) - (m.r1c1 * m.r2c0)))))
        == (0int * (m.r0c0 * ((m.r1c1 * m.r2c2) - (m.r2c1 * m.r1c2)))) - (0int * (m.r0c1 * ((m.r1c0 * m.r2c2) - (m.r1c2 * m.r2c0)))) + (0int * (m.r0c2 * ((m.r1c0 * m.r2c1) - (m.r1c1 * m.r2c0))))) by (nonlinear_arith);
    assert((0int * (m.r0c0 * ((m.r1c1 * m.r2c2) - (m.r2c1 * m.r1c2))))
        == (0int * (m.r0c0 * (m.r1c1 * m.r2c2))) - (0int * (m.r0c0 * (m.r2c1 * m.r1c2)))) by (nonlinear_arith);
    assert((0int * (m.r0c0 * (m.r1c1 * m.r2c2))) == 0int) by (nonlinear_arith);
    assert((0int * (m.r0c0 * (m.r2c1 * m.r1c2))) == 0int) by (nonlinear_arith);
    assert((0int * (m.r0c1 * ((m.r1c0 * m.r2c2) - (m.r1c2 * m.r2c0))))
        == (0int * (m.r0c1 * (m.r1c0 * m.r2c2))) - (0int * (m.r0c1 * (m.r1c2 * m.r2c0)))) by (nonlinear_arith);
    assert((0int * (m.r0c1 * (m.r1c0 * m.r2c2))) == 0int) by (nonlinear_arith);
    assert((0int * (m.r0c1 * (m.r1c2 * m.r2c0))) == 0int) by (nonlinear_arith);
    assert((0int * (m.r0c2 * ((m.r1c0 * m.r2c1) - (m.r1c1 * m.r2c0))))
        == (0int * (m.r0c2 * (m.r1c0 * m.r2c1))) - (0int * (m.r0c2 * (m.r1c1 * m.r2c0)))) by (nonlinear_arith);
    assert((0int * (m.r0c2 * (m.r1c0 * m.r2c1))) == 0int) by (nonlinear_arith);
    assert((0int * (m.r0c2 * (m.r1c1 * m.r2c0))) == 0int) by (nonlinear_arith);
}

proof fn lemma_mat3_times_adjugate_r0c2(m: Mat3Model<int>)
    ensures
        m.times(m.adjugate()).r0c2 == Mat3Model::<int>::identity().times_each(m.determinant()).r0c2,
{
    assert((m.r0c0 * ((m.r0c1 * m.r1c2) - (m.r0c2 * m.r1c1)))
        == (m.r0c0 * (m.r0c1 * m.r1c2)) - (m.r0c0 * (m.r0c2 * m.r1c1))) by (nonlinear_arith);
    assert((m.r0c0 * (m.r0c1 * m.r1c2)) == m.r0c0 * m.r0c1 * m.r1c2) by (nonlinear_arith);
    assert((m.r0c0 * (m.r0c2 * m.r1c1)) == m.r0c0 * m.r0c2 * m.r1c1) by (nonlinear_arith);
    assert((m.r0c1 * ((m.r1c0 * m.r0c2) - (m.r0c0 * m.r1c2)))
        == (m.r0c1 * (m.r1c0 * m.r0c2)) - (m.r0c1 * (m.r0c0 * m.r1c2))) by (nonlinear_arith);
    assert((m.r0c1 * (m.r1c0 * m.r0c2)) == m.r0c1 * m.r0c2 * m.r1c0) by (nonlinear_arith);
    assert((m.r0c1 * (m.r0c0 * m.r1c2)) == m.r0c0 * m.r0c1 * m.r1c2) by (nonlinear_arith);
    assert((m.r0c2 * ((m.r0c0 * m.r1c1) - (m.r1c0 * m.r0c1)))
        == (m.r0c2 * (m.r0c0 * m.r1c1)) - (m.r0c2 * (m.r1c0 * m.r0c1))) by (nonlinear_arith);
    assert((m.r0c2 * (m.r0c0 * m.r1c1)) == m.r0c0 * m.r0c2 * m.r1c1) by (nonlinear_arith);
    assert((m.r0c2 * (m.r1c0 * m.r0c1)) == m.r0c1 * m.r0c2 * m.r1c0) by (nonlinear_arith);
    assert((0int * (((m.r0c0 * ((m.r1c1 * m.r2c2) - (m.r2c1 * m.r1c2))) - (m.r0c1 * ((m.r1c0 * m.r2c2) - (m.r1c2 * m.r2c0)))) + (m.r0c2 * ((m.r1c0 * m.r2c1) - (m.r1c1 * m.r2c0)))))
        == (0int * (m.r0c0 * ((m.r1c1 * m.r2c2) - (m.r2c1 * m.r1c2)))) - (0int * (m.r0c1 * ((m.r1c0 * m.r2c2) - (m.r1c2 * m.r2c0)))) + (0int * (m.r0c2 * ((m.r1c0 * m.r2c1) - (m.r1c1 * m.r2c0))))) by (nonlinear_arith);
    assert((0int * (m.r0c0 * ((m.r1c1 * m.r2c2) - (m.r2c1 * m.r1c2))))
        == (0int * (m.r0c0 * (m.r1c1 * m.r2c2))) - (0int * (m.r0c0 * (m.r2c1 * m.r1c2)))) by (nonlinear_arith);
    assert((0int * (m.r0c0 * (m.r1c1 * m.r2c2))) == 0int) by (nonlinear_arith);
    assert((0int * (m.r0c0 * (m.r2c1 * m.r1c2))) == 0int) by (nonlinear_arith);
    assert((0int * (m.r0c1 * ((m.r1c0 * m.r2c2) - (m.r1c2 * m.r2c0))))
        == (0int * (m.r0c1 * (m.r1c0 * m.r2c2))) - (0int * (m.r0c1 * (m.r1c2 * m.r2c0)))) by (nonlinear_arith);
    assert((0int * (m.r0c1 * (m.r1c0 * m.r2c2))) == 0int) by (nonlinear_arith);
    assert((0int * (m.r0c1 * (m.r1c2 * m.r2c0))) == 0int) by (nonlinear_arith);
    assert((0int * (m.r0c2 * ((m.r1c0 * m.r2c1) - (m.r1c1 * m.r2c0))))
        == (0int * (m.r0c2 * (m.r1c0 * m.r2c1))) - (0int * (m.r0c2 * (m.r1c1 * m.r2c0)))) by (nonlinear_arith);
    assert((0int * (m.r0c2 * (m.r1c0 * m.r2c1))) == 0int) by (nonlinear_arith);
    assert((0int * (m.r0c2 * (m.r1c1 * m.r2c0))) == 0int) by (nonlinear_arith);
}

proof fn lemma_mat3_times_adjugate_r1c0(m: Mat3Model<int>)
    ensures
        m.times(m.adjugate()).r1c0 == Mat3Model::<int>::identity().times_each(m.determinant()).r1c0,
{
    assert((m.r1c0 * ((m.r1c1 * m.r2c2) - (m.r2c1 * m.r1c2)))
        == (m.r1c0 * (m.r1c1 * m.r2c2)) - (m.r1c0 * (m.r2c1 * m.r1c2))) by (nonlinear_arith);
    assert((m.r1c0 * (m.r1c1 * m.r2c2)) == m.r1c0 * m.r1c1 * m.r2c2) by (nonlinear_arith);
    assert((m.r1c0 * (m.r2c1 * m.r1c2)) == m.r1c0 * m.r1c2 * m.r2c1) by (nonlinear_arith);
    assert((m.r1c1 * ((m.r1c2 * m.r2c0) - (m.r1c0 * m.r2c2)))
        == (m.r1c1 * (m.r1c2 * m.r2c0)) - (m.r1c1 * (m.r1c0 * m.r2c2))) by (nonlinear_arith);
    assert((m.r1c1 * (m.r1c2 * m.r2c0)) == m.r1c1 * m.r1c2 * m.r2c0) by (nonlinear_arith);
    assert((m.r1c1 * (m.r1c0 * m.r2c2)) == m.r1c0 * m.r1c1 * m.r2c2) by (nonlinear_arith);
    assert((m.r1c2 * ((m.r1c0 * m.r2c1) - (m.r2c0 * m.r1c1)))
        == (m.r1c2 * (m.r1c0 * m.r2c1)) - (m.r1c2 * (m.r2c0 * m.r1c1))) by (nonlinear_arith);
    assert((m.r1c2 * (m.r1c0 * m.r2c1)) == m.r1c0 * m.r1c2 * m.r2c1) by (nonlinear_arith);
    assert((m.r1c2 * (m.r2c0 * m.r1c1)) == m.r1c1 * m.r1c2 * m.r2c0) by (nonlinear_arith);
    assert((0int * (((m.r0c0 * ((m.r1c1 * m.r2c2) - (m.r2c1 * m.r1c2))) - (m.r0c1 * ((m.r1c0 * m.r2c2) - (m.r1c2 * m.r2c0)))) + (m.r0c2 * ((m.r1c0 * m.r2c1) - (m.r1c1 * m.r2c0)))))
        == (0int * (m.r0c0 * ((m.r1c1 * m.r2c2) - (m.r2c1 * m.r1c2)))) - (0int * (m.r0c1 * ((m.r1c0 * m.r2c2) - (m.r1c2 * m.r2c0)))) + (0int * (m.r0c2 * ((m.r1c0 * m.r2c1) - (m.r1c1 * m.r2c0))))) by (nonlinear_arith);
    assert((0int * (m.r0c0 * ((m.r1c1 * m.r2c2) - (m.r2c1 * m.r1c2))))
        == (0int * (m.r0c0 * (m.r1c1 * m.r2c2))) - (0int * (m.r0c0 * (m.r2c1 * m.r1c2)))) by (nonlinear_arith);
    assert((0int * (m.r0c0 * (m.r1c1 * m.r2c2))) == 0int) by (nonlinear_arith);
    assert((0int * (m.r0c0 * (m.r2c1 * m.r1c2))) == 0int) by (nonlinear_arith);
    assert((0int * (m.r0c1 * ((m.r1c0 * m.r2c2) - (m.r1c2 * m.r2c0))))
        == (0int * (m.r0c1 * (m.r1c0 * m.r2c2))) - (0int * (m.r0c1 * (m.r1c2 * m.r2c0)))) by (nonlinear_arith);
    assert((0int * (m.r0c1 * (m.r1c0 * m.r2c2))) == 0int) by (nonlinear_arith);
    assert((0int * (m.r0c1 * (m.r1c2 * m.r2c0))) == 0int) by (nonlinear_arith);
    assert((0int * (m.r0c2 * ((m.r1c0 * m.r2c1) - (m.r1c1 * m.r2c0))))
        == (0int * (m.r0c2 * (m.r1c0 * m.r2c1))) - (0int * (m.r0c2 * (m.r1c1 * m.r2c0)))) by (nonlinear_arith);
    assert((0int * (m.r0c2 * (m.r1c0 * m.r2c1))) == 0int) by (nonlinear_arith);
    assert((0int * (m.r0c2 * (m.r1c1 * m.r2c0))) == 0int) by (nonlinear_arith);
}

proof fn lemma_mat3_times_adjugate_r1c1(m: Mat3Model<int>)
    ensures
        m.times(m.adjugate()).r1c1 == Mat3Model::<int>::identity().times_each(m.determinant()).r1c1,
{
    assert((m.r1c0 * ((m.r0c2 * m.r2c1) - (m.r0c1 * m.r2c2)))
        == (m.r1c0 * (m.r0c2 * m.r2c1)) - (m.r1c0 * (m.r0c1 * m.r2c2))) by (nonlinear_arith);
    assert((m.r1c0 * (m.r0c2 * m.r2c1)) == m.r0c2 * m.r1c0 * m.r2c1) by (nonlinear_arith);
    assert((m.r1c0 * (m.r0c1 * m.r2c2)) == m.r0c1 * m.r1c0 * m.r2c2) by (nonlinear_arith);
    assert((m.r1c1 * ((m.r0c0 * m.r2c2) - (m.r0c2 * m.r2c0)))
        == (m.r1c1 * (m.r0c0 * m.r2c2)) - (m.r1c1 * (m.r0c2 * m.r2c0))) by (nonlinear_arith);
    assert((m.r1c1 * (m.r0c0 * m.r2c2)) == m.r0c0 * m.r1c1 * m.r2c2) by (nonlinear_arith);
    assert((m.r1c1 * (m.r0c2 * m.r2c0)) == m.r0c2 * m.r1c1 * m.r2c0) by (nonlinear_arith);
    assert((m.r1c2 * ((m.r2c0 * m.r0c1) - (m.r0c0 * m.r2c1)))
        == (m.r1c2 * (m.r2c0 * m.r0c1)) - (m.r1c2 * (m.r0c0 * m.r2c1))) by (nonlinear_arith);
    assert((m.r1c2 * (m.r2c0 * m.r0c1)) == m.r0c1 * m.r1c2 * m.r2c0) by (nonlinear_arith);
    assert((m.r1c2 * (m.r0c0 * m.r2c1)) == m.r0c0 * m.r1c2 * m.r2c1) by (nonlinear_arith);
    assert((1int * (((m.r0c0 * ((m.r1c1 * m.r2c2) - (m.r2c1 * m.r1c2))) - (m.r0c1 * ((m.r1c0 * m.r2c2) - (m.r1c2 * m.r2c0)))) + (m.r0c2 * ((m.r1c0 * m.r2c1) - (m.r1c1 * m.r2c0)))))
        == (1int * (m.r0c0 * ((m.r1c1 * m.r2c2) - (m.r2c1 * m.r1c2)))) - (1int * (m.r0c1 * ((m.r1c0 * m.r2c2) - (m.r1c2 * m.r2c0)))) + (1int * (m.r0c2 * ((m.r1c0 * m.r2c1) - (m.r1c1 * m.r2c0))))) by (nonlinear_arith);
    assert((1int * (m.r0c0 * ((m.r1c1 * m.r2c2) - (m.r2c1 * m.r1c2))))
        == (1int * (m.r0c0 * (m.r1c1 * m.r2c2))) - (1int * (m.r0c0 * (m.r2c1 * m.r1c2)))) by (nonlinear_arith);
    assert((1int * (m.r0c0 * (m.r1c1 * m.r2c2))) == m.r0c0 * m.r1c1 * m.r2c2) by (nonlinear_arith);
    assert((1int * (m.r0c0 * (m.r2c1 * m.r1c2))) == m.r0c0 * m.r1c2 * m.r2c1) by (nonlinear_arith);
    assert((1int * (m.r0c1 * ((m.r1c0 * m.r2c2) - (m.r1c2 * m.r2c0))))
        == (1int * (m.r0c1 * (m.r1c0 * m.r2c2))) - (1int * (m.r0c1 * (m.r1c2 * m.r2c0)))) by (nonlinear_arith);
    assert((1int * (m.r0c1 * (m.r1c0 * m.r2c2))) == m.r0c1 * m.r1c0 * m.r2c2) by (nonlinear_arith);
    assert((1int * (m.r0c1 * (m.r1c2 * m.r2c0))) == m.r0c1 * m.r1c2 * m.r2c0) by (nonlinear_arith);
    assert((1int * (m.r0c2 * ((m.r1c0 * m.r2c1) - (m.r1c1 * m.r2c0))))
        == (1int * (m.r0c2 * (m.r1c0 * m.r2c1))) - (1int * (m.r0c2 * (m.r1c1 * m.r2c0)))) by (nonlinear_arith);
    assert((1int * (m.r0c2 * (m.r1c0 * m.r2c1))) == m.r0c2 * m.r1c0 * m.r2c1) by (nonlinear_arith);
    assert((1int * (m.r0c2 * (m.r1c1 * m.r2c0))) == m.r0c2 * m.r1c1 * m.r2c0) by (nonlinear_arith);
}

proof fn lemma_mat3_times_adjugate_r1c2(m: Mat3Model<int>)
    ensures
        m.times(m.adjugate()).r1c2 == Mat3Model::<int>::identity().times_each(m.determinant()).r1c2,
{
    assert((m.r1c0 * ((m.r0c1 * m.r1c2) - (m.r0c2 * m.r1c1)))
        == (m.r1c0 * (m.r0c1 * m.r1c2)) - (m.r1c0 * (m.r0c2 * m.r1c1))) by (nonlinear_arith);
    assert((m.r1c0 * (m.r0c1 * m.r1c2)) == m.r0c1 * m.r1c0 * m.r1c2) by (nonlinear_arith);
    assert((m.r1c0 * (m.r0c2 * m.r1c1)) == m.r0c2 * m.r1c0 * m.r1c1) by (nonlinear_arith);
    assert((m.r1c1 * ((m.r1c0 * m.r0c2) - (m.r0c0 * m.r1c2)))
        == (m.r1c1 * (m.r1c0 * m.r0c2)) - (m.r1c1 * (m.r0c0 * m.r1c2))) by (nonlinear_arith);
    assert((m.r1c1 * (m.r1c0 * m.r0c2)) == m.r0c2 * m.r1c0 * m.r1c1) by (nonlinear_arith);
    assert((m.r1c1 * (m.r0c0 * m.r1c2)) == m.r0c0 * m.r1c1 * m.r1c2) by (nonlinear_arith);
    assert((m.r1c2 * ((m.r0c0 * m.r1c1) - (m.r1c0 * m.r0c1)))
        == (m.r1c2 * (m.r0c0 * m.r1c1)) - (m.r1c2 * (m.r1c0 * m.r0c1))) by (nonlinear_arith);
    assert((m.r1c2 * (m.r0c0 * m.r1c1)) == m.r0c0 * m.r1c1 * m.r1c2) by (nonlinear_arith);
    assert((m.r1c2 * (m.r1c0 * m.r0c1)) == m.r0c1 * m.r1c0 * m.r1c2) by (nonlinear_arith);
    assert((0int * (((m.r0c0 * ((m.r1c1 * m.r2c2) - (m.r2c1 * m.r1c2))) - (m.r0c1 * ((m.r1c0 * m.r2c2) - (m.r1c2 * m.r2c0)))) + (m.r0c2 * ((m.r1c0 * m.r2c1) - (m.r1c1 * m.r2c0)))))
        == (0int * (m.r0c0 * ((m.r1c1 * m.r2c2) - (m.r2c1 * m.r1c2)))) - (0int * (m.r0c1 * ((m.r1c0 * m.r2c2) - (m.r1c2 * m.r2c0)))) + (0int * (m.r0c2 * ((m.r1c0 * m.r2c1) - (m.r1c1 * m.r2c0))))) by (nonlinear_arith);
    assert((0int * (m.r0c0 * ((m.r1c1 * m.r2c2) - (m.r2c1 * m.r1c2))))
        == (0int * (m.r0c0 * (m.r1c1 * m.r2c2))) - (0int * (m.r0c0 * (m.r2c1 * m.r1c2)))) by (nonlinear_arith);
    assert((0int * (m.r0c0 * (m.r1c1 * m.r2c2))) == 0int) by (nonlinear_arith);
    assert((0int * (m.r0c0 * (m.r2c1 * m.r1c2))) == 0int) by (nonlinear_arith);
    assert((0int * (m.r0c1 * ((m.r1c0 * m.r2c2) - (m.r1c2 * m.r2c0))))
        == (0int * (m.r0c1 * (m.r1c0 * m.r2c2))) - (0int * (m.r0c1 * (m.r1c2 * m.r2c0)))) by (nonlinear_arith);
    assert((0int * (m.r0c1 * (m.r1c0 * m.r2c2))) == 0int) by (nonlinear_arith);
    assert((0int * (m.r0c1 * (m.r1c2 * m.r2c0))) == 0int) by (nonlinear_arith);
    assert((0int * (m.r0c2 * ((m.r1c0 * m.r2c1) - (m.r1c1 * m.r2c0))))
        == (0int * (m.r0c2 * (m.r1c0 * m.r2c1))) - (0int * (m.r0c2 * (m.r1c1 * m.r2c0)))) by (nonlinear_arith);
    assert((0int * (m.r0c2 * (m.r1c0 * m.r2c1))) == 0int) by (nonlinear_arith);
    assert((0int * (m.r0c2 * (m.r1c1 * m.r2c0))) == 0int) by (nonlinear_arith);
}

proof fn lemma_mat3_times_adjugate_r2c0(m: Mat3Model<int>)
    ensures
        m.times(m.adjugate()).r2c0 == Mat3Model::<int>::identity().times_each(m.determinant()).r2c0,
{
    assert((m.r2c0 * ((m.r1c1 * m.r2c2) - (m.r2c1 * m.r1c2)))
        == (m.r2c0 * (m.r1c1 * m.r2c2)) - (m.r2c0 * (m.r2c1 * m.r1c2))) by (nonlinear_arith);
    assert((m.r2c0 * (m.r1c1 * m.r2c2)) == m.r1c1 * m.r2c0 * m.r2c2) by (nonlinear_arith);
    assert((m.r2c0 * (m.r2c1 * m.r1c2)) == m.r1c2 * m.r2c0 * m.r2c1) by (nonlinear_arith);
    assert((m.r2c1 * ((m.r1c2 * m.r2c0) - (m.r1c0 * m.r2c2)))
        == (m.r2c1 * (m.r1c2 * m.r2c0)) - (m.r2c1 * (m.r1c0 * m.r2c2))) by (nonlinear_arith);
    assert((m.r2c1 * (m.r1c2 * m.r2c0)) == m.r1c2 * m.r2c0 * m.r2c1) by (nonlinear_arith);
    assert((m.r2c1 * (m.r1c0 * m.r2c2)) == m.r1c0 * m.r2c1 * m.r2c2) by (nonlinear_arith);
    assert((m.r2c2 * ((m.r1c0 * m.r2c1) - (m.r2c0 * m.r1c1)))
        == (m.r2c2 * (m.r1c0 * m.r2c1)) - (m.r2c2 * (m.r2c0 * m.r1c1))) by (nonlinear_arith);
    assert((m.r2c2 * (m.r1c0 * m.r2c1)) == m.r1c0 * m.r2c1 * m.r2c2) by (nonlinear_arith);
    assert((m.r2c2 * (m.r2c0 * m.r1c1)) == m.r1c1 * m.r2c0 * m.r2c2) by (nonlinear_arith);
    assert((0int * (((m.r0c0 * ((m.r1c1 * m.r2c2) - (m.r2c1 * m.r1c2))) - (m.r0c1 * ((m.r1c0 * m.r2c2) - (m.r1c2 * m.r2c0)))) + (m.r0c2 * ((m.r1c0 * m.r2c1) - (m.r1c1 * m.r2c0)))))
        == (0int * (m.r0c0 * ((m.r1c1 * m.r2c2) - (m.r2c1 * m.r1c2)))) - (0int * (m.r0c1 * ((m.r1c0 * m.r2c2) - (m.r1c2 * m.r2c0)))) + (0int * (m.r0c2 * ((m.r1c0 * m.r2c1) - (m.r1c1 * m.r2c0))))) by (nonlinear_arith);
    assert((0int * (m.r0c0 * ((m.r1c1 * m.r2c2) - (m.r2c1 * m.r1c2))))
        == (0int * (m.r0c0 * (m.r1c1 * m.r2c2))) - (0int * (m.r0c0 * (m.r2c1 * m.r1c2)))) by (nonlinear_arith);
    assert((0int * (m.r0c0 * (m.r1c1 * m.r2c2))) == 0int) by (nonlinear_arith);
    assert((0int * (m.r0c0 * (m.r2c1 * m.r1c2))) == 0int) by (nonlinear_arith);
    assert((0int * (m.r0c1 * ((m.r1c0 * m.r2c2) - (m.r1c2 * m.r2c0))))
        == (0int * (m.r0c1 * (m.r1c0 * m.r2c2))) - (0int * (m.r0c1 * (m.r1c2 * m.r2c0)))) by (nonlinear_arith);
    assert((0int * (m.r0c1 * (m.r1c0 * m.r2c2))) == 0int) by (nonlinear_arith);
    assert((0int * (m.r0c1 * (m.r1c2 * m.r2c0))) == 0int) by (nonlinear_arith);
    assert((0int * (m.r0c2 * ((m.r1c0 * m.r2c1) - (m.r1c1 * m.r2c0))))
        == (0int * (m.r0c2 * (m.r1c0 * m.r2c1))) - (0int * (m.r0c2 * (m.r1c1 * m.r2c0)))) by (nonlinear_arith);
    assert((0int * (m.r0c2 * (m.r1c0 * m.r2c1))) == 0int) by (nonlinear_arith);
    assert((0int * (m.r0c2 * (m.r1c1 * m.r2c0))) == 0int) by (nonlinear_arith);
}

proof fn lemma_mat3_times_adjugate_r2c1(m: Mat3Model<int>)
    ensures
        m.times(m.adjugate()).r2c1 == Mat3Model::<int>::identity().times_each(m.determinant()).r2c1,
{
    assert((m.r2c0 * ((m.r0c2 * m.r2c1) - (m.r0c1 * m.r2c2)))
        == (m.r2c0 * (m.r0c2 * m.r2c1)) - (m.r2c0 * (m.r0c1 * m.r2c2))) by (nonlinear_arith);
    assert((m.r2c0 * (m.r0c2 * m.r2c1)) == m.r0c2 * m.r2c0 * m.r2c1) by (nonlinear_arith);
    assert((m.r2c0 * (m.r0c1 * m.r2c2)) == m.r0c1 * m.r2c0 * m.r2c2) by (nonlinear_arith);
    assert((m.r2c1 * ((m.r0c0 * m.r2c2) - (m.r0c2 * m.r2c0)))
        == (m.r2c1 * (m.r0c0 * m.r2c2)) - (m.r2c1 * (m.r0c2 * m.r2c0))) by (nonlinear_arith);
    assert((m.r2c1 * (m.r0c0 * m.r2c2)) == m.r0c0 * m.r2c1 * m.r2c2) by (nonlinear_arith);
    assert((m.r2c1 * (m.r0c2 * m.r2c0)) == m.r0c2 * m.r2c0 * m.r2c1) by (nonlinear_arith);
    assert((m.r2c2 * ((m.r2c0 * m.r0c1) - (m.r0c0 * m.r2c1)))
        == (m.r2c2 * (m.r2c0 * m.r0c1)) - (m.r2c2 * (m.r0c0 * m.r2c1))) by (nonlinear_arith);
    assert((m.r2c2 * (m.r2c0 * m.r0c1)) == m.r0c1 * m.r2c0 * m.r2c2) by (nonlinear_arith);
    assert((m.r2c2 * (m.r0c0 * m.r2c1)) == m.r0c0 * m.r2c1 * m.r2c2) by (nonlinear_arith);
    assert((0int * (((m.r0c0 * ((m.r1c1 * m.r2c2) - (m.r2c1 * m.r1c2))) - (m.r0c1 * ((m.r1c0 * m.r2c2) - (m.r1c2 * m.r2c0)))) + (m.r0c2 * ((m.r1c0 * m.r2c1) - (m.r1c1 * m.r2c0)))))
        == (0int * (m.r0c0 * ((m.r1c1 * m.r2c2) - (m.r2c1 * m.r1c2)))) - (0int * (m.r0c1 * ((m.r1c0 * m.r2c2) - (m.r1c2 * m.r2c0)))) + (0int * (m.r0c2 * ((m.r1c0 * m.r2c1) - (m.r1c1 * m.r2c0))))) by (nonlinear_arith);
    assert((0int * (m.r0c0 * ((m.r1c1 * m.r2c2) - (m.r2c1 * m.r1c2))))
        == (0int * (m.r0c0 * (m.r1c1 * m.r2c2))) - (0int * (m.r0c0 * (m.r2c1 * m.r1c2)))) by (nonlinear_arith);
    assert((0int * (m.r0c0 * (m.r1c1 * m.r2c2))) == 0int) by (nonlinear_arith);
    assert((0int * (m.r0c0 * (m.r2c1 * m.r1c2))) == 0int) by (nonlinear_arith);
    assert((0int * (m.r0c1 * ((m.r1c0 * m.r2c2) - (m.r1c2 * m.r2c0))))
        == (0int * (m.r0c1 * (m.r1c0 * m.r2c2))) - (0int * (m.r0c1 * (m.r1c2 * m.r2c0)))) by (nonlinear_arith);
    assert((0int * (m.r0c1 * (m.r1c0 * m.r2c2))) == 0int) by (nonlinear_arith);
    assert((0int * (m.r0c1 * (m.r1c2 * m.r2c0))) == 0int) by (nonlinear_arith);
    assert((0int * (m.r0c2 * ((m.r1c0 * m.r2c1) - (m.r1c1 * m.r2c0))))
        == (0int * (m.r0c2 * (m.r1c0 * m.r2c1))) - (0int * (m.r0c2 * (m.r1c1 * m.r2c0)))) by (nonlinear_arith);
    assert((0int * (m.r0c2 * (m.r1c0 * m.r2c1))) == 0int) by (nonlinear_arith);
    assert((0int * (m.r0c2 * (m.r1c1 * m.r2c0))) == 0int) by (nonlinear_arith);
}

proof fn lemma_mat3_times_adjugate_r2c2(m: Mat3Model<int>)
    ensures
        m.times(m.adjugate()).r2c2 == Mat3Model::<int>::identity().times_each(m.determinant()).r2c2,
{
    assert((m.r2c0 * ((m.r0c1 * m.r1c2) - (m.r0c2 * m.r1c1)))
        == (m.r2c0 * (m.r0c1 * m.r1c2)) - (m.r2c0 * (m.r0c2 * m.r1c1))) by (nonlinear_arith);
    assert((m.r2c0 * (m.r0c1 * m.r1c2)) == m.r0c1 * m.r1c2 * m.r2c0) by (nonlinear_arith);
    assert((m.r2c0 * (m.r0c2 * m.r1c1)) == m.r0c2 * m.r1c1 * m.r2c0) by (nonlinear_arith);
    assert((m.r2c1 * ((m.r1c0 * m.r0c2) - (m.r0c0 * m.r1c2)))
        == (m.r2c1 * (m.r1c0 * m.r0c2)) - (m.r2c1 * (m.r0c0 * m.r1c2))) by (nonlinear_arith);
    assert((m.r2c1 * (m.r1c0 * m.r0c2)) == m.r0c2 * m.r1c0 * m.r2c1) by (nonlinear_arith);
    assert((m.r2c1 * (m.r0c0 * m.r1c2)) == m.r0c0 * m.r1c2 * m.r2c1) by (nonlinear_arith);
    assert((m.r2c2 * ((m.r0c0 * m.r1c1) - (m.r1c0 * m.r0c1)))
        == (m.r2c2 * (m.r0c0 * m.r1c1)) - (m.r2c2 * (m.r1c0 * m.r0c1))) by (nonlinear_arith);
    assert((m.r2c2 * (m.r0c0 * m.r1c1)) == m.r0c0 * m.r1c1 * m.r2c2) by (nonlinear_arith);
    assert((m.r2c2 * (m.r1c0 * m.r0c1)) == m.r0c1 * m.r1c0 * m.r2c2) by (nonlinear_arith);
    assert((1int * (((m.r0c0 * ((m.r1c1 * m.r2c2) - (m.r2c1 * m.r1c2))) - (m.r0c1 * ((m.r1c0 * m.r2c2) - (m.r1c2 * m.r2c0)))) + (m.r0c2 * ((m.r1c0 * m.r2c1) - (m.r1c1 * m.r2c0)))))
        == (1int * (m.r0c0 * ((m.r1c1 * m.r2c2) - (m.r2c1 * m.r1c2)))) - (1int * (m.r0c1 * ((m.r1c0 * m.r2c2) - (m.r1c2 * m.r2c0)))) + (1int * (m.r0c2 * ((m.r1c0 * m.r2c1) - (m.r1c1 * m.r2c0))))) by (nonlinear_arith);
    assert((1int * (m.r0c0 * ((m.r1c1 * m.r2c2) - (m.r2c1 * m.r1c2))))
        == (1int * (m.r0c0 * (m.r1c1 * m.r2c2))) - (1int * (m.r0c0 * (m.r2c1 * m.r1c2)))) by (nonlinear_arith);
    assert((1int * (m.r0c0 * (m.r1c1 * m.r2c2))) == m.r0c0 * m.r1c1 * m.r2c2) by (nonlinear_arith);
    assert((1int * (m.r0c0 * (m.r2c1 * m.r1c2))) == m.r0c0 * m.r1c2 * m.r2c1) by (nonlinear_arith);
    assert((1int * (m.r0c1 * ((m.r1c0 * m.r2c2) - (m.r1c2 * m.r2c0))))
        == (1int * (m.r0c1 * (m.r1c0 * m.r2c2))) - (1int * (m.r0c1 * (m.r1c2 * m.r2c0)))) by (nonlinear_arith);
    assert((1int * (m.r0c1 * (m.r1c0 * m.r2c2))) == m.r0c1 * m.r1c0 * m.r2c2) by (nonlinear_arith);
    assert((1int * (m.r0c1 * (m.r1c2 * m.r2c0))) == m.r0c1 * m.r1c2 * m.r2c0) by (nonlinear_arith);
    assert((1int * (m.r0c2 * ((m.r1c0 * m.r2c1) - (m.r1c1 * m.r2c0))))
        == (1int * (m.r0c2 * (m.r1c0 * m.r2c1))) - (1int * (m.r0c2 * (m.r1c1 * m.r2c0)))) by (nonlinear_arith);
    assert((1int * (m.r0c2 * (m.r1c0 * m.r2c1))) == m.r0c2 * m.r1c0 * m.r2c1) by (nonlinear_arith);
    assert((1int * (m.r0c2 * (m.r1c1 * m.r2c0))) == m.r0c2 * m.r1c1 * m.r2c0) by (nonlinear_arith);
}

/// A matrix times its adjugate is the identity times the determinant.
pub proof fn lemma_mat3_times_adjugate(m: Mat3Model<int>)
    ensures
        m.times(m.adjugate()) == Mat3Model::<int>::identity().times_each(m.determinant()),
{
    lemma_mat3_times_adjugate_r0c0(m);
    lemma_mat3_times_adjugate_r0c1(m);
    lemma_mat3_times_adjugate_r0c2(m);
    lemma_mat3_times_adjugate_r1c0(m);
    lemma_mat3_times_adjugate_r1c1(m);
    lemma_mat3_times_adjugate_r1c2(m);
    lemma_mat3_times_adjugate_r2c0(m);
    lemma_mat3_times_adjugate_r2c1(m);
    lemma_mat3_times_adjugate_r2c2(m);
}

proof fn lemma_mat3_adjugate_times_r0c0(m: Mat3Model<int>)
    ensures
        m.adjugate().times(m).r0c0 == Mat3Model::<int>::identity().times_each(m.determinant()).r0c0,
{
    assert((((m.r1c1 * m.r2c2) - (m.r2c1 * m.r1c2)) * m.r0c0)
        == ((m.r1c1 * m.r2c2) * m.r0c0) - ((m.r2c1 * m.r1c2) * m.r0c0)) by (nonlinear_arith);
    assert(((m.r1c1 * m.r2c2) * m.r0c0) == m.r0c0 * m.r1c1 * m.r2c2) by (nonlinear_arith);
    assert(((m.r2c1 * m.r1c2) * m.r0c0) == m.r0c0 * m.r1c2 * m.r2c1) by (nonlinear_arith);
    assert((((m.r0c2 * m.r2c1) - (m.r0c1 * m.r2c2)) * m.r1c0)
        == ((m.r0c2 * m.r2c1) * m.r1c0) - ((m.r0c1 * m.r2c2) * m.r1c0)) by (nonlinear_arith);
    assert(((m.r0c2 * m.r2c1) * m.r1c0) == m.r0c2 * m.r1c0 * m.r2c1) by (nonlinear_arith);
    assert(((m.r0c1 * m.r2c2) * m.r1c0) == m.r0c1 * m.r1c0 * m.r2c2) by (nonlinear_arith);
    assert((((m.r0c1 * m.r1c2) - (m.r0c2 * m.r1c1)) * m.r2c0)
        == ((m.r0c1 * m.r1c2) * m.r2c0) - ((m.r0c2 * m.r1c1) * m.r2c0)) by (nonlinear_arith);
    assert(((m.r0c1 * m.r1c2) * m.r2c0) == m.r0c1 * m.r1c2 * m.r2c0) by (nonlinear_arith);
    assert(((m.r0c2 * m.r1c1) * m.r2c0) == m.r0c2 * m.r1c1 * m.r2c0) by (nonlinear_arith);
    assert((1int * (((m.r0c0 * ((m.r1c1 * m.r2c2) - (m.r2c1 * m.r1c2))) - (m.r0c1 * ((m.r1c0 * m.r2c2) - (m.r1c2 * m.r2c0)))) + (m.r0c2 * ((m.r1c0 * m.r2c1) - (m.r1c1 * m.r2c0)))))
        == (1int * (m.r0c0 * ((m.r1c1 * m.r2c2) - (m.r2c1 * m.r1c2)))) - (1int * (m.r0c1 * ((m.r1c0 * m.r2c2) - (m.r1c2 * m.r2c0)))) + (1int * (m.r0c2 * ((m.r1c0 * m.r2c1) - (m.r1c1 * m.r2c0))))) by (nonlinear_arith);
    assert((1int * (m.r0c0 * ((m.r1c1 * m.r2c2) - (m.r2c1 * m.r1c2))))
        == (1int * (m.r0c0 * (m.r1c1 * m.r2c2))) - (1int * (m.r0c0 * (m.r2c1 * m.r1c2)))) by (nonlinear_arith);
    assert((1int * (m.r0c0 * (m.r1c1 * m.r2c2))) == m.r0c0 * m.r1c1 * m.r2c2) by (nonlinear_arith);
    assert((1int * (m.r0c0 * (m.r2c1 * m.r1c2))) == m.r0c0 * m.r1c2 * m.r2c1) by (nonlinear_arith);
    assert((1int * (m.r0c1 * ((m.r1c0 * m.r2c2) - (m.r1c2 * m.r2c0))))
        == (1int * (m.r0c1 * (m.r1c0 * m.r2c2))) - (1int * (m.r0c1 * (m.r1c2 * m.r2c0)))) by (nonlinear_arith);
    assert((1int * (m.r0c1 * (m.r1c0 * m.r2c2))) == m.r0c1 * m.r1c0 * m.r2c2) by (nonlinear_arith);
    assert((1int * (m.r0c1 * (m.r1c2 * m.r2c0))) == m.r0c1 * m.r1c2 * m.r2c0) by (nonlinear_arith);
    assert((1int * (m.r0c2 * ((m.r1c0 * m.r2c1) - (m.r1c1 * m.r2c0))))
        == (1int * (m.r0c2 * (m.r1c0 * m.r2c1))) - (1int * (m.r0c2 * (m.r1c1 * m.r2c0)))) by (nonlinear_arith);
    assert((1int * (m.r0c2 * (m.r1c0 * m.r2c1))) == m.r0c2 * m.r1c0 * m.r2c1) by (nonlinear_arith);
    assert((1int * (m.r0c2 * (m.r1c1 * m.r2c0))) == m.r0c2 * m.r1c1 * m.r2c0) by (nonlinear_arith);
}

proof fn lemma_mat3_adjugate_times_r0c1(m: Mat3Model<int>)
    ensures
        m.adjugate().times(m).r0c1 == Mat3Model::<int>::identity().times_each(m.determinant()).r0c1,
{
    assert((((m.r1c1 * m.r2c2) - (m.r2c1 * m.r1c2)) * m.r0c1)
        == ((m.r1c1 * m.r2c2) * m.r0c1) - ((m.r2c1 * m.r1c2) * m.r0c1)) by (nonlinear_arith);
    assert(((m.r1c1 * m.r2c2) * m.r0c1) == m.r0c1 * m.r1c1 * m.r2c2) by (nonlinear_arith);
    assert(((m.r2c1 * m.r1c2) * m.r0c1) == m.r0c1 * m.r1c2 * m.r2c1) by (nonlinear_arith);
    assert((((m.r0c2 * m.r2c1) - (m.r0c1 * m.r2c2)) * m.r1c1)
        == ((m.r0c2 * m.r2c1) * m.r1c1) - ((m.r0c1 * m.r2c2) * m.r1c1)) by (nonlinear_arith);
    assert(((m.r0c2 * m.r2c1) * m.r1c1) == m.r0c2 * m.r1c1 * m.r2c1) by (nonlinear_arith);
    assert(((m.r0c1 * m.r2c2) * m.r1c1) == m.r0c1 * m.r1c1 * m.r2c2) by (nonlinear_arith);
    assert((((m.r0c1 * m.r1c2) - (m.r0c2 * m.r1c1)) * m.r2c1)
        == ((m.r0c1 * m.r1c2) * m.r2c1) - ((m.r0c2 * m.r1c1) * m.r2c1)) by (nonlinear_arith);
    assert(((m.r0c1 * m.r1c2) * m.r2c1) == m.r0c1 * m.r1c2 * m.r2c1) by (nonlinear_arith);
    assert(((m.r0c2 * m.r1c1) * m.r2c1) == m.r0c2 * m.r1c1 * m.r2c1) by (nonlinear_arith);
    assert((0int * (((m.r0c0 * ((m.r1c1 * m.r2c2) - (m.r2c1 * m.r1c2))) - (m.r0c1 * ((m.r1c0 * m.r2c2) - (m.r1c2 * m.r2c0)))) + (m.r0c2 * ((m.r1c0 * m.r2c1) - (m.r1c1 * m.r2c0)))))
        == (0int * (m.r0c0 * ((m.r1c1 * m.r2c2) - (m.r2c1 * m.r1c2)))) - (0int * (m.r0c1 * ((m.r1c0 * m.r2c2) - (m.r1c2 * m.r2c0)))) + (0int * (m.r0c2 * ((m.r1c0 * m.r2c1) - (m.r1c1 * m.r2c0))))) by (nonlinear_arith);
    assert((0int * (m.r0c0 * ((m.r1c1 * m.r2c2) - (m.r2c1 * m.r1c2))))
        == (0int * (m.r0c0 * (m.r1c1 * m.r2c2))) - (0int * (m.r0c0 * (m.r2c1 * m.r1c2)))) by (nonlinear_arith);
    assert((0int * (m.r0c0 * (m.r1c1 * m.r2c2))) == 0int) by (nonlinear_arith);
    assert((0int * (m.r0c0 * (m.r2c1 * m.r1c2))) == 0int) by (nonlinear_arith);
    assert((0int * (m.r0c1 * ((m.r1c0 * m.r2c2) - (m.r1c2 * m.r2c0))))
        == (0int * (m.r0c1 * (m.r1c0 * m.r2c2))) - (0int * (m.r0c1 * (m.r1c2 * m.r2c0)))) by (nonlinear_arith);
    assert((0int * (m.r0c1 * (m.r1c0 * m.r2c2))) == 0int) by (nonlinear_arith);
    assert((0int * (m.r0c1 * (m.r1c2 * m.r2c0))) == 0int) by (nonlinear_arith);
    assert((0int * (m.r0c2 * ((m.r1c0 * m.r2c1) - (m.r1c1 * m.r2c0))))
        == (0int * (m.r0c2 * (m.r1c0 * m.r2c1))) - (0int * (m.r0c2 * (m.r1c1 * m.r2c0)))) by (nonlinear_arith);
    assert((0int * (m.r0c2 * (m.r1c0 * m.r2c1))) == 0int) by (nonlinear_arith);
    assert((0int * (m.r0c2 * (m.r1c1 * m.r2c0))) == 0int) by (nonlinear_arith);
}

proof fn lemma_mat3_adjugate_times_r0c2(m: Mat3Model<int>)
    ensures
        m.adjugate().times(m).r0c2 == Mat3Model::<int>::identity().times_each(m.determinant()).r0c2,
{
    assert((((m.r1c1 * m.r2c2) - (m.r2c1 * m.r1c2)) * m.r0c2)
        == ((m.r1c1 * m.r2c2) * m.r0c2) - ((m.r2c1 * m.r1c2) * m.r0c2)) by (nonlinear_arith);
    assert(((m.r1c1 * m.r2c2) * m.r0c2) == m.r0c2 * m.r1c1 * m.r2c2) by (nonlinear_arith);
    assert(((m.r2c1 * m.r1c2) * m.r0c2) == m.r0c2 * m.r1c2 * m.r2c1) by (nonlinear_arith);
    assert((((m.r0c2 * m.r2c1) - (m.r0c1 * m.r2c2)) * m.r1c2)
        == ((m.r0c2 * m.r2c1) * m.r1c2) - ((m.r0c1 * m.r2c2) * m.r1c2)) by (nonlinear_arith);
    assert(((m.r0c2 * m.r2c1) * m.r1c2) == m.r0c2 * m.r1c2 * m.r2c1) by (nonlinear_arith);
    assert(((m.r0c1 * m.r2c2) * m.r1c2) == m.r0c1 * m.r1c2 * m.r2c2) by (nonlinear_arith);
    assert((((m.r0c1 * m.r1c2) - (m.r0c2 * m.r1c1)) * m.r2c2)
        == ((m.r0c1 * m.r1c2) * m.r2c2) - ((m.r0c2 * m.r1c1) * m.r2c2)) by (nonlinear_arith);
    assert(((m.r0c1 * m.r1c2) * m.r2c2) == m.r0c1 * m.r1c2 * m.r2c2) by (nonlinear_arith);
    assert(((m.r0c2 * m.r1c1) * m.r2c2) == m.r0c2 * m.r1c1 * m.r2c2) by (nonlinear_arith);
    assert((0int * (((m.r0c0 * ((m.r1c1 * m.r2c2) - (m.r2c1 * m.r1c2))) - (m.r0c1 * ((m.r1c0 * m.r2c2) - (m.r1c2 * m.r2c0)))) + (m.r0c2 * ((m.r1c0 * m.r2c1) - (m.r1c1 * m.r2c0)))))
        == (0int * (m.r0c0 * ((m.r1c1 * m.r2c2) - (m.r2c1 * m.r1c2)))) - (0int * (m.r0c1 * ((m.r1c0 * m.r2c2) - (m.r1c2 * m.r2c0)))) + (0int * (m.r0c2 * ((m.r1c0 * m.r2c1) - (m.r1c1 * m.r2c0))))) by (nonlinear_arith);
    assert((0int * (m.r0c0 * ((m.r1c1 * m.r2c2) - (m.r2c1 * m.r1c2))))
        == (0int * (m.r0c0 * (m.r1c1 * m.r2c2))) - (0int * (m.r0c0 * (m.r2c1 * m.r1c2)))) by (nonlinear_arith);
    assert((0int * (m.r0c0 * (m.r1c1 * m.r2c2))) == 0int) by (nonlinear_arith);
    assert((0int * (m.r0c0 * (m.r2c1 * m.r1c2))) == 0int) by (nonlinear_arith);
    assert((0int * (m.r0c1 * ((m.r1c0 * m.r2c2) - (m.r1c2 * m.r2c0))))
        == (0int * (m.r0c1 * (m.r1c0 * m.r2c2))) - (0int * (m.r0c1 * (m.r1c2 * m.r2c0)))) by (nonlinear_arith);
    assert((0int * (m.r0c1 * (m.r1c0 * m.r2c2))) == 0int) by (nonlinear_arith);
    assert((0int * (m.r0c1 * (m.r1c2 * m.r2c0))) == 0int) by (nonlinear_arith);
    assert((0int * (m.r0c2 * ((m.r1c0 * m.r2c1) - (m.r1c1 * m.r2c0))))
        == (0int * (m.r0c2 * (m.r1c0 * m.r2c1))) - (0int * (m.r0c2 * (m.r1c1 * m.r2c0)))) by (nonlinear_arith);
    assert((0int * (m.r0c2 * (m.r1c0 * m.r2c1))) == 0int) by (nonlinear_arith);
    assert((0int * (m.r0c2 * (m.r1c1 * m.r2c0))) == 0int) by (nonlinear_arith);
}

proof fn lemma_mat3_adjugate_times_r1c0(m: Mat3Model<int>)
    ensures
        m.adjugate().times(m).r1c0 == Mat3Model::<int>::identity().times_each(m.determinant()).r1c0,
{
    assert((((m.r1c2 * m.r2c0) - (m.r1c0 * m.r2c2)) * m.r0c0)
        == ((m.r1c2 * m.r2c0) * m.r0c0) - ((m.r1c0 * m.r2c2) * m.r0c0)) by (nonlinear_arith);
    assert(((m.r1c2 * m.r2c0) * m.r0c0) == m.r0c0 * m.r1c2 * m.r2c0) by (nonlinear_arith);
    assert(((m.r1c0 * m.r2c2) * m.r0c0) == m.r0c0 * m.r1c0 * m.r2c2) by (nonlinear_arith);
    assert((((m.r0c0 * m.r2c2) - (m.r0c2 * m.r2c0)) * m.r1c0)
        == ((m.r0c0 * m.r2c2) * m.r1c0) - ((m.r0c2 * m.r2c0) * m.r1c0)) by (nonlinear_arith);
    assert(((m.r0c0 * m.r2c2) * m.r1c0) == m.r0c0 * m.r1c0 * m.r2c2) by (nonlinear_arith);
    assert(((m.r0c2 * m.r2c0) * m.r1c0) == m.r0c2 * m.r1c0 * m.r2c0) by (nonlinear_arith);
    assert((((m.r1c0 * m.r0c2) - (m.r0c0 * m.r1c2)) * m.r2c0)
        == ((m.r1c0 * m.r0c2) * m.r2c0) - ((m.r0c0 * m.r1c2) * m.r2c0)) by (nonlinear_arith);
    assert(((m.r1c0 * m.r0c2) * m.r2c0) == m.r0c2 * m.r1c0 * m.r2c0) by (nonlinear_arith);
    assert(((m.r0c0 * m.r1c2) * m.r2c0) == m.r0c0 * m.r1c2 * m.r2c0) by (nonlinear_arith);
    assert((0int * (((m.r0c0 * ((m.r1c1 * m.r2c2) - (m.r2c1 * m.r1c2))) - (m.r0c1 * ((m.r1c0 * m.r2c2) - (m.r1c2 * m.r2c0)))) + (m.r0c2 * ((m.r1c0 * m.r2c1) - (m.r1c1 * m.r2c0)))))
        == (0int * (m.r0c0 * ((m.r1c1 * m.r2c2) - (m.r2c1 * m.r1c2)))) - (0int * (m.r0c1 * ((m.r1c0 * m.r2c2) - (m.r1c2 * m.r2c0)))) + (0int * (m.r0c2 * ((m.r1c0 * m.r2c1) - (m.r1c1 * m.r2c0))))) by (nonlinear_arith);
    assert((0int * (m.r0c0 * ((m.r1c1 * m.r2c2) - (m.r2c1 * m.r1c2))))
        == (0int * (m.r0c0 * (m.r1c1 * m.r2c2))) - (0int * (m.r0c0 * (m.r2c1 * m.r1c2)))) by (nonlinear_arith);
    assert((0int * (m.r0c0 * (m.r1c1 * m.r2c2))) == 0int) by (nonlinear_arith);
    assert((0int * (m.r0c0 * (m.r2c1 * m.r1c2))) == 0int) by (nonlinear_arith);
    assert((0int * (m.r0c1 * ((m.r1c0 * m.r2c2) - (m.r1c2 * m.r2c0))))
        == (0int * (m.r0c1 * (m.r1c0 * m.r2c2))) - (0int * (m.r0c1 * (m.r1c2 * m.r2c0)))) by (nonlinear_arith);
    assert((0int * (m.r0c1 * (m.r1c0 * m.r2c2))) == 0int) by (nonlinear_arith);
    assert((0int * (m.r0c1 * (m.r1c2 * m.r2c0))) == 0int) by (nonlinear_arith);
    assert((0int * (m.r0c2 * ((m.r1c0 * m.r2c1) - (m.r1c1 * m.r2c0))))
        == (0int * (m.r0c2 * (m.r1c0 * m.r2c1))) - (0int * (m.r0c2 * (m.r1c1 * m.r2c0)))) by (nonlinear_arith);
    assert((0int * (m.r0c2 * (m.r1c0 * m.r2c1))) == 0int) by (nonlinear_arith);
    assert((0int * (m.r0c2 * (m.r1c1 * m.r2c0))) == 0int) by (nonlinear_arith);
}

proof fn lemma_mat3_adjugate_times_r1c1(m: Mat3Model<int>)
    ensures
        m.adjugate().times(m).r1c1 == Mat3Model::<int>::identity().times_each(m.determinant()).r1c1,
{
    assert((((m.r1c2 * m.r2c0) - (m.r1c0 * m.r2c2)) * m.r0c1)
        == ((m.r1c2 * m.r2c0) * m.r0c1) - ((m.r1c0 * m.r2c2) * m.r0c1)) by (nonlinear_arith);
    assert(((m.r1c2 * m.r2c0) * m.r0c1) == m.r0c1 * m.r1c2 * m.r2c0) by (nonlinear_arith);
    assert(((m.r1c0 * m.r2c2) * m.r0c1) == m.r0c1 * m.r1c0 * m.r2c2) by (nonlinear_arith);
    assert((((m.r0c0 * m.r2c2) - (m.r0c2 * m.r2c0)) * m.r1c1)
        == ((m.r0c0 * m.r2c2) * m.r1c1) - ((m.r0c2 * m.r2c0) * m.r1c1)) by (nonlinear_arith);
    assert(((m.r0c0 * m.r2c2) * m.r1c1) == m.r0c0 * m.r1c1 * m.r2c2) by (nonlinear_arith);
    assert(((m.r0c2 * m.r2c0) * m.r1c1) == m.r0c2 * m.r1c1 * m.r2c0) by (nonlinear_arith);
    assert((((m.r1c0 * m.r0c2) - (m.r0c0 * m.r1c2)) * m.r2c1)
        == ((m.r1c0 * m.r0c2) * m.r2c1) - ((m.r0c0 * m.r1c2) * m.r2c1)) by (nonlinear_arith);
    assert(((m.r1c0 * m.r0c2) * m.r2c1) == m.r0c2 * m.r1c0 * m.r2c1) by (nonlinear_arith);
    assert(((m.r0c0 * m.r1c2) * m.r2c1) == m.r0c0 * m.r1c2 * m.r2c1) by (nonlinear_arith);
    assert((1int * (((m.r0c0 * ((m.r1c1 * m.r2c2) - (m.r2c1 * m.r1c2))) - (m.r0c1 * ((m.r1c0 * m.r2c2) - (m.r1c2 * m.r2c0)))) + (m.r0c2 * ((m.r1c0 * m.r2c1) - (m.r1c1 * m.r2c0)))))
        == (1int * (m.r0c0 * ((m.r1c1 * m.r2c2) - (m.r2c1 * m.r1c2)))) - (1int * (m.r0c1 * ((m.r1c0 * m.r2c2) - (m.r1c2 * m.r2c0)))) + (1int * (m.r0c2 * ((m.r1c0 * m.r2c1) - (m.r1c1 * m.r2c0))))) by (nonlinear_arith);
    assert((1int * (m.r0c0 * ((m.r1c1 * m.r2c2) - (m.r2c1 * m.r1c2))))
        == (1int * (m.r0c0 * (m.r1c1 * m.r2c2))) - (1int * (m.r0c0 * (m.r2c1 * m.r1c2)))) by (nonlinear_arith);
    assert((1int * (m.r0c0 * (m.r1c1 * m.r2c2))) == m.r0c0 * m.r1c1 * m.r2c2) by (nonlinear_arith);
    assert((1int * (m.r0c0 * (m.r2c1 * m.r1c2))) == m.r0c0 * m.r1c2 * m.r2c1) by (nonlinear_arith);
    assert((1int * (m.r0c1 * ((m.r1c0 * m.r2c2) - (m.r1c2 * m.r2c0))))
        == (1int * (m.r0c1 * (m.r1c0 * m.r2c2))) - (1int * (m.r0c1 * (m.r1c2 * m.r2c0)))) by (nonlinear_arith);
    assert((1int * (m.r0c1 * (m.r1c0 * m.r2c2))) == m.r0c1 * m.r1c0 * m.r2c2) by (nonlinear_arith);
    assert((1int * (m.r0c1 * (m.r1c2 * m.r2c0))) == m.r0c1 * m.r1c2 * m.r2c0) by (nonlinear_arith);
    assert((1int * (m.r0c2 * ((m.r1c0 * m.r2c1) - (m.r1c1 * m.r2c0))))
        == (1int * (m.r0c2 * (m.r1c0 * m.r2c1))) - (1int * (m.r0c2 * (m.r1c1 * m.r2c0)))) by (nonlinear_arith);
    assert((1int * (m.r0c2 * (m.r1c0 * m.r2c1))) == m.r0c2 * m.r1c0 * m.r2c1) by (nonlinear_arith);
    assert((1int * (m.r0c2 * (m.r1c1 * m.r2c0))) == m.r0c2 * m.r1c1 * m.r2c0) by (nonlinear_arith);
}

proof fn lemma_mat3_adjugate_times_r1c2(m: Mat3Model<int>)
    ensures
        m.adjugate().times(m).r1c2 == Mat3Model::<int>::identity().times_each(m.determinant()).r1c2,
{
    assert((((m.r1c2 * m.r2c0) - (m.r1c0 * m.r2c2)) * m.r0c2)
        == ((m.r1c2 * m.r2c0) * m.r0c2) - ((m.r1c0 * m.r2c2) * m.r0c2)) by (nonlinear_arith);
    assert(((m.r1c2 * m.r2c0) * m.r0c2) == m.r0c2 * m.r1c2 * m.r2c0) by (nonlinear_arith);
    assert(((m.r1c0 * m.r2c2) * m.r0c2) == m.r0c2 * m.r1c0 * m.r2c2) by (nonlinear_arith);
    assert((((m.r0c0 * m.r2c2) - (m.r0c2 * m.r2c0)) * m.r1c2)
        == ((m.r0c0 * m.r2c2) * m.r1c2) - ((m.r0c2 * m.r2c0) * m.r1c2)) by (nonlinear_arith);
    assert(((m.r0c0 * m.r2c2) * m.r1c2) == m.r0c0 * m.r1c2 * m.r2c2) by (nonlinear_arith);
    assert(((m.r0c2 * m.r2c0) * m.r1c2) == m.r0c2 * m.r1c2 * m.r2c0) by (nonlinear_arith);
    assert((((m.r1c0 * m.r0c2) - (m.r0c0 * m.r1c2)) * m.r2c2)
        == ((m.r1c0 * m.r0c2) * m.r2c2) - ((m.r0c0 * m.r1c2) * m.r2c2)) by (nonlinear_arith);
    assert(((m.r1c0 * m.r0c2) * m.r2c2) == m.r0c2 * m.r1c0 * m.r2c2) by (nonlinear_arith);
    assert(((m.r0c0 * m.r1c2) * m.r2c2) == m.r0c0 * m.r1c2 * m.r2c2) by (nonlinear_arith);
    assert((0int * (((m.r0c0 * ((m.r1c1 * m.r2c2) - (m.r2c1 * m.r1c2))) - (m.r0c1 * ((m.r1c0 * m.r2c2) - (m.r1c2 * m.r2c0)))) + (m.r0c2 * ((m.r1c0 * m.r2c1) - (m.r1c1 * m.r2c0)))))
        == (0int * (m.r0c0 * ((m.r1c1 * m.r2c2) - (m.r2c1 * m.r1c2)))) - (0int * (m.r0c1 * ((m.r1c0 * m.r2c2) - (m.r1c2 * m.r2c0)))) + (0int * (m.r0c2 * ((m.r1c0 * m.r2c1) - (m.r1c1 * m.r2c0))))) by (nonlinear_arith);
    assert((0int * (m.r0c0 * ((m.r1c1 * m.r2c2) - (m.r2c1 * m.r1c2))))
        == (0int * (m.r0c0 * (m.r1c1 * m.r2c2))) - (0int * (m.r0c0 * (m.r2c1 * m.r1c2)))) by (nonlinear_arith);
    assert((0int * (m.r0c0 * (m.r1c1 * m.r2c2))) == 0int) by (nonlinear_arith);
    assert((0int * (m.r0c0 * (m.r2c1 * m.r1c2))) == 0int) by (nonlinear_arith);
    assert((0int * (m.r0c1 * ((m.r1c0 * m.r2c2) - (m.r1c2 * m.r2c0))))
        == (0int * (m.r0c1 * (m.r1c0 * m.r2c2))) - (0int * (m.r0c1 * (m.r1c2 * m.r2c0)))) by (nonlinear_arith);
    assert((0int * (m.r0c1 * (m.r1c0 * m.r2c2))) == 0int) by (nonlinear_arith);
    assert((0int * (m.r0c1 * (m.r1c2 * m.r2c0))) == 0int) by (nonlinear_arith);
    assert((0int * (m.r0c2 * ((m.r1c0 * m.r2c1) - (m.r1c1 * m.r2c0))))
        == (0int * (m.r0c2 * (m.r1c0 * m.r2c1))) - (0int * (m.r0c2 * (m.r1c1 * m.r2c0)))) by (nonlinear_arith);
    assert((0int * (m.r0c2 * (m.r1c0 * m.r2c1))) == 0int) by (nonlinear_arith);
    assert((0int * (m.r0c2 * (m.r1c1 * m.r2c0))) == 0int) by (nonlinear_arith);
}

proof fn lemma_mat3_adjugate_times_r2c0(m: Mat3Model<int>)
    ensures
        m.adjugate().times(m).r2c0 == Mat3Model::<int>::identity().times_each(m.determinant()).r2c0,
{
    assert((((m.r1c0 * m.r2c1) - (m.r2c0 * m.r1c1)) * m.r0c0)
        == ((m.r1c0 * m.r2c1) * m.r0c0) - ((m.r2c0 * m.r1c1) * m.r0c0)) by (nonlinear_arith);
    assert(((m.r1c0 * m.r2c1) * m.r0c0) == m.r0c0 * m.r1c0 * m.r2c1) by (nonlinear_arith);
    assert(((m.r2c0 * m.r1c1) * m.r0c0) == m.r0c0 * m.r1c1 * m.r2c0) by (nonlinear_arith);
    assert((((m.r2c0 * m.r0c1) - (m.r0c0 * m.r2c1)) * m.r1c0)
        == ((m.r2c0 * m.r0c1) * m.r1c0) - ((m.r0c0 * m.r2c1) * m.r1c0)) by (nonlinear_arith);
    assert(((m.r2c0 * m.r0c1) * m.r1c0) == m.r0c1 * m.r1c0 * m.r2c0) by (nonlinear_arith);
    assert(((m.r0c0 * m.r2c1) * m.r1c0) == m.r0c0 * m.r1c0 * m.r2c1) by (nonlinear_arith);
    assert((((m.r0c0 * m.r1c1) - (m.r1c0 * m.r0c1)) * m.r2c0)
        == ((m.r0c0 * m.r1c1) * m.r2c0) - ((m.r1c0 * m.r0c1) * m.r2c0)) by (nonlinear_arith);
    assert(((m.r0c0 * m.r1c1) * m.r2c0) == m.r0c0 * m.r1c1 * m.r2c0) by (nonlinear_arith);
    assert(((m.r1c0 * m.r0c1) * m.r2c0) == m.r0c1 * m.r1c0 * m.r2c0) by (nonlinear_arith);
    assert((0int * (((m.r0c0 * ((m.r1c1 * m.r2c2) - (m.r2c1 * m.r1c2))) - (m.r0c1 * ((m.r1c0 * m.r2c2) - (m.r1c2 * m.r2c0)))) + (m.r0c2 * ((m.r1c0 * m.r2c1) - (m.r1c1 * m.r2c0)))))
        == (0int * (m.r0c0 * ((m.r1c1 * m.r2c2) - (m.r2c1 * m.r1c2)))) - (0int * (m.r0c1 * ((m.r1c0 * m.r2c2) - (m.r1c2 * m.r2c0)))) + (0int * (m.r0c2 * ((m.r1c0 * m.r2c1) - (m.r1c1 * m.r2c0))))) by (nonlinear_arith);
    assert((0int * (m.r0c0 * ((m.r1c1 * m.r2c2) - (m.r2c1 * m.r1c2))))
        == (0int * (m.r0c0 * (m.r1c1 * m.r2c2))) - (0int * (m.r0c0 * (m.r2c1 * m.r1c2)))) by (nonlinear_arith);
    assert((0int * (m.r0c0 * (m.r1c1 * m.r2c2))) == 0int) by (nonlinear_arith);
    assert((0int * (m.r0c0 * (m.r2c1 * m.r1c2))) == 0int) by (nonlinear_arith);
    assert((0int * (m.r0c1 * ((m.r1c0 * m.r2c2) - (m.r1c2 * m.r2c0))))
        == (0int * (m.r0c1 * (m.r1c0 * m.r2c2))) - (0int * (m.r0c1 * (m.r1c2 * m.r2c0)))) by (nonlinear_arith);
    assert((0int * (m.r0c1 * (m.r1c0 * m.r2c2))) == 0int) by (nonlinear_arith);
    assert((0int * (m.r0c1 * (m.r1c2 * m.r2c0))) == 0int) by (nonlinear_arith);
    assert((0int * (m.r0c2 * ((m.r1c0 * m.r2c1) - (m.r1c1 * m.r2c0))))
        == (0int * (m.r0c2 * (m.r1c0 * m.r2c1))) - (0int * (m.r0c2 * (m.r1c1 * m.r2c0)))) by (nonlinear_arith);
    assert((0int * (m.r0c2 * (m.r1c0 * m.r2c1))) == 0int) by (nonlinear_arith);
    assert((0int * (m.r0c2 * (m.r1c1 * m.r2c0))) == 0int) by (nonlinear_arith);
}

proof fn lemma_mat3_adjugate_times_r2c1(m: Mat3Model<int>)
    ensures
        m.adjugate().times(m).r2c1 == Mat3Model::<int>::identity().times_each(m.determinant()).r2c1,
{
    assert((((m.r1c0 * m.r2c1) - (m.r2c0 * m.r1c1)) * m.r0c1)
        == ((m.r1c0 * m.r2c1) * m.r0c1) - ((m.r2c0 * m.r1c1) * m.r0c1)) by (nonlinear_arith);
    assert(((m.r1c0 * m.r2c1) * m.r0c1) == m.r0c1 * m.r1c0 * m.r2c1) by (nonlinear_arith);
    assert(((m.r2c0 * m.r1c1) * m.r0c1) == m.r0c1 * m.r1c1 * m.r2c0) by (nonlinear_arith);
    assert((((m.r2c0 * m.r0c1) - (m.r0c0 * m.r2c1)) * m.r1c1)
        == ((m.r2c0 * m.r0c1) * m.r1c1) - ((m.r0c0 * m.r2c1) * m.r1c1)) by (nonlinear_arith);
    assert(((m.r2c0 * m.r0c1) * m.r1c1) == m.r0c1 * m.r1c1 * m.r2c0) by (nonlinear_arith);
    assert(((m.r0c0 * m.r2c1) * m.r1c1) == m.r0c0 * m.r1c1 * m.r2c1) by (nonlinear_arith);
    assert((((m.r0c0 * m.r1c1) - (m.r1c0 * m.r0c1)) * m.r2c1)
        == ((m.r0c0 * m.r1c1) * m.r2c1) - ((m.r1c0 * m.r0c1) * m.r2c1)) by (nonlinear_arith);
    assert(((m.r0c0 * m.r1c1) * m.r2c1) == m.r0c0 * m.r1c1 * m.r2c1) by (nonlinear_arith);
    assert(((m.r1c0 * m.r0c1) * m.r2c1) == m.r0c1 * m.r1c0 * m.r2c1) by (nonlinear_arith);
    assert((0int * (((m.r0c0 * ((m.r1c1 * m.r2c2) - (m.r2c1 * m.r1c2))) - (m.r0c1 * ((m.r1c0 * m.r2c2) - (m.r1c2 * m.r2c0)))) + (m.r0c2 * ((m.r1c0 * m.r2c1) - (m.r1c1 * m.r2c0)))))
        == (0int * (m.r0c0 * ((m.r1c1 * m.r2c2) - (m.r2c1 * m.r1c2)))) - (0int * (m.r0c1 * ((m.r1c0 * m.r2c2) - (m.r1c2 * m.r2c0)))) + (0int * (m.r0c2 * ((m.r1c0 * m.r2c1) - (m.r1c1 * m.r2c0))))) by (nonlinear_arith);
    assert((0int * (m.r0c0 * ((m.r1c1 * m.r2c2) - (m.r2c1 * m.r1c2))))
        == (0int * (m.r0c0 * (m.r1c1 * m.r2c2))) - (0int * (m.r0c0 * (m.r2c1 * m.r1c2)))) by (nonlinear_arith);
    assert((0int * (m.r0c0 * (m.r1c1 * m.r2c2))) == 0int) by (nonlinear_arith);
    assert((0int * (m.r0c0 * (m.r2c1 * m.r1c2))) == 0int) by (nonlinear_arith);
    assert((0int * (m.r0c1 * ((m.r1c0 * m.r2c2) - (m.r1c2 * m.r2c0))))
        == (0int * (m.r0c1 * (m.r1c0 * m.r2c2))) - (0int * (m.r0c1 * (m.r1c2 * m.r2c0)))) by (nonlinear_arith);
    assert((0int * (m.r0c1 * (m.r1c0 * m.r2c2))) == 0int) by (nonlinear_arith);
    assert((0int * (m.r0c1 * (m.r1c2 * m.r2c0))) == 0int) by (nonlinear_arith);
    assert((0int * (m.r0c2 * ((m.r1c0 * m.r2c1) - (m.r1c1 * m.r2c0))))
        == (0int * (m.r0c2 * (m.r1c0 * m.r2c1))) - (0int * (m.r0c2 * (m.r1c1 * m.r2c0)))) by (nonlinear_arith);
    assert((0int * (m.r0c2 * (m.r1c0 * m.r2c1))) == 0int) by (nonlinear_arith);
    assert((0int * (m.r0c2 * (m.r1c1 * m.r2c0))) == 0int) by (nonlinear_arith);
}

proof fn lemma_mat3_adjugate_times_r2c2(m: Mat3Model<int>)
    ensures
        m.adjugate().times(m).r2c2 == Mat3Model::<int>::identity().times_each(m.determinant()).r2c2,
{
    assert((((m.r1c0 * m.r2c1) - (m.r2c0 * m.r1c1)) * m.r0c2)
        == ((m.r1c0 * m.r2c1) * m.r0c2) - ((m.r2c0 * m.r1c1) * m.r0c2)) by (nonlinear_arith);
    assert(((m.r1c0 * m.r2c1) * m.r0c2) == m.r0c2 * m.r1c0 * m.r2c1) by (nonlinear_arith);
    assert(((m.r2c0 * m.r1c1) * m.r0c2) == m.r0c2 * m.r1c1 * m.r2c0) by (nonlinear_arith);
    assert((((m.r2c0 * m.r0c1) - (m.r0c0 * m.r2c1)) * m.r1c2)
        == ((m.r2c0 * m.r0c1) * m.r1c2) - ((m.r0c0 * m.r2c1) * m.r1c2)) by (nonlinear_arith);
    assert(((m.r2c0 * m.r0c1) * m.r1c2) == m.r0c1 * m.r1c2 * m.r2c0) by (nonlinear_arith);
    assert(((m.r0c0 * m.r2c1) * m.r1c2) == m.r0c0 * m.r1c2 * m.r2c1) by (nonlinear_arith);
    assert((((m.r0c0 * m.r1c1) - (m.r1c0 * m.r0c1)) * m.r2c2)
        == ((m.r0c0 * m.r1c1) * m.r2c2) - ((m.r1c0 * m.r0c1) * m.r2c2)) by (nonlinear_arith);
    assert(((m.r0c0 * m.r1c1) * m.r2c2) == m.r0c0 * m.r1c1 * m.r2c2) by (nonlinear_arith);
    assert(((m.r1c0 * m.r0c1) * m.r2c2) == m.r0c1 * m.r1c0 * m.r2c2) by (nonlinear_arith);
    assert((1int * (((m.r0c0 * ((m.r1c1 * m.r2c2) - (m.r2c1 * m.r1c2))) - (m.r0c1 * ((m.r1c0 * m.r2c2) - (m.r1c2 * m.r2c0)))) + (m.r0c2 * ((m.r1c0 * m.r2c1) - (m.r1c1 * m.r2c0)))))
        == (1int * (m.r0c0 * ((m.r1c1 * m.r2c2) - (m.r2c1 * m.r1c2)))) - (1int * (m.r0c1 * ((m.r1c0 * m.r2c2) - (m.r1c2 * m.r2c0)))) + (1int * (m.r0c2 * ((m.r1c0 * m.r2c1) - (m.r1c1 * m.r2c0))))) by (nonlinear_arith);
    assert((1int * (m.r0c0 * ((m.r1c1 * m.r2c2) - (m.r2c1 * m.r1c2))))
        == (1int * (m.r0c0 * (m.r1c1 * m.r2c2))) - (1int * (m.r0c0 * (m.r2c1 * m.r1c2)))) by (nonlinear_arith);
    assert((1int * (m.r0c0 * (m.r1c1 * m.r2c2))) == m.r0c0 * m.r1c1 * m.r2c2) by (nonlinear_arith);
    assert((1int * (m.r0c0 * (m.r2c1 * m.r1c2))) == m.r0c0 * m.r1c2 * m.r2c1) by (nonlinear_arith);
    assert((1int * (m.r0c1 * ((m.r1c0 * m.r2c2) - (m.r1c2 * m.r2c0))))
        == (1int * (m.r0c1 * (m.r1c0 * m.r2c2))) - (1int * (m.r0c1 * (m.r1c2 * m.r2c0)))) by (nonlinear_arith);
    assert((1int * (m.r0c1 * (m.r1c0 * m.r2c2))) == m.r0c1 * m.r1c0 * m.r2c2) by (nonlinear_arith);
    assert((1int * (m.r0c1 * (m.r1c2 * m.r2c0))) == m.r0c1 * m.r1c2 * m.r2c0) by (nonlinear_arith);
    assert((1int * (m.r0c2 * ((m.r1c0 * m.r2c1) - (m.r1c1 * m.r2c0))))
        == (1int * (m.r0c2 * (m.r1c0 * m.r2c1))) - (1int * (m.r0c2 * (m.r1c1 * m.r2c0)))) by (nonlinear_arith);
    assert((1int * (m.r0c2 * (m.r1c0 * m.r2c1))) == m.r0c2 * m.r1c0 * m.r2c1) by (nonlinear_arith);
    assert((1int * (m.r0c2 * (m.r1c1 * m.r2c0))) == m.r0c2 * m.r1c1 * m.r2c0) by (nonlinear_arith);
}

/// The adjugate of a matrix times the matrix is the identity times the determinant.
pub proof fn lemma_mat3_adjugate_times(m: Mat3Model<int>)
    ensures
        m.adjugate().times(m) == Mat3Model::<int>::identity().times_each(m.determinant()),
{
    lemma_mat3_adjugate_times_r0c0(m);
    lemma_mat3_adjugate_times_r0c1(m);
    lemma_mat3_adjugate_times_r0c2(m);
    lemma_mat3_adjugate_times_r1c0(m);
    lemma_mat3_adjugate_times_r1c1(m);
    lemma_mat3_adjugate_times_r1c2(m);
    lemma_mat3_adjugate_times_r2c0(m);
    lemma_mat3_adjugate_times_r2c1(m);
    lemma_mat3_adjugate_times_r2c2(m);
}

} // verus!
