//! Formulas over an element type.
use super::float::Sqrt;
use super::float::Trig;
use super::ring::Division;
use super::ring::Negation;
use super::ring::Ring;
use super::Numeric;
use super::Signed;
use core::ops::Neg;
use vstd::prelude::*;
use vstd::std_specs::ops::AddSpec;
use vstd::std_specs::ops::DivSpec;
use vstd::std_specs::ops::MulSpec;
use vstd::std_specs::ops::NegSpec;
use vstd::std_specs::ops::SubSpec;

verus! {

/// The outcome of a formula over `V`: its value, and whether every operation in it was defined.
///
/// An operation is defined where the operator's own precondition holds. A function of this crate
/// that computes a formula asks that its term be `defined` and returns the term's `value`.
pub struct Term<V> {
    pub value: V,
    pub defined: bool,
}

impl<V> Term<V> {
    /// A given value: always defined.
    pub open spec fn of(v: V) -> Term<V> {
        Term { value: v, defined: true }
    }

    /// `self`, where `other` is computed first: defined only if `other` is.
    pub open spec fn after(self, other: Term<V>) -> Term<V> {
        Term { value: self.value, defined: self.defined && other.defined }
    }
}

impl<V: Numeric> Ring for Term<V> {
    /// `self + rhs`.
    open spec fn plus(self, rhs: Term<V>) -> Term<V> {
        Term {
            value: self.value.add_spec(rhs.value),
            defined: self.defined && rhs.defined && self.value.add_req(rhs.value),
        }
    }

    /// `self - rhs`.
    open spec fn minus(self, rhs: Term<V>) -> Term<V> {
        Term {
            value: self.value.sub_spec(rhs.value),
            defined: self.defined && rhs.defined && self.value.sub_req(rhs.value),
        }
    }

    /// `self * rhs`.
    open spec fn times(self, rhs: Term<V>) -> Term<V> {
        Term {
            value: self.value.mul_spec(rhs.value),
            defined: self.defined && rhs.defined && self.value.mul_req(rhs.value),
        }
    }

    open spec fn zero() -> Term<V> {
        Term::of(V::zero_spec())
    }

    open spec fn one() -> Term<V> {
        Term::of(V::identity_spec())
    }
}

impl<V: Numeric> Division for Term<V> {
    /// `self / rhs`.
    open spec fn over(self, rhs: Term<V>) -> Term<V> {
        Term {
            value: self.value.div_spec(rhs.value),
            defined: self.defined && rhs.defined && self.value.div_req(rhs.value),
        }
    }
}

impl<V: Neg<Output = V>> Negation for Term<V> {
    /// `-self`.
    open spec fn negated(self) -> Term<V> {
        Term { value: self.value.neg_spec(), defined: self.defined && self.value.neg_req() }
    }
}

impl<V: Sqrt> Term<V> {
    /// The square root of `self`.
    pub open spec fn root(self) -> Term<V> {
        Term { value: self.value.sqrt_spec(), defined: self.defined }
    }
}

impl<V: Trig> Term<V> {
    pub open spec fn sin(self) -> Term<V> {
        Term { value: self.value.sin_spec(), defined: self.defined }
    }

    pub open spec fn cos(self) -> Term<V> {
        Term { value: self.value.cos_spec(), defined: self.defined }
    }

    pub open spec fn tan(self) -> Term<V> {
        Term { value: self.value.tan_spec(), defined: self.defined }
    }

    pub open spec fn acos(self) -> Term<V> {
        Term { value: self.value.acos_spec(), defined: self.defined }
    }

    pub open spec fn asin(self) -> Term<V> {
        Term { value: self.value.asin_spec(), defined: self.defined }
    }

    pub open spec fn atan(self) -> Term<V> {
        Term { value: self.value.atan_spec(), defined: self.defined }
    }
}

impl<V: Signed> Term<V> {
    /// The absolute value of `self`.
    pub open spec fn abs(self) -> Term<V> {
        Term { value: self.value.abs_spec(), defined: self.defined && self.value.abs_req() }
    }

    /// The sign of `self`.
    pub open spec fn signum(self) -> Term<V> {
        Term { value: self.value.signum_spec(), defined: self.defined }
    }
}

} // verus!
