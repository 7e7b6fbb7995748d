//! What formulas are written over.
//!
//! A formula of this crate is a specification function over any type with the operations it
//! needs. Read over [`Term`](super::Term) it says what the executable code computes and when;
//! read over `int` or `real` it is the arithmetic of the integers or of the real numbers, in
//! which the laws of the crate are stated.
use super::integer::truncated;
use vstd::prelude::*;

verus! {

/// Addition, subtraction and multiplication, a zero and a one.
pub trait Ring: Sized {
    spec fn plus(self, rhs: Self) -> Self;

    spec fn minus(self, rhs: Self) -> Self;

    spec fn times(self, rhs: Self) -> Self;

    spec fn zero() -> Self;

    spec fn one() -> Self;
}

/// Unary minus.
pub trait Negation: Sized {
    spec fn negated(self) -> Self;
}

/// Division.
pub trait Division: Sized {
    spec fn over(self, rhs: Self) -> Self;
}

impl Ring for int {
    open spec fn plus(self, rhs: int) -> int {
        self + rhs
    }

    open spec fn minus(self, rhs: int) -> int {
        self - rhs
    }

    open spec fn times(self, rhs: int) -> int {
        self * rhs
    }

    open spec fn zero() -> int {
        0
    }

    open spec fn one() -> int {
        1
    }
}

impl Negation for int {
    open spec fn negated(self) -> int {
        -self
    }
}

/// The quotient rounded towards zero, as the primitive integers divide.
impl Division for int {
    open spec fn over(self, rhs: int) -> int {
        truncated(self, rhs)
    }
}

impl Ring for real {
    open spec fn plus(self, rhs: real) -> real {
        self + rhs
    }

    open spec fn minus(self, rhs: real) -> real {
        self - rhs
    }

    open spec fn times(self, rhs: real) -> real {
        self * rhs
    }

    open spec fn zero() -> real {
        0real
    }

    open spec fn one() -> real {
        1real
    }
}

impl Negation for real {
    open spec fn negated(self) -> real {
        -self
    }
}

impl Division for real {
    open spec fn over(self, rhs: real) -> real {
        self / rhs
    }
}

} // verus!
