//! One, zero and sign.
use core::ops::Neg;
use vstd::prelude::*;

verus! {

/// A type with a multiplicative identity.
pub trait Identity: Sized {
    /// The identity, as a value of specifications.
    spec fn identity_spec() -> Self;

    fn identity() -> (r: Self)
        ensures
            r == Self::identity_spec(),
    ;
}

/// A type with an additive identity.
pub trait Zero: Sized {
    /// The zero, as a value of specifications.
    spec fn zero_spec() -> Self;

    fn zero() -> (r: Self)
        ensures
            r == Self::zero_spec(),
    ;
}

/// A type with negative values.
pub trait Signed: Sized + Neg<Output = Self> {
    /// Whether the absolute value exists in the type.
    spec fn abs_req(self) -> bool;

    /// The absolute value.
    spec fn abs_spec(self) -> Self;

    /// The sign: one, zero or minus one for the integers.
    spec fn signum_spec(self) -> Self;

    fn abs(&self) -> (r: Self)
        requires
            self.abs_req(),
        ensures
            r == self.abs_spec(),
    ;

    fn signum(&self) -> (r: Self)
        ensures
            r == self.signum_spec(),
    ;
}

} // verus!
