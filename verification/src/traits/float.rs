//! What an element type needs for lengths and rotations: rounding, square roots, trigonometry.
//!
//! No type of this crate implements these traits. Their contracts say only that each method
//! returns the value its specification function names, so whatever is proved through them holds
//! of an implementation as far as that implementation keeps this promise.
use super::Numeric;
use super::Signed;
use vstd::prelude::*;

verus! {

/// Rounding to a whole number: to the nearest, down, towards zero, up.
pub trait Round: Sized {
    spec fn round_spec(self) -> Self;

    spec fn floor_spec(self) -> Self;

    spec fn trunc_spec(self) -> Self;

    spec fn ceil_spec(self) -> Self;

    fn round(&self) -> (r: Self)
        ensures
            r == self.round_spec(),
    ;

    fn floor(&self) -> (r: Self)
        ensures
            r == self.floor_spec(),
    ;

    fn trunc(&self) -> (r: Self)
        ensures
            r == self.trunc_spec(),
    ;

    fn ceil(&self) -> (r: Self)
        ensures
            r == self.ceil_spec(),
    ;
}

/// The square root.
pub trait Sqrt: Sized {
    spec fn sqrt_spec(self) -> Self;

    fn sqrt(&self) -> (r: Self)
        ensures
            r == self.sqrt_spec(),
    ;
}

/// The trigonometric functions, their inverses, and the number pi.
pub trait Trig: Sized {
    spec fn acos_spec(self) -> Self;

    spec fn asin_spec(self) -> Self;

    spec fn atan_spec(self) -> Self;

    spec fn cos_spec(self) -> Self;

    spec fn sin_spec(self) -> Self;

    spec fn tan_spec(self) -> Self;

    spec fn pi_spec() -> Self;

    fn acos(&self) -> (r: Self)
        ensures
            r == self.acos_spec(),
    ;

    fn asin(&self) -> (r: Self)
        ensures
            r == self.asin_spec(),
    ;

    fn atan(&self) -> (r: Self)
        ensures
            r == self.atan_spec(),
    ;

    fn cos(&self) -> (r: Self)
        ensures
            r == self.cos_spec(),
    ;

    fn sin(&self) -> (r: Self)
        ensures
            r == self.sin_spec(),
    ;

    fn tan(&self) -> (r: Self)
        ensures
            r == self.tan_spec(),
    ;

    fn pi() -> (r: Self)
        ensures
            r == Self::pi_spec(),
    ;
}

/// Everything a rotation needs of its element type.
pub trait Float: Signed + Numeric + Round + Sqrt + Trig {

}

} // verus!
