//! The capabilities an element type can have, and the vocabulary in which results are stated.
use core::ops::Add;
use core::ops::Div;
use core::ops::Mul;
use core::ops::Neg;
use core::ops::Rem;
use core::ops::Sub;
use vstd::prelude::*;
use vstd::std_specs::ops::AddSpec;
use vstd::std_specs::ops::DivSpec;
use vstd::std_specs::ops::MulSpec;
use vstd::std_specs::ops::NegSpec;
use vstd::std_specs::ops::SubSpec;

pub mod float;
pub mod generic;
pub mod integer;
pub mod order;
pub mod ring;
pub mod term;

pub use generic::Identity;
pub use generic::Signed;
pub use generic::Zero;
pub use ring::Division;
pub use ring::Negation;
pub use ring::Ring;
pub use term::Term;

verus! {

/// A type closed under `+ - * / %`, with a zero and a one, copied by value and compared by `<`.
pub trait Numeric: Sized + core::fmt::Debug + Copy + PartialEq + PartialOrd + Add<
    Self,
    Output = Self,
> + Div<Self, Output = Self> + Mul<Self, Output = Self> + Sub<Self, Output = Self> + Rem<
    Self,
    Output = Self,
> + Identity + Zero {

}

/// The four operators of `V` return what their specifications say.
pub open spec fn obeys_arith<V: Numeric>() -> bool {
    &&& <V as AddSpec>::obeys_add_spec()
    &&& <V as SubSpec>::obeys_sub_spec()
    &&& <V as MulSpec>::obeys_mul_spec()
    &&& <V as DivSpec>::obeys_div_spec()
}

/// Unary minus on `V` returns what its specification says.
pub open spec fn obeys_neg<V: Neg<Output = V>>() -> bool {
    <V as NegSpec>::obeys_neg_spec()
}

} // verus!
