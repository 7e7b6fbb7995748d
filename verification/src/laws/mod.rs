//! What holds of the formulas of the crate, read over the integers and over the real numbers.
//!
//! A formula is written over any [`Ring`](crate::traits::Ring). Read over the integers or the
//! real numbers it is a polynomial, and a law is an identity of polynomials, or follows from
//! one under a premise.
//!
//! - Over the integers stand the laws without a premise: [`mat3_adjugate`],
//!   [`mat4_adjugate`], [`quaternion`], [`rotation3`], [`rotation4`], [`turns`]. [`integers`]
//!   ties what the functions compute for an integer element type to them. [`inverse`] and
//!   [`projection`] speak of the division of the integers, which rounds towards zero.
//! - Over the real numbers stand the laws that need a division or a premise of unit length:
//!   [`real_inverse`], with [`real_mat3_adjugate`] and [`real_mat4_adjugate`] under it, and
//!   [`real_rotation`], where the rotations by a quaternion, by the formula of Rodrigues and
//!   about the single axes are shown to agree.
//!
//! Of an element type that rounds every operation a law holds as far as the rounding lets it.
pub mod integers;
pub mod inverse;
pub mod mat3_adjugate;
pub mod mat4_adjugate;
pub mod projection;
pub mod quaternion;
pub mod real_inverse;
pub mod real_mat3_adjugate;
pub mod real_mat4_adjugate;
pub mod real_rotation;
pub mod rotation3;
pub mod rotation4;
pub mod turns;
