//! Small vectors, square matrices, quaternions and angles over any numeric element type.
//!
//! Every operation is a pure function of its arguments.
//!
//! - [`traits`] says what an element type can do: the arithmetic of [`traits::Numeric`], the
//!   one and the zero, the sign, and for lengths and rotations the roots and the trigonometry
//!   of [`traits::float::Float`]. The primitive integers are element types of this crate; a
//!   type of floating-point numbers becomes one by implementing the traits.
//! - [`types`] and [`angle`] hold the values: [`types::Vec2`], [`types::Vec3`],
//!   [`types::Vec4`], [`types::Quat`], [`types::Mat3`], [`types::Mat4`] and
//!   [`angle::Radians`]. Each has a view that names its parts.
//! - [`laws`] holds what follows from the formulas, whatever the element type.
//!
//! What an operation returns is stated as a formula over the element type's own arithmetic,
//! read over [`traits::Term`]: the value of the formula together with whether each step of it
//! is defined. A function asks that its formula be defined and returns the formula's value. For
//! the primitive integers a step is defined when it neither overflows nor divides by zero, and
//! [`traits::integer::Integer`] ties the formulas to the integers of mathematics. The same
//! formulas, read over the integers or the real numbers themselves, are polynomials, and it is
//! of these that the laws speak.
pub mod angle;
pub mod laws;
pub mod prelude;
pub mod traits;
pub mod types;
