//! Angles.
pub mod radians;
pub mod scalar;

pub use radians::AsRadians;
pub use radians::Radians;
