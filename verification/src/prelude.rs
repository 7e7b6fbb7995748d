//! The capability traits, in one import.
pub use crate::traits::float::Float;
pub use crate::traits::float::Round;
pub use crate::traits::float::Sqrt;
pub use crate::traits::float::Trig;
pub use crate::traits::generic::Identity;
pub use crate::traits::generic::Signed;
pub use crate::traits::generic::Zero;
pub use crate::traits::integer::Bitwise;
pub use crate::traits::integer::Integer;
pub use crate::traits::integer::SignedInteger;
pub use crate::traits::Numeric;
