//! Where each entry lies in the array of a [`Mat4`](super::Mat4): the entry of row `r` and
//! column `c` at `c * 4 + r`, column after column.
use vstd::prelude::*;

verus! {

pub const R0C0: usize = 0;

pub const R1C0: usize = 1;

pub const R2C0: usize = 2;

pub const R3C0: usize = 3;

pub const R0C1: usize = 4;

pub const R1C1: usize = 5;

pub const R2C1: usize = 6;

pub const R3C1: usize = 7;

pub const R0C2: usize = 8;

pub const R1C2: usize = 9;

pub const R2C2: usize = 10;

pub const R3C2: usize = 11;

pub const R0C3: usize = 12;

pub const R1C3: usize = 13;

pub const R2C3: usize = 14;

pub const R3C3: usize = 15;

/// The translation, in the last column.
pub const TX: usize = R0C3;

pub const TY: usize = R1C3;

pub const TZ: usize = R2C3;

/// The scale, on the diagonal.
pub const SX: usize = R0C0;

pub const SY: usize = R1C1;

pub const SZ: usize = R2C2;

/// The two by two block that a rotation about the x axis fills.
pub const RX00: usize = R1C1;

pub const RX01: usize = R1C2;

pub const RX10: usize = R2C1;

pub const RX11: usize = R2C2;

/// The two by two block that a rotation about the y axis fills.
pub const RY00: usize = R0C0;

pub const RY01: usize = R0C2;

pub const RY10: usize = R2C0;

pub const RY11: usize = R2C2;

/// The two by two block that a rotation about the z axis fills.
pub const RZ00: usize = R0C0;

pub const RZ01: usize = R0C1;

pub const RZ10: usize = R1C0;

pub const RZ11: usize = R1C1;

} // verus!
