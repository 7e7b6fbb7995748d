//! The primitive integers as element types.
//!
//! Each of them is a [`Numeric`] whose operators are those of the language, defined where they
//! do not overflow and do not divide by zero. [`Integer`] says what that means in the
//! mathematical integers.
use super::obeys_arith;
use super::obeys_neg;
use super::Identity;
use super::Numeric;
use super::Signed;
use super::Zero;
use core::ops::BitAnd;
use core::ops::BitOr;
use core::ops::BitXor;
use core::ops::Not;
use core::ops::Shl;
use core::ops::Shr;
use vstd::prelude::*;
use vstd::std_specs::ops::AddSpec;
use vstd::std_specs::ops::DivSpec;
use vstd::std_specs::ops::MulSpec;
use vstd::std_specs::ops::NegSpec;
use vstd::std_specs::ops::SubSpec;

verus! {

/// The quotient of `a` by `b`, rounded towards zero.
pub open spec fn truncated(a: int, b: int) -> int {
    if a >= 0 {
        a / b
    } else {
        -((-a) / b)
    }
}

/// A quotient rounded towards zero is no larger in size than the dividend, and as large only
/// where the divisor is one or minus one.
pub proof fn lemma_truncated_is_bounded(a: int, b: int)
    requires
        b != 0,
    ensures
        a >= 0 ==> -a <= truncated(a, b) <= a,
        a < 0 ==> a <= truncated(a, b) <= -a,
        b == -1 ==> truncated(a, b) == -a,
        a < 0 && b != -1 ==> truncated(a, b) < -a,
{
    let n: int = if a >= 0 {
        a
    } else {
        -a
    };
    let q: int = n / b;
    let r: int = n % b;
    assert(n == b * q + r && 0 <= r && (b > 0 ==> r < b) && (b < 0 ==> r < -b))
        by (nonlinear_arith)
        requires
            b != 0,
            q == n / b,
            r == n % b,
    ;
    assert(-n <= q <= n && (b == -1 ==> q == -n) && (n > 0 && b != -1 ==> -n < q))
        by (nonlinear_arith)
        requires
            n >= 0,
            b != 0,
            n == b * q + r,
            0 <= r,
            b > 0 ==> r < b,
            b < 0 ==> r < -b,
    ;
}

/// A [`Numeric`] that is totally ordered and stands for mathematical integers in a range.
pub trait Integer: Numeric + Eq + Ord {
    /// The least integer the type holds.
    spec fn least() -> int;

    /// The greatest integer the type holds.
    spec fn greatest() -> int;

    /// The integer that `self` stands for.
    spec fn as_int(self) -> int;

    /// The operators compute in the integers: a sum, difference or product is defined exactly
    /// when the integer result lies in the type's range, a quotient when the divisor is not
    /// zero and the result lies in the range, and each then stands for that integer.
    proof fn arithmetic_is_exact(a: Self, b: Self)
        ensures
            obeys_arith::<Self>(),
            Self::least() <= 0 < Self::greatest(),
            Self::least() <= a.as_int() <= Self::greatest(),
            a.as_int() == b.as_int() ==> a == b,
            Self::zero_spec().as_int() == 0,
            Self::identity_spec().as_int() == 1,
            a.add_req(b) <==> Self::least() <= a.as_int() + b.as_int() <= Self::greatest(),
            a.add_req(b) ==> a.add_spec(b).as_int() == a.as_int() + b.as_int(),
            a.sub_req(b) <==> Self::least() <= a.as_int() - b.as_int() <= Self::greatest(),
            a.sub_req(b) ==> a.sub_spec(b).as_int() == a.as_int() - b.as_int(),
            a.mul_req(b) <==> Self::least() <= a.as_int() * b.as_int() <= Self::greatest(),
            a.mul_req(b) ==> a.mul_spec(b).as_int() == a.as_int() * b.as_int(),
            a.div_req(b) <==> b.as_int() != 0 && truncated(a.as_int(), b.as_int())
                <= Self::greatest(),
            a.div_req(b) ==> a.div_spec(b).as_int() == truncated(a.as_int(), b.as_int()),
    ;
}

/// An [`Integer`] with negative values, whose unary minus is that of the integers.
pub trait SignedInteger: Integer + Signed {
    /// A negation is defined exactly when the negated integer lies in the type's range, and
    /// then stands for that integer.
    proof fn negation_is_exact(a: Self)
        ensures
            obeys_neg::<Self>(),
            a.neg_req() <==> -a.as_int() <= Self::greatest(),
            a.neg_req() ==> a.neg_spec().as_int() == -a.as_int(),
    ;
}

/// An integer with the bitwise operators.
pub trait Bitwise: Sized + Not<Output = Self> + BitAnd<Self, Output = Self> + BitOr<
    Self,
    Output = Self,
> + BitXor<Self, Output = Self> + Shl<Self, Output = Self> + Shr<Self, Output = Self> {

}

impl Identity for u8 {
    open spec fn identity_spec() -> u8 {
        1u8
    }

    fn identity() -> (r: u8) {
        1u8
    }
}

impl Zero for u8 {
    open spec fn zero_spec() -> u8 {
        0u8
    }

    fn zero() -> (r: u8) {
        0u8
    }
}

impl Numeric for u8 {

}

impl Integer for u8 {
    open spec fn least() -> int {
        u8::MIN as int
    }

    open spec fn greatest() -> int {
        u8::MAX as int
    }

    open spec fn as_int(self) -> int {
        self as int
    }

    proof fn arithmetic_is_exact(a: u8, b: u8) {
        if b != 0 {
            lemma_truncated_is_bounded(a as int, b as int);
        }
    }
}

impl Bitwise for u8 {

}

impl Identity for u16 {
    open spec fn identity_spec() -> u16 {
        1u16
    }

    fn identity() -> (r: u16) {
        1u16
    }
}

impl Zero for u16 {
    open spec fn zero_spec() -> u16 {
        0u16
    }

    fn zero() -> (r: u16) {
        0u16
    }
}

impl Numeric for u16 {

}

impl Integer for u16 {
    open spec fn least() -> int {
        u16::MIN as int
    }

    open spec fn greatest() -> int {
        u16::MAX as int
    }

    open spec fn as_int(self) -> int {
        self as int
    }

    proof fn arithmetic_is_exact(a: u16, b: u16) {
        if b != 0 {
            lemma_truncated_is_bounded(a as int, b as int);
        }
    }
}

impl Bitwise for u16 {

}

impl Identity for u32 {
    open spec fn identity_spec() -> u32 {
        1u32
    }

    fn identity() -> (r: u32) {
        1u32
    }
}

impl Zero for u32 {
    open spec fn zero_spec() -> u32 {
        0u32
    }

    fn zero() -> (r: u32) {
        0u32
    }
}

impl Numeric for u32 {

}

impl Integer for u32 {
    open spec fn least() -> int {
        u32::MIN as int
    }

    open spec fn greatest() -> int {
        u32::MAX as int
    }

    open spec fn as_int(self) -> int {
        self as int
    }

    proof fn arithmetic_is_exact(a: u32, b: u32) {
        if b != 0 {
            lemma_truncated_is_bounded(a as int, b as int);
        }
    }
}

impl Bitwise for u32 {

}

impl Identity for u64 {
    open spec fn identity_spec() -> u64 {
        1u64
    }

    fn identity() -> (r: u64) {
        1u64
    }
}

impl Zero for u64 {
    open spec fn zero_spec() -> u64 {
        0u64
    }

    fn zero() -> (r: u64) {
        0u64
    }
}

impl Numeric for u64 {

}

impl Integer for u64 {
    open spec fn least() -> int {
        u64::MIN as int
    }

    open spec fn greatest() -> int {
        u64::MAX as int
    }

    open spec fn as_int(self) -> int {
        self as int
    }

    proof fn arithmetic_is_exact(a: u64, b: u64) {
        if b != 0 {
            lemma_truncated_is_bounded(a as int, b as int);
        }
    }
}

impl Bitwise for u64 {

}

impl Identity for u128 {
    open spec fn identity_spec() -> u128 {
        1u128
    }

    fn identity() -> (r: u128) {
        1u128
    }
}

impl Zero for u128 {
    open spec fn zero_spec() -> u128 {
        0u128
    }

    fn zero() -> (r: u128) {
        0u128
    }
}

impl Numeric for u128 {

}

impl Integer for u128 {
    open spec fn least() -> int {
        u128::MIN as int
    }

    open spec fn greatest() -> int {
        u128::MAX as int
    }

    open spec fn as_int(self) -> int {
        self as int
    }

    proof fn arithmetic_is_exact(a: u128, b: u128) {
        if b != 0 {
            lemma_truncated_is_bounded(a as int, b as int);
        }
    }
}

impl Bitwise for u128 {

}

impl Identity for usize {
    open spec fn identity_spec() -> usize {
        1usize
    }

    fn identity() -> (r: usize) {
        1usize
    }
}

impl Zero for usize {
    open spec fn zero_spec() -> usize {
        0usize
    }

    fn zero() -> (r: usize) {
        0usize
    }
}

impl Numeric for usize {

}

impl Integer for usize {
    open spec fn least() -> int {
        usize::MIN as int
    }

    open spec fn greatest() -> int {
        usize::MAX as int
    }

    open spec fn as_int(self) -> int {
        self as int
    }

    proof fn arithmetic_is_exact(a: usize, b: usize) {
        if b != 0 {
            lemma_truncated_is_bounded(a as int, b as int);
        }
    }
}

impl Bitwise for usize {

}

impl Signed for i8 {
    open spec fn abs_req(self) -> bool {
        self != i8::MIN
    }

    open spec fn abs_spec(self) -> i8 {
        if self < 0 {
            (-self) as i8
        } else {
            self
        }
    }

    open spec fn signum_spec(self) -> i8 {
        if self > 0 {
            1i8
        } else if self == 0 {
            0i8
        } else {
            -1i8
        }
    }

    fn abs(&self) -> (r: i8) {
        if *self < 0 {
            -*self
        } else {
            *self
        }
    }

    fn signum(&self) -> (r: i8) {
        if *self > 0 {
            1i8
        } else if *self == 0 {
            0i8
        } else {
            -1i8
        }
    }
}

impl Identity for i8 {
    open spec fn identity_spec() -> i8 {
        1i8
    }

    fn identity() -> (r: i8) {
        1i8
    }
}

impl Zero for i8 {
    open spec fn zero_spec() -> i8 {
        0i8
    }

    fn zero() -> (r: i8) {
        0i8
    }
}

impl Numeric for i8 {

}

impl Integer for i8 {
    open spec fn least() -> int {
        i8::MIN as int
    }

    open spec fn greatest() -> int {
        i8::MAX as int
    }

    open spec fn as_int(self) -> int {
        self as int
    }

    proof fn arithmetic_is_exact(a: i8, b: i8) {
        if b != 0 {
            lemma_truncated_is_bounded(a as int, b as int);
        }
    }
}

impl Bitwise for i8 {

}

impl SignedInteger for i8 {
    proof fn negation_is_exact(a: i8) {
    }
}

impl Signed for i16 {
    open spec fn abs_req(self) -> bool {
        self != i16::MIN
    }

    open spec fn abs_spec(self) -> i16 {
        if self < 0 {
            (-self) as i16
        } else {
            self
        }
    }

    open spec fn signum_spec(self) -> i16 {
        if self > 0 {
            1i16
        } else if self == 0 {
            0i16
        } else {
            -1i16
        }
    }

    fn abs(&self) -> (r: i16) {
        if *self < 0 {
            -*self
        } else {
            *self
        }
    }

    fn signum(&self) -> (r: i16) {
        if *self > 0 {
            1i16
        } else if *self == 0 {
            0i16
        } else {
            -1i16
        }
    }
}

impl Identity for i16 {
    open spec fn identity_spec() -> i16 {
        1i16
    }

    fn identity() -> (r: i16) {
        1i16
    }
}

impl Zero for i16 {
    open spec fn zero_spec() -> i16 {
        0i16
    }

    fn zero() -> (r: i16) {
        0i16
    }
}

impl Numeric for i16 {

}

impl Integer for i16 {
    open spec fn least() -> int {
        i16::MIN as int
    }

    open spec fn greatest() -> int {
        i16::MAX as int
    }

    open spec fn as_int(self) -> int {
        self as int
    }

    proof fn arithmetic_is_exact(a: i16, b: i16) {
        if b != 0 {
            lemma_truncated_is_bounded(a as int, b as int);
        }
    }
}

impl Bitwise for i16 {

}

impl SignedInteger for i16 {
    proof fn negation_is_exact(a: i16) {
    }
}

impl Signed for i32 {
    open spec fn abs_req(self) -> bool {
        self != i32::MIN
    }

    open spec fn abs_spec(self) -> i32 {
        if self < 0 {
            (-self) as i32
        } else {
            self
        }
    }

    open spec fn signum_spec(self) -> i32 {
        if self > 0 {
            1i32
        } else if self == 0 {
            0i32
        } else {
            -1i32
        }
    }

    fn abs(&self) -> (r: i32) {
        if *self < 0 {
            -*self
        } else {
            *self
        }
    }

    fn signum(&self) -> (r: i32) {
        if *self > 0 {
            1i32
        } else if *self == 0 {
            0i32
        } else {
            -1i32
        }
    }
}

impl Identity for i32 {
    open spec fn identity_spec() -> i32 {
        1i32
    }

    fn identity() -> (r: i32) {
        1i32
    }
}

impl Zero for i32 {
    open spec fn zero_spec() -> i32 {
        0i32
    }

    fn zero() -> (r: i32) {
        0i32
    }
}

impl Numeric for i32 {

}

impl Integer for i32 {
    open spec fn least() -> int {
        i32::MIN as int
    }

    open spec fn greatest() -> int {
        i32::MAX as int
    }

    open spec fn as_int(self) -> int {
        self as int
    }

    proof fn arithmetic_is_exact(a: i32, b: i32) {
        if b != 0 {
            lemma_truncated_is_bounded(a as int, b as int);
        }
    }
}

impl Bitwise for i32 {

}

impl SignedInteger for i32 {
    proof fn negation_is_exact(a: i32) {
    }
}

impl Signed for i64 {
    open spec fn abs_req(self) -> bool {
        self != i64::MIN
    }

    open spec fn abs_spec(self) -> i64 {
        if self < 0 {
            (-self) as i64
        } else {
            self
        }
    }

    open spec fn signum_spec(self) -> i64 {
        if self > 0 {
            1i64
        } else if self == 0 {
            0i64
        } else {
            -1i64
        }
    }

    fn abs(&self) -> (r: i64) {
        if *self < 0 {
            -*self
        } else {
            *self
        }
    }

    fn signum(&self) -> (r: i64) {
        if *self > 0 {
            1i64
        } else if *self == 0 {
            0i64
        } else {
            -1i64
        }
    }
}

impl Identity for i64 {
    open spec fn identity_spec() -> i64 {
        1i64
    }

    fn identity() -> (r: i64) {
        1i64
    }
}

impl Zero for i64 {
    open spec fn zero_spec() -> i64 {
        0i64
    }

    fn zero() -> (r: i64) {
        0i64
    }
}

impl Numeric for i64 {

}

impl Integer for i64 {
    open spec fn least() -> int {
        i64::MIN as int
    }

    open spec fn greatest() -> int {
        i64::MAX as int
    }

    open spec fn as_int(self) -> int {
        self as int
    }

    proof fn arithmetic_is_exact(a: i64, b: i64) {
        if b != 0 {
            lemma_truncated_is_bounded(a as int, b as int);
        }
    }
}

impl Bitwise for i64 {

}

impl SignedInteger for i64 {
    proof fn negation_is_exact(a: i64) {
    }
}

impl Signed for i128 {
    open spec fn abs_req(self) -> bool {
        self != i128::MIN
    }

    open spec fn abs_spec(self) -> i128 {
        if self < 0 {
            (-self) as i128
        } else {
            self
        }
    }

    open spec fn signum_spec(self) -> i128 {
        if self > 0 {
            1i128
        } else if self == 0 {
            0i128
        } else {
            -1i128
        }
    }

    fn abs(&self) -> (r: i128) {
        if *self < 0 {
            -*self
        } else {
            *self
        }
    }

    fn signum(&self) -> (r: i128) {
        if *self > 0 {
            1i128
        } else if *self == 0 {
            0i128
        } else {
            -1i128
        }
    }
}

impl Identity for i128 {
    open spec fn identity_spec() -> i128 {
        1i128
    }

    fn identity() -> (r: i128) {
        1i128
    }
}

impl Zero for i128 {
    open spec fn zero_spec() -> i128 {
        0i128
    }

    fn zero() -> (r: i128) {
        0i128
    }
}

impl Numeric for i128 {

}

impl Integer for i128 {
    open spec fn least() -> int {
        i128::MIN as int
    }

    open spec fn greatest() -> int {
        i128::MAX as int
    }

    open spec fn as_int(self) -> int {
        self as int
    }

    proof fn arithmetic_is_exact(a: i128, b: i128) {
        if b != 0 {
            lemma_truncated_is_bounded(a as int, b as int);
        }
    }
}

impl Bitwise for i128 {

}

impl SignedInteger for i128 {
    proof fn negation_is_exact(a: i128) {
    }
}

impl Signed for isize {
    open spec fn abs_req(self) -> bool {
        self != isize::MIN
    }

    open spec fn abs_spec(self) -> isize {
        if self < 0 {
            (-self) as isize
        } else {
            self
        }
    }

    open spec fn signum_spec(self) -> isize {
        if self > 0 {
            1isize
        } else if self == 0 {
            0isize
        } else {
            -1isize
        }
    }

    fn abs(&self) -> (r: isize) {
        if *self < 0 {
            -*self
        } else {
            *self
        }
    }

    fn signum(&self) -> (r: isize) {
        if *self > 0 {
            1isize
        } else if *self == 0 {
            0isize
        } else {
            -1isize
        }
    }
}

impl Identity for isize {
    open spec fn identity_spec() -> isize {
        1isize
    }

    fn identity() -> (r: isize) {
        1isize
    }
}

impl Zero for isize {
    open spec fn zero_spec() -> isize {
        0isize
    }

    fn zero() -> (r: isize) {
        0isize
    }
}

impl Numeric for isize {

}

impl Integer for isize {
    open spec fn least() -> int {
        isize::MIN as int
    }

    open spec fn greatest() -> int {
        isize::MAX as int
    }

    open spec fn as_int(self) -> int {
        self as int
    }

    proof fn arithmetic_is_exact(a: isize, b: isize) {
        if b != 0 {
            lemma_truncated_is_bounded(a as int, b as int);
        }
    }
}

impl Bitwise for isize {

}

impl SignedInteger for isize {
    proof fn negation_is_exact(a: isize) {
    }
}

} // verus!
