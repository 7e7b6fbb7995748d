//! The operators of [`Radians`] with the number on the left, for the primitive integers.
use super::radians::Radians;
use crate::traits::Division;
use crate::traits::Ring;
use crate::traits::Term;
use core::ops::Add;
use core::ops::Div;
use core::ops::Mul;
use core::ops::Sub;
use vstd::prelude::*;
use vstd::std_specs::ops::AddSpecImpl;
use vstd::std_specs::ops::DivSpecImpl;
use vstd::std_specs::ops::MulSpecImpl;
use vstd::std_specs::ops::SubSpecImpl;

verus! {

impl Add<Radians<i8>> for i8 {
    type Output = Radians<i8>;

    fn add(self, other: Radians<i8>) -> (r: Radians<i8>) {
        Radians(self + other.0)
    }
}

impl AddSpecImpl<Radians<i8>> for i8 {
    open spec fn obeys_add_spec() -> bool {
        true
    }

    open spec fn add_req(self, other: Radians<i8>) -> bool {
        Term::of(self).plus(other.term()).defined
    }

    open spec fn add_spec(self, other: Radians<i8>) -> Radians<i8> {
        Radians(Term::of(self).plus(other.term()).value)
    }
}

impl Sub<Radians<i8>> for i8 {
    type Output = Radians<i8>;

    fn sub(self, other: Radians<i8>) -> (r: Radians<i8>) {
        Radians(self - other.0)
    }
}

impl SubSpecImpl<Radians<i8>> for i8 {
    open spec fn obeys_sub_spec() -> bool {
        true
    }

    open spec fn sub_req(self, other: Radians<i8>) -> bool {
        Term::of(self).minus(other.term()).defined
    }

    open spec fn sub_spec(self, other: Radians<i8>) -> Radians<i8> {
        Radians(Term::of(self).minus(other.term()).value)
    }
}

impl Mul<Radians<i8>> for i8 {
    type Output = Radians<i8>;

    fn mul(self, other: Radians<i8>) -> (r: Radians<i8>) {
        Radians(self * other.0)
    }
}

impl MulSpecImpl<Radians<i8>> for i8 {
    open spec fn obeys_mul_spec() -> bool {
        true
    }

    open spec fn mul_req(self, other: Radians<i8>) -> bool {
        Term::of(self).times(other.term()).defined
    }

    open spec fn mul_spec(self, other: Radians<i8>) -> Radians<i8> {
        Radians(Term::of(self).times(other.term()).value)
    }
}

impl Div<Radians<i8>> for i8 {
    type Output = Radians<i8>;

    fn div(self, other: Radians<i8>) -> (r: Radians<i8>) {
        Radians(self / other.0)
    }
}

impl DivSpecImpl<Radians<i8>> for i8 {
    open spec fn obeys_div_spec() -> bool {
        true
    }

    open spec fn div_req(self, other: Radians<i8>) -> bool {
        Term::of(self).over(other.term()).defined
    }

    open spec fn div_spec(self, other: Radians<i8>) -> Radians<i8> {
        Radians(Term::of(self).over(other.term()).value)
    }
}

impl Add<Radians<i16>> for i16 {
    type Output = Radians<i16>;

    fn add(self, other: Radians<i16>) -> (r: Radians<i16>) {
        Radians(self + other.0)
    }
}

impl AddSpecImpl<Radians<i16>> for i16 {
    open spec fn obeys_add_spec() -> bool {
        true
    }

    open spec fn add_req(self, other: Radians<i16>) -> bool {
        Term::of(self).plus(other.term()).defined
    }

    open spec fn add_spec(self, other: Radians<i16>) -> Radians<i16> {
        Radians(Term::of(self).plus(other.term()).value)
    }
}

impl Sub<Radians<i16>> for i16 {
    type Output = Radians<i16>;

    fn sub(self, other: Radians<i16>) -> (r: Radians<i16>) {
        Radians(self - other.0)
    }
}

impl SubSpecImpl<Radians<i16>> for i16 {
    open spec fn obeys_sub_spec() -> bool {
        true
    }

    open spec fn sub_req(self, other: Radians<i16>) -> bool {
        Term::of(self).minus(other.term()).defined
    }

    open spec fn sub_spec(self, other: Radians<i16>) -> Radians<i16> {
        Radians(Term::of(self).minus(other.term()).value)
    }
}

impl Mul<Radians<i16>> for i16 {
    type Output = Radians<i16>;

    fn mul(self, other: Radians<i16>) -> (r: Radians<i16>) {
        Radians(self * other.0)
    }
}

impl MulSpecImpl<Radians<i16>> for i16 {
    open spec fn obeys_mul_spec() -> bool {
        true
    }

    open spec fn mul_req(self, other: Radians<i16>) -> bool {
        Term::of(self).times(other.term()).defined
    }

    open spec fn mul_spec(self, other: Radians<i16>) -> Radians<i16> {
        Radians(Term::of(self).times(other.term()).value)
    }
}

impl Div<Radians<i16>> for i16 {
    type Output = Radians<i16>;

    fn div(self, other: Radians<i16>) -> (r: Radians<i16>) {
        Radians(self / other.0)
    }
}

impl DivSpecImpl<Radians<i16>> for i16 {
    open spec fn obeys_div_spec() -> bool {
        true
    }

    open spec fn div_req(self, other: Radians<i16>) -> bool {
        Term::of(self).over(other.term()).defined
    }

    open spec fn div_spec(self, other: Radians<i16>) -> Radians<i16> {
        Radians(Term::of(self).over(other.term()).value)
    }
}

impl Add<Radians<i32>> for i32 {
    type Output = Radians<i32>;

    fn add(self, other: Radians<i32>) -> (r: Radians<i32>) {
        Radians(self + other.0)
    }
}

impl AddSpecImpl<Radians<i32>> for i32 {
    open spec fn obeys_add_spec() -> bool {
        true
    }

    open spec fn add_req(self, other: Radians<i32>) -> bool {
        Term::of(self).plus(other.term()).defined
    }

    open spec fn add_spec(self, other: Radians<i32>) -> Radians<i32> {
        Radians(Term::of(self).plus(other.term()).value)
    }
}

impl Sub<Radians<i32>> for i32 {
    type Output = Radians<i32>;

    fn sub(self, other: Radians<i32>) -> (r: Radians<i32>) {
        Radians(self - other.0)
    }
}

impl SubSpecImpl<Radians<i32>> for i32 {
    open spec fn obeys_sub_spec() -> bool {
        true
    }

    open spec fn sub_req(self, other: Radians<i32>) -> bool {
        Term::of(self).minus(other.term()).defined
    }

    open spec fn sub_spec(self, other: Radians<i32>) -> Radians<i32> {
        Radians(Term::of(self).minus(other.term()).value)
    }
}

impl Mul<Radians<i32>> for i32 {
    type Output = Radians<i32>;

    fn mul(self, other: Radians<i32>) -> (r: Radians<i32>) {
        Radians(self * other.0)
    }
}

impl MulSpecImpl<Radians<i32>> for i32 {
    open spec fn obeys_mul_spec() -> bool {
        true
    }

    open spec fn mul_req(self, other: Radians<i32>) -> bool {
        Term::of(self).times(other.term()).defined
    }

    open spec fn mul_spec(self, other: Radians<i32>) -> Radians<i32> {
        Radians(Term::of(self).times(other.term()).value)
    }
}

impl Div<Radians<i32>> for i32 {
    type Output = Radians<i32>;

    fn div(self, other: Radians<i32>) -> (r: Radians<i32>) {
        Radians(self / other.0)
    }
}

impl DivSpecImpl<Radians<i32>> for i32 {
    open spec fn obeys_div_spec() -> bool {
        true
    }

    open spec fn div_req(self, other: Radians<i32>) -> bool {
        Term::of(self).over(other.term()).defined
    }

    open spec fn div_spec(self, other: Radians<i32>) -> Radians<i32> {
        Radians(Term::of(self).over(other.term()).value)
    }
}

impl Add<Radians<i64>> for i64 {
    type Output = Radians<i64>;

    fn add(self, other: Radians<i64>) -> (r: Radians<i64>) {
        Radians(self + other.0)
    }
}

impl AddSpecImpl<Radians<i64>> for i64 {
    open spec fn obeys_add_spec() -> bool {
        true
    }

    open spec fn add_req(self, other: Radians<i64>) -> bool {
        Term::of(self).plus(other.term()).defined
    }

    open spec fn add_spec(self, other: Radians<i64>) -> Radians<i64> {
        Radians(Term::of(self).plus(other.term()).value)
    }
}

impl Sub<Radians<i64>> for i64 {
    type Output = Radians<i64>;

    fn sub(self, other: Radians<i64>) -> (r: Radians<i64>) {
        Radians(self - other.0)
    }
}

impl SubSpecImpl<Radians<i64>> for i64 {
    open spec fn obeys_sub_spec() -> bool {
        true
    }

    open spec fn sub_req(self, other: Radians<i64>) -> bool {
        Term::of(self).minus(other.term()).defined
    }

    open spec fn sub_spec(self, other: Radians<i64>) -> Radians<i64> {
        Radians(Term::of(self).minus(other.term()).value)
    }
}

impl Mul<Radians<i64>> for i64 {
    type Output = Radians<i64>;

    fn mul(self, other: Radians<i64>) -> (r: Radians<i64>) {
        Radians(self * other.0)
    }
}

impl MulSpecImpl<Radians<i64>> for i64 {
    open spec fn obeys_mul_spec() -> bool {
        true
    }

    open spec fn mul_req(self, other: Radians<i64>) -> bool {
        Term::of(self).times(other.term()).defined
    }

    open spec fn mul_spec(self, other: Radians<i64>) -> Radians<i64> {
        Radians(Term::of(self).times(other.term()).value)
    }
}

impl Div<Radians<i64>> for i64 {
    type Output = Radians<i64>;

    fn div(self, other: Radians<i64>) -> (r: Radians<i64>) {
        Radians(self / other.0)
    }
}

impl DivSpecImpl<Radians<i64>> for i64 {
    open spec fn obeys_div_spec() -> bool {
        true
    }

    open spec fn div_req(self, other: Radians<i64>) -> bool {
        Term::of(self).over(other.term()).defined
    }

    open spec fn div_spec(self, other: Radians<i64>) -> Radians<i64> {
        Radians(Term::of(self).over(other.term()).value)
    }
}

impl Add<Radians<i128>> for i128 {
    type Output = Radians<i128>;

    fn add(self, other: Radians<i128>) -> (r: Radians<i128>) {
        Radians(self + other.0)
    }
}

impl AddSpecImpl<Radians<i128>> for i128 {
    open spec fn obeys_add_spec() -> bool {
        true
    }

    open spec fn add_req(self, other: Radians<i128>) -> bool {
        Term::of(self).plus(other.term()).defined
    }

    open spec fn add_spec(self, other: Radians<i128>) -> Radians<i128> {
        Radians(Term::of(self).plus(other.term()).value)
    }
}

impl Sub<Radians<i128>> for i128 {
    type Output = Radians<i128>;

    fn sub(self, other: Radians<i128>) -> (r: Radians<i128>) {
        Radians(self - other.0)
    }
}

impl SubSpecImpl<Radians<i128>> for i128 {
    open spec fn obeys_sub_spec() -> bool {
        true
    }

    open spec fn sub_req(self, other: Radians<i128>) -> bool {
        Term::of(self).minus(other.term()).defined
    }

    open spec fn sub_spec(self, other: Radians<i128>) -> Radians<i128> {
        Radians(Term::of(self).minus(other.term()).value)
    }
}

impl Mul<Radians<i128>> for i128 {
    type Output = Radians<i128>;

    fn mul(self, other: Radians<i128>) -> (r: Radians<i128>) {
        Radians(self * other.0)
    }
}

impl MulSpecImpl<Radians<i128>> for i128 {
    open spec fn obeys_mul_spec() -> bool {
        true
    }

    open spec fn mul_req(self, other: Radians<i128>) -> bool {
        Term::of(self).times(other.term()).defined
    }

    open spec fn mul_spec(self, other: Radians<i128>) -> Radians<i128> {
        Radians(Term::of(self).times(other.term()).value)
    }
}

impl Div<Radians<i128>> for i128 {
    type Output = Radians<i128>;

    fn div(self, other: Radians<i128>) -> (r: Radians<i128>) {
        Radians(self / other.0)
    }
}

impl DivSpecImpl<Radians<i128>> for i128 {
    open spec fn obeys_div_spec() -> bool {
        true
    }

    open spec fn div_req(self, other: Radians<i128>) -> bool {
        Term::of(self).over(other.term()).defined
    }

    open spec fn div_spec(self, other: Radians<i128>) -> Radians<i128> {
        Radians(Term::of(self).over(other.term()).value)
    }
}

impl Add<Radians<u8>> for u8 {
    type Output = Radians<u8>;

    fn add(self, other: Radians<u8>) -> (r: Radians<u8>) {
        Radians(self + other.0)
    }
}

impl AddSpecImpl<Radians<u8>> for u8 {
    open spec fn obeys_add_spec() -> bool {
        true
    }

    open spec fn add_req(self, other: Radians<u8>) -> bool {
        Term::of(self).plus(other.term()).defined
    }

    open spec fn add_spec(self, other: Radians<u8>) -> Radians<u8> {
        Radians(Term::of(self).plus(other.term()).value)
    }
}

impl Sub<Radians<u8>> for u8 {
    type Output = Radians<u8>;

    fn sub(self, other: Radians<u8>) -> (r: Radians<u8>) {
        Radians(self - other.0)
    }
}

impl SubSpecImpl<Radians<u8>> for u8 {
    open spec fn obeys_sub_spec() -> bool {
        true
    }

    open spec fn sub_req(self, other: Radians<u8>) -> bool {
        Term::of(self).minus(other.term()).defined
    }

    open spec fn sub_spec(self, other: Radians<u8>) -> Radians<u8> {
        Radians(Term::of(self).minus(other.term()).value)
    }
}

impl Mul<Radians<u8>> for u8 {
    type Output = Radians<u8>;

    fn mul(self, other: Radians<u8>) -> (r: Radians<u8>) {
        Radians(self * other.0)
    }
}

impl MulSpecImpl<Radians<u8>> for u8 {
    open spec fn obeys_mul_spec() -> bool {
        true
    }

    open spec fn mul_req(self, other: Radians<u8>) -> bool {
        Term::of(self).times(other.term()).defined
    }

    open spec fn mul_spec(self, other: Radians<u8>) -> Radians<u8> {
        Radians(Term::of(self).times(other.term()).value)
    }
}

impl Div<Radians<u8>> for u8 {
    type Output = Radians<u8>;

    fn div(self, other: Radians<u8>) -> (r: Radians<u8>) {
        Radians(self / other.0)
    }
}

impl DivSpecImpl<Radians<u8>> for u8 {
    open spec fn obeys_div_spec() -> bool {
        true
    }

    open spec fn div_req(self, other: Radians<u8>) -> bool {
        Term::of(self).over(other.term()).defined
    }

    open spec fn div_spec(self, other: Radians<u8>) -> Radians<u8> {
        Radians(Term::of(self).over(other.term()).value)
    }
}

impl Add<Radians<u16>> for u16 {
    type Output = Radians<u16>;

    fn add(self, other: Radians<u16>) -> (r: Radians<u16>) {
        Radians(self + other.0)
    }
}

impl AddSpecImpl<Radians<u16>> for u16 {
    open spec fn obeys_add_spec() -> bool {
        true
    }

    open spec fn add_req(self, other: Radians<u16>) -> bool {
        Term::of(self).plus(other.term()).defined
    }

    open spec fn add_spec(self, other: Radians<u16>) -> Radians<u16> {
        Radians(Term::of(self).plus(other.term()).value)
    }
}

impl Sub<Radians<u16>> for u16 {
    type Output = Radians<u16>;

    fn sub(self, other: Radians<u16>) -> (r: Radians<u16>) {
        Radians(self - other.0)
    }
}

impl SubSpecImpl<Radians<u16>> for u16 {
    open spec fn obeys_sub_spec() -> bool {
        true
    }

    open spec fn sub_req(self, other: Radians<u16>) -> bool {
        Term::of(self).minus(other.term()).defined
    }

    open spec fn sub_spec(self, other: Radians<u16>) -> Radians<u16> {
        Radians(Term::of(self).minus(other.term()).value)
    }
}

impl Mul<Radians<u16>> for u16 {
    type Output = Radians<u16>;

    fn mul(self, other: Radians<u16>) -> (r: Radians<u16>) {
        Radians(self * other.0)
    }
}

impl MulSpecImpl<Radians<u16>> for u16 {
    open spec fn obeys_mul_spec() -> bool {
        true
    }

    open spec fn mul_req(self, other: Radians<u16>) -> bool {
        Term::of(self).times(other.term()).defined
    }

    open spec fn mul_spec(self, other: Radians<u16>) -> Radians<u16> {
        Radians(Term::of(self).times(other.term()).value)
    }
}

impl Div<Radians<u16>> for u16 {
    type Output = Radians<u16>;

    fn div(self, other: Radians<u16>) -> (r: Radians<u16>) {
        Radians(self / other.0)
    }
}

impl DivSpecImpl<Radians<u16>> for u16 {
    open spec fn obeys_div_spec() -> bool {
        true
    }

    open spec fn div_req(self, other: Radians<u16>) -> bool {
        Term::of(self).over(other.term()).defined
    }

    open spec fn div_spec(self, other: Radians<u16>) -> Radians<u16> {
        Radians(Term::of(self).over(other.term()).value)
    }
}

impl Add<Radians<u32>> for u32 {
    type Output = Radians<u32>;

    fn add(self, other: Radians<u32>) -> (r: Radians<u32>) {
        Radians(self + other.0)
    }
}

impl AddSpecImpl<Radians<u32>> for u32 {
    open spec fn obeys_add_spec() -> bool {
        true
    }

    open spec fn add_req(self, other: Radians<u32>) -> bool {
        Term::of(self).plus(other.term()).defined
    }

    open spec fn add_spec(self, other: Radians<u32>) -> Radians<u32> {
        Radians(Term::of(self).plus(other.term()).value)
    }
}

impl Sub<Radians<u32>> for u32 {
    type Output = Radians<u32>;

    fn sub(self, other: Radians<u32>) -> (r: Radians<u32>) {
        Radians(self - other.0)
    }
}

impl SubSpecImpl<Radians<u32>> for u32 {
    open spec fn obeys_sub_spec() -> bool {
        true
    }

    open spec fn sub_req(self, other: Radians<u32>) -> bool {
        Term::of(self).minus(other.term()).defined
    }

    open spec fn sub_spec(self, other: Radians<u32>) -> Radians<u32> {
        Radians(Term::of(self).minus(other.term()).value)
    }
}

impl Mul<Radians<u32>> for u32 {
    type Output = Radians<u32>;

    fn mul(self, other: Radians<u32>) -> (r: Radians<u32>) {
        Radians(self * other.0)
    }
}

impl MulSpecImpl<Radians<u32>> for u32 {
    open spec fn obeys_mul_spec() -> bool {
        true
    }

    open spec fn mul_req(self, other: Radians<u32>) -> bool {
        Term::of(self).times(other.term()).defined
    }

    open spec fn mul_spec(self, other: Radians<u32>) -> Radians<u32> {
        Radians(Term::of(self).times(other.term()).value)
    }
}

impl Div<Radians<u32>> for u32 {
    type Output = Radians<u32>;

    fn div(self, other: Radians<u32>) -> (r: Radians<u32>) {
        Radians(self / other.0)
    }
}

impl DivSpecImpl<Radians<u32>> for u32 {
    open spec fn obeys_div_spec() -> bool {
        true
    }

    open spec fn div_req(self, other: Radians<u32>) -> bool {
        Term::of(self).over(other.term()).defined
    }

    open spec fn div_spec(self, other: Radians<u32>) -> Radians<u32> {
        Radians(Term::of(self).over(other.term()).value)
    }
}

impl Add<Radians<u64>> for u64 {
    type Output = Radians<u64>;

    fn add(self, other: Radians<u64>) -> (r: Radians<u64>) {
        Radians(self + other.0)
    }
}

impl AddSpecImpl<Radians<u64>> for u64 {
    open spec fn obeys_add_spec() -> bool {
        true
    }

    open spec fn add_req(self, other: Radians<u64>) -> bool {
        Term::of(self).plus(other.term()).defined
    }

    open spec fn add_spec(self, other: Radians<u64>) -> Radians<u64> {
        Radians(Term::of(self).plus(other.term()).value)
    }
}

impl Sub<Radians<u64>> for u64 {
    type Output = Radians<u64>;

    fn sub(self, other: Radians<u64>) -> (r: Radians<u64>) {
        Radians(self - other.0)
    }
}

impl SubSpecImpl<Radians<u64>> for u64 {
    open spec fn obeys_sub_spec() -> bool {
        true
    }

    open spec fn sub_req(self, other: Radians<u64>) -> bool {
        Term::of(self).minus(other.term()).defined
    }

    open spec fn sub_spec(self, other: Radians<u64>) -> Radians<u64> {
        Radians(Term::of(self).minus(other.term()).value)
    }
}

impl Mul<Radians<u64>> for u64 {
    type Output = Radians<u64>;

    fn mul(self, other: Radians<u64>) -> (r: Radians<u64>) {
        Radians(self * other.0)
    }
}

impl MulSpecImpl<Radians<u64>> for u64 {
    open spec fn obeys_mul_spec() -> bool {
        true
    }

    open spec fn mul_req(self, other: Radians<u64>) -> bool {
        Term::of(self).times(other.term()).defined
    }

    open spec fn mul_spec(self, other: Radians<u64>) -> Radians<u64> {
        Radians(Term::of(self).times(other.term()).value)
    }
}

impl Div<Radians<u64>> for u64 {
    type Output = Radians<u64>;

    fn div(self, other: Radians<u64>) -> (r: Radians<u64>) {
        Radians(self / other.0)
    }
}

impl DivSpecImpl<Radians<u64>> for u64 {
    open spec fn obeys_div_spec() -> bool {
        true
    }

    open spec fn div_req(self, other: Radians<u64>) -> bool {
        Term::of(self).over(other.term()).defined
    }

    open spec fn div_spec(self, other: Radians<u64>) -> Radians<u64> {
        Radians(Term::of(self).over(other.term()).value)
    }
}

impl Add<Radians<u128>> for u128 {
    type Output = Radians<u128>;

    fn add(self, other: Radians<u128>) -> (r: Radians<u128>) {
        Radians(self + other.0)
    }
}

impl AddSpecImpl<Radians<u128>> for u128 {
    open spec fn obeys_add_spec() -> bool {
        true
    }

    open spec fn add_req(self, other: Radians<u128>) -> bool {
        Term::of(self).plus(other.term()).defined
    }

    open spec fn add_spec(self, other: Radians<u128>) -> Radians<u128> {
        Radians(Term::of(self).plus(other.term()).value)
    }
}

impl Sub<Radians<u128>> for u128 {
    type Output = Radians<u128>;

    fn sub(self, other: Radians<u128>) -> (r: Radians<u128>) {
        Radians(self - other.0)
    }
}

impl SubSpecImpl<Radians<u128>> for u128 {
    open spec fn obeys_sub_spec() -> bool {
        true
    }

    open spec fn sub_req(self, other: Radians<u128>) -> bool {
        Term::of(self).minus(other.term()).defined
    }

    open spec fn sub_spec(self, other: Radians<u128>) -> Radians<u128> {
        Radians(Term::of(self).minus(other.term()).value)
    }
}

impl Mul<Radians<u128>> for u128 {
    type Output = Radians<u128>;

    fn mul(self, other: Radians<u128>) -> (r: Radians<u128>) {
        Radians(self * other.0)
    }
}

impl MulSpecImpl<Radians<u128>> for u128 {
    open spec fn obeys_mul_spec() -> bool {
        true
    }

    open spec fn mul_req(self, other: Radians<u128>) -> bool {
        Term::of(self).times(other.term()).defined
    }

    open spec fn mul_spec(self, other: Radians<u128>) -> Radians<u128> {
        Radians(Term::of(self).times(other.term()).value)
    }
}

impl Div<Radians<u128>> for u128 {
    type Output = Radians<u128>;

    fn div(self, other: Radians<u128>) -> (r: Radians<u128>) {
        Radians(self / other.0)
    }
}

impl DivSpecImpl<Radians<u128>> for u128 {
    open spec fn obeys_div_spec() -> bool {
        true
    }

    open spec fn div_req(self, other: Radians<u128>) -> bool {
        Term::of(self).over(other.term()).defined
    }

    open spec fn div_spec(self, other: Radians<u128>) -> Radians<u128> {
        Radians(Term::of(self).over(other.term()).value)
    }
}

} // verus!
