//! The operators of [`Vec3`] with the number on the left, for the primitive integers.
use super::Vec3;
use crate::traits::Term;
use core::ops::Add;
use core::ops::Div;
use core::ops::Mul;
use core::ops::Sub;
use vstd::prelude::*;
use vstd::std_specs::ops::AddSpecImpl;
use vstd::std_specs::ops::DivSpecImpl;
use vstd::std_specs::ops::MulSpecImpl;
use vstd::std_specs::ops::SubSpecImpl;

verus! {

impl Add<Vec3<i8>> for i8 {
    type Output = Vec3<i8>;

    fn add(self, other: Vec3<i8>) -> (r: Vec3<i8>)
        ensures
            r@ == other.terms().each_plus(Term::of(self)).values(),
    {
        Vec3([self + other.0[0], self + other.0[1], self + other.0[2]])
    }
}

impl AddSpecImpl<Vec3<i8>> for i8 {
    open spec fn obeys_add_spec() -> bool {
        true
    }

    open spec fn add_req(self, other: Vec3<i8>) -> bool {
        other.terms().each_plus(Term::of(self)).defined()
    }

    open spec fn add_spec(self, other: Vec3<i8>) -> Vec3<i8> {
        other.terms().each_plus(Term::of(self)).value()
    }
}

impl Sub<Vec3<i8>> for i8 {
    type Output = Vec3<i8>;

    fn sub(self, other: Vec3<i8>) -> (r: Vec3<i8>)
        ensures
            r@ == other.terms().each_minus(Term::of(self)).values(),
    {
        Vec3([self - other.0[0], self - other.0[1], self - other.0[2]])
    }
}

impl SubSpecImpl<Vec3<i8>> for i8 {
    open spec fn obeys_sub_spec() -> bool {
        true
    }

    open spec fn sub_req(self, other: Vec3<i8>) -> bool {
        other.terms().each_minus(Term::of(self)).defined()
    }

    open spec fn sub_spec(self, other: Vec3<i8>) -> Vec3<i8> {
        other.terms().each_minus(Term::of(self)).value()
    }
}

impl Mul<Vec3<i8>> for i8 {
    type Output = Vec3<i8>;

    fn mul(self, other: Vec3<i8>) -> (r: Vec3<i8>)
        ensures
            r@ == other.terms().each_times(Term::of(self)).values(),
    {
        Vec3([self * other.0[0], self * other.0[1], self * other.0[2]])
    }
}

impl MulSpecImpl<Vec3<i8>> for i8 {
    open spec fn obeys_mul_spec() -> bool {
        true
    }

    open spec fn mul_req(self, other: Vec3<i8>) -> bool {
        other.terms().each_times(Term::of(self)).defined()
    }

    open spec fn mul_spec(self, other: Vec3<i8>) -> Vec3<i8> {
        other.terms().each_times(Term::of(self)).value()
    }
}

impl Div<Vec3<i8>> for i8 {
    type Output = Vec3<i8>;

    fn div(self, other: Vec3<i8>) -> (r: Vec3<i8>)
        ensures
            r@ == other.terms().each_over(Term::of(self)).values(),
    {
        Vec3([self / other.0[0], self / other.0[1], self / other.0[2]])
    }
}

impl DivSpecImpl<Vec3<i8>> for i8 {
    open spec fn obeys_div_spec() -> bool {
        true
    }

    open spec fn div_req(self, other: Vec3<i8>) -> bool {
        other.terms().each_over(Term::of(self)).defined()
    }

    open spec fn div_spec(self, other: Vec3<i8>) -> Vec3<i8> {
        other.terms().each_over(Term::of(self)).value()
    }
}

impl Add<Vec3<i16>> for i16 {
    type Output = Vec3<i16>;

    fn add(self, other: Vec3<i16>) -> (r: Vec3<i16>)
        ensures
            r@ == other.terms().each_plus(Term::of(self)).values(),
    {
        Vec3([self + other.0[0], self + other.0[1], self + other.0[2]])
    }
}

impl AddSpecImpl<Vec3<i16>> for i16 {
    open spec fn obeys_add_spec() -> bool {
        true
    }

    open spec fn add_req(self, other: Vec3<i16>) -> bool {
        other.terms().each_plus(Term::of(self)).defined()
    }

    open spec fn add_spec(self, other: Vec3<i16>) -> Vec3<i16> {
        other.terms().each_plus(Term::of(self)).value()
    }
}

impl Sub<Vec3<i16>> for i16 {
    type Output = Vec3<i16>;

    fn sub(self, other: Vec3<i16>) -> (r: Vec3<i16>)
        ensures
            r@ == other.terms().each_minus(Term::of(self)).values(),
    {
        Vec3([self - other.0[0], self - other.0[1], self - other.0[2]])
    }
}

impl SubSpecImpl<Vec3<i16>> for i16 {
    open spec fn obeys_sub_spec() -> bool {
        true
    }

    open spec fn sub_req(self, other: Vec3<i16>) -> bool {
        other.terms().each_minus(Term::of(self)).defined()
    }

    open spec fn sub_spec(self, other: Vec3<i16>) -> Vec3<i16> {
        other.terms().each_minus(Term::of(self)).value()
    }
}

impl Mul<Vec3<i16>> for i16 {
    type Output = Vec3<i16>;

    fn mul(self, other: Vec3<i16>) -> (r: Vec3<i16>)
        ensures
            r@ == other.terms().each_times(Term::of(self)).values(),
    {
        Vec3([self * other.0[0], self * other.0[1], self * other.0[2]])
    }
}

impl MulSpecImpl<Vec3<i16>> for i16 {
    open spec fn obeys_mul_spec() -> bool {
        true
    }

    open spec fn mul_req(self, other: Vec3<i16>) -> bool {
        other.terms().each_times(Term::of(self)).defined()
    }

    open spec fn mul_spec(self, other: Vec3<i16>) -> Vec3<i16> {
        other.terms().each_times(Term::of(self)).value()
    }
}

impl Div<Vec3<i16>> for i16 {
    type Output = Vec3<i16>;

    fn div(self, other: Vec3<i16>) -> (r: Vec3<i16>)
        ensures
            r@ == other.terms().each_over(Term::of(self)).values(),
    {
        Vec3([self / other.0[0], self / other.0[1], self / other.0[2]])
    }
}

impl DivSpecImpl<Vec3<i16>> for i16 {
    open spec fn obeys_div_spec() -> bool {
        true
    }

    open spec fn div_req(self, other: Vec3<i16>) -> bool {
        other.terms().each_over(Term::of(self)).defined()
    }

    open spec fn div_spec(self, other: Vec3<i16>) -> Vec3<i16> {
        other.terms().each_over(Term::of(self)).value()
    }
}

impl Add<Vec3<i32>> for i32 {
    type Output = Vec3<i32>;

    fn add(self, other: Vec3<i32>) -> (r: Vec3<i32>)
        ensures
            r@ == other.terms().each_plus(Term::of(self)).values(),
    {
        Vec3([self + other.0[0], self + other.0[1], self + other.0[2]])
    }
}

impl AddSpecImpl<Vec3<i32>> for i32 {
    open spec fn obeys_add_spec() -> bool {
        true
    }

    open spec fn add_req(self, other: Vec3<i32>) -> bool {
        other.terms().each_plus(Term::of(self)).defined()
    }

    open spec fn add_spec(self, other: Vec3<i32>) -> Vec3<i32> {
        other.terms().each_plus(Term::of(self)).value()
    }
}

impl Sub<Vec3<i32>> for i32 {
    type Output = Vec3<i32>;

    fn sub(self, other: Vec3<i32>) -> (r: Vec3<i32>)
        ensures
            r@ == other.terms().each_minus(Term::of(self)).values(),
    {
        Vec3([self - other.0[0], self - other.0[1], self - other.0[2]])
    }
}

impl SubSpecImpl<Vec3<i32>> for i32 {
    open spec fn obeys_sub_spec() -> bool {
        true
    }

    open spec fn sub_req(self, other: Vec3<i32>) -> bool {
        other.terms().each_minus(Term::of(self)).defined()
    }

    open spec fn sub_spec(self, other: Vec3<i32>) -> Vec3<i32> {
        other.terms().each_minus(Term::of(self)).value()
    }
}

impl Mul<Vec3<i32>> for i32 {
    type Output = Vec3<i32>;

    fn mul(self, other: Vec3<i32>) -> (r: Vec3<i32>)
        ensures
            r@ == other.terms().each_times(Term::of(self)).values(),
    {
        Vec3([self * other.0[0], self * other.0[1], self * other.0[2]])
    }
}

impl MulSpecImpl<Vec3<i32>> for i32 {
    open spec fn obeys_mul_spec() -> bool {
        true
    }

    open spec fn mul_req(self, other: Vec3<i32>) -> bool {
        other.terms().each_times(Term::of(self)).defined()
    }

    open spec fn mul_spec(self, other: Vec3<i32>) -> Vec3<i32> {
        other.terms().each_times(Term::of(self)).value()
    }
}

impl Div<Vec3<i32>> for i32 {
    type Output = Vec3<i32>;

    fn div(self, other: Vec3<i32>) -> (r: Vec3<i32>)
        ensures
            r@ == other.terms().each_over(Term::of(self)).values(),
    {
        Vec3([self / other.0[0], self / other.0[1], self / other.0[2]])
    }
}

impl DivSpecImpl<Vec3<i32>> for i32 {
    open spec fn obeys_div_spec() -> bool {
        true
    }

    open spec fn div_req(self, other: Vec3<i32>) -> bool {
        other.terms().each_over(Term::of(self)).defined()
    }

    open spec fn div_spec(self, other: Vec3<i32>) -> Vec3<i32> {
        other.terms().each_over(Term::of(self)).value()
    }
}

impl Add<Vec3<i64>> for i64 {
    type Output = Vec3<i64>;

    fn add(self, other: Vec3<i64>) -> (r: Vec3<i64>)
        ensures
            r@ == other.terms().each_plus(Term::of(self)).values(),
    {
        Vec3([self + other.0[0], self + other.0[1], self + other.0[2]])
    }
}

impl AddSpecImpl<Vec3<i64>> for i64 {
    open spec fn obeys_add_spec() -> bool {
        true
    }

    open spec fn add_req(self, other: Vec3<i64>) -> bool {
        other.terms().each_plus(Term::of(self)).defined()
    }

    open spec fn add_spec(self, other: Vec3<i64>) -> Vec3<i64> {
        other.terms().each_plus(Term::of(self)).value()
    }
}

impl Sub<Vec3<i64>> for i64 {
    type Output = Vec3<i64>;

    fn sub(self, other: Vec3<i64>) -> (r: Vec3<i64>)
        ensures
            r@ == other.terms().each_minus(Term::of(self)).values(),
    {
        Vec3([self - other.0[0], self - other.0[1], self - other.0[2]])
    }
}

impl SubSpecImpl<Vec3<i64>> for i64 {
    open spec fn obeys_sub_spec() -> bool {
        true
    }

    open spec fn sub_req(self, other: Vec3<i64>) -> bool {
        other.terms().each_minus(Term::of(self)).defined()
    }

    open spec fn sub_spec(self, other: Vec3<i64>) -> Vec3<i64> {
        other.terms().each_minus(Term::of(self)).value()
    }
}

impl Mul<Vec3<i64>> for i64 {
    type Output = Vec3<i64>;

    fn mul(self, other: Vec3<i64>) -> (r: Vec3<i64>)
        ensures
            r@ == other.terms().each_times(Term::of(self)).values(),
    {
        Vec3([self * other.0[0], self * other.0[1], self * other.0[2]])
    }
}

impl MulSpecImpl<Vec3<i64>> for i64 {
    open spec fn obeys_mul_spec() -> bool {
        true
    }

    open spec fn mul_req(self, other: Vec3<i64>) -> bool {
        other.terms().each_times(Term::of(self)).defined()
    }

    open spec fn mul_spec(self, other: Vec3<i64>) -> Vec3<i64> {
        other.terms().each_times(Term::of(self)).value()
    }
}

impl Div<Vec3<i64>> for i64 {
    type Output = Vec3<i64>;

    fn div(self, other: Vec3<i64>) -> (r: Vec3<i64>)
        ensures
            r@ == other.terms().each_over(Term::of(self)).values(),
    {
        Vec3([self / other.0[0], self / other.0[1], self / other.0[2]])
    }
}

impl DivSpecImpl<Vec3<i64>> for i64 {
    open spec fn obeys_div_spec() -> bool {
        true
    }

    open spec fn div_req(self, other: Vec3<i64>) -> bool {
        other.terms().each_over(Term::of(self)).defined()
    }

    open spec fn div_spec(self, other: Vec3<i64>) -> Vec3<i64> {
        other.terms().each_over(Term::of(self)).value()
    }
}

impl Add<Vec3<i128>> for i128 {
    type Output = Vec3<i128>;

    fn add(self, other: Vec3<i128>) -> (r: Vec3<i128>)
        ensures
            r@ == other.terms().each_plus(Term::of(self)).values(),
    {
        Vec3([self + other.0[0], self + other.0[1], self + other.0[2]])
    }
}

impl AddSpecImpl<Vec3<i128>> for i128 {
    open spec fn obeys_add_spec() -> bool {
        true
    }

    open spec fn add_req(self, other: Vec3<i128>) -> bool {
        other.terms().each_plus(Term::of(self)).defined()
    }

    open spec fn add_spec(self, other: Vec3<i128>) -> Vec3<i128> {
        other.terms().each_plus(Term::of(self)).value()
    }
}

impl Sub<Vec3<i128>> for i128 {
    type Output = Vec3<i128>;

    fn sub(self, other: Vec3<i128>) -> (r: Vec3<i128>)
        ensures
            r@ == other.terms().each_minus(Term::of(self)).values(),
    {
        Vec3([self - other.0[0], self - other.0[1], self - other.0[2]])
    }
}

impl SubSpecImpl<Vec3<i128>> for i128 {
    open spec fn obeys_sub_spec() -> bool {
        true
    }

    open spec fn sub_req(self, other: Vec3<i128>) -> bool {
        other.terms().each_minus(Term::of(self)).defined()
    }

    open spec fn sub_spec(self, other: Vec3<i128>) -> Vec3<i128> {
        other.terms().each_minus(Term::of(self)).value()
    }
}

impl Mul<Vec3<i128>> for i128 {
    type Output = Vec3<i128>;

    fn mul(self, other: Vec3<i128>) -> (r: Vec3<i128>)
        ensures
            r@ == other.terms().each_times(Term::of(self)).values(),
    {
        Vec3([self * other.0[0], self * other.0[1], self * other.0[2]])
    }
}

impl MulSpecImpl<Vec3<i128>> for i128 {
    open spec fn obeys_mul_spec() -> bool {
        true
    }

    open spec fn mul_req(self, other: Vec3<i128>) -> bool {
        other.terms().each_times(Term::of(self)).defined()
    }

    open spec fn mul_spec(self, other: Vec3<i128>) -> Vec3<i128> {
        other.terms().each_times(Term::of(self)).value()
    }
}

impl Div<Vec3<i128>> for i128 {
    type Output = Vec3<i128>;

    fn div(self, other: Vec3<i128>) -> (r: Vec3<i128>)
        ensures
            r@ == other.terms().each_over(Term::of(self)).values(),
    {
        Vec3([self / other.0[0], self / other.0[1], self / other.0[2]])
    }
}

impl DivSpecImpl<Vec3<i128>> for i128 {
    open spec fn obeys_div_spec() -> bool {
        true
    }

    open spec fn div_req(self, other: Vec3<i128>) -> bool {
        other.terms().each_over(Term::of(self)).defined()
    }

    open spec fn div_spec(self, other: Vec3<i128>) -> Vec3<i128> {
        other.terms().each_over(Term::of(self)).value()
    }
}

impl Add<Vec3<u8>> for u8 {
    type Output = Vec3<u8>;

    fn add(self, other: Vec3<u8>) -> (r: Vec3<u8>)
        ensures
            r@ == other.terms().each_plus(Term::of(self)).values(),
    {
        Vec3([self + other.0[0], self + other.0[1], self + other.0[2]])
    }
}

impl AddSpecImpl<Vec3<u8>> for u8 {
    open spec fn obeys_add_spec() -> bool {
        true
    }

    open spec fn add_req(self, other: Vec3<u8>) -> bool {
        other.terms().each_plus(Term::of(self)).defined()
    }

    open spec fn add_spec(self, other: Vec3<u8>) -> Vec3<u8> {
        other.terms().each_plus(Term::of(self)).value()
    }
}

impl Sub<Vec3<u8>> for u8 {
    type Output = Vec3<u8>;

    fn sub(self, other: Vec3<u8>) -> (r: Vec3<u8>)
        ensures
            r@ == other.terms().each_minus(Term::of(self)).values(),
    {
        Vec3([self - other.0[0], self - other.0[1], self - other.0[2]])
    }
}

impl SubSpecImpl<Vec3<u8>> for u8 {
    open spec fn obeys_sub_spec() -> bool {
        true
    }

    open spec fn sub_req(self, other: Vec3<u8>) -> bool {
        other.terms().each_minus(Term::of(self)).defined()
    }

    open spec fn sub_spec(self, other: Vec3<u8>) -> Vec3<u8> {
        other.terms().each_minus(Term::of(self)).value()
    }
}

impl Mul<Vec3<u8>> for u8 {
    type Output = Vec3<u8>;

    fn mul(self, other: Vec3<u8>) -> (r: Vec3<u8>)
        ensures
            r@ == other.terms().each_times(Term::of(self)).values(),
    {
        Vec3([self * other.0[0], self * other.0[1], self * other.0[2]])
    }
}

impl MulSpecImpl<Vec3<u8>> for u8 {
    open spec fn obeys_mul_spec() -> bool {
        true
    }

    open spec fn mul_req(self, other: Vec3<u8>) -> bool {
        other.terms().each_times(Term::of(self)).defined()
    }

    open spec fn mul_spec(self, other: Vec3<u8>) -> Vec3<u8> {
        other.terms().each_times(Term::of(self)).value()
    }
}

impl Div<Vec3<u8>> for u8 {
    type Output = Vec3<u8>;

    fn div(self, other: Vec3<u8>) -> (r: Vec3<u8>)
        ensures
            r@ == other.terms().each_over(Term::of(self)).values(),
    {
        Vec3([self / other.0[0], self / other.0[1], self / other.0[2]])
    }
}

impl DivSpecImpl<Vec3<u8>> for u8 {
    open spec fn obeys_div_spec() -> bool {
        true
    }

    open spec fn div_req(self, other: Vec3<u8>) -> bool {
        other.terms().each_over(Term::of(self)).defined()
    }

    open spec fn div_spec(self, other: Vec3<u8>) -> Vec3<u8> {
        other.terms().each_over(Term::of(self)).value()
    }
}

impl Add<Vec3<u16>> for u16 {
    type Output = Vec3<u16>;

    fn add(self, other: Vec3<u16>) -> (r: Vec3<u16>)
        ensures
            r@ == other.terms().each_plus(Term::of(self)).values(),
    {
        Vec3([self + other.0[0], self + other.0[1], self + other.0[2]])
    }
}

impl AddSpecImpl<Vec3<u16>> for u16 {
    open spec fn obeys_add_spec() -> bool {
        true
    }

    open spec fn add_req(self, other: Vec3<u16>) -> bool {
        other.terms().each_plus(Term::of(self)).defined()
    }

    open spec fn add_spec(self, other: Vec3<u16>) -> Vec3<u16> {
        other.terms().each_plus(Term::of(self)).value()
    }
}

impl Sub<Vec3<u16>> for u16 {
    type Output = Vec3<u16>;

    fn sub(self, other: Vec3<u16>) -> (r: Vec3<u16>)
        ensures
            r@ == other.terms().each_minus(Term::of(self)).values(),
    {
        Vec3([self - other.0[0], self - other.0[1], self - other.0[2]])
    }
}

impl SubSpecImpl<Vec3<u16>> for u16 {
    open spec fn obeys_sub_spec() -> bool {
        true
    }

    open spec fn sub_req(self, other: Vec3<u16>) -> bool {
        other.terms().each_minus(Term::of(self)).defined()
    }

    open spec fn sub_spec(self, other: Vec3<u16>) -> Vec3<u16> {
        other.terms().each_minus(Term::of(self)).value()
    }
}

impl Mul<Vec3<u16>> for u16 {
    type Output = Vec3<u16>;

    fn mul(self, other: Vec3<u16>) -> (r: Vec3<u16>)
        ensures
            r@ == other.terms().each_times(Term::of(self)).values(),
    {
        Vec3([self * other.0[0], self * other.0[1], self * other.0[2]])
    }
}

impl MulSpecImpl<Vec3<u16>> for u16 {
    open spec fn obeys_mul_spec() -> bool {
        true
    }

    open spec fn mul_req(self, other: Vec3<u16>) -> bool {
        other.terms().each_times(Term::of(self)).defined()
    }

    open spec fn mul_spec(self, other: Vec3<u16>) -> Vec3<u16> {
        other.terms().each_times(Term::of(self)).value()
    }
}

impl Div<Vec3<u16>> for u16 {
    type Output = Vec3<u16>;

    fn div(self, other: Vec3<u16>) -> (r: Vec3<u16>)
        ensures
            r@ == other.terms().each_over(Term::of(self)).values(),
    {
        Vec3([self / other.0[0], self / other.0[1], self / other.0[2]])
    }
}

impl DivSpecImpl<Vec3<u16>> for u16 {
    open spec fn obeys_div_spec() -> bool {
        true
    }

    open spec fn div_req(self, other: Vec3<u16>) -> bool {
        other.terms().each_over(Term::of(self)).defined()
    }

    open spec fn div_spec(self, other: Vec3<u16>) -> Vec3<u16> {
        other.terms().each_over(Term::of(self)).value()
    }
}

impl Add<Vec3<u32>> for u32 {
    type Output = Vec3<u32>;

    fn add(self, other: Vec3<u32>) -> (r: Vec3<u32>)
        ensures
            r@ == other.terms().each_plus(Term::of(self)).values(),
    {
        Vec3([self + other.0[0], self + other.0[1], self + other.0[2]])
    }
}

impl AddSpecImpl<Vec3<u32>> for u32 {
    open spec fn obeys_add_spec() -> bool {
        true
    }

    open spec fn add_req(self, other: Vec3<u32>) -> bool {
        other.terms().each_plus(Term::of(self)).defined()
    }

    open spec fn add_spec(self, other: Vec3<u32>) -> Vec3<u32> {
        other.terms().each_plus(Term::of(self)).value()
    }
}

impl Sub<Vec3<u32>> for u32 {
    type Output = Vec3<u32>;

    fn sub(self, other: Vec3<u32>) -> (r: Vec3<u32>)
        ensures
            r@ == other.terms().each_minus(Term::of(self)).values(),
    {
        Vec3([self - other.0[0], self - other.0[1], self - other.0[2]])
    }
}

impl SubSpecImpl<Vec3<u32>> for u32 {
    open spec fn obeys_sub_spec() -> bool {
        true
    }

    open spec fn sub_req(self, other: Vec3<u32>) -> bool {
        other.terms().each_minus(Term::of(self)).defined()
    }

    open spec fn sub_spec(self, other: Vec3<u32>) -> Vec3<u32> {
        other.terms().each_minus(Term::of(self)).value()
    }
}

impl Mul<Vec3<u32>> for u32 {
    type Output = Vec3<u32>;

    fn mul(self, other: Vec3<u32>) -> (r: Vec3<u32>)
        ensures
            r@ == other.terms().each_times(Term::of(self)).values(),
    {
        Vec3([self * other.0[0], self * other.0[1], self * other.0[2]])
    }
}

impl MulSpecImpl<Vec3<u32>> for u32 {
    open spec fn obeys_mul_spec() -> bool {
        true
    }

    open spec fn mul_req(self, other: Vec3<u32>) -> bool {
        other.terms().each_times(Term::of(self)).defined()
    }

    open spec fn mul_spec(self, other: Vec3<u32>) -> Vec3<u32> {
        other.terms().each_times(Term::of(self)).value()
    }
}

impl Div<Vec3<u32>> for u32 {
    type Output = Vec3<u32>;

    fn div(self, other: Vec3<u32>) -> (r: Vec3<u32>)
        ensures
            r@ == other.terms().each_over(Term::of(self)).values(),
    {
        Vec3([self / other.0[0], self / other.0[1], self / other.0[2]])
    }
}

impl DivSpecImpl<Vec3<u32>> for u32 {
    open spec fn obeys_div_spec() -> bool {
        true
    }

    open spec fn div_req(self, other: Vec3<u32>) -> bool {
        other.terms().each_over(Term::of(self)).defined()
    }

    open spec fn div_spec(self, other: Vec3<u32>) -> Vec3<u32> {
        other.terms().each_over(Term::of(self)).value()
    }
}

impl Add<Vec3<u64>> for u64 {
    type Output = Vec3<u64>;

    fn add(self, other: Vec3<u64>) -> (r: Vec3<u64>)
        ensures
            r@ == other.terms().each_plus(Term::of(self)).values(),
    {
        Vec3([self + other.0[0], self + other.0[1], self + other.0[2]])
    }
}

impl AddSpecImpl<Vec3<u64>> for u64 {
    open spec fn obeys_add_spec() -> bool {
        true
    }

    open spec fn add_req(self, other: Vec3<u64>) -> bool {
        other.terms().each_plus(Term::of(self)).defined()
    }

    open spec fn add_spec(self, other: Vec3<u64>) -> Vec3<u64> {
        other.terms().each_plus(Term::of(self)).value()
    }
}

impl Sub<Vec3<u64>> for u64 {
    type Output = Vec3<u64>;

    fn sub(self, other: Vec3<u64>) -> (r: Vec3<u64>)
        ensures
            r@ == other.terms().each_minus(Term::of(self)).values(),
    {
        Vec3([self - other.0[0], self - other.0[1], self - other.0[2]])
    }
}

impl SubSpecImpl<Vec3<u64>> for u64 {
    open spec fn obeys_sub_spec() -> bool {
        true
    }

    open spec fn sub_req(self, other: Vec3<u64>) -> bool {
        other.terms().each_minus(Term::of(self)).defined()
    }

    open spec fn sub_spec(self, other: Vec3<u64>) -> Vec3<u64> {
        other.terms().each_minus(Term::of(self)).value()
    }
}

impl Mul<Vec3<u64>> for u64 {
    type Output = Vec3<u64>;

    fn mul(self, other: Vec3<u64>) -> (r: Vec3<u64>)
        ensures
            r@ == other.terms().each_times(Term::of(self)).values(),
    {
        Vec3([self * other.0[0], self * other.0[1], self * other.0[2]])
    }
}

impl MulSpecImpl<Vec3<u64>> for u64 {
    open spec fn obeys_mul_spec() -> bool {
        true
    }

    open spec fn mul_req(self, other: Vec3<u64>) -> bool {
        other.terms().each_times(Term::of(self)).defined()
    }

    open spec fn mul_spec(self, other: Vec3<u64>) -> Vec3<u64> {
        other.terms().each_times(Term::of(self)).value()
    }
}

impl Div<Vec3<u64>> for u64 {
    type Output = Vec3<u64>;

    fn div(self, other: Vec3<u64>) -> (r: Vec3<u64>)
        ensures
            r@ == other.terms().each_over(Term::of(self)).values(),
    {
        Vec3([self / other.0[0], self / other.0[1], self / other.0[2]])
    }
}

impl DivSpecImpl<Vec3<u64>> for u64 {
    open spec fn obeys_div_spec() -> bool {
        true
    }

    open spec fn div_req(self, other: Vec3<u64>) -> bool {
        other.terms().each_over(Term::of(self)).defined()
    }

    open spec fn div_spec(self, other: Vec3<u64>) -> Vec3<u64> {
        other.terms().each_over(Term::of(self)).value()
    }
}

impl Add<Vec3<u128>> for u128 {
    type Output = Vec3<u128>;

    fn add(self, other: Vec3<u128>) -> (r: Vec3<u128>)
        ensures
            r@ == other.terms().each_plus(Term::of(self)).values(),
    {
        Vec3([self + other.0[0], self + other.0[1], self + other.0[2]])
    }
}

impl AddSpecImpl<Vec3<u128>> for u128 {
    open spec fn obeys_add_spec() -> bool {
        true
    }

    open spec fn add_req(self, other: Vec3<u128>) -> bool {
        other.terms().each_plus(Term::of(self)).defined()
    }

    open spec fn add_spec(self, other: Vec3<u128>) -> Vec3<u128> {
        other.terms().each_plus(Term::of(self)).value()
    }
}

impl Sub<Vec3<u128>> for u128 {
    type Output = Vec3<u128>;

    fn sub(self, other: Vec3<u128>) -> (r: Vec3<u128>)
        ensures
            r@ == other.terms().each_minus(Term::of(self)).values(),
    {
        Vec3([self - other.0[0], self - other.0[1], self - other.0[2]])
    }
}

impl SubSpecImpl<Vec3<u128>> for u128 {
    open spec fn obeys_sub_spec() -> bool {
        true
    }

    open spec fn sub_req(self, other: Vec3<u128>) -> bool {
        other.terms().each_minus(Term::of(self)).defined()
    }

    open spec fn sub_spec(self, other: Vec3<u128>) -> Vec3<u128> {
        other.terms().each_minus(Term::of(self)).value()
    }
}

impl Mul<Vec3<u128>> for u128 {
    type Output = Vec3<u128>;

    fn mul(self, other: Vec3<u128>) -> (r: Vec3<u128>)
        ensures
            r@ == other.terms().each_times(Term::of(self)).values(),
    {
        Vec3([self * other.0[0], self * other.0[1], self * other.0[2]])
    }
}

impl MulSpecImpl<Vec3<u128>> for u128 {
    open spec fn obeys_mul_spec() -> bool {
        true
    }

    open spec fn mul_req(self, other: Vec3<u128>) -> bool {
        other.terms().each_times(Term::of(self)).defined()
    }

    open spec fn mul_spec(self, other: Vec3<u128>) -> Vec3<u128> {
        other.terms().each_times(Term::of(self)).value()
    }
}

impl Div<Vec3<u128>> for u128 {
    type Output = Vec3<u128>;

    fn div(self, other: Vec3<u128>) -> (r: Vec3<u128>)
        ensures
            r@ == other.terms().each_over(Term::of(self)).values(),
    {
        Vec3([self / other.0[0], self / other.0[1], self / other.0[2]])
    }
}

impl DivSpecImpl<Vec3<u128>> for u128 {
    open spec fn obeys_div_spec() -> bool {
        true
    }

    open spec fn div_req(self, other: Vec3<u128>) -> bool {
        other.terms().each_over(Term::of(self)).defined()
    }

    open spec fn div_spec(self, other: Vec3<u128>) -> Vec3<u128> {
        other.terms().each_over(Term::of(self)).value()
    }
}

} // verus!
