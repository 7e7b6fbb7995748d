//! The operators of [`Vec4`] with the number on the left, for the primitive integers.
use super::Vec4;
use crate::traits::Term;
use core::ops::Add;
use core::ops::Div;
use core::ops::Mul;
use core::ops::Sub;
use vstd::prelude::*;
use vstd::std_specs::ops::AddSpecImpl;
use vstd::std_specs::ops::DivSpecImpl;
use vstd::std_specs::ops::MulSpecImpl;
use vstd::std_specs::ops::SubSpecImpl;

verus! {

impl Add<Vec4<i8>> for i8 {
    type Output = Vec4<i8>;

    fn add(self, other: Vec4<i8>) -> (r: Vec4<i8>)
        ensures
            r@ == other.terms().each_plus(Term::of(self)).values(),
    {
        Vec4([self + other.0[0], self + other.0[1], self + other.0[2], self + other.0[3]])
    }
}

impl AddSpecImpl<Vec4<i8>> for i8 {
    open spec fn obeys_add_spec() -> bool {
        true
    }

    open spec fn add_req(self, other: Vec4<i8>) -> bool {
        other.terms().each_plus(Term::of(self)).defined()
    }

    open spec fn add_spec(self, other: Vec4<i8>) -> Vec4<i8> {
        other.terms().each_plus(Term::of(self)).value()
    }
}

impl Sub<Vec4<i8>> for i8 {
    type Output = Vec4<i8>;

    fn sub(self, other: Vec4<i8>) -> (r: Vec4<i8>)
        ensures
            r@ == other.terms().each_minus(Term::of(self)).values(),
    {
        Vec4([self - other.0[0], self - other.0[1], self - other.0[2], self - other.0[3]])
    }
}

impl SubSpecImpl<Vec4<i8>> for i8 {
    open spec fn obeys_sub_spec() -> bool {
        true
    }

    open spec fn sub_req(self, other: Vec4<i8>) -> bool {
        other.terms().each_minus(Term::of(self)).defined()
    }

    open spec fn sub_spec(self, other: Vec4<i8>) -> Vec4<i8> {
        other.terms().each_minus(Term::of(self)).value()
    }
}

impl Mul<Vec4<i8>> for i8 {
    type Output = Vec4<i8>;

    fn mul(self, other: Vec4<i8>) -> (r: Vec4<i8>)
        ensures
            r@ == other.terms().each_times(Term::of(self)).values(),
    {
        Vec4([self * other.0[0], self * other.0[1], self * other.0[2], self * other.0[3]])
    }
}

impl MulSpecImpl<Vec4<i8>> for i8 {
    open spec fn obeys_mul_spec() -> bool {
        true
    }

    open spec fn mul_req(self, other: Vec4<i8>) -> bool {
        other.terms().each_times(Term::of(self)).defined()
    }

    open spec fn mul_spec(self, other: Vec4<i8>) -> Vec4<i8> {
        other.terms().each_times(Term::of(self)).value()
    }
}

impl Div<Vec4<i8>> for i8 {
    type Output = Vec4<i8>;

    fn div(self, other: Vec4<i8>) -> (r: Vec4<i8>)
        ensures
            r@ == other.terms().each_over(Term::of(self)).values(),
    {
        Vec4([self / other.0[0], self / other.0[1], self / other.0[2], self / other.0[3]])
    }
}

impl DivSpecImpl<Vec4<i8>> for i8 {
    open spec fn obeys_div_spec() -> bool {
        true
    }

    open spec fn div_req(self, other: Vec4<i8>) -> bool {
        other.terms().each_over(Term::of(self)).defined()
    }

    open spec fn div_spec(self, other: Vec4<i8>) -> Vec4<i8> {
        other.terms().each_over(Term::of(self)).value()
    }
}

impl Add<Vec4<i16>> for i16 {
    type Output = Vec4<i16>;

    fn add(self, other: Vec4<i16>) -> (r: Vec4<i16>)
        ensures
            r@ == other.terms().each_plus(Term::of(self)).values(),
    {
        Vec4([self + other.0[0], self + other.0[1], self + other.0[2], self + other.0[3]])
    }
}

impl AddSpecImpl<Vec4<i16>> for i16 {
    open spec fn obeys_add_spec() -> bool {
        true
    }

    open spec fn add_req(self, other: Vec4<i16>) -> bool {
        other.terms().each_plus(Term::of(self)).defined()
    }

    open spec fn add_spec(self, other: Vec4<i16>) -> Vec4<i16> {
        other.terms().each_plus(Term::of(self)).value()
    }
}

impl Sub<Vec4<i16>> for i16 {
    type Output = Vec4<i16>;

    fn sub(self, other: Vec4<i16>) -> (r: Vec4<i16>)
        ensures
            r@ == other.terms().each_minus(Term::of(self)).values(),
    {
        Vec4([self - other.0[0], self - other.0[1], self - other.0[2], self - other.0[3]])
    }
}

impl SubSpecImpl<Vec4<i16>> for i16 {
    open spec fn obeys_sub_spec() -> bool {
        true
    }

    open spec fn sub_req(self, other: Vec4<i16>) -> bool {
        other.terms().each_minus(Term::of(self)).defined()
    }

    open spec fn sub_spec(self, other: Vec4<i16>) -> Vec4<i16> {
        other.terms().each_minus(Term::of(self)).value()
    }
}

impl Mul<Vec4<i16>> for i16 {
    type Output = Vec4<i16>;

    fn mul(self, other: Vec4<i16>) -> (r: Vec4<i16>)
        ensures
            r@ == other.terms().each_times(Term::of(self)).values(),
    {
        Vec4([self * other.0[0], self * other.0[1], self * other.0[2], self * other.0[3]])
    }
}

impl MulSpecImpl<Vec4<i16>> for i16 {
    open spec fn obeys_mul_spec() -> bool {
        true
    }

    open spec fn mul_req(self, other: Vec4<i16>) -> bool {
        other.terms().each_times(Term::of(self)).defined()
    }

    open spec fn mul_spec(self, other: Vec4<i16>) -> Vec4<i16> {
        other.terms().each_times(Term::of(self)).value()
    }
}

impl Div<Vec4<i16>> for i16 {
    type Output = Vec4<i16>;

    fn div(self, other: Vec4<i16>) -> (r: Vec4<i16>)
        ensures
            r@ == other.terms().each_over(Term::of(self)).values(),
    {
        Vec4([self / other.0[0], self / other.0[1], self / other.0[2], self / other.0[3]])
    }
}

impl DivSpecImpl<Vec4<i16>> for i16 {
    open spec fn obeys_div_spec() -> bool {
        true
    }

    open spec fn div_req(self, other: Vec4<i16>) -> bool {
        other.terms().each_over(Term::of(self)).defined()
    }

    open spec fn div_spec(self, other: Vec4<i16>) -> Vec4<i16> {
        other.terms().each_over(Term::of(self)).value()
    }
}

impl Add<Vec4<i32>> for i32 {
    type Output = Vec4<i32>;

    fn add(self, other: Vec4<i32>) -> (r: Vec4<i32>)
        ensures
            r@ == other.terms().each_plus(Term::of(self)).values(),
    {
        Vec4([self + other.0[0], self + other.0[1], self + other.0[2], self + other.0[3]])
    }
}

impl AddSpecImpl<Vec4<i32>> for i32 {
    open spec fn obeys_add_spec() -> bool {
        true
    }

    open spec fn add_req(self, other: Vec4<i32>) -> bool {
        other.terms().each_plus(Term::of(self)).defined()
    }

    open spec fn add_spec(self, other: Vec4<i32>) -> Vec4<i32> {
        other.terms().each_plus(Term::of(self)).value()
    }
}

impl Sub<Vec4<i32>> for i32 {
    type Output = Vec4<i32>;

    fn sub(self, other: Vec4<i32>) -> (r: Vec4<i32>)
        ensures
            r@ == other.terms().each_minus(Term::of(self)).values(),
    {
        Vec4([self - other.0[0], self - other.0[1], self - other.0[2], self - other.0[3]])
    }
}

impl SubSpecImpl<Vec4<i32>> for i32 {
    open spec fn obeys_sub_spec() -> bool {
        true
    }

    open spec fn sub_req(self, other: Vec4<i32>) -> bool {
        other.terms().each_minus(Term::of(self)).defined()
    }

    open spec fn sub_spec(self, other: Vec4<i32>) -> Vec4<i32> {
        other.terms().each_minus(Term::of(self)).value()
    }
}

impl Mul<Vec4<i32>> for i32 {
    type Output = Vec4<i32>;

    fn mul(self, other: Vec4<i32>) -> (r: Vec4<i32>)
        ensures
            r@ == other.terms().each_times(Term::of(self)).values(),
    {
        Vec4([self * other.0[0], self * other.0[1], self * other.0[2], self * other.0[3]])
    }
}

impl MulSpecImpl<Vec4<i32>> for i32 {
    open spec fn obeys_mul_spec() -> bool {
        true
    }

    open spec fn mul_req(self, other: Vec4<i32>) -> bool {
        other.terms().each_times(Term::of(self)).defined()
    }

    open spec fn mul_spec(self, other: Vec4<i32>) -> Vec4<i32> {
        other.terms().each_times(Term::of(self)).value()
    }
}

impl Div<Vec4<i32>> for i32 {
    type Output = Vec4<i32>;

    fn div(self, other: Vec4<i32>) -> (r: Vec4<i32>)
        ensures
            r@ == other.terms().each_over(Term::of(self)).values(),
    {
        Vec4([self / other.0[0], self / other.0[1], self / other.0[2], self / other.0[3]])
    }
}

impl DivSpecImpl<Vec4<i32>> for i32 {
    open spec fn obeys_div_spec() -> bool {
        true
    }

    open spec fn div_req(self, other: Vec4<i32>) -> bool {
        other.terms().each_over(Term::of(self)).defined()
    }

    open spec fn div_spec(self, other: Vec4<i32>) -> Vec4<i32> {
        other.terms().each_over(Term::of(self)).value()
    }
}

impl Add<Vec4<i64>> for i64 {
    type Output = Vec4<i64>;

    fn add(self, other: Vec4<i64>) -> (r: Vec4<i64>)
        ensures
            r@ == other.terms().each_plus(Term::of(self)).values(),
    {
        Vec4([self + other.0[0], self + other.0[1], self + other.0[2], self + other.0[3]])
    }
}

impl AddSpecImpl<Vec4<i64>> for i64 {
    open spec fn obeys_add_spec() -> bool {
        true
    }

    open spec fn add_req(self, other: Vec4<i64>) -> bool {
        other.terms().each_plus(Term::of(self)).defined()
    }

    open spec fn add_spec(self, other: Vec4<i64>) -> Vec4<i64> {
        other.terms().each_plus(Term::of(self)).value()
    }
}

impl Sub<Vec4<i64>> for i64 {
    type Output = Vec4<i64>;

    fn sub(self, other: Vec4<i64>) -> (r: Vec4<i64>)
        ensures
            r@ == other.terms().each_minus(Term::of(self)).values(),
    {
        Vec4([self - other.0[0], self - other.0[1], self - other.0[2], self - other.0[3]])
    }
}

impl SubSpecImpl<Vec4<i64>> for i64 {
    open spec fn obeys_sub_spec() -> bool {
        true
    }

    open spec fn sub_req(self, other: Vec4<i64>) -> bool {
        other.terms().each_minus(Term::of(self)).defined()
    }

    open spec fn sub_spec(self, other: Vec4<i64>) -> Vec4<i64> {
        other.terms().each_minus(Term::of(self)).value()
    }
}

impl Mul<Vec4<i64>> for i64 {
    type Output = Vec4<i64>;

    fn mul(self, other: Vec4<i64>) -> (r: Vec4<i64>)
        ensures
            r@ == other.terms().each_times(Term::of(self)).values(),
    {
        Vec4([self * other.0[0], self * other.0[1], self * other.0[2], self * other.0[3]])
    }
}

impl MulSpecImpl<Vec4<i64>> for i64 {
    open spec fn obeys_mul_spec() -> bool {
        true
    }

    open spec fn mul_req(self, other: Vec4<i64>) -> bool {
        other.terms().each_times(Term::of(self)).defined()
    }

    open spec fn mul_spec(self, other: Vec4<i64>) -> Vec4<i64> {
        other.terms().each_times(Term::of(self)).value()
    }
}

impl Div<Vec4<i64>> for i64 {
    type Output = Vec4<i64>;

    fn div(self, other: Vec4<i64>) -> (r: Vec4<i64>)
        ensures
            r@ == other.terms().each_over(Term::of(self)).values(),
    {
        Vec4([self / other.0[0], self / other.0[1], self / other.0[2], self / other.0[3]])
    }
}

impl DivSpecImpl<Vec4<i64>> for i64 {
    open spec fn obeys_div_spec() -> bool {
        true
    }

    open spec fn div_req(self, other: Vec4<i64>) -> bool {
        other.terms().each_over(Term::of(self)).defined()
    }

    open spec fn div_spec(self, other: Vec4<i64>) -> Vec4<i64> {
        other.terms().each_over(Term::of(self)).value()
    }
}

impl Add<Vec4<i128>> for i128 {
    type Output = Vec4<i128>;

    fn add(self, other: Vec4<i128>) -> (r: Vec4<i128>)
        ensures
            r@ == other.terms().each_plus(Term::of(self)).values(),
    {
        Vec4([self + other.0[0], self + other.0[1], self + other.0[2], self + other.0[3]])
    }
}

impl AddSpecImpl<Vec4<i128>> for i128 {
    open spec fn obeys_add_spec() -> bool {
        true
    }

    open spec fn add_req(self, other: Vec4<i128>) -> bool {
        other.terms().each_plus(Term::of(self)).defined()
    }

    open spec fn add_spec(self, other: Vec4<i128>) -> Vec4<i128> {
        other.terms().each_plus(Term::of(self)).value()
    }
}

impl Sub<Vec4<i128>> for i128 {
    type Output = Vec4<i128>;

    fn sub(self, other: Vec4<i128>) -> (r: Vec4<i128>)
        ensures
            r@ == other.terms().each_minus(Term::of(self)).values(),
    {
        Vec4([self - other.0[0], self - other.0[1], self - other.0[2], self - other.0[3]])
    }
}

impl SubSpecImpl<Vec4<i128>> for i128 {
    open spec fn obeys_sub_spec() -> bool {
        true
    }

    open spec fn sub_req(self, other: Vec4<i128>) -> bool {
        other.terms().each_minus(Term::of(self)).defined()
    }

    open spec fn sub_spec(self, other: Vec4<i128>) -> Vec4<i128> {
        other.terms().each_minus(Term::of(self)).value()
    }
}

impl Mul<Vec4<i128>> for i128 {
    type Output = Vec4<i128>;

    fn mul(self, other: Vec4<i128>) -> (r: Vec4<i128>)
        ensures
            r@ == other.terms().each_times(Term::of(self)).values(),
    {
        Vec4([self * other.0[0], self * other.0[1], self * other.0[2], self * other.0[3]])
    }
}

impl MulSpecImpl<Vec4<i128>> for i128 {
    open spec fn obeys_mul_spec() -> bool {
        true
    }

    open spec fn mul_req(self, other: Vec4<i128>) -> bool {
        other.terms().each_times(Term::of(self)).defined()
    }

    open spec fn mul_spec(self, other: Vec4<i128>) -> Vec4<i128> {
        other.terms().each_times(Term::of(self)).value()
    }
}

impl Div<Vec4<i128>> for i128 {
    type Output = Vec4<i128>;

    fn div(self, other: Vec4<i128>) -> (r: Vec4<i128>)
        ensures
            r@ == other.terms().each_over(Term::of(self)).values(),
    {
        Vec4([self / other.0[0], self / other.0[1], self / other.0[2], self / other.0[3]])
    }
}

impl DivSpecImpl<Vec4<i128>> for i128 {
    open spec fn obeys_div_spec() -> bool {
        true
    }

    open spec fn div_req(self, other: Vec4<i128>) -> bool {
        other.terms().each_over(Term::of(self)).defined()
    }

    open spec fn div_spec(self, other: Vec4<i128>) -> Vec4<i128> {
        other.terms().each_over(Term::of(self)).value()
    }
}

impl Add<Vec4<u8>> for u8 {
    type Output = Vec4<u8>;

    fn add(self, other: Vec4<u8>) -> (r: Vec4<u8>)
        ensures
            r@ == other.terms().each_plus(Term::of(self)).values(),
    {
        Vec4([self + other.0[0], self + other.0[1], self + other.0[2], self + other.0[3]])
    }
}

impl AddSpecImpl<Vec4<u8>> for u8 {
    open spec fn obeys_add_spec() -> bool {
        true
    }

    open spec fn add_req(self, other: Vec4<u8>) -> bool {
        other.terms().each_plus(Term::of(self)).defined()
    }

    open spec fn add_spec(self, other: Vec4<u8>) -> Vec4<u8> {
        other.terms().each_plus(Term::of(self)).value()
    }
}

impl Sub<Vec4<u8>> for u8 {
    type Output = Vec4<u8>;

    fn sub(self, other: Vec4<u8>) -> (r: Vec4<u8>)
        ensures
            r@ == other.terms().each_minus(Term::of(self)).values(),
    {
        Vec4([self - other.0[0], self - other.0[1], self - other.0[2], self - other.0[3]])
    }
}

impl SubSpecImpl<Vec4<u8>> for u8 {
    open spec fn obeys_sub_spec() -> bool {
        true
    }

    open spec fn sub_req(self, other: Vec4<u8>) -> bool {
        other.terms().each_minus(Term::of(self)).defined()
    }

    open spec fn sub_spec(self, other: Vec4<u8>) -> Vec4<u8> {
        other.terms().each_minus(Term::of(self)).value()
    }
}

impl Mul<Vec4<u8>> for u8 {
    type Output = Vec4<u8>;

    fn mul(self, other: Vec4<u8>) -> (r: Vec4<u8>)
        ensures
            r@ == other.terms().each_times(Term::of(self)).values(),
    {
        Vec4([self * other.0[0], self * other.0[1], self * other.0[2], self * other.0[3]])
    }
}

impl MulSpecImpl<Vec4<u8>> for u8 {
    open spec fn obeys_mul_spec() -> bool {
        true
    }

    open spec fn mul_req(self, other: Vec4<u8>) -> bool {
        other.terms().each_times(Term::of(self)).defined()
    }

    open spec fn mul_spec(self, other: Vec4<u8>) -> Vec4<u8> {
        other.terms().each_times(Term::of(self)).value()
    }
}

impl Div<Vec4<u8>> for u8 {
    type Output = Vec4<u8>;

    fn div(self, other: Vec4<u8>) -> (r: Vec4<u8>)
        ensures
            r@ == other.terms().each_over(Term::of(self)).values(),
    {
        Vec4([self / other.0[0], self / other.0[1], self / other.0[2], self / other.0[3]])
    }
}

impl DivSpecImpl<Vec4<u8>> for u8 {
    open spec fn obeys_div_spec() -> bool {
        true
    }

    open spec fn div_req(self, other: Vec4<u8>) -> bool {
        other.terms().each_over(Term::of(self)).defined()
    }

    open spec fn div_spec(self, other: Vec4<u8>) -> Vec4<u8> {
        other.terms().each_over(Term::of(self)).value()
    }
}

impl Add<Vec4<u16>> for u16 {
    type Output = Vec4<u16>;

    fn add(self, other: Vec4<u16>) -> (r: Vec4<u16>)
        ensures
            r@ == other.terms().each_plus(Term::of(self)).values(),
    {
        Vec4([self + other.0[0], self + other.0[1], self + other.0[2], self + other.0[3]])
    }
}

impl AddSpecImpl<Vec4<u16>> for u16 {
    open spec fn obeys_add_spec() -> bool {
        true
    }

    open spec fn add_req(self, other: Vec4<u16>) -> bool {
        other.terms().each_plus(Term::of(self)).defined()
    }

    open spec fn add_spec(self, other: Vec4<u16>) -> Vec4<u16> {
        other.terms().each_plus(Term::of(self)).value()
    }
}

impl Sub<Vec4<u16>> for u16 {
    type Output = Vec4<u16>;

    fn sub(self, other: Vec4<u16>) -> (r: Vec4<u16>)
        ensures
            r@ == other.terms().each_minus(Term::of(self)).values(),
    {
        Vec4([self - other.0[0], self - other.0[1], self - other.0[2], self - other.0[3]])
    }
}

impl SubSpecImpl<Vec4<u16>> for u16 {
    open spec fn obeys_sub_spec() -> bool {
        true
    }

    open spec fn sub_req(self, other: Vec4<u16>) -> bool {
        other.terms().each_minus(Term::of(self)).defined()
    }

    open spec fn sub_spec(self, other: Vec4<u16>) -> Vec4<u16> {
        other.terms().each_minus(Term::of(self)).value()
    }
}

impl Mul<Vec4<u16>> for u16 {
    type Output = Vec4<u16>;

    fn mul(self, other: Vec4<u16>) -> (r: Vec4<u16>)
        ensures
            r@ == other.terms().each_times(Term::of(self)).values(),
    {
        Vec4([self * other.0[0], self * other.0[1], self * other.0[2], self * other.0[3]])
    }
}

impl MulSpecImpl<Vec4<u16>> for u16 {
    open spec fn obeys_mul_spec() -> bool {
        true
    }

    open spec fn mul_req(self, other: Vec4<u16>) -> bool {
        other.terms().each_times(Term::of(self)).defined()
    }

    open spec fn mul_spec(self, other: Vec4<u16>) -> Vec4<u16> {
        other.terms().each_times(Term::of(self)).value()
    }
}

impl Div<Vec4<u16>> for u16 {
    type Output = Vec4<u16>;

    fn div(self, other: Vec4<u16>) -> (r: Vec4<u16>)
        ensures
            r@ == other.terms().each_over(Term::of(self)).values(),
    {
        Vec4([self / other.0[0], self / other.0[1], self / other.0[2], self / other.0[3]])
    }
}

impl DivSpecImpl<Vec4<u16>> for u16 {
    open spec fn obeys_div_spec() -> bool {
        true
    }

    open spec fn div_req(self, other: Vec4<u16>) -> bool {
        other.terms().each_over(Term::of(self)).defined()
    }

    open spec fn div_spec(self, other: Vec4<u16>) -> Vec4<u16> {
        other.terms().each_over(Term::of(self)).value()
    }
}

impl Add<Vec4<u32>> for u32 {
    type Output = Vec4<u32>;

    fn add(self, other: Vec4<u32>) -> (r: Vec4<u32>)
        ensures
            r@ == other.terms().each_plus(Term::of(self)).values(),
    {
        Vec4([self + other.0[0], self + other.0[1], self + other.0[2], self + other.0[3]])
    }
}

impl AddSpecImpl<Vec4<u32>> for u32 {
    open spec fn obeys_add_spec() -> bool {
        true
    }

    open spec fn add_req(self, other: Vec4<u32>) -> bool {
        other.terms().each_plus(Term::of(self)).defined()
    }

    open spec fn add_spec(self, other: Vec4<u32>) -> Vec4<u32> {
        other.terms().each_plus(Term::of(self)).value()
    }
}

impl Sub<Vec4<u32>> for u32 {
    type Output = Vec4<u32>;

    fn sub(self, other: Vec4<u32>) -> (r: Vec4<u32>)
        ensures
            r@ == other.terms().each_minus(Term::of(self)).values(),
    {
        Vec4([self - other.0[0], self - other.0[1], self - other.0[2], self - other.0[3]])
    }
}

impl SubSpecImpl<Vec4<u32>> for u32 {
    open spec fn obeys_sub_spec() -> bool {
        true
    }

    open spec fn sub_req(self, other: Vec4<u32>) -> bool {
        other.terms().each_minus(Term::of(self)).defined()
    }

    open spec fn sub_spec(self, other: Vec4<u32>) -> Vec4<u32> {
        other.terms().each_minus(Term::of(self)).value()
    }
}

impl Mul<Vec4<u32>> for u32 {
    type Output = Vec4<u32>;

    fn mul(self, other: Vec4<u32>) -> (r: Vec4<u32>)
        ensures
            r@ == other.terms().each_times(Term::of(self)).values(),
    {
        Vec4([self * other.0[0], self * other.0[1], self * other.0[2], self * other.0[3]])
    }
}

impl MulSpecImpl<Vec4<u32>> for u32 {
    open spec fn obeys_mul_spec() -> bool {
        true
    }

    open spec fn mul_req(self, other: Vec4<u32>) -> bool {
        other.terms().each_times(Term::of(self)).defined()
    }

    open spec fn mul_spec(self, other: Vec4<u32>) -> Vec4<u32> {
        other.terms().each_times(Term::of(self)).value()
    }
}

impl Div<Vec4<u32>> for u32 {
    type Output = Vec4<u32>;

    fn div(self, other: Vec4<u32>) -> (r: Vec4<u32>)
        ensures
            r@ == other.terms().each_over(Term::of(self)).values(),
    {
        Vec4([self / other.0[0], self / other.0[1], self / other.0[2], self / other.0[3]])
    }
}

impl DivSpecImpl<Vec4<u32>> for u32 {
    open spec fn obeys_div_spec() -> bool {
        true
    }

    open spec fn div_req(self, other: Vec4<u32>) -> bool {
        other.terms().each_over(Term::of(self)).defined()
    }

    open spec fn div_spec(self, other: Vec4<u32>) -> Vec4<u32> {
        other.terms().each_over(Term::of(self)).value()
    }
}

impl Add<Vec4<u64>> for u64 {
    type Output = Vec4<u64>;

    fn add(self, other: Vec4<u64>) -> (r: Vec4<u64>)
        ensures
            r@ == other.terms().each_plus(Term::of(self)).values(),
    {
        Vec4([self + other.0[0], self + other.0[1], self + other.0[2], self + other.0[3]])
    }
}

impl AddSpecImpl<Vec4<u64>> for u64 {
    open spec fn obeys_add_spec() -> bool {
        true
    }

    open spec fn add_req(self, other: Vec4<u64>) -> bool {
        other.terms().each_plus(Term::of(self)).defined()
    }

    open spec fn add_spec(self, other: Vec4<u64>) -> Vec4<u64> {
        other.terms().each_plus(Term::of(self)).value()
    }
}

impl Sub<Vec4<u64>> for u64 {
    type Output = Vec4<u64>;

    fn sub(self, other: Vec4<u64>) -> (r: Vec4<u64>)
        ensures
            r@ == other.terms().each_minus(Term::of(self)).values(),
    {
        Vec4([self - other.0[0], self - other.0[1], self - other.0[2], self - other.0[3]])
    }
}

impl SubSpecImpl<Vec4<u64>> for u64 {
    open spec fn obeys_sub_spec() -> bool {
        true
    }

    open spec fn sub_req(self, other: Vec4<u64>) -> bool {
        other.terms().each_minus(Term::of(self)).defined()
    }

    open spec fn sub_spec(self, other: Vec4<u64>) -> Vec4<u64> {
        other.terms().each_minus(Term::of(self)).value()
    }
}

impl Mul<Vec4<u64>> for u64 {
    type Output = Vec4<u64>;

    fn mul(self, other: Vec4<u64>) -> (r: Vec4<u64>)
        ensures
            r@ == other.terms().each_times(Term::of(self)).values(),
    {
        Vec4([self * other.0[0], self * other.0[1], self * other.0[2], self * other.0[3]])
    }
}

impl MulSpecImpl<Vec4<u64>> for u64 {
    open spec fn obeys_mul_spec() -> bool {
        true
    }

    open spec fn mul_req(self, other: Vec4<u64>) -> bool {
        other.terms().each_times(Term::of(self)).defined()
    }

    open spec fn mul_spec(self, other: Vec4<u64>) -> Vec4<u64> {
        other.terms().each_times(Term::of(self)).value()
    }
}

impl Div<Vec4<u64>> for u64 {
    type Output = Vec4<u64>;

    fn div(self, other: Vec4<u64>) -> (r: Vec4<u64>)
        ensures
            r@ == other.terms().each_over(Term::of(self)).values(),
    {
        Vec4([self / other.0[0], self / other.0[1], self / other.0[2], self / other.0[3]])
    }
}

impl DivSpecImpl<Vec4<u64>> for u64 {
    open spec fn obeys_div_spec() -> bool {
        true
    }

    open spec fn div_req(self, other: Vec4<u64>) -> bool {
        other.terms().each_over(Term::of(self)).defined()
    }

    open spec fn div_spec(self, other: Vec4<u64>) -> Vec4<u64> {
        other.terms().each_over(Term::of(self)).value()
    }
}

impl Add<Vec4<u128>> for u128 {
    type Output = Vec4<u128>;

    fn add(self, other: Vec4<u128>) -> (r: Vec4<u128>)
        ensures
            r@ == other.terms().each_plus(Term::of(self)).values(),
    {
        Vec4([self + other.0[0], self + other.0[1], self + other.0[2], self + other.0[3]])
    }
}

impl AddSpecImpl<Vec4<u128>> for u128 {
    open spec fn obeys_add_spec() -> bool {
        true
    }

    open spec fn add_req(self, other: Vec4<u128>) -> bool {
        other.terms().each_plus(Term::of(self)).defined()
    }

    open spec fn add_spec(self, other: Vec4<u128>) -> Vec4<u128> {
        other.terms().each_plus(Term::of(self)).value()
    }
}

impl Sub<Vec4<u128>> for u128 {
    type Output = Vec4<u128>;

    fn sub(self, other: Vec4<u128>) -> (r: Vec4<u128>)
        ensures
            r@ == other.terms().each_minus(Term::of(self)).values(),
    {
        Vec4([self - other.0[0], self - other.0[1], self - other.0[2], self - other.0[3]])
    }
}

impl SubSpecImpl<Vec4<u128>> for u128 {
    open spec fn obeys_sub_spec() -> bool {
        true
    }

    open spec fn sub_req(self, other: Vec4<u128>) -> bool {
        other.terms().each_minus(Term::of(self)).defined()
    }

    open spec fn sub_spec(self, other: Vec4<u128>) -> Vec4<u128> {
        other.terms().each_minus(Term::of(self)).value()
    }
}

impl Mul<Vec4<u128>> for u128 {
    type Output = Vec4<u128>;

    fn mul(self, other: Vec4<u128>) -> (r: Vec4<u128>)
        ensures
            r@ == other.terms().each_times(Term::of(self)).values(),
    {
        Vec4([self * other.0[0], self * other.0[1], self * other.0[2], self * other.0[3]])
    }
}

impl MulSpecImpl<Vec4<u128>> for u128 {
    open spec fn obeys_mul_spec() -> bool {
        true
    }

    open spec fn mul_req(self, other: Vec4<u128>) -> bool {
        other.terms().each_times(Term::of(self)).defined()
    }

    open spec fn mul_spec(self, other: Vec4<u128>) -> Vec4<u128> {
        other.terms().each_times(Term::of(self)).value()
    }
}

impl Div<Vec4<u128>> for u128 {
    type Output = Vec4<u128>;

    fn div(self, other: Vec4<u128>) -> (r: Vec4<u128>)
        ensures
            r@ == other.terms().each_over(Term::of(self)).values(),
    {
        Vec4([self / other.0[0], self / other.0[1], self / other.0[2], self / other.0[3]])
    }
}

impl DivSpecImpl<Vec4<u128>> for u128 {
    open spec fn obeys_div_spec() -> bool {
        true
    }

    open spec fn div_req(self, other: Vec4<u128>) -> bool {
        other.terms().each_over(Term::of(self)).defined()
    }

    open spec fn div_spec(self, other: Vec4<u128>) -> Vec4<u128> {
        other.terms().each_over(Term::of(self)).value()
    }
}

} // verus!
