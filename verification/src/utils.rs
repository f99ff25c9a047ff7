//! Byte counts and alignment arithmetic.

use vstd::prelude::*;
use vstd::arithmetic::power2::{pow2, lemma_pow2_pos};
use vstd::arithmetic::div_mod::{lemma_fundamental_div_mod, lemma_mod_multiples_basic};
use vstd::std_specs::convert::FromSpecImpl;
use vstd::std_specs::ops::{AddSpecImpl, DivSpecImpl, MulSpecImpl};
use vstd::bits::{low_bits_mask, lemma_u64_low_bits_mask_is_mod, lemma_u64_pow2_no_overflow};

verus! {

/// A newtype around `u64` made to distinguish between element counts and byte sizes in APIs.
#[derive(PartialEq, Eq, Structural, Hash, Debug, Copy, Clone)]
pub struct ByteCount(pub u64);

/// Alignment of constant-buffer data in a buffer (`D3D12_CONSTANT_BUFFER_DATA_PLACEMENT_ALIGNMENT`).
pub fn constant_buffer_alignment() -> (r: ByteCount)
    ensures
        r == ByteCount(256),
{
    ByteCount(256)
}

/// Default alignment of a resource placed in a heap (`D3D12_DEFAULT_RESOURCE_PLACEMENT_ALIGNMENT`).
pub fn default_resource_alignment() -> (r: ByteCount)
    ensures
        r == ByteCount(65536),
{
    ByteCount(65536)
}

impl core::ops::Add<ByteCount> for ByteCount {
    type Output = Self;

    fn add(self, rhs: ByteCount) -> (r: Self) {
        ByteCount(self.0 + rhs.0)
    }
}

impl AddSpecImpl<ByteCount> for ByteCount {
    open spec fn obeys_add_spec() -> bool {
        true
    }

    open spec fn add_req(self, rhs: ByteCount) -> bool {
        self.0 + rhs.0 <= u64::MAX
    }

    open spec fn add_spec(self, rhs: ByteCount) -> ByteCount {
        ByteCount((self.0 + rhs.0) as u64)
    }
}

impl core::ops::AddAssign<ByteCount> for ByteCount {
    /// Adds `rhs` in place, wrapping around on overflow.
    fn add_assign(&mut self, rhs: Self)
        ensures
            final(self).0 == (if old(self).0 + rhs.0 <= u64::MAX {
                old(self).0 + rhs.0
            } else {
                old(self).0 + rhs.0 - 0x1_0000_0000_0000_0000
            }),
    {
        *self = ByteCount(self.0.wrapping_add(rhs.0));
    }
}

impl From<ByteCount> for usize {
    fn from(value: ByteCount) -> (r: usize) {
        value.0 as usize
    }
}

impl FromSpecImpl<ByteCount> for usize {
    open spec fn obeys_from_spec() -> bool {
        true
    }

    open spec fn from_spec(v: ByteCount) -> usize {
        v.0 as usize
    }
}

impl From<u8> for ByteCount {
    fn from(value: u8) -> (r: Self) {
        ByteCount(value as u64)
    }
}

impl FromSpecImpl<u8> for ByteCount {
    open spec fn obeys_from_spec() -> bool {
        true
    }

    open spec fn from_spec(v: u8) -> ByteCount {
        ByteCount(v as u64)
    }
}

impl core::ops::Mul<u8> for ByteCount {
    type Output = Self;

    fn mul(self, rhs: u8) -> (r: Self) {
        ByteCount(self.0 * rhs as u64)
    }
}

impl MulSpecImpl<u8> for ByteCount {
    open spec fn obeys_mul_spec() -> bool {
        true
    }

    open spec fn mul_req(self, rhs: u8) -> bool {
        self.0 * (rhs as u64) <= u64::MAX
    }

    open spec fn mul_spec(self, rhs: u8) -> ByteCount {
        ByteCount((self.0 * (rhs as u64)) as u64)
    }
}

impl core::ops::Mul<ByteCount> for u8 {
    type Output = ByteCount;

    fn mul(self, rhs: ByteCount) -> (r: ByteCount) {
        ByteCount(self as u64 * rhs.0)
    }
}

impl MulSpecImpl<ByteCount> for u8 {
    open spec fn obeys_mul_spec() -> bool {
        true
    }

    open spec fn mul_req(self, rhs: ByteCount) -> bool {
        (self as u64) * rhs.0 <= u64::MAX
    }

    open spec fn mul_spec(self, rhs: ByteCount) -> ByteCount {
        ByteCount(((self as u64) * rhs.0) as u64)
    }
}

impl core::ops::Div<u8> for ByteCount {
    type Output = Self;

    fn div(self, rhs: u8) -> (r: Self) {
        ByteCount(self.0 / rhs as u64)
    }
}

impl DivSpecImpl<u8> for ByteCount {
    open spec fn obeys_div_spec() -> bool {
        true
    }

    open spec fn div_req(self, rhs: u8) -> bool {
        rhs as u64 != 0
    }

    open spec fn div_spec(self, rhs: u8) -> ByteCount {
        ByteCount(self.0 / (rhs as u64))
    }
}

impl core::ops::Div<ByteCount> for u8 {
    type Output = ByteCount;

    fn div(self, rhs: ByteCount) -> (r: ByteCount) {
        ByteCount(self as u64 / rhs.0)
    }
}

impl DivSpecImpl<ByteCount> for u8 {
    open spec fn obeys_div_spec() -> bool {
        true
    }

    open spec fn div_req(self, rhs: ByteCount) -> bool {
        rhs.0 != 0
    }

    open spec fn div_spec(self, rhs: ByteCount) -> ByteCount {
        ByteCount((self as u64) / rhs.0)
    }
}

impl From<i8> for ByteCount {
    fn from(value: i8) -> (r: Self) {
        ByteCount(value as u64)
    }
}

impl FromSpecImpl<i8> for ByteCount {
    open spec fn obeys_from_spec() -> bool {
        true
    }

    open spec fn from_spec(v: i8) -> ByteCount {
        ByteCount(v as u64)
    }
}

impl core::ops::Mul<i8> for ByteCount {
    type Output = Self;

    fn mul(self, rhs: i8) -> (r: Self) {
        ByteCount(self.0 * rhs as u64)
    }
}

impl MulSpecImpl<i8> for ByteCount {
    open spec fn obeys_mul_spec() -> bool {
        true
    }

    open spec fn mul_req(self, rhs: i8) -> bool {
        self.0 * (rhs as u64) <= u64::MAX
    }

    open spec fn mul_spec(self, rhs: i8) -> ByteCount {
        ByteCount((self.0 * (rhs as u64)) as u64)
    }
}

impl core::ops::Mul<ByteCount> for i8 {
    type Output = ByteCount;

    fn mul(self, rhs: ByteCount) -> (r: ByteCount) {
        ByteCount(self as u64 * rhs.0)
    }
}

impl MulSpecImpl<ByteCount> for i8 {
    open spec fn obeys_mul_spec() -> bool {
        true
    }

    open spec fn mul_req(self, rhs: ByteCount) -> bool {
        (self as u64) * rhs.0 <= u64::MAX
    }

    open spec fn mul_spec(self, rhs: ByteCount) -> ByteCount {
        ByteCount(((self as u64) * rhs.0) as u64)
    }
}

impl core::ops::Div<i8> for ByteCount {
    type Output = Self;

    fn div(self, rhs: i8) -> (r: Self) {
        ByteCount(self.0 / rhs as u64)
    }
}

impl DivSpecImpl<i8> for ByteCount {
    open spec fn obeys_div_spec() -> bool {
        true
    }

    open spec fn div_req(self, rhs: i8) -> bool {
        rhs as u64 != 0
    }

    open spec fn div_spec(self, rhs: i8) -> ByteCount {
        ByteCount(self.0 / (rhs as u64))
    }
}

impl core::ops::Div<ByteCount> for i8 {
    type Output = ByteCount;

    fn div(self, rhs: ByteCount) -> (r: ByteCount) {
        ByteCount(self as u64 / rhs.0)
    }
}

impl DivSpecImpl<ByteCount> for i8 {
    open spec fn obeys_div_spec() -> bool {
        true
    }

    open spec fn div_req(self, rhs: ByteCount) -> bool {
        rhs.0 != 0
    }

    open spec fn div_spec(self, rhs: ByteCount) -> ByteCount {
        ByteCount((self as u64) / rhs.0)
    }
}

impl From<u16> for ByteCount {
    fn from(value: u16) -> (r: Self) {
        ByteCount(value as u64)
    }
}

impl FromSpecImpl<u16> for ByteCount {
    open spec fn obeys_from_spec() -> bool {
        true
    }

    open spec fn from_spec(v: u16) -> ByteCount {
        ByteCount(v as u64)
    }
}

impl core::ops::Mul<u16> for ByteCount {
    type Output = Self;

    fn mul(self, rhs: u16) -> (r: Self) {
        ByteCount(self.0 * rhs as u64)
    }
}

impl MulSpecImpl<u16> for ByteCount {
    open spec fn obeys_mul_spec() -> bool {
        true
    }

    open spec fn mul_req(self, rhs: u16) -> bool {
        self.0 * (rhs as u64) <= u64::MAX
    }

    open spec fn mul_spec(self, rhs: u16) -> ByteCount {
        ByteCount((self.0 * (rhs as u64)) as u64)
    }
}

impl core::ops::Mul<ByteCount> for u16 {
    type Output = ByteCount;

    fn mul(self, rhs: ByteCount) -> (r: ByteCount) {
        ByteCount(self as u64 * rhs.0)
    }
}

impl MulSpecImpl<ByteCount> for u16 {
    open spec fn obeys_mul_spec() -> bool {
        true
    }

    open spec fn mul_req(self, rhs: ByteCount) -> bool {
        (self as u64) * rhs.0 <= u64::MAX
    }

    open spec fn mul_spec(self, rhs: ByteCount) -> ByteCount {
        ByteCount(((self as u64) * rhs.0) as u64)
    }
}

impl core::ops::Div<u16> for ByteCount {
    type Output = Self;

    fn div(self, rhs: u16) -> (r: Self) {
        ByteCount(self.0 / rhs as u64)
    }
}

impl DivSpecImpl<u16> for ByteCount {
    open spec fn obeys_div_spec() -> bool {
        true
    }

    open spec fn div_req(self, rhs: u16) -> bool {
        rhs as u64 != 0
    }

    open spec fn div_spec(self, rhs: u16) -> ByteCount {
        ByteCount(self.0 / (rhs as u64))
    }
}

impl core::ops::Div<ByteCount> for u16 {
    type Output = ByteCount;

    fn div(self, rhs: ByteCount) -> (r: ByteCount) {
        ByteCount(self as u64 / rhs.0)
    }
}

impl DivSpecImpl<ByteCount> for u16 {
    open spec fn obeys_div_spec() -> bool {
        true
    }

    open spec fn div_req(self, rhs: ByteCount) -> bool {
        rhs.0 != 0
    }

    open spec fn div_spec(self, rhs: ByteCount) -> ByteCount {
        ByteCount((self as u64) / rhs.0)
    }
}

impl From<i16> for ByteCount {
    fn from(value: i16) -> (r: Self) {
        ByteCount(value as u64)
    }
}

impl FromSpecImpl<i16> for ByteCount {
    open spec fn obeys_from_spec() -> bool {
        true
    }

    open spec fn from_spec(v: i16) -> ByteCount {
        ByteCount(v as u64)
    }
}

impl core::ops::Mul<i16> for ByteCount {
    type Output = Self;

    fn mul(self, rhs: i16) -> (r: Self) {
        ByteCount(self.0 * rhs as u64)
    }
}

impl MulSpecImpl<i16> for ByteCount {
    open spec fn obeys_mul_spec() -> bool {
        true
    }

    open spec fn mul_req(self, rhs: i16) -> bool {
        self.0 * (rhs as u64) <= u64::MAX
    }

    open spec fn mul_spec(self, rhs: i16) -> ByteCount {
        ByteCount((self.0 * (rhs as u64)) as u64)
    }
}

impl core::ops::Mul<ByteCount> for i16 {
    type Output = ByteCount;

    fn mul(self, rhs: ByteCount) -> (r: ByteCount) {
        ByteCount(self as u64 * rhs.0)
    }
}

impl MulSpecImpl<ByteCount> for i16 {
    open spec fn obeys_mul_spec() -> bool {
        true
    }

    open spec fn mul_req(self, rhs: ByteCount) -> bool {
        (self as u64) * rhs.0 <= u64::MAX
    }

    open spec fn mul_spec(self, rhs: ByteCount) -> ByteCount {
        ByteCount(((self as u64) * rhs.0) as u64)
    }
}

impl core::ops::Div<i16> for ByteCount {
    type Output = Self;

    fn div(self, rhs: i16) -> (r: Self) {
        ByteCount(self.0 / rhs as u64)
    }
}

impl DivSpecImpl<i16> for ByteCount {
    open spec fn obeys_div_spec() -> bool {
        true
    }

    open spec fn div_req(self, rhs: i16) -> bool {
        rhs as u64 != 0
    }

    open spec fn div_spec(self, rhs: i16) -> ByteCount {
        ByteCount(self.0 / (rhs as u64))
    }
}

impl core::ops::Div<ByteCount> for i16 {
    type Output = ByteCount;

    fn div(self, rhs: ByteCount) -> (r: ByteCount) {
        ByteCount(self as u64 / rhs.0)
    }
}

impl DivSpecImpl<ByteCount> for i16 {
    open spec fn obeys_div_spec() -> bool {
        true
    }

    open spec fn div_req(self, rhs: ByteCount) -> bool {
        rhs.0 != 0
    }

    open spec fn div_spec(self, rhs: ByteCount) -> ByteCount {
        ByteCount((self as u64) / rhs.0)
    }
}

impl From<u32> for ByteCount {
    fn from(value: u32) -> (r: Self) {
        ByteCount(value as u64)
    }
}

impl FromSpecImpl<u32> for ByteCount {
    open spec fn obeys_from_spec() -> bool {
        true
    }

    open spec fn from_spec(v: u32) -> ByteCount {
        ByteCount(v as u64)
    }
}

impl core::ops::Mul<u32> for ByteCount {
    type Output = Self;

    fn mul(self, rhs: u32) -> (r: Self) {
        ByteCount(self.0 * rhs as u64)
    }
}

impl MulSpecImpl<u32> for ByteCount {
    open spec fn obeys_mul_spec() -> bool {
        true
    }

    open spec fn mul_req(self, rhs: u32) -> bool {
        self.0 * (rhs as u64) <= u64::MAX
    }

    open spec fn mul_spec(self, rhs: u32) -> ByteCount {
        ByteCount((self.0 * (rhs as u64)) as u64)
    }
}

impl core::ops::Mul<ByteCount> for u32 {
    type Output = ByteCount;

    fn mul(self, rhs: ByteCount) -> (r: ByteCount) {
        ByteCount(self as u64 * rhs.0)
    }
}

impl MulSpecImpl<ByteCount> for u32 {
    open spec fn obeys_mul_spec() -> bool {
        true
    }

    open spec fn mul_req(self, rhs: ByteCount) -> bool {
        (self as u64) * rhs.0 <= u64::MAX
    }

    open spec fn mul_spec(self, rhs: ByteCount) -> ByteCount {
        ByteCount(((self as u64) * rhs.0) as u64)
    }
}

impl core::ops::Div<u32> for ByteCount {
    type Output = Self;

    fn div(self, rhs: u32) -> (r: Self) {
        ByteCount(self.0 / rhs as u64)
    }
}

impl DivSpecImpl<u32> for ByteCount {
    open spec fn obeys_div_spec() -> bool {
        true
    }

    open spec fn div_req(self, rhs: u32) -> bool {
        rhs as u64 != 0
    }

    open spec fn div_spec(self, rhs: u32) -> ByteCount {
        ByteCount(self.0 / (rhs as u64))
    }
}

impl core::ops::Div<ByteCount> for u32 {
    type Output = ByteCount;

    fn div(self, rhs: ByteCount) -> (r: ByteCount) {
        ByteCount(self as u64 / rhs.0)
    }
}

impl DivSpecImpl<ByteCount> for u32 {
    open spec fn obeys_div_spec() -> bool {
        true
    }

    open spec fn div_req(self, rhs: ByteCount) -> bool {
        rhs.0 != 0
    }

    open spec fn div_spec(self, rhs: ByteCount) -> ByteCount {
        ByteCount((self as u64) / rhs.0)
    }
}

impl From<i32> for ByteCount {
    fn from(value: i32) -> (r: Self) {
        ByteCount(value as u64)
    }
}

impl FromSpecImpl<i32> for ByteCount {
    open spec fn obeys_from_spec() -> bool {
        true
    }

    open spec fn from_spec(v: i32) -> ByteCount {
        ByteCount(v as u64)
    }
}

impl core::ops::Mul<i32> for ByteCount {
    type Output = Self;

    fn mul(self, rhs: i32) -> (r: Self) {
        ByteCount(self.0 * rhs as u64)
    }
}

impl MulSpecImpl<i32> for ByteCount {
    open spec fn obeys_mul_spec() -> bool {
        true
    }

    open spec fn mul_req(self, rhs: i32) -> bool {
        self.0 * (rhs as u64) <= u64::MAX
    }

    open spec fn mul_spec(self, rhs: i32) -> ByteCount {
        ByteCount((self.0 * (rhs as u64)) as u64)
    }
}

impl core::ops::Mul<ByteCount> for i32 {
    type Output = ByteCount;

    fn mul(self, rhs: ByteCount) -> (r: ByteCount) {
        ByteCount(self as u64 * rhs.0)
    }
}

impl MulSpecImpl<ByteCount> for i32 {
    open spec fn obeys_mul_spec() -> bool {
        true
    }

    open spec fn mul_req(self, rhs: ByteCount) -> bool {
        (self as u64) * rhs.0 <= u64::MAX
    }

    open spec fn mul_spec(self, rhs: ByteCount) -> ByteCount {
        ByteCount(((self as u64) * rhs.0) as u64)
    }
}

impl core::ops::Div<i32> for ByteCount {
    type Output = Self;

    fn div(self, rhs: i32) -> (r: Self) {
        ByteCount(self.0 / rhs as u64)
    }
}

impl DivSpecImpl<i32> for ByteCount {
    open spec fn obeys_div_spec() -> bool {
        true
    }

    open spec fn div_req(self, rhs: i32) -> bool {
        rhs as u64 != 0
    }

    open spec fn div_spec(self, rhs: i32) -> ByteCount {
        ByteCount(self.0 / (rhs as u64))
    }
}

impl core::ops::Div<ByteCount> for i32 {
    type Output = ByteCount;

    fn div(self, rhs: ByteCount) -> (r: ByteCount) {
        ByteCount(self as u64 / rhs.0)
    }
}

impl DivSpecImpl<ByteCount> for i32 {
    open spec fn obeys_div_spec() -> bool {
        true
    }

    open spec fn div_req(self, rhs: ByteCount) -> bool {
        rhs.0 != 0
    }

    open spec fn div_spec(self, rhs: ByteCount) -> ByteCount {
        ByteCount((self as u64) / rhs.0)
    }
}

impl From<u64> for ByteCount {
    fn from(value: u64) -> (r: Self) {
        ByteCount(value as u64)
    }
}

impl FromSpecImpl<u64> for ByteCount {
    open spec fn obeys_from_spec() -> bool {
        true
    }

    open spec fn from_spec(v: u64) -> ByteCount {
        ByteCount(v as u64)
    }
}

impl core::ops::Mul<u64> for ByteCount {
    type Output = Self;

    fn mul(self, rhs: u64) -> (r: Self) {
        ByteCount(self.0 * rhs as u64)
    }
}

impl MulSpecImpl<u64> for ByteCount {
    open spec fn obeys_mul_spec() -> bool {
        true
    }

    open spec fn mul_req(self, rhs: u64) -> bool {
        self.0 * (rhs as u64) <= u64::MAX
    }

    open spec fn mul_spec(self, rhs: u64) -> ByteCount {
        ByteCount((self.0 * (rhs as u64)) as u64)
    }
}

impl core::ops::Mul<ByteCount> for u64 {
    type Output = ByteCount;

    fn mul(self, rhs: ByteCount) -> (r: ByteCount) {
        ByteCount(self as u64 * rhs.0)
    }
}

impl MulSpecImpl<ByteCount> for u64 {
    open spec fn obeys_mul_spec() -> bool {
        true
    }

    open spec fn mul_req(self, rhs: ByteCount) -> bool {
        (self as u64) * rhs.0 <= u64::MAX
    }

    open spec fn mul_spec(self, rhs: ByteCount) -> ByteCount {
        ByteCount(((self as u64) * rhs.0) as u64)
    }
}

impl core::ops::Div<u64> for ByteCount {
    type Output = Self;

    fn div(self, rhs: u64) -> (r: Self) {
        ByteCount(self.0 / rhs as u64)
    }
}

impl DivSpecImpl<u64> for ByteCount {
    open spec fn obeys_div_spec() -> bool {
        true
    }

    open spec fn div_req(self, rhs: u64) -> bool {
        rhs as u64 != 0
    }

    open spec fn div_spec(self, rhs: u64) -> ByteCount {
        ByteCount(self.0 / (rhs as u64))
    }
}

impl core::ops::Div<ByteCount> for u64 {
    type Output = ByteCount;

    fn div(self, rhs: ByteCount) -> (r: ByteCount) {
        ByteCount(self as u64 / rhs.0)
    }
}

impl DivSpecImpl<ByteCount> for u64 {
    open spec fn obeys_div_spec() -> bool {
        true
    }

    open spec fn div_req(self, rhs: ByteCount) -> bool {
        rhs.0 != 0
    }

    open spec fn div_spec(self, rhs: ByteCount) -> ByteCount {
        ByteCount((self as u64) / rhs.0)
    }
}

impl From<i64> for ByteCount {
    fn from(value: i64) -> (r: Self) {
        ByteCount(value as u64)
    }
}

impl FromSpecImpl<i64> for ByteCount {
    open spec fn obeys_from_spec() -> bool {
        true
    }

    open spec fn from_spec(v: i64) -> ByteCount {
        ByteCount(v as u64)
    }
}

impl core::ops::Mul<i64> for ByteCount {
    type Output = Self;

    fn mul(self, rhs: i64) -> (r: Self) {
        ByteCount(self.0 * rhs as u64)
    }
}

impl MulSpecImpl<i64> for ByteCount {
    open spec fn obeys_mul_spec() -> bool {
        true
    }

    open spec fn mul_req(self, rhs: i64) -> bool {
        self.0 * (rhs as u64) <= u64::MAX
    }

    open spec fn mul_spec(self, rhs: i64) -> ByteCount {
        ByteCount((self.0 * (rhs as u64)) as u64)
    }
}

impl core::ops::Mul<ByteCount> for i64 {
    type Output = ByteCount;

    fn mul(self, rhs: ByteCount) -> (r: ByteCount) {
        ByteCount(self as u64 * rhs.0)
    }
}

impl MulSpecImpl<ByteCount> for i64 {
    open spec fn obeys_mul_spec() -> bool {
        true
    }

    open spec fn mul_req(self, rhs: ByteCount) -> bool {
        (self as u64) * rhs.0 <= u64::MAX
    }

    open spec fn mul_spec(self, rhs: ByteCount) -> ByteCount {
        ByteCount(((self as u64) * rhs.0) as u64)
    }
}

impl core::ops::Div<i64> for ByteCount {
    type Output = Self;

    fn div(self, rhs: i64) -> (r: Self) {
        ByteCount(self.0 / rhs as u64)
    }
}

impl DivSpecImpl<i64> for ByteCount {
    open spec fn obeys_div_spec() -> bool {
        true
    }

    open spec fn div_req(self, rhs: i64) -> bool {
        rhs as u64 != 0
    }

    open spec fn div_spec(self, rhs: i64) -> ByteCount {
        ByteCount(self.0 / (rhs as u64))
    }
}

impl core::ops::Div<ByteCount> for i64 {
    type Output = ByteCount;

    fn div(self, rhs: ByteCount) -> (r: ByteCount) {
        ByteCount(self as u64 / rhs.0)
    }
}

impl DivSpecImpl<ByteCount> for i64 {
    open spec fn obeys_div_spec() -> bool {
        true
    }

    open spec fn div_req(self, rhs: ByteCount) -> bool {
        rhs.0 != 0
    }

    open spec fn div_spec(self, rhs: ByteCount) -> ByteCount {
        ByteCount((self as u64) / rhs.0)
    }
}

impl From<usize> for ByteCount {
    fn from(value: usize) -> (r: Self) {
        ByteCount(value as u64)
    }
}

impl FromSpecImpl<usize> for ByteCount {
    open spec fn obeys_from_spec() -> bool {
        true
    }

    open spec fn from_spec(v: usize) -> ByteCount {
        ByteCount(v as u64)
    }
}

impl core::ops::Mul<usize> for ByteCount {
    type Output = Self;

    fn mul(self, rhs: usize) -> (r: Self) {
        ByteCount(self.0 * rhs as u64)
    }
}

impl MulSpecImpl<usize> for ByteCount {
    open spec fn obeys_mul_spec() -> bool {
        true
    }

    open spec fn mul_req(self, rhs: usize) -> bool {
        self.0 * (rhs as u64) <= u64::MAX
    }

    open spec fn mul_spec(self, rhs: usize) -> ByteCount {
        ByteCount((self.0 * (rhs as u64)) as u64)
    }
}

impl core::ops::Mul<ByteCount> for usize {
    type Output = ByteCount;

    fn mul(self, rhs: ByteCount) -> (r: ByteCount) {
        ByteCount(self as u64 * rhs.0)
    }
}

impl MulSpecImpl<ByteCount> for usize {
    open spec fn obeys_mul_spec() -> bool {
        true
    }

    open spec fn mul_req(self, rhs: ByteCount) -> bool {
        (self as u64) * rhs.0 <= u64::MAX
    }

    open spec fn mul_spec(self, rhs: ByteCount) -> ByteCount {
        ByteCount(((self as u64) * rhs.0) as u64)
    }
}

impl core::ops::Div<usize> for ByteCount {
    type Output = Self;

    fn div(self, rhs: usize) -> (r: Self) {
        ByteCount(self.0 / rhs as u64)
    }
}

impl DivSpecImpl<usize> for ByteCount {
    open spec fn obeys_div_spec() -> bool {
        true
    }

    open spec fn div_req(self, rhs: usize) -> bool {
        rhs as u64 != 0
    }

    open spec fn div_spec(self, rhs: usize) -> ByteCount {
        ByteCount(self.0 / (rhs as u64))
    }
}

impl core::ops::Div<ByteCount> for usize {
    type Output = ByteCount;

    fn div(self, rhs: ByteCount) -> (r: ByteCount) {
        ByteCount(self as u64 / rhs.0)
    }
}

impl DivSpecImpl<ByteCount> for usize {
    open spec fn obeys_div_spec() -> bool {
        true
    }

    open spec fn div_req(self, rhs: ByteCount) -> bool {
        rhs.0 != 0
    }

    open spec fn div_spec(self, rhs: ByteCount) -> ByteCount {
        ByteCount((self as u64) / rhs.0)
    }
}

impl From<isize> for ByteCount {
    fn from(value: isize) -> (r: Self) {
        ByteCount(value as u64)
    }
}

impl FromSpecImpl<isize> for ByteCount {
    open spec fn obeys_from_spec() -> bool {
        true
    }

    open spec fn from_spec(v: isize) -> ByteCount {
        ByteCount(v as u64)
    }
}

impl core::ops::Mul<isize> for ByteCount {
    type Output = Self;

    fn mul(self, rhs: isize) -> (r: Self) {
        ByteCount(self.0 * rhs as u64)
    }
}

impl MulSpecImpl<isize> for ByteCount {
    open spec fn obeys_mul_spec() -> bool {
        true
    }

    open spec fn mul_req(self, rhs: isize) -> bool {
        self.0 * (rhs as u64) <= u64::MAX
    }

    open spec fn mul_spec(self, rhs: isize) -> ByteCount {
        ByteCount((self.0 * (rhs as u64)) as u64)
    }
}

impl core::ops::Mul<ByteCount> for isize {
    type Output = ByteCount;

    fn mul(self, rhs: ByteCount) -> (r: ByteCount) {
        ByteCount(self as u64 * rhs.0)
    }
}

impl MulSpecImpl<ByteCount> for isize {
    open spec fn obeys_mul_spec() -> bool {
        true
    }

    open spec fn mul_req(self, rhs: ByteCount) -> bool {
        (self as u64) * rhs.0 <= u64::MAX
    }

    open spec fn mul_spec(self, rhs: ByteCount) -> ByteCount {
        ByteCount(((self as u64) * rhs.0) as u64)
    }
}

impl core::ops::Div<isize> for ByteCount {
    type Output = Self;

    fn div(self, rhs: isize) -> (r: Self) {
        ByteCount(self.0 / rhs as u64)
    }
}

impl DivSpecImpl<isize> for ByteCount {
    open spec fn obeys_div_spec() -> bool {
        true
    }

    open spec fn div_req(self, rhs: isize) -> bool {
        rhs as u64 != 0
    }

    open spec fn div_spec(self, rhs: isize) -> ByteCount {
        ByteCount(self.0 / (rhs as u64))
    }
}

impl core::ops::Div<ByteCount> for isize {
    type Output = ByteCount;

    fn div(self, rhs: ByteCount) -> (r: ByteCount) {
        ByteCount(self as u64 / rhs.0)
    }
}

impl DivSpecImpl<ByteCount> for isize {
    open spec fn obeys_div_spec() -> bool {
        true
    }

    open spec fn div_req(self, rhs: ByteCount) -> bool {
        rhs.0 != 0
    }

    open spec fn div_spec(self, rhs: ByteCount) -> ByteCount {
        ByteCount((self as u64) / rhs.0)
    }
}

/// `a` is a power of two that fits in 64 bits.
pub open spec fn is_power_of_two(a: u64) -> bool {
    exists|k: nat| k < 64 && a == #[trigger] pow2(k)
}

/// `value` rounded with the mask `!(alignment - 1)` after adding `alignment - 1`.
pub open spec fn aligned_up(value: u64, alignment: u64) -> u64 {
    ((value + (alignment - 1)) as u64) & !((alignment - 1) as u64)
}

/// For a power-of-two alignment, rounding up gives the one multiple of `alignment` in
/// `[value, value + alignment)`.
pub proof fn lemma_aligned_up(value: u64, alignment: u64)
    requires
        is_power_of_two(alignment),
        value + (alignment - 1) <= u64::MAX,
    ensures
        aligned_up(value, alignment) % alignment == 0,
        value <= aligned_up(value, alignment),
        aligned_up(value, alignment) < value + alignment,
{
    let x = (value + (alignment - 1)) as u64;
    let m = (alignment - 1) as u64;
    let r = aligned_up(value, alignment);
    assert(r + (x & m) == x && (x & m) <= m) by (bit_vector)
        requires
            r == x & !m,
    ;
    let k = choose|k: nat| k < 64 && alignment == #[trigger] pow2(k);
    lemma_u64_pow2_no_overflow(k);
    lemma_u64_low_bits_mask_is_mod(x, k);
    assert(low_bits_mask(k) == m);
    assert((x & m) == x % alignment);
    lemma_fundamental_div_mod(x as int, alignment as int);
    assert(r == alignment * (x / alignment));
    lemma_mod_multiples_basic((x / alignment) as int, alignment as int);
    assert((x / alignment) * alignment == alignment * (x / alignment)) by (nonlinear_arith);
}

/// Rounding up leaves a multiple of a power-of-two alignment as it is.
pub proof fn lemma_align_fixed_point(value: u64, alignment: u64)
    requires
        is_power_of_two(alignment),
        value % alignment == 0,
        value + (alignment - 1) <= u64::MAX,
    ensures
        aligned_up(value, alignment) == value,
{
    lemma_aligned_up(value, alignment);
    let r = aligned_up(value, alignment);
    let a = alignment as int;
    lemma_fundamental_div_mod(r as int, a);
    lemma_fundamental_div_mod(value as int, a);
    let q1 = r as int / a;
    let q2 = value as int / a;
    assert(q1 == q2) by (nonlinear_arith)
        requires
            a > 0,
            r == a * q1,
            value == a * q2,
            value <= r < value + a,
    ;
}

/// Rounding up twice to the same power-of-two alignment rounds up once.
pub proof fn lemma_align_idempotent(value: u64, alignment: u64)
    requires
        is_power_of_two(alignment),
        value + (alignment - 1) <= u64::MAX,
        aligned_up(value, alignment) + (alignment - 1) <= u64::MAX,
    ensures
        aligned_up(aligned_up(value, alignment), alignment) == aligned_up(value, alignment),
{
    lemma_aligned_up(value, alignment);
    lemma_align_fixed_point(aligned_up(value, alignment), alignment);
}

/// Rounds `value` up with the mask `!(alignment - 1)`; for a power-of-two `alignment`
/// this is the smallest multiple of `alignment` that is not below `value`.
pub fn align_to_multiple(value: u64, alignment: u64) -> (r: u64)
    requires
        alignment >= 1,
        value + (alignment - 1) <= u64::MAX,
    ensures
        r == aligned_up(value, alignment),
        is_power_of_two(alignment) ==> {
            &&& r % alignment == 0
            &&& value <= r
            &&& r < value + alignment
        },
{
    let r = (value + (alignment - 1)) & (!(alignment - 1));
    proof {
        if is_power_of_two(alignment) {
            lemma_aligned_up(value, alignment);
        }
    }
    r
}

} // verus!
