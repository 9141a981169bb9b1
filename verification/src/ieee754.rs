//! Single-precision values as they travel in a payload.
//!
//! Measurements and set-points are IEEE-754 single-precision numbers. This
//! library moves them between payload bytes and fields without doing any
//! arithmetic on them, so it holds each one as its 32-bit pattern: sign in
//! bit 31, exponent in bits 30 to 23, fraction below. The pattern is the
//! number; a caller turns it into a machine number and back without loss.

use crate::bytes::{le_u32, read_u32_le};
use vstd::prelude::*;

verus! {

/// The bit pattern of an IEEE-754 single-precision number.
#[derive(Debug, Clone, Copy, PartialEq, Eq)]
pub struct FloatBits {
    pub bits: u32,
}

/// A complex number: the bit patterns of its real and imaginary parts.
#[derive(Debug, Clone, Copy, PartialEq, Eq)]
pub struct ComplexBits {
    pub re: FloatBits,
    pub im: FloatBits,
}

/// The single-precision number whose little-endian bytes stand at
/// `s[at] .. s[at + 3]`.
pub open spec fn le_float(s: Seq<u8>, at: int) -> FloatBits
    recommends
        0 <= at,
        at + 4 <= s.len(),
{
    FloatBits { bits: le_u32(s, at) }
}

/// The complex number that an eight-byte vector payload carries: imaginary
/// part in the first four bytes, real part in the last four.
pub open spec fn le_complex(s: Seq<u8>) -> ComplexBits
    recommends
        8 <= s.len(),
{
    ComplexBits { re: le_float(s, 4), im: le_float(s, 0) }
}

impl FloatBits {
    /// Wraps a bit pattern.
    pub fn new(bits: u32) -> (r: FloatBits)
        ensures
            r.bits == bits,
    {
        FloatBits { bits }
    }
}

impl ComplexBits {
    /// The complex number with real part `re` and imaginary part `im`.
    pub fn new(re: FloatBits, im: FloatBits) -> (r: ComplexBits)
        ensures
            r.re == re,
            r.im == im,
    {
        ComplexBits { re, im }
    }
}

/// Reads a little-endian single-precision field.
pub fn read_float_le(data: &[u8], at: usize) -> (r: FloatBits)
    requires
        at + 4 <= data@.len(),
    ensures
        r == le_float(data@, at as int),
{
    FloatBits::new(read_u32_le(data, at))
}

/// Reads a vector payload: imaginary part first, real part second.
pub fn read_complex_le(data: &[u8]) -> (r: ComplexBits)
    requires
        8 <= data@.len(),
    ensures
        r == le_complex(data@),
{
    let im: FloatBits = read_float_le(data, 0);
    let re: FloatBits = read_float_le(data, 4);
    ComplexBits::new(re, im)
}

} // verus!
