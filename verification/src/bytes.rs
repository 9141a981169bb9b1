//! Fixed-width integers on the wire.
//!
//! Payload fields are little-endian unless a message says otherwise. The
//! functions here read a field at a byte position and lay a 32-bit value out
//! in either byte order.

use vstd::prelude::*;

verus! {

/// The 16-bit value whose little-endian bytes stand at `s[at]` and `s[at + 1]`.
pub open spec fn le_u16(s: Seq<u8>, at: int) -> u16
    recommends
        0 <= at,
        at + 2 <= s.len(),
{
    (s[at] as int + 0x100 * (s[at + 1] as int)) as u16
}

/// The 32-bit value whose little-endian bytes stand at `s[at] .. s[at + 3]`.
pub open spec fn le_u32(s: Seq<u8>, at: int) -> u32
    recommends
        0 <= at,
        at + 4 <= s.len(),
{
    (s[at] as int + 0x100 * (s[at + 1] as int) + 0x1_0000 * (s[at + 2] as int) + 0x100_0000 * (
    s[at + 3] as int)) as u32
}

/// The four bytes of `x`, least significant first.
pub open spec fn u32_le_bytes(x: u32) -> Seq<u8> {
    seq![
        (x as int % 0x100) as u8,
        (x as int / 0x100 % 0x100) as u8,
        (x as int / 0x1_0000 % 0x100) as u8,
        (x as int / 0x100_0000) as u8,
    ]
}

/// The four bytes of `x`, most significant first.
pub open spec fn u32_be_bytes(x: u32) -> Seq<u8> {
    seq![
        (x as int / 0x100_0000) as u8,
        (x as int / 0x1_0000 % 0x100) as u8,
        (x as int / 0x100 % 0x100) as u8,
        (x as int % 0x100) as u8,
    ]
}

/// Reads a little-endian 16-bit field.
pub fn read_u16_le(data: &[u8], at: usize) -> (r: u16)
    requires
        at + 2 <= data@.len(),
    ensures
        r == le_u16(data@, at as int),
{
    let b0: u16 = data[at] as u16;
    let b1: u16 = data[at + 1] as u16;
    b0 + b1 * 0x100
}

/// Reads a little-endian 32-bit field.
pub fn read_u32_le(data: &[u8], at: usize) -> (r: u32)
    requires
        at + 4 <= data@.len(),
    ensures
        r == le_u32(data@, at as int),
{
    let b0: u32 = data[at] as u32;
    let b1: u32 = data[at + 1] as u32;
    let b2: u32 = data[at + 2] as u32;
    let b3: u32 = data[at + 3] as u32;
    b0 + b1 * 0x100 + b2 * 0x1_0000 + b3 * 0x100_0000
}

/// Lays `x` out least significant byte first. Reading the bytes back as a
/// little-endian field gives `x` again.
pub fn write_u32_le(x: u32) -> (r: [u8; 4])
    ensures
        r@ == u32_le_bytes(x),
        le_u32(r@, 0) == x,
{
    let r: [u8; 4] = [
        (x % 0x100) as u8,
        (x / 0x100 % 0x100) as u8,
        (x / 0x1_0000 % 0x100) as u8,
        (x / 0x100_0000) as u8,
    ];
    assert(r@ =~= u32_le_bytes(x));
    r
}

/// Lays `x` out most significant byte first: the little-endian layout read
/// backwards.
pub fn write_u32_be(x: u32) -> (r: [u8; 4])
    ensures
        r@ == u32_be_bytes(x),
        forall|i: int| 0 <= i < 4 ==> r@[i] == u32_le_bytes(x)[3 - i],
{
    let r: [u8; 4] = [
        (x / 0x100_0000) as u8,
        (x / 0x1_0000 % 0x100) as u8,
        (x / 0x100 % 0x100) as u8,
        (x % 0x100) as u8,
    ];
    assert(r@ =~= u32_be_bytes(x));
    r
}

} // verus!
