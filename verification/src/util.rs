//! Reading big-endian integers out of byte buffers.
//!
//! OpenType data is big-endian throughout. The decoding itself is done by the `byteorder`
//! crate; the functions here add the bounds checks, so that a read past the end of a buffer
//! is an `UnexpectedEof` error rather than a panic.

use vstd::prelude::*;
use vstd::slice::slice_subrange;

use byteorder::{BigEndian, ByteOrder};

use crate::error::FontError;

verus! {

/// The big-endian `u16` stored at `s[i..i + 2]`.
pub open spec fn be_u16(s: Seq<u8>, i: int) -> u16 {
    (s[i] as int * 0x100 + s[i + 1] as int) as u16
}

/// The big-endian `u32` stored at `s[i..i + 4]`.
pub open spec fn be_u32(s: Seq<u8>, i: int) -> u32 {
    (s[i] as int * 0x100_0000 + s[i + 1] as int * 0x1_0000 + s[i + 2] as int * 0x100
        + s[i + 3] as int) as u32
}

/// The two's-complement value of a 16-bit pattern.
pub open spec fn i16_of(v: u16) -> i16 {
    if v < 0x8000 {
        v as i16
    } else {
        (v as int - 0x1_0000) as i16
    }
}

/// The two's-complement value of a 32-bit pattern.
pub open spec fn i32_of(v: u32) -> i32 {
    if v < 0x8000_0000 {
        v as i32
    } else {
        (v as int - 0x1_0000_0000) as i32
    }
}

/// The two's-complement value of an 8-bit pattern.
pub open spec fn i8_of(v: u8) -> i8 {
    if v < 0x80 {
        v as i8
    } else {
        (v as int - 0x100) as i8
    }
}

/// The big-endian `i16` stored at `s[i..i + 2]`.
pub open spec fn be_i16(s: Seq<u8>, i: int) -> i16 {
    i16_of(be_u16(s, i))
}

/// The big-endian `i32` stored at `s[i..i + 4]`.
pub open spec fn be_i32(s: Seq<u8>, i: int) -> i32 {
    i32_of(be_u32(s, i))
}

/// `byteorder::BigEndian::read_u16`: decodes the first two bytes of `buf` as a big-endian
/// `u16`. It panics on a shorter buffer, which `requires` rules out.
#[verifier::external_body]
fn decode_u16(buf: &[u8]) -> (r: u16)
    requires
        buf@.len() >= 2,
    ensures
        r == be_u16(buf@, 0),
{
    BigEndian::read_u16(buf)
}

/// `byteorder::BigEndian::read_u32`: decodes the first four bytes of `buf` as a big-endian
/// `u32`. It panics on a shorter buffer, which `requires` rules out.
#[verifier::external_body]
fn decode_u32(buf: &[u8]) -> (r: u32)
    requires
        buf@.len() >= 4,
    ensures
        r == be_u32(buf@, 0),
{
    BigEndian::read_u32(buf)
}

/// `byteorder::BigEndian::read_i16`: the two's-complement reading of the first two bytes of
/// `buf`, big-endian. It panics on a shorter buffer, which `requires` rules out.
#[verifier::external_body]
fn decode_i16(buf: &[u8]) -> (r: i16)
    requires
        buf@.len() >= 2,
    ensures
        r == be_i16(buf@, 0),
{
    BigEndian::read_i16(buf)
}

/// `byteorder::BigEndian::read_i32`: the two's-complement reading of the first four bytes of
/// `buf`, big-endian. It panics on a shorter buffer, which `requires` rules out.
#[verifier::external_body]
fn decode_i32(buf: &[u8]) -> (r: i32)
    requires
        buf@.len() >= 4,
    ensures
        r == be_i32(buf@, 0),
{
    BigEndian::read_i32(buf)
}

/// True when `n` bytes can be read at `pos`.
pub open spec fn fits(s: Seq<u8>, pos: int, n: int) -> bool {
    0 <= pos && pos + n <= s.len()
}

/// Reads the byte at `pos`, or fails with `UnexpectedEof` past the end.
pub fn u8_at(bytes: &[u8], pos: usize) -> (r: Result<u8, FontError>)
    ensures
        fits(bytes@, pos as int, 1) ==> r == Ok::<u8, FontError>(bytes@[pos as int]),
        !fits(bytes@, pos as int, 1) ==> r == Err::<u8, FontError>(FontError::UnexpectedEof),
{
    if pos < bytes.len() {
        Ok(bytes[pos])
    } else {
        Err(FontError::UnexpectedEof)
    }
}

/// Reads the signed byte at `pos`, or fails with `UnexpectedEof` past the end.
pub fn i8_at(bytes: &[u8], pos: usize) -> (r: Result<i8, FontError>)
    ensures
        fits(bytes@, pos as int, 1) ==> r == Ok::<i8, FontError>(i8_of(bytes@[pos as int])),
        !fits(bytes@, pos as int, 1) ==> r == Err::<i8, FontError>(FontError::UnexpectedEof),
{
    if pos < bytes.len() {
        let b = bytes[pos];
        if b < 0x80 {
            Ok(b as i8)
        } else {
            let d: u8 = 0xff - b;
            Ok(-(d as i8) - 1)
        }
    } else {
        Err(FontError::UnexpectedEof)
    }
}

/// Reads the big-endian `u16` at `pos`, or fails with `UnexpectedEof` past the end.
pub fn u16_at(bytes: &[u8], pos: usize) -> (r: Result<u16, FontError>)
    ensures
        fits(bytes@, pos as int, 2) ==> r == Ok::<u16, FontError>(be_u16(bytes@, pos as int)),
        !fits(bytes@, pos as int, 2) ==> r == Err::<u16, FontError>(FontError::UnexpectedEof),
{
    if pos > bytes.len() || bytes.len() - pos < 2 {
        return Err(FontError::UnexpectedEof);
    }
    let sub = slice_subrange(bytes, pos, pos + 2);
    Ok(decode_u16(sub))
}

/// Reads the big-endian `i16` at `pos`, or fails with `UnexpectedEof` past the end.
pub fn i16_at(bytes: &[u8], pos: usize) -> (r: Result<i16, FontError>)
    ensures
        fits(bytes@, pos as int, 2) ==> r == Ok::<i16, FontError>(be_i16(bytes@, pos as int)),
        !fits(bytes@, pos as int, 2) ==> r == Err::<i16, FontError>(FontError::UnexpectedEof),
{
    if pos > bytes.len() || bytes.len() - pos < 2 {
        return Err(FontError::UnexpectedEof);
    }
    let sub = slice_subrange(bytes, pos, pos + 2);
    Ok(decode_i16(sub))
}

/// Reads the big-endian `u32` at `pos`, or fails with `UnexpectedEof` past the end.
pub fn u32_at(bytes: &[u8], pos: usize) -> (r: Result<u32, FontError>)
    ensures
        fits(bytes@, pos as int, 4) ==> r == Ok::<u32, FontError>(be_u32(bytes@, pos as int)),
        !fits(bytes@, pos as int, 4) ==> r == Err::<u32, FontError>(FontError::UnexpectedEof),
{
    if pos > bytes.len() || bytes.len() - pos < 4 {
        return Err(FontError::UnexpectedEof);
    }
    let sub = slice_subrange(bytes, pos, pos + 4);
    Ok(decode_u32(sub))
}

/// Reads the big-endian `i32` at `pos`, or fails with `UnexpectedEof` past the end.
pub fn i32_at(bytes: &[u8], pos: usize) -> (r: Result<i32, FontError>)
    ensures
        fits(bytes@, pos as int, 4) ==> r == Ok::<i32, FontError>(be_i32(bytes@, pos as int)),
        !fits(bytes@, pos as int, 4) ==> r == Err::<i32, FontError>(FontError::UnexpectedEof),
{
    if pos > bytes.len() || bytes.len() - pos < 4 {
        return Err(FontError::UnexpectedEof);
    }
    let sub = slice_subrange(bytes, pos, pos + 4);
    Ok(decode_i32(sub))
}

/// Adds two positions, saturating at `usize::MAX`. A saturated position lies past the end of
/// any buffer, so a read there fails just as a read at the true sum would.
pub fn pos_add(a: usize, b: usize) -> (r: usize)
    ensures
        a + b <= usize::MAX ==> r == a + b,
        a + b > usize::MAX ==> r == usize::MAX,
{
    if a <= usize::MAX - b {
        a + b
    } else {
        usize::MAX
    }
}

/// Reads the big-endian `u16` at `base + offset`, or fails with `UnexpectedEof` past the end
/// (a sum beyond `usize::MAX` is past the end too).
pub fn u16_at_sum(bytes: &[u8], base: usize, offset: usize) -> (r: Result<u16, FontError>)
    ensures
        fits(bytes@, base + offset, 2) ==> r == Ok::<u16, FontError>(be_u16(bytes@, base + offset)),
        !fits(bytes@, base + offset, 2) ==> r == Err::<u16, FontError>(FontError::UnexpectedEof),
{
    if base > bytes.len() || offset > bytes.len() - base {
        return Err(FontError::UnexpectedEof);
    }
    u16_at(bytes, base + offset)
}

/// Reads the big-endian `i16` at `base + offset`, or fails with `UnexpectedEof` past the end
/// (a sum beyond `usize::MAX` is past the end too).
pub fn i16_at_sum(bytes: &[u8], base: usize, offset: usize) -> (r: Result<i16, FontError>)
    ensures
        fits(bytes@, base + offset, 2) ==> r == Ok::<i16, FontError>(be_i16(bytes@, base + offset)),
        !fits(bytes@, base + offset, 2) ==> r == Err::<i16, FontError>(FontError::UnexpectedEof),
{
    if base > bytes.len() || offset > bytes.len() - base {
        return Err(FontError::UnexpectedEof);
    }
    i16_at(bytes, base + offset)
}

/// A faster version of `Seek` that supports only forward motion from the current position.
pub trait Jump: Sized + View<V = Seq<u8>> {
    /// Moves the pointer forward `n` bytes from the *current* position.
    fn jump(&mut self, n: usize) -> (r: Result<(), ()>)
        ensures
            n <= old(self)@.len() ==> r is Ok && final(self)@ == old(self)@.skip(n as int),
            n > old(self)@.len() ==> r is Err && final(self)@ == old(self)@,
    ;
}

impl<'a> Jump for &'a [u8] {
    fn jump(&mut self, n: usize) -> (r: Result<(), ()>) {
        if n <= self.len() {
            let rest = slice_subrange(*self, n, self.len());
            *self = rest;
            Ok(())
        } else {
            Err(())
        }
    }
}

} // verus!
