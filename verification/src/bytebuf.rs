//! Byte buffers: the `bytes` crate's `Bytes` and the little-endian numbers
//! read off its front.

use bytes::{Buf, Bytes};
use vstd::prelude::*;

verus! {

/// `bytes::Bytes`, a cheaply cloned handle on a run of bytes.
#[verifier::external_type_specification]
#[verifier::external_body]
pub struct ExBytes(Bytes);

/// The bytes that a `Bytes` still holds, first to last.
pub uninterp spec fn contents(b: Bytes) -> Seq<u8>;

/// The little-endian 16-bit number that starts at position `i` of `s`.
pub open spec fn u16_at(s: Seq<u8>, i: int) -> u16 {
    (s[i] + 0x100 * s[i + 1]) as u16
}

/// The little-endian 32-bit number that starts at position `i` of `s`.
pub open spec fn u32_at(s: Seq<u8>, i: int) -> u32 {
    (s[i] + 0x100 * s[i + 1] + 0x1_0000 * s[i + 2] + 0x100_0000 * s[i + 3]) as u32
}

/// The little-endian 64-bit number that starts at position `i` of `s`.
pub open spec fn u64_at(s: Seq<u8>, i: int) -> u64 {
    (u32_at(s, i) + 0x1_0000_0000 * u32_at(s, i + 4)) as u64
}

/// The two's complement reading of the 32-bit number at position `i` of `s`.
pub open spec fn i32_at(s: Seq<u8>, i: int) -> i32 {
    let u = u32_at(s, i) as int;
    (if u < 0x8000_0000 { u } else { u - 0x1_0000_0000 }) as i32
}

/// The two's complement reading of the 64-bit number at position `i` of `s`.
pub open spec fn i64_at(s: Seq<u8>, i: int) -> i64 {
    let u = u64_at(s, i) as int;
    (if u < 0x8000_0000_0000_0000 { u } else { u - 0x1_0000_0000_0000_0000 }) as i64
}

/// The number whose little-endian bytes are `s`, least significant first.
pub open spec fn le_value(s: Seq<u8>) -> nat
    decreases s.len(),
{
    if s.len() == 0 {
        0
    } else {
        (s[0] + 0x100 * le_value(s.skip(1))) as nat
    }
}

/// `Buf::remaining` of a `Bytes`: how many bytes it holds.
#[verifier::external_body]
pub(crate) fn remaining(buf: &Bytes) -> (n: usize)
    ensures
        n == contents(*buf).len(),
{
    buf.remaining()
}

/// `Buf::advance` of a `Bytes`: drops the first `cnt` bytes. It panics where
/// there are fewer.
#[verifier::external_body]
pub(crate) fn advance(buf: &mut Bytes, cnt: usize)
    requires
        cnt <= contents(*old(buf)).len(),
    ensures
        contents(*final(buf)) == contents(*old(buf)).skip(cnt as int),
{
    buf.advance(cnt)
}

/// `Buf::get_u8` of a `Bytes`: takes the first byte. It panics on an empty
/// buffer.
#[verifier::external_body]
pub(crate) fn get_u8(buf: &mut Bytes) -> (v: u8)
    requires
        1 <= contents(*old(buf)).len(),
    ensures
        v == contents(*old(buf))[0],
        contents(*final(buf)) == contents(*old(buf)).skip(1),
{
    buf.get_u8()
}

/// `Buf::get_u16_le` of a `Bytes`: takes the first two bytes as a
/// little-endian number. It panics where there are fewer.
#[verifier::external_body]
pub(crate) fn get_u16_le(buf: &mut Bytes) -> (v: u16)
    requires
        2 <= contents(*old(buf)).len(),
    ensures
        v == u16_at(contents(*old(buf)), 0),
        contents(*final(buf)) == contents(*old(buf)).skip(2),
{
    buf.get_u16_le()
}

/// `Buf::get_u32_le` of a `Bytes`: takes the first four bytes as a
/// little-endian number. It panics where there are fewer.
#[verifier::external_body]
pub(crate) fn get_u32_le(buf: &mut Bytes) -> (v: u32)
    requires
        4 <= contents(*old(buf)).len(),
    ensures
        v == u32_at(contents(*old(buf)), 0),
        contents(*final(buf)) == contents(*old(buf)).skip(4),
{
    buf.get_u32_le()
}

/// `Buf::get_u64_le` of a `Bytes`: takes the first eight bytes as a
/// little-endian number. It panics where there are fewer.
#[verifier::external_body]
pub(crate) fn get_u64_le(buf: &mut Bytes) -> (v: u64)
    requires
        8 <= contents(*old(buf)).len(),
    ensures
        v == u64_at(contents(*old(buf)), 0),
        contents(*final(buf)) == contents(*old(buf)).skip(8),
{
    buf.get_u64_le()
}

/// `Buf::get_i32_le` of a `Bytes`: takes the first four bytes as a
/// little-endian two's complement number. It panics where there are fewer.
#[verifier::external_body]
pub(crate) fn get_i32_le(buf: &mut Bytes) -> (v: i32)
    requires
        4 <= contents(*old(buf)).len(),
    ensures
        v == i32_at(contents(*old(buf)), 0),
        contents(*final(buf)) == contents(*old(buf)).skip(4),
{
    buf.get_i32_le()
}

/// `Buf::get_i64_le` of a `Bytes`: takes the first eight bytes as a
/// little-endian two's complement number. It panics where there are fewer.
#[verifier::external_body]
pub(crate) fn get_i64_le(buf: &mut Bytes) -> (v: i64)
    requires
        8 <= contents(*old(buf)).len(),
    ensures
        v == i64_at(contents(*old(buf)), 0),
        contents(*final(buf)) == contents(*old(buf)).skip(8),
{
    buf.get_i64_le()
}

/// `Buf::get_uint_le` of a `Bytes`: takes the first `nbytes` bytes as a
/// little-endian number. It panics where there are fewer, and where `nbytes`
/// is over eight.
#[verifier::external_body]
pub(crate) fn get_uint_le(buf: &mut Bytes, nbytes: usize) -> (v: u64)
    requires
        nbytes <= 8,
        nbytes <= contents(*old(buf)).len(),
    ensures
        v == le_value(contents(*old(buf)).take(nbytes as int)),
        contents(*final(buf)) == contents(*old(buf)).skip(nbytes as int),
{
    buf.get_uint_le(nbytes)
}

/// `Bytes::clone`: another handle on the same bytes.
#[verifier::external_body]
pub(crate) fn clone_bytes(buf: &Bytes) -> (b: Bytes)
    ensures
        contents(b) == contents(*buf),
{
    buf.clone()
}

/// `Bytes::split_to`: takes the first `at` bytes into a buffer of their own.
/// It panics where there are fewer.
#[verifier::external_body]
pub(crate) fn split_to(buf: &mut Bytes, at: usize) -> (b: Bytes)
    requires
        at <= contents(*old(buf)).len(),
    ensures
        contents(b) == contents(*old(buf)).take(at as int),
        contents(*final(buf)) == contents(*old(buf)).skip(at as int),
{
    buf.split_to(at)
}

/// `Bytes::deref`, which indexing with the full range goes through: the bytes
/// as a slice.
#[verifier::external_body]
pub(crate) fn as_slice(buf: &Bytes) -> (s: &[u8])
    ensures
        s@ == contents(*buf),
{
    &buf[..]
}

/// `Bytes::copy_from_slice`: a buffer of its own with the bytes of `data`.
#[verifier::external_body]
pub(crate) fn copy_from_slice(data: &[u8]) -> (b: Bytes)
    ensures
        contents(b) == data@,
{
    Bytes::copy_from_slice(data)
}

/// `Vec::<u8>::from(Bytes)`: the bytes as a vector.
#[verifier::external_body]
pub(crate) fn into_vec(buf: Bytes) -> (v: Vec<u8>)
    ensures
        v@ == contents(buf),
{
    buf.into()
}

} // verus!
