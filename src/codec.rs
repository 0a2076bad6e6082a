//! Big-endian primitive readers over an immutable byte buffer.
use crate::error::Error;
use vstd::prelude::*;

verus! {

/// The unsigned 16-bit big-endian integer stored at `b[i..i + 2]`.
pub open spec fn spec_u16(b: Seq<u8>, i: int) -> u16 {
    (b[i] as int * 0x100 + b[i + 1] as int) as u16
}

/// The unsigned 24-bit big-endian integer stored at `b[i..i + 3]`.
pub open spec fn spec_u24(b: Seq<u8>, i: int) -> u32 {
    (b[i] as int * 0x10000 + b[i + 1] as int * 0x100 + b[i + 2] as int) as u32
}

/// The unsigned 32-bit big-endian integer stored at `b[i..i + 4]`.
pub open spec fn spec_u32(b: Seq<u8>, i: int) -> u32 {
    (b[i] as int * 0x1000000 + b[i + 1] as int * 0x10000 + b[i + 2] as int * 0x100
        + b[i + 3] as int) as u32
}

/// The unsigned 64-bit big-endian integer stored at `b[i..i + 8]`.
pub open spec fn spec_u64(b: Seq<u8>, i: int) -> u64 {
    (spec_u32(b, i) as int * 0x1_0000_0000 + spec_u32(b, i + 4) as int) as u64
}

/// The signed 16-bit big-endian integer stored at `b[i..i + 2]`.
pub open spec fn spec_i16(b: Seq<u8>, i: int) -> i16 {
    spec_u16(b, i) as i16
}

/// The signed 32-bit big-endian integer stored at `b[i..i + 4]`.
pub open spec fn spec_i32(b: Seq<u8>, i: int) -> i32 {
    spec_u32(b, i) as i32
}

/// The signed 64-bit big-endian integer stored at `b[i..i + 8]`.
pub open spec fn spec_i64(b: Seq<u8>, i: int) -> i64 {
    spec_u64(b, i) as i64
}

/// `r` is what decoding `input` with the wire-format description `s` gives:
/// the same value and the input left after the `n` bytes `s` consumed, or the
/// same error.
pub open spec fn parsed<T>(r: Result<(&[u8], T), Error>, s: Result<(T, int), Error>, input: Seq<u8>) -> bool {
    match (r, s) {
        (Ok((rest, v)), Ok((w, n))) => v == w && 0 <= n <= input.len() && rest@ == input.subrange(
            n,
            input.len() as int,
        ),
        (Err(e), Err(f)) => e == f,
        _ => false,
    }
}

/// Reads the unsigned 16-bit integer at position `i`.
pub fn u16_at(b: &[u8], i: usize) -> (r: u16)
    requires
        i + 2 <= b@.len(),
    ensures
        r == spec_u16(b@, i as int),
{
    (b[i] as u16) * 0x100 + (b[i + 1] as u16)
}

/// Reads the unsigned 24-bit integer at position `i`.
pub fn u24_at(b: &[u8], i: usize) -> (r: u32)
    requires
        i + 3 <= b@.len(),
    ensures
        r == spec_u24(b@, i as int),
{
    (b[i] as u32) * 0x10000 + (b[i + 1] as u32) * 0x100 + (b[i + 2] as u32)
}

/// Reads the unsigned 32-bit integer at position `i`.
pub fn u32_at(b: &[u8], i: usize) -> (r: u32)
    requires
        i + 4 <= b@.len(),
    ensures
        r == spec_u32(b@, i as int),
{
    (b[i] as u32) * 0x1000000 + (b[i + 1] as u32) * 0x10000 + (b[i + 2] as u32) * 0x100 + (
    b[i + 3] as u32)
}

/// Reads the unsigned 64-bit integer at position `i`.
pub fn u64_at(b: &[u8], i: usize) -> (r: u64)
    requires
        i + 8 <= b@.len(),
    ensures
        r == spec_u64(b@, i as int),
{
    let _len = b.len();
    (u32_at(b, i) as u64) * 0x1_0000_0000 + (u32_at(b, i + 4) as u64)
}

/// Reads the signed 16-bit integer at position `i`.
pub fn i16_at(b: &[u8], i: usize) -> (r: i16)
    requires
        i + 2 <= b@.len(),
    ensures
        r == spec_i16(b@, i as int),
{
    u16_at(b, i) as i16
}

/// Reads the signed 32-bit integer at position `i`.
pub fn i32_at(b: &[u8], i: usize) -> (r: i32)
    requires
        i + 4 <= b@.len(),
    ensures
        r == spec_i32(b@, i as int),
{
    u32_at(b, i) as i32
}

/// Reads the signed 64-bit integer at position `i`.
pub fn i64_at(b: &[u8], i: usize) -> (r: i64)
    requires
        i + 8 <= b@.len(),
    ensures
        r == spec_i64(b@, i as int),
{
    u64_at(b, i) as i64
}

/// Consumes one byte from the front of `input`.
pub fn be_u8(input: &[u8]) -> (r: Result<(&[u8], u8), Error>)
    ensures
        input@.len() < 1 <==> r == Err::<(&[u8], u8), Error>(Error::Truncated),
        r matches Ok((rest, v)) ==> rest@ == input@.subrange(1, input@.len() as int) && v
            == input@[0],
{
    if input.len() < 1 {
        return Err(Error::Truncated);
    }
    let (_, rest) = input.split_at(1);
    Ok((rest, input[0]))
}

/// Consumes a big-endian `u16` from the front of `input`.
pub fn be_u16(input: &[u8]) -> (r: Result<(&[u8], u16), Error>)
    ensures
        input@.len() < 2 <==> r == Err::<(&[u8], u16), Error>(Error::Truncated),
        r matches Ok((rest, v)) ==> rest@ == input@.subrange(2, input@.len() as int) && v
            == spec_u16(input@, 0),
{
    if input.len() < 2 {
        return Err(Error::Truncated);
    }
    let (_, rest) = input.split_at(2);
    Ok((rest, u16_at(input, 0)))
}

/// Consumes a big-endian 24-bit integer from the front of `input`.
pub fn be_u24(input: &[u8]) -> (r: Result<(&[u8], u32), Error>)
    ensures
        input@.len() < 3 <==> r == Err::<(&[u8], u32), Error>(Error::Truncated),
        r matches Ok((rest, v)) ==> rest@ == input@.subrange(3, input@.len() as int) && v
            == spec_u24(input@, 0),
{
    if input.len() < 3 {
        return Err(Error::Truncated);
    }
    let (_, rest) = input.split_at(3);
    Ok((rest, u24_at(input, 0)))
}

/// Consumes a big-endian `u32` from the front of `input`.
pub fn be_u32(input: &[u8]) -> (r: Result<(&[u8], u32), Error>)
    ensures
        input@.len() < 4 <==> r == Err::<(&[u8], u32), Error>(Error::Truncated),
        r matches Ok((rest, v)) ==> rest@ == input@.subrange(4, input@.len() as int) && v
            == spec_u32(input@, 0),
{
    if input.len() < 4 {
        return Err(Error::Truncated);
    }
    let (_, rest) = input.split_at(4);
    Ok((rest, u32_at(input, 0)))
}

/// Splits the first `n` bytes off `input` without copying.
pub fn take(input: &[u8], n: usize) -> (r: Result<(&[u8], &[u8]), Error>)
    ensures
        input@.len() < n <==> r is Err,
        r is Err ==> r == Err::<(&[u8], &[u8]), Error>(Error::Truncated),
        r matches Ok((rest, taken)) ==> rest@ == input@.subrange(n as int, input@.len() as int)
            && taken@ == input@.subrange(0, n as int),
{
    if input.len() < n {
        return Err(Error::Truncated);
    }
    let (taken, rest) = input.split_at(n);
    Ok((rest, taken))
}

/// The slice `b[start..end]`, borrowed from `b`.
pub fn slice_range(b: &[u8], start: usize, end: usize) -> (r: &[u8])
    requires
        start <= end <= b@.len(),
    ensures
        r@ == b@.subrange(start as int, end as int),
{
    let (head, _) = b.split_at(end);
    let (_, r) = head.split_at(start);
    r
}

} // verus!
