//! The byte-level building blocks of the canonical encoding.
//!
//! Integers are written in little-endian order at their full width.  A
//! sequence is written as its length, as a `u64`, followed by its items.  An
//! optional value is written as a tag byte, `0` or `1`, followed by the value
//! if there is one.  A variant of an enumeration is written as its index, as a
//! `u32`, followed by its fields.

use vstd::bytes::*;
use vstd::prelude::*;

verus! {

/// The encoding of a length.
pub open spec fn length_bytes(len: nat) -> Seq<u8> {
    spec_u64_to_le_bytes(len as u64)
}

/// The encoding of the index of a variant.
pub open spec fn variant_bytes(index: u32) -> Seq<u8> {
    spec_u32_to_le_bytes(index)
}

/// Appends `bytes` to `out`.
pub fn put_bytes(out: &mut Vec<u8>, bytes: Vec<u8>)
    ensures
        final(out)@ == old(out)@ + bytes@,
{
    let mut bytes = bytes;
    out.append(&mut bytes);
}

/// Appends one byte to `out`.
pub fn put_u8(out: &mut Vec<u8>, value: u8)
    ensures
        final(out)@ == old(out)@ + seq![value],
{
    out.push(value);
    assert(final(out)@ =~= old(out)@ + seq![value]);
}

/// Appends the four little-endian bytes of `value` to `out`.
pub fn put_u32(out: &mut Vec<u8>, value: u32)
    ensures
        final(out)@ == old(out)@ + spec_u32_to_le_bytes(value),
{
    put_bytes(out, u32_to_le_bytes(value));
}

/// Appends the eight little-endian bytes of `value` to `out`.
pub fn put_u64(out: &mut Vec<u8>, value: u64)
    ensures
        final(out)@ == old(out)@ + spec_u64_to_le_bytes(value),
{
    put_bytes(out, u64_to_le_bytes(value));
}

/// Appends the encoding of the length `len` to `out`.
pub fn put_length(out: &mut Vec<u8>, len: usize)
    ensures
        final(out)@ == old(out)@ + length_bytes(len as nat),
{
    put_u64(out, len as u64);
}

} // verus!
