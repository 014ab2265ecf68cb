//! Packed bit fields and little-endian byte layout on fixed-width integers.

use vstd::prelude::*;

verus! {

/// The `width` lowest bits set, for `1 <= width <= 32`.
pub open spec fn low_mask32(width: u32) -> u32 {
    0xFFFF_FFFFu32 >> ((32 - width) as u32)
}

/// The field of `width` bits of `x` that starts at bit `off`.
pub open spec fn field32(x: u32, off: u32, width: u32) -> u32 {
    (x >> off) & low_mask32(width)
}

/// `x` with the field of `width` bits at `off` replaced by the low bits of `v`.
pub open spec fn put32(x: u32, v: u32, off: u32, width: u32) -> u32 {
    (x & !(low_mask32(width) << off)) | ((v & low_mask32(width)) << off)
}

/// The `width` lowest bits set, for `1 <= width <= 16`.
pub open spec fn low_mask16(width: u16) -> u16 {
    0xFFFFu16 >> ((16 - width) as u16)
}

/// The field of `width` bits of `x` that starts at bit `off`.
pub open spec fn field16(x: u16, off: u16, width: u16) -> u16 {
    (x >> off) & low_mask16(width)
}

/// `x` with the field of `width` bits at `off` replaced by the low bits of `v`.
pub open spec fn put16(x: u16, v: u16, off: u16, width: u16) -> u16 {
    (x & !(low_mask16(width) << off)) | ((v & low_mask16(width)) << off)
}

/// Writing a field and reading it back gives the written value, cut to the width.
pub proof fn lemma_put32_same(x: u32, v: u32, off: u32, width: u32)
    by (bit_vector)
    requires
        1 <= width,
        off + width <= 32,
    ensures
        field32(put32(x, v, off, width), off, width) == v & low_mask32(width),
{
}

/// Writing a field leaves every field that does not overlap it unchanged.
pub proof fn lemma_put32_other(x: u32, v: u32, off: u32, width: u32, off2: u32, width2: u32)
    by (bit_vector)
    requires
        1 <= width,
        off + width <= 32,
        1 <= width2,
        off2 + width2 <= 32,
        off + width <= off2 || off2 + width2 <= off,
    ensures
        field32(put32(x, v, off, width), off2, width2) == field32(x, off2, width2),
{
}

/// Writing a field and reading it back gives the written value, cut to the width.
pub proof fn lemma_put16_same(x: u16, v: u16, off: u16, width: u16)
    by (bit_vector)
    requires
        1 <= width,
        off + width <= 16,
    ensures
        field16(put16(x, v, off, width), off, width) == v & low_mask16(width),
{
}

/// Writing a field leaves every field that does not overlap it unchanged.
pub proof fn lemma_put16_other(x: u16, v: u16, off: u16, width: u16, off2: u16, width2: u16)
    by (bit_vector)
    requires
        1 <= width,
        off + width <= 16,
        1 <= width2,
        off2 + width2 <= 16,
        off + width <= off2 || off2 + width2 <= off,
    ensures
        field16(put16(x, v, off, width), off2, width2) == field16(x, off2, width2),
{
}

pub fn get_field32(x: u32, off: u32, width: u32) -> (r: u32)
    requires
        1 <= width,
        off + width <= 32,
    ensures
        r == field32(x, off, width),
{
    (x >> off) & (0xFFFF_FFFFu32 >> (32 - width))
}

pub fn set_field32(x: u32, v: u32, off: u32, width: u32) -> (r: u32)
    requires
        1 <= width,
        off + width <= 32,
    ensures
        r == put32(x, v, off, width),
{
    let mask = 0xFFFF_FFFFu32 >> (32 - width);
    (x & !(mask << off)) | ((v & mask) << off)
}

pub fn get_field16(x: u16, off: u16, width: u16) -> (r: u16)
    requires
        1 <= width,
        off + width <= 16,
    ensures
        r == field16(x, off, width),
{
    (x >> off) & (0xFFFFu16 >> (16 - width))
}

pub fn set_field16(x: u16, v: u16, off: u16, width: u16) -> (r: u16)
    requires
        1 <= width,
        off + width <= 16,
    ensures
        r == put16(x, v, off, width),
{
    let mask = 0xFFFFu16 >> (16 - width);
    (x & !(mask << off)) | ((v & mask) << off)
}

/// Mask values for the field widths used by the packed records.
pub proof fn lemma_masks()
    by (bit_vector)
    ensures
        low_mask16(1) == 1,
        low_mask16(4) == 15,
        low_mask32(1) == 1,
        low_mask32(2) == 3,
        low_mask32(4) == 15,
        low_mask32(5) == 31,
        low_mask32(11) == 0x7FF,
        low_mask32(16) == 0xFFFF,
        low_mask32(18) == 0x3FFFF,
        low_mask32(23) == 0x7FFFFF,
{
}

/// A field read never exceeds its mask.
pub proof fn lemma_field_bounds(x: u32, off: u32, width: u32, y: u16, off16: u16, width16: u16)
    by (bit_vector)
    ensures
        field32(x, off, width) <= low_mask32(width),
        field16(y, off16, width16) <= low_mask16(width16),
{
}

/// Every field of zero is zero.
pub proof fn lemma_field_zero(off: u32, width: u32)
    by (bit_vector)
    ensures
        field32(0, off, width) == 0,
{
}

/// A value that fits under the mask is kept whole by it.
pub proof fn lemma_fits(v: u32, width: u32, w: u16, width16: u16)
    by (bit_vector)
    ensures
        v <= low_mask32(width) ==> v & low_mask32(width) == v,
        w <= low_mask16(width16) ==> w & low_mask16(width16) == w,
{
}

/// The little-endian bytes of `x`.
pub open spec fn le_bytes32(x: u32) -> Seq<u8> {
    seq![(x & 0xff) as u8, ((x >> 8) & 0xff) as u8, ((x >> 16) & 0xff) as u8, ((x >> 24) & 0xff) as u8]
}

/// The little-endian bytes of `x`.
pub open spec fn le_bytes16(x: u16) -> Seq<u8> {
    seq![(x & 0xff) as u8, ((x >> 8) & 0xff) as u8]
}

/// The integer whose little-endian bytes are `b0 b1 b2 b3`.
pub open spec fn from_le32(b0: u8, b1: u8, b2: u8, b3: u8) -> u32 {
    (b0 as u32) | ((b1 as u32) << 8) | ((b2 as u32) << 16) | ((b3 as u32) << 24)
}

/// The integer whose little-endian bytes are `b0 b1`.
pub open spec fn from_le16(b0: u8, b1: u8) -> u16 {
    (b0 as u16) | ((b1 as u16) << 8)
}

/// Reading back the bytes of an integer gives the integer.
pub proof fn lemma_le32_round_trip(x: u32)
    by (bit_vector)
    ensures
        from_le32(
            (x & 0xff) as u8,
            ((x >> 8) & 0xff) as u8,
            ((x >> 16) & 0xff) as u8,
            ((x >> 24) & 0xff) as u8,
        ) == x,
{
}

/// The bytes of the integer read from four bytes are those bytes.
pub proof fn lemma_le32_bytes(b0: u8, b1: u8, b2: u8, b3: u8)
    by (bit_vector)
    ensures
        (from_le32(b0, b1, b2, b3) & 0xff) as u8 == b0,
        ((from_le32(b0, b1, b2, b3) >> 8) & 0xff) as u8 == b1,
        ((from_le32(b0, b1, b2, b3) >> 16) & 0xff) as u8 == b2,
        ((from_le32(b0, b1, b2, b3) >> 24) & 0xff) as u8 == b3,
{
}

/// Reading back the bytes of an integer gives the integer.
pub proof fn lemma_le16_round_trip(x: u16)
    by (bit_vector)
    ensures
        from_le16((x & 0xff) as u8, ((x >> 8) & 0xff) as u8) == x,
{
}

/// The bytes of the integer read from two bytes are those bytes.
pub proof fn lemma_le16_bytes(b0: u8, b1: u8)
    by (bit_vector)
    ensures
        (from_le16(b0, b1) & 0xff) as u8 == b0,
        ((from_le16(b0, b1) >> 8) & 0xff) as u8 == b1,
{
}

/// Appends the little-endian bytes of `x`.
pub fn push_le32(out: &mut Vec<u8>, x: u32)
    ensures
        final(out)@ == old(out)@ + le_bytes32(x),
{
    out.push((x & 0xff) as u8);
    out.push(((x >> 8) & 0xff) as u8);
    out.push(((x >> 16) & 0xff) as u8);
    out.push(((x >> 24) & 0xff) as u8);
    assert(final(out)@ =~= old(out)@ + le_bytes32(x));
}

/// Appends the little-endian bytes of `x`.
pub fn push_le16(out: &mut Vec<u8>, x: u16)
    ensures
        final(out)@ == old(out)@ + le_bytes16(x),
{
    out.push((x & 0xff) as u8);
    out.push(((x >> 8) & 0xff) as u8);
    assert(final(out)@ =~= old(out)@ + le_bytes16(x));
}

/// The integer stored little-endian in `b[at..at + 4]`.
pub fn read_le32(b: &[u8], at: usize) -> (r: u32)
    requires
        at + 4 <= b@.len(),
    ensures
        r == from_le32(b@[at as int], b@[at + 1], b@[at + 2], b@[at + 3]),
{
    (b[at] as u32) | ((b[at + 1] as u32) << 8) | ((b[at + 2] as u32) << 16) | ((b[at + 3] as u32)
        << 24)
}

/// The integer stored little-endian in `b[at..at + 2]`.
pub fn read_le16(b: &[u8], at: usize) -> (r: u16)
    requires
        at + 2 <= b@.len(),
    ensures
        r == from_le16(b@[at as int], b@[at + 1]),
{
    (b[at] as u16) | ((b[at + 1] as u16) << 8)
}

} // verus!
