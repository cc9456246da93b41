use vstd::prelude::*;

verus! {

/// True when any bit of `mask` is set in `byte`; for a single-bit mask this is
/// "the flag is set".
pub open spec fn flag(byte: u8, mask: u8) -> bool {
    (byte & mask) != 0
}

/// `byte` with the bits of `mask` set (`on`) or cleared (`!on`).
pub open spec fn with_flag(byte: u8, mask: u8, on: bool) -> u8 {
    if on {
        byte | mask
    } else {
        byte & !mask
    }
}

/// The bit field of `byte` that starts at bit `shift` and is selected by the
/// low mask `width`.
pub open spec fn field(byte: u8, shift: u8, width: u8) -> u8 {
    (byte >> shift) & width
}

/// `byte` with the bit field at `shift` / `width` replaced by the low bits of `v`.
pub open spec fn with_field(byte: u8, shift: u8, width: u8, v: u8) -> u8 {
    (byte & !(width << shift)) | ((v & width) << shift)
}

/// The masks that select exactly one bit of a byte.
pub open spec fn single_bit(mask: u8) -> bool {
    mask == 0x01 || mask == 0x02 || mask == 0x04 || mask == 0x08 || mask == 0x10 || mask == 0x20
        || mask == 0x40 || mask == 0x80
}

/// The bit fields that this crate reads and writes: (shift, width) pairs.
pub open spec fn known_field(shift: u8, width: u8) -> bool {
    ||| shift == 0 && width == 0x03
    ||| shift == 4 && width == 0x03
    ||| shift == 6 && width == 0x03
    ||| shift == 0 && width == 0x07
    ||| shift == 0 && width == 0x0F
    ||| shift == 4 && width == 0x0F
    ||| shift == 1 && width == 0x7F
}

/// Setting or clearing a one-bit flag and reading it back gives the value written.
pub proof fn lemma_flag_reads_back(byte: u8, mask: u8, on: bool)
    requires
        single_bit(mask),
    ensures
        flag(with_flag(byte, mask, on), mask) == on,
{
    if on {
        assert(single_bit(mask) ==> (byte | mask) & mask != 0) by (bit_vector);
    } else {
        assert((byte & !mask) & mask == 0) by (bit_vector);
    }
}

/// Writing one flag leaves every other flag of the same byte as it was.
pub proof fn lemma_flag_keeps_others(byte: u8, mask: u8, on: bool, other: u8)
    requires
        single_bit(mask),
        single_bit(other),
        mask != other,
    ensures
        with_flag(byte, mask, on) & other == byte & other,
        flag(with_flag(byte, mask, on), other) == flag(byte, other),
{
    if on {
        assert(single_bit(mask) && single_bit(other) && mask != other ==> (byte | mask) & other
            == byte & other) by (bit_vector);
    } else {
        assert(single_bit(mask) && single_bit(other) && mask != other ==> (byte & !mask) & other
            == byte & other) by (bit_vector);
    }
}

/// Writing a flag to the value it already has leaves the byte unchanged.
pub proof fn lemma_flag_idempotent(byte: u8, mask: u8, on: bool)
    requires
        single_bit(mask),
        flag(byte, mask) == on,
    ensures
        with_flag(byte, mask, on) == byte,
{
    assert(single_bit(mask) && ((byte & mask) != 0) ==> byte | mask == byte) by (bit_vector);
    assert(single_bit(mask) && ((byte & mask) == 0) ==> byte & !mask == byte) by (bit_vector);
}

/// Writing a bit field and reading it back gives the low bits of the value written.
pub proof fn lemma_field_reads_back(byte: u8, shift: u8, width: u8, v: u8)
    requires
        known_field(shift, width),
    ensures
        field(with_field(byte, shift, width, v), shift, width) == v & width,
{
    assert(known_field(shift, width) ==> ((((byte & !(width << shift)) | ((v & width) << shift))
        >> shift) & width) == v & width) by (bit_vector);
}

/// Writing a bit field leaves every bit outside the field as it was.
pub proof fn lemma_field_keeps_others(byte: u8, shift: u8, width: u8, v: u8, other: u8)
    requires
        known_field(shift, width),
        (width << shift) & other == 0,
    ensures
        with_field(byte, shift, width, v) & other == byte & other,
{
    assert(known_field(shift, width) && (width << shift) & other == 0 ==> ((byte & !(width
        << shift)) | ((v & width) << shift)) & other == byte & other) by (bit_vector);
}

/// Writing back the value a bit field already holds leaves the byte unchanged.
pub proof fn lemma_field_idempotent(byte: u8, shift: u8, width: u8)
    requires
        known_field(shift, width),
    ensures
        with_field(byte, shift, width, field(byte, shift, width)) == byte,
{
    assert(known_field(shift, width) ==> ((byte & !(width << shift)) | ((((byte >> shift)
        & width) & width) << shift)) == byte) by (bit_vector);
}

/// A bit field holds a value no greater than its width mask.
pub proof fn lemma_field_bound(byte: u8, shift: u8, width: u8)
    ensures
        field(byte, shift, width) <= width,
{
    assert((byte >> shift) & width <= width) by (bit_vector);
}

} // verus!

verus! {

/// The little-endian 16-bit value of the bytes `lo`, `hi`.
pub open spec fn u16_le(lo: u8, hi: u8) -> u16 {
    ((hi as u16) << 8) | (lo as u16)
}

/// The little-endian two's complement 16-bit value of the bytes `lo`, `hi`.
pub open spec fn i16_le(lo: u8, hi: u8) -> i16 {
    u16_le(lo, hi) as i16
}

/// The little-endian 32-bit value of the bytes `b0` (lowest) to `b3`.
pub open spec fn u32_le(b0: u8, b1: u8, b2: u8, b3: u8) -> u32 {
    ((b3 as u32) << 24) | ((b2 as u32) << 16) | ((b1 as u32) << 8) | (b0 as u32)
}

/// The two bytes of `x`, lowest first.
pub open spec fn u16_le_bytes(x: u16) -> Seq<u8> {
    seq![x as u8, (x >> 8) as u8]
}

/// The two bytes of `x` in two's complement, lowest first.
pub open spec fn i16_le_bytes(x: i16) -> Seq<u8> {
    u16_le_bytes(x as u16)
}

/// The four bytes of `x`, lowest first.
pub open spec fn u32_le_bytes(x: u32) -> Seq<u8> {
    seq![x as u8, (x >> 8) as u8, (x >> 16) as u8, (x >> 24) as u8]
}

/// Encoding a 16-bit value and decoding its bytes gives the value back, and
/// decoding two bytes and encoding the value gives the bytes back.
pub proof fn lemma_u16_le_roundtrip(x: u16, lo: u8, hi: u8)
    ensures
        u16_le(x as u8, (x >> 8) as u8) == x,
        (u16_le(lo, hi) as u8) == lo,
        ((u16_le(lo, hi) >> 8) as u8) == hi,
{
    assert((((((x >> 8) as u8) as u16) << 8) | ((x as u8) as u16)) == x) by (bit_vector);
    assert(((((hi as u16) << 8) | (lo as u16)) as u8) == lo) by (bit_vector);
    assert((((((hi as u16) << 8) | (lo as u16)) >> 8) as u8) == hi) by (bit_vector);
}

/// The same for two's complement 16-bit values.
pub proof fn lemma_i16_le_roundtrip(x: i16, lo: u8, hi: u8)
    ensures
        i16_le(i16_le_bytes(x)[0], i16_le_bytes(x)[1]) == x,
        i16_le_bytes(i16_le(lo, hi)) == seq![lo, hi],
{
    let u = x as u16;
    lemma_u16_le_roundtrip(u, lo, hi);
    assert(((x as u16) as i16) == x) by (bit_vector);
    let v = u16_le(lo, hi);
    assert(((v as i16) as u16) == v) by (bit_vector);
    assert(i16_le_bytes(i16_le(lo, hi)) =~= seq![lo, hi]);
}

/// Encoding a 32-bit value and decoding its bytes gives the value back, and
/// decoding four bytes and encoding the value gives the bytes back.
pub proof fn lemma_u32_le_roundtrip(x: u32, b0: u8, b1: u8, b2: u8, b3: u8)
    ensures
        u32_le(x as u8, (x >> 8) as u8, (x >> 16) as u8, (x >> 24) as u8) == x,
        u32_le_bytes(u32_le(b0, b1, b2, b3)) == seq![b0, b1, b2, b3],
{
    assert((((((x >> 24) as u8) as u32) << 24) | ((((x >> 16) as u8) as u32) << 16) | ((((x
        >> 8) as u8) as u32) << 8) | ((x as u8) as u32)) == x) by (bit_vector);
    let v = u32_le(b0, b1, b2, b3);
    assert(((((b3 as u32) << 24) | ((b2 as u32) << 16) | ((b1 as u32) << 8) | (b0 as u32))
        as u8) == b0) by (bit_vector);
    assert((((((b3 as u32) << 24) | ((b2 as u32) << 16) | ((b1 as u32) << 8) | (b0 as u32))
        >> 8) as u8) == b1) by (bit_vector);
    assert((((((b3 as u32) << 24) | ((b2 as u32) << 16) | ((b1 as u32) << 8) | (b0 as u32))
        >> 16) as u8) == b2) by (bit_vector);
    assert((((((b3 as u32) << 24) | ((b2 as u32) << 16) | ((b1 as u32) << 8) | (b0 as u32))
        >> 24) as u8) == b3) by (bit_vector);
    assert(u32_le_bytes(v) =~= seq![b0, b1, b2, b3]);
}

} // verus!

verus! {

/// Appends the two bytes of `x`, lowest first.
pub(crate) fn push_i16_le(out: &mut Vec<u8>, x: i16)
    ensures
        final(out)@ == old(out)@ + i16_le_bytes(x),
{
    let u = x as u16;
    out.push(u as u8);
    out.push((u >> 8) as u8);
    assert(final(out)@ =~= old(out)@ + i16_le_bytes(x));
}

/// Appends the four bytes of `x`, lowest first.
pub(crate) fn push_u32_le(out: &mut Vec<u8>, x: u32)
    ensures
        final(out)@ == old(out)@ + u32_le_bytes(x),
{
    out.push(x as u8);
    out.push((x >> 8) as u8);
    out.push((x >> 16) as u8);
    out.push((x >> 24) as u8);
    assert(final(out)@ =~= old(out)@ + u32_le_bytes(x));
}

/// The little-endian two's complement value of `bytes[off]`, `bytes[off + 1]`.
pub(crate) fn read_i16_le(bytes: &[u8], off: usize) -> (r: i16)
    requires
        off + 2 <= bytes@.len(),
    ensures
        r == i16_le(bytes@[off as int], bytes@[off + 1]),
{
    let lo = bytes[off];
    let hi = bytes[off + 1];
    (((hi as u16) << 8) | (lo as u16)) as i16
}

/// The little-endian value of the four bytes from `bytes[off]`.
pub(crate) fn read_u32_le(bytes: &[u8], off: usize) -> (r: u32)
    requires
        off + 4 <= bytes@.len(),
    ensures
        r == u32_le(bytes@[off as int], bytes@[off + 1], bytes@[off + 2], bytes@[off + 3]),
{
    let b0 = bytes[off];
    let b1 = bytes[off + 1];
    let b2 = bytes[off + 2];
    let b3 = bytes[off + 3];
    ((b3 as u32) << 24) | ((b2 as u32) << 16) | ((b1 as u32) << 8) | (b0 as u32)
}

} // verus!

verus! {

/// Shifting by zero leaves a byte as it is.
pub proof fn lemma_shift_zero(x: u8)
    ensures
        x << 0 == x,
        x >> 0 == x,
{
    assert(x << 0 == x && x >> 0 == x) by (bit_vector);
}

} // verus!

verus! {

/// Writing a bit field with the value it already holds leaves the byte unchanged,
/// whatever high bits the written value carries.
pub proof fn lemma_field_unchanged(byte: u8, shift: u8, width: u8, v: u8)
    requires
        known_field(shift, width),
        field(with_field(byte, shift, width, v), shift, width) == field(byte, shift, width),
    ensures
        with_field(byte, shift, width, v) == byte,
{
    assert(known_field(shift, width) && ((((byte & !(width << shift)) | ((v & width) << shift))
        >> shift) & width) == ((byte >> shift) & width) ==> ((byte & !(width << shift)) | ((v
        & width) << shift)) == byte) by (bit_vector);
}

} // verus!

verus! {

/// The number that the bytes `lo`, `hi` stand for, lowest byte first.
pub open spec fn le_value2(lo: u8, hi: u8) -> int {
    lo + 256 * hi
}

/// The number that four bytes stand for, lowest byte first.
pub open spec fn le_value4(b0: u8, b1: u8, b2: u8, b3: u8) -> int {
    b0 + 256 * b1 + 65536 * b2 + 16777216 * b3
}

/// The two's complement reading of a 16-bit unsigned number.
pub open spec fn signed16(u: int) -> int {
    if u >= 32768 {
        u - 65536
    } else {
        u
    }
}

/// Decoding two bytes gives the two's complement number they stand for,
/// lowest byte first.
pub proof fn lemma_i16_le_value(lo: u8, hi: u8)
    ensures
        i16_le(lo, hi) as int == signed16(le_value2(lo, hi)),
{
    let u = u16_le(lo, hi);
    assert(u == lo + 256 * hi) by (bit_vector)
        requires
            u == ((hi as u16) << 8) | (lo as u16),
    ;
    assert((u as i16) as int == if u >= 32768 {
        u - 65536
    } else {
        u as int
    }) by (bit_vector);
}

/// Decoding four bytes gives the number they stand for, lowest byte first.
pub proof fn lemma_u32_le_value(b0: u8, b1: u8, b2: u8, b3: u8)
    ensures
        u32_le(b0, b1, b2, b3) as int == le_value4(b0, b1, b2, b3),
{
    assert(((b3 as u32) << 24) | ((b2 as u32) << 16) | ((b1 as u32) << 8) | (b0 as u32) == b0
        + 256 * b1 + 65536 * b2 + 16777216 * b3) by (bit_vector);
}

/// The four bytes of a 32-bit number stand for that number, lowest byte first.
pub proof fn lemma_u32_le_bytes_value(x: u32)
    ensures
        u32_le_bytes(x).len() == 4,
        le_value4(u32_le_bytes(x)[0], u32_le_bytes(x)[1], u32_le_bytes(x)[2], u32_le_bytes(x)[3])
            == x,
{
    assert(x == (x as u8) + 256 * ((x >> 8) as u8) + 65536 * ((x >> 16) as u8) + 16777216 * ((x
        >> 24) as u8)) by (bit_vector);
}

/// A one-bit flag is the binary digit of the byte at the mask's place.
pub proof fn lemma_flag_is_binary_digit(byte: u8, mask: u8)
    requires
        single_bit(mask),
    ensures
        flag(byte, mask) == ((byte / mask) % 2 == 1),
{
    assert(single_bit(mask) ==> (((byte & mask) != 0) == ((byte / mask) % 2 == 1)))
        by (bit_vector);
}

} // verus!
