//! Little-endian byte fields.
use vstd::prelude::*;

verus! {

/// The `n` least significant bytes of `value`, least significant first.
pub open spec fn le_bytes(value: nat, n: nat) -> Seq<u8> {
    Seq::new(n, |i: int| byte_at(value, i as nat))
}

/// Byte `i` of `value`, counted from the least significant one; `i` is at most three.
pub open spec fn byte_at(value: nat, i: nat) -> u8 {
    if i == 0 {
        (value % 256) as u8
    } else if i == 1 {
        (value / 256 % 256) as u8
    } else if i == 2 {
        (value / 65536 % 256) as u8
    } else {
        (value / 16777216 % 256) as u8
    }
}

/// The number whose three bytes, least significant first, are `b0`, `b1` and `b2`.
pub open spec fn u24_of(b0: u8, b1: u8, b2: u8) -> u32 {
    (b0 + 256 * b1 + 65536 * b2) as u32
}

/// The two's complement number whose two bytes, least significant first, are `b0` and `b1`.
pub open spec fn i16_of(b0: u8, b1: u8) -> i16 {
    let unsigned = b0 + 256 * b1;
    if unsigned < 0x8000 {
        unsigned as i16
    } else {
        (unsigned - 0x10000) as i16
    }
}

/// The two bytes, least significant first, of `value` in two's complement.
pub open spec fn i16_bytes(value: i16) -> Seq<u8> {
    if value >= 0 {
        le_bytes(value as nat, 2)
    } else {
        le_bytes((value + 0x10000) as nat, 2)
    }
}

/// The low byte of a 16-bit field.
pub fn low_byte(value: u16) -> (byte: u8)
    ensures
        byte == value % 256,
{
    assert(value as u8 == value % 256) by (bit_vector);
    value as u8
}

/// The high byte of a 16-bit field.
pub fn high_byte(value: u16) -> (byte: u8)
    ensures
        byte == value / 256,
{
    assert((value >> 8) as u8 == value / 256) by (bit_vector);
    (value >> 8) as u8
}

/// The three low bytes of a 32-bit number, least significant first.
pub fn u24_to_le(value: u32) -> (bytes: [u8; 3])
    ensures
        bytes@ == le_bytes(value as nat, 3),
{
    assert((value & 0xFF) as u8 == value % 256) by (bit_vector);
    assert(((value >> 8) & 0xFF) as u8 == value / 256 % 256) by (bit_vector);
    assert(((value >> 16) & 0xFF) as u8 == value / 65536 % 256) by (bit_vector);
    let bytes: [u8; 3] = [
        (value & 0xFF) as u8,
        ((value >> 8) & 0xFF) as u8,
        ((value >> 16) & 0xFF) as u8,
    ];
    assert(bytes@ =~= le_bytes(value as nat, 3));
    bytes
}

/// The number with the given three bytes, least significant first.
pub fn u24_from_le(b0: u8, b1: u8, b2: u8) -> (value: u32)
    ensures
        value == u24_of(b0, b1, b2),
{
    let value: u32 = (b0 as u32) | (b1 as u32) << 8 | (b2 as u32) << 16;
    assert((b0 as u32) | (b1 as u32) << 8 | (b2 as u32) << 16 == b0 + 256 * b1 + 65536 * b2)
        by (bit_vector);
    value
}

/// The two's complement number with the given two bytes, least significant first.
pub fn i16_from_le(b0: u8, b1: u8) -> (value: i16)
    ensures
        value == i16_of(b0, b1),
{
    let unsigned: u16 = (b0 as u16) | (b1 as u16) << 8;
    assert((b0 as u16) | (b1 as u16) << 8 == b0 + 256 * b1) by (bit_vector);
    assert(unsigned < 0x8000 ==> unsigned as i16 == unsigned) by (bit_vector);
    assert(unsigned >= 0x8000 ==> unsigned as i16 == unsigned - 0x10000) by (bit_vector);
    unsigned as i16
}

/// The two bytes of a two's complement number, least significant first.
pub fn i16_to_le(value: i16) -> (bytes: [u8; 2])
    ensures
        bytes@ == i16_bytes(value),
{
    let unsigned: u16 = value as u16;
    assert(value >= 0 ==> value as u16 == value) by (bit_vector);
    assert(value < 0 ==> value as u16 == value + 0x10000) by (bit_vector);
    let bytes: [u8; 2] = [low_byte(unsigned), high_byte(unsigned)];
    assert(bytes@ =~= i16_bytes(value));
    bytes
}

/// A 24-bit number survives being cut into three bytes and put together again.
pub proof fn u24_round_trip(value: u32)
    requires
        value < 0x1000000,
    ensures
        u24_of(
            byte_at(value as nat, 0),
            byte_at(value as nat, 1),
            byte_at(value as nat, 2),
        ) == value,
{
}

/// Three bytes survive being put together to a number and cut apart again.
pub proof fn u24_bytes_round_trip(b0: u8, b1: u8, b2: u8)
    ensures
        le_bytes(u24_of(b0, b1, b2) as nat, 3) == seq![b0, b1, b2],
{
    assert(le_bytes(u24_of(b0, b1, b2) as nat, 3) =~= seq![b0, b1, b2]);
}

/// A 16-bit two's complement number survives being cut into two bytes and put together again.
pub proof fn i16_round_trip(value: i16)
    ensures
        i16_of(i16_bytes(value)[0], i16_bytes(value)[1]) == value,
{
}

/// Two bytes survive being put together to a two's complement number and cut apart again.
pub proof fn i16_bytes_round_trip(b0: u8, b1: u8)
    ensures
        i16_bytes(i16_of(b0, b1)) == seq![b0, b1],
{
    assert(i16_bytes(i16_of(b0, b1)) =~= seq![b0, b1]);
}

} // verus!
