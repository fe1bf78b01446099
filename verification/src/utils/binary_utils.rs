use vstd::prelude::*;

verus! {

/// Two's-complement value of the low 12 bits of `v`.
pub open spec fn sext12(v: u16) -> int {
    let low = (v & 0xfff) as int;
    if low >= 0x800 {
        low - 0x1000
    } else {
        low
    }
}

/// Reinterprets the bits of a `u8` as an `i8`.
pub fn u8_to_i8(value: u8) -> (r: i8)
    ensures
        r == value as i8,
{
    value as i8
}

/// Reinterprets the bits of an `i8` as a `u8`.
pub fn i8_to_u8(value: i8) -> (r: u8)
    ensures
        r == value as u8,
{
    value as u8
}

/// Reinterprets the bits of a `u16` as an `i16`.
pub fn u16_to_i16(value: u16) -> (r: i16)
    ensures
        r == value as i16,
{
    value as i16
}

/// Reinterprets the bits of an `i16` as a `u16`.
pub fn i16_to_u16(value: i16) -> (r: u16)
    ensures
        r == value as u16,
{
    value as u16
}

/// Reinterprets the bits of a `u32` as an `i32`.
pub fn u32_to_i32(value: u32) -> (r: i32)
    ensures
        r == value as i32,
{
    value as i32
}

/// Reinterprets the bits of an `i32` as a `u32`.
pub fn i32_to_u32(value: i32) -> (r: u32)
    ensures
        r == value as u32,
{
    value as u32
}

/// Reinterprets the bits of a `u64` as an `i64`.
pub fn u64_to_i64(value: u64) -> (r: i64)
    ensures
        r == value as i64,
{
    value as i64
}

/// Reinterprets the bits of an `i64` as a `u64`.
pub fn i64_to_u64(value: i64) -> (r: u64)
    ensures
        r == value as u64,
{
    value as u64
}

/// Sign-extends the low 12 bits of `value` to 16 bits.
pub fn sign_extend_12bit_to_16bit(value: u16) -> (r: i16)
    ensures
        r == sext12(value),
{
    let shifted: u16 = value << 4u16;
    let r: i16 = (shifted as i16) >> 4u16;
    assert(r == (if (value & 0xfff) >= 0x800 { (value & 0xfff) - 0x1000 } else { (value & 0xfff) as int })) by (bit_vector)
        requires
            shifted == value << 4u16,
            r == (shifted as i16) >> 4u16,
    ;
    r
}

/// Sign-extends the low 12 bits of `value` to 32 bits.
pub fn sign_extend_12bit_to_32bit(value: u16) -> (r: i32)
    ensures
        r == sext12(value),
{
    let shifted: u32 = (value as u32) << 20u32;
    let r: i32 = (shifted as i32) >> 20u32;
    assert(r == (if (value & 0xfff) >= 0x800 { (value & 0xfff) - 0x1000 } else { (value & 0xfff) as int })) by (bit_vector)
        requires
            shifted == (value as u32) << 20u32,
            r == (shifted as i32) >> 20u32,
    ;
    r
}

/// Sign-extends the low 12 bits of `value` to 64 bits.
pub fn sign_extend_12bit_to_64bit(value: u16) -> (r: i64)
    ensures
        r == sext12(value),
{
    let narrow = sign_extend_12bit_to_32bit(value);
    narrow as i64
}

/// Sign-extends the low 5 bits of `value` to 32 bits and returns the bit pattern.
pub fn sign_extend_5bit_to_32bit(value: u8) -> (r: u32)
    ensures
        r as i32 == (if (value & 0x1f) >= 0x10 { (value & 0x1f) - 0x20 } else { (value & 0x1f) as int }),
{
    let shifted: u32 = (value as u32) << 27u32;
    let s: i32 = (shifted as i32) >> 27u32;
    assert(s == (if (value & 0x1f) >= 0x10 { (value & 0x1f) - 0x20 } else { (value & 0x1f) as int })) by (bit_vector)
        requires
            shifted == (value as u32) << 27u32,
            s == (shifted as i32) >> 27u32,
    ;
    let r: u32 = s as u32;
    assert(r as i32 == s) by (bit_vector)
        requires
            r == s as u32,
    ;
    r
}

/// Sign-extends a 32-bit pattern to a 64-bit signed value.
pub fn sign_extend_32bit_to_64bit(value: u32) -> (r: i64)
    ensures
        r == value as i32,
{
    (value as i32) as i64
}

} // verus!
