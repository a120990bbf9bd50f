//! Conversions between the raw fields of an instruction word and the signed
//! quantities they stand for.

use vstd::prelude::*;

verus! {

/// The integer that the low twelve bits of `val` denote in two's complement:
/// bit 11 is the sign, so the result lies between -2048 and 2047.
pub open spec fn signed_12bit(val: u16) -> int {
    let low = val as int % 0x1000;
    if low >= 0x800 {
        low - 0x1000
    } else {
        low
    }
}

/// The 16-bit pattern of an 8-bit signed immediate after sign extension.
pub open spec fn sign_extended(imm: i8) -> u16 {
    if imm < 0 {
        (0x1_0000 + imm) as u16
    } else {
        imm as u16
    }
}

/// The signed reading of a byte: values from 128 upwards are negative.
pub open spec fn signed_byte(raw: u8) -> i8 {
    if raw >= 0x80 {
        (raw - 0x100) as i8
    } else {
        raw as i8
    }
}

/// Reads the low twelve bits of `val` as a signed offset. The upper four
/// bits of `val` are ignored.
pub fn convert_12bit_to_signed(val: u16) -> (offset: i16)
    ensures
        offset as int == signed_12bit(val),
        -2048 <= offset <= 2047,
{
    let low = val & 0x0FFF;
    assert(low == val % 0x1000 && ((low & 0x0800 != 0) <==> low >= 0x800) && (low >= 0x800 ==> (low
        | 0xF000) == low + 0xF000)) by (bit_vector)
        requires
            low == val & 0x0FFF,
    ;
    if low & 0x0800 != 0 {
        signed_of_word(low | 0xF000)
    } else {
        signed_of_word(low)
    }
}

/// The signed reading of a 16-bit pattern.
pub open spec fn signed_word(raw: u16) -> i16 {
    if raw >= 0x8000 {
        (raw - 0x1_0000) as i16
    } else {
        raw as i16
    }
}

/// Reinterprets a 16-bit pattern as a signed number.
pub fn signed_of_word(raw: u16) -> (signed: i16)
    ensures
        signed == signed_word(raw),
{
    assert(raw as i16 == signed_word(raw)) by (bit_vector);
    #[verifier::truncate]
    (raw as i16)
}

/// Reinterprets a byte as a signed immediate.
pub fn signed_of_byte(raw: u8) -> (signed: i8)
    ensures
        signed == signed_byte(raw),
{
    assert(raw as i8 == signed_byte(raw)) by (bit_vector);
    #[verifier::truncate]
    (raw as i8)
}

/// Sign-extends an 8-bit immediate to the 16-bit operand that the
/// arithmetic unit adds or subtracts.
pub fn sign_extend(imm: i8) -> (wide: u16)
    ensures
        wide == sign_extended(imm),
{
    assert(imm as u16 == sign_extended(imm)) by (bit_vector);
    #[verifier::truncate]
    (imm as u16)
}

} // verus!
