//! The four condition flags and the rules that set them.

use super::types::signed_word;
use vstd::prelude::*;

verus! {

/// The condition flags. In a 16-bit value they occupy the low four bits:
/// bit 0 is Zero, bit 1 Carry, bit 2 Negative, bit 3 Overflow.
#[derive(Debug, Clone, Copy, PartialEq, Eq, Structural)]
pub struct Flags {
    pub zero: bool,
    pub negative: bool,
    pub carry: bool,
    pub overflow: bool,
}

/// Whether bit 15, the sign bit, is set.
pub open spec fn is_negative(value: u16) -> bool {
    value >= 0x8000
}

/// The sign bit of a 16-bit value.
pub fn sign_bit(value: u16) -> (set: bool)
    ensures
        set == is_negative(value),
{
    assert((value & 0x8000 != 0) == (value >= 0x8000)) by (bit_vector);
    (value & 0x8000) != 0
}

impl Flags {
    /// The flags as a 16-bit value; the upper twelve bits are zero.
    pub open spec fn packed(self) -> u16 {
        ((if self.zero {
            1int
        } else {
            0
        }) + (if self.carry {
            2int
        } else {
            0
        }) + (if self.negative {
            4int
        } else {
            0
        }) + (if self.overflow {
            8int
        } else {
            0
        })) as u16
    }

    /// The flags that the low four bits of `value` hold; the upper twelve
    /// bits are ignored.
    pub open spec fn unpacked(value: u16) -> Flags {
        Flags {
            zero: value % 2 == 1,
            carry: value / 2 % 2 == 1,
            negative: value / 4 % 2 == 1,
            overflow: value / 8 % 2 == 1,
        }
    }

    /// Whether `result`, computed from `a` and `b`, has the wrong sign for
    /// the signed reading of the operands. A sum overflows when both
    /// operands have one sign and the result the other; a difference when
    /// the operands differ in sign and the result has the sign of `b`.
    pub open spec fn overflows(a: u16, b: u16, result: u16, is_subtraction: bool) -> bool {
        let a_sign = is_negative(a);
        let b_sign = is_negative(b);
        let result_sign = is_negative(result);
        if is_subtraction {
            (!a_sign && b_sign && result_sign) || (a_sign && !b_sign && !result_sign)
        } else {
            (!a_sign && !b_sign && result_sign) || (a_sign && b_sign && !result_sign)
        }
    }

    /// The flags after an addition or subtraction.
    pub open spec fn arithmetic(
        a: u16,
        b: u16,
        result: u16,
        carry: bool,
        is_subtraction: bool,
    ) -> Flags {
        Flags {
            zero: result == 0,
            negative: is_negative(result),
            carry,
            overflow: Flags::overflows(a, b, result, is_subtraction),
        }
    }

    /// The flags after a bitwise operation: Carry and Overflow are cleared.
    pub open spec fn logical(result: u16) -> Flags {
        Flags { zero: result == 0, negative: is_negative(result), carry: false, overflow: false }
    }

    /// The flags after a shift: Carry is the last bit shifted out, Overflow
    /// is cleared.
    pub open spec fn shifted(result: u16, last_shifted_bit: bool) -> Flags {
        Flags {
            zero: result == 0,
            negative: is_negative(result),
            carry: last_shifted_bit,
            overflow: false,
        }
    }

    /// Packs the flags into the low four bits of a 16-bit value.
    pub fn as_u16(&self) -> (value: u16)
        ensures
            value == self.packed(),
    {
        let zero: u16 = if self.zero {
            1
        } else {
            0
        };
        let carry: u16 = if self.carry {
            1
        } else {
            0
        };
        let negative: u16 = if self.negative {
            1
        } else {
            0
        };
        let overflow: u16 = if self.overflow {
            1
        } else {
            0
        };
        assert(zero << 0 | carry << 1 | negative << 2 | overflow << 3 == zero + 2 * carry + 4
            * negative + 8 * overflow) by (bit_vector)
            requires
                zero <= 1 && carry <= 1 && negative <= 1 && overflow <= 1,
        ;
        zero << 0 | carry << 1 | negative << 2 | overflow << 3
    }

    /// Replaces the flags by those that the low four bits of `value` hold.
    pub fn from_u16(&mut self, value: u16)
        ensures
            *final(self) == Flags::unpacked(value),
    {
        assert({
            &&& (value & 0x01 != 0) == (value % 2 == 1)
            &&& (value & 0x02 != 0) == (value / 2 % 2 == 1)
            &&& (value & 0x04 != 0) == (value / 4 % 2 == 1)
            &&& (value & 0x08 != 0) == (value / 8 % 2 == 1)
        }) by (bit_vector);
        self.zero = (value & 0x01) != 0;
        self.carry = (value & 0x02) != 0;
        self.negative = (value & 0x04) != 0;
        self.overflow = (value & 0x08) != 0;
    }

    /// Packing loses nothing: unpacking gives the same flags back.
    pub proof fn lemma_unpacked_of_packed(self)
        ensures
            Flags::unpacked(self.packed()) == self,
            self.packed() < 16,
    {
    }

    /// Unpacking keeps exactly the low four bits.
    pub proof fn lemma_packed_of_unpacked(value: u16)
        ensures
            Flags::unpacked(value).packed() == value % 16,
    {
    }

    /// The sign rule for a sum agrees with arithmetic: it reports an
    /// overflow exactly when the sum of the operands, read as signed
    /// numbers, does not fit in sixteen bits.
    pub proof fn lemma_overflow_of_sum(a: u16, b: u16)
        ensures
            Flags::overflows(a, b, wrapped_sum(a, b), false) <==> !(-0x8000 <= signed_word(a) + signed_word(b)
                <= 0x7FFF),
    {
    }

    /// The sign rule for a difference agrees with arithmetic: it reports an
    /// overflow exactly when the difference of the operands, read as signed
    /// numbers, does not fit in sixteen bits.
    pub proof fn lemma_overflow_of_difference(a: u16, b: u16)
        ensures
            Flags::overflows(a, b, wrapped_difference(a, b), true) <==> !(-0x8000 <= signed_word(a)
                - signed_word(b) <= 0x7FFF),
    {
    }
}

impl Default for Flags {
    /// All four flags clear.
    fn default() -> (flags: Flags)
        ensures
            flags == (Flags { zero: false, negative: false, carry: false, overflow: false }),
    {
        Flags { zero: false, negative: false, carry: false, overflow: false }
    }
}

/// The sum of two 16-bit values, reduced to sixteen bits.
pub open spec fn wrapped_sum(a: u16, b: u16) -> u16 {
    if a + b > 0xFFFF {
        (a + b - 0x1_0000) as u16
    } else {
        (a + b) as u16
    }
}

/// The difference of two 16-bit values, reduced to sixteen bits.
pub open spec fn wrapped_difference(a: u16, b: u16) -> u16 {
    if a < b {
        (a - b + 0x1_0000) as u16
    } else {
        (a - b) as u16
    }
}

} // verus!
