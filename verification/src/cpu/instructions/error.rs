//! The ways in which an instruction word can fail to denote an instruction.

use super::super::text::{digits, push_digits};
use vstd::prelude::*;

verus! {

/// Why a word was rejected by the decoder.
#[derive(Debug, Clone, Copy, PartialEq, Eq, Structural)]
pub enum InstructionError {
    /// An R-type word whose (opcode, funct) pair names no operation.
    InvalidRType(u8, u8),
    /// An I-type word whose opcode names no operation.
    InvalidIType(u8),
    /// A J-type word whose opcode names no jump.
    InvalidJType(u8),
    /// An E-type word whose subcode names no operation.
    InvalidEType(u8),
    /// A register field outside 0-7.
    InvalidRegister(u8),
    /// A special-register selector outside 0-2.
    InvalidSpecialRegister(u8),
}

impl InstructionError {
    /// The message of the error. Opcodes, function codes and subcodes are
    /// given in hexadecimal, register numbers in decimal.
    pub open spec fn message(self) -> Seq<char> {
        match self {
            InstructionError::InvalidRType(op, funct) => "invalid r-type OP=0x"@ + digits(
                op as nat,
                16,
            ) + " FUNCT=0x"@ + digits(funct as nat, 16),
            InstructionError::InvalidIType(op) => "invalid i-type OP=0x"@ + digits(op as nat, 16),
            InstructionError::InvalidJType(op) => "invalid j-type OP=0x"@ + digits(op as nat, 16),
            InstructionError::InvalidEType(sub) => "invalid e-type OP=0x"@ + digits(
                sub as nat,
                16,
            ),
            InstructionError::InvalidRegister(idx) => "register must be 0-7, given "@ + digits(
                idx as nat,
                10,
            ),
            InstructionError::InvalidSpecialRegister(idx) => "special register must be 0-2, given "@
                + digits(idx as nat, 10),
        }
    }

    /// Appends the message of the error.
    pub fn push_message(&self, out: &mut String)
        ensures
            final(out)@ == old(out)@ + self.message(),
    {
        match self {
            InstructionError::InvalidRType(op, funct) => {
                out.append("invalid r-type OP=0x");
                push_digits(out, *op as u16, 16);
                out.append(" FUNCT=0x");
                push_digits(out, *funct as u16, 16);
            },
            InstructionError::InvalidIType(op) => {
                out.append("invalid i-type OP=0x");
                push_digits(out, *op as u16, 16);
            },
            InstructionError::InvalidJType(op) => {
                out.append("invalid j-type OP=0x");
                push_digits(out, *op as u16, 16);
            },
            InstructionError::InvalidEType(sub) => {
                out.append("invalid e-type OP=0x");
                push_digits(out, *sub as u16, 16);
            },
            InstructionError::InvalidRegister(idx) => {
                out.append("register must be 0-7, given ");
                push_digits(out, *idx as u16, 10);
            },
            InstructionError::InvalidSpecialRegister(idx) => {
                out.append("special register must be 0-2, given ");
                push_digits(out, *idx as u16, 10);
            },
        }
        assert(out@ =~= old(out)@ + self.message());
    }

    /// The message of the error.
    pub fn to_string(&self) -> (text: String)
        ensures
            text@ == self.message(),
    {
        let mut text = String::new();
        self.push_message(&mut text);
        assert(text@ =~= self.message());
        text
    }
}

} // verus!
