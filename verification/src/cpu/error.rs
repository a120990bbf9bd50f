//! The faults that stop a run.

use super::instructions::error::InstructionError;
use super::instructions::register::{Register, SpecialRegister};
use super::instructions::word::Word;
use super::memory::MemoryError;
use super::text::{digits, push_digits};
use vstd::prelude::*;
use vstd::std_specs::convert::FromSpecImpl;

verus! {

/// A fault of the execution engine. Every fault is final for the run in
/// which it occurs.
#[derive(Debug, Clone, Copy, PartialEq, Eq, Structural)]
pub enum CpuError {
    /// The fetched word denotes no instruction.
    InvalidInstruction(Word, InstructionError),
    /// A register that the operation cannot work on.
    InvalidRegister(Register),
    /// A special register that the operation cannot work on.
    InvalidSpecialRegister(SpecialRegister),
    /// A word access would reach past the last byte of memory.
    MemoryOutOfBounds(MemoryError),
    /// The instruction at `pc`, which ends at `iend`, does not lie within
    /// the loaded program, which occupies the addresses from `low` up to,
    /// not including, `high`.
    ProgramBoundsViolation { pc: u16, iend: u16, low: u16, high: u16 },
    /// The stack pointer would leave its range.
    StackOverflow,
    /// The instruction is reserved and has no behaviour.
    NotImplementedYet,
}

impl From<MemoryError> for CpuError {
    fn from(err: MemoryError) -> (fault: CpuError) {
        CpuError::MemoryOutOfBounds(err)
    }
}

impl FromSpecImpl<MemoryError> for CpuError {
    open spec fn obeys_from_spec() -> bool {
        true
    }

    open spec fn from_spec(err: MemoryError) -> CpuError {
        CpuError::MemoryOutOfBounds(err)
    }
}

impl CpuError {
    /// The message of the fault. Words and addresses are given in
    /// hexadecimal, register numbers in decimal.
    pub open spec fn message(self) -> Seq<char> {
        match self {
            CpuError::InvalidInstruction(w, err) => "invalid instruction 0x"@ + digits(
                w.bits() as nat,
                16,
            ) + ": "@ + err.message(),
            CpuError::MemoryOutOfBounds(MemoryError::OutOfBounds(addr)) => {
                "memory out of bounds addr=0x"@ + digits(addr as nat, 16)
            },
            CpuError::ProgramBoundsViolation { pc, iend, low, high } => {
                "program bounds violation pc=0x"@ + digits(pc as nat, 16) + " end=0x"@ + digits(
                    iend as nat,
                    16,
                ) + " low=0x"@ + digits(low as nat, 16) + " high=0x"@ + digits(high as nat, 16)
            },
            CpuError::StackOverflow => "stack overflow"@,
            CpuError::NotImplementedYet => "instruction is not implemented yet"@,
            CpuError::InvalidRegister(reg) => "invalid register "@ + digits(
                reg.index() as nat,
                10,
            ),
            CpuError::InvalidSpecialRegister(reg) => "invalid special register "@ + digits(
                reg.index() as nat,
                10,
            ),
        }
    }

    /// The message of the fault.
    pub fn to_string(&self) -> (text: String)
        ensures
            text@ == self.message(),
    {
        let mut text = String::new();
        match self {
            CpuError::InvalidInstruction(w, err) => {
                text.append("invalid instruction 0x");
                push_digits(&mut text, w.to_bits(), 16);
                text.append(": ");
                err.push_message(&mut text);
            },
            CpuError::MemoryOutOfBounds(MemoryError::OutOfBounds(addr)) => {
                text.append("memory out of bounds addr=0x");
                push_digits(&mut text, *addr, 16);
            },
            CpuError::ProgramBoundsViolation { pc, iend, low, high } => {
                text.append("program bounds violation pc=0x");
                push_digits(&mut text, *pc, 16);
                text.append(" end=0x");
                push_digits(&mut text, *iend, 16);
                text.append(" low=0x");
                push_digits(&mut text, *low, 16);
                text.append(" high=0x");
                push_digits(&mut text, *high, 16);
            },
            CpuError::StackOverflow => {
                text.append("stack overflow");
            },
            CpuError::NotImplementedYet => {
                text.append("instruction is not implemented yet");
            },
            CpuError::InvalidRegister(reg) => {
                text.append("invalid register ");
                push_digits(&mut text, reg.idx() as u16, 10);
            },
            CpuError::InvalidSpecialRegister(reg) => {
                text.append("invalid special register ");
                push_digits(&mut text, reg.idx() as u16, 10);
            },
        }
        assert(text@ =~= self.message());
        text
    }
}

} // verus!
