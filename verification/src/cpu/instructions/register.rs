//! The registers that an instruction can name.

use super::error::InstructionError;
use vstd::prelude::*;
use vstd::std_specs::convert::FromSpecImpl;

verus! {

/// A register of the machine. `R0` to `R7` are the general registers, which
/// the 3-bit register fields of an instruction word select; `SP`, `PC` and
/// `FLAGS` are reached only through the special-register moves.
#[derive(Debug, Clone, Copy, PartialEq, Eq, Structural)]
pub enum Register {
    R0,
    R1,
    R2,
    R3,
    R4,
    R5,
    R6,
    R7,
    SP,
    PC,
    FLAGS,
}

impl Register {
    /// The number of a register: 0-7 for the general registers, then 8 for
    /// `SP`, 9 for `PC` and 10 for `FLAGS`.
    pub open spec fn index(self) -> u8 {
        match self {
            Register::R0 => 0,
            Register::R1 => 1,
            Register::R2 => 2,
            Register::R3 => 3,
            Register::R4 => 4,
            Register::R5 => 5,
            Register::R6 => 6,
            Register::R7 => 7,
            Register::SP => 8,
            Register::PC => 9,
            Register::FLAGS => 10,
        }
    }

    /// One of `R0` to `R7`.
    pub open spec fn is_general(self) -> bool {
        self.index() < 8
    }

    /// One of `SP`, `PC` and `FLAGS`.
    pub open spec fn is_special(self) -> bool {
        self.index() >= 8
    }

    /// The general register with the given number; `R7` stands for every
    /// number above 7.
    pub open spec fn general(id: u8) -> Register {
        if id == 0 {
            Register::R0
        } else if id == 1 {
            Register::R1
        } else if id == 2 {
            Register::R2
        } else if id == 3 {
            Register::R3
        } else if id == 4 {
            Register::R4
        } else if id == 5 {
            Register::R5
        } else if id == 6 {
            Register::R6
        } else {
            Register::R7
        }
    }

    /// The name of a register in assembly text.
    pub open spec fn name(self) -> Seq<char> {
        match self {
            Register::R0 => "R0"@,
            Register::R1 => "R1"@,
            Register::R2 => "R2"@,
            Register::R3 => "R3"@,
            Register::R4 => "R4"@,
            Register::R5 => "R5"@,
            Register::R6 => "R6"@,
            Register::R7 => "R7"@,
            Register::SP => "SP"@,
            Register::PC => "PC"@,
            Register::FLAGS => "FLAGS"@,
        }
    }

    /// Appends the name of the register.
    pub fn push_name(self, out: &mut String)
        ensures
            final(out)@ == old(out)@ + self.name(),
    {
        match self {
            Register::R0 => out.append("R0"),
            Register::R1 => out.append("R1"),
            Register::R2 => out.append("R2"),
            Register::R3 => out.append("R3"),
            Register::R4 => out.append("R4"),
            Register::R5 => out.append("R5"),
            Register::R6 => out.append("R6"),
            Register::R7 => out.append("R7"),
            Register::SP => out.append("SP"),
            Register::PC => out.append("PC"),
            Register::FLAGS => out.append("FLAGS"),
        }
    }

    /// The number of the register.
    pub fn idx(self) -> (id: u8)
        ensures
            id == self.index(),
    {
        match self {
            Register::R0 => 0,
            Register::R1 => 1,
            Register::R2 => 2,
            Register::R3 => 3,
            Register::R4 => 4,
            Register::R5 => 5,
            Register::R6 => 6,
            Register::R7 => 7,
            Register::SP => 8,
            Register::PC => 9,
            Register::FLAGS => 10,
        }
    }

    /// The general register that a 3-bit register field selects. Numbers
    /// above 7 are rejected: the special registers have no number here.
    pub fn new(id: u8) -> (reg: Result<Register, InstructionError>)
        ensures
            id <= 7 ==> reg == Ok::<Register, InstructionError>(Register::general(id)),
            id > 7 ==> reg == Err::<Register, InstructionError>(
                InstructionError::InvalidRegister(id),
            ),
    {
        let reg = match id {
            0 => Register::R0,
            1 => Register::R1,
            2 => Register::R2,
            3 => Register::R3,
            4 => Register::R4,
            5 => Register::R5,
            6 => Register::R6,
            7 => Register::R7,
            _ => return Err(InstructionError::InvalidRegister(id)),
        };

        Ok(reg)
    }

    /// `general` inverts `index` on the numbers 0-7, and yields general
    /// registers only.
    pub proof fn lemma_general(id: u8)
        ensures
            Register::general(id).is_general(),
            id <= 7 ==> Register::general(id).index() == id,
    {
    }

    /// A register is determined by its number.
    pub proof fn lemma_index_injective(a: Register, b: Register)
        requires
            a.index() == b.index(),
        ensures
            a == b,
    {
    }
}

impl From<Register> for u8 {
    /// The number of the register.
    fn from(reg: Register) -> (id: u8) {
        reg.idx()
    }
}

impl FromSpecImpl<Register> for u8 {
    open spec fn obeys_from_spec() -> bool {
        true
    }

    open spec fn from_spec(reg: Register) -> u8 {
        reg.index()
    }
}

/// A selector for one of the three special registers, as the
/// special-register moves encode it.
#[derive(Debug, Clone, Copy, PartialEq, Eq, Structural)]
pub enum SpecialRegister {
    PC,
    SP,
    FLAGS,
}

impl SpecialRegister {
    /// The selector value: 0 for `PC`, 1 for `SP`, 2 for `FLAGS`.
    pub open spec fn index(self) -> u8 {
        match self {
            SpecialRegister::PC => 0,
            SpecialRegister::SP => 1,
            SpecialRegister::FLAGS => 2,
        }
    }

    /// The special register with the given selector value; `FLAGS` stands
    /// for every value above 2.
    pub open spec fn select(id: u8) -> SpecialRegister {
        if id == 0 {
            SpecialRegister::PC
        } else if id == 1 {
            SpecialRegister::SP
        } else {
            SpecialRegister::FLAGS
        }
    }

    /// The register that the selector names.
    pub open spec fn as_register(self) -> Register {
        match self {
            SpecialRegister::PC => Register::PC,
            SpecialRegister::SP => Register::SP,
            SpecialRegister::FLAGS => Register::FLAGS,
        }
    }

    /// The selector value.
    pub fn idx(self) -> (id: u8)
        ensures
            id == self.index(),
    {
        match self {
            SpecialRegister::PC => 0,
            SpecialRegister::SP => 1,
            SpecialRegister::FLAGS => 2,
        }
    }

    /// The special register that a selector value names. Values above 2 are
    /// rejected.
    pub fn new(id: u8) -> (reg: Result<SpecialRegister, InstructionError>)
        ensures
            id <= 2 ==> reg == Ok::<SpecialRegister, InstructionError>(SpecialRegister::select(id)),
            id > 2 ==> reg == Err::<SpecialRegister, InstructionError>(
                InstructionError::InvalidSpecialRegister(id),
            ),
    {
        let reg = match id {
            0 => SpecialRegister::PC,
            1 => SpecialRegister::SP,
            2 => SpecialRegister::FLAGS,
            _ => return Err(InstructionError::InvalidSpecialRegister(id)),
        };

        Ok(reg)
    }

    /// The register that the selector names.
    pub fn register(self) -> (reg: Register)
        ensures
            reg == self.as_register(),
    {
        match self {
            SpecialRegister::PC => Register::PC,
            SpecialRegister::SP => Register::SP,
            SpecialRegister::FLAGS => Register::FLAGS,
        }
    }

    /// `select` inverts `index` on the values 0-2, and a selector always
    /// names a special register.
    pub proof fn lemma_select(id: u8)
        ensures
            SpecialRegister::select(id).as_register().is_special(),
            id <= 2 ==> SpecialRegister::select(id).index() == id,
    {
    }
}

} // verus!
