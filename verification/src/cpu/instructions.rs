//! Instruction words and the operations they stand for.

pub mod error;
pub mod register;
pub mod word;

use error::InstructionError;
use register::Register as R;
use register::SpecialRegister;
use super::text::{digits, number, push_digits, push_number, push_signed, signed_decimal};
use vstd::prelude::*;
use word::Word;

verus! {

/// The five kinds of jump.
#[derive(Debug, Clone, Copy, PartialEq, Eq, Structural)]
pub enum Jump {
    /// Push the return address, then jump.
    Call,
    /// Jump always.
    Unconditional,
    /// Jump if the Zero flag is set.
    Zero,
    /// Jump if the Zero flag is clear.
    NotZero,
    /// Jump if the last comparison found its left operand greater, as
    /// signed numbers.
    GreaterThan,
}

/// An operation of the machine with its operands.
#[allow(inconsistent_fields)]
#[derive(Debug, Clone, Copy, PartialEq, Eq, Structural)]
pub enum Instruction {
    /// `rd := rs + rt`
    Add { rd: R, rs: R, rt: R },
    /// `rd := rs - rt`
    Sub { rd: R, rs: R, rt: R },
    /// `rd := rs & rt`
    And { rd: R, rs: R, rt: R },
    /// `rd := rs | rt`
    Or { rd: R, rs: R, rt: R },
    /// `rd := rs ^ rt`
    Xor { rd: R, rs: R, rt: R },
    /// `rd := !R0`, the complement of the constant zero: all ones. The
    /// operation reads `rt`, but its result does not depend on it.
    Not { rd: R, rt: R },
    /// Shift left: `rd := rs << (rt & 0xF)`
    Sll { rd: R, rs: R, rt: R },
    /// Shift right: `rd := rs >> (rt & 0xF)`
    Shr { rd: R, rs: R, rt: R },
    /// Load a word into `rd` from the address that is the number of `rs`.
    LoadIndirect { rd: R, rs: R },
    /// Store `rd` as a word at the address that is the number of `rs`.
    StoreIndirect { rd: R, rs: R },
    /// Compare `rs` with `rt`: set the flags of `rs - rt`.
    Cmp { rs: R, rt: R },
    /// Pop the program counter.
    Return,
    /// Push `rs` on the stack.
    Push { rs: R },
    /// Pop the stack into `rd`.
    Pop { rd: R },
    /// `rt := rt + imm`, the immediate signed.
    AddImmediate { rt: R, imm: i8 },
    /// `rt := rt & imm`, the immediate unsigned.
    AndImmediate { rt: R, imm: u8 },
    /// The OR-immediate opcode. It masks as `AndImmediate` does:
    /// `rt := rt & imm`, the immediate unsigned.
    OrImmediate { rt: R, imm: u8 },
    /// `rt := imm << 8`
    LoadUperImmediate { rt: R, imm: u8 },
    /// Compare `rt` with the signed immediate.
    CmpImmediate { rt: R, imm: i8 },
    /// Load a word into `rt` from a literal address.
    Load { rt: R, addr: u8 },
    /// Store `rt` as a word at a literal address.
    Store { rt: R, addr: u8 },
    /// Jump relative to the program counter; `offset` is the raw 12-bit
    /// two's-complement field.
    Jump { jump_type: Jump, offset: u16 },
    /// `rt := spec`, where `spec` is a special register.
    MoveFromSpecial { rt: R, spec: R },
    /// `spec := rt`, where `spec` is a special register.
    MoveFromToSpecial { rt: R, spec: R },
    /// Do nothing.
    Nop,
    /// Stop the machine.
    Halt,
    /// Reserved for system calls; has no behaviour yet.
    Sysall,
}

impl Instruction {
    /// The operation that an (opcode, funct) pair of an R-type word names.
    pub open spec fn r_type(opcode: u8, funct: u8, rd: R, rs: R, rt: R) -> Option<Instruction> {
        if opcode == 0x0 && funct == 0x0 {
            Some(Instruction::Add { rd, rs, rt })
        } else if opcode == 0x0 && funct == 0x1 {
            Some(Instruction::Sub { rd, rs, rt })
        } else if opcode == 0x0 && funct == 0x2 {
            Some(Instruction::And { rd, rs, rt })
        } else if opcode == 0x0 && funct == 0x3 {
            Some(Instruction::Or { rd, rs, rt })
        } else if opcode == 0x0 && funct == 0x4 {
            Some(Instruction::Xor { rd, rs, rt })
        } else if opcode == 0x0 && funct == 0x5 {
            Some(Instruction::Not { rd, rt })
        } else if opcode == 0x0 && funct == 0x6 {
            Some(Instruction::Sll { rd, rs, rt })
        } else if opcode == 0x0 && funct == 0x7 {
            Some(Instruction::Shr { rd, rs, rt })
        } else if opcode == 0x1 && funct == 0x0 {
            Some(Instruction::LoadIndirect { rd, rs })
        } else if opcode == 0x1 && funct == 0x1 {
            Some(Instruction::StoreIndirect { rd, rs })
        } else if opcode == 0x1 && funct == 0x2 {
            Some(Instruction::Cmp { rs, rt })
        } else if opcode == 0x1 && funct == 0x3 {
            Some(Instruction::Return)
        } else if opcode == 0x1 && funct == 0x4 {
            Some(Instruction::Push { rs })
        } else if opcode == 0x1 && funct == 0x5 {
            Some(Instruction::Pop { rd })
        } else {
            None
        }
    }

    /// The operation that the opcode of an I-type word names. Arithmetic
    /// and comparison read the immediate as signed, the others as unsigned.
    pub open spec fn i_type(opcode: u8, rt: R, imm: u8) -> Option<Instruction> {
        if opcode == 0x2 {
            Some(Instruction::Load { rt, addr: imm })
        } else if opcode == 0x3 {
            Some(Instruction::Store { rt, addr: imm })
        } else if opcode == 0x4 {
            Some(Instruction::AddImmediate { rt, imm: super::types::signed_byte(imm) })
        } else if opcode == 0x5 {
            Some(Instruction::AndImmediate { rt, imm })
        } else if opcode == 0x6 {
            Some(Instruction::OrImmediate { rt, imm })
        } else if opcode == 0x7 {
            Some(Instruction::LoadUperImmediate { rt, imm })
        } else if opcode == 0x8 {
            Some(Instruction::CmpImmediate { rt, imm: super::types::signed_byte(imm) })
        } else {
            None
        }
    }

    /// The kind of jump that the opcode of a J-type word names.
    pub open spec fn j_type(opcode: u8) -> Option<Jump> {
        if opcode == 0x9 {
            Some(Jump::Call)
        } else if opcode == 0xA {
            Some(Jump::Unconditional)
        } else if opcode == 0xB {
            Some(Jump::Zero)
        } else if opcode == 0xC {
            Some(Jump::NotZero)
        } else if opcode == 0xD {
            Some(Jump::GreaterThan)
        } else {
            None
        }
    }

    /// The operation that an E-type word names. In the move from a special
    /// register the `rt` field selects the special register and `rs` the
    /// general one; in the move to a special register it is the reverse.
    /// In either move the `rt` field is examined before the `rs` field.
    pub open spec fn e_type(subcode: u8, rs: u8, rt: u8) -> Result<Instruction, InstructionError> {
        if subcode == 0x0 {
            Ok(Instruction::Nop)
        } else if subcode == 0xE {
            Ok(Instruction::Sysall)
        } else if subcode == 0xF {
            Ok(Instruction::Halt)
        } else if subcode == 0x1 {
            if rt > 2 {
                Err(InstructionError::InvalidSpecialRegister(rt))
            } else if rs > 7 {
                Err(InstructionError::InvalidRegister(rs))
            } else {
                Ok(
                    Instruction::MoveFromSpecial {
                        rt: R::general(rs),
                        spec: SpecialRegister::select(rt).as_register(),
                    },
                )
            }
        } else if subcode == 0x2 {
            if rt > 7 {
                Err(InstructionError::InvalidRegister(rt))
            } else if rs > 2 {
                Err(InstructionError::InvalidSpecialRegister(rs))
            } else {
                Ok(
                    Instruction::MoveFromToSpecial {
                        rt: R::general(rt),
                        spec: SpecialRegister::select(rs).as_register(),
                    },
                )
            }
        } else {
            Err(InstructionError::InvalidEType(subcode))
        }
    }

    /// What a word decodes to. Register fields are examined before the
    /// operation is looked up, `rd` first, then `rs`, then `rt`.
    pub open spec fn decoded(w: Word) -> Result<Instruction, InstructionError> {
        match w {
            Word::RType { opcode, rd, rs, rt, funct } => {
                if rd > 7 {
                    Err(InstructionError::InvalidRegister(rd))
                } else if rs > 7 {
                    Err(InstructionError::InvalidRegister(rs))
                } else if rt > 7 {
                    Err(InstructionError::InvalidRegister(rt))
                } else {
                    match Instruction::r_type(
                        opcode,
                        funct,
                        R::general(rd),
                        R::general(rs),
                        R::general(rt),
                    ) {
                        Some(instruction) => Ok(instruction),
                        None => Err(InstructionError::InvalidRType(opcode, funct)),
                    }
                }
            },
            Word::IType { opcode, rt, imm } => {
                if rt > 7 {
                    Err(InstructionError::InvalidRegister(rt))
                } else {
                    match Instruction::i_type(opcode, R::general(rt), imm) {
                        Some(instruction) => Ok(instruction),
                        None => Err(InstructionError::InvalidIType(opcode)),
                    }
                }
            },
            Word::JType { opcode, offset } => {
                match Instruction::j_type(opcode) {
                    Some(jump_type) => Ok(Instruction::Jump { jump_type, offset }),
                    None => Err(InstructionError::InvalidJType(opcode)),
                }
            },
            Word::EType { subcode, rs, rt } => Instruction::e_type(subcode, rs, rt),
        }
    }

    /// Every register operand is of the class that the operation expects:
    /// general registers everywhere, but for the special register of the
    /// two special-register moves.
    pub open spec fn is_valid(self) -> bool {
        match self {
            Instruction::Add { rd, rs, rt } => rd.is_general() && rs.is_general() && rt.is_general(),
            Instruction::Sub { rd, rs, rt } => rd.is_general() && rs.is_general() && rt.is_general(),
            Instruction::And { rd, rs, rt } => rd.is_general() && rs.is_general() && rt.is_general(),
            Instruction::Or { rd, rs, rt } => rd.is_general() && rs.is_general() && rt.is_general(),
            Instruction::Xor { rd, rs, rt } => rd.is_general() && rs.is_general() && rt.is_general(),
            Instruction::Not { rd, rt } => rd.is_general() && rt.is_general(),
            Instruction::Sll { rd, rs, rt } => rd.is_general() && rs.is_general() && rt.is_general(),
            Instruction::Shr { rd, rs, rt } => rd.is_general() && rs.is_general() && rt.is_general(),
            Instruction::LoadIndirect { rd, rs } => rd.is_general() && rs.is_general(),
            Instruction::StoreIndirect { rd, rs } => rd.is_general() && rs.is_general(),
            Instruction::Cmp { rs, rt } => rs.is_general() && rt.is_general(),
            Instruction::Push { rs } => rs.is_general(),
            Instruction::Pop { rd } => rd.is_general(),
            Instruction::AddImmediate { rt, .. } => rt.is_general(),
            Instruction::AndImmediate { rt, .. } => rt.is_general(),
            Instruction::OrImmediate { rt, .. } => rt.is_general(),
            Instruction::LoadUperImmediate { rt, .. } => rt.is_general(),
            Instruction::CmpImmediate { rt, .. } => rt.is_general(),
            Instruction::Load { rt, .. } => rt.is_general(),
            Instruction::Store { rt, .. } => rt.is_general(),
            Instruction::MoveFromSpecial { rt, spec } => rt.is_general() && spec.is_special(),
            Instruction::MoveFromToSpecial { rt, spec } => rt.is_general() && spec.is_special(),
            Instruction::Jump { .. } | Instruction::Return | Instruction::Nop | Instruction::Halt
            | Instruction::Sysall => true,
        }
    }

    /// Interprets a word as an instruction, or says why it is none.
    pub fn decode(w: Word) -> (instruction: Result<Instruction, InstructionError>)
        ensures
            instruction == Instruction::decoded(w),
    {
        let instruction = match w {
            Word::RType { opcode, rd, rs, rt, funct } => {
                let rd = match R::new(rd) {
                    Ok(reg) => reg,
                    Err(err) => return Err(err),
                };
                let rs = match R::new(rs) {
                    Ok(reg) => reg,
                    Err(err) => return Err(err),
                };
                let rt = match R::new(rt) {
                    Ok(reg) => reg,
                    Err(err) => return Err(err),
                };

                match (opcode, funct) {
                    (0x0, 0x0) => Instruction::Add { rd, rs, rt },
                    (0x0, 0x1) => Instruction::Sub { rd, rs, rt },
                    (0x0, 0x2) => Instruction::And { rd, rs, rt },
                    (0x0, 0x3) => Instruction::Or { rd, rs, rt },
                    (0x0, 0x4) => Instruction::Xor { rd, rs, rt },
                    (0x0, 0x5) => Instruction::Not { rd, rt },
                    (0x0, 0x6) => Instruction::Sll { rd, rs, rt },
                    (0x0, 0x7) => Instruction::Shr { rd, rs, rt },
                    (0x1, 0x0) => Instruction::LoadIndirect { rd, rs },
                    (0x1, 0x1) => Instruction::StoreIndirect { rd, rs },
                    (0x1, 0x2) => Instruction::Cmp { rs, rt },
                    (0x1, 0x3) => Instruction::Return,
                    (0x1, 0x4) => Instruction::Push { rs },
                    (0x1, 0x5) => Instruction::Pop { rd },
                    _ => return Err(InstructionError::InvalidRType(opcode, funct)),
                }
            },
            Word::IType { opcode, rt, imm } => {
                let rt = match R::new(rt) {
                    Ok(reg) => reg,
                    Err(err) => return Err(err),
                };

                match opcode {
                    0x2 => Instruction::Load { rt, addr: imm },
                    0x3 => Instruction::Store { rt, addr: imm },
                    0x4 => Instruction::AddImmediate { rt, imm: super::types::signed_of_byte(imm) },
                    0x5 => Instruction::AndImmediate { rt, imm },
                    0x6 => Instruction::OrImmediate { rt, imm },
                    0x7 => Instruction::LoadUperImmediate { rt, imm },
                    0x8 => Instruction::CmpImmediate { rt, imm: super::types::signed_of_byte(imm) },
                    _ => return Err(InstructionError::InvalidIType(opcode)),
                }
            },
            Word::JType { opcode, offset } => {
                match opcode {
                    0x9 => Instruction::Jump { jump_type: Jump::Call, offset },
                    0xA => Instruction::Jump { jump_type: Jump::Unconditional, offset },
                    0xB => Instruction::Jump { jump_type: Jump::Zero, offset },
                    0xC => Instruction::Jump { jump_type: Jump::NotZero, offset },
                    0xD => Instruction::Jump { jump_type: Jump::GreaterThan, offset },
                    _ => return Err(InstructionError::InvalidJType(opcode)),
                }
            },
            Word::EType { subcode, rs, rt } => match subcode {
                0x0 => Instruction::Nop,
                0xE => Instruction::Sysall,
                0xF => Instruction::Halt,
                0x1 => {
                    let spec = match SpecialRegister::new(rt) {
                        Ok(reg) => reg.register(),
                        Err(err) => return Err(err),
                    };
                    let rt = match R::new(rs) {
                        Ok(reg) => reg,
                        Err(err) => return Err(err),
                    };
                    Instruction::MoveFromSpecial { rt, spec }
                },
                0x2 => {
                    let rt = match R::new(rt) {
                        Ok(reg) => reg,
                        Err(err) => return Err(err),
                    };
                    let spec = match SpecialRegister::new(rs) {
                        Ok(reg) => reg.register(),
                        Err(err) => return Err(err),
                    };
                    Instruction::MoveFromToSpecial { rt, spec }
                },
                _ => return Err(InstructionError::InvalidEType(subcode)),
            },
        };

        Ok(instruction)
    }

    /// Whatever word an instruction was decoded from, its operands are
    /// validated.
    pub proof fn lemma_decoded_is_valid(w: Word)
        ensures
            Instruction::decoded(w) is Ok ==> Instruction::decoded(w).unwrap().is_valid(),
    {
    }

    /// A valid word is never rejected for a general register field: if it
    /// is rejected, then because its layout has no operation for the opcode,
    /// function code or subcode, or because a special-register selector is
    /// out of range.
    pub proof fn lemma_decoded_of_valid(w: Word)
        requires
            w.is_valid(),
        ensures
            !(Instruction::decoded(w) matches Err(InstructionError::InvalidRegister(_))),
    {
    }

    /// The text of an operation on three registers.
    pub open spec fn three(mnemonic: Seq<char>, a: R, b: R, c: R) -> Seq<char> {
        mnemonic + a.name() + ", "@ + b.name() + ", "@ + c.name()
    }

    /// The text of an operation on a register and a literal address.
    pub open spec fn addressed(mnemonic: Seq<char>, rt: R, addr: u8) -> Seq<char> {
        mnemonic + rt.name() + ", 0x"@ + number(addr as nat, 16, 4, true)
    }

    /// The instruction as text. The arithmetic, bitwise, load and store
    /// instructions appear as assembly text with their operands; the others
    /// by their name alone.
    pub open spec fn text(self) -> Seq<char> {
        match self {
            Instruction::Add { rd, rs, rt } => Instruction::three("ADD "@, rd, rs, rt),
            Instruction::Sub { rd, rs, rt } => Instruction::three("SUB "@, rd, rs, rt),
            Instruction::And { rd, rs, rt } => Instruction::three("AND "@, rd, rs, rt),
            Instruction::Or { rd, rs, rt } => Instruction::three("OR "@, rd, rs, rt),
            Instruction::Xor { rd, rs, rt } => Instruction::three("XOR "@, rd, rs, rt),
            Instruction::Not { rd, rt } => "NOT "@ + rd.name() + ", "@ + rt.name(),
            Instruction::Sll { .. } => "Sll"@,
            Instruction::Shr { .. } => "Shr"@,
            Instruction::LoadIndirect { .. } => "LoadIndirect"@,
            Instruction::StoreIndirect { .. } => "StoreIndirect"@,
            Instruction::Cmp { .. } => "Cmp"@,
            Instruction::Return => "Return"@,
            Instruction::Push { .. } => "Push"@,
            Instruction::Pop { .. } => "Pop"@,
            Instruction::AddImmediate { rt, imm } => "ADDI "@ + rt.name() + ", "@ + signed_decimal(
                imm as int,
            ),
            Instruction::AndImmediate { .. } => "AndImmediate"@,
            Instruction::OrImmediate { rt, imm } => "ORI "@ + rt.name() + ", "@ + digits(
                imm as nat,
                10,
            ),
            Instruction::LoadUperImmediate { .. } => "LoadUperImmediate"@,
            Instruction::CmpImmediate { .. } => "CmpImmediate"@,
            Instruction::Load { rt, addr } => Instruction::addressed("LOAD "@, rt, addr),
            Instruction::Store { rt, addr } => Instruction::addressed("STORE "@, rt, addr),
            Instruction::Jump { .. } => "Jump"@,
            Instruction::MoveFromSpecial { .. } => "MoveFromSpecial"@,
            Instruction::MoveFromToSpecial { .. } => "MoveFromToSpecial"@,
            Instruction::Nop => "Nop"@,
            Instruction::Halt => "HALT"@,
            Instruction::Sysall => "Sysall"@,
        }
    }

    /// Appends the text of an operation on three registers.
    fn push_three(out: &mut String, mnemonic: &str, a: R, b: R, c: R)
        ensures
            final(out)@ == old(out)@ + Instruction::three(mnemonic@, a, b, c),
    {
        out.append(mnemonic);
        a.push_name(out);
        out.append(", ");
        b.push_name(out);
        out.append(", ");
        c.push_name(out);
        assert(out@ =~= old(out)@ + Instruction::three(mnemonic@, a, b, c));
    }

    /// Appends the text of an operation on a register and an address.
    fn push_addressed(out: &mut String, mnemonic: &str, rt: R, addr: u8)
        ensures
            final(out)@ == old(out)@ + Instruction::addressed(mnemonic@, rt, addr),
    {
        out.append(mnemonic);
        rt.push_name(out);
        out.append(", 0x");
        push_number(out, addr as u16, 16, 4, true);
        assert(out@ =~= old(out)@ + Instruction::addressed(mnemonic@, rt, addr));
    }

    /// The instruction as text.
    pub fn to_string(&self) -> (text: String)
        ensures
            text@ == self.text(),
    {
        let mut text = String::new();
        match *self {
            Instruction::Add { rd, rs, rt } => Instruction::push_three(
                &mut text,
                "ADD ",
                rd,
                rs,
                rt,
            ),
            Instruction::Sub { rd, rs, rt } => Instruction::push_three(
                &mut text,
                "SUB ",
                rd,
                rs,
                rt,
            ),
            Instruction::And { rd, rs, rt } => Instruction::push_three(
                &mut text,
                "AND ",
                rd,
                rs,
                rt,
            ),
            Instruction::Or { rd, rs, rt } => Instruction::push_three(&mut text, "OR ", rd, rs, rt),
            Instruction::Xor { rd, rs, rt } => Instruction::push_three(
                &mut text,
                "XOR ",
                rd,
                rs,
                rt,
            ),
            Instruction::Not { rd, rt } => {
                text.append("NOT ");
                rd.push_name(&mut text);
                text.append(", ");
                rt.push_name(&mut text);
            },
            Instruction::Sll { .. } => text.append("Sll"),
            Instruction::Shr { .. } => text.append("Shr"),
            Instruction::LoadIndirect { .. } => text.append("LoadIndirect"),
            Instruction::StoreIndirect { .. } => text.append("StoreIndirect"),
            Instruction::Cmp { .. } => text.append("Cmp"),
            Instruction::Return => text.append("Return"),
            Instruction::Push { .. } => text.append("Push"),
            Instruction::Pop { .. } => text.append("Pop"),
            Instruction::AddImmediate { rt, imm } => {
                text.append("ADDI ");
                rt.push_name(&mut text);
                text.append(", ");
                push_signed(&mut text, imm);
            },
            Instruction::AndImmediate { .. } => text.append("AndImmediate"),
            Instruction::OrImmediate { rt, imm } => {
                text.append("ORI ");
                rt.push_name(&mut text);
                text.append(", ");
                push_digits(&mut text, imm as u16, 10);
            },
            Instruction::LoadUperImmediate { .. } => text.append("LoadUperImmediate"),
            Instruction::CmpImmediate { .. } => text.append("CmpImmediate"),
            Instruction::Load { rt, addr } => Instruction::push_addressed(
                &mut text,
                "LOAD ",
                rt,
                addr,
            ),
            Instruction::Store { rt, addr } => Instruction::push_addressed(
                &mut text,
                "STORE ",
                rt,
                addr,
            ),
            Instruction::Jump { .. } => text.append("Jump"),
            Instruction::MoveFromSpecial { .. } => text.append("MoveFromSpecial"),
            Instruction::MoveFromToSpecial { .. } => text.append("MoveFromToSpecial"),
            Instruction::Nop => text.append("Nop"),
            Instruction::Halt => text.append("HALT"),
            Instruction::Sysall => text.append("Sysall"),
        }
        assert(text@ =~= self.text());
        text
    }
}

} // verus!
