//! The operation handlers of the execution engine.

use super::error::CpuError;
use super::instructions::register::Register;
use super::instructions::{Instruction, Jump};
use super::machine::{LogicalOperation, ShiftOperation};
use super::types;
use super::CPU;
use vstd::prelude::*;

verus! {

/// The sum of `a` and `b` reduced to sixteen bits, and the carry out of
/// bit 15.
fn overflowing_add(a: u16, b: u16) -> (sum: (u16, bool))
    ensures
        sum.0 == super::flags::wrapped_sum(a, b),
        sum.1 == (a + b > 0xFFFF),
{
    let result = a.wrapping_add(b);
    (result, result < a)
}

/// The difference of `a` and `b` reduced to sixteen bits, and the borrow.
fn overflowing_sub(a: u16, b: u16) -> (difference: (u16, bool))
    ensures
        difference.0 == super::flags::wrapped_difference(a, b),
        difference.1 == (a < b),
{
    (a.wrapping_sub(b), a < b)
}

impl CPU {
    /// Executes one instruction on the current state.
    pub fn execute(&mut self, instruction: Instruction) -> (done: Result<(), CpuError>)
        ensures
            (final(self)@, done) == old(self)@.execute(instruction),
    {
        match instruction {
            Instruction::Add { rd, rs, rt } => self.op_add(rd, rs, rt),
            Instruction::Sub { rd, rs, rt } => self.op_sub(rd, rs, rt),
            Instruction::And { rd, rs, rt } => self.op_logical(rd, rs, rt, LogicalOperation::And),
            Instruction::Or { rd, rs, rt } => self.op_logical(rd, rs, rt, LogicalOperation::Or),
            Instruction::Xor { rd, rs, rt } => self.op_logical(rd, rs, rt, LogicalOperation::Xor),
            Instruction::Not { rd, rt } => {
                self.op_logical(rd, Register::R0, rt, LogicalOperation::Not)
            },
            Instruction::Sll { rd, rs, rt } => self.op_shift(rd, rs, rt, ShiftOperation::Left),
            Instruction::Shr { rd, rs, rt } => self.op_shift(rd, rs, rt, ShiftOperation::Right),
            Instruction::LoadIndirect { rd, rs } => self.op_load_indirect(rd, rs),
            Instruction::StoreIndirect { rd, rs } => self.op_store_indirect(rd, rs),
            Instruction::Push { rs } => self.op_push(rs),
            Instruction::Pop { rd } => self.op_pop(rd),
            Instruction::Cmp { rs, rt } => self.op_cmp(rs, rt),
            Instruction::Jump { jump_type, offset } => self.op_jump(jump_type, offset),
            Instruction::Return => self.op_ret(),
            Instruction::AddImmediate { rt, imm } => self.op_add_immediate(rt, imm),
            Instruction::AndImmediate { rt, imm } => self.op_and_immediate(rt, imm),
            Instruction::OrImmediate { rt, imm } => self.op_or_immediate(rt, imm),
            Instruction::CmpImmediate { rt, imm } => self.op_cmp_immediate(rt, imm),
            Instruction::LoadUperImmediate { rt, imm } => self.op_load_upper_immediate(rt, imm),
            Instruction::Load { rt, addr } => self.op_load(rt, addr),
            Instruction::Store { rt, addr } => self.op_store(rt, addr),
            Instruction::MoveFromSpecial { rt, spec } => self.op_movs(rt, spec, false),
            Instruction::MoveFromToSpecial { rt, spec } => self.op_movs(rt, spec, true),
            Instruction::Nop => Ok(()),
            Instruction::Halt => self.op_halt(),
            Instruction::Sysall => Err(CpuError::NotImplementedYet),
        }
    }

    fn op_add(&mut self, rd: Register, rs: Register, rt: Register) -> (done: Result<(), CpuError>)
        ensures
            done == Ok::<(), CpuError>(()),
            final(self)@ == old(self)@.add(rd, rs, rt),
    {
        let a = self.get_register(rs);
        let b = self.get_register(rt);
        let (result, carry) = overflowing_add(a, b);

        self.set_register(rd, result);
        self.update_flags_arithmetic(a, b, result, carry, false);

        Ok(())
    }

    fn op_sub(&mut self, rd: Register, rs: Register, rt: Register) -> (done: Result<(), CpuError>)
        ensures
            done == Ok::<(), CpuError>(()),
            final(self)@ == old(self)@.sub(rd, rs, rt),
    {
        let a = self.get_register(rs);
        let b = self.get_register(rt);
        let (result, borrow) = overflowing_sub(a, b);

        self.set_register(rd, result);
        self.update_flags_arithmetic(a, b, result, borrow, true);

        Ok(())
    }

    fn op_logical(
        &mut self,
        rd: Register,
        rs: Register,
        rt: Register,
        op: LogicalOperation,
    ) -> (done: Result<(), CpuError>)
        ensures
            done == Ok::<(), CpuError>(()),
            final(self)@ == old(self)@.logical(rd, rs, rt, op),
    {
        let a = self.get_register(rs);
        let b = self.get_register(rt);
        let result = match op {
            LogicalOperation::And => a & b,
            LogicalOperation::Or => a | b,
            LogicalOperation::Xor => a ^ b,
            LogicalOperation::Not => !a,
        };

        self.set_register(rd, result);
        self.update_flags_logical(result);

        Ok(())
    }

    fn op_shift(
        &mut self,
        rd: Register,
        rs: Register,
        rt: Register,
        op: ShiftOperation,
    ) -> (done: Result<(), CpuError>)
        ensures
            done == Ok::<(), CpuError>(()),
            final(self)@ == old(self)@.shift(rd, rs, rt, op),
    {
        let value = self.get_register(rs);
        let places = self.get_register(rt);
        assert(places & 0xF == places % 16) by (bit_vector);
        let s_size = places & 0xF;  // 0-15

        if s_size == 0 {
            self.set_register(rd, value);
            return Ok(());
        }
        let (result, last_shifted_bit) = match op {
            // the last bit to leave is the one that passes bit 15
            ShiftOperation::Left => (value << s_size, ((value >> (16 - s_size)) & 1 == 1)),
            // the last bit to leave is the one that passes bit 0
            ShiftOperation::Right => (value >> s_size, ((value >> (s_size - 1)) & 1 == 1)),
        };

        self.set_register(rd, result);
        self.update_flags_shift(result, last_shifted_bit);

        Ok(())
    }

    fn op_halt(&mut self) -> (done: Result<(), CpuError>)
        ensures
            done == Ok::<(), CpuError>(()),
            final(self)@ == (super::machine::Machine { halted: true, ..old(self)@ }),
    {
        self.halted = true;
        Ok(())
    }

    fn op_load_indirect(&mut self, rd: Register, rs: Register) -> (done: Result<(), CpuError>)
        ensures
            done == Ok::<(), CpuError>(()),
            final(self)@ == old(self)@.load_indirect(rd, rs),
    {
        let value = match self.memory.read_word(rs.idx() as u16) {
            Ok(word) => word,
            Err(err) => return Err(CpuError::from(err)),
        };
        self.set_register(rd, value);
        Ok(())
    }

    fn op_store_indirect(&mut self, rd: Register, rs: Register) -> (done: Result<(), CpuError>)
        ensures
            done == Ok::<(), CpuError>(()),
            final(self)@ == old(self)@.store_indirect(rd, rs),
    {
        let value = self.get_register(rd);
        match self.memory.write_word(rs.idx() as u16, value) {
            Ok(_) => Ok(()),
            Err(err) => Err(CpuError::from(err)),
        }
    }

    fn op_cmp(&mut self, rs: Register, rt: Register) -> (done: Result<(), CpuError>)
        ensures
            done == Ok::<(), CpuError>(()),
            final(self)@ == old(self)@.compare(rs, rt),
    {
        let operand_a = self.get_register(rs);
        let operand_b = self.get_register(rt);
        let (result, borrow) = overflowing_sub(operand_a, operand_b);

        self.update_flags_arithmetic(operand_a, operand_b, result, borrow, true);

        Ok(())
    }

    fn op_push(&mut self, rs: Register) -> (done: Result<(), CpuError>)
        ensures
            (final(self)@, done) == old(self)@.push(rs),
    {
        let value = self.get_register(rs);
        if self.sp < 2 {
            return Err(CpuError::StackOverflow);
        }
        self.sp = self.sp.wrapping_sub(2);
        match self.memory.write_word(self.sp, value) {
            Ok(_) => Ok(()),
            Err(err) => Err(CpuError::from(err)),
        }
    }

    fn op_pop(&mut self, rd: Register) -> (done: Result<(), CpuError>)
        ensures
            (final(self)@, done) == old(self)@.pop(rd),
    {
        if self.sp > 0xFFFE {
            return Err(CpuError::StackOverflow);
        }
        let value = match self.memory.read_word(self.sp) {
            Ok(word) => word,
            Err(err) => return Err(CpuError::from(err)),
        };
        self.set_register(rd, value);
        self.sp = self.sp.wrapping_add(2);

        Ok(())
    }

    fn op_ret(&mut self) -> (done: Result<(), CpuError>)
        ensures
            (final(self)@, done) == old(self)@.pop(Register::PC),
    {
        self.op_pop(Register::PC)?;

        Ok(())
    }

    // The offset is a raw 12-bit field.
    fn op_jump(&mut self, jt: Jump, offset: u16) -> (done: Result<(), CpuError>)
        ensures
            (final(self)@, done) == old(self)@.jump(jt, offset),
    {
        let signed_offset = types::convert_12bit_to_signed(offset);
        let target = self.pc.wrapping_add_signed(signed_offset);
        assert(target == self@.target(offset));

        match jt {
            Jump::Call => {
                self.op_push(Register::PC)?;
                self.set_register(Register::PC, target);
            },
            Jump::Unconditional => {
                self.set_register(Register::PC, target);
            },
            Jump::Zero => {
                if self.flags.zero {
                    self.set_register(Register::PC, target);
                }
            },
            Jump::NotZero => {
                if !self.flags.zero {
                    self.set_register(Register::PC, target);
                }
            },
            Jump::GreaterThan => {
                if !self.flags.zero && self.flags.negative == self.flags.overflow {
                    self.set_register(Register::PC, target);
                }
            },
        }

        Ok(())
    }

    fn op_add_immediate(&mut self, rt: Register, imm: i8) -> (done: Result<(), CpuError>)
        ensures
            done == Ok::<(), CpuError>(()),
            final(self)@ == old(self)@.add_immediate(rt, imm),
    {
        let operand_a = self.get_register(rt);
        let operand_b = types::sign_extend(imm);
        let (result, carry) = overflowing_add(operand_a, operand_b);

        self.set_register(rt, result);
        self.update_flags_arithmetic(operand_a, operand_b, result, carry, false);

        Ok(())
    }

    fn op_and_immediate(&mut self, rt: Register, imm: u8) -> (done: Result<(), CpuError>)
        ensures
            done == Ok::<(), CpuError>(()),
            final(self)@ == old(self)@.mask_immediate(rt, imm),
    {
        let value = self.get_register(rt);
        let imm = imm as u16;
        let result = value & imm;

        self.set_register(rt, result);
        self.update_flags_logical(result);

        Ok(())
    }

    // Computes the same as `op_and_immediate`: the instruction set gives
    // both opcodes the masking behaviour.
    fn op_or_immediate(&mut self, rt: Register, imm: u8) -> (done: Result<(), CpuError>)
        ensures
            done == Ok::<(), CpuError>(()),
            final(self)@ == old(self)@.mask_immediate(rt, imm),
    {
        let value = self.get_register(rt);
        let imm = imm as u16;
        let result = value & imm;

        self.set_register(rt, result);
        self.update_flags_logical(result);

        Ok(())
    }

    fn op_cmp_immediate(&mut self, rt: Register, imm: i8) -> (done: Result<(), CpuError>)
        ensures
            done == Ok::<(), CpuError>(()),
            final(self)@ == old(self)@.compare_immediate(rt, imm),
    {
        let operand_a = self.get_register(rt);
        let operand_b = types::sign_extend(imm);
        let (result, borrow) = overflowing_sub(operand_a, operand_b);

        self.update_flags_arithmetic(operand_a, operand_b, result, borrow, true);

        Ok(())
    }

    fn op_load_upper_immediate(&mut self, rt: Register, imm: u8) -> (done: Result<(), CpuError>)
        ensures
            done == Ok::<(), CpuError>(()),
            final(self)@ == old(self)@.load_upper_immediate(rt, imm),
    {
        assert((imm as u16) << 8 == imm * 0x100) by (bit_vector);
        let value = (imm as u16) << 8;
        self.set_register(rt, value);

        Ok(())
    }

    fn op_load(&mut self, rt: Register, addr: u8) -> (done: Result<(), CpuError>)
        ensures
            done == Ok::<(), CpuError>(()),
            final(self)@ == old(self)@.load(rt, addr),
    {
        let value = match self.memory.read_word(addr as u16) {
            Ok(word) => word,
            Err(err) => return Err(CpuError::from(err)),
        };
        self.set_register(rt, value);

        Ok(())
    }

    fn op_store(&mut self, rt: Register, addr: u8) -> (done: Result<(), CpuError>)
        ensures
            done == Ok::<(), CpuError>(()),
            final(self)@ == old(self)@.store(rt, addr),
    {
        let value = self.get_register(rt);
        match self.memory.write_word(addr as u16, value) {
            Ok(_) => Ok(()),
            Err(err) => Err(CpuError::from(err)),
        }
    }

    fn op_movs(&mut self, rt: Register, spec: Register, to_special: bool) -> (done: Result<
        (),
        CpuError,
    >)
        ensures
            done == Ok::<(), CpuError>(()),
            final(self)@ == old(self)@.move_special(rt, spec, to_special),
    {
        let (source, target) = match to_special {
            true => (rt, spec),
            false => (spec, rt),
        };

        let value = self.get_register(source);
        self.set_register(target, value);

        Ok(())
    }
}

} // verus!
