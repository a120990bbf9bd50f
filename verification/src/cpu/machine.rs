//! The mathematical model of the machine: its state as plain values, and
//! what each operation, one step and a whole run make of a state.
//!
//! The executable engine is specified against this model: every function
//! of [`super::CPU`] says which function of [`Machine`] it computes.

use super::error::CpuError;
use super::flags::{wrapped_difference, wrapped_sum, Flags};
use super::instructions::register::Register;
use super::instructions::word::Word;
use super::instructions::{Instruction, Jump};
use super::memory::{with_word, word_at, zeroed, MemoryError};
use super::types::{sign_extended, signed_12bit};
use vstd::prelude::*;

verus! {

/// The four bitwise operations.
#[derive(Debug, Clone, Copy, PartialEq, Eq, Structural)]
pub enum LogicalOperation {
    And,
    Or,
    Xor,
    Not,
}

/// The two directions of a shift.
#[derive(Debug, Clone, Copy, PartialEq, Eq, Structural)]
pub enum ShiftOperation {
    Left,
    Right,
}

/// The value of the stack pointer while the stack is empty.
pub const STACK_TOP: u16 = 0xFFFE;

/// A state of the machine.
pub struct Machine {
    /// The eight slots of the general registers. Slot 0 is never read or
    /// written: `R0` is the constant zero.
    pub registers: Seq<u16>,
    /// The address of the next instruction.
    pub pc: u16,
    /// The address of the word on top of the stack.
    pub sp: u16,
    pub flags: Flags,
    /// The 65536 bytes of memory.
    pub memory: Seq<u8>,
    /// Whether the machine has executed `Halt` since the last load.
    pub halted: bool,
    /// The loaded program occupies the addresses from `program_start` up
    /// to, not including, `program_end`.
    pub program_start: u16,
    pub program_end: u16,
}

/// How a step or an operation ended, with the state it left.
pub type Outcome<T> = (Machine, Result<T, CpuError>);

impl Machine {
    /// There are eight register slots and 65536 bytes of memory.
    pub open spec fn wf(self) -> bool {
        self.registers.len() == 8 && self.memory.len() == 0x10000
    }

    /// The state of a new machine: every register, flag and byte is zero,
    /// and no program is loaded.
    pub open spec fn initial() -> Machine {
        Machine {
            registers: Seq::new(8, |i: int| 0u16),
            pc: 0,
            sp: 0,
            flags: Flags { zero: false, negative: false, carry: false, overflow: false },
            memory: zeroed(),
            halted: false,
            program_start: 0,
            program_end: 0,
        }
    }

    /// The value that `reg` reads as. `R0` always reads as zero, and
    /// `FLAGS` as the flags packed into four bits.
    pub open spec fn get(self, reg: Register) -> u16 {
        match reg {
            Register::R0 => 0,
            Register::SP => self.sp,
            Register::PC => self.pc,
            Register::FLAGS => self.flags.packed(),
            _ => self.registers[reg.index() as int],
        }
    }

    /// The state after `value` is written to `reg`. A write to `R0` is
    /// discarded; a write to `FLAGS` keeps the low four bits of `value`.
    pub open spec fn set(self, reg: Register, value: u16) -> Machine {
        match reg {
            Register::R0 => self,
            Register::SP => Machine { sp: value, ..self },
            Register::PC => Machine { pc: value, ..self },
            Register::FLAGS => Machine { flags: Flags::unpacked(value), ..self },
            _ => Machine { registers: self.registers.update(reg.index() as int, value), ..self },
        }
    }

    /// `rd := rs + rt`, with the flags of the sum. The carry is the carry
    /// out of bit 15.
    pub open spec fn add(self, rd: Register, rs: Register, rt: Register) -> Machine {
        let a = self.get(rs);
        let b = self.get(rt);
        let result = wrapped_sum(a, b);
        Machine {
            flags: Flags::arithmetic(a, b, result, a + b > 0xFFFF, false),
            ..self.set(rd, result)
        }
    }

    /// `rd := rs - rt`, with the flags of the difference. The carry is the
    /// borrow: it is set when `rt` exceeds `rs` as unsigned numbers.
    pub open spec fn sub(self, rd: Register, rs: Register, rt: Register) -> Machine {
        let a = self.get(rs);
        let b = self.get(rt);
        let result = wrapped_difference(a, b);
        Machine { flags: Flags::arithmetic(a, b, result, a < b, true), ..self.set(rd, result) }
    }

    /// The flags of `rs - rt`; no register changes.
    pub open spec fn compare(self, rs: Register, rt: Register) -> Machine {
        let a = self.get(rs);
        let b = self.get(rt);
        Machine { flags: Flags::arithmetic(a, b, wrapped_difference(a, b), a < b, true), ..self }
    }

    /// The result of a bitwise operation on `a` and `b`. The complement is
    /// that of the left operand.
    pub open spec fn logical_result(a: u16, b: u16, op: LogicalOperation) -> u16 {
        match op {
            LogicalOperation::And => a & b,
            LogicalOperation::Or => a | b,
            LogicalOperation::Xor => a ^ b,
            LogicalOperation::Not => !a,
        }
    }

    /// `rd := rs op rt`, with the flags of a bitwise result.
    pub open spec fn logical(
        self,
        rd: Register,
        rs: Register,
        rt: Register,
        op: LogicalOperation,
    ) -> Machine {
        let result = Machine::logical_result(self.get(rs), self.get(rt), op);
        Machine { flags: Flags::logical(result), ..self.set(rd, result) }
    }

    /// The number of places that a shift by `rt` moves: the low four bits
    /// of the register.
    pub open spec fn shift_amount(self, rt: Register) -> u16 {
        self.get(rt) % 16
    }

    /// What a shift of `value` by `amount` places (1 to 15) yields, and the
    /// last bit that leaves the word: for a left shift the bit that passes
    /// bit 15, for a right shift the bit that passes bit 0.
    pub open spec fn shift_result(value: u16, amount: u16, op: ShiftOperation) -> (u16, bool) {
        match op {
            ShiftOperation::Left => (
                value << amount,
                (value >> ((16 - amount) as u16)) & 1 == 1,
            ),
            ShiftOperation::Right => (
                value >> amount,
                (value >> ((amount - 1) as u16)) & 1 == 1,
            ),
        }
    }

    /// `rd := rs` shifted by `rt`. A shift by zero places copies `rs` to
    /// `rd` and leaves the flags alone; any other shift sets them.
    pub open spec fn shift(
        self,
        rd: Register,
        rs: Register,
        rt: Register,
        op: ShiftOperation,
    ) -> Machine {
        let value = self.get(rs);
        let amount = self.shift_amount(rt);
        if amount == 0 {
            self.set(rd, value)
        } else {
            let (result, last_shifted_bit) = Machine::shift_result(value, amount, op);
            Machine { flags: Flags::shifted(result, last_shifted_bit), ..self.set(rd, result) }
        }
    }

    /// `rt := rt + imm`, the immediate sign-extended to sixteen bits, with
    /// the flags of the sum.
    pub open spec fn add_immediate(self, rt: Register, imm: i8) -> Machine {
        let a = self.get(rt);
        let b = sign_extended(imm);
        let result = wrapped_sum(a, b);
        Machine {
            flags: Flags::arithmetic(a, b, result, a + b > 0xFFFF, false),
            ..self.set(rt, result)
        }
    }

    /// `rt := rt & imm`, the immediate zero-extended, with the flags of a
    /// bitwise result. Both the AND-immediate and the OR-immediate
    /// instruction compute this.
    pub open spec fn mask_immediate(self, rt: Register, imm: u8) -> Machine {
        let result = self.get(rt) & imm as u16;
        Machine { flags: Flags::logical(result), ..self.set(rt, result) }
    }

    /// The flags of `rt - imm`, the immediate sign-extended; no register
    /// changes.
    pub open spec fn compare_immediate(self, rt: Register, imm: i8) -> Machine {
        let a = self.get(rt);
        let b = sign_extended(imm);
        Machine { flags: Flags::arithmetic(a, b, wrapped_difference(a, b), a < b, true), ..self }
    }

    /// `rt := imm << 8`; the flags stay.
    pub open spec fn load_upper_immediate(self, rt: Register, imm: u8) -> Machine {
        self.set(rt, (imm * 0x100) as u16)
    }

    /// `rd := ` the word at the address that is the number of `rs`: the
    /// register's number, not its content.
    pub open spec fn load_indirect(self, rd: Register, rs: Register) -> Machine {
        self.set(rd, word_at(self.memory, rs.index() as int))
    }

    /// Stores `rd` as a word at the address that is the number of `rs`.
    pub open spec fn store_indirect(self, rd: Register, rs: Register) -> Machine {
        Machine { memory: with_word(self.memory, rs.index() as int, self.get(rd)), ..self }
    }

    /// `rt := ` the word at the literal address `addr`.
    pub open spec fn load(self, rt: Register, addr: u8) -> Machine {
        self.set(rt, word_at(self.memory, addr as int))
    }

    /// Stores `rt` as a word at the literal address `addr`.
    pub open spec fn store(self, rt: Register, addr: u8) -> Machine {
        Machine { memory: with_word(self.memory, addr as int, self.get(rt)), ..self }
    }

    /// Pushes `rs`: the stack pointer drops by two and the value is stored
    /// where it then points. With less than two bytes below the stack
    /// pointer nothing changes and the stack overflows.
    pub open spec fn push(self, rs: Register) -> Outcome<()> {
        if self.sp < 2 {
            (self, Err(CpuError::StackOverflow))
        } else {
            let sp = (self.sp - 2) as u16;
            (
                Machine { sp, memory: with_word(self.memory, sp as int, self.get(rs)), ..self },
                Ok(()),
            )
        }
    }

    /// Pops into `rd`: the word at the stack pointer is written to `rd`,
    /// then the stack pointer rises by two. With the stack pointer at
    /// 0xFFFF nothing changes and the stack overflows.
    pub open spec fn pop(self, rd: Register) -> Outcome<()> {
        if self.sp > 0xFFFE {
            (self, Err(CpuError::StackOverflow))
        } else {
            let loaded = self.set(rd, word_at(self.memory, self.sp as int));
            (Machine { sp: wrapped_sum(loaded.sp, 2), ..loaded }, Ok(()))
        }
    }

    /// The address that lies `offset` away from the program counter, where
    /// `offset` is a raw 12-bit two's-complement field. Addresses wrap
    /// around at both ends.
    pub open spec fn target(self, offset: u16) -> u16 {
        ((self.pc + signed_12bit(offset)) % 0x1_0000) as u16
    }

    /// Whether a jump of the given kind is taken. `GreaterThan` is the
    /// signed test after a comparison: not equal, and Negative agrees with
    /// Overflow.
    pub open spec fn takes(self, jump_type: Jump) -> bool {
        match jump_type {
            Jump::Call => true,
            Jump::Unconditional => true,
            Jump::Zero => self.flags.zero,
            Jump::NotZero => !self.flags.zero,
            Jump::GreaterThan => !self.flags.zero && self.flags.negative == self.flags.overflow,
        }
    }

    /// A jump: if it is taken, the program counter moves to the target. A
    /// call first pushes the program counter, and fails without jumping if
    /// the push fails.
    pub open spec fn jump(self, jump_type: Jump, offset: u16) -> Outcome<()> {
        if jump_type == Jump::Call {
            let (pushed, done) = self.push(Register::PC);
            if done is Ok {
                (Machine { pc: self.target(offset), ..pushed }, Ok(()))
            } else {
                (pushed, done)
            }
        } else if self.takes(jump_type) {
            (Machine { pc: self.target(offset), ..self }, Ok(()))
        } else {
            (self, Ok(()))
        }
    }

    /// A move between `rt` and the register `spec`: into `spec` if
    /// `to_special`, out of it otherwise.
    pub open spec fn move_special(self, rt: Register, spec: Register, to_special: bool) -> Machine {
        if to_special {
            self.set(spec, self.get(rt))
        } else {
            self.set(rt, self.get(spec))
        }
    }

    /// What one instruction makes of the state.
    pub open spec fn execute(self, instruction: Instruction) -> Outcome<()> {
        match instruction {
            Instruction::Add { rd, rs, rt } => (self.add(rd, rs, rt), Ok(())),
            Instruction::Sub { rd, rs, rt } => (self.sub(rd, rs, rt), Ok(())),
            Instruction::And { rd, rs, rt } => (
                self.logical(rd, rs, rt, LogicalOperation::And),
                Ok(()),
            ),
            Instruction::Or { rd, rs, rt } => (
                self.logical(rd, rs, rt, LogicalOperation::Or),
                Ok(()),
            ),
            Instruction::Xor { rd, rs, rt } => (
                self.logical(rd, rs, rt, LogicalOperation::Xor),
                Ok(()),
            ),
            Instruction::Not { rd, rt } => (
                self.logical(rd, Register::R0, rt, LogicalOperation::Not),
                Ok(()),
            ),
            Instruction::Sll { rd, rs, rt } => (
                self.shift(rd, rs, rt, ShiftOperation::Left),
                Ok(()),
            ),
            Instruction::Shr { rd, rs, rt } => (
                self.shift(rd, rs, rt, ShiftOperation::Right),
                Ok(()),
            ),
            Instruction::LoadIndirect { rd, rs } => (self.load_indirect(rd, rs), Ok(())),
            Instruction::StoreIndirect { rd, rs } => (self.store_indirect(rd, rs), Ok(())),
            Instruction::Push { rs } => self.push(rs),
            Instruction::Pop { rd } => self.pop(rd),
            Instruction::Cmp { rs, rt } => (self.compare(rs, rt), Ok(())),
            Instruction::Jump { jump_type, offset } => self.jump(jump_type, offset),
            Instruction::Return => self.pop(Register::PC),
            Instruction::AddImmediate { rt, imm } => (self.add_immediate(rt, imm), Ok(())),
            Instruction::AndImmediate { rt, imm } => (self.mask_immediate(rt, imm), Ok(())),
            Instruction::OrImmediate { rt, imm } => (self.mask_immediate(rt, imm), Ok(())),
            Instruction::CmpImmediate { rt, imm } => (self.compare_immediate(rt, imm), Ok(())),
            Instruction::LoadUperImmediate { rt, imm } => (
                self.load_upper_immediate(rt, imm),
                Ok(()),
            ),
            Instruction::Load { rt, addr } => (self.load(rt, addr), Ok(())),
            Instruction::Store { rt, addr } => (self.store(rt, addr), Ok(())),
            Instruction::MoveFromSpecial { rt, spec } => (
                self.move_special(rt, spec, false),
                Ok(()),
            ),
            Instruction::MoveFromToSpecial { rt, spec } => (
                self.move_special(rt, spec, true),
                Ok(()),
            ),
            Instruction::Nop => (self, Ok(())),
            Instruction::Halt => (Machine { halted: true, ..self }, Ok(())),
            Instruction::Sysall => (self, Err(CpuError::NotImplementedYet)),
        }
    }

    /// The address just past the instruction at the program counter,
    /// capped at 0xFFFF.
    pub open spec fn instruction_end(self) -> u16 {
        if self.pc + 2 > 0xFFFF {
            0xFFFF
        } else {
            (self.pc + 2) as u16
        }
    }

    /// The instruction at the program counter lies within the loaded
    /// program.
    pub open spec fn in_bounds(self) -> bool {
        self.program_start <= self.pc && self.instruction_end() <= self.program_end
    }

    /// The fault that a fetch outside the loaded program raises.
    pub open spec fn bounds_violation(self) -> CpuError {
        CpuError::ProgramBoundsViolation {
            pc: self.pc,
            iend: self.instruction_end(),
            low: self.program_start,
            high: self.program_end,
        }
    }

    /// What one step makes of the state, and whether it made progress.
    ///
    /// A halted machine makes no progress and does not change. Otherwise
    /// the instruction must lie within the program, and the word at the
    /// program counter is fetched, which cannot be done at the last
    /// address; the program counter moves past the word, and the word is
    /// decoded and executed. A fault at the first two stages leaves the
    /// state as it was; a word that denotes no instruction leaves the
    /// program counter past the word; an instruction that fails leaves
    /// what it had done until then.
    pub open spec fn step(self) -> Outcome<bool> {
        if self.halted {
            (self, Ok(false))
        } else if !self.in_bounds() {
            (self, Err(self.bounds_violation()))
        } else if self.pc >= 0xFFFF {
            (self, Err(CpuError::MemoryOutOfBounds(MemoryError::OutOfBounds(self.pc))))
        } else {
            let word = Word::from_bits(word_at(self.memory, self.pc as int));
            let fetched = Machine { pc: wrapped_sum(self.pc, 2), ..self };
            match Instruction::decoded(word) {
                Ok(instruction) => {
                    let (next, done) = fetched.execute(instruction);
                    match done {
                        Ok(_) => (next, Ok(true)),
                        Err(fault) => (next, Err(fault)),
                    }
                },
                Err(err) => (fetched, Err(CpuError::InvalidInstruction(word, err))),
            }
        }
    }

    /// Memory after `program` is copied to the addresses from `start_addr`
    /// on; every other byte stays.
    pub open spec fn loaded_memory(self, program: Seq<u8>, start_addr: u16) -> Seq<u8> {
        Seq::new(
            self.memory.len(),
            |i: int|
                if start_addr <= i < start_addr + program.len() {
                    program[i - start_addr]
                } else {
                    self.memory[i]
                },
        )
    }

    /// The state after `program` is loaded at `start_addr`: the program
    /// bounds enclose it, the program counter is at its start, the stack
    /// is empty and the machine is not halted. Registers and flags stay.
    pub open spec fn load_program(self, program: Seq<u8>, start_addr: u16) -> Machine {
        Machine {
            program_start: start_addr,
            program_end: (start_addr + program.len()) as u16,
            pc: start_addr,
            sp: STACK_TOP,
            halted: false,
            memory: self.loaded_memory(program, start_addr),
            ..self
        }
    }

    /// The state after at most `steps` steps, and how the run ended if it
    /// did within them: `Ok` when a step made no progress, the fault when
    /// a step failed.
    pub open spec fn run_for(self, steps: nat) -> (Machine, Option<Result<(), CpuError>>)
        decreases steps,
    {
        if steps == 0 {
            (self, None)
        } else {
            let (next, progress) = self.step();
            match progress {
                Ok(true) => next.run_for((steps - 1) as nat),
                Ok(false) => (next, Some(Ok(()))),
                Err(fault) => (next, Some(Err(fault))),
            }
        }
    }

    /// The run from this state ends after `steps` steps or sooner.
    pub open spec fn stops_within(self, steps: nat) -> bool {
        self.run_for(steps).1 is Some
    }

    /// The run from this state ends: the machine halts or faults after
    /// finitely many steps.
    pub open spec fn stops(self) -> bool {
        exists|steps: nat| self.stops_within(steps)
    }

    /// The state in which the run from this state ends, and how it ends.
    /// Meaningful where the run ends.
    pub open spec fn run(self) -> Outcome<()> {
        let steps = choose|steps: nat| self.stops_within(steps);
        (self.run_for(steps).0, self.run_for(steps).1.unwrap())
    }

    /// A run that ends within some number of steps takes at least one
    /// step, and then either has ended or goes on from the next state
    /// with one step less.
    pub proof fn lemma_run_for_unfold(self, steps: nat)
        requires
            self.stops_within(steps),
        ensures
            steps > 0,
            match self.step().1 {
                Ok(true) => self.step().0.run_for((steps - 1) as nat) == self.run_for(steps),
                Ok(false) => self.run_for(steps) == (self.step().0, Some(Ok::<(), CpuError>(()))),
                Err(fault) => self.run_for(steps) == (
                    self.step().0,
                    Some(Err::<(), CpuError>(fault)),
                ),
            },
    {
    }

    /// Whatever is written to `R0`, it reads as zero.
    pub proof fn lemma_r0_reads_zero(self, value: u16)
        ensures
            self.set(Register::R0, value).get(Register::R0) == 0,
            self.set(Register::R0, value) == self,
    {
    }

    /// A general register other than `R0` reads as what was last written to
    /// it, and a write to it changes no other register: not the special
    /// ones, nor memory, nor the flags.
    pub proof fn lemma_get_after_set(self, reg: Register, value: u16, other: Register)
        requires
            self.wf(),
            reg.is_general(),
            reg != Register::R0,
        ensures
            self.set(reg, value).get(reg) == value,
            other != reg ==> self.set(reg, value).get(other) == self.get(other),
            self.set(reg, value).memory == self.memory,
            self.set(reg, value).wf(),
    {
    }

    /// A shift by zero places copies the source to the destination and
    /// leaves the flags as they were, for every destination that an
    /// instruction word can name.
    pub proof fn lemma_shift_by_zero(
        self,
        rd: Register,
        rs: Register,
        rt: Register,
        op: ShiftOperation,
    )
        requires
            self.wf(),
            rd.is_general(),
            self.get(rt) % 16 == 0,
        ensures
            self.shift(rd, rs, rt, op).flags == self.flags,
            rd != Register::R0 ==> self.shift(rd, rs, rt, op).get(rd) == self.get(rs),
            self.shift(rd, rs, rt, op) == self.set(rd, self.get(rs)),
    {
    }

    /// With fewer than two bytes below the stack pointer a push overflows
    /// the stack, with the stack pointer at 0xFFFF a pop does, and neither
    /// changes anything. All other pushes and pops succeed.
    pub proof fn lemma_stack_limits(self, reg: Register)
        ensures
            self.sp < 2 <==> self.push(reg) == (self, Err::<(), CpuError>(CpuError::StackOverflow)),
            self.sp >= 2 <==> self.push(reg).1 is Ok,
            self.sp > 0xFFFE <==> self.pop(reg) == (
                self,
                Err::<(), CpuError>(CpuError::StackOverflow),
            ),
            self.sp <= 0xFFFE <==> self.pop(reg).1 is Ok,
    {
    }

    /// A pop after a push gives the pushed value back and restores the
    /// stack pointer. This holds for a destination among `R1` to `R7`; the
    /// stack pointer is restored for every destination but `SP` itself.
    pub proof fn lemma_pop_after_push(self, rs: Register, rd: Register)
        requires
            self.wf(),
            self.sp >= 2,
        ensures
            self.push(rs).1 is Ok,
            self.push(rs).0.pop(rd).1 is Ok,
            rd != Register::SP ==> self.push(rs).0.pop(rd).0.sp == self.sp,
            rd.is_general() && rd != Register::R0 ==> self.push(rs).0.pop(rd).0.get(rd) == self.get(
                rs,
            ),
            rd == Register::PC ==> self.push(rs).0.pop(rd).0.pc == self.get(rs),
    {
        let pushed = self.push(rs).0;
        super::memory::Memory::lemma_read_own_write(
            self.memory,
            (self.sp - 2) as int,
            self.get(rs),
        );
    }

    /// The frame that every operation keeps: the state stays well-formed,
    /// the program bounds stay, and a halted machine stays halted.
    pub open spec fn keeps_frame(self, next: Machine) -> bool {
        &&& next.wf()
        &&& next.program_start == self.program_start
        &&& next.program_end == self.program_end
        &&& self.halted ==> next.halted
    }

    /// A register write keeps the frame.
    pub proof fn lemma_set_keeps_frame(self, reg: Register, value: u16)
        requires
            self.wf(),
        ensures
            self.keeps_frame(self.set(reg, value)),
    {
    }

    /// The instructions that compute on registers alone.
    spec fn is_arithmetic(instruction: Instruction) -> bool {
        instruction is Add || instruction is Sub || instruction is And || instruction is Or
            || instruction is Xor || instruction is Not || instruction is Sll
            || instruction is Shr
    }

    /// The instructions that read or write memory.
    spec fn is_memory_access(instruction: Instruction) -> bool {
        instruction is LoadIndirect || instruction is StoreIndirect || instruction is Push
            || instruction is Pop || instruction is Return || instruction is Load
            || instruction is Store
    }

    /// The instructions that compute on registers keep the frame.
    proof fn lemma_frame_of_arithmetic(self, instruction: Instruction)
        requires
            self.wf(),
            Machine::is_arithmetic(instruction),
        ensures
            self.keeps_frame(self.execute(instruction).0),
    {
        match instruction {
            Instruction::Add { rd, rs, rt } => {
                self.lemma_set_keeps_frame(rd, wrapped_sum(self.get(rs), self.get(rt)));
            },
            Instruction::Sub { rd, rs, rt } => {
                self.lemma_set_keeps_frame(rd, wrapped_difference(self.get(rs), self.get(rt)));
            },
            Instruction::And { rd, rs, rt } => {
                self.lemma_set_keeps_frame(rd, self.get(rs) & self.get(rt));
            },
            Instruction::Or { rd, rs, rt } => {
                self.lemma_set_keeps_frame(rd, self.get(rs) | self.get(rt));
            },
            Instruction::Xor { rd, rs, rt } => {
                self.lemma_set_keeps_frame(rd, self.get(rs) ^ self.get(rt));
            },
            Instruction::Not { rd, rt } => {
                self.lemma_set_keeps_frame(rd, !self.get(Register::R0));
            },
            Instruction::Sll { rd, rs, rt } => {
                let shifted = Machine::shift_result(
                    self.get(rs),
                    self.shift_amount(rt),
                    ShiftOperation::Left,
                );
                self.lemma_set_keeps_frame(rd, self.get(rs));
                self.lemma_set_keeps_frame(rd, shifted.0);
            },
            Instruction::Shr { rd, rs, rt } => {
                let shifted = Machine::shift_result(
                    self.get(rs),
                    self.shift_amount(rt),
                    ShiftOperation::Right,
                );
                self.lemma_set_keeps_frame(rd, self.get(rs));
                self.lemma_set_keeps_frame(rd, shifted.0);
            },
            _ => {},
        }
    }

    /// The instructions that read or write memory keep the frame.
    proof fn lemma_frame_of_memory(self, instruction: Instruction)
        requires
            self.wf(),
            Machine::is_memory_access(instruction),
        ensures
            self.keeps_frame(self.execute(instruction).0),
    {
        match instruction {
            Instruction::LoadIndirect { rd, rs } => {
                self.lemma_set_keeps_frame(rd, word_at(self.memory, rs.index() as int));
            },
            Instruction::StoreIndirect { rd, rs } => {
                self.lemma_set_keeps_frame(Register::R0, 0);
            },
            Instruction::Push { rs } => {
                self.lemma_set_keeps_frame(Register::R0, 0);
            },
            Instruction::Pop { rd } => {
                self.lemma_set_keeps_frame(rd, word_at(self.memory, self.sp as int));
            },
            Instruction::Return => {
                self.lemma_set_keeps_frame(Register::PC, word_at(self.memory, self.sp as int));
            },
            Instruction::Load { rt, addr } => {
                self.lemma_set_keeps_frame(rt, word_at(self.memory, addr as int));
            },
            Instruction::Store { rt, addr } => {
                self.lemma_set_keeps_frame(Register::R0, 0);
            },
            _ => {},
        }
    }

    /// The remaining instructions keep the frame.
    proof fn lemma_frame_of_others(self, instruction: Instruction)
        requires
            self.wf(),
            !Machine::is_arithmetic(instruction) && !Machine::is_memory_access(instruction),
        ensures
            self.keeps_frame(self.execute(instruction).0),
    {
        match instruction {
            Instruction::Jump { jump_type, offset } => {
                self.lemma_set_keeps_frame(Register::R0, 0);
            },
            Instruction::AddImmediate { rt, imm } => {
                self.lemma_set_keeps_frame(rt, wrapped_sum(self.get(rt), sign_extended(imm)));
            },
            Instruction::AndImmediate { rt, imm } => {
                self.lemma_set_keeps_frame(rt, self.get(rt) & imm as u16);
            },
            Instruction::OrImmediate { rt, imm } => {
                self.lemma_set_keeps_frame(rt, self.get(rt) & imm as u16);
            },
            Instruction::LoadUperImmediate { rt, imm } => {
                self.lemma_set_keeps_frame(rt, (imm * 0x100) as u16);
            },
            Instruction::MoveFromSpecial { rt, spec } => {
                self.lemma_set_keeps_frame(rt, self.get(spec));
            },
            Instruction::MoveFromToSpecial { rt, spec } => {
                self.lemma_set_keeps_frame(spec, self.get(rt));
            },
            _ => {},
        }
    }

    /// No instruction changes the program bounds or the number of register
    /// slots and memory bytes, and none lets a halted machine run again.
    pub proof fn lemma_execute_invariants(self, instruction: Instruction)
        requires
            self.wf(),
        ensures
            self.keeps_frame(self.execute(instruction).0),
    {
        if Machine::is_arithmetic(instruction) {
            self.lemma_frame_of_arithmetic(instruction);
        } else if Machine::is_memory_access(instruction) {
            self.lemma_frame_of_memory(instruction);
        } else {
            self.lemma_frame_of_others(instruction);
        }
    }

    /// A step keeps a well-formed state well-formed and the program bounds
    /// as they are. A halted machine stays halted and unchanged; a machine
    /// that is not halted never reports "no progress".
    pub proof fn lemma_step_invariants(self)
        requires
            self.wf(),
        ensures
            self.keeps_frame(self.step().0),
            self.halted ==> self.step() == (self, Ok::<bool, CpuError>(false)),
            !self.halted ==> self.step().1 != Ok::<bool, CpuError>(false),
    {
        if !self.halted && self.in_bounds() && self.pc < 0xFFFF {
            let word = Word::from_bits(word_at(self.memory, self.pc as int));
            let fetched = Machine { pc: wrapped_sum(self.pc, 2), ..self };
            if let Ok(instruction) = Instruction::decoded(word) {
                fetched.lemma_execute_invariants(instruction);
            }
        }
    }

    /// A machine that is not halted fails with a bounds violation, and
    /// changes nothing, exactly when the instruction at the program counter
    /// does not lie within the program bounds. That is so wherever the
    /// program counter is below the start of the program, and wherever the
    /// instruction would end past the end of the program; only with the end
    /// of the program at 0xFFFF is the last clause void, since no
    /// instruction is taken to end past that address.
    pub proof fn lemma_step_out_of_bounds(self)
        requires
            !self.halted,
        ensures
            !self.in_bounds() ==> self.step() == (
                self,
                Err::<bool, CpuError>(self.bounds_violation()),
            ),
            self.in_bounds() ==> !(self.step().1 matches Err(
                CpuError::ProgramBoundsViolation { .. },
            )),
            self.pc < self.program_start ==> !self.in_bounds(),
            self.pc + 2 > self.program_end && self.program_end < 0xFFFF ==> !self.in_bounds(),
    {
        if self.in_bounds() && self.pc < 0xFFFF {
            let word = Word::from_bits(word_at(self.memory, self.pc as int));
            let fetched = Machine { pc: wrapped_sum(self.pc, 2), ..self };
            match Instruction::decoded(word) {
                Ok(instruction) => {
                    fetched.lemma_execute_never_bounds(instruction);
                },
                Err(_) => {},
            }
        }
    }

    /// No instruction fails with a bounds violation, a memory fault or an
    /// invalid instruction: only with a stack overflow, or because it is
    /// the reserved system call.
    pub proof fn lemma_execute_never_bounds(self, instruction: Instruction)
        ensures
            match self.execute(instruction).1 {
                Ok(_) => true,
                Err(fault) => fault == CpuError::StackOverflow || (fault
                    == CpuError::NotImplementedYet && instruction == Instruction::Sysall),
            },
    {
    }

    /// After a load the machine is ready to run the program: not halted,
    /// at the first byte, with an empty stack and the program in memory.
    pub proof fn lemma_load_program(self, program: Seq<u8>, start_addr: u16)
        requires
            self.wf(),
            start_addr + program.len() <= 0xFFFF,
        ensures
            self.load_program(program, start_addr).wf(),
            self.load_program(program, start_addr).program_end == start_addr + program.len(),
            self.load_program(program, start_addr).memory.subrange(
                start_addr as int,
                start_addr + program.len(),
            ) == program,
            forall|i: int|
                0 <= i < 0x10000 && !(start_addr <= i < start_addr + program.len())
                    ==> #[trigger] self.load_program(program, start_addr).memory[i]
                    == self.memory[i],
    {
        assert(self.load_program(program, start_addr).memory.subrange(
            start_addr as int,
            start_addr + program.len(),
        ) =~= program);
    }

    /// More steps do not change how a run ended: once it has ended within
    /// some number of steps, every greater number gives the same end.
    pub proof fn lemma_run_for_more(self, steps: nat, more: nat)
        requires
            self.stops_within(steps),
            steps <= more,
        ensures
            self.run_for(more) == self.run_for(steps),
        decreases steps,
    {
        self.lemma_run_for_unfold(steps);
        if self.step().1 == Ok::<bool, CpuError>(true) {
            self.step().0.lemma_run_for_more((steps - 1) as nat, (more - 1) as nat);
        }
    }

    /// A run that ends within some number of steps ends, and it ends in
    /// the state and in the way that the bounded run gives.
    pub proof fn lemma_run_of_run_for(self, steps: nat)
        requires
            self.stops_within(steps),
        ensures
            self.stops(),
            self.run() == (self.run_for(steps).0, self.run_for(steps).1.unwrap()),
    {
        let chosen = choose|n: nat| self.stops_within(n);
        if chosen <= steps {
            self.lemma_run_for_more(chosen, steps);
        } else {
            self.lemma_run_for_more(steps, chosen);
        }
    }

    /// A run that ends without a fault leaves the machine halted, and from
    /// there a further step makes no progress and changes nothing.
    pub proof fn lemma_run_ends_halted(self, steps: nat)
        requires
            self.wf(),
            self.stops_within(steps),
            self.run_for(steps).1 == Some(Ok::<(), CpuError>(())),
        ensures
            self.run_for(steps).0.halted,
            self.run_for(steps).0.step() == (self.run_for(steps).0, Ok::<bool, CpuError>(false)),
        decreases steps,
    {
        self.lemma_run_for_unfold(steps);
        self.lemma_step_invariants();
        if self.step().1 == Ok::<bool, CpuError>(true) {
            self.step().0.lemma_run_ends_halted((steps - 1) as nat);
        }
    }
}

} // verus!
