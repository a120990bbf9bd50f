//! The machine: its instruction words, its memory and its execution engine.

pub mod debug;
pub mod error;
pub mod flags;
pub mod implementations;
pub mod instructions;
pub mod machine;
pub mod memory;
pub mod text;
pub mod types;

use error::CpuError;
use flags::{sign_bit, Flags};
use instructions::register::Register;
use instructions::word::Word;
use instructions::Instruction;
use machine::Machine;
use memory::Memory;
use vstd::prelude::*;

verus! {

/// The execution engine. It owns the registers, the flags and the memory,
/// and nothing else changes them.
pub struct CPU {
    registers: [u16; 8],
    pc: u16,
    sp: u16,
    flags: Flags,
    memory: Memory,
    halted: bool,
    // The loaded program occupies [program_start, program_end).
    program_start: u16,
    program_end: u16,
}

impl View for CPU {
    type V = Machine;

    closed spec fn view(&self) -> Machine {
        Machine {
            registers: self.registers@,
            pc: self.pc,
            sp: self.sp,
            flags: self.flags,
            memory: self.memory@,
            halted: self.halted,
            program_start: self.program_start,
            program_end: self.program_end,
        }
    }
}

impl CPU {
    /// A machine in which every register, every flag and every byte of
    /// memory is zero, and no program is loaded.
    pub fn new() -> (cpu: CPU)
        ensures
            cpu@ == Machine::initial(),
    {
        let cpu = CPU {
            registers: [0u16; 8],
            pc: 0,
            sp: 0,
            flags: Flags::default(),
            memory: Memory::default(),
            halted: false,
            program_start: 0,
            program_end: 0,
        };
        assert(cpu@.registers =~= Machine::initial().registers);
        cpu
    }

    /// The state of an engine is always a well-formed state of the model.
    pub proof fn lemma_view_wf(&self)
        ensures
            self@.wf(),
    {
    }

    /// Executes one instruction cycle: fetch, decode, execute. Returns
    /// whether the machine made progress: `Ok(false)` means that it is
    /// halted.
    pub fn step(&mut self) -> (progress: Result<bool, CpuError>)
        ensures
            (final(self)@, progress) == old(self)@.step(),
    {
        if self.halted {
            return Ok(false);
        }
        // The instruction must lie within the loaded program.

        self.secure_boundaries()?;

        // Fetch
        let instruction_word = match self.memory.read_word(self.pc) {
            Ok(bits) => bits,
            Err(err) => return Err(CpuError::from(err)),
        };
        self.pc = self.pc.wrapping_add(2);

        // Decode
        let word = Word::new(instruction_word);
        let instruction = match Instruction::decode(word) {
            Ok(x) => x,
            Err(err) => return Err(CpuError::InvalidInstruction(word, err)),
        };

        // Execute
        self.execute(instruction)?;

        Ok(true)
    }

    /// Loads a program at `start_addr`: sets the program bounds round it,
    /// points the program counter at its first byte, empties the stack,
    /// clears the halted state and copies the bytes into memory. Memory
    /// outside the program, the registers and the flags stay as they are.
    ///
    /// The program has to end at or below the address 0xFFFF, which is the
    /// largest program bound there is.
    pub fn load_program(&mut self, program: &[u8], start_addr: u16) -> (done: Result<(), CpuError>)
        requires
            start_addr + program@.len() <= 0xFFFF,
        ensures
            done == Ok::<(), CpuError>(()),
            final(self)@ == old(self)@.load_program(program@, start_addr),
    {
        let program_size = program.len() as u16;

        self.program_start = start_addr;
        self.program_end = start_addr + program_size;
        self.pc = start_addr;
        self.sp = machine::STACK_TOP;
        self.halted = false;

        let ghost before = old(self)@;
        assert(before.loaded_memory(program@.take(0), start_addr) =~= before.memory);
        let mut i: usize = 0;
        while i < program.len()
            invariant
                i <= program@.len(),
                start_addr + program@.len() <= 0xFFFF,
                before.wf(),
                self@ == (Machine {
                    memory: before.loaded_memory(program@.take(i as int), start_addr),
                    ..before.load_program(program@, start_addr)
                }),
            decreases program@.len() - i,
        {
            let addr = start_addr + i as u16;
            let ghost memory = self@.memory;
            match self.memory.write_byte(addr, program[i]) {
                Ok(_) => {},
                Err(err) => return Err(CpuError::from(err)),
            }
            i += 1;
            assert(memory.update(addr as int, program@[i - 1]) =~= before.loaded_memory(
                program@.take(i as int),
                start_addr,
            ));
        }
        assert(program@.take(i as int) =~= program@);

        Ok(())
    }

    /// Steps until the machine halts or faults.
    ///
    /// A program need not end. This function is for the states from which
    /// the run does end: from any other it would not return.
    pub fn run(&mut self) -> (done: Result<(), CpuError>)
        requires
            old(self)@.stops(),
        ensures
            (final(self)@, done) == old(self)@.run(),
    {
        let ghost expected = self@.run();
        let ghost mut left = choose|steps: nat| self@.stops_within(steps);
        loop
            invariant
                expected == old(self)@.run(),
                self@.stops_within(left),
                (self@.run_for(left).0, self@.run_for(left).1.unwrap()) == expected,
            decreases left,
        {
            proof {
                self@.lemma_run_for_unfold(left);
            }
            match self.step() {
                Ok(true) => {
                    proof {
                        left = (left - 1) as nat;
                    }
                },
                Ok(false) => {
                    return Ok(());
                },
                Err(fault) => {
                    return Err(fault);
                },
            }
        }
    }

    /// Steps until the machine halts or faults, but no more than `steps`
    /// times. Returns how the run ended, or `None` if it has not ended
    /// within `steps` steps; the machine can then be stepped or run further.
    pub fn run_for(&mut self, steps: u64) -> (done: Option<Result<(), CpuError>>)
        ensures
            (final(self)@, done) == old(self)@.run_for(steps as nat),
    {
        let mut left = steps;
        while left > 0
            invariant
                self@.run_for(left as nat) == old(self)@.run_for(steps as nat),
            decreases left,
        {
            match self.step() {
                Ok(true) => {
                    left -= 1;
                },
                Ok(false) => {
                    return Some(Ok(()));
                },
                Err(fault) => {
                    return Some(Err(fault));
                },
            }
        }
        None
    }

    /// Checks that the instruction at the program counter lies within the
    /// loaded program.
    fn secure_boundaries(&self) -> (check: Result<(), CpuError>)
        ensures
            self@.in_bounds() ==> check is Ok,
            !self@.in_bounds() ==> check == Err::<(), CpuError>(self@.bounds_violation()),
    {
        let instruction_end = self.pc.saturating_add(2);
        if self.pc < self.program_start || instruction_end > self.program_end {
            Err(
                CpuError::ProgramBoundsViolation {
                    pc: self.pc,
                    iend: instruction_end,
                    low: self.program_start,
                    high: self.program_end,
                },
            )
        } else {
            Ok(())
        }
    }

    /// Reads a register. `R0` reads as zero.
    pub fn get_register(&self, reg: Register) -> (value: u16)
        ensures
            value == self@.get(reg),
    {
        match reg {
            Register::R0 => 0,
            Register::R1
            | Register::R2
            | Register::R3
            | Register::R4
            | Register::R5
            | Register::R6
            | Register::R7 => self.registers[reg.idx() as usize],
            Register::SP => self.sp,
            Register::PC => self.pc,
            Register::FLAGS => self.flags.as_u16(),
        }
    }

    /// Writes a register. A write to `R0` is discarded without an error.
    pub fn set_register(&mut self, reg: Register, val: u16)
        ensures
            final(self)@ == old(self)@.set(reg, val),
    {
        match reg {
            Register::R0 => return ,  // R0 cannot be changed
            Register::R1
            | Register::R2
            | Register::R3
            | Register::R4
            | Register::R5
            | Register::R6
            | Register::R7 => self.registers[reg.idx() as usize] = val,
            Register::SP => self.sp = val,
            Register::PC => self.pc = val,
            Register::FLAGS => self.flags.from_u16(val),
        }
    }

    fn update_flags_arithmetic(
        &mut self,
        operand_a: u16,
        operand_b: u16,
        result: u16,
        carry: bool,
        is_substraction: bool,
    )
        ensures
            final(self)@ == (Machine {
                flags: Flags::arithmetic(operand_a, operand_b, result, carry, is_substraction),
                ..old(self)@
            }),
    {
        self.flags.zero = result == 0;
        self.flags.negative = sign_bit(result);
        self.flags.carry = carry;
        self.flags.overflow = self.check_overflow(operand_a, operand_b, result, is_substraction);
    }

    fn update_flags_logical(&mut self, result: u16)
        ensures
            final(self)@ == (Machine { flags: Flags::logical(result), ..old(self)@ }),
    {
        self.flags.zero = result == 0;
        self.flags.negative = sign_bit(result);
        self.flags.carry = false;
        self.flags.overflow = false;
    }

    fn update_flags_shift(&mut self, result: u16, last_shifted_bit: bool)
        ensures
            final(self)@ == (Machine {
                flags: Flags::shifted(result, last_shifted_bit),
                ..old(self)@
            }),
    {
        self.flags.zero = result == 0;
        self.flags.negative = sign_bit(result);
        self.flags.carry = last_shifted_bit;
        self.flags.overflow = false;
    }

    fn check_overflow(
        &self,
        operand_a: u16,
        operand_b: u16,
        result: u16,
        is_substraction: bool,
    ) -> (overflow: bool)
        ensures
            overflow == Flags::overflows(operand_a, operand_b, result, is_substraction),
    {
        let a_sign = sign_bit(operand_a);
        let b_sign = sign_bit(operand_b);
        let result_sign = sign_bit(result);

        if is_substraction {
            // positive - negative = negative, or negative - positive = positive
            (!a_sign && b_sign && result_sign) || (a_sign && !b_sign && !result_sign)
        } else {
            // positive + positive = negative, or negative + negative = positive
            (!a_sign && !b_sign && result_sign) || (a_sign && b_sign && !result_sign)
        }
    }
}

} // verus!
