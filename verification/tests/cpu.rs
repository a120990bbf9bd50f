use s16vm::cpu::error::CpuError;
use s16vm::cpu::flags::{sign_bit, Flags};
use s16vm::cpu::instructions::error::InstructionError;
use s16vm::cpu::instructions::register::Register;
use s16vm::cpu::instructions::word::{assemble, Word};
use s16vm::cpu::instructions::{Instruction, Jump};
use s16vm::cpu::memory::MemoryError;
use s16vm::cpu::CPU;

const ZERO: u16 = 0x1;
const CARRY: u16 = 0x2;
const NEGATIVE: u16 = 0x4;
const OVERFLOW: u16 = 0x8;

fn flags(cpu: &CPU) -> (bool, bool, bool, bool) {
    let f = cpu.get_flags();
    (f.zero, f.negative, f.carry, f.overflow)
}

fn with(values: &[(Register, u16)]) -> CPU {
    let mut cpu = CPU::new();
    for (reg, value) in values {
        cpu.set_register(*reg, *value);
    }
    cpu
}

fn nop_program(words: usize) -> Vec<u8> {
    assemble(&vec![Word::EType { subcode: 0x0, rs: 0, rt: 0 }; words])
}

#[test]
fn new_machine_is_all_zero() {
    let cpu = CPU::new();
    assert_eq!(cpu.get_registers(), &[0u16; 8]);
    assert_eq!(cpu.get_pc(), 0);
    assert_eq!(cpu.get_sp(), 0);
    assert_eq!(*cpu.get_flags(), Flags::default());
    assert_eq!(flags(&cpu), (false, false, false, false));
    assert!(cpu.get_memory().data.iter().all(|&byte| byte == 0));
}

#[test]
fn r0_always_reads_zero() {
    let mut cpu = CPU::new();
    for value in [0u16, 1, 0x1234, 0x8000, 0xFFFF] {
        cpu.set_register(Register::R0, value);
        assert_eq!(cpu.get_register(Register::R0), 0);
        assert_eq!(cpu.get_registers()[0], 0);
    }
    // through an instruction as well
    cpu.execute(Instruction::AddImmediate { rt: Register::R0, imm: 5 }).unwrap();
    assert_eq!(cpu.get_register(Register::R0), 0);
    cpu.execute(Instruction::LoadUperImmediate { rt: Register::R0, imm: 0xFF }).unwrap();
    assert_eq!(cpu.get_register(Register::R0), 0);
}

#[test]
fn registers_read_back_what_was_written() {
    let mut cpu = CPU::new();
    let general = [
        Register::R1,
        Register::R2,
        Register::R3,
        Register::R4,
        Register::R5,
        Register::R6,
        Register::R7,
    ];
    for (i, reg) in general.iter().enumerate() {
        cpu.set_register(*reg, 0x1000 + i as u16);
    }
    for (i, reg) in general.iter().enumerate() {
        assert_eq!(cpu.get_register(*reg), 0x1000 + i as u16);
        assert_eq!(cpu.get_registers()[i + 1], 0x1000 + i as u16);
    }
    cpu.set_register(Register::SP, 0xBEEF);
    cpu.set_register(Register::PC, 0xCAFE);
    assert_eq!(cpu.get_register(Register::SP), 0xBEEF);
    assert_eq!(cpu.get_sp(), 0xBEEF);
    assert_eq!(cpu.get_register(Register::PC), 0xCAFE);
    assert_eq!(cpu.get_pc(), 0xCAFE);
}

#[test]
fn flags_register_keeps_the_low_four_bits() {
    let mut cpu = CPU::new();
    cpu.set_register(Register::FLAGS, 0xFFFF);
    assert_eq!(cpu.get_register(Register::FLAGS), 0x000F);
    assert_eq!(flags(&cpu), (true, true, true, true));
    cpu.set_register(Register::FLAGS, 0xFFF0);
    assert_eq!(cpu.get_register(Register::FLAGS), 0);
    cpu.set_register(Register::FLAGS, CARRY);
    assert_eq!(flags(&cpu), (false, false, true, false));
    cpu.set_register(Register::FLAGS, NEGATIVE);
    assert_eq!(flags(&cpu), (false, true, false, false));
    cpu.set_register(Register::FLAGS, ZERO | OVERFLOW);
    assert_eq!(flags(&cpu), (true, false, false, true));
}

#[test]
fn flags_pack_into_four_bits() {
    let mut f = Flags::default();
    assert_eq!(f.as_u16(), 0);
    f.zero = true;
    assert_eq!(f.as_u16(), 0b0001);
    f.carry = true;
    assert_eq!(f.as_u16(), 0b0011);
    f.negative = true;
    assert_eq!(f.as_u16(), 0b0111);
    f.overflow = true;
    assert_eq!(f.as_u16(), 0b1111);
    for value in 0..=0xFFFFu16 {
        let mut g = Flags::default();
        g.from_u16(value);
        assert_eq!(g.as_u16(), value & 0xF);
        assert_eq!(g.zero, value & 1 != 0);
        assert_eq!(g.carry, value & 2 != 0);
        assert_eq!(g.negative, value & 4 != 0);
        assert_eq!(g.overflow, value & 8 != 0);
    }
    assert!(sign_bit(0x8000));
    assert!(sign_bit(0xFFFF));
    assert!(!sign_bit(0x7FFF));
    assert!(!sign_bit(0));
}

#[test]
fn add_overflow_table() {
    let add = Instruction::Add { rd: Register::R3, rs: Register::R1, rt: Register::R2 };

    let mut cpu = with(&[(Register::R1, 0x7FFF), (Register::R2, 0x0001)]);
    assert_eq!(cpu.execute(add), Ok(()));
    assert_eq!(cpu.get_register(Register::R3), 0x8000);
    // (zero, negative, carry, overflow)
    assert_eq!(flags(&cpu), (false, true, false, true));

    let mut cpu = with(&[(Register::R1, 0xFFFF), (Register::R2, 0x0001)]);
    cpu.execute(add).unwrap();
    assert_eq!(cpu.get_register(Register::R3), 0x0000);
    assert_eq!(flags(&cpu), (true, false, true, false));

    let mut cpu = with(&[(Register::R1, 0x8000), (Register::R2, 0x8000)]);
    cpu.execute(add).unwrap();
    assert_eq!(cpu.get_register(Register::R3), 0x0000);
    assert_eq!(flags(&cpu), (true, false, true, true));

    let mut cpu = with(&[(Register::R1, 5), (Register::R2, 3)]);
    cpu.execute(add).unwrap();
    assert_eq!(cpu.get_register(Register::R3), 8);
    assert_eq!(flags(&cpu), (false, false, false, false));
}

#[test]
fn sub_overflow_table() {
    let sub = Instruction::Sub { rd: Register::R3, rs: Register::R1, rt: Register::R2 };

    let mut cpu = with(&[(Register::R1, 0x0000), (Register::R2, 0x0001)]);
    assert_eq!(cpu.execute(sub), Ok(()));
    assert_eq!(cpu.get_register(Register::R3), 0xFFFF);
    assert_eq!(flags(&cpu), (false, true, true, false));

    // negative - positive = positive
    let mut cpu = with(&[(Register::R1, 0x8000), (Register::R2, 0x0001)]);
    cpu.execute(sub).unwrap();
    assert_eq!(cpu.get_register(Register::R3), 0x7FFF);
    assert_eq!(flags(&cpu), (false, false, false, true));

    // positive - negative = negative
    let mut cpu = with(&[(Register::R1, 0x7FFF), (Register::R2, 0xFFFF)]);
    cpu.execute(sub).unwrap();
    assert_eq!(cpu.get_register(Register::R3), 0x8000);
    assert_eq!(flags(&cpu), (false, true, true, true));

    let mut cpu = with(&[(Register::R1, 7), (Register::R2, 7)]);
    cpu.execute(sub).unwrap();
    assert_eq!(cpu.get_register(Register::R3), 0);
    assert_eq!(flags(&cpu), (true, false, false, false));
}

#[test]
fn overflow_flag_agrees_with_signed_arithmetic() {
    let samples = [0u16, 1, 2, 0x7FFE, 0x7FFF, 0x8000, 0x8001, 0xFFFE, 0xFFFF, 0x1234, 0xABCD];
    for &a in &samples {
        for &b in &samples {
            let mut cpu = with(&[(Register::R1, a), (Register::R2, b)]);
            cpu.execute(Instruction::Add { rd: Register::R3, rs: Register::R1, rt: Register::R2 })
                .unwrap();
            let sum = a as i16 as i32 + b as i16 as i32;
            assert_eq!(cpu.get_flags().overflow, !(-0x8000..=0x7FFF).contains(&sum));
            assert_eq!(cpu.get_flags().carry, a as u32 + b as u32 > 0xFFFF);
            assert_eq!(cpu.get_register(Register::R3), a.wrapping_add(b));

            let mut cpu = with(&[(Register::R1, a), (Register::R2, b)]);
            cpu.execute(Instruction::Sub { rd: Register::R3, rs: Register::R1, rt: Register::R2 })
                .unwrap();
            let difference = a as i16 as i32 - b as i16 as i32;
            assert_eq!(cpu.get_flags().overflow, !(-0x8000..=0x7FFF).contains(&difference));
            assert_eq!(cpu.get_flags().carry, a < b);
            assert_eq!(cpu.get_register(Register::R3), a.wrapping_sub(b));
        }
    }
}

#[test]
fn compare_sets_flags_and_no_register() {
    let mut cpu = with(&[(Register::R1, 5), (Register::R2, 9)]);
    assert_eq!(cpu.execute(Instruction::Cmp { rs: Register::R1, rt: Register::R2 }), Ok(()));
    assert_eq!(cpu.get_registers(), &[0, 5, 9, 0, 0, 0, 0, 0]);
    assert_eq!(flags(&cpu), (false, true, true, false));

    cpu.execute(Instruction::Cmp { rs: Register::R2, rt: Register::R2 }).unwrap();
    assert_eq!(flags(&cpu), (true, false, false, false));
    assert_eq!(cpu.get_registers(), &[0, 5, 9, 0, 0, 0, 0, 0]);
}

#[test]
fn logical_operations() {
    let regs = [(Register::R1, 0xF0F0), (Register::R2, 0x0FF0)];
    let (rd, rs, rt) = (Register::R3, Register::R1, Register::R2);

    let mut cpu = with(&regs);
    cpu.set_register(Register::FLAGS, CARRY | OVERFLOW);
    assert_eq!(cpu.execute(Instruction::And { rd, rs, rt }), Ok(()));
    assert_eq!(cpu.get_register(rd), 0x00F0);
    assert_eq!(flags(&cpu), (false, false, false, false));

    let mut cpu = with(&regs);
    cpu.execute(Instruction::Or { rd, rs, rt }).unwrap();
    assert_eq!(cpu.get_register(rd), 0xFFF0);
    assert_eq!(flags(&cpu), (false, true, false, false));

    let mut cpu = with(&regs);
    cpu.execute(Instruction::Xor { rd, rs, rt }).unwrap();
    assert_eq!(cpu.get_register(rd), 0xFF00);
    assert_eq!(flags(&cpu), (false, true, false, false));

    let mut cpu = with(&regs);
    cpu.execute(Instruction::Xor { rd, rs, rt: rs }).unwrap();
    assert_eq!(cpu.get_register(rd), 0);
    assert_eq!(flags(&cpu), (true, false, false, false));
}

#[test]
fn not_complements_the_zero_register() {
    for value in [0u16, 0x00FF, 0xFFFF] {
        let mut cpu = with(&[(Register::R2, value)]);
        cpu.set_register(Register::FLAGS, ZERO | CARRY | OVERFLOW);
        assert_eq!(cpu.execute(Instruction::Not { rd: Register::R3, rt: Register::R2 }), Ok(()));
        assert_eq!(cpu.get_register(Register::R3), 0xFFFF);
        assert_eq!(cpu.get_register(Register::R2), value);
        assert_eq!(flags(&cpu), (false, true, false, false));
    }
}

#[test]
fn shift_by_zero_leaves_flags_alone() {
    for amount in [0u16, 16, 32, 0xFFF0] {
        for instruction in [
            Instruction::Sll { rd: Register::R3, rs: Register::R1, rt: Register::R2 },
            Instruction::Shr { rd: Register::R3, rs: Register::R1, rt: Register::R2 },
        ] {
            let mut cpu = with(&[(Register::R1, 0x8001), (Register::R2, amount)]);
            cpu.set_register(Register::FLAGS, ZERO | CARRY | OVERFLOW);
            assert_eq!(cpu.execute(instruction), Ok(()));
            assert_eq!(cpu.get_register(Register::R3), 0x8001);
            assert_eq!(cpu.get_register(Register::FLAGS), ZERO | CARRY | OVERFLOW);
        }
    }
}

#[test]
fn shift_left() {
    let sll = Instruction::Sll { rd: Register::R3, rs: Register::R1, rt: Register::R2 };

    let mut cpu = with(&[(Register::R1, 0x8000), (Register::R2, 1)]);
    cpu.set_register(Register::FLAGS, OVERFLOW);
    cpu.execute(sll).unwrap();
    assert_eq!(cpu.get_register(Register::R3), 0x0000);
    assert_eq!(flags(&cpu), (true, false, true, false));

    let mut cpu = with(&[(Register::R1, 0x4000), (Register::R2, 1)]);
    cpu.execute(sll).unwrap();
    assert_eq!(cpu.get_register(Register::R3), 0x8000);
    assert_eq!(flags(&cpu), (false, true, false, false));

    let mut cpu = with(&[(Register::R1, 0x4000), (Register::R2, 2)]);
    cpu.execute(sll).unwrap();
    assert_eq!(cpu.get_register(Register::R3), 0x0000);
    assert_eq!(flags(&cpu), (true, false, true, false));

    // only the low four bits of the amount count
    let mut cpu = with(&[(Register::R1, 0x0003), (Register::R2, 0x0011)]);
    cpu.execute(sll).unwrap();
    assert_eq!(cpu.get_register(Register::R3), 0x0006);
    assert_eq!(flags(&cpu), (false, false, false, false));

    let mut cpu = with(&[(Register::R1, 0x0001), (Register::R2, 15)]);
    cpu.execute(sll).unwrap();
    assert_eq!(cpu.get_register(Register::R3), 0x8000);
    assert_eq!(flags(&cpu), (false, true, false, false));

    let mut cpu = with(&[(Register::R1, 0x0003), (Register::R2, 15)]);
    cpu.execute(sll).unwrap();
    assert_eq!(cpu.get_register(Register::R3), 0x8000);
    assert_eq!(flags(&cpu), (false, true, true, false));
}

#[test]
fn shift_right() {
    let shr = Instruction::Shr { rd: Register::R3, rs: Register::R1, rt: Register::R2 };

    let mut cpu = with(&[(Register::R1, 0x0001), (Register::R2, 1)]);
    cpu.execute(shr).unwrap();
    assert_eq!(cpu.get_register(Register::R3), 0x0000);
    assert_eq!(flags(&cpu), (true, false, true, false));

    let mut cpu = with(&[(Register::R1, 0x8000), (Register::R2, 15)]);
    cpu.execute(shr).unwrap();
    assert_eq!(cpu.get_register(Register::R3), 0x0001);
    assert_eq!(flags(&cpu), (false, false, false, false));

    let mut cpu = with(&[(Register::R1, 0xC000), (Register::R2, 15)]);
    cpu.execute(shr).unwrap();
    assert_eq!(cpu.get_register(Register::R3), 0x0001);
    assert_eq!(flags(&cpu), (false, false, true, false));

    let mut cpu = with(&[(Register::R1, 0xFFF6), (Register::R2, 2)]);
    cpu.set_register(Register::FLAGS, OVERFLOW);
    cpu.execute(shr).unwrap();
    assert_eq!(cpu.get_register(Register::R3), 0x3FFD);
    assert_eq!(flags(&cpu), (false, false, true, false));
}

#[test]
fn shifts_agree_with_the_shift_operators() {
    for value in [0u16, 1, 0x8000, 0xFFFF, 0x1234, 0xA5A5, 0x7FFF] {
        for amount in 1..16u16 {
            let mut cpu = with(&[(Register::R1, value), (Register::R2, amount)]);
            cpu.execute(Instruction::Sll { rd: Register::R3, rs: Register::R1, rt: Register::R2 })
                .unwrap();
            assert_eq!(cpu.get_register(Register::R3), value << amount);
            assert_eq!(cpu.get_flags().carry, (value >> (16 - amount)) & 1 == 1);
            assert_eq!(cpu.get_flags().zero, value << amount == 0);
            assert!(!cpu.get_flags().overflow);

            let mut cpu = with(&[(Register::R1, value), (Register::R2, amount)]);
            cpu.execute(Instruction::Shr { rd: Register::R3, rs: Register::R1, rt: Register::R2 })
                .unwrap();
            assert_eq!(cpu.get_register(Register::R3), value >> amount);
            assert_eq!(cpu.get_flags().carry, (value >> (amount - 1)) & 1 == 1);
            assert!(!cpu.get_flags().negative);
        }
    }
}

#[test]
fn add_immediate_is_signed() {
    let mut cpu = CPU::new();
    assert_eq!(cpu.execute(Instruction::AddImmediate { rt: Register::R1, imm: 5 }), Ok(()));
    assert_eq!(cpu.get_register(Register::R1), 5);
    assert_eq!(flags(&cpu), (false, false, false, false));

    // 5 + 0xFFFF carries out of bit 15
    cpu.execute(Instruction::AddImmediate { rt: Register::R1, imm: -1 }).unwrap();
    assert_eq!(cpu.get_register(Register::R1), 4);
    assert_eq!(flags(&cpu), (false, false, true, false));

    let mut cpu = CPU::new();
    cpu.execute(Instruction::AddImmediate { rt: Register::R1, imm: -1 }).unwrap();
    assert_eq!(cpu.get_register(Register::R1), 0xFFFF);
    assert_eq!(flags(&cpu), (false, true, false, false));

    let mut cpu = with(&[(Register::R1, 0x7FFF)]);
    cpu.execute(Instruction::AddImmediate { rt: Register::R1, imm: 127 }).unwrap();
    assert_eq!(cpu.get_register(Register::R1), 0x807E);
    assert_eq!(flags(&cpu), (false, true, false, true));

    let mut cpu = with(&[(Register::R1, 0x8000)]);
    cpu.execute(Instruction::AddImmediate { rt: Register::R1, imm: -128 }).unwrap();
    assert_eq!(cpu.get_register(Register::R1), 0x7F80);
    assert_eq!(flags(&cpu), (false, false, true, true));
}

#[test]
fn and_immediate_masks() {
    let mut cpu = with(&[(Register::R1, 0x1234)]);
    cpu.set_register(Register::FLAGS, CARRY | OVERFLOW);
    assert_eq!(cpu.execute(Instruction::AndImmediate { rt: Register::R1, imm: 0xF0 }), Ok(()));
    assert_eq!(cpu.get_register(Register::R1), 0x0030);
    assert_eq!(flags(&cpu), (false, false, false, false));

    cpu.execute(Instruction::AndImmediate { rt: Register::R1, imm: 0x0F }).unwrap();
    assert_eq!(cpu.get_register(Register::R1), 0);
    assert_eq!(flags(&cpu), (true, false, false, false));
}

#[test]
fn or_immediate_masks_as_and_immediate_does() {
    let mut cpu = with(&[(Register::R1, 0x1234)]);
    cpu.set_register(Register::FLAGS, CARRY | OVERFLOW);
    assert_eq!(cpu.execute(Instruction::OrImmediate { rt: Register::R1, imm: 0xF0 }), Ok(()));
    assert_eq!(cpu.get_register(Register::R1), 0x0030);
    assert_eq!(flags(&cpu), (false, false, false, false));

    let mut cpu = with(&[(Register::R1, 0xFF00)]);
    cpu.execute(Instruction::OrImmediate { rt: Register::R1, imm: 0xFF }).unwrap();
    assert_eq!(cpu.get_register(Register::R1), 0);
    assert_eq!(flags(&cpu), (true, false, false, false));
}

#[test]
fn compare_immediate_is_signed() {
    let mut cpu = with(&[(Register::R1, 5)]);
    assert_eq!(cpu.execute(Instruction::CmpImmediate { rt: Register::R1, imm: 5 }), Ok(()));
    assert_eq!(cpu.get_register(Register::R1), 5);
    assert_eq!(flags(&cpu), (true, false, false, false));

    // 5 - 0xFFFF = 6 with a borrow
    cpu.execute(Instruction::CmpImmediate { rt: Register::R1, imm: -1 }).unwrap();
    assert_eq!(cpu.get_register(Register::R1), 5);
    assert_eq!(flags(&cpu), (false, false, true, false));

    cpu.execute(Instruction::CmpImmediate { rt: Register::R1, imm: 6 }).unwrap();
    assert_eq!(flags(&cpu), (false, true, true, false));
}

#[test]
fn load_upper_immediate() {
    let mut cpu = with(&[(Register::R1, 0x1234)]);
    cpu.set_register(Register::FLAGS, ZERO | CARRY);
    assert_eq!(cpu.execute(Instruction::LoadUperImmediate { rt: Register::R1, imm: 0xAB }), Ok(()));
    assert_eq!(cpu.get_register(Register::R1), 0xAB00);
    assert_eq!(cpu.get_register(Register::FLAGS), ZERO | CARRY);
    cpu.execute(Instruction::LoadUperImmediate { rt: Register::R1, imm: 0 }).unwrap();
    assert_eq!(cpu.get_register(Register::R1), 0);
    assert_eq!(cpu.get_register(Register::FLAGS), ZERO | CARRY);
}

#[test]
fn load_and_store_at_literal_addresses() {
    let mut cpu = with(&[(Register::R3, 0xBEEF)]);
    assert_eq!(cpu.execute(Instruction::Store { rt: Register::R3, addr: 0x1F }), Ok(()));
    assert_eq!(cpu.get_memory().data[0x1F], 0xEF);
    assert_eq!(cpu.get_memory().data[0x20], 0xBE);
    assert_eq!(cpu.get_memory().read_word(0x1F), Ok(0xBEEF));
    assert_eq!(cpu.execute(Instruction::Load { rt: Register::R5, addr: 0x1F }), Ok(()));
    assert_eq!(cpu.get_register(Register::R5), 0xBEEF);
    assert_eq!(flags(&cpu), (false, false, false, false));

    // the highest literal address
    cpu.execute(Instruction::Store { rt: Register::R3, addr: 0xFF }).unwrap();
    assert_eq!(cpu.get_memory().data[0xFF], 0xEF);
    assert_eq!(cpu.get_memory().data[0x100], 0xBE);
    cpu.execute(Instruction::Load { rt: Register::R6, addr: 0xFF }).unwrap();
    assert_eq!(cpu.get_register(Register::R6), 0xBEEF);
}

#[test]
fn indirect_access_uses_the_register_number_as_address() {
    let mut cpu = with(&[(Register::R1, 0xCAFE), (Register::R4, 0x5000)]);
    assert_eq!(
        cpu.execute(Instruction::StoreIndirect { rd: Register::R1, rs: Register::R4 }),
        Ok(())
    );
    // stored at address 4, the number of R4, not at 0x5000
    assert_eq!(cpu.get_memory().read_word(4), Ok(0xCAFE));
    assert_eq!(cpu.get_memory().read_word(0x5000), Ok(0));
    assert_eq!(
        cpu.execute(Instruction::LoadIndirect { rd: Register::R2, rs: Register::R4 }),
        Ok(())
    );
    assert_eq!(cpu.get_register(Register::R2), 0xCAFE);
    cpu.execute(Instruction::LoadIndirect { rd: Register::R3, rs: Register::R0 }).unwrap();
    assert_eq!(cpu.get_register(Register::R3), 0);
    cpu.execute(Instruction::LoadIndirect { rd: Register::R3, rs: Register::R3 }).unwrap();
    // the word at address 3 is the high byte of nothing and the low byte 0xFE
    assert_eq!(cpu.get_register(Register::R3), 0xFE00);
}

#[test]
fn push_then_pop_restores_value_and_stack_pointer() {
    let mut cpu = CPU::new();
    cpu.load_program(&nop_program(1), 0x10).unwrap();
    assert_eq!(cpu.get_sp(), 0xFFFE);
    cpu.set_register(Register::R1, 0x1234);

    assert_eq!(cpu.execute(Instruction::Push { rs: Register::R1 }), Ok(()));
    assert_eq!(cpu.get_sp(), 0xFFFC);
    assert_eq!(cpu.get_memory().read_word(0xFFFC), Ok(0x1234));

    assert_eq!(cpu.execute(Instruction::Pop { rd: Register::R2 }), Ok(()));
    assert_eq!(cpu.get_register(Register::R2), 0x1234);
    assert_eq!(cpu.get_sp(), 0xFFFE);
    assert_eq!(flags(&cpu), (false, false, false, false));
}

#[test]
fn push_then_pop_anywhere_on_the_stack() {
    for sp in [2u16, 3, 0x100, 0x8000, 0xFFFD, 0xFFFE, 0xFFFF] {
        let mut cpu = with(&[(Register::R1, 0xA55A), (Register::SP, sp)]);
        assert_eq!(cpu.execute(Instruction::Push { rs: Register::R1 }), Ok(()));
        assert_eq!(cpu.get_sp(), sp - 2);
        assert_eq!(cpu.execute(Instruction::Pop { rd: Register::R7 }), Ok(()));
        assert_eq!(cpu.get_register(Register::R7), 0xA55A);
        assert_eq!(cpu.get_sp(), sp);
    }
}

#[test]
fn push_overflows_below_two() {
    for sp in [0u16, 1] {
        let mut cpu = with(&[(Register::R1, 0x1234), (Register::SP, sp)]);
        assert_eq!(
            cpu.execute(Instruction::Push { rs: Register::R1 }),
            Err(CpuError::StackOverflow)
        );
        assert_eq!(cpu.get_sp(), sp);
        assert!(cpu.get_memory().data.iter().all(|&byte| byte == 0));
    }
    let mut cpu = with(&[(Register::R1, 0x1234), (Register::SP, 2)]);
    assert_eq!(cpu.execute(Instruction::Push { rs: Register::R1 }), Ok(()));
    assert_eq!(cpu.get_sp(), 0);
    assert_eq!(cpu.get_memory().read_word(0), Ok(0x1234));
}

#[test]
fn pop_overflows_at_the_last_address() {
    let mut cpu = with(&[(Register::R2, 0x7777), (Register::SP, 0xFFFF)]);
    assert_eq!(cpu.execute(Instruction::Pop { rd: Register::R2 }), Err(CpuError::StackOverflow));
    assert_eq!(cpu.get_sp(), 0xFFFF);
    assert_eq!(cpu.get_register(Register::R2), 0x7777);

    // from the empty stack a pop reads the last word and the pointer wraps
    let mut cpu = with(&[(Register::SP, 0xFFFE)]);
    cpu.execute(Instruction::Store { rt: Register::R0, addr: 0 }).unwrap();
    assert_eq!(cpu.execute(Instruction::Pop { rd: Register::R2 }), Ok(()));
    assert_eq!(cpu.get_register(Register::R2), 0);
    assert_eq!(cpu.get_sp(), 0x0000);
}

#[test]
fn return_pops_the_program_counter() {
    let mut cpu = with(&[(Register::R1, 0x0204), (Register::SP, 0x8000)]);
    cpu.execute(Instruction::Push { rs: Register::R1 }).unwrap();
    assert_eq!(cpu.execute(Instruction::Return), Ok(()));
    assert_eq!(cpu.get_pc(), 0x0204);
    assert_eq!(cpu.get_sp(), 0x8000);

    let mut cpu = with(&[(Register::SP, 0xFFFF), (Register::PC, 0x0042)]);
    assert_eq!(cpu.execute(Instruction::Return), Err(CpuError::StackOverflow));
    assert_eq!(cpu.get_pc(), 0x0042);
}

fn jump(kind: Jump, offset: u16, pc: u16, flag_bits: u16) -> u16 {
    let mut cpu = with(&[(Register::PC, pc), (Register::SP, 0x8000)]);
    cpu.set_register(Register::FLAGS, flag_bits);
    assert_eq!(cpu.execute(Instruction::Jump { jump_type: kind, offset }), Ok(()));
    assert_eq!(cpu.get_register(Register::FLAGS), flag_bits);
    cpu.get_pc()
}

#[test]
fn unconditional_jump_adds_the_signed_offset() {
    assert_eq!(jump(Jump::Unconditional, 0x004, 0x100, 0), 0x104);
    assert_eq!(jump(Jump::Unconditional, 0xFFF, 0x100, 0), 0x0FF);
    assert_eq!(jump(Jump::Unconditional, 0x800, 0x1000, 0), 0x0800);
    assert_eq!(jump(Jump::Unconditional, 0x7FF, 0x1000, 0), 0x17FF);
    assert_eq!(jump(Jump::Unconditional, 0x000, 0x1000, 0xF), 0x1000);
    // addresses wrap around at both ends
    assert_eq!(jump(Jump::Unconditional, 0xFFF, 0x0000, 0), 0xFFFF);
    assert_eq!(jump(Jump::Unconditional, 0x002, 0xFFFF, 0), 0x0001);
    // the upper four bits of the offset are ignored
    assert_eq!(jump(Jump::Unconditional, 0xF004, 0x100, 0), 0x104);
}

#[test]
fn conditional_jumps_follow_the_flags() {
    assert_eq!(jump(Jump::Zero, 0x010, 0x100, ZERO), 0x110);
    assert_eq!(jump(Jump::Zero, 0x010, 0x100, 0), 0x100);
    assert_eq!(jump(Jump::Zero, 0x010, 0x100, CARRY | NEGATIVE | OVERFLOW), 0x100);
    assert_eq!(jump(Jump::NotZero, 0x010, 0x100, 0), 0x110);
    assert_eq!(jump(Jump::NotZero, 0x010, 0x100, ZERO), 0x100);
    assert_eq!(jump(Jump::NotZero, 0xFFC, 0x100, CARRY), 0x0FC);
}

#[test]
fn greater_than_is_the_signed_test() {
    for bits in 0..16u16 {
        let zero = bits & ZERO != 0;
        let negative = bits & NEGATIVE != 0;
        let overflow = bits & OVERFLOW != 0;
        let taken = !zero && negative == overflow;
        let expected = if taken { 0x110 } else { 0x100 };
        assert_eq!(jump(Jump::GreaterThan, 0x010, 0x100, bits), expected);
    }
    // after a comparison: 5 > 3, 3 > 5 is false, 5 > 5 is false, 1 > -1
    for (a, b, greater) in [(5u16, 3u16, true), (3, 5, false), (5, 5, false), (1, 0xFFFF, true),
        (0xFFFF, 1, false), (0x7FFF, 0x8000, true), (0x8000, 0x7FFF, false)]
    {
        let mut cpu = with(&[(Register::R1, a), (Register::R2, b), (Register::PC, 0x100)]);
        cpu.execute(Instruction::Cmp { rs: Register::R1, rt: Register::R2 }).unwrap();
        cpu.execute(Instruction::Jump { jump_type: Jump::GreaterThan, offset: 0x010 }).unwrap();
        assert_eq!(cpu.get_pc(), if greater { 0x110 } else { 0x100 });
    }
}

#[test]
fn call_pushes_the_return_address() {
    let mut cpu = with(&[(Register::PC, 0x0202), (Register::SP, 0xFFFE)]);
    assert_eq!(cpu.execute(Instruction::Jump { jump_type: Jump::Call, offset: 0x002 }), Ok(()));
    assert_eq!(cpu.get_pc(), 0x0204);
    assert_eq!(cpu.get_sp(), 0xFFFC);
    assert_eq!(cpu.get_memory().read_word(0xFFFC), Ok(0x0202));
    assert_eq!(cpu.execute(Instruction::Return), Ok(()));
    assert_eq!(cpu.get_pc(), 0x0202);
    assert_eq!(cpu.get_sp(), 0xFFFE);
}

#[test]
fn call_without_stack_fails_and_does_not_jump() {
    let mut cpu = with(&[(Register::PC, 0x0202), (Register::SP, 1)]);
    assert_eq!(
        cpu.execute(Instruction::Jump { jump_type: Jump::Call, offset: 0x002 }),
        Err(CpuError::StackOverflow)
    );
    assert_eq!(cpu.get_pc(), 0x0202);
    assert_eq!(cpu.get_sp(), 1);
}

#[test]
fn moves_between_general_and_special_registers() {
    let mut cpu = with(&[(Register::SP, 0x1111), (Register::PC, 0x2222)]);
    cpu.set_register(Register::FLAGS, ZERO | NEGATIVE);
    let from = |spec| Instruction::MoveFromSpecial { rt: Register::R1, spec };
    assert_eq!(cpu.execute(from(Register::SP)), Ok(()));
    assert_eq!(cpu.get_register(Register::R1), 0x1111);
    cpu.execute(from(Register::PC)).unwrap();
    assert_eq!(cpu.get_register(Register::R1), 0x2222);
    cpu.execute(from(Register::FLAGS)).unwrap();
    assert_eq!(cpu.get_register(Register::R1), ZERO | NEGATIVE);

    let to = |spec| Instruction::MoveFromToSpecial { rt: Register::R2, spec };
    cpu.set_register(Register::R2, 0xABCF);
    assert_eq!(cpu.execute(to(Register::SP)), Ok(()));
    assert_eq!(cpu.get_sp(), 0xABCF);
    cpu.execute(to(Register::PC)).unwrap();
    assert_eq!(cpu.get_pc(), 0xABCF);
    cpu.execute(to(Register::FLAGS)).unwrap();
    assert_eq!(cpu.get_register(Register::FLAGS), 0x000F);
    assert_eq!(cpu.get_register(Register::R2), 0xABCF);
}

#[test]
fn nop_changes_nothing_and_sysall_is_not_implemented() {
    let mut cpu = with(&[(Register::R1, 7), (Register::PC, 0x30), (Register::SP, 0x40)]);
    cpu.set_register(Register::FLAGS, CARRY);
    assert_eq!(cpu.execute(Instruction::Nop), Ok(()));
    assert_eq!(cpu.get_registers(), &[0, 7, 0, 0, 0, 0, 0, 0]);
    assert_eq!((cpu.get_pc(), cpu.get_sp()), (0x30, 0x40));
    assert_eq!(cpu.get_register(Register::FLAGS), CARRY);

    assert_eq!(cpu.execute(Instruction::Sysall), Err(CpuError::NotImplementedYet));
    assert_eq!(cpu.get_registers(), &[0, 7, 0, 0, 0, 0, 0, 0]);
    assert_eq!((cpu.get_pc(), cpu.get_sp()), (0x30, 0x40));
}

#[test]
fn load_program_sets_up_the_machine() {
    let mut cpu = with(&[(Register::R1, 0x1234), (Register::R7, 0x4321)]);
    cpu.set_register(Register::FLAGS, ZERO | CARRY);
    cpu.execute(Instruction::Store { rt: Register::R1, addr: 0x80 }).unwrap();
    cpu.execute(Instruction::Store { rt: Register::R1, addr: 0x12 }).unwrap();

    assert_eq!(cpu.load_program(&[0xAA, 0xBB, 0xCC], 0x10), Ok(()));
    assert_eq!(cpu.get_pc(), 0x10);
    assert_eq!(cpu.get_sp(), 0xFFFE);
    // the program is in memory; the byte behind it and the word far from it stay
    assert_eq!(cpu.get_memory().get_range(0x0F, 5), vec![0x00, 0xAA, 0xBB, 0xCC, 0x12]);
    assert_eq!(cpu.get_memory().read_word(0x80), Ok(0x1234));
    // registers and flags stay
    assert_eq!(cpu.get_registers(), &[0, 0x1234, 0, 0, 0, 0, 0, 0x4321]);
    assert_eq!(cpu.get_register(Register::FLAGS), ZERO | CARRY);
}

#[test]
fn load_program_clears_the_halted_state() {
    let program = assemble(&[
        Word::IType { opcode: 0x4, rt: 0x1, imm: 0x01 },
        Word::EType { subcode: 0xF, rs: 0, rt: 0 },
    ]);
    let mut cpu = CPU::new();
    cpu.load_program(&program, 0x40).unwrap();
    assert_eq!(cpu.run(), Ok(()));
    assert_eq!(cpu.step(), Ok(false));
    assert_eq!(cpu.get_register(Register::R1), 1);

    cpu.load_program(&program, 0x40).unwrap();
    assert_eq!(cpu.step(), Ok(true));
    assert_eq!(cpu.get_register(Register::R1), 2);
    assert_eq!(cpu.step(), Ok(true));
    assert_eq!(cpu.step(), Ok(false));
}

#[test]
fn load_program_at_the_edges() {
    let mut cpu = CPU::new();
    assert_eq!(cpu.load_program(&[], 0x1234), Ok(()));
    assert_eq!(cpu.get_pc(), 0x1234);
    assert_eq!(
        cpu.step(),
        Err(CpuError::ProgramBoundsViolation { pc: 0x1234, iend: 0x1236, low: 0x1234, high: 0x1234 })
    );

    // a program that ends at the highest program bound
    let mut cpu = CPU::new();
    assert_eq!(cpu.load_program(&nop_program(2), 0xFFFB), Ok(()));
    assert_eq!(cpu.get_memory().get_range(0xFFFB, 4), vec![0x00, 0xF0, 0x00, 0xF0]);
    assert_eq!(cpu.step(), Ok(true));
    assert_eq!(cpu.step(), Ok(true));
    assert_eq!(cpu.get_pc(), 0xFFFF);
}

#[test]
fn program_boundary() {
    let mut cpu = CPU::new();
    cpu.load_program(&nop_program(6), 0x10).unwrap();
    for i in 0..6u16 {
        assert_eq!(cpu.get_pc(), 0x10 + 2 * i);
        assert_eq!(cpu.step(), Ok(true));
    }
    assert_eq!(cpu.get_pc(), 0x1C);
    let fault = CpuError::ProgramBoundsViolation { pc: 0x1C, iend: 0x1E, low: 0x10, high: 0x1C };
    assert_eq!(cpu.step(), Err(fault));
    // the fault changes nothing, and the next step fails alike
    assert_eq!(cpu.get_pc(), 0x1C);
    assert_eq!(cpu.step(), Err(fault));

    for pc in [0x1Du16, 0x1E, 0x100, 0xFFFD, 0xFFFE, 0xFFFF] {
        cpu.set_register(Register::PC, pc);
        let iend = pc.saturating_add(2);
        assert_eq!(
            cpu.step(),
            Err(CpuError::ProgramBoundsViolation { pc, iend, low: 0x10, high: 0x1C })
        );
        assert_eq!(cpu.get_pc(), pc);
    }
}

#[test]
fn program_boundary_below_and_across() {
    let mut cpu = CPU::new();
    cpu.load_program(&nop_program(6), 0x10).unwrap();

    cpu.set_register(Register::PC, 0x0E);
    assert_eq!(
        cpu.step(),
        Err(CpuError::ProgramBoundsViolation { pc: 0x0E, iend: 0x10, low: 0x10, high: 0x1C })
    );
    cpu.set_register(Register::PC, 0x0F);
    assert_eq!(
        cpu.step(),
        Err(CpuError::ProgramBoundsViolation { pc: 0x0F, iend: 0x11, low: 0x10, high: 0x1C })
    );
    // an instruction whose second byte lies past the end
    cpu.set_register(Register::PC, 0x1B);
    assert_eq!(
        cpu.step(),
        Err(CpuError::ProgramBoundsViolation { pc: 0x1B, iend: 0x1D, low: 0x10, high: 0x1C })
    );
    // the last instruction of the program
    cpu.set_register(Register::PC, 0x1A);
    assert_eq!(cpu.step(), Ok(true));
    assert_eq!(cpu.get_pc(), 0x1C);
}

#[test]
fn fetch_at_the_top_of_memory() {
    // with the program bound at 0xFFFF no instruction is taken to end past it
    let mut cpu = CPU::new();
    cpu.load_program(&nop_program(1), 0xFFFD).unwrap();
    cpu.set_register(Register::PC, 0xFFFF);
    assert_eq!(
        cpu.step(),
        Err(CpuError::MemoryOutOfBounds(MemoryError::OutOfBounds(0xFFFF)))
    );
    assert_eq!(cpu.get_pc(), 0xFFFF);

    // the word at 0xFFFE is (0x00, 0x00): ADD R0, R0, R0
    cpu.set_register(Register::PC, 0xFFFE);
    assert_eq!(cpu.step(), Ok(true));
    assert_eq!(cpu.get_pc(), 0x0000);
}

#[test]
fn step_rejects_a_word_that_is_no_instruction() {
    let mut cpu = CPU::new();
    // R-type, opcode 1, funct 6
    cpu.load_program(&[0x06, 0x10], 0x20).unwrap();
    let word = Word::RType { opcode: 1, rd: 0, rs: 0, rt: 0, funct: 6 };
    assert_eq!(
        cpu.step(),
        Err(CpuError::InvalidInstruction(word, InstructionError::InvalidRType(1, 6)))
    );
    // the program counter is past the word
    assert_eq!(cpu.get_pc(), 0x22);

    let mut cpu = CPU::new();
    // E-type, subcode 1, selector 3
    let bad = Word::EType { subcode: 1, rs: 4, rt: 3 };
    cpu.load_program(&assemble(&[bad]), 0x20).unwrap();
    assert_eq!(
        cpu.step(),
        Err(CpuError::InvalidInstruction(bad, InstructionError::InvalidSpecialRegister(3)))
    );
    let mut cpu = CPU::new();
    let bad = Word::EType { subcode: 7, rs: 0, rt: 0 };
    cpu.load_program(&assemble(&[bad]), 0x20).unwrap();
    assert_eq!(
        cpu.step(),
        Err(CpuError::InvalidInstruction(bad, InstructionError::InvalidEType(7)))
    );
}

#[test]
fn step_surfaces_handler_faults() {
    let mut cpu = CPU::new();
    cpu.load_program(&assemble(&[Word::EType { subcode: 0xE, rs: 0, rt: 0 }]), 0x20).unwrap();
    assert_eq!(cpu.step(), Err(CpuError::NotImplementedYet));
    assert_eq!(cpu.get_pc(), 0x22);

    let mut cpu = CPU::new();
    // POP with the stack pointer at 0xFFFF
    cpu.load_program(
        &assemble(&[Word::RType { opcode: 1, rd: 1, rs: 0, rt: 0, funct: 5 }]),
        0x20,
    )
    .unwrap();
    cpu.set_register(Register::SP, 0xFFFF);
    assert_eq!(cpu.step(), Err(CpuError::StackOverflow));
    assert_eq!(cpu.run(), Err(CpuError::ProgramBoundsViolation {
        pc: 0x22,
        iend: 0x24,
        low: 0x20,
        high: 0x22,
    }));
}

#[test]
fn halted_machine_makes_no_progress() {
    let mut cpu = CPU::new();
    cpu.load_program(&assemble(&[Word::EType { subcode: 0xF, rs: 0, rt: 0 }]), 0x20).unwrap();
    assert_eq!(cpu.step(), Ok(true));
    assert_eq!(cpu.get_pc(), 0x22);
    for _ in 0..3 {
        assert_eq!(cpu.step(), Ok(false));
        assert_eq!(cpu.get_pc(), 0x22);
        assert_eq!(cpu.get_sp(), 0xFFFE);
    }
    assert_eq!(cpu.run(), Ok(()));
    // a halted machine stays halted whatever is executed on it
    cpu.execute(Instruction::AddImmediate { rt: Register::R1, imm: 1 }).unwrap();
    cpu.execute(Instruction::Nop).unwrap();
    assert_eq!(cpu.step(), Ok(false));
}

#[test]
fn end_to_end_scenario() {
    let program = assemble(&[
        Word::IType { opcode: 0x4, rt: 0x1, imm: 0x05 },
        Word::IType { opcode: 0x4, rt: 0x2, imm: 0x03 },
        Word::RType { opcode: 0x0, rd: 0x3, rs: 0x1, rt: 0x2, funct: 0x0 },
        Word::IType { opcode: 0x3, rt: 0x3, imm: 0x1F },
        Word::IType { opcode: 0x2, rt: 0x5, imm: 0x1F },
        Word::EType { subcode: 0xF, rs: 0x0, rt: 0x0 },
    ]);
    assert_eq!(program.len(), 12);

    let mut cpu = CPU::new();
    assert_eq!(cpu.load_program(&program, 0x10), Ok(()));
    assert_eq!(cpu.run(), Ok(()));

    assert_eq!(cpu.get_register(Register::R3), 8);
    assert_eq!(cpu.get_register(Register::R5), 8);
    assert_eq!(cpu.get_registers(), &[0, 5, 3, 8, 0, 8, 0, 0]);
    assert_eq!(cpu.get_memory().read_word(0x1F), Ok(8));
    assert_eq!(cpu.get_pc(), 0x1C);
    assert_eq!(cpu.get_sp(), 0xFFFE);
    // halted: a further step makes no progress, and is no error
    assert_eq!(cpu.step(), Ok(false));
    assert_eq!(cpu.step(), Ok(false));
    assert_eq!(cpu.get_registers(), &[0, 5, 3, 8, 0, 8, 0, 0]);
}

#[test]
fn run_stops_at_the_first_fault() {
    let mut cpu = CPU::new();
    cpu.load_program(&nop_program(3), 0x10).unwrap();
    assert_eq!(
        cpu.run(),
        Err(CpuError::ProgramBoundsViolation { pc: 0x16, iend: 0x18, low: 0x10, high: 0x16 })
    );
    assert_eq!(cpu.get_pc(), 0x16);
}

#[test]
fn run_a_counting_loop() {
    // 0x100: ADDI R1, 3
    // 0x102: ADDI R2, 2      <- loop
    // 0x104: ADDI R1, -1
    // 0x106: JNZ  -6         (to 0x102)
    // 0x108: HALT
    let program = assemble(&[
        Word::IType { opcode: 0x4, rt: 1, imm: 3 },
        Word::IType { opcode: 0x4, rt: 2, imm: 2 },
        Word::IType { opcode: 0x4, rt: 1, imm: 0xFF },
        Word::JType { opcode: 0xC, offset: 0xFFA },
        Word::EType { subcode: 0xF, rs: 0, rt: 0 },
    ]);
    let mut cpu = CPU::new();
    cpu.load_program(&program, 0x100).unwrap();
    assert_eq!(cpu.run(), Ok(()));
    assert_eq!(cpu.get_register(Register::R1), 0);
    assert_eq!(cpu.get_register(Register::R2), 6);
    assert_eq!(cpu.get_pc(), 0x10A);
    assert!(cpu.get_flags().zero);
    assert_eq!(cpu.step(), Ok(false));
}

#[test]
fn run_a_call_and_return() {
    // 0x200: CALL +2         (to 0x204)
    // 0x202: HALT
    // 0x204: ADDI R1, 7
    // 0x206: RET
    let program = assemble(&[
        Word::JType { opcode: 0x9, offset: 0x002 },
        Word::EType { subcode: 0xF, rs: 0, rt: 0 },
        Word::IType { opcode: 0x4, rt: 1, imm: 7 },
        Word::RType { opcode: 0x1, rd: 0, rs: 0, rt: 0, funct: 0x3 },
    ]);
    let mut cpu = CPU::new();
    cpu.load_program(&program, 0x200).unwrap();
    assert_eq!(cpu.step(), Ok(true));
    assert_eq!(cpu.get_pc(), 0x204);
    assert_eq!(cpu.get_sp(), 0xFFFC);
    assert_eq!(cpu.get_memory().read_word(0xFFFC), Ok(0x202));
    assert_eq!(cpu.run(), Ok(()));
    assert_eq!(cpu.get_register(Register::R1), 7);
    assert_eq!(cpu.get_sp(), 0xFFFE);
    assert_eq!(cpu.get_pc(), 0x204);
}

#[test]
fn run_for_stops_after_the_given_number_of_steps() {
    // 0x100: ADDI R1, 1
    // 0x102: JMP  -4         (to 0x100)
    let program = assemble(&[
        Word::IType { opcode: 0x4, rt: 1, imm: 1 },
        Word::JType { opcode: 0xA, offset: 0xFFC },
    ]);
    let mut cpu = CPU::new();
    cpu.load_program(&program, 0x100).unwrap();
    assert_eq!(cpu.run_for(0), None);
    assert_eq!(cpu.get_register(Register::R1), 0);
    assert_eq!(cpu.run_for(7), None);
    assert_eq!(cpu.get_register(Register::R1), 4);
    assert_eq!(cpu.get_pc(), 0x102);
    assert_eq!(cpu.run_for(1000), None);
    assert_eq!(cpu.get_register(Register::R1), 504);
}

#[test]
fn run_for_reports_how_the_run_ended() {
    let halting = assemble(&[
        Word::IType { opcode: 0x4, rt: 1, imm: 1 },
        Word::EType { subcode: 0xF, rs: 0, rt: 0 },
    ]);
    let mut cpu = CPU::new();
    cpu.load_program(&halting, 0x100).unwrap();
    // two steps execute the program, the third finds the machine halted
    assert_eq!(cpu.run_for(2), None);
    assert_eq!(cpu.run_for(1), Some(Ok(())));
    assert_eq!(cpu.run_for(0), None);
    assert_eq!(cpu.run_for(5), Some(Ok(())));

    cpu.load_program(&halting, 0x100).unwrap();
    assert_eq!(cpu.run_for(3), Some(Ok(())));
    assert_eq!(cpu.get_register(Register::R1), 2);

    let mut cpu = CPU::new();
    cpu.load_program(&nop_program(2), 0x100).unwrap();
    assert_eq!(
        cpu.run_for(u64::MAX),
        Some(Err(CpuError::ProgramBoundsViolation {
            pc: 0x104,
            iend: 0x106,
            low: 0x100,
            high: 0x104,
        }))
    );
}
