//! Read-only access to the state of the engine, and dumps of it as text.

use super::flags::Flags;
use super::memory::Memory;
use super::text::{digits, number, push_digits, push_number, push_truth, truth};
use super::CPU;
use vstd::prelude::*;

verus! {

/// The line of the register dump for the general register with the given
/// number: its value in hexadecimal, in binary and in decimal.
pub open spec fn register_line(index: nat, value: u16) -> Seq<char> {
    "R"@ + digits(index, 10) + " 0x"@ + number(value as nat, 16, 4, true) + " 0b"@ + number(
        value as nat,
        2,
        16,
        true,
    ) + " ("@ + number(value as nat, 10, 5, false) + ")\n"@
}

/// The lines of the register dump for the first `count` register slots.
pub open spec fn register_lines(registers: Seq<u16>, count: nat) -> Seq<char>
    decreases count,
{
    if count == 0 {
        Seq::empty()
    } else {
        register_lines(registers, (count - 1) as nat) + register_line(
            (count - 1) as nat,
            registers[count - 1],
        )
    }
}

/// The line of the register dump for the flags: packed, then one by one.
pub open spec fn flags_line(flags: Flags) -> Seq<char> {
    "FLAGS: 0x"@ + number(flags.packed() as nat, 16, 4, true) + " [Z:"@ + truth(flags.zero)
        + " C:"@ + truth(flags.carry) + " N:"@ + truth(flags.negative) + " V:"@ + truth(
        flags.overflow,
    ) + "]\n"@
}

/// The register dump: a line for each of the eight register slots, then the
/// line of the flags.
pub open spec fn register_dump(registers: Seq<u16>, flags: Flags) -> Seq<char> {
    register_lines(registers, 8) + flags_line(flags)
}

/// The text for the byte at position `i` of a memory dump that starts at
/// `start`. Sixteen bytes make a line: the first is preceded by its
/// address, the last followed by a line break.
pub open spec fn memory_entry(start: u16, i: nat, byte: u8) -> Seq<char> {
    (if i % 16 == 0 {
        "0x"@ + number((start + i) as nat, 16, 4, true) + ": "@
    } else {
        Seq::empty()
    }) + "0x"@ + number(byte as nat, 16, 2, false) + " "@ + (if i % 16 == 15 {
        "\n"@
    } else {
        Seq::empty()
    })
}

/// The memory dump of the first `count` bytes of `data`, which lie at the
/// addresses from `start` on.
pub open spec fn memory_dump(start: u16, data: Seq<u8>, count: nat) -> Seq<char>
    decreases count,
{
    if count == 0 {
        Seq::empty()
    } else {
        memory_dump(start, data, (count - 1) as nat) + memory_entry(
            start,
            (count - 1) as nat,
            data[count - 1],
        )
    }
}

/// The bytes that a memory dump of `length` bytes from `start` shows: none
/// if the range reaches past the last byte of memory.
pub open spec fn dumped_range(memory: Seq<u8>, start: u16, length: u16) -> Seq<u8> {
    if start + length <= 0x10000 {
        memory.subrange(start as int, start + length)
    } else {
        Seq::empty()
    }
}

/// Appends the line of one general register.
fn push_register_line(out: &mut String, index: u16, value: u16)
    ensures
        final(out)@ == old(out)@ + register_line(index as nat, value),
{
    out.append("R");
    push_digits(out, index, 10);
    out.append(" 0x");
    push_number(out, value, 16, 4, true);
    out.append(" 0b");
    push_number(out, value, 2, 16, true);
    out.append(" (");
    push_number(out, value, 10, 5, false);
    out.append(")\n");
    assert(out@ =~= old(out)@ + register_line(index as nat, value));
}

/// Appends the line of the flags.
fn push_flags_line(out: &mut String, flags: &Flags)
    ensures
        final(out)@ == old(out)@ + flags_line(*flags),
{
    let ghost start = out@;
    out.append("FLAGS: 0x");
    push_number(out, flags.as_u16(), 16, 4, true);
    let ghost head = "FLAGS: 0x"@ + number(flags.packed() as nat, 16, 4, true);
    assert(out@ =~= start + head);
    out.append(" [Z:");
    push_truth(out, flags.zero);
    let ghost head = head + " [Z:"@ + truth(flags.zero);
    assert(out@ =~= start + head);
    out.append(" C:");
    push_truth(out, flags.carry);
    let ghost head = head + " C:"@ + truth(flags.carry);
    assert(out@ =~= start + head);
    out.append(" N:");
    push_truth(out, flags.negative);
    let ghost head = head + " N:"@ + truth(flags.negative);
    assert(out@ =~= start + head);
    out.append(" V:");
    push_truth(out, flags.overflow);
    out.append("]\n");
    let ghost head = head + " V:"@ + truth(flags.overflow) + "]\n"@;
    assert(out@ =~= start + head);
}

/// Appends the text for one byte of a memory dump.
fn push_memory_entry(out: &mut String, start: u16, i: usize, byte: u8)
    requires
        start + i <= 0xFFFF,
    ensures
        final(out)@ == old(out)@ + memory_entry(start, i as nat, byte),
{
    if i % 16 == 0 {
        out.append("0x");
        push_number(out, start + i as u16, 16, 4, true);
        out.append(": ");
    }
    out.append("0x");
    push_number(out, byte as u16, 16, 2, false);
    out.append(" ");
    if i % 16 == 15 {
        out.append("\n");
    }
    assert(out@ =~= old(out)@ + memory_entry(start, i as nat, byte));
}

impl CPU {
    /// The eight slots of the general registers. Slot 0 is never written.
    pub fn get_registers(&self) -> (registers: &[u16])
        ensures
            registers@ == self@.registers,
    {
        self.registers.as_slice()
    }

    /// The program counter.
    pub fn get_pc(&self) -> (pc: u16)
        ensures
            pc == self@.pc,
    {
        self.pc
    }

    /// The stack pointer.
    pub fn get_sp(&self) -> (sp: u16)
        ensures
            sp == self@.sp,
    {
        self.sp
    }

    /// The condition flags.
    pub fn get_flags(&self) -> (flags: &Flags)
        ensures
            *flags == self@.flags,
    {
        &self.flags
    }

    /// The memory.
    pub fn get_memory(&self) -> (memory: &Memory)
        ensures
            memory@ == self@.memory,
    {
        &self.memory
    }

    /// The registers and the flags as text, one line each.
    pub fn dump_registers(&self) -> (text: String)
        ensures
            text@ == register_dump(self@.registers, self@.flags),
    {
        let mut output = String::new();

        let mut i: usize = 0;
        while i < 8
            invariant
                i <= 8,
                output@ == register_lines(self@.registers, i as nat),
            decreases 8 - i,
        {
            push_register_line(&mut output, i as u16, self.registers[i]);
            i += 1;
        }
        push_flags_line(&mut output, &self.flags);

        output
    }

    /// The `length` bytes of memory from `start` on as text, sixteen to a
    /// line. A range that reaches past the last byte gives an empty text.
    pub fn dump_memory_hex(&self, start: u16, length: u16) -> (text: String)
        ensures
            text@ == memory_dump(
                start,
                dumped_range(self@.memory, start, length),
                dumped_range(self@.memory, start, length).len(),
            ),
    {
        let mut output = String::new();
        let data = self.memory.get_range(start, length);

        let mut i: usize = 0;
        while i < data.len()
            invariant
                i <= data@.len(),
                data@ == dumped_range(self@.memory, start, length),
                output@ == memory_dump(start, data@, i as nat),
            decreases data@.len() - i,
        {
            push_memory_entry(&mut output, start, i, data[i]);
            i += 1;
        }
        output
    }
}

} // verus!
