//! The 64 KiB byte-addressable store, with little-endian word access.

use vstd::prelude::*;

verus! {

/// Why a memory access was refused.
#[derive(Debug, Clone, Copy, PartialEq, Eq, Structural)]
pub enum MemoryError {
    /// The access at this address would reach past the last byte.
    OutOfBounds(u16),
}

/// The number of bytes in the store.
pub const MEMORY_SIZE: usize = 0x10000;

/// The store: one byte for each address from 0x0000 to 0xFFFF.
pub struct Memory {
    pub data: [u8; 0x10000],
}

impl View for Memory {
    type V = Seq<u8>;

    open spec fn view(&self) -> Seq<u8> {
        self.data@
    }
}

/// The word that `memory` holds at `address`: the low byte at `address`,
/// the high byte above it.
pub open spec fn word_at(memory: Seq<u8>, address: int) -> u16 {
    (memory[address] + 0x100 * memory[address + 1]) as u16
}

/// `memory` after `value` is stored as a word at `address`.
pub open spec fn with_word(memory: Seq<u8>, address: int, value: u16) -> Seq<u8> {
    memory.update(address, (value % 0x100) as u8).update(address + 1, (value / 0x100) as u8)
}

/// A store in which every byte is zero.
pub open spec fn zeroed() -> Seq<u8> {
    Seq::new(0x10000, |i: int| 0u8)
}

impl Default for Memory {
    /// A store in which every byte is zero.
    fn default() -> (memory: Memory)
        ensures
            memory@ == zeroed(),
    {
        let memory = Memory { data: [0u8; 0x10000] };
        assert(memory@ =~= zeroed());
        memory
    }
}

impl Memory {
    /// Reads the word at `address`. A word cannot start at the last
    /// address, 0xFFFF.
    pub fn read_word(&self, address: u16) -> (word: Result<u16, MemoryError>)
        ensures
            address < 0xFFFF ==> word == Ok::<u16, MemoryError>(word_at(self@, address as int)),
            address >= 0xFFFF ==> word == Err::<u16, MemoryError>(
                MemoryError::OutOfBounds(address),
            ),
    {
        let addr = address as usize;

        if addr >= MEMORY_SIZE - 1 {
            return Err(MemoryError::OutOfBounds(address));
        }
        // Little-endian: the low byte is at the lower address.

        let low = self.data[addr] as u16;
        let high = self.data[addr + 1] as u16;
        assert((high << 8) | low == low + 0x100 * high) by (bit_vector)
            requires
                low < 0x100,
                high < 0x100,
        ;
        Ok((high << 8) | low)
    }

    /// Stores `value` as a word at `address`, or changes nothing if a word
    /// cannot start there.
    pub fn write_word(&mut self, address: u16, value: u16) -> (done: Result<(), MemoryError>)
        ensures
            address < 0xFFFF ==> done == Ok::<(), MemoryError>(()) && final(self)@ == with_word(
                old(self)@,
                address as int,
                value,
            ),
            address >= 0xFFFF ==> done == Err::<(), MemoryError>(
                MemoryError::OutOfBounds(address),
            ) && final(self)@ == old(self)@,
    {
        let addr = address as usize;

        if addr >= MEMORY_SIZE - 1 {
            return Err(MemoryError::OutOfBounds(address));
        }
        // Little-endian: the low byte goes to the lower address.

        assert(value & 0x00FF == value % 0x100 && value >> 8 == value / 0x100) by (bit_vector);
        let low = (value & 0x00FF) as u8;
        let high = (value >> 8) as u8;
        self.data[addr] = low;
        self.data[addr + 1] = high;

        Ok(())
    }

    /// Stores one byte. Every 16-bit address names a byte, so this always
    /// succeeds.
    pub fn write_byte(&mut self, address: u16, byte: u8) -> (done: Result<(), MemoryError>)
        ensures
            done == Ok::<(), MemoryError>(()),
            final(self)@ == old(self)@.update(address as int, byte),
    {
        let addr = address as usize;

        if addr >= MEMORY_SIZE {
            return Err(MemoryError::OutOfBounds(address));
        }
        self.data[addr] = byte;
        Ok(())
    }

    /// Copies `length` bytes starting at `start`. If the range reaches past
    /// the last byte, the result is empty: never a part of the range.
    pub fn get_range(&self, start: u16, length: u16) -> (bytes: Vec<u8>)
        ensures
            start + length <= 0x10000 ==> bytes@ == self@.subrange(
                start as int,
                start + length,
            ),
            start + length > 0x10000 ==> bytes@ == Seq::<u8>::empty(),
    {
        let start_idx = start as usize;
        let end_idx = start as usize + length as usize;

        let mut bytes: Vec<u8> = Vec::new();
        if end_idx > MEMORY_SIZE {
            return bytes;
        }
        let mut i: usize = start_idx;
        while i < end_idx
            invariant
                start_idx <= i <= end_idx <= 0x10000,
                bytes@ == self@.subrange(start_idx as int, i as int),
            decreases end_idx - i,
        {
            bytes.push(self.data[i]);
            i += 1;
            assert(bytes@ =~= self@.subrange(start_idx as int, i as int));
        }
        bytes
    }

    /// A word that was stored is the word that is read back.
    pub proof fn lemma_read_own_write(memory: Seq<u8>, address: int, value: u16)
        requires
            memory.len() == 0x10000,
            0 <= address < 0xFFFF,
        ensures
            word_at(with_word(memory, address, value), address) == value,
            with_word(memory, address, value).len() == 0x10000,
    {
    }

    /// Storing a word leaves every byte but its own two as it was, and so
    /// every word that does not overlap it.
    pub proof fn lemma_read_other_write(memory: Seq<u8>, address: int, value: u16, other: int)
        requires
            memory.len() == 0x10000,
            0 <= address < 0xFFFF,
            0 <= other < 0x10000,
            other != address,
            other != address + 1,
        ensures
            with_word(memory, address, value)[other] == memory[other],
            other + 1 != address && other < 0xFFFF ==> word_at(
                with_word(memory, address, value),
                other,
            ) == word_at(memory, other),
    {
    }
}

} // verus!
