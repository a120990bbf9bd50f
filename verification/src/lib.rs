//! A simulator for a 16-bit register machine: eight general registers, a
//! 64 KiB byte-addressable memory, four condition flags and a
//! fetch/decode/execute cycle.
//!
//! Every executable function carries a contract over a mathematical model of
//! the machine ([`cpu::machine::Machine`]), and the laws that relate the
//! functions to each other are stated as proof functions next to them.

pub mod cpu;
