//! The four layouts of a 16-bit instruction word, and the mapping between a
//! raw word and its fields.
//!
//! ```text
//! R-type   15..12 opcode | 11..9 rd | 8..6 rs | 5..3 rt | 2..0 funct
//! I-type   15..12 opcode | 11..9 rt | 8 unused | 7..0 immediate
//! J-type   15..12 opcode | 11..0 offset (two's complement)
//! E-type   15..12 0xF    | 11..8 subcode | 7..5 rs | 4..2 rt | 1..0 unused
//! ```
//!
//! The opcode nibble alone selects the layout: 0x0-0x1 is R-type, 0x2-0x8 is
//! I-type, 0x9-0xD is J-type and 0xF is E-type. No layout is assigned to the
//! nibble 0xE; a word that carries it reads as the all-zero R-type word.

use super::super::memory::word_at;
use super::super::text::{digits, push_digits};
use vstd::prelude::*;

verus! {

const OPCODE_SHIFT: u16 = 12;

const SUBCODE_SHIFT: u16 = 8;

const SUB_RS_SHIFT: u16 = 5;

const SUB_RT_SHIFT: u16 = 2;

const RD_SHIFT: u16 = 9;

const RS_SHIFT: u16 = 6;

const RT_SHIFT: u16 = 3;

const OPCODE_MASK: u16 = 0b1111_0000_0000_0000;

const RD_MASK: u16 = 0b0000_1110_0000_0000;

const RS_MASK: u16 = 0b0000_0001_1100_0000;

const RT_MASK: u16 = 0b0000_0000_0011_1000;

const FUNCT_MASK: u16 = 0b0000_0000_0000_0111;

const IMMEDIATE_MASK: u16 = 0b0000_0000_1111_1111;

const OFFSET_MASK: u16 = 0b0000_1111_1111_1111;

const SUBCODE_MASK: u16 = 0b0000_1111_0000_0000;

const SUB_RS_MASK: u16 = 0b0000_0000_1110_0000;

const SUB_RT_MASK: u16 = 0b0000_0000_0001_1100;

/// An instruction word, split into the fields of its layout.
#[derive(Debug, Clone, Copy, PartialEq, Eq, Structural)]
pub enum Word {
    /// Register-register operation.
    RType { opcode: u8, rd: u8, rs: u8, rt: u8, funct: u8 },
    /// Operation with an 8-bit immediate.
    IType { opcode: u8, rt: u8, imm: u8 },
    /// Jump with a 12-bit signed offset.
    JType { opcode: u8, offset: u16 },
    /// Extended operation; the opcode nibble is always 0xF.
    EType { subcode: u8, rs: u8, rt: u8 },
}

impl Word {
    /// Every field fits the width that the layout gives it, and the opcode
    /// lies in the range that selects the layout.
    pub open spec fn is_valid(self) -> bool {
        match self {
            Word::RType { opcode, rd, rs, rt, funct } => {
                opcode <= 0x1 && rd < 8 && rs < 8 && rt < 8 && funct < 8
            },
            Word::IType { opcode, rt, imm } => 0x2 <= opcode <= 0x8 && rt < 8,
            Word::JType { opcode, offset } => 0x9 <= opcode <= 0xD && offset < 0x1000,
            Word::EType { subcode, rs, rt } => subcode < 16 && rs < 8 && rt < 8,
        }
    }

    /// The word that a raw 16-bit value denotes.
    pub open spec fn from_bits(bits: u16) -> Word {
        let opcode = (bits / 0x1000) as u8;
        if opcode <= 0x1 {
            Word::RType {
                opcode,
                rd: (bits / 0x200 % 8) as u8,
                rs: (bits / 0x40 % 8) as u8,
                rt: (bits / 0x8 % 8) as u8,
                funct: (bits % 8) as u8,
            }
        } else if opcode <= 0x8 {
            Word::IType { opcode, rt: (bits / 0x200 % 8) as u8, imm: (bits % 0x100) as u8 }
        } else if opcode <= 0xD {
            Word::JType { opcode, offset: bits % 0x1000 }
        } else if opcode == 0xF {
            Word::EType {
                subcode: (bits / 0x100 % 16) as u8,
                rs: (bits / 0x20 % 8) as u8,
                rt: (bits / 0x4 % 8) as u8,
            }
        } else {
            Word::RType { opcode: 0, rd: 0, rs: 0, rt: 0, funct: 0 }
        }
    }

    /// The raw value of a word: each field shifted to its place and the
    /// places combined. A field wider than its place spills into the places
    /// above it, and what passes bit 15 is lost.
    pub open spec fn bits(self) -> u16 {
        match self {
            Word::RType { opcode, rd, rs, rt, funct } => {
                (opcode as u16) << 12 | (rd as u16) << 9 | (rs as u16) << 6 | (rt as u16) << 3 | (
                funct as u16)
            },
            Word::IType { opcode, rt, imm } => {
                (opcode as u16) << 12 | (rt as u16) << 9 | (imm as u16)
            },
            Word::JType { opcode, offset } => (opcode as u16) << 12 | offset,
            Word::EType { subcode, rs, rt } => {
                0xFu16 << 12 | (subcode as u16) << 8 | (rs as u16) << 5 | (rt as u16) << 2
            },
        }
    }

    /// The raw value of a valid word, as a sum: no two fields overlap.
    pub open spec fn packed(self) -> int {
        match self {
            Word::RType { opcode, rd, rs, rt, funct } => {
                opcode * 0x1000 + rd * 0x200 + rs * 0x40 + rt * 0x8 + funct
            },
            Word::IType { opcode, rt, imm } => opcode * 0x1000 + rt * 0x200 + imm,
            Word::JType { opcode, offset } => opcode * 0x1000 + offset,
            Word::EType { subcode, rs, rt } => 0xF000 + subcode * 0x100 + rs * 0x20 + rt * 0x4,
        }
    }

    /// A raw value in which the opcode nibble selects a layout and the bits
    /// that the layout leaves unused are zero.
    pub open spec fn is_canonical(bits: u16) -> bool {
        let opcode = bits / 0x1000;
        &&& opcode != 0xE
        &&& 0x2 <= opcode <= 0x8 ==> bits / 0x100 % 2 == 0
        &&& opcode == 0xF ==> bits % 4 == 0
    }

    /// Splits a raw 16-bit value into the fields of the layout that its
    /// opcode nibble selects.
    pub fn new(bits: u16) -> (word: Word)
        ensures
            word == Word::from_bits(bits),
            word.is_valid(),
    {
        assert({
            &&& (bits & 0xF000) >> 12 == bits / 0x1000
            &&& (bits & 0x0E00) >> 9 == bits / 0x200 % 8
            &&& (bits & 0x01C0) >> 6 == bits / 0x40 % 8
            &&& (bits & 0x0038) >> 3 == bits / 0x8 % 8
            &&& bits & 0x0007 == bits % 8
            &&& bits & 0x00FF == bits % 0x100
            &&& bits & 0x0FFF == bits % 0x1000
            &&& (bits & 0x0F00) >> 8 == bits / 0x100 % 16
            &&& (bits & 0x00E0) >> 5 == bits / 0x20 % 8
            &&& (bits & 0x001C) >> 2 == bits / 0x4 % 8
        }) by (bit_vector);
        let opcode = ((bits & OPCODE_MASK) >> OPCODE_SHIFT) as u8;

        if opcode <= 0x1 {
            Word::RType {
                opcode,
                rd: ((bits & RD_MASK) >> RD_SHIFT) as u8,
                rs: ((bits & RS_MASK) >> RS_SHIFT) as u8,
                rt: ((bits & RT_MASK) >> RT_SHIFT) as u8,
                funct: (bits & FUNCT_MASK) as u8,
            }
        } else if opcode <= 0x8 {
            Word::IType {
                opcode,
                rt: ((bits & RD_MASK) >> RD_SHIFT) as u8,
                imm: (bits & IMMEDIATE_MASK) as u8,
            }
        } else if opcode <= 0xD {
            Word::JType { opcode, offset: bits & OFFSET_MASK }
        } else if opcode == 0xF {
            Word::EType {
                subcode: ((bits & SUBCODE_MASK) >> SUBCODE_SHIFT) as u8,
                rs: ((bits & SUB_RS_MASK) >> SUB_RS_SHIFT) as u8,
                rt: ((bits & SUB_RT_MASK) >> SUB_RT_SHIFT) as u8,
            }
        } else {
            Word::RType { opcode: 0, rd: 0, rs: 0, rt: 0, funct: 0 }
        }
    }

    /// The opcode nibble. An E-type word has the fixed opcode 0xF.
    pub fn opcode(self) -> (opcode: u8)
        ensures
            opcode == match self {
                Word::RType { opcode, .. } => opcode,
                Word::IType { opcode, .. } => opcode,
                Word::JType { opcode, .. } => opcode,
                Word::EType { .. } => 0xFu8,
            },
    {
        match self {
            Word::RType { opcode, .. } | Word::IType { opcode, .. } | Word::JType {
                opcode,
                ..
            } => opcode,
            Word::EType { .. } => 0xF,
        }
    }

    /// The subcode of an E-type word.
    pub fn subcode(self) -> (subcode: Option<u8>)
        ensures
            subcode == match self {
                Word::EType { subcode, .. } => Some(subcode),
                _ => None,
            },
    {
        match self {
            Word::EType { subcode, .. } => Some(subcode),
            _ => None,
        }
    }

    /// The immediate of an I-type word.
    pub fn immediate(self) -> (immediate: Option<u8>)
        ensures
            immediate == match self {
                Word::IType { imm, .. } => Some(imm),
                _ => None,
            },
    {
        match self {
            Word::IType { imm, .. } => Some(imm),
            _ => None,
        }
    }

    /// The raw offset of a J-type word.
    pub fn offset(self) -> (offset: Option<u16>)
        ensures
            offset == match self {
                Word::JType { offset, .. } => Some(offset),
                _ => None,
            },
    {
        match self {
            Word::JType { offset, .. } => Some(offset),
            _ => None,
        }
    }

    /// The `rd` field, which only an R-type word has.
    pub fn rd(self) -> (rd: Option<u8>)
        ensures
            rd == match self {
                Word::RType { rd, .. } => Some(rd),
                _ => None,
            },
    {
        match self {
            Word::RType { rd, .. } => Some(rd),
            _ => None,
        }
    }

    /// The `rs` field of an R-type or E-type word.
    pub fn rs(self) -> (rs: Option<u8>)
        ensures
            rs == match self {
                Word::RType { rs, .. } => Some(rs),
                Word::EType { rs, .. } => Some(rs),
                _ => None,
            },
    {
        match self {
            Word::RType { rs, .. } | Word::EType { rs, .. } => Some(rs),
            _ => None,
        }
    }

    /// The `rt` field, which every layout but J-type has.
    pub fn rt(self) -> (rt: Option<u8>)
        ensures
            rt == match self {
                Word::RType { rt, .. } => Some(rt),
                Word::IType { rt, .. } => Some(rt),
                Word::EType { rt, .. } => Some(rt),
                Word::JType { .. } => None,
            },
    {
        match self {
            Word::RType { rt, .. } | Word::IType { rt, .. } | Word::EType { rt, .. } => Some(rt),
            _ => None,
        }
    }

    /// The `funct` field, which only an R-type word has.
    pub fn funct(self) -> (funct: Option<u8>)
        ensures
            funct == match self {
                Word::RType { funct, .. } => Some(funct),
                _ => None,
            },
    {
        match self {
            Word::RType { funct, .. } => Some(funct),
            _ => None,
        }
    }

    /// Packs the fields back into a raw 16-bit value.
    pub fn to_bits(self) -> (bits: u16)
        ensures
            bits == self.bits(),
    {
        match self {
            Word::RType { opcode, rd, rs, rt, funct } => {
                (opcode as u16) << OPCODE_SHIFT | (rd as u16) << RD_SHIFT | (rs as u16) << RS_SHIFT
                    | (rt as u16) << RT_SHIFT | (funct as u16)
            },
            Word::IType { opcode, rt, imm } => {
                (opcode as u16) << OPCODE_SHIFT | (rt as u16) << RD_SHIFT | (imm as u16)
            },
            Word::JType { opcode, offset } => (opcode as u16) << OPCODE_SHIFT | offset,
            Word::EType { subcode, rs, rt } => {
                (0xFu16 << OPCODE_SHIFT) | (subcode as u16) << SUBCODE_SHIFT | (rs as u16)
                    << SUB_RS_SHIFT | (rt as u16) << SUB_RT_SHIFT
            },
        }
    }

    /// Packing a valid word and splitting the raw value gives the word back,
    /// field for field.
    pub proof fn lemma_round_trip(self)
        requires
            self.is_valid(),
        ensures
            Word::from_bits(self.bits()) == self,
    {
        self.lemma_bits_of_valid();
    }

    /// In a valid word no two fields overlap, so the raw value is the sum of
    /// the fields, each scaled to its place. The raw value is canonical, and
    /// splitting it gives the word back.
    pub proof fn lemma_bits_of_valid(self)
        requires
            self.is_valid(),
        ensures
            self.bits() == self.packed(),
            Word::from_bits(self.bits()) == self,
            Word::is_canonical(self.bits()),
    {
        match self {
            Word::RType { opcode, rd, rs, rt, funct } => {
                let b = (opcode as u16) << 12 | (rd as u16) << 9 | (rs as u16) << 6 | (rt as u16)
                    << 3 | (funct as u16);
                assert({
                    &&& b == opcode * 0x1000 + rd * 0x200 + rs * 0x40 + rt * 0x8 + funct
                    &&& b / 0x1000 == opcode
                    &&& b / 0x200 % 8 == rd
                    &&& b / 0x40 % 8 == rs
                    &&& b / 0x8 % 8 == rt
                    &&& b % 8 == funct
                }) by (bit_vector)
                    requires
                        opcode <= 0x1 && rd < 8 && rs < 8 && rt < 8 && funct < 8,
                        b == (opcode as u16) << 12 | (rd as u16) << 9 | (rs as u16) << 6 | (
                        rt as u16) << 3 | (funct as u16),
                ;
            },
            Word::IType { opcode, rt, imm } => {
                let b = (opcode as u16) << 12 | (rt as u16) << 9 | (imm as u16);
                assert({
                    &&& b == opcode * 0x1000 + rt * 0x200 + imm
                    &&& b / 0x1000 == opcode
                    &&& b / 0x200 % 8 == rt
                    &&& b % 0x100 == imm
                    &&& b / 0x100 % 2 == 0
                }) by (bit_vector)
                    requires
                        opcode <= 0x8 && rt < 8,
                        b == (opcode as u16) << 12 | (rt as u16) << 9 | (imm as u16),
                ;
            },
            Word::JType { opcode, offset } => {
                let b = (opcode as u16) << 12 | offset;
                assert({
                    &&& b == opcode * 0x1000 + offset
                    &&& b / 0x1000 == opcode
                    &&& b % 0x1000 == offset
                }) by (bit_vector)
                    requires
                        opcode <= 0xD && offset < 0x1000,
                        b == (opcode as u16) << 12 | offset,
                ;
            },
            Word::EType { subcode, rs, rt } => {
                let b = 0xFu16 << 12 | (subcode as u16) << 8 | (rs as u16) << 5 | (rt as u16) << 2;
                assert({
                    &&& b == 0xF000 + subcode * 0x100 + rs * 0x20 + rt * 0x4
                    &&& b / 0x1000 == 0xF
                    &&& b / 0x100 % 16 == subcode
                    &&& b / 0x20 % 8 == rs
                    &&& b / 0x4 % 8 == rt
                    &&& b % 4 == 0
                }) by (bit_vector)
                    requires
                        subcode < 16 && rs < 8 && rt < 8,
                        b == 0xFu16 << 12 | (subcode as u16) << 8 | (rs as u16) << 5 | (rt as u16)
                            << 2,
                ;
            },
        }
    }

    /// Splitting any raw value gives a valid word. Packing that word gives
    /// the raw value back wherever the value is canonical, and splitting
    /// again always gives the same word.
    pub proof fn lemma_bits_of_split(bits: u16)
        ensures
            Word::from_bits(bits).is_valid(),
            Word::is_canonical(bits) ==> Word::from_bits(bits).bits() == bits,
            Word::from_bits(Word::from_bits(bits).bits()) == Word::from_bits(bits),
    {
        let word = Word::from_bits(bits);
        assert({
            &&& bits / 0x1000 < 16
            &&& bits / 0x1000 <= 0x1 ==> bits / 0x1000 * 0x1000 + bits / 0x200 % 8 * 0x200 + bits
                / 0x40 % 8 * 0x40 + bits / 0x8 % 8 * 0x8 + bits % 8 == bits
            &&& bits / 0x100 % 2 == 0 ==> bits / 0x1000 * 0x1000 + bits / 0x200 % 8 * 0x200 + bits
                % 0x100 == bits
            &&& bits / 0x1000 * 0x1000 + bits % 0x1000 == bits
            &&& bits / 0x1000 == 0xF && bits % 4 == 0 ==> 0xF000 + bits / 0x100 % 16 * 0x100 + bits
                / 0x20 % 8 * 0x20 + bits / 0x4 % 8 * 0x4 == bits
        }) by (bit_vector);
        word.lemma_bits_of_valid();
    }

    /// The raw value of the word in hexadecimal: upper-case digits, no
    /// prefix, no leading zeros.
    pub fn to_upper_hex(&self) -> (text: String)
        ensures
            text@ == digits(self.bits() as nat, 16),
    {
        let mut text = String::new();
        push_digits(&mut text, self.to_bits(), 16);
        assert(text@ =~= digits(self.bits() as nat, 16));
        text
    }
}

/// The two bytes of a raw word in memory order: low byte first.
pub open spec fn word_bytes(bits: u16) -> Seq<u8> {
    seq![(bits % 0x100) as u8, (bits / 0x100) as u8]
}

/// The program image of a sequence of words: the bytes of each word, one
/// word after the other.
pub open spec fn image(words: Seq<Word>) -> Seq<u8>
    decreases words.len(),
{
    if words.len() == 0 {
        Seq::empty()
    } else {
        image(words.drop_last()) + word_bytes(words.last().bits())
    }
}

/// Serialises a program: every word as two bytes, low byte first.
pub fn assemble(words: &[Word]) -> (bytes: Vec<u8>)
    ensures
        bytes@ == image(words@),
        bytes@.len() == 2 * words@.len(),
{
    let mut bytes: Vec<u8> = Vec::new();
    let mut i: usize = 0;
    while i < words.len()
        invariant
            i <= words@.len(),
            bytes@ == image(words@.take(i as int)),
            bytes@.len() == 2 * i,
        decreases words@.len() - i,
    {
        let bits = words[i].to_bits();
        assert(bits & 0x00FF == bits % 0x100 && bits >> 8 == bits / 0x100) by (bit_vector);
        let low = (bits & 0x00FF) as u8;
        let high = (bits >> 8) as u8;
        bytes.push(low);
        bytes.push(high);
        i += 1;
        proof {
            let done = words@.take(i as int);
            assert(done.drop_last() =~= words@.take(i - 1));
            assert(bytes@ =~= image(done.drop_last()) + word_bytes(done.last().bits()));
        }
    }
    assert(words@.take(i as int) =~= words@);
    bytes
}

/// In the image of a program every word has two bytes, and the word at
/// twice its position is the word itself.
pub proof fn lemma_image(words: Seq<Word>, i: int)
    requires
        0 <= i < words.len(),
    ensures
        image(words).len() == 2 * words.len(),
        word_at(image(words), 2 * i) == words[i].bits(),
    decreases words.len(),
{
    let front = words.drop_last();
    if front.len() > 0 {
        lemma_image(front, if i < front.len() {
            i
        } else {
            0
        });
    }
    lemma_image_len(front);
    let bits = words.last().bits();
    assert(word_bytes(bits)[0] + 0x100 * word_bytes(bits)[1] == bits);
}

/// The image of a program has two bytes for every word.
pub proof fn lemma_image_len(words: Seq<Word>)
    ensures
        image(words).len() == 2 * words.len(),
    decreases words.len(),
{
    if words.len() > 0 {
        lemma_image_len(words.drop_last());
    }
}

} // verus!
