//! The decoded-instruction view: given a raw 32-bit word, expose the
//! operand fields of each of the seven RV32I formats (R, I, I-shift,
//! S, B, U, J), reconstructing the scattered immediates and
//! sign-extending them.
//!
//! Bit indexing is LSB = 0 throughout.

use vstd::prelude::*;
use crate::arch::R32I;
use crate::bitops::lemma_mask_bounds;
use crate::bitops::lemma_signed_cast_round_trip;
use crate::mask;

verus! {

// ---------------------------------------------------------------------------
// Field extraction, as spec functions over the raw word.
// ---------------------------------------------------------------------------

/// Bits [6:0]: the opcode selecting the format family.
pub open spec fn opcode_of(w: u32) -> u32 {
    w & 0x7F
}

/// Bits [11:7]: the destination register index.
pub open spec fn rd_of(w: u32) -> u32 {
    (w >> 7) & 0x1F
}

/// Bits [14:12]: the funct3 sub-opcode.
pub open spec fn funct3_of(w: u32) -> u32 {
    (w >> 12) & 0x7
}

/// Bits [19:15]: the first source register index.
pub open spec fn rs1_of(w: u32) -> u32 {
    (w >> 15) & 0x1F
}

/// Bits [24:20]: the second source register index.
pub open spec fn rs2_of(w: u32) -> u32 {
    (w >> 20) & 0x1F
}

/// Bits [31:25]: the funct7 sub-opcode.
pub open spec fn funct7_of(w: u32) -> u32 {
    (w >> 25) & 0x7F
}

/// Bits [24:20] read as a shift amount (I-shift format).
pub open spec fn shamt_of(w: u32) -> u32 {
    (w >> 20) & 0x1F
}

// ---------------------------------------------------------------------------
// Sign extension: replicate the top bit of a narrow value into bits
// above it, per two's-complement rules. Inputs hold only their low
// `width` bits.
// ---------------------------------------------------------------------------

/// Sign extension of an 8-bit value to 32 bits.
pub open spec fn sign_ext8(v: u32) -> u32 {
    if v & 0x80 != 0 {
        v | 0xFFFFFF00
    } else {
        v
    }
}

/// Sign extension of a 12-bit value to 32 bits.
pub open spec fn sign_ext12(v: u32) -> u32 {
    if v & 0x800 != 0 {
        v | 0xFFFFF000
    } else {
        v
    }
}

/// Sign extension of a 13-bit value to 32 bits.
pub open spec fn sign_ext13(v: u32) -> u32 {
    if v & 0x1000 != 0 {
        v | 0xFFFFE000
    } else {
        v
    }
}

/// Sign extension of a 16-bit value to 32 bits.
pub open spec fn sign_ext16(v: u32) -> u32 {
    if v & 0x8000 != 0 {
        v | 0xFFFF0000
    } else {
        v
    }
}

/// Sign extension of a 21-bit value to 32 bits.
pub open spec fn sign_ext21(v: u32) -> u32 {
    if v & 0x100000 != 0 {
        v | 0xFFE00000
    } else {
        v
    }
}

// ---------------------------------------------------------------------------
// Immediate reconstruction per format.
// ---------------------------------------------------------------------------

/// I-type immediate before sign extension: bits [31:20].
pub open spec fn i_umm_of(w: u32) -> u32 {
    w >> 20
}

/// I-type immediate: bits [31:20], sign-extended from 12 bits.
pub open spec fn i_imm_of(w: u32) -> u32 {
    sign_ext12(w >> 20)
}

/// S-type immediate before sign extension: `(w[31:25] << 5) | w[11:7]`.
pub open spec fn s_umm_of(w: u32) -> u32 {
    (((w >> 25) & 0x7F) << 5) | ((w >> 7) & 0x1F)
}

/// S-type immediate, sign-extended from 12 bits.
pub open spec fn s_imm_of(w: u32) -> u32 {
    sign_ext12(s_umm_of(w))
}

/// B-type immediate before sign extension:
/// `(w[31] << 12) | (w[7] << 11) | (w[30:25] << 5) | (w[11:8] << 1)`.
pub open spec fn b_umm_of(w: u32) -> u32 {
    (((w >> 31) & 0x1) << 12) | (((w >> 7) & 0x1) << 11) | (((w >> 25) & 0x3F) << 5) | (((w >> 8)
        & 0xF) << 1)
}

/// B-type immediate, sign-extended from 13 bits; bit 0 is always 0.
pub open spec fn b_imm_of(w: u32) -> u32 {
    sign_ext13(b_umm_of(w))
}

/// U-type immediate: the upper 20 bits left in place.
pub open spec fn u_imm_of(w: u32) -> u32 {
    w & 0xFFFFF000
}

/// J-type immediate before sign extension:
/// `(w[31] << 20) | (w[19:12] << 12) | (w[20] << 11) | (w[30:21] << 1)`.
pub open spec fn j_umm_of(w: u32) -> u32 {
    (((w >> 31) & 0x1) << 20) | (((w >> 12) & 0xFF) << 12) | (((w >> 20) & 0x1) << 11) | (((w
        >> 21) & 0x3FF) << 1)
}

/// J-type immediate, sign-extended from 21 bits; bit 0 is always 0.
pub open spec fn j_imm_of(w: u32) -> u32 {
    sign_ext21(j_umm_of(w))
}

// ---------------------------------------------------------------------------
// Mnemonics: the operation name each sub-opcode combination selects,
// or none for an unknown combination.
// ---------------------------------------------------------------------------

/// The R-type mnemonic selected by `(funct3, funct7)` of word `w`.
pub open spec fn r_mnemonic_of(w: u32) -> Option<Seq<char>> {
    let f3 = funct3_of(w);
    let f7 = funct7_of(w);
    if f3 == 0 && f7 == 0 {
        Some("add"@)
    } else if f3 == 0 && f7 == 0x20 {
        Some("sub"@)
    } else if f3 == 1 && f7 == 0 {
        Some("sll"@)
    } else if f3 == 2 && f7 == 0 {
        Some("slt"@)
    } else if f3 == 3 && f7 == 0 {
        Some("sltu"@)
    } else if f3 == 4 && f7 == 0 {
        Some("xor"@)
    } else if f3 == 5 && f7 == 0 {
        Some("srl"@)
    } else if f3 == 5 && f7 == 0x20 {
        Some("sra"@)
    } else if f3 == 6 && f7 == 0 {
        Some("or"@)
    } else if f3 == 7 && f7 == 0 {
        Some("and"@)
    } else {
        None
    }
}

/// The I-type mnemonic of word `w`: an OP-IMM operation under opcode
/// 0x13, a load under opcode 0x03.
pub open spec fn i_mnemonic_of(w: u32) -> Option<Seq<char>> {
    let op = opcode_of(w);
    let f3 = funct3_of(w);
    if op == 0x13 {
        if f3 == 0 {
            Some("addi"@)
        } else if f3 == 1 {
            Some("slli"@)
        } else if f3 == 2 {
            Some("slti"@)
        } else if f3 == 3 {
            Some("sltiu"@)
        } else if f3 == 4 {
            Some("xori"@)
        } else if f3 == 6 {
            Some("ori"@)
        } else if f3 == 7 {
            Some("andi"@)
        } else {
            if funct7_of(w) == 0 {
                Some("srli"@)
            } else {
                Some("srai"@)
            }
        }
    } else if op == 0x03 {
        if f3 == 0 {
            Some("lb"@)
        } else if f3 == 1 {
            Some("lh"@)
        } else if f3 == 2 {
            Some("lw"@)
        } else if f3 == 4 {
            Some("lbu"@)
        } else if f3 == 5 {
            Some("lhu"@)
        } else {
            None
        }
    } else {
        None
    }
}

/// The branch mnemonic selected by funct3 of word `w`.
pub open spec fn b_mnemonic_of(w: u32) -> Option<Seq<char>> {
    let f3 = funct3_of(w);
    if f3 == 0 {
        Some("beq"@)
    } else if f3 == 1 {
        Some("bne"@)
    } else if f3 == 4 {
        Some("blt"@)
    } else if f3 == 5 {
        Some("bge"@)
    } else if f3 == 6 {
        Some("bltu"@)
    } else if f3 == 7 {
        Some("bgeu"@)
    } else {
        None
    }
}

/// The store mnemonic selected by funct3 of word `w`.
pub open spec fn s_mnemonic_of(w: u32) -> Option<Seq<char>> {
    let f3 = funct3_of(w);
    if f3 == 0 {
        Some("sb"@)
    } else if f3 == 1 {
        Some("sh"@)
    } else if f3 == 2 {
        Some("sw"@)
    } else {
        None
    }
}

// ---------------------------------------------------------------------------
// The instruction word and its per-format views.
// ---------------------------------------------------------------------------

/// A raw 32-bit instruction word.
#[derive(Clone, Copy)]
pub struct Instruction(pub R32I);

/// R-type view: `rd`, `rs1`, `rs2`, `funct3`, `funct7`.
#[derive(Clone, Copy)]
pub struct RInstruction(pub Instruction);

/// I-type view: `rd`, `rs1`, `funct3`, 12-bit signed immediate.
#[derive(Clone, Copy)]
pub struct IInstruction(pub Instruction);

/// I-shift view: `rd`, `rs1`, `funct3`, 5-bit shift amount.
#[derive(Clone, Copy)]
pub struct ISInstruction(pub Instruction);

/// S-type view: `rs1`, `rs2`, `funct3`, split 12-bit immediate.
#[derive(Clone, Copy)]
pub struct SInstruction(pub Instruction);

/// B-type view: `rs1`, `rs2`, `funct3`, scattered 13-bit immediate.
#[derive(Clone, Copy)]
pub struct BInstruction(pub Instruction);

/// U-type view: `rd` and the upper-20-bit immediate.
#[derive(Clone, Copy)]
pub struct UInstruction(pub Instruction);

/// J-type view: `rd` and the scattered 21-bit immediate.
#[derive(Clone, Copy)]
pub struct JInstruction(pub Instruction);

impl Instruction {
    /// Wrap a raw word.
    pub fn from(data: R32I) -> (r: Self)
        ensures
            r.0 == data,
    {
        Self(data)
    }

    /// The 7-bit opcode field.
    pub fn opcode(&self) -> (r: u32)
        ensures
            r == opcode_of(self.0),
            r < 128,
    {
        proof {
            lemma_mask_bounds();
        }
        self.0 & mask::OPCODE
    }

    pub fn as_r(&self) -> (r: RInstruction)
        ensures
            r.0 == *self,
    {
        RInstruction(*self)
    }

    pub fn as_i(&self) -> (r: IInstruction)
        ensures
            r.0 == *self,
    {
        IInstruction(*self)
    }

    pub fn as_j(&self) -> (r: JInstruction)
        ensures
            r.0 == *self,
    {
        JInstruction(*self)
    }

    pub fn as_b(&self) -> (r: BInstruction)
        ensures
            r.0 == *self,
    {
        BInstruction(*self)
    }

    pub fn as_u(&self) -> (r: UInstruction)
        ensures
            r.0 == *self,
    {
        UInstruction(*self)
    }

    pub fn as_s(&self) -> (r: SInstruction)
        ensures
            r.0 == *self,
    {
        SInstruction(*self)
    }

    /// The word with only the bits of `mask` kept.
    pub fn mask(&self, mask: u32) -> (r: u32)
        ensures
            r == self.0 & mask,
    {
        self.0 & mask
    }

    /// The unsigned value of bits `[start..=end]`, right-shifted so
    /// that bit `start` becomes bit 0 of the result.
    pub fn range(&self, start: u8, end: u8) -> (r: u32)
        requires
            start <= end,
            end <= 31,
        ensures
            r == (self.0 & mask::spec_range_mask(start, end)) >> (start as u32),
    {
        self.mask(mask::range_mask(start, end)) >> (start as u32)
    }
}

impl RInstruction {
    pub fn rd(&self) -> (r: u8)
        ensures
            r == rd_of(self.0.0),
            r < 32,
    {
        proof {
            lemma_mask_bounds();
        }
        ((self.0.0 >> 7) & 0x1F) as u8
    }

    pub fn funct3(&self) -> (r: u8)
        ensures
            r == funct3_of(self.0.0),
            r < 8,
    {
        proof {
            lemma_mask_bounds();
        }
        ((self.0.0 >> 12) & 0x7) as u8
    }

    pub fn rs1(&self) -> (r: u8)
        ensures
            r == rs1_of(self.0.0),
            r < 32,
    {
        proof {
            lemma_mask_bounds();
        }
        ((self.0.0 >> 15) & 0x1F) as u8
    }

    pub fn rs2(&self) -> (r: u8)
        ensures
            r == rs2_of(self.0.0),
            r < 32,
    {
        proof {
            lemma_mask_bounds();
        }
        ((self.0.0 >> 20) & 0x1F) as u8
    }

    pub fn funct7(&self) -> (r: u8)
        ensures
            r == funct7_of(self.0.0),
            r < 128,
    {
        proof {
            lemma_mask_bounds();
        }
        ((self.0.0 >> 25) & 0x7F) as u8
    }

    /// The operation name this word's `(funct3, funct7)` selects, or
    /// `None` for an unknown combination.
    pub fn mnemonic(&self) -> (r: Option<&'static str>)
        ensures
            ({
                match r {
                    Some(s) => r_mnemonic_of(self.0.0) == Some(s@),
                    None => r_mnemonic_of(self.0.0) is None,
                }
            }),
    {
        match (self.funct3(), self.funct7()) {
            (0b000, 0) => Some("add"),
            (0b000, 0x20) => Some("sub"),
            (0b001, 0) => Some("sll"),
            (0b010, 0) => Some("slt"),
            (0b011, 0) => Some("sltu"),
            (0b100, 0) => Some("xor"),
            (0b101, 0) => Some("srl"),
            (0b101, 0x20) => Some("sra"),
            (0b110, 0) => Some("or"),
            (0b111, 0) => Some("and"),
            _ => None,
        }
    }
}

impl IInstruction {
    pub fn rd(&self) -> (r: u8)
        ensures
            r == rd_of(self.0.0),
            r < 32,
    {
        proof {
            lemma_mask_bounds();
        }
        ((self.0.0 >> 7) & 0x1F) as u8
    }

    pub fn funct3(&self) -> (r: u32)
        ensures
            r == funct3_of(self.0.0),
            r < 8,
    {
        proof {
            lemma_mask_bounds();
        }
        (self.0.0 >> 12) & 0x7
    }

    pub fn rs1(&self) -> (r: u8)
        ensures
            r == rs1_of(self.0.0),
            r < 32,
    {
        proof {
            lemma_mask_bounds();
        }
        ((self.0.0 >> 15) & 0x1F) as u8
    }

    /// The immediate, sign-extended from its 12 encoded bits.
    pub fn imm(&self) -> (r: i32)
        ensures
            r as u32 == i_imm_of(self.0.0),
    {
        proof {
            lemma_signed_cast_round_trip();
        }
        let raw = self.0.0 >> 20;
        let v = if raw & 0x800 != 0 {
            raw | 0xFFFFF000
        } else {
            raw
        };
        v as i32
    }

    /// The same 12 encoded bits, zero-extended.
    pub fn umm(&self) -> (r: u32)
        ensures
            r == i_umm_of(self.0.0),
            r < 4096,
    {
        let w = self.0.0;
        proof {
            assert(w >> 20 < 4096) by (bit_vector);
        }
        w >> 20
    }

    pub fn as_s(&self) -> (r: ISInstruction)
        ensures
            r.0 == self.0,
    {
        ISInstruction(self.0)
    }

    /// The operation name this word selects: an OP-IMM operation or a
    /// load, or `None` for an unknown combination.
    pub fn mnemonic(&self) -> (r: Option<&'static str>)
        ensures
            ({
                match r {
                    Some(s) => i_mnemonic_of(self.0.0) == Some(s@),
                    None => i_mnemonic_of(self.0.0) is None,
                }
            }),
    {
        let op = self.0.opcode();
        let f3 = self.funct3();
        if op == 0x13 {
            match f3 {
                0b000 => Some("addi"),
                0b001 => Some("slli"),
                0b010 => Some("slti"),
                0b011 => Some("sltiu"),
                0b100 => Some("xori"),
                0b110 => Some("ori"),
                0b111 => Some("andi"),
                _ => {
                    let f7 = (self.0.0 >> 25) & 0x7F;
                    if f7 == 0 {
                        Some("srli")
                    } else {
                        Some("srai")
                    }
                },
            }
        } else if op == 0x03 {
            match f3 {
                0b000 => Some("lb"),
                0b001 => Some("lh"),
                0b010 => Some("lw"),
                0b100 => Some("lbu"),
                0b101 => Some("lhu"),
                _ => None,
            }
        } else {
            None
        }
    }
}

impl ISInstruction {
    pub fn rd(&self) -> (r: u8)
        ensures
            r == rd_of(self.0.0),
            r < 32,
    {
        proof {
            lemma_mask_bounds();
        }
        ((self.0.0 >> 7) & 0x1F) as u8
    }

    pub fn funct3(&self) -> (r: u32)
        ensures
            r == funct3_of(self.0.0),
            r < 8,
    {
        proof {
            lemma_mask_bounds();
        }
        (self.0.0 >> 12) & 0x7
    }

    pub fn rs1(&self) -> (r: u8)
        ensures
            r == rs1_of(self.0.0),
            r < 32,
    {
        proof {
            lemma_mask_bounds();
        }
        ((self.0.0 >> 15) & 0x1F) as u8
    }

    /// The 5-bit shift amount in bits [24:20].
    pub fn umm(&self) -> (r: u8)
        ensures
            r == shamt_of(self.0.0),
            r < 32,
    {
        proof {
            lemma_mask_bounds();
        }
        ((self.0.0 >> 20) & 0x1F) as u8
    }
}

impl SInstruction {
    pub fn funct3(&self) -> (r: u32)
        ensures
            r == funct3_of(self.0.0),
            r < 8,
    {
        proof {
            lemma_mask_bounds();
        }
        (self.0.0 >> 12) & 0x7
    }

    pub fn rs1(&self) -> (r: u8)
        ensures
            r == rs1_of(self.0.0),
            r < 32,
    {
        proof {
            lemma_mask_bounds();
        }
        ((self.0.0 >> 15) & 0x1F) as u8
    }

    pub fn rs2(&self) -> (r: u8)
        ensures
            r == rs2_of(self.0.0),
            r < 32,
    {
        proof {
            lemma_mask_bounds();
        }
        ((self.0.0 >> 20) & 0x1F) as u8
    }

    /// The immediate, sign-extended from its 12 encoded bits.
    pub fn imm(&self) -> (r: i32)
        ensures
            r as u32 == s_imm_of(self.0.0),
    {
        proof {
            lemma_signed_cast_round_trip();
        }
        let raw = self.umm();
        let v = if raw & 0x800 != 0 {
            raw | 0xFFFFF000
        } else {
            raw
        };
        v as i32
    }

    /// The 12 encoded bits, zero-extended.
    pub fn umm(&self) -> (r: u32)
        ensures
            r == s_umm_of(self.0.0),
    {
        let w = self.0.0;
        let part1 = (w >> 7) & 0x1F;
        let part2 = (w >> 25) & 0x7F;
        (part2 << 5) | part1
    }

    /// The store name this word's funct3 selects, or `None` for an
    /// unknown funct3.
    pub fn mnemonic(&self) -> (r: Option<&'static str>)
        ensures
            ({
                match r {
                    Some(s) => s_mnemonic_of(self.0.0) == Some(s@),
                    None => s_mnemonic_of(self.0.0) is None,
                }
            }),
    {
        match self.funct3() {
            0b000 => Some("sb"),
            0b001 => Some("sh"),
            0b010 => Some("sw"),
            _ => None,
        }
    }
}

impl BInstruction {
    pub fn rs1(&self) -> (r: u8)
        ensures
            r == rs1_of(self.0.0),
            r < 32,
    {
        proof {
            lemma_mask_bounds();
        }
        ((self.0.0 >> 15) & 0x1F) as u8
    }

    pub fn rs2(&self) -> (r: u8)
        ensures
            r == rs2_of(self.0.0),
            r < 32,
    {
        proof {
            lemma_mask_bounds();
        }
        ((self.0.0 >> 20) & 0x1F) as u8
    }

    pub fn funct3(&self) -> (r: u8)
        ensures
            r == funct3_of(self.0.0),
            r < 8,
    {
        proof {
            lemma_mask_bounds();
        }
        ((self.0.0 >> 12) & 0x7) as u8
    }

    /// The branch offset, sign-extended from its 13 reconstructed bits.
    pub fn imm(&self) -> (r: i32)
        ensures
            r as u32 == b_imm_of(self.0.0),
    {
        proof {
            lemma_signed_cast_round_trip();
        }
        let raw = self.umm();
        let v = if raw & 0x1000 != 0 {
            raw | 0xFFFFE000
        } else {
            raw
        };
        v as i32
    }

    /// The 13 reconstructed bits, zero-extended.
    pub fn umm(&self) -> (r: u32)
        ensures
            r == b_umm_of(self.0.0),
    {
        let w = self.0.0;
        let part1 = ((w >> 8) & 0xF) << 1;
        let part2 = ((w >> 25) & 0x3F) << 5;
        let part3 = ((w >> 7) & 0x1) << 11;
        let part4 = ((w >> 31) & 0x1) << 12;
        part4 | part3 | part2 | part1
    }

    /// The branch name this word's funct3 selects, or `None` for an
    /// unknown funct3.
    pub fn mnemonic(&self) -> (r: Option<&'static str>)
        ensures
            ({
                match r {
                    Some(s) => b_mnemonic_of(self.0.0) == Some(s@),
                    None => b_mnemonic_of(self.0.0) is None,
                }
            }),
    {
        match self.funct3() {
            0b000 => Some("beq"),
            0b001 => Some("bne"),
            0b100 => Some("blt"),
            0b101 => Some("bge"),
            0b110 => Some("bltu"),
            0b111 => Some("bgeu"),
            _ => None,
        }
    }
}

impl UInstruction {
    pub fn rd(&self) -> (r: u8)
        ensures
            r == rd_of(self.0.0),
            r < 32,
    {
        proof {
            lemma_mask_bounds();
        }
        ((self.0.0 >> 7) & 0x1F) as u8
    }

    /// The upper 20 bits of the word, left in place; low 12 bits zero.
    pub fn high_imm(&self) -> (r: u32)
        ensures
            r == u_imm_of(self.0.0),
    {
        self.0.0 & mask::IMM32_12
    }
}

impl JInstruction {
    pub fn rd(&self) -> (r: u8)
        ensures
            r == rd_of(self.0.0),
            r < 32,
    {
        proof {
            lemma_mask_bounds();
        }
        ((self.0.0 >> 7) & 0x1F) as u8
    }

    /// The jump offset, sign-extended from its 21 reconstructed bits.
    pub fn imm(&self) -> (r: i32)
        ensures
            r as u32 == j_imm_of(self.0.0),
    {
        proof {
            lemma_signed_cast_round_trip();
        }
        let w = self.0.0;
        let part1 = ((w >> 31) & 0x1) << 20;
        let part2 = ((w >> 21) & 0x3FF) << 1;
        let part3 = ((w >> 20) & 0x1) << 11;
        let part4 = ((w >> 12) & 0xFF) << 12;
        let raw = part1 | part4 | part3 | part2;
        let v = if raw & 0x100000 != 0 {
            raw | 0xFFE00000
        } else {
            raw
        };
        v as i32
    }
}

} // verus!
