//! B-type encoders: conditional branches. The immediate argument is a
//! halfword count; the encoded byte offset is twice it.

use vstd::prelude::*;
use crate::instruct_info::encode_b_spec;

verus! {

/// The funct3 sub-opcodes of the BRANCH family.
#[derive(Debug, Clone, Copy)]
enum Funct3 {
    BEQ,
    BNE,
    BLT,
    BGE,
    BLTU,
    BGEU,
}

impl Funct3 {
    /// The 3-bit field value of this sub-opcode.
    spec fn spec_value(self) -> u32 {
        match self {
            Funct3::BEQ => 0,
            Funct3::BNE => 1,
            Funct3::BLT => 4,
            Funct3::BGE => 5,
            Funct3::BLTU => 6,
            Funct3::BGEU => 7,
        }
    }

    fn value(self) -> (r: u32)
        ensures
            r == self.spec_value(),
    {
        match self {
            Funct3::BEQ => 0,
            Funct3::BNE => 1,
            Funct3::BLT => 4,
            Funct3::BGE => 5,
            Funct3::BLTU => 6,
            Funct3::BGEU => 7,
        }
    }
}

fn encode(rs1: u8, rs2: u8, imm: u32, funct3: Funct3) -> (r: u32)
    ensures
        r == encode_b_spec(rs1 as u32, rs2 as u32, funct3.spec_value(), imm),
{
    (((imm >> 12) & 0x1) << 31) | (((imm >> 5) & 0x3F) << 25) | ((rs2 as u32 & 0x1F) << 20) | ((rs1
        as u32 & 0x1F) << 15) | ((funct3.value() & 0x7) << 12) | (((imm >> 1) & 0xF) << 8) | (((imm
        >> 11) & 0x1) << 7) | 0x63
}

/// Branch if equal; `imm` counts halfwords from the branch itself.
pub fn beq(rs1: u8, rs2: u8, imm: i16) -> (r: u32)
    ensures
        r == encode_b_spec(rs1 as u32, rs2 as u32, 0, (imm as u32) << 1),
{
    encode(rs1, rs2, (imm as u32) << 1, Funct3::BEQ)
}

/// Branch if not equal; `imm` counts halfwords from the branch itself.
pub fn bne(rs1: u8, rs2: u8, imm: i16) -> (r: u32)
    ensures
        r == encode_b_spec(rs1 as u32, rs2 as u32, 1, (imm as u32) << 1),
{
    encode(rs1, rs2, (imm as u32) << 1, Funct3::BNE)
}

/// Branch if less than, signed; `imm` counts halfwords.
pub fn blt(rs1: u8, rs2: u8, imm: i16) -> (r: u32)
    ensures
        r == encode_b_spec(rs1 as u32, rs2 as u32, 4, (imm as u32) << 1),
{
    encode(rs1, rs2, (imm as u32) << 1, Funct3::BLT)
}

/// Branch if greater or equal, signed; `imm` counts halfwords.
pub fn bge(rs1: u8, rs2: u8, imm: i16) -> (r: u32)
    ensures
        r == encode_b_spec(rs1 as u32, rs2 as u32, 5, (imm as u32) << 1),
{
    encode(rs1, rs2, (imm as u32) << 1, Funct3::BGE)
}

/// Branch if less than, unsigned; `imm` counts halfwords.
pub fn bltu(rs1: u8, rs2: u8, imm: i16) -> (r: u32)
    ensures
        r == encode_b_spec(rs1 as u32, rs2 as u32, 6, (imm as u32) << 1),
{
    encode(rs1, rs2, (imm as u32) << 1, Funct3::BLTU)
}

/// Branch if greater or equal, unsigned; `imm` counts halfwords.
pub fn bgeu(rs1: u8, rs2: u8, imm: i16) -> (r: u32)
    ensures
        r == encode_b_spec(rs1 as u32, rs2 as u32, 7, (imm as u32) << 1),
{
    encode(rs1, rs2, (imm as u32) << 1, Funct3::BGEU)
}

/// Branch if less or equal, signed: BGE with the sources swapped.
pub fn ble(rs1: u8, rs2: u8, imm: i16) -> (r: u32)
    ensures
        r == encode_b_spec(rs2 as u32, rs1 as u32, 5, (imm as u32) << 1),
{
    bge(rs2, rs1, imm)
}

} // verus!
