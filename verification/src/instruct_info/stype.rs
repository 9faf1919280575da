//! S-type encoders: stores, with the immediate split across bits
//! [31:25] and [11:7].

use vstd::prelude::*;
use crate::instruct_info::encode_s_spec;

verus! {

/// The funct3 sub-opcodes of the STORE family.
#[derive(Debug, Clone, Copy)]
enum Funct3 {
    SB,
    SH,
    SW,
}

impl Funct3 {
    /// The 3-bit field value of this sub-opcode.
    spec fn spec_value(self) -> u32 {
        match self {
            Funct3::SB => 0,
            Funct3::SH => 1,
            Funct3::SW => 2,
        }
    }

    fn value(self) -> (r: u32)
        ensures
            r == self.spec_value(),
    {
        match self {
            Funct3::SB => 0,
            Funct3::SH => 1,
            Funct3::SW => 2,
        }
    }
}

fn encode(rs1: u8, rs2: u8, funct3: Funct3, imm: i16) -> (r: u32)
    ensures
        r == encode_s_spec(rs1 as u32, rs2 as u32, funct3.spec_value(), imm as u32),
{
    let immu = imm as u32;
    (((immu >> 5) & 0x7F) << 25) | ((rs2 as u32 & 0x1F) << 20) | ((rs1 as u32 & 0x1F) << 15) | ((
    funct3.value() & 0x7) << 12) | ((immu & 0x1F) << 7) | 0x23
}

/// Store byte: memory gets the low 8 bits of `rs2`.
pub fn sb(rs2: u8, rs1: u8, imm: i16) -> (r: u32)
    ensures
        r == encode_s_spec(rs1 as u32, rs2 as u32, 0, imm as u32),
{
    encode(rs1, rs2, Funct3::SB, imm)
}

/// Store halfword: memory gets the low 16 bits of `rs2`.
pub fn sh(rs2: u8, rs1: u8, imm: i16) -> (r: u32)
    ensures
        r == encode_s_spec(rs1 as u32, rs2 as u32, 1, imm as u32),
{
    encode(rs1, rs2, Funct3::SH, imm)
}

/// Store word.
pub fn sw(rs2: u8, rs1: u8, imm: i16) -> (r: u32)
    ensures
        r == encode_s_spec(rs1 as u32, rs2 as u32, 2, imm as u32),
{
    encode(rs1, rs2, Funct3::SW, imm)
}

} // verus!
