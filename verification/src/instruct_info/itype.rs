//! I-type encoders: loads, register-immediate operations, shifts by a
//! constant, and JALR.

use vstd::prelude::*;
use crate::instruct_info::encode_i_spec;

verus! {

/// The funct3 sub-opcodes of the LOAD family.
#[derive(Debug, Clone, Copy)]
pub enum ILFunct3 {
    LB,
    LH,
    LW,
    LBU,
    LHU,
}

impl ILFunct3 {
    /// The 3-bit field value of this sub-opcode.
    pub open spec fn spec_value(self) -> u32 {
        match self {
            ILFunct3::LB => 0,
            ILFunct3::LH => 1,
            ILFunct3::LW => 2,
            ILFunct3::LBU => 4,
            ILFunct3::LHU => 5,
        }
    }

    pub fn value(self) -> (r: u32)
        ensures
            r == self.spec_value(),
    {
        match self {
            ILFunct3::LB => 0,
            ILFunct3::LH => 1,
            ILFunct3::LW => 2,
            ILFunct3::LBU => 4,
            ILFunct3::LHU => 5,
        }
    }
}

/// The funct3 sub-opcodes of the OP-IMM family (shifts aside).
#[derive(Debug, Clone, Copy)]
pub enum IRFunct3 {
    ADDI,
    SLTI,
    SLTIU,
    XORI,
    ORI,
    ANDI,
}

impl IRFunct3 {
    /// The 3-bit field value of this sub-opcode.
    pub open spec fn spec_value(self) -> u32 {
        match self {
            IRFunct3::ADDI => 0,
            IRFunct3::SLTI => 2,
            IRFunct3::SLTIU => 3,
            IRFunct3::XORI => 4,
            IRFunct3::ORI => 6,
            IRFunct3::ANDI => 7,
        }
    }

    pub fn value(self) -> (r: u32)
        ensures
            r == self.spec_value(),
    {
        match self {
            IRFunct3::ADDI => 0,
            IRFunct3::SLTI => 2,
            IRFunct3::SLTIU => 3,
            IRFunct3::XORI => 4,
            IRFunct3::ORI => 6,
            IRFunct3::ANDI => 7,
        }
    }
}

fn encode_r(rd: u8, rs1: u8, funct3: IRFunct3, imm: i16) -> (r: u32)
    ensures
        r == encode_i_spec(0x13, rd as u32, rs1 as u32, funct3.spec_value(), imm as u32),
{
    ((imm as u32 & 0xFFF) << 20) | ((rs1 as u32 & 0x1F) << 15) | ((funct3.value() & 0x7) << 12) | (
    (rd as u32 & 0x1F) << 7) | 0x13
}

pub fn addi(rd: u8, rs1: u8, imm: i16) -> (r: u32)
    ensures
        r == encode_i_spec(0x13, rd as u32, rs1 as u32, 0, imm as u32),
{
    encode_r(rd, rs1, IRFunct3::ADDI, imm)
}

pub fn slti(rd: u8, rs1: u8, imm: i16) -> (r: u32)
    ensures
        r == encode_i_spec(0x13, rd as u32, rs1 as u32, 2, imm as u32),
{
    encode_r(rd, rs1, IRFunct3::SLTI, imm)
}

pub fn sltiu(rd: u8, rs1: u8, imm: i16) -> (r: u32)
    ensures
        r == encode_i_spec(0x13, rd as u32, rs1 as u32, 3, imm as u32),
{
    encode_r(rd, rs1, IRFunct3::SLTIU, imm)
}

pub fn xori(rd: u8, rs1: u8, imm: i16) -> (r: u32)
    ensures
        r == encode_i_spec(0x13, rd as u32, rs1 as u32, 4, imm as u32),
{
    encode_r(rd, rs1, IRFunct3::XORI, imm)
}

pub fn ori(rd: u8, rs1: u8, imm: i16) -> (r: u32)
    ensures
        r == encode_i_spec(0x13, rd as u32, rs1 as u32, 6, imm as u32),
{
    encode_r(rd, rs1, IRFunct3::ORI, imm)
}

pub fn andi(rd: u8, rs1: u8, imm: i16) -> (r: u32)
    ensures
        r == encode_i_spec(0x13, rd as u32, rs1 as u32, 7, imm as u32),
{
    encode_r(rd, rs1, IRFunct3::ANDI, imm)
}

fn encode_l(rd: u8, rs1: u8, funct3: ILFunct3, imm: i16) -> (r: u32)
    ensures
        r == encode_i_spec(0x03, rd as u32, rs1 as u32, funct3.spec_value(), imm as u32),
{
    ((imm as u32 & 0xFFF) << 20) | ((rs1 as u32 & 0x1F) << 15) | ((funct3.value() & 0x7) << 12) | (
    (rd as u32 & 0x1F) << 7) | 0x03
}

pub fn lb(rd: u8, rs1: u8, imm: i16) -> (r: u32)
    ensures
        r == encode_i_spec(0x03, rd as u32, rs1 as u32, 0, imm as u32),
{
    encode_l(rd, rs1, ILFunct3::LB, imm)
}

pub fn lbu(rd: u8, rs1: u8, imm: i16) -> (r: u32)
    ensures
        r == encode_i_spec(0x03, rd as u32, rs1 as u32, 4, imm as u32),
{
    encode_l(rd, rs1, ILFunct3::LBU, imm)
}

pub fn lw(rd: u8, rs1: u8, imm: i16) -> (r: u32)
    ensures
        r == encode_i_spec(0x03, rd as u32, rs1 as u32, 2, imm as u32),
{
    encode_l(rd, rs1, ILFunct3::LW, imm)
}

pub fn lh(rd: u8, rs1: u8, imm: i16) -> (r: u32)
    ensures
        r == encode_i_spec(0x03, rd as u32, rs1 as u32, 1, imm as u32),
{
    encode_l(rd, rs1, ILFunct3::LH, imm)
}

pub fn lhu(rd: u8, rs1: u8, imm: i16) -> (r: u32)
    ensures
        r == encode_i_spec(0x03, rd as u32, rs1 as u32, 5, imm as u32),
{
    encode_l(rd, rs1, ILFunct3::LHU, imm)
}

fn encode_s(rd: u8, rs1: u8, funct3: u8, imm: u16) -> (r: u32)
    ensures
        r == encode_i_spec(0x13, rd as u32, rs1 as u32, funct3 as u32, imm as u32),
{
    ((imm as u32 & 0xFFF) << 20) | ((rs1 as u32 & 0x1F) << 15) | ((funct3 as u32 & 0x7) << 12) | (
    (rd as u32 & 0x1F) << 7) | 0x13
}

/// Shift left logical by a constant: shamt in bits [24:20], funct7 0.
pub fn slli(rd: u8, rs1: u8, imm: u8) -> (r: u32)
    ensures
        r == encode_i_spec(0x13, rd as u32, rs1 as u32, 1, (imm & 0x1F) as u32),
{
    encode_s(rd, rs1, 1, (imm & 0x1F) as u16)
}

/// Shift right logical by a constant: shamt in bits [24:20], funct7 0.
pub fn srli(rd: u8, rs1: u8, imm: u8) -> (r: u32)
    ensures
        r == encode_i_spec(0x13, rd as u32, rs1 as u32, 5, (imm & 0x1F) as u32),
{
    encode_s(rd, rs1, 5, (imm & 0x1F) as u16)
}

/// Shift right arithmetic by a constant: shamt in bits [24:20],
/// funct7 0x20 (bit 10 of the immediate field).
pub fn srai(rd: u8, rs1: u8, imm: u8) -> (r: u32)
    ensures
        r == encode_i_spec(0x13, rd as u32, rs1 as u32, 5, ((imm & 0x1F) as u32) | 0x400),
{
    encode_s(rd, rs1, 5, ((imm & 0x1F) as u16) | 0x400)
}

/// Jump and link register: `rd = PC + 4; PC = (rs1 + imm) & !1`.
pub fn jalr(rd: u8, rs1: u8, imm: i16) -> (r: u32)
    ensures
        r == encode_i_spec(0x67, rd as u32, rs1 as u32, 0, imm as u32),
{
    ((imm as u32 & 0xFFF) << 20) | ((rs1 as u32 & 0x1F) << 15) | ((0u32 & 0x7) << 12) | ((rd
        as u32 & 0x1F) << 7) | 0x67
}

} // verus!
