//! R-type encoders: register-register operations under opcode OP.

use vstd::prelude::*;
use crate::instruct_info::encode_r_spec;

verus! {

/// The funct3 sub-opcodes of the OP family.
#[derive(Debug, Clone, Copy)]
pub enum RFunct3 {
    AddSub,
    SLL,
    SLT,
    SLTU,
    XOR,
    SrlSra,
    OR,
    AND,
}

impl RFunct3 {
    /// The 3-bit field value of this sub-opcode.
    pub open spec fn spec_value(self) -> u32 {
        match self {
            RFunct3::AddSub => 0,
            RFunct3::SLL => 1,
            RFunct3::SLT => 2,
            RFunct3::SLTU => 3,
            RFunct3::XOR => 4,
            RFunct3::SrlSra => 5,
            RFunct3::OR => 6,
            RFunct3::AND => 7,
        }
    }

    pub fn value(self) -> (r: u32)
        ensures
            r == self.spec_value(),
    {
        match self {
            RFunct3::AddSub => 0,
            RFunct3::SLL => 1,
            RFunct3::SLT => 2,
            RFunct3::SLTU => 3,
            RFunct3::XOR => 4,
            RFunct3::SrlSra => 5,
            RFunct3::OR => 6,
            RFunct3::AND => 7,
        }
    }
}

/// The funct7 selector: BASE for the plain operation, ALT for SUB and
/// SRA.
#[derive(Debug, Clone, Copy)]
pub enum Funct7 {
    BASE,
    ALT,
}

impl Funct7 {
    /// The 7-bit field value of this selector.
    pub open spec fn spec_value(self) -> u32 {
        match self {
            Funct7::BASE => 0,
            Funct7::ALT => 0x20,
        }
    }

    pub fn value(self) -> (r: u32)
        ensures
            r == self.spec_value(),
    {
        match self {
            Funct7::BASE => 0,
            Funct7::ALT => 0x20,
        }
    }
}

/// General R-type instruction encoder.
pub fn encode(funct7: Funct7, rs2: u8, rs1: u8, funct3: RFunct3, rd: u8) -> (r: u32)
    ensures
        r == encode_r_spec(
            funct7.spec_value(),
            rs2 as u32,
            rs1 as u32,
            funct3.spec_value(),
            rd as u32,
        ),
{
    (funct7.value() << 25) | ((rs2 as u32 & 0x1F) << 20) | ((rs1 as u32 & 0x1F) << 15) | ((
    funct3.value() & 0x7) << 12) | ((rd as u32 & 0x1F) << 7) | 0x33
}

pub fn add(rd: u8, rs1: u8, rs2: u8) -> (r: u32)
    ensures
        r == encode_r_spec(0, rs2 as u32, rs1 as u32, 0, rd as u32),
{
    encode(Funct7::BASE, rs2, rs1, RFunct3::AddSub, rd)
}

pub fn sub(rd: u8, rs1: u8, rs2: u8) -> (r: u32)
    ensures
        r == encode_r_spec(0x20, rs2 as u32, rs1 as u32, 0, rd as u32),
{
    encode(Funct7::ALT, rs2, rs1, RFunct3::AddSub, rd)
}

pub fn sll(rd: u8, rs1: u8, rs2: u8) -> (r: u32)
    ensures
        r == encode_r_spec(0, rs2 as u32, rs1 as u32, 1, rd as u32),
{
    encode(Funct7::BASE, rs2, rs1, RFunct3::SLL, rd)
}

pub fn slt(rd: u8, rs1: u8, rs2: u8) -> (r: u32)
    ensures
        r == encode_r_spec(0, rs2 as u32, rs1 as u32, 2, rd as u32),
{
    encode(Funct7::BASE, rs2, rs1, RFunct3::SLT, rd)
}

pub fn sltu(rd: u8, rs1: u8, rs2: u8) -> (r: u32)
    ensures
        r == encode_r_spec(0, rs2 as u32, rs1 as u32, 3, rd as u32),
{
    encode(Funct7::BASE, rs2, rs1, RFunct3::SLTU, rd)
}

pub fn xor(rd: u8, rs1: u8, rs2: u8) -> (r: u32)
    ensures
        r == encode_r_spec(0, rs2 as u32, rs1 as u32, 4, rd as u32),
{
    encode(Funct7::BASE, rs2, rs1, RFunct3::XOR, rd)
}

pub fn srl(rd: u8, rs1: u8, rs2: u8) -> (r: u32)
    ensures
        r == encode_r_spec(0, rs2 as u32, rs1 as u32, 5, rd as u32),
{
    encode(Funct7::BASE, rs2, rs1, RFunct3::SrlSra, rd)
}

pub fn sra(rd: u8, rs1: u8, rs2: u8) -> (r: u32)
    ensures
        r == encode_r_spec(0x20, rs2 as u32, rs1 as u32, 5, rd as u32),
{
    encode(Funct7::ALT, rs2, rs1, RFunct3::SrlSra, rd)
}

pub fn or(rd: u8, rs1: u8, rs2: u8) -> (r: u32)
    ensures
        r == encode_r_spec(0, rs2 as u32, rs1 as u32, 6, rd as u32),
{
    encode(Funct7::BASE, rs2, rs1, RFunct3::OR, rd)
}

pub fn and(rd: u8, rs1: u8, rs2: u8) -> (r: u32)
    ensures
        r == encode_r_spec(0, rs2 as u32, rs1 as u32, 7, rd as u32),
{
    encode(Funct7::BASE, rs2, rs1, RFunct3::AND, rd)
}

} // verus!
