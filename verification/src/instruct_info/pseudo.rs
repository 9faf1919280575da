//! Pseudo-instructions, each expanding to one encoded base
//! instruction.

use vstd::prelude::*;
use crate::instruct_info::encode_i_spec;
use crate::instruct_info::encode_j_spec;
use crate::instruct_info::encode_u_spec;
use crate::instruct_info::itype;
use crate::instruct_info::jtype;
use crate::instruct_info::utype;
use crate::register::alias::ra;

verus! {

/// Unconditional jump: JAL with rd = x0; `imm` counts halfwords.
pub fn j(imm: i32) -> (r: u32)
    ensures
        r == encode_j_spec(0, (imm as u32) << 1),
{
    jtype::jal(0, imm)
}

/// Call: JAL with rd = ra; `imm` counts halfwords.
pub fn call(imm: i32) -> (r: u32)
    ensures
        r == encode_j_spec(1, (imm as u32) << 1),
{
    jtype::jal(1, imm)
}

/// Jump register: JALR with rd = x0 and offset 0.
pub fn jr(re1: u8) -> (r: u32)
    ensures
        r == encode_i_spec(0x67, 0, re1 as u32, 0, 0),
{
    itype::jalr(0, re1, 0)
}

/// Return: jump to the address in ra.
pub fn ret() -> (r: u32)
    ensures
        r == encode_i_spec(0x67, 0, 1, 0, 0),
{
    jr(ra)
}

/// Copy a register: ADDI with immediate 0.
pub fn mv(rd: u8, rs: u8) -> (r: u32)
    ensures
        r == encode_i_spec(0x13, rd as u32, rs as u32, 0, 0),
{
    itype::addi(rd, rs, 0)
}

/// No operation: ADDI x0, x0, 0.
pub fn nop() -> (r: u32)
    ensures
        r == encode_i_spec(0x13, 0, 0, 0, 0),
{
    itype::addi(0, 0, 0)
}

/// The STOP sentinel: the all-zeros word.
pub fn stop() -> (r: u32)
    ensures
        r == 0,
{
    0
}

/// Load immediate: ADDI from x0 for values that fit 12 signed bits,
/// LUI for values whose low 12 bits are zero.
pub fn li(rd: u8, imm: i32) -> (r: u32)
    requires
        (-2048 <= imm && imm < 2048) || imm as u32 & 0xFFF == 0,
    ensures
        -2048 <= imm && imm < 2048 ==> r == encode_i_spec(
            0x13,
            rd as u32,
            0,
            0,
            (imm as i16) as u32,
        ),
        !(-2048 <= imm && imm < 2048) ==> r == encode_u_spec(rd as u32, (imm >> 12) as u32, 0x37),
{
    if -2048 <= imm && imm < 2048 {
        itype::addi(rd, 0, imm as i16)
    } else {
        utype::lui(rd, imm >> 12)
    }
}

} // verus!
