//! U-type encoders: LUI and AUIPC. The immediate argument holds the
//! 20-bit upper value in its low bits.

use vstd::prelude::*;
use crate::instruct_info::encode_u_spec;

verus! {

/// Load upper immediate: `rd = imm << 12`.
pub fn lui(rd: u8, imm: i32) -> (r: u32)
    ensures
        r == encode_u_spec(rd as u32, imm as u32, 0x37),
{
    ((imm as u32 & 0xFFFFF) << 12) | ((rd as u32 & 0x1F) << 7) | 0x37
}

/// Add upper immediate to PC: `rd = (PC of this instruction) + (imm << 12)`.
pub fn auipc(rd: u8, imm: i32) -> (r: u32)
    ensures
        r == encode_u_spec(rd as u32, imm as u32, 0x17),
{
    ((imm as u32 & 0xFFFFF) << 12) | ((rd as u32 & 0x1F) << 7) | 0x17
}

} // verus!
