//! J-type encoder: the unconditional jump, with its 21-bit immediate
//! scattered over four ranges. The immediate argument of `jal` is a
//! halfword count; the encoded byte offset is twice it.

use vstd::prelude::*;
use crate::instruct_info::encode_j_spec;

verus! {

fn encode_j_imm(imm: u32) -> (r: u32)
    ensures
        r == (((imm >> 20) & 0x1) << 31) | (((imm >> 1) & 0x3FF) << 21) | (((imm >> 11) & 0x1)
            << 20) | (((imm >> 12) & 0xFF) << 12),
{
    (((imm >> 20) & 0x1) << 31) | (((imm >> 1) & 0x3FF) << 21) | (((imm >> 11) & 0x1) << 20) | (((
    imm >> 12) & 0xFF) << 12)
}

/// Jump and link: `rd = PC + 4; PC = (PC of the jump) + 2 * imm`.
pub fn jal(rd: u8, imm: i32) -> (r: u32)
    ensures
        r == encode_j_spec(rd as u32, (imm as u32) << 1),
{
    encode_j_imm((imm as u32) << 1) | ((rd as u32 & 0x1F) << 7) | 0x6F
}

} // verus!
