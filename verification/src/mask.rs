//! Bit masks over the 32-bit instruction word, and range-mask helpers.
//!
//! Field positions follow the base encoding: `opcode` in bits [6:0],
//! `rd` in [11:7], `funct3` in [14:12], `rs1` in [19:15], `rs2` in
//! [24:20] and `funct7` in [31:25].

use vstd::prelude::*;

verus! {

pub const OPCODE: u32 = 0x7F;
pub const RD: u32 = 0xF80;
pub const FUNCT3: u32 = 0x7000;
pub const RS1: u32 = 0xF8000;
pub const RS2: u32 = 0x1F00000;
pub const FUNCT7: u32 = 0xFE000000;
pub const IMM4_0: u32 = RD;
pub const IMM7: u32 = FUNCT7;
pub const IMM11_5: u32 = FUNCT7;
pub const IMM11_0: u32 = 0xFFF00000;
pub const IMM32_12: u32 = 0xFFFFF000;

pub const BYTE_MASK: u32 = 0xFF;
pub const HALF_WORD_MASK: u32 = 0xFFFF;
pub const WORD_MASK: u32 = 0xFFFFFFFF;

/// The word whose bits `[start..=end]` are set and all others clear.
pub open spec fn spec_range_mask(start: u8, end: u8) -> u32 {
    (!0u32 >> ((31 - end) as u32)) & (!0u32 << (start as u32))
}

/// Mask selecting bits `[start..=end]` of a 32-bit word.
pub fn range_mask(start: u8, end: u8) -> (r: u32)
    requires
        start <= end,
        end <= 31,
    ensures
        r == spec_range_mask(start, end),
{
    (!0u32 >> ((31 - end) as u32)) & (!0u32 << (start as u32))
}

/// Mask whose `end - start` low bits are set, moved up so the lowest
/// set bit is bit `start`.
pub fn range(start: u8, end: u8) -> (r: u32)
    requires
        start < end,
        end <= 31,
    ensures
        r == (!0u32 >> ((32 - end + start) as u32)) << (start as u32),
{
    (!0u32 >> ((32 - end + start) as u32)) << (start as u32)
}

} // verus!
