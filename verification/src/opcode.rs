//! The 7-bit opcode values of RV32I, as used in bits [6:0] of every
//! instruction word. The all-zeros word is reserved as the STOP
//! sentinel of this core.

use vstd::prelude::*;
use crate::arch::Byte;

verus! {

/// Jump and link.
pub const JAL: Byte = 0x6F;

/// Jump and link register.
pub const JALR: Byte = 0x67;

/// Load upper immediate.
pub const LUI: Byte = 0x37;

/// Add upper immediate to PC.
pub const AUIPC: Byte = 0x17;

/// Opcode byte of the STOP sentinel word.
pub const NOP: Byte = 0x00;

/// Loads (LB, LH, LW, LBU, LHU).
pub const I_TYPE: Byte = 0x03;

/// Register-immediate operations (OP-IMM).
pub const RI_TYPE: Byte = 0x13;

/// Stores (SB, SH, SW).
pub const S_TYPE: Byte = 0x23;

/// Register-register operations (OP).
pub const R_TYPE: Byte = 0x33;

/// Conditional branches.
pub const B_TYPE: Byte = 0x63;

/// Unconditional jumps (same value as `JAL`).
pub const J_TYPE: Byte = 0x6F;

} // verus!
