//! Architectural constants of the RV32I target.

use vstd::prelude::*;

verus! {

/// An 8-bit quantity, as stored in one lane of a memory word.
pub type Byte = u8;

/// A 32-bit byte address.
pub type Address = u32;

/// A 32-bit machine word, the unit of the register file and of memory.
pub type R32I = u32;

/// The program counter of a fresh emulator.
pub const PC_DEFAULT_ADDRESS: Address = 0;

/// The stack pointer of a fresh emulator.
pub const STACK_DEFAULT_ADDRESS: Address = 1 << 10;

/// Byte distance between two consecutive instructions.
pub const PC_STEP: Address = 4;

/// Every instruction occupies one 32-bit word.
pub const RISC_V_32_INSTRUCTION_BYTES: usize = 4;

/// Number of integer registers.
pub const RISC_V_32_REGISTERS: usize = 32;

} // verus!
