//! Fatal error reporting. The core has no recoverable errors: any of
//! these aborts the current run, and the caller observes the error
//! kind and the address of the faulting instruction.

use vstd::prelude::*;

verus! {

/// What went wrong. None of these is delivered to the guest program.
#[derive(Clone, Copy, Debug, PartialEq, Eq, Structural)]
pub enum ErrorKind {
    /// Unknown opcode or unknown funct3/funct7 combination.
    DecodeError,
    /// Misaligned branch or jump target (bit 0 or 1 nonzero).
    AlignmentError,
    /// Effective address that after sign extension falls outside the
    /// 32-bit address space.
    AddressError,
    /// Register index out of range; indicates a decoder bug, not a
    /// guest fault.
    InternalInvariant,
}

/// A fatal error together with the byte address of the instruction at
/// which it occurred.
#[derive(Clone, Copy, Debug, PartialEq, Eq, Structural)]
pub struct Fault {
    pub kind: ErrorKind,
    pub pc: u32,
}

} // verus!
