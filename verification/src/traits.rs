//! Type-level instruction descriptions: a zero-sized struct per
//! operation whose const generics carry the register fields.

use vstd::prelude::*;

verus! {

/// Something that stands for one encoded instruction code.
pub trait GetCode {
    /// The code this value stands for.
    spec fn spec_code(&self) -> u32;

    fn code(&self) -> (r: u32)
        ensures
            r == self.spec_code(),
    ;
}

/// An R-type operation described at the type level: opcode OP with
/// fixed funct3, funct7 and register fields.
pub trait RType: Sized {
    spec fn spec_funct3() -> u32;

    spec fn spec_funct7() -> u32;

    spec fn spec_rd() -> u8;

    spec fn spec_rs1() -> u8;

    spec fn spec_rs2() -> u8;

    fn funct7() -> (r: u32)
        ensures
            r == Self::spec_funct7(),
    ;
}

impl<const RD: u8, const RS1: u8, const RS2: u8> GetCode for ADD<RD, RS1, RS2> {
    /// The opcode byte combined with the funct7 selector, which for
    /// ADD is 0.
    open spec fn spec_code(&self) -> u32 {
        0x33
    }

    fn code(&self) -> (r: u32) {
        0x33
    }
}

impl<const RD: u8, const RS1: u8, const RS2: u8> GetCode for SUB<RD, RS1, RS2> {
    /// The opcode byte combined with the funct7 selector, which for
    /// SUB is 0x20.
    open spec fn spec_code(&self) -> u32 {
        0x53
    }

    fn code(&self) -> (r: u32) {
        0x53
    }
}

/// ADD rd, rs1, rs2: funct3 0, funct7 0.
pub struct ADD<const RD: u8, const RS1: u8, const RS2: u8>;

impl<const RD: u8, const RS1: u8, const RS2: u8> RType for ADD<RD, RS1, RS2> {
    open spec fn spec_funct3() -> u32 {
        0
    }

    open spec fn spec_funct7() -> u32 {
        0
    }

    open spec fn spec_rd() -> u8 {
        RD
    }

    open spec fn spec_rs1() -> u8 {
        RS1
    }

    open spec fn spec_rs2() -> u8 {
        RS2
    }

    fn funct7() -> (r: u32) {
        0
    }
}

/// SUB rd, rs1, rs2: funct3 0, funct7 0x20.
pub struct SUB<const RD: u8, const RS1: u8, const RS2: u8>;

impl<const RD: u8, const RS1: u8, const RS2: u8> RType for SUB<RD, RS1, RS2> {
    open spec fn spec_funct3() -> u32 {
        0
    }

    open spec fn spec_funct7() -> u32 {
        0x20
    }

    open spec fn spec_rd() -> u8 {
        RD
    }

    open spec fn spec_rs1() -> u8 {
        RS1
    }

    open spec fn spec_rs2() -> u8 {
        RS2
    }

    fn funct7() -> (r: u32) {
        0x20
    }
}

} // verus!
