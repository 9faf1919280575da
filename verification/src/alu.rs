//! The arithmetic-logic unit: pure functions from decoded operands
//! and register state to register writes and, for branches, program
//! counter updates. All arithmetic is modulo 2^32; overflow wraps.

use vstd::prelude::*;
use crate::bitops::lemma_mask_bounds;
use crate::exception::ErrorKind;
use crate::instruction_type::b_imm_of;
use crate::instruction_type::funct3_of;
use crate::instruction_type::funct7_of;
use crate::instruction_type::i_imm_of;
use crate::instruction_type::i_umm_of;
use crate::instruction_type::rd_of;
use crate::instruction_type::rs1_of;
use crate::instruction_type::rs2_of;
use crate::instruction_type::shamt_of;
use crate::instruction_type::BInstruction;
use crate::instruction_type::IInstruction;
use crate::instruction_type::ISInstruction;
use crate::instruction_type::RInstruction;
use crate::register::Registers;

verus! {

// ---------------------------------------------------------------------------
// Arithmetic model: wrapping operations and the two's-complement
// reading of a 32-bit word.
// ---------------------------------------------------------------------------

/// Addition modulo 2^32.
pub open spec fn wadd32(a: u32, b: u32) -> u32 {
    if a + b > u32::MAX {
        (a + b - 0x100000000) as u32
    } else {
        (a + b) as u32
    }
}

/// Subtraction modulo 2^32.
pub open spec fn wsub32(a: u32, b: u32) -> u32 {
    if a - b < 0 {
        (a - b + 0x100000000) as u32
    } else {
        (a - b) as u32
    }
}

/// The signed integer that the 32-bit pattern `a` denotes in two's
/// complement.
pub open spec fn to_signed(a: u32) -> int {
    if a >= 0x80000000 {
        a - 0x100000000
    } else {
        a as int
    }
}

/// Arithmetic right shift: the vacated high bits are filled with the
/// sign bit. Meaningful for `sh < 32`.
pub open spec fn sra32(a: u32, sh: u32) -> u32 {
    if a & 0x80000000 != 0 {
        (a >> sh) | !(0xFFFFFFFFu32 >> sh)
    } else {
        a >> sh
    }
}

/// The register file after writing `v` to register `rd`; a write to
/// index 0 is discarded.
pub open spec fn regs_upd(regs: Seq<u32>, rd: int, v: u32) -> Seq<u32> {
    if rd == 0 {
        regs
    } else {
        regs.update(rd, v)
    }
}

// ---------------------------------------------------------------------------
// Dispatch tables, as spec functions.
// ---------------------------------------------------------------------------

/// The value an R-type operation writes to `rd`, given `funct3`,
/// `funct7` and the two source registers, or `None` for an unknown
/// combination. Shifts use only the low 5 bits of `b` as the count.
pub open spec fn r_alu(f3: u32, f7: u32, a: u32, b: u32) -> Option<u32> {
    if f3 == 0 && f7 == 0 {
        Some(wadd32(a, b))
    } else if f3 == 0 && f7 == 0x20 {
        Some(wsub32(a, b))
    } else if f3 == 1 && f7 == 0 {
        Some(a << (b & 0x1F))
    } else if f3 == 2 && f7 == 0 {
        Some(
            if to_signed(a) < to_signed(b) {
                1u32
            } else {
                0u32
            },
        )
    } else if f3 == 3 && f7 == 0 {
        Some(
            if a < b {
                1u32
            } else {
                0u32
            },
        )
    } else if f3 == 4 && f7 == 0 {
        Some(a ^ b)
    } else if f3 == 5 && f7 == 0 {
        Some(a >> (b & 0x1F))
    } else if f3 == 5 && f7 == 0x20 {
        Some(sra32(a, b & 0x1F))
    } else if f3 == 6 && f7 == 0 {
        Some(a | b)
    } else if f3 == 7 && f7 == 0 {
        Some(a & b)
    } else {
        None
    }
}

/// The value an OP-IMM operation on word `w` writes to `rd`, given
/// the source register `a`. Every funct3 is defined, so this dispatch
/// is total.
pub open spec fn i_alu(w: u32, a: u32) -> u32 {
    let f3 = funct3_of(w);
    let imm = i_imm_of(w);
    if f3 == 0 {
        wadd32(a, imm)
    } else if f3 == 1 {
        a << shamt_of(w)
    } else if f3 == 2 {
        if to_signed(a) < to_signed(imm) {
            1u32
        } else {
            0u32
        }
    } else if f3 == 3 {
        if a < i_umm_of(w) {
            1u32
        } else {
            0u32
        }
    } else if f3 == 4 {
        a ^ imm
    } else if f3 == 6 {
        a | imm
    } else if f3 == 7 {
        a & imm
    } else {
        if funct7_of(w) == 0 {
            a >> shamt_of(w)
        } else {
            sra32(a, shamt_of(w))
        }
    }
}

/// Whether a branch with the given `funct3` is taken on source values
/// `a` and `b`, or `None` for an unknown funct3.
pub open spec fn branch_taken(f3: u32, a: u32, b: u32) -> Option<bool> {
    if f3 == 0 {
        Some(a == b)
    } else if f3 == 1 {
        Some(a != b)
    } else if f3 == 4 {
        Some(to_signed(a) < to_signed(b))
    } else if f3 == 5 {
        Some(to_signed(a) >= to_signed(b))
    } else if f3 == 6 {
        Some(a < b)
    } else if f3 == 7 {
        Some(a >= b)
    } else {
        None
    }
}

/// Target of a taken branch decoded from word `w` whose own byte
/// address is `pc - 4` (the program counter is advanced before
/// dispatch).
pub open spec fn branch_target(pc: u32, w: u32) -> u32 {
    wadd32(wsub32(pc, 4), b_imm_of(w))
}

/// The program counter a branch leaves behind, or the fault it raises:
/// an unknown funct3 is a decode error, and a taken branch whose
/// target is not 4-byte aligned is an alignment error.
pub open spec fn branch_outcome(regs: Seq<u32>, pc: u32, w: u32) -> Result<u32, ErrorKind> {
    let a = regs[rs1_of(w) as int];
    let b = regs[rs2_of(w) as int];
    match branch_taken(funct3_of(w), a, b) {
        None => Err(ErrorKind::DecodeError),
        Some(false) => Ok(pc),
        Some(true) => {
            let t = branch_target(pc, w);
            if t % 4 == 0 {
                Ok(t)
            } else {
                Err(ErrorKind::AlignmentError)
            }
        },
    }
}

// ---------------------------------------------------------------------------
// Executable ALU.
// ---------------------------------------------------------------------------

/// The ALU retires exactly one operation per call, against a borrowed
/// register file.
pub struct ALU;

impl ALU {
    fn add(registers: &mut Registers, r: &RInstruction)
        requires
            old(registers).wf(),
        ensures
            final(registers).wf(),
            final(registers)@ == regs_upd(
                old(registers)@,
                rd_of(r.0.0) as int,
                wadd32(old(registers)@[rs1_of(r.0.0) as int], old(registers)@[rs2_of(r.0.0) as int]),
            ),
    {
        let v = registers.get(r.rs1()).wrapping_add(registers.get(r.rs2()));
        registers.write(r.rd(), v);
    }

    fn sub(registers: &mut Registers, r: &RInstruction)
        requires
            old(registers).wf(),
        ensures
            final(registers).wf(),
            final(registers)@ == regs_upd(
                old(registers)@,
                rd_of(r.0.0) as int,
                wsub32(old(registers)@[rs1_of(r.0.0) as int], old(registers)@[rs2_of(r.0.0) as int]),
            ),
    {
        let v = registers.get(r.rs1()).wrapping_sub(registers.get(r.rs2()));
        registers.write(r.rd(), v);
    }

    fn xor(registers: &mut Registers, r: &RInstruction)
        requires
            old(registers).wf(),
        ensures
            final(registers).wf(),
            final(registers)@ == regs_upd(
                old(registers)@,
                rd_of(r.0.0) as int,
                old(registers)@[rs1_of(r.0.0) as int] ^ old(registers)@[rs2_of(r.0.0) as int],
            ),
    {
        let v = registers.get(r.rs1()) ^ registers.get(r.rs2());
        registers.write(r.rd(), v);
    }

    fn and(registers: &mut Registers, r: &RInstruction)
        requires
            old(registers).wf(),
        ensures
            final(registers).wf(),
            final(registers)@ == regs_upd(
                old(registers)@,
                rd_of(r.0.0) as int,
                old(registers)@[rs1_of(r.0.0) as int] & old(registers)@[rs2_of(r.0.0) as int],
            ),
    {
        let v = registers.get(r.rs1()) & registers.get(r.rs2());
        registers.write(r.rd(), v);
    }

    fn or(registers: &mut Registers, r: &RInstruction)
        requires
            old(registers).wf(),
        ensures
            final(registers).wf(),
            final(registers)@ == regs_upd(
                old(registers)@,
                rd_of(r.0.0) as int,
                old(registers)@[rs1_of(r.0.0) as int] | old(registers)@[rs2_of(r.0.0) as int],
            ),
    {
        let v = registers.get(r.rs1()) | registers.get(r.rs2());
        registers.write(r.rd(), v);
    }

    fn sll(registers: &mut Registers, r: &RInstruction)
        requires
            old(registers).wf(),
        ensures
            final(registers).wf(),
            final(registers)@ == regs_upd(
                old(registers)@,
                rd_of(r.0.0) as int,
                old(registers)@[rs1_of(r.0.0) as int] << (old(registers)@[rs2_of(r.0.0) as int]
                    & 0x1F),
            ),
    {
        proof {
            lemma_mask_bounds();
        }
        let v = registers.get(r.rs1()) << (registers.get(r.rs2()) & 0x1F);
        registers.write(r.rd(), v);
    }

    fn slt(registers: &mut Registers, r: &RInstruction)
        requires
            old(registers).wf(),
        ensures
            final(registers).wf(),
            final(registers)@ == regs_upd(
                old(registers)@,
                rd_of(r.0.0) as int,
                if to_signed(old(registers)@[rs1_of(r.0.0) as int]) < to_signed(
                    old(registers)@[rs2_of(r.0.0) as int],
                ) {
                    1u32
                } else {
                    0u32
                },
            ),
    {
        let a = registers.get(r.rs1());
        let b = registers.get(r.rs2());
        let v: u32 = if (a >= 0x80000000) == (b >= 0x80000000) {
            if a < b {
                1
            } else {
                0
            }
        } else if a >= 0x80000000 {
            1
        } else {
            0
        };
        registers.write(r.rd(), v);
    }

    fn sltu(registers: &mut Registers, r: &RInstruction)
        requires
            old(registers).wf(),
        ensures
            final(registers).wf(),
            final(registers)@ == regs_upd(
                old(registers)@,
                rd_of(r.0.0) as int,
                if old(registers)@[rs1_of(r.0.0) as int] < old(registers)@[rs2_of(r.0.0) as int] {
                    1u32
                } else {
                    0u32
                },
            ),
    {
        let v: u32 = if registers.get(r.rs1()) < registers.get(r.rs2()) {
            1
        } else {
            0
        };
        registers.write(r.rd(), v);
    }

    fn srl(registers: &mut Registers, r: &RInstruction)
        requires
            old(registers).wf(),
        ensures
            final(registers).wf(),
            final(registers)@ == regs_upd(
                old(registers)@,
                rd_of(r.0.0) as int,
                old(registers)@[rs1_of(r.0.0) as int] >> (old(registers)@[rs2_of(r.0.0) as int]
                    & 0x1F),
            ),
    {
        proof {
            lemma_mask_bounds();
        }
        let v = registers.get(r.rs1()) >> (registers.get(r.rs2()) & 0x1F);
        registers.write(r.rd(), v);
    }

    fn sra(registers: &mut Registers, r: &RInstruction)
        requires
            old(registers).wf(),
        ensures
            final(registers).wf(),
            final(registers)@ == regs_upd(
                old(registers)@,
                rd_of(r.0.0) as int,
                sra32(
                    old(registers)@[rs1_of(r.0.0) as int],
                    old(registers)@[rs2_of(r.0.0) as int] & 0x1F,
                ),
            ),
    {
        proof {
            lemma_mask_bounds();
        }
        let a = registers.get(r.rs1());
        let sh = registers.get(r.rs2()) & 0x1F;
        let base = a >> sh;
        let v = if a & 0x80000000 != 0 {
            base | !(0xFFFFFFFFu32 >> sh)
        } else {
            base
        };
        registers.write(r.rd(), v);
    }

    /// R-type dispatch by `(funct3, funct7)`. An unknown combination
    /// is a decode error and leaves the registers unchanged.
    pub fn execute(registers: &mut Registers, r: &RInstruction) -> (res: Result<(), ErrorKind>)
        requires
            old(registers).wf(),
        ensures
            final(registers).wf(),
            ({
                let w = r.0.0;
                let a = old(registers)@[rs1_of(w) as int];
                let b = old(registers)@[rs2_of(w) as int];
                match r_alu(funct3_of(w), funct7_of(w), a, b) {
                    Some(v) => res == Ok::<(), ErrorKind>(()) && final(registers)@ == regs_upd(
                        old(registers)@,
                        rd_of(w) as int,
                        v,
                    ),
                    None => res == Err::<(), ErrorKind>(ErrorKind::DecodeError)
                        && final(registers)@ == old(registers)@,
                }
            }),
    {
        match (r.funct3(), r.funct7()) {
            (0b000, 0) => {
                Self::add(registers, r);
                Ok(())
            },
            (0b000, 0x20) => {
                Self::sub(registers, r);
                Ok(())
            },
            (0b001, 0) => {
                Self::sll(registers, r);
                Ok(())
            },
            (0b010, 0) => {
                Self::slt(registers, r);
                Ok(())
            },
            (0b011, 0) => {
                Self::sltu(registers, r);
                Ok(())
            },
            (0b100, 0) => {
                Self::xor(registers, r);
                Ok(())
            },
            (0b101, 0) => {
                Self::srl(registers, r);
                Ok(())
            },
            (0b101, 0x20) => {
                Self::sra(registers, r);
                Ok(())
            },
            (0b110, 0) => {
                Self::or(registers, r);
                Ok(())
            },
            (0b111, 0) => {
                Self::and(registers, r);
                Ok(())
            },
            _ => Err(ErrorKind::DecodeError),
        }
    }

    fn addi(registers: &mut Registers, i: &IInstruction)
        requires
            old(registers).wf(),
        ensures
            final(registers).wf(),
            final(registers)@ == regs_upd(
                old(registers)@,
                rd_of(i.0.0) as int,
                wadd32(old(registers)@[rs1_of(i.0.0) as int], i_imm_of(i.0.0)),
            ),
    {
        let imm = i.imm();
        let v = registers.get(i.rs1()).wrapping_add(imm as u32);
        registers.write(i.rd(), v);
    }

    fn slti(registers: &mut Registers, i: &IInstruction)
        requires
            old(registers).wf(),
        ensures
            final(registers).wf(),
            final(registers)@ == regs_upd(
                old(registers)@,
                rd_of(i.0.0) as int,
                if to_signed(old(registers)@[rs1_of(i.0.0) as int]) < to_signed(i_imm_of(i.0.0)) {
                    1u32
                } else {
                    0u32
                },
            ),
    {
        let a = registers.get(i.rs1());
        let b = i.imm() as u32;
        let v: u32 = if (a >= 0x80000000) == (b >= 0x80000000) {
            if a < b {
                1
            } else {
                0
            }
        } else if a >= 0x80000000 {
            1
        } else {
            0
        };
        registers.write(i.rd(), v);
    }

    fn sltiu(registers: &mut Registers, i: &IInstruction)
        requires
            old(registers).wf(),
        ensures
            final(registers).wf(),
            final(registers)@ == regs_upd(
                old(registers)@,
                rd_of(i.0.0) as int,
                if old(registers)@[rs1_of(i.0.0) as int] < i_umm_of(i.0.0) {
                    1u32
                } else {
                    0u32
                },
            ),
    {
        let v: u32 = if registers.get(i.rs1()) < i.umm() {
            1
        } else {
            0
        };
        registers.write(i.rd(), v);
    }

    fn xori(registers: &mut Registers, i: &IInstruction)
        requires
            old(registers).wf(),
        ensures
            final(registers).wf(),
            final(registers)@ == regs_upd(
                old(registers)@,
                rd_of(i.0.0) as int,
                old(registers)@[rs1_of(i.0.0) as int] ^ i_imm_of(i.0.0),
            ),
    {
        let v = registers.get(i.rs1()) ^ (i.imm() as u32);
        registers.write(i.rd(), v);
    }

    fn ori(registers: &mut Registers, i: &IInstruction)
        requires
            old(registers).wf(),
        ensures
            final(registers).wf(),
            final(registers)@ == regs_upd(
                old(registers)@,
                rd_of(i.0.0) as int,
                old(registers)@[rs1_of(i.0.0) as int] | i_imm_of(i.0.0),
            ),
    {
        let v = registers.get(i.rs1()) | (i.imm() as u32);
        registers.write(i.rd(), v);
    }

    fn andi(registers: &mut Registers, i: &IInstruction)
        requires
            old(registers).wf(),
        ensures
            final(registers).wf(),
            final(registers)@ == regs_upd(
                old(registers)@,
                rd_of(i.0.0) as int,
                old(registers)@[rs1_of(i.0.0) as int] & i_imm_of(i.0.0),
            ),
    {
        let v = registers.get(i.rs1()) & (i.imm() as u32);
        registers.write(i.rd(), v);
    }

    fn slli(registers: &mut Registers, i: &ISInstruction)
        requires
            old(registers).wf(),
        ensures
            final(registers).wf(),
            final(registers)@ == regs_upd(
                old(registers)@,
                rd_of(i.0.0) as int,
                old(registers)@[rs1_of(i.0.0) as int] << shamt_of(i.0.0),
            ),
    {
        let sh = i.umm();
        let v = registers.get(i.rs1()) << (sh as u32);
        registers.write(i.rd(), v);
    }

    fn srli(registers: &mut Registers, i: &ISInstruction)
        requires
            old(registers).wf(),
        ensures
            final(registers).wf(),
            final(registers)@ == regs_upd(
                old(registers)@,
                rd_of(i.0.0) as int,
                old(registers)@[rs1_of(i.0.0) as int] >> shamt_of(i.0.0),
            ),
    {
        let sh = i.umm();
        let v = registers.get(i.rs1()) >> (sh as u32);
        registers.write(i.rd(), v);
    }

    fn srai(registers: &mut Registers, i: &ISInstruction)
        requires
            old(registers).wf(),
        ensures
            final(registers).wf(),
            final(registers)@ == regs_upd(
                old(registers)@,
                rd_of(i.0.0) as int,
                sra32(old(registers)@[rs1_of(i.0.0) as int], shamt_of(i.0.0)),
            ),
    {
        let a = registers.get(i.rs1());
        let sh = i.umm() as u32;
        let base = a >> sh;
        let v = if a & 0x80000000 != 0 {
            base | !(0xFFFFFFFFu32 >> sh)
        } else {
            base
        };
        registers.write(i.rd(), v);
    }

    /// OP-IMM dispatch by funct3, I-shift included. Every funct3 is
    /// defined, so this never fails.
    pub fn immediate(registers: &mut Registers, i: &IInstruction)
        requires
            old(registers).wf(),
        ensures
            final(registers).wf(),
            final(registers)@ == regs_upd(
                old(registers)@,
                rd_of(i.0.0) as int,
                i_alu(i.0.0, old(registers)@[rs1_of(i.0.0) as int]),
            ),
    {
        match i.funct3() {
            0b000 => Self::addi(registers, i),
            0b010 => Self::slti(registers, i),
            0b011 => Self::sltiu(registers, i),
            0b100 => Self::xori(registers, i),
            0b110 => Self::ori(registers, i),
            0b111 => Self::andi(registers, i),
            0b001 => Self::slli(registers, &i.as_s()),
            _ => {
                let s = i.as_s();
                let f7 = (s.0.0 >> 25) & 0x7F;
                if f7 == 0 {
                    Self::srli(registers, &s)
                } else {
                    Self::srai(registers, &s)
                }
            },
        }
    }

    fn beq(registers: &Registers, pc: &mut u32, b: &BInstruction) -> (res: Result<(), ErrorKind>)
        requires
            registers.wf(),
            *old(pc) >= 4,
            funct3_of(b.0.0) == 0,
        ensures
            branch_step_post(registers@, *old(pc), *final(pc), b.0.0, res),
    {
        if registers.get(b.rs1()) == registers.get(b.rs2()) {
            Self::take_branch(pc, b)
        } else {
            Ok(())
        }
    }

    fn bne(registers: &Registers, pc: &mut u32, b: &BInstruction) -> (res: Result<(), ErrorKind>)
        requires
            registers.wf(),
            *old(pc) >= 4,
            funct3_of(b.0.0) == 1,
        ensures
            branch_step_post(registers@, *old(pc), *final(pc), b.0.0, res),
    {
        if registers.get(b.rs1()) != registers.get(b.rs2()) {
            Self::take_branch(pc, b)
        } else {
            Ok(())
        }
    }

    fn blt(registers: &Registers, pc: &mut u32, b: &BInstruction) -> (res: Result<(), ErrorKind>)
        requires
            registers.wf(),
            *old(pc) >= 4,
            funct3_of(b.0.0) == 4,
        ensures
            branch_step_post(registers@, *old(pc), *final(pc), b.0.0, res),
    {
        if Self::signed_less(registers.get(b.rs1()), registers.get(b.rs2())) {
            Self::take_branch(pc, b)
        } else {
            Ok(())
        }
    }

    fn bge(registers: &Registers, pc: &mut u32, b: &BInstruction) -> (res: Result<(), ErrorKind>)
        requires
            registers.wf(),
            *old(pc) >= 4,
            funct3_of(b.0.0) == 5,
        ensures
            branch_step_post(registers@, *old(pc), *final(pc), b.0.0, res),
    {
        if !Self::signed_less(registers.get(b.rs1()), registers.get(b.rs2())) {
            Self::take_branch(pc, b)
        } else {
            Ok(())
        }
    }

    fn bltu(registers: &Registers, pc: &mut u32, b: &BInstruction) -> (res: Result<(), ErrorKind>)
        requires
            registers.wf(),
            *old(pc) >= 4,
            funct3_of(b.0.0) == 6,
        ensures
            branch_step_post(registers@, *old(pc), *final(pc), b.0.0, res),
    {
        if registers.get(b.rs1()) < registers.get(b.rs2()) {
            Self::take_branch(pc, b)
        } else {
            Ok(())
        }
    }

    fn bgeu(registers: &Registers, pc: &mut u32, b: &BInstruction) -> (res: Result<(), ErrorKind>)
        requires
            registers.wf(),
            *old(pc) >= 4,
            funct3_of(b.0.0) == 7,
        ensures
            branch_step_post(registers@, *old(pc), *final(pc), b.0.0, res),
    {
        if registers.get(b.rs1()) >= registers.get(b.rs2()) {
            Self::take_branch(pc, b)
        } else {
            Ok(())
        }
    }

    /// Two's-complement comparison of two 32-bit patterns.
    fn signed_less(a: u32, b: u32) -> (r: bool)
        ensures
            r == (to_signed(a) < to_signed(b)),
    {
        if (a >= 0x80000000) == (b >= 0x80000000) {
            a < b
        } else {
            a >= 0x80000000
        }
    }

    /// Redirect the program counter to the branch target, provided the
    /// target lands on a 4-byte boundary.
    fn take_branch(pc: &mut u32, b: &BInstruction) -> (res: Result<(), ErrorKind>)
        requires
            *old(pc) >= 4,
        ensures
            ({
                let t = branch_target(*old(pc), b.0.0);
                if t % 4 == 0 {
                    res == Ok::<(), ErrorKind>(()) && *final(pc) == t
                } else {
                    res == Err::<(), ErrorKind>(ErrorKind::AlignmentError) && *final(pc) == *old(
                        pc,
                    )
                }
            }),
    {
        let imm = b.imm();
        let t = (*pc - 4).wrapping_add(imm as u32);
        if t % 4 == 0 {
            *pc = t;
            Ok(())
        } else {
            Err(ErrorKind::AlignmentError)
        }
    }

    /// Branch dispatch by funct3. The program counter has already been
    /// advanced past the branch, so a taken branch lands at
    /// `(pc - 4) + imm`. A misaligned target or an unknown funct3 is a
    /// fatal error and leaves the program counter unchanged.
    pub fn branch(registers: &Registers, pc: &mut u32, b: &BInstruction) -> (res: Result<
        (),
        ErrorKind,
    >)
        requires
            registers.wf(),
            *old(pc) >= 4,
        ensures
            ({
                match branch_outcome(registers@, *old(pc), b.0.0) {
                    Ok(p) => res == Ok::<(), ErrorKind>(()) && *final(pc) == p,
                    Err(k) => res == Err::<(), ErrorKind>(k) && *final(pc) == *old(pc),
                }
            }),
    {
        match b.funct3() {
            0b000 => Self::beq(registers, pc, b),
            0b001 => Self::bne(registers, pc, b),
            0b100 => Self::blt(registers, pc, b),
            0b101 => Self::bge(registers, pc, b),
            0b110 => Self::bltu(registers, pc, b),
            0b111 => Self::bgeu(registers, pc, b),
            _ => Err(ErrorKind::DecodeError),
        }
    }
}

/// What one conditional branch does to the program counter: taken and
/// aligned moves it to the target, not taken keeps it, and a
/// misaligned target faults without moving it.
pub open spec fn branch_step_post(
    regs: Seq<u32>,
    pc_before: u32,
    pc_after: u32,
    w: u32,
    res: Result<(), ErrorKind>,
) -> bool {
    match branch_outcome(regs, pc_before, w) {
        Ok(p) => res == Ok::<(), ErrorKind>(()) && pc_after == p,
        Err(k) => res == Err::<(), ErrorKind>(k) && pc_after == pc_before,
    }
}

/// SLL, SRL and SRA read only the low five bits of the second source
/// as the shift count: masking that source to its low five bits does
/// not change the result.
pub proof fn lemma_shift_amount_masked(f3: u32, f7: u32, a: u32, b: u32)
    ensures
        f3 == 1 || f3 == 5 ==> r_alu(f3, f7, a, b) == r_alu(f3, f7, a, b & 0x1F),
{
    assert((b & 0x1F) & 0x1F == b & 0x1F) by (bit_vector);
}

} // verus!
