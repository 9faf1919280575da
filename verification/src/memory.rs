//! The memory image: a growable, word-granular flat store indexed by
//! `byte_address >> 2`. Reads past the end return 0; writes past the
//! end extend the image with zero-filled words. Byte and halfword
//! access are emulated by masking and shifting within the enclosing
//! word; lane numbering is little-endian (byte 0 is the LSB).

use vstd::prelude::*;
use crate::alu::regs_upd;
use crate::alu::to_signed;
use crate::arch::Address;
use crate::bitops::lemma_mask_bounds;
use crate::exception::ErrorKind;
use crate::instruction_type::funct3_of;
use crate::instruction_type::i_imm_of;
use crate::instruction_type::rd_of;
use crate::instruction_type::rs1_of;
use crate::instruction_type::rs2_of;
use crate::instruction_type::s_imm_of;
use crate::instruction_type::sign_ext16;
use crate::instruction_type::sign_ext8;
use crate::instruction_type::IInstruction;
use crate::instruction_type::SInstruction;
use crate::register::Registers;

verus! {

// ---------------------------------------------------------------------------
// The memory model, as spec functions over a sequence of words.
// ---------------------------------------------------------------------------

/// The word holding byte address `a`: index `a >> 2`, or 0 beyond the
/// end of the image. The two low address bits are ignored.
pub open spec fn word_at(m: Seq<u32>, a: u32) -> u32 {
    if (a >> 2) < m.len() {
        m[(a >> 2) as int]
    } else {
        0
    }
}

/// The image after storing `v` at the word holding byte address `a`,
/// extending with zero-filled words when `a` lies beyond the end.
pub open spec fn mem_with_word(m: Seq<u32>, a: u32, v: u32) -> Seq<u32> {
    let idx = (a >> 2) as int;
    if idx < m.len() {
        m.update(idx, v)
    } else {
        m + Seq::new((idx - m.len()) as nat, |i: int| 0u32) + seq![v]
    }
}

/// The byte in lane `lane` of word `w` (lane 0 is the LSB).
pub open spec fn byte_lane(w: u32, lane: u32) -> u32 {
    if lane == 0 {
        w & 0xFF
    } else if lane == 1 {
        (w >> 8) & 0xFF
    } else if lane == 2 {
        (w >> 16) & 0xFF
    } else {
        (w >> 24) & 0xFF
    }
}

/// The halfword in half `sel` of word `w` (half 0 is the low 16 bits).
pub open spec fn half_lane(w: u32, sel: u32) -> u32 {
    if sel == 0 {
        w & 0xFFFF
    } else {
        (w >> 16) & 0xFFFF
    }
}

/// Word `w` with the byte in lane `lane` replaced by `b`; the other
/// three bytes are preserved.
pub open spec fn word_with_byte(w: u32, lane: u32, b: u8) -> u32 {
    if lane == 0 {
        (w & 0xFFFFFF00) | (b as u32)
    } else if lane == 1 {
        (w & 0xFFFF00FF) | ((b as u32) << 8)
    } else if lane == 2 {
        (w & 0xFF00FFFF) | ((b as u32) << 16)
    } else {
        (w & 0x00FFFFFF) | ((b as u32) << 24)
    }
}

/// Word `w` with half `sel` replaced by `h`; the other half is
/// preserved.
pub open spec fn word_with_half(w: u32, sel: u32, h: u16) -> u32 {
    if sel == 0 {
        (w & 0xFFFF0000) | (h as u32)
    } else {
        (w & 0x0000FFFF) | ((h as u32) << 16)
    }
}

/// The byte at byte address `a`: bits [1:0] of `a` select the lane.
pub open spec fn byte_at(m: Seq<u32>, a: u32) -> u32 {
    byte_lane(word_at(m, a), a & 0x3)
}

/// The halfword at byte address `a`: bit 1 of `a` selects the half.
pub open spec fn half_at(m: Seq<u32>, a: u32) -> u32 {
    half_lane(word_at(m, a), (a >> 1) & 0x1)
}

/// The effective address `base + to_signed(imm)`, or `None` when the
/// sum falls outside the 32-bit address space.
pub open spec fn ea_of(base: u32, imm: u32) -> Option<u32> {
    let s = base + to_signed(imm);
    if 0 <= s && s <= u32::MAX {
        Some(s as u32)
    } else {
        None
    }
}

/// What a LOAD instruction `w` does to the register file: the loaded
/// byte or halfword is sign-extended for LB/LH and zero-extended for
/// LBU/LHU. An unknown funct3 is a decode error; an effective address
/// outside the address space is an address error.
pub open spec fn load_outcome(m: Seq<u32>, regs: Seq<u32>, w: u32) -> Result<Seq<u32>, ErrorKind> {
    let f3 = funct3_of(w);
    if f3 == 3 || f3 == 6 || f3 == 7 {
        Err(ErrorKind::DecodeError)
    } else {
        match ea_of(regs[rs1_of(w) as int], i_imm_of(w)) {
            None => Err(ErrorKind::AddressError),
            Some(ea) => Ok(
                regs_upd(
                    regs,
                    rd_of(w) as int,
                    if f3 == 0 {
                        sign_ext8(byte_at(m, ea))
                    } else if f3 == 1 {
                        sign_ext16(half_at(m, ea))
                    } else if f3 == 2 {
                        word_at(m, ea)
                    } else if f3 == 4 {
                        byte_at(m, ea)
                    } else {
                        half_at(m, ea)
                    },
                ),
            ),
        }
    }
}

/// What a STORE instruction `w` does to the memory image: SB and SH
/// write only the low 8 or 16 bits of `rs2`, preserving the other
/// lanes of the enclosing word.
pub open spec fn store_outcome(m: Seq<u32>, regs: Seq<u32>, w: u32) -> Result<
    Seq<u32>,
    ErrorKind,
> {
    let f3 = funct3_of(w);
    if f3 >= 3 {
        Err(ErrorKind::DecodeError)
    } else {
        match ea_of(regs[rs1_of(w) as int], s_imm_of(w)) {
            None => Err(ErrorKind::AddressError),
            Some(ea) => {
                let v = regs[rs2_of(w) as int];
                if f3 == 0 {
                    Ok(mem_with_word(m, ea, word_with_byte(word_at(m, ea), ea & 0x3, (v & 0xFF) as u8)))
                } else if f3 == 1 {
                    Ok(
                        mem_with_word(
                            m,
                            ea,
                            word_with_half(word_at(m, ea), (ea >> 1) & 0x1, (v & 0xFFFF) as u16),
                        ),
                    )
                } else {
                    Ok(mem_with_word(m, ea, v))
                }
            },
        }
    }
}

// ---------------------------------------------------------------------------
// The executable memory image.
// ---------------------------------------------------------------------------

/// The flat memory image. The view is the sequence of stored words.
pub struct MemoryWrapper {
    data: Vec<u32>,
}

impl View for MemoryWrapper {
    type V = Seq<u32>;

    closed spec fn view(&self) -> Seq<u32> {
        self.data@
    }
}

impl MemoryWrapper {
    /// An empty image.
    pub fn default() -> (r: Self)
        ensures
            r@ == Seq::<u32>::empty(),
    {
        Self { data: Vec::new() }
    }

    /// Direct access to the backing words, for tests and hosts.
    pub fn test_get_memory(&mut self) -> (r: &mut Vec<u32>)
        ensures
            r@ == old(self)@,
            final(self)@ == final(r)@,
    {
        &mut self.data
    }

    /// Concatenate `data` to the end of the image.
    pub fn append(&mut self, data: &[u32])
        ensures
            final(self)@ == old(self)@ + data@,
    {
        let mut i: usize = 0;
        while i < data.len()
            invariant
                i <= data@.len(),
                self@ == old(self)@ + data@.subrange(0, i as int),
            decreases data@.len() - i,
        {
            proof {
                assert((old(self)@ + data@.subrange(0, i as int)).push(data@[i as int]) =~= old(
                    self,
                )@ + data@.subrange(0, i as int + 1));
            }
            self.data.push(data[i]);
            i += 1;
        }
        proof {
            assert(data@.subrange(0, data@.len() as int) =~= data@);
        }
    }

    /// The word at index `byte_address >> 2`, or 0 beyond the end.
    pub fn read_word(&self, byte_address: &Address) -> (r: u32)
        ensures
            r == word_at(self@, *byte_address),
    {
        let idx = (*byte_address >> 2) as usize;
        if idx < self.data.len() {
            self.data[idx]
        } else {
            0
        }
    }

    /// The byte in the lane of `byte_address` selected by its two low
    /// bits, or 0 beyond the end.
    pub fn read_byte(&self, byte_address: &Address) -> (r: u8)
        ensures
            r as u32 == byte_at(self@, *byte_address),
    {
        proof {
            lemma_mask_bounds();
        }
        let w = self.read_word(byte_address);
        match *byte_address & 0x3 {
            0 => (w & 0xFF) as u8,
            1 => ((w >> 8) & 0xFF) as u8,
            2 => ((w >> 16) & 0xFF) as u8,
            _ => ((w >> 24) & 0xFF) as u8,
        }
    }

    /// The half of the containing word selected by bit 1 of
    /// `byte_address` (0 selects the low 16 bits), or 0 beyond the
    /// end. The load instruction, not the memory, applies sign
    /// extension.
    pub fn read_halfword(&self, byte_address: &Address) -> (r: u16)
        ensures
            r as u32 == half_at(self@, *byte_address),
    {
        proof {
            lemma_mask_bounds();
        }
        let w = self.read_word(byte_address);
        if (*byte_address >> 1) & 0x1 == 0 {
            (w & 0xFFFF) as u16
        } else {
            ((w >> 16) & 0xFFFF) as u16
        }
    }

    /// Store `value` at index `byte_address >> 2`, extending the image
    /// with zero-filled words up to and including that index.
    pub fn write_word(&mut self, byte_address: &Address, value: u32)
        ensures
            final(self)@ == mem_with_word(old(self)@, *byte_address, value),
    {
        let idx = (*byte_address >> 2) as usize;
        if idx < self.data.len() {
            self.data[idx] = value;
        } else {
            while self.data.len() < idx
                invariant
                    self.data@.len() <= idx,
                    self.data@ == old(self)@ + Seq::new(
                        (self.data@.len() - old(self)@.len()) as nat,
                        |i: int| 0u32,
                    ),
                    old(self)@.len() <= self.data@.len(),
                decreases idx - self.data@.len(),
            {
                proof {
                    assert((old(self)@ + Seq::new(
                        (self.data@.len() - old(self)@.len()) as nat,
                        |i: int| 0u32,
                    )).push(0u32) =~= old(self)@ + Seq::new(
                        (self.data@.len() + 1 - old(self)@.len()) as nat,
                        |i: int| 0u32,
                    ));
                }
                self.data.push(0);
            }
            self.data.push(value);
            proof {
                assert(self.data@ =~= old(self)@ + Seq::new(
                    ((*byte_address >> 2) - old(self)@.len()) as nat,
                    |i: int| 0u32,
                ) + seq![value]);
            }
        }
    }

    /// Update the half of the containing word selected by bit 1 of
    /// `byte_address`; the other half is preserved unchanged.
    pub fn write_halfword(&mut self, byte_address: &Address, halfword: u16)
        ensures
            final(self)@ == mem_with_word(
                old(self)@,
                *byte_address,
                word_with_half(
                    word_at(old(self)@, *byte_address),
                    (*byte_address >> 1) & 0x1,
                    halfword,
                ),
            ),
    {
        let w = self.read_word(byte_address);
        let nw = if (*byte_address >> 1) & 0x1 == 0 {
            (w & 0xFFFF0000) | (halfword as u32)
        } else {
            (w & 0x0000FFFF) | ((halfword as u32) << 16)
        };
        self.write_word(byte_address, nw);
    }

    /// Update the byte in the lane selected by the two low bits of
    /// `byte_address`; the other three bytes are preserved unchanged.
    pub fn write_byte(&mut self, byte_address: &Address, value: u8)
        ensures
            final(self)@ == mem_with_word(
                old(self)@,
                *byte_address,
                word_with_byte(word_at(old(self)@, *byte_address), *byte_address & 0x3, value),
            ),
    {
        let w = self.read_word(byte_address);
        let nw = match *byte_address & 0x3 {
            0 => (w & 0xFFFFFF00) | (value as u32),
            1 => (w & 0xFFFF00FF) | ((value as u32) << 8),
            2 => (w & 0xFF00FFFF) | ((value as u32) << 16),
            _ => (w & 0x00FFFFFF) | ((value as u32) << 24),
        };
        self.write_word(byte_address, nw);
    }

    /// The effective address `base + imm` of a load, store or JALR,
    /// where `imm` is the 32-bit pattern of the sign-extended
    /// immediate. A sum outside the 32-bit address space is an address
    /// error.
    pub fn effective_address(base: u32, imm: u32) -> (r: Result<u32, ErrorKind>)
        ensures
            ({
                match ea_of(base, imm) {
                    Some(a) => r == Ok::<u32, ErrorKind>(a),
                    None => r == Err::<u32, ErrorKind>(ErrorKind::AddressError),
                }
            }),
    {
        if imm < 0x80000000 {
            match base.checked_add(imm) {
                Some(a) => Ok(a),
                None => Err(ErrorKind::AddressError),
            }
        } else {
            let mag = 0u32.wrapping_sub(imm);
            match base.checked_sub(mag) {
                Some(a) => Ok(a),
                None => Err(ErrorKind::AddressError),
            }
        }
    }

    fn lb(&self, registers: &mut Registers, i: &IInstruction) -> (res: Result<(), ErrorKind>)
        requires
            old(registers).wf(),
            funct3_of(i.0.0) == 0,
        ensures
            final(registers).wf(),
            load_step_post(self@, old(registers)@, final(registers)@, i.0.0, res),
    {
        let base = registers.get(i.rs1());
        match Self::effective_address(base, i.imm() as u32) {
            Err(k) => Err(k),
            Ok(ea) => {
                let d = self.read_byte(&ea) as u32;
                let v = if d & 0x80 != 0 {
                    d | 0xFFFFFF00
                } else {
                    d
                };
                registers.write(i.rd(), v);
                Ok(())
            },
        }
    }

    fn lbu(&self, registers: &mut Registers, i: &IInstruction) -> (res: Result<(), ErrorKind>)
        requires
            old(registers).wf(),
            funct3_of(i.0.0) == 4,
        ensures
            final(registers).wf(),
            load_step_post(self@, old(registers)@, final(registers)@, i.0.0, res),
    {
        let base = registers.get(i.rs1());
        match Self::effective_address(base, i.imm() as u32) {
            Err(k) => Err(k),
            Ok(ea) => {
                let d = self.read_byte(&ea) as u32;
                registers.write(i.rd(), d);
                Ok(())
            },
        }
    }

    fn lh(&self, registers: &mut Registers, i: &IInstruction) -> (res: Result<(), ErrorKind>)
        requires
            old(registers).wf(),
            funct3_of(i.0.0) == 1,
        ensures
            final(registers).wf(),
            load_step_post(self@, old(registers)@, final(registers)@, i.0.0, res),
    {
        let base = registers.get(i.rs1());
        match Self::effective_address(base, i.imm() as u32) {
            Err(k) => Err(k),
            Ok(ea) => {
                let d = self.read_halfword(&ea) as u32;
                let v = if d & 0x8000 != 0 {
                    d | 0xFFFF0000
                } else {
                    d
                };
                registers.write(i.rd(), v);
                Ok(())
            },
        }
    }

    fn lhu(&self, registers: &mut Registers, i: &IInstruction) -> (res: Result<(), ErrorKind>)
        requires
            old(registers).wf(),
            funct3_of(i.0.0) == 5,
        ensures
            final(registers).wf(),
            load_step_post(self@, old(registers)@, final(registers)@, i.0.0, res),
    {
        let base = registers.get(i.rs1());
        match Self::effective_address(base, i.imm() as u32) {
            Err(k) => Err(k),
            Ok(ea) => {
                let d = self.read_halfword(&ea) as u32;
                registers.write(i.rd(), d);
                Ok(())
            },
        }
    }

    fn lw(&self, registers: &mut Registers, i: &IInstruction) -> (res: Result<(), ErrorKind>)
        requires
            old(registers).wf(),
            funct3_of(i.0.0) == 2,
        ensures
            final(registers).wf(),
            load_step_post(self@, old(registers)@, final(registers)@, i.0.0, res),
    {
        let base = registers.get(i.rs1());
        match Self::effective_address(base, i.imm() as u32) {
            Err(k) => Err(k),
            Ok(ea) => {
                let d = self.read_word(&ea);
                registers.write(i.rd(), d);
                Ok(())
            },
        }
    }

    fn sb(&mut self, registers: &Registers, s: &SInstruction) -> (res: Result<(), ErrorKind>)
        requires
            registers.wf(),
            funct3_of(s.0.0) == 0,
        ensures
            store_step_post(old(self)@, final(self)@, registers@, s.0.0, res),
    {
        proof {
            lemma_mask_bounds();
        }
        let base = registers.get(s.rs1());
        match Self::effective_address(base, s.imm() as u32) {
            Err(k) => Err(k),
            Ok(ea) => {
                self.write_byte(&ea, (registers.get(s.rs2()) & 0xFF) as u8);
                Ok(())
            },
        }
    }

    fn sh(&mut self, registers: &Registers, s: &SInstruction) -> (res: Result<(), ErrorKind>)
        requires
            registers.wf(),
            funct3_of(s.0.0) == 1,
        ensures
            store_step_post(old(self)@, final(self)@, registers@, s.0.0, res),
    {
        proof {
            lemma_mask_bounds();
        }
        let base = registers.get(s.rs1());
        match Self::effective_address(base, s.imm() as u32) {
            Err(k) => Err(k),
            Ok(ea) => {
                self.write_halfword(&ea, (registers.get(s.rs2()) & 0xFFFF) as u16);
                Ok(())
            },
        }
    }

    fn sw(&mut self, registers: &Registers, s: &SInstruction) -> (res: Result<(), ErrorKind>)
        requires
            registers.wf(),
            funct3_of(s.0.0) == 2,
        ensures
            store_step_post(old(self)@, final(self)@, registers@, s.0.0, res),
    {
        let base = registers.get(s.rs1());
        match Self::effective_address(base, s.imm() as u32) {
            Err(k) => Err(k),
            Ok(ea) => {
                self.write_word(&ea, registers.get(s.rs2()));
                Ok(())
            },
        }
    }

    /// LOAD dispatch by funct3: LB, LH, LW, LBU, LHU. The effective
    /// address is `regs[rs1] + sign_ext(imm)`. LB and LH sign-extend
    /// the loaded value to 32 bits; LBU and LHU zero-extend it. On an
    /// error the registers are unchanged.
    pub fn load(&self, registers: &mut Registers, i: &IInstruction) -> (res: Result<
        (),
        ErrorKind,
    >)
        requires
            old(registers).wf(),
        ensures
            final(registers).wf(),
            load_step_post(self@, old(registers)@, final(registers)@, i.0.0, res),
    {
        match i.funct3() {
            0b000 => self.lb(registers, i),
            0b001 => self.lh(registers, i),
            0b010 => self.lw(registers, i),
            0b100 => self.lbu(registers, i),
            0b101 => self.lhu(registers, i),
            _ => Err(ErrorKind::DecodeError),
        }
    }

    /// STORE dispatch by funct3: SB, SH, SW. The effective address is
    /// `regs[rs1] + sign_ext(imm)`. SB and SH write only the low 8 or
    /// 16 bits of `rs2`, preserving the other lanes. On an error the
    /// memory is unchanged.
    pub fn store(&mut self, registers: &Registers, s: &SInstruction) -> (res: Result<
        (),
        ErrorKind,
    >)
        requires
            registers.wf(),
        ensures
            store_step_post(old(self)@, final(self)@, registers@, s.0.0, res),
    {
        match s.funct3() {
            0b000 => self.sb(registers, s),
            0b001 => self.sh(registers, s),
            0b010 => self.sw(registers, s),
            _ => Err(ErrorKind::DecodeError),
        }
    }
}

/// Writing a word and then reading at the same address yields the
/// written word, for any address: both resolve to index `a >> 2`, and
/// a write past the end extends the image far enough.
pub proof fn lemma_word_round_trip(m: Seq<u32>, a: u32, v: u32)
    ensures
        word_at(mem_with_word(m, a, v), a) == v,
{
    let idx = (a >> 2) as int;
    if idx < m.len() {
    } else {
        let m2 = mem_with_word(m, a, v);
        assert(m2.len() == idx + 1);
        assert(m2[idx] == v);
    }
}

/// Selecting the replaced byte lane yields the new byte; selecting any
/// other lane yields the old word's byte there.
proof fn lemma_byte_lane_update(w: u32, lane: u32, lane2: u32, b: u8)
    by (bit_vector)
    requires
        lane < 4,
        lane2 < 4,
    ensures
        byte_lane(word_with_byte(w, lane, b), lane) == b as u32,
        lane2 != lane ==> byte_lane(word_with_byte(w, lane, b), lane2) == byte_lane(w, lane2),
{
}

/// Writing a byte and then reading at the same address yields the
/// byte, and the other three bytes of the enclosing word are
/// unchanged.
pub proof fn lemma_byte_round_trip(m: Seq<u32>, a: u32, b: u8)
    ensures
        ({
            let m2 = mem_with_word(m, a, word_with_byte(word_at(m, a), a & 0x3, b));
            &&& byte_at(m2, a) == b as u32
            &&& forall|a2: u32|
                a2 >> 2 == a >> 2 && (a2 & 0x3) != (a & 0x3) ==> #[trigger] byte_at(m2, a2)
                    == byte_at(m, a2)
        }),
{
    crate::bitops::lemma_mask_bounds();
    let w = word_at(m, a);
    let nw = word_with_byte(w, a & 0x3, b);
    let m2 = mem_with_word(m, a, nw);
    lemma_word_round_trip(m, a, nw);
    lemma_byte_lane_update(w, a & 0x3, a & 0x3, b);
    assert forall|a2: u32| a2 >> 2 == a >> 2 && (a2 & 0x3) != (a & 0x3) implies #[trigger] byte_at(
        m2,
        a2,
    ) == byte_at(m, a2) by {
        assert(word_at(m2, a2) == nw);
        assert(word_at(m, a2) == w);
        lemma_byte_lane_update(w, a & 0x3, a2 & 0x3, b);
    }
}

/// LB sign-extends the loaded byte: the register receives the 32-bit
/// two's-complement image of the byte's signed value. A byte below
/// 128 is unchanged; a byte at or above 128 denotes its value minus
/// 256.
pub proof fn lemma_load_byte_extension(v: u32)
    requires
        v < 256,
    ensures
        v < 128 ==> sign_ext8(v) == v,
        v >= 128 ==> to_signed(sign_ext8(v)) == v - 256,
{
    assert((v & 0x80 != 0) == (v >= 128)) by (bit_vector)
        requires
            v < 256,
    ;
    assert(v >= 128 && v < 256 ==> (v | 0xFFFFFF00) == v + 0xFFFFFF00) by (bit_vector);
}

/// What one LOAD does to the register file: the registers end as
/// `load_outcome` says on success and are unchanged on an error.
pub open spec fn load_step_post(
    m: Seq<u32>,
    regs_before: Seq<u32>,
    regs_after: Seq<u32>,
    w: u32,
    res: Result<(), ErrorKind>,
) -> bool {
    match load_outcome(m, regs_before, w) {
        Ok(rs) => res == Ok::<(), ErrorKind>(()) && regs_after == rs,
        Err(k) => res == Err::<(), ErrorKind>(k) && regs_after == regs_before,
    }
}

/// What one STORE does to the memory image: the image ends as
/// `store_outcome` says on success and is unchanged on an error.
pub open spec fn store_step_post(
    m_before: Seq<u32>,
    m_after: Seq<u32>,
    regs: Seq<u32>,
    w: u32,
    res: Result<(), ErrorKind>,
) -> bool {
    match store_outcome(m_before, regs, w) {
        Ok(m2) => res == Ok::<(), ErrorKind>(()) && m_after == m2,
        Err(k) => res == Err::<(), ErrorKind>(k) && m_after == m_before,
    }
}

} // verus!
