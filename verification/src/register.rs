//! The 32-entry register file, with the hard-wired zero register:
//! index 0 reads as 0, and writes to it are silently discarded.
//!
//! A mutable borrow obtained for index 0 aliases a scratch cell that
//! no read ever observes, so no stale value can leak through.

use vstd::prelude::*;
use crate::arch::R32I;

pub mod alias;

verus! {

pub type Register = R32I;

pub const ZERO: Register = 0;

/// The register file. The view is the sequence of the 32 stored
/// words; well-formedness pins the stored word of index 0 at 0.
pub struct Registers {
    registers: Vec<Register>,
    dirty: Register,
}

impl View for Registers {
    type V = Seq<u32>;

    closed spec fn view(&self) -> Seq<u32> {
        self.registers@
    }
}

impl Registers {
    /// There are 32 registers and the zero register holds 0.
    pub open spec fn wf(&self) -> bool {
        &&& self@.len() == 32
        &&& self@[0] == 0
    }

    /// A fresh register file: all 32 registers hold 0.
    pub fn default() -> (r: Self)
        ensures
            r.wf(),
            r@.len() == 32,
            forall|j: int| 0 <= j < 32 ==> r@[j] == 0,
    {
        let mut registers: Vec<Register> = Vec::new();
        let mut i: usize = 0;
        while i < 32
            invariant
                i <= 32,
                registers@.len() == i,
                forall|j: int| 0 <= j < i ==> registers@[j] == 0,
            decreases 32 - i,
        {
            registers.push(0);
            i += 1;
        }
        Self { registers, dirty: 0 }
    }

    /// The stored word of register `i`; index 0 reads as 0.
    pub fn get(&self, i: u8) -> (r: Register)
        requires
            self.wf(),
            i < 32,
        ensures
            r == self@[i as int],
            i == 0 ==> r == 0,
    {
        if i == 0 {
            return 0;
        }
        self.registers[i as usize]
    }

    /// A mutable borrow of register `i`. For index 0 the borrow
    /// aliases the scratch cell, so whatever the caller writes through
    /// it never reaches the register file.
    pub fn get_mut(&mut self, i: u8) -> (r: &mut Register)
        requires
            old(self).wf(),
            i < 32,
        ensures
            old(self).wf(),
            final(self).wf(),
            i == 0 ==> final(self)@ == old(self)@,
            i != 0 ==> *r == old(self)@[i as int],
            i != 0 ==> final(self)@ == old(self)@.update(i as int, *final(r)),
    {
        if i == 0 {
            return &mut self.dirty;
        }
        &mut self.registers[i as usize]
    }

    /// Store `v` into register `i`; a write to index 0 is a no-op.
    pub fn write(&mut self, i: u8, v: u32)
        requires
            old(self).wf(),
            i < 32,
        ensures
            final(self).wf(),
            i == 0 ==> final(self)@ == old(self)@,
            i != 0 ==> final(self)@ == old(self)@.update(i as int, v),
    {
        if i == 0 {
            return ;
        }
        let idx = i as usize;
        self.registers[idx] = v;
    }

    /// The stored word of the zero register, always 0.
    pub fn zero(&self) -> (r: Register)
        requires
            self.wf(),
        ensures
            r == 0,
    {
        self.registers[0]
    }

    pub fn ra(&mut self) -> (r: &mut Register)
        requires
            old(self).wf(),
        ensures
            final(self).wf(),
            *r == old(self)@[1],
            final(self)@ == old(self)@.update(1, *final(r)),
    {
        &mut self.registers[1]
    }

    pub fn sp(&mut self) -> (r: &mut Register)
        requires
            old(self).wf(),
        ensures
            final(self).wf(),
            *r == old(self)@[2],
            final(self)@ == old(self)@.update(2, *final(r)),
    {
        &mut self.registers[2]
    }

    pub fn gp(&mut self) -> (r: &mut Register)
        requires
            old(self).wf(),
        ensures
            final(self).wf(),
            *r == old(self)@[3],
            final(self)@ == old(self)@.update(3, *final(r)),
    {
        &mut self.registers[3]
    }

    pub fn tp(&mut self) -> (r: &mut Register)
        requires
            old(self).wf(),
        ensures
            final(self).wf(),
            *r == old(self)@[4],
            final(self)@ == old(self)@.update(4, *final(r)),
    {
        &mut self.registers[4]
    }

    /// Temporary register `t{n}`: x5–x7 for t0–t2, x28–x31 for t3–t6.
    pub fn t(&mut self, n: usize) -> (r: &mut Register)
        requires
            old(self).wf(),
            n <= 6,
        ensures
            final(self).wf(),
            *r == old(self)@[alias::spec_t_index(n as int)],
            final(self)@ == old(self)@.update(alias::spec_t_index(n as int), *final(r)),
    {
        if n <= 2 {
            &mut self.registers[n + 5]
        } else {
            &mut self.registers[n + 25]
        }
    }

    pub fn fp(&mut self) -> (r: &mut Register)
        requires
            old(self).wf(),
        ensures
            final(self).wf(),
            *r == old(self)@[8],
            final(self)@ == old(self)@.update(8, *final(r)),
    {
        &mut self.registers[8]
    }

    /// Saved register `s{n}`: x8–x9 for s0–s1, x18–x27 for s2–s11.
    pub fn s(&mut self, n: usize) -> (r: &mut Register)
        requires
            old(self).wf(),
            n <= 11,
        ensures
            final(self).wf(),
            *r == old(self)@[alias::spec_s_index(n as int)],
            final(self)@ == old(self)@.update(alias::spec_s_index(n as int), *final(r)),
    {
        if n <= 1 {
            &mut self.registers[n + 8]
        } else {
            &mut self.registers[n + 16]
        }
    }

    /// Argument register `a{n}`: x10–x17.
    pub fn a(&mut self, n: usize) -> (r: &mut Register)
        requires
            old(self).wf(),
            n <= 7,
        ensures
            final(self).wf(),
            *r == old(self)@[n as int + 10],
            final(self)@ == old(self)@.update(n as int + 10, *final(r)),
    {
        &mut self.registers[n + 10]
    }
}

} // verus!
