//! The execution engine: fetch the word at PC, advance PC by 4,
//! decode the opcode, dispatch, repeat until the STOP sentinel, an
//! out-of-range PC, or a fatal error.
//!
//! The whole step is also written down as a spec function over a
//! mathematical machine state, and the executable engine is proved to
//! follow it step by step.

use vstd::prelude::*;
use crate::alu::branch_outcome;
use crate::alu::i_alu;
use crate::alu::r_alu;
use crate::alu::regs_upd;
use crate::alu::wadd32;
use crate::alu::wsub32;
use crate::alu::ALU;
use crate::arch::Address;
use crate::arch::PC_DEFAULT_ADDRESS;
use crate::arch::PC_STEP;
use crate::arch::STACK_DEFAULT_ADDRESS;
use crate::exception::ErrorKind;
use crate::exception::Fault;
use crate::instruction_type::funct3_of;
use crate::instruction_type::funct7_of;
use crate::instruction_type::i_imm_of;
use crate::instruction_type::j_imm_of;
use crate::instruction_type::opcode_of;
use crate::instruction_type::rd_of;
use crate::instruction_type::rs1_of;
use crate::instruction_type::rs2_of;
use crate::instruction_type::u_imm_of;
use crate::instruction_type::Instruction;
use crate::memory::load_outcome;
use crate::memory::store_outcome;
use crate::memory::word_at;
use crate::memory::MemoryWrapper;
use crate::register::Registers;

verus! {

// ---------------------------------------------------------------------------
// The machine state and its one-step semantics.
// ---------------------------------------------------------------------------

/// A machine state: register file, memory image, program counter and
/// the stop flag.
pub ghost struct Machine {
    pub regs: Seq<u32>,
    pub mem: Seq<u32>,
    pub pc: u32,
    pub stop: bool,
}

/// What dispatching word `w` does to machine `m` whose program
/// counter has already been advanced past the instruction. The word 0
/// is the STOP sentinel; an unknown opcode is a decode error.
pub open spec fn dispatch_spec(m: Machine, w: u32) -> Result<Machine, ErrorKind> {
    let op = opcode_of(w);
    if w == 0 {
        Ok(Machine { stop: true, ..m })
    } else if op == 0x33 {
        let a = m.regs[rs1_of(w) as int];
        let b = m.regs[rs2_of(w) as int];
        match r_alu(funct3_of(w), funct7_of(w), a, b) {
            Some(v) => Ok(Machine { regs: regs_upd(m.regs, rd_of(w) as int, v), ..m }),
            None => Err(ErrorKind::DecodeError),
        }
    } else if op == 0x13 {
        Ok(
            Machine {
                regs: regs_upd(m.regs, rd_of(w) as int, i_alu(w, m.regs[rs1_of(w) as int])),
                ..m
            },
        )
    } else if op == 0x03 {
        match load_outcome(m.mem, m.regs, w) {
            Ok(rs) => Ok(Machine { regs: rs, ..m }),
            Err(k) => Err(k),
        }
    } else if op == 0x23 {
        match store_outcome(m.mem, m.regs, w) {
            Ok(m2) => Ok(Machine { mem: m2, ..m }),
            Err(k) => Err(k),
        }
    } else if op == 0x63 {
        match branch_outcome(m.regs, m.pc, w) {
            Ok(p) => Ok(Machine { pc: p, ..m }),
            Err(k) => Err(k),
        }
    } else if op == 0x6F {
        let t = wadd32(wsub32(m.pc, 4), j_imm_of(w));
        if t % 4 == 0 {
            Ok(Machine { regs: regs_upd(m.regs, rd_of(w) as int, m.pc), pc: t, ..m })
        } else {
            Err(ErrorKind::AlignmentError)
        }
    } else if op == 0x67 {
        let t = wadd32(m.regs[rs1_of(w) as int], i_imm_of(w)) & !1u32;
        if t % 4 == 0 {
            Ok(Machine { regs: regs_upd(m.regs, rd_of(w) as int, m.pc), pc: t, ..m })
        } else {
            Err(ErrorKind::AlignmentError)
        }
    } else if op == 0x37 {
        Ok(Machine { regs: regs_upd(m.regs, rd_of(w) as int, u_imm_of(w)), ..m })
    } else if op == 0x17 {
        Ok(
            Machine {
                regs: regs_upd(m.regs, rd_of(w) as int, wadd32(wsub32(m.pc, 4), u_imm_of(w))),
                ..m
            },
        )
    } else {
        Err(ErrorKind::DecodeError)
    }
}

/// One step of the engine: a stopped machine stays put; a program
/// counter at or past `max_address` halts; otherwise the word at PC is
/// fetched, PC advances by 4, and the word is dispatched. A fault
/// reports the address of the faulting instruction.
pub open spec fn step_spec(m: Machine, max_address: u32) -> Result<Machine, Fault> {
    if m.stop {
        Ok(m)
    } else if m.pc >= max_address {
        Ok(Machine { stop: true, ..m })
    } else {
        let w = word_at(m.mem, m.pc);
        let m1 = Machine { pc: wadd32(m.pc, 4), ..m };
        match dispatch_spec(m1, w) {
            Ok(m2) => Ok(m2),
            Err(k) => Err(Fault { kind: k, pc: m.pc }),
        }
    }
}

/// `n` steps of the engine, or the first fault among them.
pub open spec fn steps_spec(m: Machine, max_address: u32, n: nat) -> Result<Machine, Fault>
    decreases n,
{
    if n == 0 {
        Ok(m)
    } else {
        match step_spec(m, max_address) {
            Ok(m2) => steps_spec(m2, max_address, (n - 1) as nat),
            Err(f) => Err(f),
        }
    }
}

/// Extending a fault-free run by one step runs that step last.
pub proof fn lemma_steps_snoc(m: Machine, max_address: u32, n: nat)
    requires
        steps_spec(m, max_address, n) is Ok,
    ensures
        steps_spec(m, max_address, n + 1) == step_spec(
            steps_spec(m, max_address, n)->Ok_0,
            max_address,
        ),
    decreases n,
{
    reveal_with_fuel(steps_spec, 2);
    if n == 0 {
    } else {
        let s1 = step_spec(m, max_address);
        assert(s1 is Ok);
        lemma_steps_snoc(s1->Ok_0, max_address, (n - 1) as nat);
        assert(steps_spec(m, max_address, n + 1) == steps_spec(s1->Ok_0, max_address, n));
    }
}

/// Reading register 0 after any executed instruction yields 0: one
/// step of the engine preserves the hard-wired zero register.
pub proof fn lemma_step_preserves_zero_register(m: Machine, max_address: u32)
    requires
        m.regs.len() == 32,
        m.regs[0] == 0,
    ensures
        step_spec(m, max_address) matches Ok(m2) ==> m2.regs.len() == 32 && m2.regs[0] == 0,
{
    crate::bitops::lemma_mask_bounds();
}

/// Every reachable program counter is 4-byte aligned: one step of the
/// engine preserves 4-byte alignment of the PC.
pub proof fn lemma_step_preserves_alignment(m: Machine, max_address: u32)
    requires
        m.pc % 4 == 0,
    ensures
        step_spec(m, max_address) matches Ok(m2) ==> m2.pc % 4 == 0,
{
}

/// Reading register 0 yields 0 in every reachable state: any number
/// of fault-free steps preserves the hard-wired zero register.
pub proof fn lemma_steps_preserve_zero_register(m: Machine, max_address: u32, n: nat)
    requires
        m.regs.len() == 32,
        m.regs[0] == 0,
        steps_spec(m, max_address, n) is Ok,
    ensures
        steps_spec(m, max_address, n)->Ok_0.regs.len() == 32,
        steps_spec(m, max_address, n)->Ok_0.regs[0] == 0,
    decreases n,
{
    if n != 0 {
        lemma_step_preserves_zero_register(m, max_address);
        lemma_steps_preserve_zero_register(
            step_spec(m, max_address)->Ok_0,
            max_address,
            (n - 1) as nat,
        );
    }
}

/// The program counter is 4-byte aligned in every reachable state:
/// any number of fault-free steps preserves its alignment.
pub proof fn lemma_steps_preserve_alignment(m: Machine, max_address: u32, n: nat)
    requires
        m.pc % 4 == 0,
        steps_spec(m, max_address, n) is Ok,
    ensures
        steps_spec(m, max_address, n)->Ok_0.pc % 4 == 0,
    decreases n,
{
    if n != 0 {
        lemma_step_preserves_alignment(m, max_address);
        lemma_steps_preserve_alignment(
            step_spec(m, max_address)->Ok_0,
            max_address,
            (n - 1) as nat,
        );
    }
}

// ---------------------------------------------------------------------------
// The executable engine.
// ---------------------------------------------------------------------------

/// The ghost image of an emulator: its machine state plus the loader
/// bookkeeping.
pub ghost struct EmulatorView {
    pub regs: Seq<u32>,
    pub mem: Seq<u32>,
    pub pc: u32,
    pub max_address: u32,
    pub data_offset: u32,
    pub stack_offset: u32,
    pub stop: bool,
}

/// The machine state within an emulator view.
pub open spec fn as_machine(v: EmulatorView) -> Machine {
    Machine { regs: v.regs, mem: v.mem, pc: v.pc, stop: v.stop }
}

/// One emulator instance: register file, memory image, program
/// counter, the end of the appended segments, and the stop flag.
pub struct EmulatorContext {
    pub registers: Registers,
    pub memory: MemoryWrapper,
    pub program_counter: Address,
    pub max_address: Address,
    pub data_offset: Address,
    pub stack_offset: Address,
    pub stop: bool,
}

impl View for EmulatorContext {
    type V = EmulatorView;

    closed spec fn view(&self) -> EmulatorView {
        EmulatorView {
            regs: self.registers@,
            mem: self.memory@,
            pc: self.program_counter,
            max_address: self.max_address,
            data_offset: self.data_offset,
            stack_offset: self.stack_offset,
            stop: self.stop,
        }
    }
}

/// The register and memory parts of an emulator's view are the views
/// of its register file and memory image.
pub proof fn lemma_view_parts(c: &EmulatorContext)
    ensures
        c@.regs == c.registers@,
        c@.mem == c.memory@,
{
}

impl Default for EmulatorContext {
    /// A fresh emulator: all registers 0 but for the stack pointer,
    /// an empty memory image, PC 0, and the stop flag cleared.
    fn default() -> (r: Self)
        ensures
            r.wf(),
            r@.regs.len() == 32,
            forall|j: int| 0 <= j < 32 && j != 2 ==> r@.regs[j] == 0,
            r@.regs[2] == STACK_DEFAULT_ADDRESS,
            r@.mem == Seq::<u32>::empty(),
            r@.pc == PC_DEFAULT_ADDRESS,
            r@.max_address == 0,
            r@.data_offset == 0,
            r@.stack_offset == STACK_DEFAULT_ADDRESS,
            !r@.stop,
    {
        let mut registers = Registers::default();
        registers.write(2, STACK_DEFAULT_ADDRESS);
        EmulatorContext {
            registers,
            memory: MemoryWrapper::default(),
            program_counter: PC_DEFAULT_ADDRESS,
            max_address: 0,
            data_offset: 0,
            stack_offset: STACK_DEFAULT_ADDRESS,
            stop: false,
        }
    }
}

impl EmulatorContext {
    /// The register file is well formed, the program counter and the
    /// segment end are 4-byte aligned, and the memory image covers
    /// every appended segment.
    pub open spec fn wf(&self) -> bool {
        &&& self@.regs.len() == 32
        &&& self@.regs[0] == 0
        &&& self@.pc % 4 == 0
        &&& self@.max_address % 4 == 0
        &&& 4 * self@.mem.len() >= self@.max_address
    }

    /// Append a code segment; the first appended word of the newest
    /// code segment becomes the next PC target.
    pub fn set_code_segment(&mut self, data: &[u32]) -> (r: &mut Self)
        requires
            old(self).wf(),
            old(self)@.max_address + data@.len() * 4 <= u32::MAX,
        ensures
            r.wf(),
            r@.pc == old(self)@.max_address,
            r@.max_address == old(self)@.max_address + data@.len() * 4,
            r@.mem == old(self)@.mem + data@,
            r@.regs == old(self)@.regs,
            r@.data_offset == old(self)@.data_offset,
            r@.stack_offset == old(self)@.stack_offset,
            r@.stop == old(self)@.stop,
            *final(self) == *final(r),
    {
        self.program_counter = self.max_address;
        self.max_address = self.max_address + (data.len() as u32) * 4;
        self.memory.append(data);
        self
    }

    /// Append a data segment; its base address is the previous
    /// segment end, kept in `data_offset`.
    pub fn set_data_segment(&mut self, data: &[u32]) -> (r: &mut Self)
        requires
            old(self).wf(),
            old(self)@.max_address + data@.len() * 4 <= u32::MAX,
        ensures
            r.wf(),
            r@.pc == old(self)@.pc,
            r@.data_offset == old(self)@.max_address,
            r@.max_address == old(self)@.max_address + data@.len() * 4,
            r@.mem == old(self)@.mem + data@,
            r@.regs == old(self)@.regs,
            r@.stack_offset == old(self)@.stack_offset,
            r@.stop == old(self)@.stop,
            *final(self) == *final(r),
    {
        self.data_offset = self.max_address;
        self.max_address = self.max_address + (data.len() as u32) * 4;
        self.memory.append(data);
        self
    }

    /// Initialize the stack pointer (register x2) to `offset`.
    pub fn set_stack_offset(&mut self, offset: Address) -> (r: &mut Self)
        requires
            old(self).wf(),
        ensures
            r.wf(),
            r@.regs == old(self)@.regs.update(2, offset),
            r@.stack_offset == offset,
            r@.pc == old(self)@.pc,
            r@.mem == old(self)@.mem,
            r@.max_address == old(self)@.max_address,
            r@.data_offset == old(self)@.data_offset,
            r@.stop == old(self)@.stop,
            *final(self) == *final(r),
    {
        self.stack_offset = offset;
        self.registers.write(2, offset);
        self
    }

    /// Dispatch one already-fetched instruction, with the program
    /// counter already advanced past it. The step follows
    /// `dispatch_spec` exactly; on an error the whole state is left
    /// unchanged.
    pub fn execute(&mut self, instruction: &Instruction) -> (res: Result<(), ErrorKind>)
        requires
            old(self).wf(),
            old(self)@.pc >= 4,
        ensures
            final(self).wf(),
            final(self)@.max_address == old(self)@.max_address,
            final(self)@.data_offset == old(self)@.data_offset,
            final(self)@.stack_offset == old(self)@.stack_offset,
            ({
                match dispatch_spec(as_machine(old(self)@), instruction.0) {
                    Ok(m2) => res == Ok::<(), ErrorKind>(()) && as_machine(final(self)@) == m2,
                    Err(k) => res == Err::<(), ErrorKind>(k) && as_machine(final(self)@)
                        == as_machine(old(self)@),
                }
            }),
    {
        if instruction.0 == 0 {
            self.stop = true;
            return Ok(());
        }
        let op = instruction.opcode();
        match op {
            0x03 => self.memory.load(&mut self.registers, &instruction.as_i()),
            0x13 => {
                ALU::immediate(&mut self.registers, &instruction.as_i());
                Ok(())
            },
            0x33 => ALU::execute(&mut self.registers, &instruction.as_r()),
            0x23 => self.memory.store(&self.registers, &instruction.as_s()),
            0x63 => ALU::branch(&self.registers, &mut self.program_counter, &instruction.as_b()),
            0x6F => {
                let j = instruction.as_j();
                let t = (self.program_counter - 4).wrapping_add(j.imm() as u32);
                if t % 4 == 0 {
                    let pc = self.program_counter;
                    self.registers.write(j.rd(), pc);
                    self.program_counter = t;
                    Ok(())
                } else {
                    Err(ErrorKind::AlignmentError)
                }
            },
            0x67 => {
                let i = instruction.as_i();
                let base = self.registers.get(i.rs1());
                let t = base.wrapping_add(i.imm() as u32) & !1u32;
                if t % 4 == 0 {
                    let pc = self.program_counter;
                    self.registers.write(i.rd(), pc);
                    self.program_counter = t;
                    Ok(())
                } else {
                    Err(ErrorKind::AlignmentError)
                }
            },
            0x37 => {
                let u = instruction.as_u();
                let v = u.high_imm();
                self.registers.write(u.rd(), v);
                Ok(())
            },
            0x17 => {
                let u = instruction.as_u();
                let v = (self.program_counter - 4).wrapping_add(u.high_imm());
                self.registers.write(u.rd(), v);
                Ok(())
            },
            _ => Err(ErrorKind::DecodeError),
        }
    }

    /// Run until the machine stops or a fatal error occurs. The final
    /// state is what `steps_spec` yields from the starting state after
    /// some number of steps; on success the machine has stopped, and a
    /// fault reports the error kind and the faulting instruction's
    /// address. The engine gives up after `u64::MAX` steps, a budget
    /// no real program exhausts; only in that case does it return `Ok`
    /// with the stop flag still clear.
    #[verifier::loop_isolation(false)]
    pub fn run(&mut self) -> (res: Result<(), Fault>)
        requires
            old(self).wf(),
        ensures
            final(self).wf(),
            final(self)@.max_address == old(self)@.max_address,
            final(self)@.data_offset == old(self)@.data_offset,
            final(self)@.stack_offset == old(self)@.stack_offset,
            ({
                let m0 = as_machine(old(self)@);
                let bound = old(self)@.max_address;
                match res {
                    Ok(()) => exists|n: nat|
                        (#[trigger] steps_spec(m0, bound, n)) == Ok::<Machine, Fault>(
                            as_machine(final(self)@),
                        ) && (final(self)@.stop || n == u64::MAX as nat),
                    Err(f) => final(self)@.stop && exists|n: nat|
                        (#[trigger] steps_spec(m0, bound, n)) == Err::<Machine, Fault>(f),
                }
            }),
    {
        let ghost m0 = as_machine(old(self)@);
        let ghost bound = old(self)@.max_address;
        let mut fuel: u64 = u64::MAX;
        proof {
            assert(steps_spec(m0, bound, 0) == Ok::<Machine, Fault>(as_machine(self@)));
        }
        while !self.stop && fuel > 0
            invariant
                self.wf(),
                self@.max_address == bound,
                self@.data_offset == old(self)@.data_offset,
                self@.stack_offset == old(self)@.stack_offset,
                steps_spec(m0, bound, (u64::MAX - fuel) as nat) == Ok::<Machine, Fault>(
                    as_machine(self@),
                ),
            decreases fuel,
        {
            let ghost m_before = as_machine(self@);
            let ghost n = (u64::MAX - fuel) as nat;
            proof {
                lemma_steps_snoc(m0, bound, n);
            }
            if self.program_counter >= self.max_address {
                self.stop = true;
                proof {
                    assert(step_spec(m_before, bound) == Ok::<Machine, Fault>(as_machine(self@)));
                }
            } else {
                let pc0 = self.program_counter;
                proof {
                    assert(pc0 + 4 <= bound) by {
                        assert(pc0 % 4 == 0 && bound % 4 == 0 && pc0 < bound);
                    };
                }
                let w = self.memory.read_word(&pc0);
                self.program_counter = pc0 + PC_STEP;
                let ins = Instruction::from(w);
                let step_res = self.execute(&ins);
                match step_res {
                    Ok(()) => {
                        proof {
                            assert(step_spec(m_before, bound) == Ok::<Machine, Fault>(
                                as_machine(self@),
                            ));
                        }
                    },
                    Err(k) => {
                        self.stop = true;
                        let f = Fault { kind: k, pc: pc0 };
                        proof {
                            assert(step_spec(m_before, bound) == Err::<Machine, Fault>(f));
                            assert(steps_spec(m0, bound, n + 1) == Err::<Machine, Fault>(f));
                        }
                        return Err(f);
                    },
                }
            }
            fuel = fuel - 1;
        }
        Ok(())
    }
}

} // verus!
