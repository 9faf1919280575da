//! A self-contained runner: load a program at address 0 on a fresh
//! machine, run it to the end of its code or to the STOP sentinel, and
//! hand back register a0.

use vstd::prelude::*;
use crate::emulator::as_machine;
use crate::emulator::lemma_view_parts;
use crate::emulator::steps_spec;
use crate::emulator::EmulatorContext;
use crate::emulator::Machine;
use crate::exception::Fault;

verus! {

/// The stack pointer `run_loop` starts with: 100 bytes below the top
/// of an 8 MiB image.
pub const RUN_LOOP_STACK: u32 = 8388508;

/// The machine `run_loop` starts from: all registers 0 but the stack
/// pointer, the code as the whole image, PC 0, not stopped.
pub open spec fn boot_machine(code: Seq<u32>) -> Machine {
    Machine {
        regs: Seq::new(32, |i: int| if i == 2 { RUN_LOOP_STACK } else { 0u32 }),
        mem: code,
        pc: 0,
        stop: false,
    }
}

/// A runner that needs no setup beyond the program itself.
pub struct ConstantEmulator;

impl ConstantEmulator {
    /// Run `code` from a fresh machine until the program counter
    /// passes the end of the code or the STOP sentinel is fetched, and
    /// return register a0. A fatal fault is returned instead; the
    /// engine's step budget applies.
    pub fn run_loop(code: &[u32]) -> (r: Result<u32, Fault>)
        requires
            code@.len() * 4 <= u32::MAX,
        ensures
            ({
                let m0 = boot_machine(code@);
                let bound = (code@.len() * 4) as u32;
                match r {
                    Ok(v) => exists|n: nat|
                        {
                            let out = #[trigger] steps_spec(m0, bound, n);
                            out is Ok && v == out->Ok_0.regs[10] && (out->Ok_0.stop || n
                                == u64::MAX as nat)
                        },
                    Err(f) => exists|n: nat| (#[trigger] steps_spec(m0, bound, n)) == Err::<
                        Machine,
                        Fault,
                    >(f),
                }
            }),
    {
        let mut ctx = EmulatorContext::default();
        ctx.set_code_segment(code);
        ctx.set_stack_offset(RUN_LOOP_STACK);
        proof {
            assert(as_machine(ctx@).regs =~= boot_machine(code@).regs);
            assert(as_machine(ctx@).mem =~= boot_machine(code@).mem);
            assert(as_machine(ctx@) == boot_machine(code@));
            assert(ctx@.max_address == (code@.len() * 4) as u32);
        }
        match ctx.run() {
            Ok(()) => {
                proof {
                    lemma_view_parts(&ctx);
                }
                Ok(ctx.registers.get(10))
            },
            Err(f) => Err(f),
        }
    }
}

} // verus!
