//! An RV32I emulator: a bit-exact instruction decoder, an instruction
//! encoder, and a fetch/decode/execute engine over a 32-entry register
//! file and a word-addressable memory image.

pub mod alu;
pub mod arch;
pub mod bitops;
pub mod const_emulator;
pub mod emulator;
pub mod exception;
pub mod instruct_info;
pub mod instruction_type;
pub mod mask;
pub mod memory;
pub mod opcode;
pub mod register;
pub mod traits;

pub use arch::Address;
pub use arch::Byte;
pub use arch::R32I;
pub use emulator::EmulatorContext;
pub use register::Registers;
