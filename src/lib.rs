//! An emulator core for a Sharp SM83-class 8-bit processor: register file,
//! flags, addressable memory, instruction decoding and execution.
use vstd::prelude::*;

pub mod cpu;
pub mod instruction;
pub mod memory;
pub mod registers;

pub use cpu::CPU;
pub use instruction::{
    ArithmeticTarget, Instruction, JumpTest, LoadByteSource, LoadByteTarget, LoadType,
    UnknownInstruction,
};
pub use memory::{MemoryBus, MEMORY_SIZE};
pub use registers::{FlagsRegister, Registers};

verus! {

} // verus!
