//! Instruction-set simulator core for one RV32I hardware thread: bit layouts of
//! the instruction shapes, opcode and descriptor tables, the decoder, the
//! register file, flat memory and the hart that runs fetch, decode, identify
//! and execute.
pub mod architecture;
pub mod bitfield;
pub mod error;
pub mod hart;
pub mod instruction;
pub mod machine;
pub mod memory;
pub mod opcode;
pub mod register;
