//! A machine: one hart with its own memory.
use vstd::prelude::*;
use crate::hart::{Hart, SimpleRV32IHart};
use crate::register::REGISTERS_COUNT;

verus! {

/// The size of a machine's memory: 128 MiB.
pub const DRAM_SIZE: usize = 0x800_0000;

/// A machine of one hart.
pub struct Machine {
    pub hart: SimpleRV32IHart,
}

impl Machine {
    /// A machine whose hart has `DRAM_SIZE` zeroed bytes of memory, the
    /// program counter at zero, the stack pointer at the last address and
    /// every other register at zero.
    pub fn new() -> (r: Self)
        ensures
            r.hart.wf(),
            r.hart.state().pc == 0,
            r.hart.state().mem.len() == DRAM_SIZE,
            forall|i: int| 0 <= i < DRAM_SIZE ==> #[trigger] r.hart.state().mem[i] == 0,
            r.hart.state().regs[2] == DRAM_SIZE - 1,
            forall|i: int| 0 <= i < REGISTERS_COUNT && i != 2 ==> #[trigger] r.hart.state().regs[i] == 0,
    {
        Machine { hart: SimpleRV32IHart::new(DRAM_SIZE) }
    }
}

} // verus!
