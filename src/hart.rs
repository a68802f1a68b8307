//! The hart: one hardware thread that fetches a word at the program counter,
//! advances the counter by four, decodes the word, identifies its operation
//! against the descriptors and executes it on its registers and memory.
use vstd::prelude::*;
use crate::architecture::{raw_of, spec_decode, RV32Instruction, RV32I, raw_word};
use crate::bitfield::{
    b_imm_bits, i_imm_bits, j_imm_bits, rd_bits, rs1_bits, rs2_bits, s_imm_bits, sign_extend,
    sign_extend_field, BType32Bitfield, IType32Bitfield, JType32Bitfield, RType32Bitfield,
    SType32Bitfield,
};
use crate::error::HartError;
use crate::instruction::{identify, spec_identify, Mnemonic};
use crate::memory::{in_bounds, le_half, le_word, put_half, put_word, Memory, VecMemory};
use crate::register::{spec_read, spec_written, Registers64, REGISTERS_COUNT};

verus! {

/// The state of a hart: its 32 registers, its program counter and its memory.
pub struct HartState {
    pub regs: Seq<u32>,
    pub pc: u32,
    pub mem: Seq<u8>,
}

/// `v` reduced modulo 2^32.
pub open spec fn wrap32(v: int) -> u32 {
    (v % 0x1_0000_0000) as u32
}

/// The two's-complement value of a register.
pub open spec fn signed(x: u32) -> int {
    if x >= 0x8000_0000 {
        x - 0x1_0000_0000
    } else {
        x as int
    }
}

/// The result of a register-immediate operation on `x` and the
/// sign-extended immediate `imm`.
pub open spec fn spec_alu_immediate(m: Mnemonic, x: u32, imm: int) -> u32 {
    match m {
        Mnemonic::Addi => wrap32(x + imm),
        Mnemonic::Slti => if signed(x) < imm {
            1
        } else {
            0
        },
        Mnemonic::Sltiu => if x < wrap32(imm) {
            1
        } else {
            0
        },
        Mnemonic::Xori => x ^ wrap32(imm),
        Mnemonic::Ori => x | wrap32(imm),
        _ => x & wrap32(imm),
    }
}

/// The result of a register-register operation on `x` and `y`; shifts use
/// the low five bits of `y`.
pub open spec fn spec_alu_register(m: Mnemonic, x: u32, y: u32) -> u32 {
    match m {
        Mnemonic::Add => wrap32(x + y),
        Mnemonic::Sub => wrap32(x - y),
        Mnemonic::Sll => x << (y & 0x1f),
        Mnemonic::Slt => if signed(x) < signed(y) {
            1
        } else {
            0
        },
        Mnemonic::Sltu => if x < y {
            1
        } else {
            0
        },
        Mnemonic::Xor => x ^ y,
        Mnemonic::Srl => x >> (y & 0x1f),
        Mnemonic::Sra => ((x as i32) >> ((y & 0x1f) as i32)) as u32,
        Mnemonic::Or => x | y,
        _ => x & y,
    }
}

/// Whether a branch is taken for the register values `x` and `y`.
pub open spec fn spec_branch_taken(m: Mnemonic, x: u32, y: u32) -> bool {
    match m {
        Mnemonic::Beq => x == y,
        Mnemonic::Bne => x != y,
        Mnemonic::Blt => signed(x) < signed(y),
        Mnemonic::Bge => signed(x) >= signed(y),
        Mnemonic::Bltu => x < y,
        _ => x >= y,
    }
}

pub open spec fn is_alu_immediate(m: Mnemonic) -> bool {
    m is Addi || m is Slti || m is Sltiu || m is Xori || m is Ori || m is Andi
}

pub open spec fn is_alu_register(m: Mnemonic) -> bool {
    m is Add || m is Sub || m is Sll || m is Slt || m is Sltu || m is Xor || m is Srl || m is Sra
        || m is Or || m is And
}

pub open spec fn is_branch(m: Mnemonic) -> bool {
    m is Beq || m is Bne || m is Blt || m is Bge || m is Bltu || m is Bgeu
}

pub open spec fn is_load(m: Mnemonic) -> bool {
    m is Lb || m is Lh || m is Lw || m is Lbu || m is Lhu
}

pub open spec fn is_store(m: Mnemonic) -> bool {
    m is Sb || m is Sh || m is Sw
}

/// The number of bytes a load or store moves.
pub open spec fn access_width(m: Mnemonic) -> int {
    match m {
        Mnemonic::Lb | Mnemonic::Lbu | Mnemonic::Sb => 1,
        Mnemonic::Lh | Mnemonic::Lhu | Mnemonic::Sh => 2,
        _ => 4,
    }
}

/// The register value a load produces from the memory `mem` at `a`.
pub open spec fn spec_loaded(m: Mnemonic, mem: Seq<u8>, a: int) -> u32 {
    match m {
        Mnemonic::Lb => wrap32(sign_extend(mem[a] as int, 0x80)),
        Mnemonic::Lh => wrap32(sign_extend(le_half(mem, a), 0x8000)),
        Mnemonic::Lbu => mem[a] as u32,
        Mnemonic::Lhu => le_half(mem, a) as u32,
        _ => le_word(mem, a) as u32,
    }
}

/// The memory after a store of the register value `v` at `a`.
pub open spec fn spec_stored(m: Mnemonic, mem: Seq<u8>, a: int, v: u32) -> Seq<u8> {
    match m {
        Mnemonic::Sb => mem.update(a, (v % 0x100) as u8),
        Mnemonic::Sh => put_half(mem, a, (v % 0x1_0000) as u16),
        _ => put_word(mem, a, v),
    }
}

/// Executing the operation `m` on the word `w` in the state `s`, whose
/// program counter has already advanced past the word: the new state, or
/// the error that leaves the state as it was. Branches and jumps aim at the
/// address the word was fetched from plus their offset.
pub open spec fn spec_execute(m: Mnemonic, w: u32, s: HartState) -> Result<HartState, HartError> {
    let x1 = spec_read(s.regs, rs1_bits(w) as int);
    let x2 = spec_read(s.regs, rs2_bits(w) as int);
    let rd = rd_bits(w) as int;
    let fetched = s.pc - 4;
    if is_alu_immediate(m) {
        let v = spec_alu_immediate(m, x1, sign_extend(i_imm_bits(w) as int, 0x800));
        Ok(HartState { regs: spec_written(s.regs, rd, v), ..s })
    } else if is_alu_register(m) {
        Ok(HartState { regs: spec_written(s.regs, rd, spec_alu_register(m, x1, x2)), ..s })
    } else if is_branch(m) {
        if spec_branch_taken(m, x1, x2) {
            Ok(HartState { pc: wrap32(fetched + sign_extend(b_imm_bits(w) as int, 0x1000)), ..s })
        } else {
            Ok(s)
        }
    } else if m is Jal {
        Ok(
            HartState {
                regs: spec_written(s.regs, rd, s.pc),
                pc: wrap32(fetched + sign_extend(j_imm_bits(w) as int, 0x10_0000)),
                ..s
            },
        )
    } else if is_load(m) {
        let a = wrap32(x1 + sign_extend(i_imm_bits(w) as int, 0x800));
        if in_bounds(s.mem, a as int, access_width(m)) {
            Ok(HartState { regs: spec_written(s.regs, rd, spec_loaded(m, s.mem, a as int)), ..s })
        } else {
            Err(HartError::OutOfBounds(a))
        }
    } else if is_store(m) {
        let a = wrap32(x1 + sign_extend(s_imm_bits(w) as int, 0x800));
        if in_bounds(s.mem, a as int, access_width(m)) {
            Ok(HartState { mem: spec_stored(m, s.mem, a as int, x2), ..s })
        } else {
            Err(HartError::OutOfBounds(a))
        }
    } else {
        Err(HartError::Unimplemented(w))
    }
}

/// Identifying and executing a decoded instruction in the state `s`.
pub open spec fn spec_run(inst: RV32Instruction, s: HartState) -> Result<HartState, HartError> {
    match spec_identify(inst) {
        Some(m) => spec_execute(m, raw_of(inst), s),
        None => Err(HartError::Identify(raw_of(inst))),
    }
}

/// The state after a run that may fail: failures leave `s` as it was.
pub open spec fn state_after(s: HartState, r: Result<HartState, HartError>) -> HartState {
    match r {
        Ok(t) => t,
        Err(_) => s,
    }
}

/// The outcome of a run without its state.
pub open spec fn outcome(r: Result<HartState, HartError>) -> Result<(), HartError> {
    match r {
        Ok(_) => Ok(()),
        Err(e) => Err(e),
    }
}

/// Fetching in the state `s`: the word at the program counter, with the
/// counter advanced by four, decoded. A word past the end of memory is not
/// fetched and leaves the counter; a word that does not decode still
/// advances it.
pub open spec fn spec_fetch(s: HartState) -> (HartState, Result<RV32Instruction, HartError>) {
    if !in_bounds(s.mem, s.pc as int, 4) {
        (s, Err(HartError::OutOfBounds(s.pc)))
    } else {
        let w = le_word(s.mem, s.pc as int) as u32;
        let t = HartState { pc: wrap32(s.pc + 4), ..s };
        match spec_decode(w) {
            Some(inst) => (t, Ok(inst)),
            None => (t, Err(HartError::Decode(w))),
        }
    }
}

/// One full cycle of fetch, decode, identify and execute in the state `s`.
pub open spec fn spec_step(s: HartState) -> (HartState, Result<(), HartError>) {
    let (t, fetched) = spec_fetch(s);
    match fetched {
        Ok(inst) => (state_after(t, spec_run(inst, t)), outcome(spec_run(inst, t))),
        Err(e) => (t, Err(e)),
    }
}

/// Only branches and jumps set the program counter, only stores change
/// memory, and every other operation changes at most its destination
/// register.
pub proof fn lemma_execute_changes_one_place(m: Mnemonic, w: u32, s: HartState)
    requires
        s.regs.len() == REGISTERS_COUNT,
        spec_execute(m, w, s) is Ok,
    ensures
        !is_branch(m) && !(m is Jal) ==> spec_execute(m, w, s).unwrap().pc == s.pc,
        !is_store(m) ==> spec_execute(m, w, s).unwrap().mem == s.mem,
        is_store(m) || is_branch(m) ==> spec_execute(m, w, s).unwrap().regs == s.regs,
        spec_execute(m, w, s).unwrap().regs.len() == s.regs.len(),
        forall|i: int|
            0 <= i < REGISTERS_COUNT && i != rd_bits(w) ==> #[trigger] spec_execute(
                m,
                w,
                s,
            ).unwrap().regs[i] == s.regs[i],
{
    crate::bitfield::lemma_field_bounds(w);
}

/// A hart that runs RV32I instructions.
pub trait Hart {
    /// The registers, program counter and memory.
    spec fn state(&self) -> HartState;

    /// 32 registers with register 0 at zero, and memory addressable with
    /// 32-bit addresses.
    spec fn wf(&self) -> bool;

    /// Reads the word at the program counter, advances the counter by four
    /// and decodes the word.
    fn fetch(&mut self) -> (r: Result<RV32Instruction, HartError>)
        requires
            old(self).wf(),
        ensures
            final(self).wf(),
            (final(self).state(), r) == spec_fetch(old(self).state()),
    ;

    /// Identifies a decoded instruction and executes it.
    fn execute(&mut self, instruction: &RV32Instruction) -> (r: Result<(), HartError>)
        requires
            old(self).wf(),
        ensures
            final(self).wf(),
            final(self).state() == state_after(old(self).state(), spec_run(*instruction, old(self).state())),
            r == outcome(spec_run(*instruction, old(self).state())),
    ;

    /// Fetches, decodes, identifies and executes one instruction.
    fn step(&mut self) -> (r: Result<(), HartError>)
        requires
            old(self).wf(),
        ensures
            final(self).wf(),
            (final(self).state(), r) == spec_step(old(self).state()),
    ;
}

/// A single RV32I hart with its own registers and memory.
#[derive(Debug)]
pub struct SimpleRV32IHart {
    registers: Registers64,
    ram: VecMemory,
}

/// The value of `v` modulo 2^32 as a register value.
fn wrapped(v: i32) -> (r: u32)
    ensures
        r == wrap32(v as int),
{
    0u32.wrapping_add_signed(v)
}

/// The two's-complement value of a register.
fn as_signed(x: u32) -> (r: i32)
    ensures
        r as int == signed(x),
{
    if x >= 0x8000_0000 {
        ((x - 0x8000_0000) as i32) + i32::MIN
    } else {
        x as i32
    }
}

fn alu_immediate(m: Mnemonic, x: u32, imm: i32) -> (r: u32)
    requires
        is_alu_immediate(m),
    ensures
        r == spec_alu_immediate(m, x, imm as int),
{
    match m {
        Mnemonic::Addi => x.wrapping_add_signed(imm),
        Mnemonic::Slti => if as_signed(x) < imm {
            1
        } else {
            0
        },
        Mnemonic::Sltiu => if x < wrapped(imm) {
            1
        } else {
            0
        },
        Mnemonic::Xori => x ^ wrapped(imm),
        Mnemonic::Ori => x | wrapped(imm),
        _ => x & wrapped(imm),
    }
}

fn alu_register(m: Mnemonic, x: u32, y: u32) -> (r: u32)
    requires
        is_alu_register(m),
    ensures
        r == spec_alu_register(m, x, y),
{
    let shamt = y & 0x1f;
    proof {
        assert(y & 0x1f < 32) by (bit_vector);
    }
    match m {
        Mnemonic::Add => x.wrapping_add(y),
        Mnemonic::Sub => x.wrapping_sub(y),
        Mnemonic::Sll => x << shamt,
        Mnemonic::Slt => if as_signed(x) < as_signed(y) {
            1
        } else {
            0
        },
        Mnemonic::Sltu => if x < y {
            1
        } else {
            0
        },
        Mnemonic::Xor => x ^ y,
        Mnemonic::Srl => x >> shamt,
        Mnemonic::Sra => ((x as i32) >> (shamt as i32)) as u32,
        Mnemonic::Or => x | y,
        _ => x & y,
    }
}

fn branch_taken(m: Mnemonic, x: u32, y: u32) -> (r: bool)
    requires
        is_branch(m),
    ensures
        r == spec_branch_taken(m, x, y),
{
    match m {
        Mnemonic::Beq => x == y,
        Mnemonic::Bne => x != y,
        Mnemonic::Blt => as_signed(x) < as_signed(y),
        Mnemonic::Bge => as_signed(x) >= as_signed(y),
        Mnemonic::Bltu => x < y,
        _ => x >= y,
    }
}

impl SimpleRV32IHart {
    /// A hart with `memory_size` zeroed bytes of memory, the program counter
    /// at zero and the stack pointer at the last address of memory.
    pub fn new(memory_size: usize) -> (r: Self)
        requires
            1 <= memory_size <= 0x1_0000_0000,
        ensures
            r.wf(),
            r.state().pc == 0,
            r.state().mem.len() == memory_size,
            forall|i: int| 0 <= i < memory_size ==> #[trigger] r.state().mem[i] == 0,
            r.state().regs[2] == memory_size - 1,
            forall|i: int| 0 <= i < REGISTERS_COUNT && i != 2 ==> #[trigger] r.state().regs[i] == 0,
    {
        let registers = Registers64::new(memory_size);
        let ram = VecMemory::new(memory_size);
        SimpleRV32IHart { registers, ram }
    }

    /// A hart whose memory holds `image`, with the program counter at zero
    /// and the stack pointer at the last address of memory.
    pub fn with_memory(image: Vec<u8>) -> (r: Self)
        requires
            1 <= image@.len() <= 0x1_0000_0000,
        ensures
            r.wf(),
            r.state().pc == 0,
            r.state().mem == image@,
            r.state().regs[2] == image@.len() - 1,
            forall|i: int| 0 <= i < REGISTERS_COUNT && i != 2 ==> #[trigger] r.state().regs[i] == 0,
    {
        let registers = Registers64::new(image.len());
        let ram = VecMemory::from_bytes(image);
        SimpleRV32IHart { registers, ram }
    }

    /// A well-formed hart has 32 registers with register 0 at zero, and
    /// memory addressable with 32-bit addresses.
    pub proof fn lemma_wf(&self)
        requires
            self.wf(),
        ensures
            self.state().regs.len() == REGISTERS_COUNT,
            self.state().regs[0] == 0,
            self.state().mem.len() <= 0x1_0000_0000,
    {
    }

    /// The value of register `index`.
    pub fn read_register(&self, index: u8) -> (r: u32)
        requires
            self.wf(),
            index < REGISTERS_COUNT,
        ensures
            r == spec_read(self.state().regs, index as int),
            r == self.state().regs[index as int],
    {
        self.registers.read(index)
    }

    /// Writes register `index`; a write to register 0 is discarded.
    pub fn write_register(&mut self, index: u8, value: u32)
        requires
            old(self).wf(),
            index < REGISTERS_COUNT,
        ensures
            final(self).wf(),
            final(self).state() == (HartState {
                regs: spec_written(old(self).state().regs, index as int, value),
                ..old(self).state()
            }),
    {
        self.registers.write(index, value);
    }

    /// The program counter.
    pub fn read_pc(&self) -> (r: u32)
        ensures
            r == self.state().pc,
    {
        self.registers.read_pc()
    }

    /// Sets the program counter.
    pub fn write_pc(&mut self, value: u32)
        requires
            old(self).wf(),
        ensures
            final(self).wf(),
            final(self).state() == (HartState { pc: value, ..old(self).state() }),
    {
        self.registers.write_pc(value);
    }

    /// The `n` bytes of memory from `address`.
    pub fn peek(&self, address: u32, n: u32) -> (r: Result<Vec<u8>, HartError>)
        requires
            self.wf(),
        ensures
            in_bounds(self.state().mem, address as int, n as int) ==> (r matches Ok(v) && v@
                == self.state().mem.subrange(address as int, address + n)),
            !in_bounds(self.state().mem, address as int, n as int) ==> r == Err::<Vec<u8>, HartError>(
                HartError::OutOfBounds(address),
            ),
    {
        if (address as u64) + (n as u64) > self.ram.size() as u64 {
            return Err(HartError::OutOfBounds(address));
        }
        let mut out: Vec<u8> = Vec::new();
        let mut i: u32 = 0;
        while i < n
            invariant
                i <= n,
                address + n <= self.state().mem.len(),
                self.wf(),
                out@ == self.state().mem.subrange(address as int, address + i),
            decreases n - i,
        {
            let b = match self.ram.read_byte(address + i) {
                Ok(b) => b,
                Err(e) => return Err(e),
            };
            out.push(b);
            proof {
                assert(out@ =~= self.state().mem.subrange(address as int, address + i + 1));
            }
            i = i + 1;
        }
        Ok(out)
    }

    fn execute_load(&mut self, m: Mnemonic, w: u32) -> (r: Result<(), HartError>)
        requires
            old(self).wf(),
            is_load(m),
        ensures
            final(self).wf(),
            final(self).state() == state_after(old(self).state(), spec_execute(m, w, old(self).state())),
            r == outcome(spec_execute(m, w, old(self).state())),
    {
        let i = IType32Bitfield::new_with_raw_value(w);
        let x1 = self.registers.read(i.rs1());
        let a = x1.wrapping_add_signed(i.imm());
        let v: u32 = match m {
            Mnemonic::Lb => match self.ram.read_byte(a) {
                Ok(b) => wrapped(sign_extend_field(b as u32, 0x80)),
                Err(e) => return Err(e),
            },
            Mnemonic::Lbu => match self.ram.read_byte(a) {
                Ok(b) => b as u32,
                Err(e) => return Err(e),
            },
            Mnemonic::Lh => match self.ram.read_half_word(a) {
                Ok(h) => wrapped(sign_extend_field(h as u32, 0x8000)),
                Err(e) => return Err(e),
            },
            Mnemonic::Lhu => match self.ram.read_half_word(a) {
                Ok(h) => h as u32,
                Err(e) => return Err(e),
            },
            _ => match self.ram.read_word(a) {
                Ok(v) => v,
                Err(e) => return Err(e),
            },
        };
        self.registers.write(i.rd(), v);
        Ok(())
    }

    fn execute_store(&mut self, m: Mnemonic, w: u32) -> (r: Result<(), HartError>)
        requires
            old(self).wf(),
            is_store(m),
        ensures
            final(self).wf(),
            final(self).state() == state_after(old(self).state(), spec_execute(m, w, old(self).state())),
            r == outcome(spec_execute(m, w, old(self).state())),
    {
        let s = SType32Bitfield::new_with_raw_value(w);
        let x1 = self.registers.read(s.rs1());
        let x2 = self.registers.read(s.rs2());
        let a = x1.wrapping_add_signed(s.imm());
        match m {
            Mnemonic::Sb => self.ram.write_byte(a, (x2 % 0x100) as u8),
            Mnemonic::Sh => self.ram.write_half_word(a, (x2 % 0x1_0000) as u16),
            _ => self.ram.write_word(a, x2),
        }
    }

    fn execute_alu_immediate(&mut self, m: Mnemonic, w: u32) -> (r: Result<(), HartError>)
        requires
            old(self).wf(),
            is_alu_immediate(m),
        ensures
            final(self).wf(),
            final(self).state() == state_after(old(self).state(), spec_execute(m, w, old(self).state())),
            r == outcome(spec_execute(m, w, old(self).state())),
    {
        let i = IType32Bitfield::new_with_raw_value(w);
        let x1 = self.registers.read(i.rs1());
        self.registers.write(i.rd(), alu_immediate(m, x1, i.imm()));
        Ok(())
    }

    fn execute_alu_register(&mut self, m: Mnemonic, w: u32) -> (r: Result<(), HartError>)
        requires
            old(self).wf(),
            is_alu_register(m),
        ensures
            final(self).wf(),
            final(self).state() == state_after(old(self).state(), spec_execute(m, w, old(self).state())),
            r == outcome(spec_execute(m, w, old(self).state())),
    {
        let fields = RType32Bitfield::new_with_raw_value(w);
        let x1 = self.registers.read(fields.rs1());
        let x2 = self.registers.read(fields.rs2());
        self.registers.write(fields.rd(), alu_register(m, x1, x2));
        Ok(())
    }

    fn execute_branch(&mut self, m: Mnemonic, w: u32) -> (r: Result<(), HartError>)
        requires
            old(self).wf(),
            is_branch(m),
        ensures
            final(self).wf(),
            final(self).state() == state_after(old(self).state(), spec_execute(m, w, old(self).state())),
            r == outcome(spec_execute(m, w, old(self).state())),
    {
        let b = BType32Bitfield::new_with_raw_value(w);
        let x1 = self.registers.read(b.rs1());
        let x2 = self.registers.read(b.rs2());
        if branch_taken(m, x1, x2) {
            let fetched = self.registers.read_pc().wrapping_sub(4);
            self.registers.write_pc(fetched.wrapping_add_signed(b.imm()));
        }
        Ok(())
    }

    fn execute_jump(&mut self, m: Mnemonic, w: u32) -> (r: Result<(), HartError>)
        requires
            old(self).wf(),
            m is Jal,
        ensures
            final(self).wf(),
            final(self).state() == state_after(old(self).state(), spec_execute(m, w, old(self).state())),
            r == outcome(spec_execute(m, w, old(self).state())),
    {
        let j = JType32Bitfield::new_with_raw_value(w);
        let next = self.registers.read_pc();
        let fetched = next.wrapping_sub(4);
        self.registers.write(j.rd(), next);
        self.registers.write_pc(fetched.wrapping_add_signed(j.imm()));
        Ok(())
    }

    /// Executes the operation `m` on the word `w`.
    fn execute_operation(&mut self, m: Mnemonic, w: u32) -> (r: Result<(), HartError>)
        requires
            old(self).wf(),
        ensures
            final(self).wf(),
            final(self).state() == state_after(old(self).state(), spec_execute(m, w, old(self).state())),
            r == outcome(spec_execute(m, w, old(self).state())),
    {
        match m {
            Mnemonic::Addi | Mnemonic::Slti | Mnemonic::Sltiu | Mnemonic::Xori | Mnemonic::Ori
            | Mnemonic::Andi => self.execute_alu_immediate(m, w),
            Mnemonic::Add | Mnemonic::Sub | Mnemonic::Sll | Mnemonic::Slt | Mnemonic::Sltu
            | Mnemonic::Xor | Mnemonic::Srl | Mnemonic::Sra | Mnemonic::Or | Mnemonic::And => {
                self.execute_alu_register(m, w)
            },
            Mnemonic::Beq | Mnemonic::Bne | Mnemonic::Blt | Mnemonic::Bge | Mnemonic::Bltu
            | Mnemonic::Bgeu => self.execute_branch(m, w),
            Mnemonic::Jal => self.execute_jump(m, w),
            Mnemonic::Lb | Mnemonic::Lh | Mnemonic::Lw | Mnemonic::Lbu | Mnemonic::Lhu => {
                self.execute_load(m, w)
            },
            Mnemonic::Sb | Mnemonic::Sh | Mnemonic::Sw => self.execute_store(m, w),
            Mnemonic::Fence | Mnemonic::Ecall => Err(HartError::Unimplemented(w)),
        }
    }
}

impl Hart for SimpleRV32IHart {
    closed spec fn state(&self) -> HartState {
        HartState { regs: self.registers.regs(), pc: self.registers.pc_value(), mem: self.ram.bytes() }
    }

    closed spec fn wf(&self) -> bool {
        self.registers.wf() && self.ram.bytes().len() <= 0x1_0000_0000
    }

    fn fetch(&mut self) -> (r: Result<RV32Instruction, HartError>) {
        let pc = self.registers.read_pc();
        let word = match self.ram.read_word(pc) {
            Ok(w) => w,
            Err(e) => return Err(e),
        };
        self.registers.write_pc(pc.wrapping_add(4));
        match RV32I.decode(word) {
            Some(inst) => Ok(inst),
            None => Err(HartError::Decode(word)),
        }
    }

    fn execute(&mut self, instruction: &RV32Instruction) -> (r: Result<(), HartError>) {
        let w = raw_word(instruction);
        match identify(instruction) {
            Some(m) => self.execute_operation(m, w),
            None => Err(HartError::Identify(w)),
        }
    }

    fn step(&mut self) -> (r: Result<(), HartError>) {
        match self.fetch() {
            Ok(inst) => self.execute(&inst),
            Err(e) => Err(e),
        }
    }
}

} // verus!
