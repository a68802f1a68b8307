//! The register file of a hart: 32 integer registers, of which register 0
//! always reads zero, and the program counter; and the table of register
//! names of the standard calling convention.
use vstd::prelude::*;
use vstd::string::StringSliceAdditionalSpecFns;

verus! {

/// Which side of a call preserves a register.
#[derive(Clone, Copy, Debug, PartialEq, Eq, Structural)]
pub enum SavedBy {
    NotSaved,
    Caller,
    Callee,
}

/// A register as the calling convention names it: its position (the
/// register number, or -1 for the program counter), its ABI name, its
/// architectural name and who saves it across calls.
#[derive(Clone, Copy, Debug)]
pub struct RegisterType {
    pub pos: i32,
    pub abi: &'static str,
    pub id: &'static str,
    pub saved_by: SavedBy,
}

/// The number of entries of the register name table.
pub const REGISTER_TYPE_COUNT: usize = 33;

/// The register name table: the program counter, then `x0` to `x31`.
pub open spec fn spec_register_type_at(i: int) -> RegisterType
    recommends
        0 <= i < REGISTER_TYPE_COUNT,
{
    if i == 0 {
        RegisterType { pos: -1i32, abi: "pc", id: "", saved_by: SavedBy::NotSaved }
    } else if i == 1 {
        RegisterType { pos: 0i32, abi: "zero", id: "x0", saved_by: SavedBy::NotSaved }
    } else if i == 2 {
        RegisterType { pos: 1i32, abi: "ra", id: "x1", saved_by: SavedBy::Caller }
    } else if i == 3 {
        RegisterType { pos: 2i32, abi: "sp", id: "x2", saved_by: SavedBy::Callee }
    } else if i == 4 {
        RegisterType { pos: 3i32, abi: "gp", id: "x3", saved_by: SavedBy::NotSaved }
    } else if i == 5 {
        RegisterType { pos: 4i32, abi: "tp", id: "x4", saved_by: SavedBy::NotSaved }
    } else if i == 6 {
        RegisterType { pos: 5i32, abi: "t0", id: "x5", saved_by: SavedBy::Caller }
    } else if i == 7 {
        RegisterType { pos: 6i32, abi: "t1", id: "x6", saved_by: SavedBy::Caller }
    } else if i == 8 {
        RegisterType { pos: 7i32, abi: "t2", id: "x7", saved_by: SavedBy::Caller }
    } else if i == 9 {
        RegisterType { pos: 8i32, abi: "s0 / fp", id: "x8", saved_by: SavedBy::Callee }
    } else if i == 10 {
        RegisterType { pos: 9i32, abi: "s1", id: "x9", saved_by: SavedBy::Callee }
    } else if i == 11 {
        RegisterType { pos: 10i32, abi: "a0", id: "x10", saved_by: SavedBy::Caller }
    } else if i == 12 {
        RegisterType { pos: 11i32, abi: "a1", id: "x11", saved_by: SavedBy::Caller }
    } else if i == 13 {
        RegisterType { pos: 12i32, abi: "a2", id: "x12", saved_by: SavedBy::Caller }
    } else if i == 14 {
        RegisterType { pos: 13i32, abi: "a3", id: "x13", saved_by: SavedBy::Caller }
    } else if i == 15 {
        RegisterType { pos: 14i32, abi: "a4", id: "x14", saved_by: SavedBy::Caller }
    } else if i == 16 {
        RegisterType { pos: 15i32, abi: "a5", id: "x15", saved_by: SavedBy::Caller }
    } else if i == 17 {
        RegisterType { pos: 16i32, abi: "a6", id: "x16", saved_by: SavedBy::Caller }
    } else if i == 18 {
        RegisterType { pos: 17i32, abi: "a7", id: "x17", saved_by: SavedBy::Caller }
    } else if i == 19 {
        RegisterType { pos: 18i32, abi: "s2", id: "x18", saved_by: SavedBy::Callee }
    } else if i == 20 {
        RegisterType { pos: 19i32, abi: "s3", id: "x19", saved_by: SavedBy::Callee }
    } else if i == 21 {
        RegisterType { pos: 20i32, abi: "s4", id: "x20", saved_by: SavedBy::Callee }
    } else if i == 22 {
        RegisterType { pos: 21i32, abi: "s5", id: "x21", saved_by: SavedBy::Callee }
    } else if i == 23 {
        RegisterType { pos: 22i32, abi: "s6", id: "x22", saved_by: SavedBy::Callee }
    } else if i == 24 {
        RegisterType { pos: 23i32, abi: "s7", id: "x23", saved_by: SavedBy::Callee }
    } else if i == 25 {
        RegisterType { pos: 24i32, abi: "s8", id: "x24", saved_by: SavedBy::Callee }
    } else if i == 26 {
        RegisterType { pos: 25i32, abi: "s9", id: "x25", saved_by: SavedBy::Callee }
    } else if i == 27 {
        RegisterType { pos: 26i32, abi: "s10", id: "x26", saved_by: SavedBy::Callee }
    } else if i == 28 {
        RegisterType { pos: 27i32, abi: "s11", id: "x27", saved_by: SavedBy::Callee }
    } else if i == 29 {
        RegisterType { pos: 28i32, abi: "t3", id: "x28", saved_by: SavedBy::Caller }
    } else if i == 30 {
        RegisterType { pos: 29i32, abi: "t4", id: "x29", saved_by: SavedBy::Caller }
    } else if i == 31 {
        RegisterType { pos: 30i32, abi: "t5", id: "x30", saved_by: SavedBy::Caller }
    } else {
        RegisterType { pos: 31i32, abi: "t6", id: "x31", saved_by: SavedBy::Caller }
    }
}

/// Entry `i` of the register name table.
fn register_type_at(i: usize) -> (r: RegisterType)
    requires
        i < REGISTER_TYPE_COUNT,
    ensures
        r == spec_register_type_at(i as int),
{
    if i == 0 {
        RegisterType { pos: -1i32, abi: "pc", id: "", saved_by: SavedBy::NotSaved }
    } else if i == 1 {
        RegisterType { pos: 0i32, abi: "zero", id: "x0", saved_by: SavedBy::NotSaved }
    } else if i == 2 {
        RegisterType { pos: 1i32, abi: "ra", id: "x1", saved_by: SavedBy::Caller }
    } else if i == 3 {
        RegisterType { pos: 2i32, abi: "sp", id: "x2", saved_by: SavedBy::Callee }
    } else if i == 4 {
        RegisterType { pos: 3i32, abi: "gp", id: "x3", saved_by: SavedBy::NotSaved }
    } else if i == 5 {
        RegisterType { pos: 4i32, abi: "tp", id: "x4", saved_by: SavedBy::NotSaved }
    } else if i == 6 {
        RegisterType { pos: 5i32, abi: "t0", id: "x5", saved_by: SavedBy::Caller }
    } else if i == 7 {
        RegisterType { pos: 6i32, abi: "t1", id: "x6", saved_by: SavedBy::Caller }
    } else if i == 8 {
        RegisterType { pos: 7i32, abi: "t2", id: "x7", saved_by: SavedBy::Caller }
    } else if i == 9 {
        RegisterType { pos: 8i32, abi: "s0 / fp", id: "x8", saved_by: SavedBy::Callee }
    } else if i == 10 {
        RegisterType { pos: 9i32, abi: "s1", id: "x9", saved_by: SavedBy::Callee }
    } else if i == 11 {
        RegisterType { pos: 10i32, abi: "a0", id: "x10", saved_by: SavedBy::Caller }
    } else if i == 12 {
        RegisterType { pos: 11i32, abi: "a1", id: "x11", saved_by: SavedBy::Caller }
    } else if i == 13 {
        RegisterType { pos: 12i32, abi: "a2", id: "x12", saved_by: SavedBy::Caller }
    } else if i == 14 {
        RegisterType { pos: 13i32, abi: "a3", id: "x13", saved_by: SavedBy::Caller }
    } else if i == 15 {
        RegisterType { pos: 14i32, abi: "a4", id: "x14", saved_by: SavedBy::Caller }
    } else if i == 16 {
        RegisterType { pos: 15i32, abi: "a5", id: "x15", saved_by: SavedBy::Caller }
    } else if i == 17 {
        RegisterType { pos: 16i32, abi: "a6", id: "x16", saved_by: SavedBy::Caller }
    } else if i == 18 {
        RegisterType { pos: 17i32, abi: "a7", id: "x17", saved_by: SavedBy::Caller }
    } else if i == 19 {
        RegisterType { pos: 18i32, abi: "s2", id: "x18", saved_by: SavedBy::Callee }
    } else if i == 20 {
        RegisterType { pos: 19i32, abi: "s3", id: "x19", saved_by: SavedBy::Callee }
    } else if i == 21 {
        RegisterType { pos: 20i32, abi: "s4", id: "x20", saved_by: SavedBy::Callee }
    } else if i == 22 {
        RegisterType { pos: 21i32, abi: "s5", id: "x21", saved_by: SavedBy::Callee }
    } else if i == 23 {
        RegisterType { pos: 22i32, abi: "s6", id: "x22", saved_by: SavedBy::Callee }
    } else if i == 24 {
        RegisterType { pos: 23i32, abi: "s7", id: "x23", saved_by: SavedBy::Callee }
    } else if i == 25 {
        RegisterType { pos: 24i32, abi: "s8", id: "x24", saved_by: SavedBy::Callee }
    } else if i == 26 {
        RegisterType { pos: 25i32, abi: "s9", id: "x25", saved_by: SavedBy::Callee }
    } else if i == 27 {
        RegisterType { pos: 26i32, abi: "s10", id: "x26", saved_by: SavedBy::Callee }
    } else if i == 28 {
        RegisterType { pos: 27i32, abi: "s11", id: "x27", saved_by: SavedBy::Callee }
    } else if i == 29 {
        RegisterType { pos: 28i32, abi: "t3", id: "x28", saved_by: SavedBy::Caller }
    } else if i == 30 {
        RegisterType { pos: 29i32, abi: "t4", id: "x29", saved_by: SavedBy::Caller }
    } else if i == 31 {
        RegisterType { pos: 30i32, abi: "t5", id: "x30", saved_by: SavedBy::Caller }
    } else {
        RegisterType { pos: 31i32, abi: "t6", id: "x31", saved_by: SavedBy::Caller }
    }
}

/// The name of a register by which it is looked up: its architectural name
/// with `by_id`, else its ABI name.
pub open spec fn register_key(t: RegisterType, by_id: bool) -> Seq<char> {
    if by_id {
        t.id@
    } else {
        t.abi@
    }
}

/// Position `i` of the register name table holds the first entry whose name
/// (as [`register_key`] picks it) is `name`.
pub open spec fn first_with(i: int, name: Seq<char>, by_id: bool) -> bool {
    &&& 0 <= i < REGISTER_TYPE_COUNT
    &&& register_key(spec_register_type_at(i), by_id) == name
    &&& forall|j: int|
        0 <= j < i ==> #[trigger] register_key(spec_register_type_at(j), by_id) != name
}

/// Whether two strings hold the same characters.
fn str_eq(a: &str, b: &str) -> (r: bool)
    ensures
        r == (a@ == b@),
{
    let x = a.as_bytes();
    let y = b.as_bytes();
    proof {
        vstd::utf8::encode_utf8_decode_utf8(a@);
        vstd::utf8::encode_utf8_decode_utf8(b@);
    }
    if x.len() != y.len() {
        return false;
    }
    let mut i: usize = 0;
    while i < x.len()
        invariant
            x@ == a.spec_bytes(),
            y@ == b.spec_bytes(),
            x@.len() == y@.len(),
            i <= x@.len(),
            forall|j: int| 0 <= j < i ==> x@[j] == y@[j],
        decreases x@.len() - i,
    {
        if x[i] != y[i] {
            return false;
        }
        i = i + 1;
    }
    assert(x@ =~= y@);
    true
}

/// The first entry of the register name table whose name (the ABI name, or
/// with `by_id` the architectural name) is `name`.
fn find_register_type(name: &str, by_id: bool) -> (r: Option<RegisterType>)
    ensures
        r matches Some(t) ==> exists|i: int| first_with(i, name@, by_id) && t == spec_register_type_at(i),
        r is None ==> forall|i: int|
            0 <= i < REGISTER_TYPE_COUNT ==> #[trigger] register_key(spec_register_type_at(i), by_id) != name@,
{
    let mut i: usize = 0;
    while i < REGISTER_TYPE_COUNT
        invariant
            i <= REGISTER_TYPE_COUNT,
            forall|j: int|
                0 <= j < i ==> #[trigger] register_key(spec_register_type_at(j), by_id) != name@,
        decreases REGISTER_TYPE_COUNT - i,
    {
        let t = register_type_at(i);
        let key = if by_id {
            t.id
        } else {
            t.abi
        };
        assert(key@ == register_key(t, by_id));
        if str_eq(key, name) {
            assert(first_with(i as int, name@, by_id));
            return Some(t);
        }
        i = i + 1;
    }
    None
}

impl RegisterType {
    /// The register whose ABI name is `name`.
    pub fn get_type_by_name(name: &str) -> (r: Option<RegisterType>)
        ensures
            r matches Some(t) ==> exists|i: int| first_with(i, name@, false) && t == spec_register_type_at(i),
            r is None ==> forall|i: int|
                0 <= i < REGISTER_TYPE_COUNT ==> #[trigger] register_key(spec_register_type_at(i), false) != name@,
    {
        find_register_type(name, false)
    }

    /// The register whose architectural name (`x0` to `x31`) is `id`.
    pub fn get_type_by_id(id: &str) -> (r: Option<RegisterType>)
        ensures
            r matches Some(t) ==> exists|i: int| first_with(i, id@, true) && t == spec_register_type_at(i),
            r is None ==> forall|i: int|
                0 <= i < REGISTER_TYPE_COUNT ==> #[trigger] register_key(spec_register_type_at(i), true) != id@,
    {
        find_register_type(id, true)
    }
}

/// The number of integer registers.
pub const REGISTERS_COUNT: usize = 32;

/// The register holding the stack pointer.
pub const STACK_POINTER: u8 = 2;

/// The value read from register `index` of `regs`: zero for register 0.
pub open spec fn spec_read(regs: Seq<u32>, index: int) -> u32 {
    if index == 0 {
        0
    } else {
        regs[index]
    }
}

/// `regs` after writing `value` to register `index`: a write to register 0
/// is discarded.
pub open spec fn spec_written(regs: Seq<u32>, index: int, value: u32) -> Seq<u32> {
    if index == 0 {
        regs
    } else {
        regs.update(index, value)
    }
}

/// The integer registers and program counter of a hart, 32 bits wide.
#[derive(Debug)]
pub struct Registers64 {
    x: Vec<u32>,
    pc: u32,
}

impl Registers64 {
    /// The values of the 32 integer registers.
    pub closed spec fn regs(&self) -> Seq<u32> {
        self.x@
    }

    /// The value of the program counter.
    pub closed spec fn pc_value(&self) -> u32 {
        self.pc
    }

    /// There are 32 registers and register 0 holds zero.
    pub open spec fn wf(&self) -> bool {
        &&& self.regs().len() == REGISTERS_COUNT
        &&& self.regs()[0] == 0
    }

    /// A register file for a hart with `memory_size` bytes of memory: every
    /// register and the program counter zero, except the stack pointer, which
    /// holds the last address of memory.
    pub fn new(memory_size: usize) -> (r: Self)
        requires
            1 <= memory_size <= 0x1_0000_0000,
        ensures
            r.wf(),
            r.pc_value() == 0,
            r.regs()[STACK_POINTER as int] == memory_size - 1,
            forall|i: int| 0 <= i < REGISTERS_COUNT && i != STACK_POINTER ==> #[trigger] r.regs()[i] == 0,
    {
        let mut x: Vec<u32> = Vec::new();
        let mut i: usize = 0;
        while i < REGISTERS_COUNT
            invariant
                i <= REGISTERS_COUNT,
                x@.len() == i,
                forall|j: int| 0 <= j < i ==> #[trigger] x@[j] == 0,
            decreases REGISTERS_COUNT - i,
        {
            x.push(0);
            i = i + 1;
        }
        x.set(STACK_POINTER as usize, (memory_size - 1) as u32);
        Registers64 { x, pc: 0 }
    }

    /// The value of register `index`; register 0 reads zero.
    pub fn read(&self, index: u8) -> (r: u32)
        requires
            self.wf(),
            index < REGISTERS_COUNT,
        ensures
            r == spec_read(self.regs(), index as int),
            r == self.regs()[index as int],
    {
        self.x[index as usize]
    }

    /// Writes `value` to register `index`; a write to register 0 is
    /// discarded.
    pub fn write(&mut self, index: u8, value: u32)
        requires
            old(self).wf(),
            index < REGISTERS_COUNT,
        ensures
            final(self).wf(),
            final(self).regs() == spec_written(old(self).regs(), index as int, value),
            final(self).pc_value() == old(self).pc_value(),
    {
        if index != 0 {
            self.x.set(index as usize, value);
        }
    }

    pub fn read_pc(&self) -> (r: u32)
        ensures
            r == self.pc_value(),
    {
        self.pc
    }

    pub fn write_pc(&mut self, value: u32)
        requires
            old(self).wf(),
        ensures
            final(self).wf(),
            final(self).pc_value() == value,
            final(self).regs() == old(self).regs(),
    {
        self.pc = value;
    }

    /// The value of the register `reg` names: the program counter for
    /// position -1, else the integer register at its position.
    pub fn get(&self, reg: RegisterType) -> (r: u32)
        requires
            self.wf(),
            -1 <= reg.pos < REGISTERS_COUNT,
        ensures
            r == if reg.pos == -1 {
                self.pc_value()
            } else {
                spec_read(self.regs(), reg.pos as int)
            },
    {
        if reg.pos == -1 {
            self.pc
        } else {
            self.read(reg.pos as u8)
        }
    }

    /// Writes `v` to the register `rt` names, as [`Self::get`] reads it.
    pub fn set(&mut self, rt: RegisterType, v: u32)
        requires
            old(self).wf(),
            -1 <= rt.pos < REGISTERS_COUNT,
        ensures
            final(self).wf(),
            rt.pos == -1 ==> final(self).pc_value() == v && final(self).regs() == old(self).regs(),
            rt.pos != -1 ==> final(self).pc_value() == old(self).pc_value() && final(self).regs()
                == spec_written(old(self).regs(), rt.pos as int, v),
    {
        if rt.pos == -1 {
            self.write_pc(v);
        } else {
            self.write(rt.pos as u8, v);
        }
    }
}

/// Register 0 reads zero whatever was written to it.
pub proof fn lemma_zero_register_reads_zero(regs: Seq<u32>, v: u32)
    requires
        regs.len() == REGISTERS_COUNT,
    ensures
        spec_read(spec_written(regs, 0, v), 0) == 0,
{
}

} // verus!
