//! Symbolic tables for the primary opcode, the funct3 sub-tables of each
//! opcode family and the funct7 values, with their conversions from and to raw
//! field values.
use vstd::prelude::*;

verus! {

/// The primary 7-bit opcodes of the base and standard-extension opcode map.
#[derive(Clone, Copy, Debug, PartialEq, Eq, Structural)]
pub enum Opcode7Table {
    Zero,
    Load,
    LoadFloatingPoint,
    Custom0,
    MiscMemory,
    OpImmediate,
    AddUpperImmediatePC,
    OpImmediate32,
    Store,
    StoreFloatingPoint,
    Custom1,
    AtomicMemoryOp,
    OpRegister,
    LoadUpperImmediate,
    OpRegister32,
    MultiplyAdd,
    MultiplySubtract,
    NegMultiplySubtract,
    NegMultiplyAdd,
    OpFloatingPoint,
    OpVector,
    Custom2Rv128,
    Branch,
    JumpAndLinkRegister,
    Reserved,
    JumpAndLink,
    System,
    OpVectorElement,
    Custom3Rv128,
}

/// The raw value of an opcode.
pub open spec fn opcode_value(op: Opcode7Table) -> u8 {
    match op {
        Opcode7Table::Zero => 0x00,
        Opcode7Table::Load => 0x03,
        Opcode7Table::LoadFloatingPoint => 0x07,
        Opcode7Table::Custom0 => 0x0b,
        Opcode7Table::MiscMemory => 0x0f,
        Opcode7Table::OpImmediate => 0x13,
        Opcode7Table::AddUpperImmediatePC => 0x17,
        Opcode7Table::OpImmediate32 => 0x1b,
        Opcode7Table::Store => 0x23,
        Opcode7Table::StoreFloatingPoint => 0x27,
        Opcode7Table::Custom1 => 0x2b,
        Opcode7Table::AtomicMemoryOp => 0x2f,
        Opcode7Table::OpRegister => 0x33,
        Opcode7Table::LoadUpperImmediate => 0x37,
        Opcode7Table::OpRegister32 => 0x3b,
        Opcode7Table::MultiplyAdd => 0x43,
        Opcode7Table::MultiplySubtract => 0x47,
        Opcode7Table::NegMultiplySubtract => 0x4b,
        Opcode7Table::NegMultiplyAdd => 0x4f,
        Opcode7Table::OpFloatingPoint => 0x53,
        Opcode7Table::OpVector => 0x57,
        Opcode7Table::Custom2Rv128 => 0x5b,
        Opcode7Table::Branch => 0x63,
        Opcode7Table::JumpAndLinkRegister => 0x67,
        Opcode7Table::Reserved => 0x6b,
        Opcode7Table::JumpAndLink => 0x6f,
        Opcode7Table::System => 0x73,
        Opcode7Table::OpVectorElement => 0x77,
        Opcode7Table::Custom3Rv128 => 0x7b,
    }
}

/// The opcode whose raw value is `v`, if any.
pub open spec fn opcode_from_value(v: u8) -> Option<Opcode7Table> {
    if v == 0x00 {
        Some(Opcode7Table::Zero)
    } else if v == 0x03 {
        Some(Opcode7Table::Load)
    } else if v == 0x07 {
        Some(Opcode7Table::LoadFloatingPoint)
    } else if v == 0x0b {
        Some(Opcode7Table::Custom0)
    } else if v == 0x0f {
        Some(Opcode7Table::MiscMemory)
    } else if v == 0x13 {
        Some(Opcode7Table::OpImmediate)
    } else if v == 0x17 {
        Some(Opcode7Table::AddUpperImmediatePC)
    } else if v == 0x1b {
        Some(Opcode7Table::OpImmediate32)
    } else if v == 0x23 {
        Some(Opcode7Table::Store)
    } else if v == 0x27 {
        Some(Opcode7Table::StoreFloatingPoint)
    } else if v == 0x2b {
        Some(Opcode7Table::Custom1)
    } else if v == 0x2f {
        Some(Opcode7Table::AtomicMemoryOp)
    } else if v == 0x33 {
        Some(Opcode7Table::OpRegister)
    } else if v == 0x37 {
        Some(Opcode7Table::LoadUpperImmediate)
    } else if v == 0x3b {
        Some(Opcode7Table::OpRegister32)
    } else if v == 0x43 {
        Some(Opcode7Table::MultiplyAdd)
    } else if v == 0x47 {
        Some(Opcode7Table::MultiplySubtract)
    } else if v == 0x4b {
        Some(Opcode7Table::NegMultiplySubtract)
    } else if v == 0x4f {
        Some(Opcode7Table::NegMultiplyAdd)
    } else if v == 0x53 {
        Some(Opcode7Table::OpFloatingPoint)
    } else if v == 0x57 {
        Some(Opcode7Table::OpVector)
    } else if v == 0x5b {
        Some(Opcode7Table::Custom2Rv128)
    } else if v == 0x63 {
        Some(Opcode7Table::Branch)
    } else if v == 0x67 {
        Some(Opcode7Table::JumpAndLinkRegister)
    } else if v == 0x6b {
        Some(Opcode7Table::Reserved)
    } else if v == 0x6f {
        Some(Opcode7Table::JumpAndLink)
    } else if v == 0x73 {
        Some(Opcode7Table::System)
    } else if v == 0x77 {
        Some(Opcode7Table::OpVectorElement)
    } else if v == 0x7b {
        Some(Opcode7Table::Custom3Rv128)
    } else {
        None
    }
}

impl Opcode7Table {
    /// The opcode whose raw value is `value`; `None` for a value outside the
    /// table.
    pub fn try_from(value: u8) -> (r: Option<Opcode7Table>)
        ensures
            r == opcode_from_value(value),
    {
        match value {
            0x00 => Some(Opcode7Table::Zero),
            0x03 => Some(Opcode7Table::Load),
            0x07 => Some(Opcode7Table::LoadFloatingPoint),
            0x0b => Some(Opcode7Table::Custom0),
            0x0f => Some(Opcode7Table::MiscMemory),
            0x13 => Some(Opcode7Table::OpImmediate),
            0x17 => Some(Opcode7Table::AddUpperImmediatePC),
            0x1b => Some(Opcode7Table::OpImmediate32),
            0x23 => Some(Opcode7Table::Store),
            0x27 => Some(Opcode7Table::StoreFloatingPoint),
            0x2b => Some(Opcode7Table::Custom1),
            0x2f => Some(Opcode7Table::AtomicMemoryOp),
            0x33 => Some(Opcode7Table::OpRegister),
            0x37 => Some(Opcode7Table::LoadUpperImmediate),
            0x3b => Some(Opcode7Table::OpRegister32),
            0x43 => Some(Opcode7Table::MultiplyAdd),
            0x47 => Some(Opcode7Table::MultiplySubtract),
            0x4b => Some(Opcode7Table::NegMultiplySubtract),
            0x4f => Some(Opcode7Table::NegMultiplyAdd),
            0x53 => Some(Opcode7Table::OpFloatingPoint),
            0x57 => Some(Opcode7Table::OpVector),
            0x5b => Some(Opcode7Table::Custom2Rv128),
            0x63 => Some(Opcode7Table::Branch),
            0x67 => Some(Opcode7Table::JumpAndLinkRegister),
            0x6b => Some(Opcode7Table::Reserved),
            0x6f => Some(Opcode7Table::JumpAndLink),
            0x73 => Some(Opcode7Table::System),
            0x77 => Some(Opcode7Table::OpVectorElement),
            0x7b => Some(Opcode7Table::Custom3Rv128),
            _ => None,
        }
    }

    /// The raw value of this opcode.
    pub fn value(&self) -> (r: u8)
        ensures
            r == opcode_value(*self),
    {
        match self {
            Opcode7Table::Zero => 0x00,
            Opcode7Table::Load => 0x03,
            Opcode7Table::LoadFloatingPoint => 0x07,
            Opcode7Table::Custom0 => 0x0b,
            Opcode7Table::MiscMemory => 0x0f,
            Opcode7Table::OpImmediate => 0x13,
            Opcode7Table::AddUpperImmediatePC => 0x17,
            Opcode7Table::OpImmediate32 => 0x1b,
            Opcode7Table::Store => 0x23,
            Opcode7Table::StoreFloatingPoint => 0x27,
            Opcode7Table::Custom1 => 0x2b,
            Opcode7Table::AtomicMemoryOp => 0x2f,
            Opcode7Table::OpRegister => 0x33,
            Opcode7Table::LoadUpperImmediate => 0x37,
            Opcode7Table::OpRegister32 => 0x3b,
            Opcode7Table::MultiplyAdd => 0x43,
            Opcode7Table::MultiplySubtract => 0x47,
            Opcode7Table::NegMultiplySubtract => 0x4b,
            Opcode7Table::NegMultiplyAdd => 0x4f,
            Opcode7Table::OpFloatingPoint => 0x53,
            Opcode7Table::OpVector => 0x57,
            Opcode7Table::Custom2Rv128 => 0x5b,
            Opcode7Table::Branch => 0x63,
            Opcode7Table::JumpAndLinkRegister => 0x67,
            Opcode7Table::Reserved => 0x6b,
            Opcode7Table::JumpAndLink => 0x6f,
            Opcode7Table::System => 0x73,
            Opcode7Table::OpVectorElement => 0x77,
            Opcode7Table::Custom3Rv128 => 0x7b,
        }
    }
}

/// Every opcode is found again from its raw value, and the raw values are
/// seven bits wide.
pub proof fn lemma_opcode_value_round_trip(op: Opcode7Table)
    ensures
        opcode_from_value(opcode_value(op)) == Some(op),
        opcode_value(op) < 128,
{
}

/// An opcode found from a raw value has that raw value.
pub proof fn lemma_opcode_from_value(v: u8)
    ensures
        opcode_from_value(v) matches Some(op) ==> opcode_value(op) == v,
{
}

/// The funct3 values of the jump-and-link-register family; other values are kept as `Unknown`.
#[derive(Clone, Copy, Debug, PartialEq, Eq, Structural)]
pub enum Funct3JALRTable {
    JALR,
    Unknown(u8),
}

/// The raw value of a jump-and-link-register funct3 entry.
pub open spec fn funct3_jalr_table_value(f: Funct3JALRTable) -> u8 {
    match f {
        Funct3JALRTable::JALR => 0,
        Funct3JALRTable::Unknown(v) => v,
    }
}

/// The jump-and-link-register funct3 entry for the raw value `v`.
pub open spec fn funct3_jalr_table_from_value(v: u8) -> Funct3JALRTable {
    if v == 0 {
        Funct3JALRTable::JALR
    } else {
        Funct3JALRTable::Unknown(v)
    }
}

impl Funct3JALRTable {
    pub fn from_value(v: u8) -> (r: Self)
        ensures
            r == funct3_jalr_table_from_value(v),
    {
        match v {
            0 => Funct3JALRTable::JALR,
            _ => Funct3JALRTable::Unknown(v),
        }
    }

    pub fn value(&self) -> (r: u8)
        ensures
            r == funct3_jalr_table_value(*self),
    {
        match self {
            Funct3JALRTable::JALR => 0,
            Funct3JALRTable::Unknown(v) => *v,
        }
    }
}

/// The funct3 values of the branch family; other values are kept as `Unknown`.
#[derive(Clone, Copy, Debug, PartialEq, Eq, Structural)]
pub enum Funct3BranchTable {
    BEQ,
    BNE,
    BLT,
    BGE,
    BLTU,
    BGEU,
    Unknown(u8),
}

/// The raw value of a branch funct3 entry.
pub open spec fn funct3_branch_table_value(f: Funct3BranchTable) -> u8 {
    match f {
        Funct3BranchTable::BEQ => 0,
        Funct3BranchTable::BNE => 1,
        Funct3BranchTable::BLT => 4,
        Funct3BranchTable::BGE => 5,
        Funct3BranchTable::BLTU => 6,
        Funct3BranchTable::BGEU => 7,
        Funct3BranchTable::Unknown(v) => v,
    }
}

/// The branch funct3 entry for the raw value `v`.
pub open spec fn funct3_branch_table_from_value(v: u8) -> Funct3BranchTable {
    if v == 0 {
        Funct3BranchTable::BEQ
    } else if v == 1 {
        Funct3BranchTable::BNE
    } else if v == 4 {
        Funct3BranchTable::BLT
    } else if v == 5 {
        Funct3BranchTable::BGE
    } else if v == 6 {
        Funct3BranchTable::BLTU
    } else if v == 7 {
        Funct3BranchTable::BGEU
    } else {
        Funct3BranchTable::Unknown(v)
    }
}

impl Funct3BranchTable {
    pub fn from_value(v: u8) -> (r: Self)
        ensures
            r == funct3_branch_table_from_value(v),
    {
        match v {
            0 => Funct3BranchTable::BEQ,
            1 => Funct3BranchTable::BNE,
            4 => Funct3BranchTable::BLT,
            5 => Funct3BranchTable::BGE,
            6 => Funct3BranchTable::BLTU,
            7 => Funct3BranchTable::BGEU,
            _ => Funct3BranchTable::Unknown(v),
        }
    }

    pub fn value(&self) -> (r: u8)
        ensures
            r == funct3_branch_table_value(*self),
    {
        match self {
            Funct3BranchTable::BEQ => 0,
            Funct3BranchTable::BNE => 1,
            Funct3BranchTable::BLT => 4,
            Funct3BranchTable::BGE => 5,
            Funct3BranchTable::BLTU => 6,
            Funct3BranchTable::BGEU => 7,
            Funct3BranchTable::Unknown(v) => *v,
        }
    }
}

/// The funct3 values of the load family; other values are kept as `Unknown`.
#[derive(Clone, Copy, Debug, PartialEq, Eq, Structural)]
pub enum Funct3LoadTable {
    LB,
    LH,
    LW,
    LBU,
    LHU,
    Unknown(u8),
}

/// The raw value of a load funct3 entry.
pub open spec fn funct3_load_table_value(f: Funct3LoadTable) -> u8 {
    match f {
        Funct3LoadTable::LB => 0,
        Funct3LoadTable::LH => 1,
        Funct3LoadTable::LW => 2,
        Funct3LoadTable::LBU => 4,
        Funct3LoadTable::LHU => 5,
        Funct3LoadTable::Unknown(v) => v,
    }
}

/// The load funct3 entry for the raw value `v`.
pub open spec fn funct3_load_table_from_value(v: u8) -> Funct3LoadTable {
    if v == 0 {
        Funct3LoadTable::LB
    } else if v == 1 {
        Funct3LoadTable::LH
    } else if v == 2 {
        Funct3LoadTable::LW
    } else if v == 4 {
        Funct3LoadTable::LBU
    } else if v == 5 {
        Funct3LoadTable::LHU
    } else {
        Funct3LoadTable::Unknown(v)
    }
}

impl Funct3LoadTable {
    pub fn from_value(v: u8) -> (r: Self)
        ensures
            r == funct3_load_table_from_value(v),
    {
        match v {
            0 => Funct3LoadTable::LB,
            1 => Funct3LoadTable::LH,
            2 => Funct3LoadTable::LW,
            4 => Funct3LoadTable::LBU,
            5 => Funct3LoadTable::LHU,
            _ => Funct3LoadTable::Unknown(v),
        }
    }

    pub fn value(&self) -> (r: u8)
        ensures
            r == funct3_load_table_value(*self),
    {
        match self {
            Funct3LoadTable::LB => 0,
            Funct3LoadTable::LH => 1,
            Funct3LoadTable::LW => 2,
            Funct3LoadTable::LBU => 4,
            Funct3LoadTable::LHU => 5,
            Funct3LoadTable::Unknown(v) => *v,
        }
    }
}

/// The funct3 values of the store family; other values are kept as `Unknown`.
#[derive(Clone, Copy, Debug, PartialEq, Eq, Structural)]
pub enum Funct3StoreTable {
    SB,
    SH,
    SW,
    Unknown(u8),
}

/// The raw value of a store funct3 entry.
pub open spec fn funct3_store_table_value(f: Funct3StoreTable) -> u8 {
    match f {
        Funct3StoreTable::SB => 0,
        Funct3StoreTable::SH => 1,
        Funct3StoreTable::SW => 2,
        Funct3StoreTable::Unknown(v) => v,
    }
}

/// The store funct3 entry for the raw value `v`.
pub open spec fn funct3_store_table_from_value(v: u8) -> Funct3StoreTable {
    if v == 0 {
        Funct3StoreTable::SB
    } else if v == 1 {
        Funct3StoreTable::SH
    } else if v == 2 {
        Funct3StoreTable::SW
    } else {
        Funct3StoreTable::Unknown(v)
    }
}

impl Funct3StoreTable {
    pub fn from_value(v: u8) -> (r: Self)
        ensures
            r == funct3_store_table_from_value(v),
    {
        match v {
            0 => Funct3StoreTable::SB,
            1 => Funct3StoreTable::SH,
            2 => Funct3StoreTable::SW,
            _ => Funct3StoreTable::Unknown(v),
        }
    }

    pub fn value(&self) -> (r: u8)
        ensures
            r == funct3_store_table_value(*self),
    {
        match self {
            Funct3StoreTable::SB => 0,
            Funct3StoreTable::SH => 1,
            Funct3StoreTable::SW => 2,
            Funct3StoreTable::Unknown(v) => *v,
        }
    }
}

/// The funct3 values of the register-register family; other values are kept as `Unknown`.
#[derive(Clone, Copy, Debug, PartialEq, Eq, Structural)]
pub enum Funct3OpRegisterTable {
    ADD,
    SLL,
    SLT,
    SLTU,
    XOR,
    SRA,
    OR,
    AND,
    Unknown(u8),
}

/// The raw value of a register-register funct3 entry.
pub open spec fn funct3_op_register_table_value(f: Funct3OpRegisterTable) -> u8 {
    match f {
        Funct3OpRegisterTable::ADD => 0,
        Funct3OpRegisterTable::SLL => 1,
        Funct3OpRegisterTable::SLT => 2,
        Funct3OpRegisterTable::SLTU => 3,
        Funct3OpRegisterTable::XOR => 4,
        Funct3OpRegisterTable::SRA => 5,
        Funct3OpRegisterTable::OR => 6,
        Funct3OpRegisterTable::AND => 7,
        Funct3OpRegisterTable::Unknown(v) => v,
    }
}

/// The register-register funct3 entry for the raw value `v`.
pub open spec fn funct3_op_register_table_from_value(v: u8) -> Funct3OpRegisterTable {
    if v == 0 {
        Funct3OpRegisterTable::ADD
    } else if v == 1 {
        Funct3OpRegisterTable::SLL
    } else if v == 2 {
        Funct3OpRegisterTable::SLT
    } else if v == 3 {
        Funct3OpRegisterTable::SLTU
    } else if v == 4 {
        Funct3OpRegisterTable::XOR
    } else if v == 5 {
        Funct3OpRegisterTable::SRA
    } else if v == 6 {
        Funct3OpRegisterTable::OR
    } else if v == 7 {
        Funct3OpRegisterTable::AND
    } else {
        Funct3OpRegisterTable::Unknown(v)
    }
}

impl Funct3OpRegisterTable {
    pub fn from_value(v: u8) -> (r: Self)
        ensures
            r == funct3_op_register_table_from_value(v),
    {
        match v {
            0 => Funct3OpRegisterTable::ADD,
            1 => Funct3OpRegisterTable::SLL,
            2 => Funct3OpRegisterTable::SLT,
            3 => Funct3OpRegisterTable::SLTU,
            4 => Funct3OpRegisterTable::XOR,
            5 => Funct3OpRegisterTable::SRA,
            6 => Funct3OpRegisterTable::OR,
            7 => Funct3OpRegisterTable::AND,
            _ => Funct3OpRegisterTable::Unknown(v),
        }
    }

    pub fn value(&self) -> (r: u8)
        ensures
            r == funct3_op_register_table_value(*self),
    {
        match self {
            Funct3OpRegisterTable::ADD => 0,
            Funct3OpRegisterTable::SLL => 1,
            Funct3OpRegisterTable::SLT => 2,
            Funct3OpRegisterTable::SLTU => 3,
            Funct3OpRegisterTable::XOR => 4,
            Funct3OpRegisterTable::SRA => 5,
            Funct3OpRegisterTable::OR => 6,
            Funct3OpRegisterTable::AND => 7,
            Funct3OpRegisterTable::Unknown(v) => *v,
        }
    }
}

/// The funct3 values of the register-immediate family; other values are kept as `Unknown`.
#[derive(Clone, Copy, Debug, PartialEq, Eq, Structural)]
pub enum Funct3OpImmediateTable {
    ADDI,
    SLLI,
    SLTI,
    SLTIU,
    XORI,
    SRAI,
    ORI,
    ANDI,
    Unknown(u8),
}

/// The raw value of a register-immediate funct3 entry.
pub open spec fn funct3_op_immediate_table_value(f: Funct3OpImmediateTable) -> u8 {
    match f {
        Funct3OpImmediateTable::ADDI => 0,
        Funct3OpImmediateTable::SLLI => 1,
        Funct3OpImmediateTable::SLTI => 2,
        Funct3OpImmediateTable::SLTIU => 3,
        Funct3OpImmediateTable::XORI => 4,
        Funct3OpImmediateTable::SRAI => 5,
        Funct3OpImmediateTable::ORI => 6,
        Funct3OpImmediateTable::ANDI => 7,
        Funct3OpImmediateTable::Unknown(v) => v,
    }
}

/// The register-immediate funct3 entry for the raw value `v`.
pub open spec fn funct3_op_immediate_table_from_value(v: u8) -> Funct3OpImmediateTable {
    if v == 0 {
        Funct3OpImmediateTable::ADDI
    } else if v == 1 {
        Funct3OpImmediateTable::SLLI
    } else if v == 2 {
        Funct3OpImmediateTable::SLTI
    } else if v == 3 {
        Funct3OpImmediateTable::SLTIU
    } else if v == 4 {
        Funct3OpImmediateTable::XORI
    } else if v == 5 {
        Funct3OpImmediateTable::SRAI
    } else if v == 6 {
        Funct3OpImmediateTable::ORI
    } else if v == 7 {
        Funct3OpImmediateTable::ANDI
    } else {
        Funct3OpImmediateTable::Unknown(v)
    }
}

impl Funct3OpImmediateTable {
    pub fn from_value(v: u8) -> (r: Self)
        ensures
            r == funct3_op_immediate_table_from_value(v),
    {
        match v {
            0 => Funct3OpImmediateTable::ADDI,
            1 => Funct3OpImmediateTable::SLLI,
            2 => Funct3OpImmediateTable::SLTI,
            3 => Funct3OpImmediateTable::SLTIU,
            4 => Funct3OpImmediateTable::XORI,
            5 => Funct3OpImmediateTable::SRAI,
            6 => Funct3OpImmediateTable::ORI,
            7 => Funct3OpImmediateTable::ANDI,
            _ => Funct3OpImmediateTable::Unknown(v),
        }
    }

    pub fn value(&self) -> (r: u8)
        ensures
            r == funct3_op_immediate_table_value(*self),
    {
        match self {
            Funct3OpImmediateTable::ADDI => 0,
            Funct3OpImmediateTable::SLLI => 1,
            Funct3OpImmediateTable::SLTI => 2,
            Funct3OpImmediateTable::SLTIU => 3,
            Funct3OpImmediateTable::XORI => 4,
            Funct3OpImmediateTable::SRAI => 5,
            Funct3OpImmediateTable::ORI => 6,
            Funct3OpImmediateTable::ANDI => 7,
            Funct3OpImmediateTable::Unknown(v) => *v,
        }
    }
}

/// The funct3 values of the system family; other values are kept as `Unknown`.
#[derive(Clone, Copy, Debug, PartialEq, Eq, Structural)]
pub enum Funct3SystemTable {
    ECALL,
    Unknown(u8),
}

/// The raw value of a system funct3 entry.
pub open spec fn funct3_system_table_value(f: Funct3SystemTable) -> u8 {
    match f {
        Funct3SystemTable::ECALL => 0,
        Funct3SystemTable::Unknown(v) => v,
    }
}

/// The system funct3 entry for the raw value `v`.
pub open spec fn funct3_system_table_from_value(v: u8) -> Funct3SystemTable {
    if v == 0 {
        Funct3SystemTable::ECALL
    } else {
        Funct3SystemTable::Unknown(v)
    }
}

impl Funct3SystemTable {
    pub fn from_value(v: u8) -> (r: Self)
        ensures
            r == funct3_system_table_from_value(v),
    {
        match v {
            0 => Funct3SystemTable::ECALL,
            _ => Funct3SystemTable::Unknown(v),
        }
    }

    pub fn value(&self) -> (r: u8)
        ensures
            r == funct3_system_table_value(*self),
    {
        match self {
            Funct3SystemTable::ECALL => 0,
            Funct3SystemTable::Unknown(v) => *v,
        }
    }
}

/// A funct3 value read within the table of its opcode family.
#[derive(Clone, Copy, Debug, PartialEq, Eq, Structural)]
pub enum Funct3Expr {
    JumpAndLinkRegister(Funct3JALRTable),
    Branch(Funct3BranchTable),
    Load(Funct3LoadTable),
    Store(Funct3StoreTable),
    OpRegister(Funct3OpRegisterTable),
    OpImmediate(Funct3OpImmediateTable),
    System(Funct3SystemTable),
    Unknown(u8),
}

/// The raw funct3 value that an entry stands for.
pub open spec fn funct3_expr_value(f: Funct3Expr) -> u8 {
    match f {
        Funct3Expr::JumpAndLinkRegister(t) => funct3_jalr_table_value(t),
        Funct3Expr::Branch(t) => funct3_branch_table_value(t),
        Funct3Expr::Load(t) => funct3_load_table_value(t),
        Funct3Expr::Store(t) => funct3_store_table_value(t),
        Funct3Expr::OpRegister(t) => funct3_op_register_table_value(t),
        Funct3Expr::OpImmediate(t) => funct3_op_immediate_table_value(t),
        Funct3Expr::System(t) => funct3_system_table_value(t),
        Funct3Expr::Unknown(v) => v,
    }
}

/// The funct3 entry of `funct3` within the family of `opcode`: `Some` exactly
/// for the register-register, load, store, register-immediate, branch and
/// system families, `None` for every other opcode, known or not.
pub open spec fn funct3_expr_from(opcode: u8, funct3: u8) -> Option<Funct3Expr> {
    match opcode_from_value(opcode) {
        Some(Opcode7Table::Branch) => Some(Funct3Expr::Branch(funct3_branch_table_from_value(funct3))),
        Some(Opcode7Table::Load) => Some(Funct3Expr::Load(funct3_load_table_from_value(funct3))),
        Some(Opcode7Table::Store) => Some(Funct3Expr::Store(funct3_store_table_from_value(funct3))),
        Some(Opcode7Table::OpRegister) => Some(
            Funct3Expr::OpRegister(funct3_op_register_table_from_value(funct3)),
        ),
        Some(Opcode7Table::OpImmediate) => Some(
            Funct3Expr::OpImmediate(funct3_op_immediate_table_from_value(funct3)),
        ),
        Some(Opcode7Table::System) => Some(Funct3Expr::System(funct3_system_table_from_value(funct3))),
        _ => None,
    }
}

impl Funct3Expr {
    /// The raw funct3 value of this entry.
    pub fn into(self) -> (r: u8)
        ensures
            r == funct3_expr_value(self),
    {
        match self {
            Funct3Expr::JumpAndLinkRegister(t) => t.value(),
            Funct3Expr::Branch(t) => t.value(),
            Funct3Expr::Load(t) => t.value(),
            Funct3Expr::Store(t) => t.value(),
            Funct3Expr::OpRegister(t) => t.value(),
            Funct3Expr::OpImmediate(t) => t.value(),
            Funct3Expr::System(t) => t.value(),
            Funct3Expr::Unknown(v) => v,
        }
    }

    /// Reads `funct3` in the table of the family of `opcode7`.
    pub fn try_from(opcode7: u8, funct3: u8) -> (r: Option<Funct3Expr>)
        ensures
            r == funct3_expr_from(opcode7, funct3),
    {
        match Opcode7Table::try_from(opcode7) {
            Some(Opcode7Table::Branch) => Some(Funct3Expr::Branch(Funct3BranchTable::from_value(funct3))),
            Some(Opcode7Table::Load) => Some(Funct3Expr::Load(Funct3LoadTable::from_value(funct3))),
            Some(Opcode7Table::Store) => Some(Funct3Expr::Store(Funct3StoreTable::from_value(funct3))),
            Some(Opcode7Table::OpRegister) => Some(
                Funct3Expr::OpRegister(Funct3OpRegisterTable::from_value(funct3)),
            ),
            Some(Opcode7Table::OpImmediate) => Some(
                Funct3Expr::OpImmediate(Funct3OpImmediateTable::from_value(funct3)),
            ),
            Some(Opcode7Table::System) => Some(Funct3Expr::System(Funct3SystemTable::from_value(funct3))),
            _ => None,
        }
    }
}

/// Reading a raw funct3 value in a family's table keeps the value.
pub proof fn lemma_funct3_expr_keeps_value(opcode: u8, funct3: u8)
    ensures
        funct3_expr_from(opcode, funct3) matches Some(f) ==> funct3_expr_value(f) == funct3,
{
}

/// The funct7 values that distinguish register-register operations.
#[derive(Clone, Copy, Debug, PartialEq, Eq, Structural)]
pub enum Funct7Table {
    Logical,
    Arithmetic,
    Unknown(u8),
}

/// The raw value of a funct7 entry.
pub open spec fn funct7_value(f: Funct7Table) -> u8 {
    match f {
        Funct7Table::Logical => 0,
        Funct7Table::Arithmetic => 0x20,
        Funct7Table::Unknown(v) => v,
    }
}

/// The funct7 entry for the raw value `v`.
pub open spec fn funct7_from_value(v: u8) -> Funct7Table {
    if v == 0 {
        Funct7Table::Logical
    } else if v == 0x20 {
        Funct7Table::Arithmetic
    } else {
        Funct7Table::Unknown(v)
    }
}

impl Funct7Table {
    pub fn from_value(v: u8) -> (r: Self)
        ensures
            r == funct7_from_value(v),
    {
        match v {
            0 => Funct7Table::Logical,
            0x20 => Funct7Table::Arithmetic,
            _ => Funct7Table::Unknown(v),
        }
    }

    pub fn value(&self) -> (r: u8)
        ensures
            r == funct7_value(*self),
    {
        match self {
            Funct7Table::Logical => 0,
            Funct7Table::Arithmetic => 0x20,
            Funct7Table::Unknown(v) => *v,
        }
    }
}

/// Values of the upper immediate bits that select an operation; none is
/// named yet, so every value is kept as it is.
#[derive(Clone, Copy, Debug, PartialEq, Eq, Structural)]
pub enum Immediate11Table {
    Unknown(u16),
}

} // verus!
