//! Instruction descriptors: the named, fixed patterns of opcode, funct3 and
//! funct7 that identify each operation, and the identification of a decoded
//! instruction against them.
use vstd::prelude::*;
use crate::architecture::{
    descriptor_key, instruction_key, spec_matches, InstructionKind, RV32Instruction, RV32I,
};
use crate::opcode::{
    Funct3BranchTable, Funct3Expr, Funct3LoadTable, Funct3OpImmediateTable, Funct3OpRegisterTable,
    Funct3StoreTable, Funct3SystemTable, Funct7Table, Immediate11Table, Opcode7Table,
};

verus! {

/// A named instruction pattern: the instruction set it belongs to, its
/// mnemonic and long name, the format it is decoded in, and the opcode,
/// funct3 and funct7 it expects (`None` where it expects nothing).
#[derive(Clone, Copy, Debug)]
pub struct Descriptor {
    pub set: &'static str,
    pub mnemonic: &'static str,
    pub name: &'static str,
    pub format: InstructionKind,
    pub opcode: Option<Opcode7Table>,
    pub funct3: Option<Funct3Expr>,
    pub funct7: Option<Funct7Table>,
    pub imm11: Option<Immediate11Table>,
}

/// The operations that have a descriptor.
#[derive(Clone, Copy, Debug, PartialEq, Eq, Structural)]
pub enum Mnemonic {
    Addi,
    Slti,
    Sltiu,
    Xori,
    Ori,
    Andi,
    Add,
    Sub,
    Sll,
    Slt,
    Sltu,
    Xor,
    Srl,
    Sra,
    Or,
    And,
    Beq,
    Bne,
    Blt,
    Bge,
    Bltu,
    Bgeu,
    Lb,
    Lh,
    Lw,
    Lbu,
    Lhu,
    Sb,
    Sh,
    Sw,
    Jal,
    Fence,
    Ecall,
}

/// The number of declared descriptors.
pub const DESCRIPTOR_COUNT: usize = 33;

/// The descriptor of each operation.
pub open spec fn spec_descriptor(m: Mnemonic) -> Descriptor {
    match m {
        Mnemonic::Addi => Descriptor {
            set: "RV32I",
            mnemonic: "ADDI",
            name: "Add Immediate",
            format: InstructionKind::IntegerRegisterImmediate,
            opcode: Some(Opcode7Table::OpImmediate),
            funct3: Some(Funct3Expr::OpImmediate(Funct3OpImmediateTable::ADDI)),
            funct7: None,
            imm11: None,
        },
        Mnemonic::Slti => Descriptor {
            set: "RV32I",
            mnemonic: "SLTI",
            name: "Set Less Than Immediate",
            format: InstructionKind::IntegerRegisterImmediate,
            opcode: Some(Opcode7Table::OpImmediate),
            funct3: Some(Funct3Expr::OpImmediate(Funct3OpImmediateTable::SLTI)),
            funct7: None,
            imm11: None,
        },
        Mnemonic::Sltiu => Descriptor {
            set: "RV32I",
            mnemonic: "SLTIU",
            name: "Set Less Than Immediate Unsigned",
            format: InstructionKind::IntegerRegisterImmediate,
            opcode: Some(Opcode7Table::OpImmediate),
            funct3: Some(Funct3Expr::OpImmediate(Funct3OpImmediateTable::SLTIU)),
            funct7: None,
            imm11: None,
        },
        Mnemonic::Xori => Descriptor {
            set: "RV32I",
            mnemonic: "XORI",
            name: "XOR Immediate",
            format: InstructionKind::IntegerRegisterImmediate,
            opcode: Some(Opcode7Table::OpImmediate),
            funct3: Some(Funct3Expr::OpImmediate(Funct3OpImmediateTable::XORI)),
            funct7: None,
            imm11: None,
        },
        Mnemonic::Ori => Descriptor {
            set: "RV32I",
            mnemonic: "ORI",
            name: "OR Immediate",
            format: InstructionKind::IntegerRegisterImmediate,
            opcode: Some(Opcode7Table::OpImmediate),
            funct3: Some(Funct3Expr::OpImmediate(Funct3OpImmediateTable::ORI)),
            funct7: None,
            imm11: None,
        },
        Mnemonic::Andi => Descriptor {
            set: "RV32I",
            mnemonic: "ANDI",
            name: "AND Immediate",
            format: InstructionKind::IntegerRegisterImmediate,
            opcode: Some(Opcode7Table::OpImmediate),
            funct3: Some(Funct3Expr::OpImmediate(Funct3OpImmediateTable::ANDI)),
            funct7: None,
            imm11: None,
        },
        Mnemonic::Add => Descriptor {
            set: "RV32I",
            mnemonic: "ADD",
            name: "Add",
            format: InstructionKind::IntegerRegisterRegister,
            opcode: Some(Opcode7Table::OpRegister),
            funct3: Some(Funct3Expr::OpRegister(Funct3OpRegisterTable::ADD)),
            funct7: Some(Funct7Table::Logical),
            imm11: None,
        },
        Mnemonic::Sub => Descriptor {
            set: "RV32I",
            mnemonic: "SUB",
            name: "Subtract",
            format: InstructionKind::IntegerRegisterRegister,
            opcode: Some(Opcode7Table::OpRegister),
            funct3: Some(Funct3Expr::OpRegister(Funct3OpRegisterTable::ADD)),
            funct7: Some(Funct7Table::Arithmetic),
            imm11: None,
        },
        Mnemonic::Sll => Descriptor {
            set: "RV32I",
            mnemonic: "SLL",
            name: "Shift Left Logical",
            format: InstructionKind::IntegerRegisterRegister,
            opcode: Some(Opcode7Table::OpRegister),
            funct3: Some(Funct3Expr::OpRegister(Funct3OpRegisterTable::SLL)),
            funct7: Some(Funct7Table::Logical),
            imm11: None,
        },
        Mnemonic::Slt => Descriptor {
            set: "RV32I",
            mnemonic: "SLT",
            name: "Set Less Than",
            format: InstructionKind::IntegerRegisterRegister,
            opcode: Some(Opcode7Table::OpRegister),
            funct3: Some(Funct3Expr::OpRegister(Funct3OpRegisterTable::SLT)),
            funct7: Some(Funct7Table::Logical),
            imm11: None,
        },
        Mnemonic::Sltu => Descriptor {
            set: "RV32I",
            mnemonic: "SLTU",
            name: "Set Less Than Unsigned",
            format: InstructionKind::IntegerRegisterRegister,
            opcode: Some(Opcode7Table::OpRegister),
            funct3: Some(Funct3Expr::OpRegister(Funct3OpRegisterTable::SLTU)),
            funct7: Some(Funct7Table::Logical),
            imm11: None,
        },
        Mnemonic::Xor => Descriptor {
            set: "RV32I",
            mnemonic: "XOR",
            name: "XOR",
            format: InstructionKind::IntegerRegisterRegister,
            opcode: Some(Opcode7Table::OpRegister),
            funct3: Some(Funct3Expr::OpRegister(Funct3OpRegisterTable::XOR)),
            funct7: Some(Funct7Table::Logical),
            imm11: None,
        },
        Mnemonic::Srl => Descriptor {
            set: "RV32I",
            mnemonic: "SRL",
            name: "Shift Right Logical",
            format: InstructionKind::IntegerRegisterRegister,
            opcode: Some(Opcode7Table::OpRegister),
            funct3: Some(Funct3Expr::OpRegister(Funct3OpRegisterTable::SRA)),
            funct7: Some(Funct7Table::Logical),
            imm11: None,
        },
        Mnemonic::Sra => Descriptor {
            set: "RV32I",
            mnemonic: "SRA",
            name: "Shift Right Arithmetic",
            format: InstructionKind::IntegerRegisterRegister,
            opcode: Some(Opcode7Table::OpRegister),
            funct3: Some(Funct3Expr::OpRegister(Funct3OpRegisterTable::SRA)),
            funct7: Some(Funct7Table::Arithmetic),
            imm11: None,
        },
        Mnemonic::Or => Descriptor {
            set: "RV32I",
            mnemonic: "OR",
            name: "OR",
            format: InstructionKind::IntegerRegisterRegister,
            opcode: Some(Opcode7Table::OpRegister),
            funct3: Some(Funct3Expr::OpRegister(Funct3OpRegisterTable::OR)),
            funct7: Some(Funct7Table::Logical),
            imm11: None,
        },
        Mnemonic::And => Descriptor {
            set: "RV32I",
            mnemonic: "AND",
            name: "AND",
            format: InstructionKind::IntegerRegisterRegister,
            opcode: Some(Opcode7Table::OpRegister),
            funct3: Some(Funct3Expr::OpRegister(Funct3OpRegisterTable::AND)),
            funct7: Some(Funct7Table::Logical),
            imm11: None,
        },
        Mnemonic::Beq => Descriptor {
            set: "RV32I",
            mnemonic: "BEQ",
            name: "Branch Equal",
            format: InstructionKind::ConditionBranch,
            opcode: Some(Opcode7Table::Branch),
            funct3: Some(Funct3Expr::Branch(Funct3BranchTable::BEQ)),
            funct7: None,
            imm11: None,
        },
        Mnemonic::Bne => Descriptor {
            set: "RV32I",
            mnemonic: "BNE",
            name: "Branch Not Equal",
            format: InstructionKind::ConditionBranch,
            opcode: Some(Opcode7Table::Branch),
            funct3: Some(Funct3Expr::Branch(Funct3BranchTable::BNE)),
            funct7: None,
            imm11: None,
        },
        Mnemonic::Blt => Descriptor {
            set: "RV32I",
            mnemonic: "BLT",
            name: "Branch Less Than",
            format: InstructionKind::ConditionBranch,
            opcode: Some(Opcode7Table::Branch),
            funct3: Some(Funct3Expr::Branch(Funct3BranchTable::BLT)),
            funct7: None,
            imm11: None,
        },
        Mnemonic::Bge => Descriptor {
            set: "RV32I",
            mnemonic: "BGE",
            name: "Branch Greater or Equal",
            format: InstructionKind::ConditionBranch,
            opcode: Some(Opcode7Table::Branch),
            funct3: Some(Funct3Expr::Branch(Funct3BranchTable::BGE)),
            funct7: None,
            imm11: None,
        },
        Mnemonic::Bltu => Descriptor {
            set: "RV32I",
            mnemonic: "BLTU",
            name: "Branch Less Than Unsigned",
            format: InstructionKind::ConditionBranch,
            opcode: Some(Opcode7Table::Branch),
            funct3: Some(Funct3Expr::Branch(Funct3BranchTable::BLTU)),
            funct7: None,
            imm11: None,
        },
        Mnemonic::Bgeu => Descriptor {
            set: "RV32I",
            mnemonic: "BGEU",
            name: "Branch Greater or Equal Unsigned",
            format: InstructionKind::ConditionBranch,
            opcode: Some(Opcode7Table::Branch),
            funct3: Some(Funct3Expr::Branch(Funct3BranchTable::BGEU)),
            funct7: None,
            imm11: None,
        },
        Mnemonic::Lb => Descriptor {
            set: "RV32I",
            mnemonic: "LB",
            name: "Load Byte",
            format: InstructionKind::Load,
            opcode: Some(Opcode7Table::Load),
            funct3: Some(Funct3Expr::Load(Funct3LoadTable::LB)),
            funct7: None,
            imm11: None,
        },
        Mnemonic::Lh => Descriptor {
            set: "RV32I",
            mnemonic: "LH",
            name: "Load Half Word",
            format: InstructionKind::Load,
            opcode: Some(Opcode7Table::Load),
            funct3: Some(Funct3Expr::Load(Funct3LoadTable::LH)),
            funct7: None,
            imm11: None,
        },
        Mnemonic::Lw => Descriptor {
            set: "RV32I",
            mnemonic: "LW",
            name: "Load Word",
            format: InstructionKind::Load,
            opcode: Some(Opcode7Table::Load),
            funct3: Some(Funct3Expr::Load(Funct3LoadTable::LW)),
            funct7: None,
            imm11: None,
        },
        Mnemonic::Lbu => Descriptor {
            set: "RV32I",
            mnemonic: "LBU",
            name: "Load Byte Unsigned",
            format: InstructionKind::Load,
            opcode: Some(Opcode7Table::Load),
            funct3: Some(Funct3Expr::Load(Funct3LoadTable::LBU)),
            funct7: None,
            imm11: None,
        },
        Mnemonic::Lhu => Descriptor {
            set: "RV32I",
            mnemonic: "LHU",
            name: "Load Half Word Unsigned",
            format: InstructionKind::Load,
            opcode: Some(Opcode7Table::Load),
            funct3: Some(Funct3Expr::Load(Funct3LoadTable::LHU)),
            funct7: None,
            imm11: None,
        },
        Mnemonic::Sb => Descriptor {
            set: "RV32I",
            mnemonic: "SB",
            name: "Store Byte",
            format: InstructionKind::Store,
            opcode: Some(Opcode7Table::Store),
            funct3: Some(Funct3Expr::Store(Funct3StoreTable::SB)),
            funct7: None,
            imm11: None,
        },
        Mnemonic::Sh => Descriptor {
            set: "RV32I",
            mnemonic: "SH",
            name: "Store Half Word",
            format: InstructionKind::Store,
            opcode: Some(Opcode7Table::Store),
            funct3: Some(Funct3Expr::Store(Funct3StoreTable::SH)),
            funct7: None,
            imm11: None,
        },
        Mnemonic::Sw => Descriptor {
            set: "RV32I",
            mnemonic: "SW",
            name: "Store Word",
            format: InstructionKind::Store,
            opcode: Some(Opcode7Table::Store),
            funct3: Some(Funct3Expr::Store(Funct3StoreTable::SW)),
            funct7: None,
            imm11: None,
        },
        Mnemonic::Jal => Descriptor {
            set: "RV32I",
            mnemonic: "JAL",
            name: "Jump And Link",
            format: InstructionKind::UnconditionalJump,
            opcode: Some(Opcode7Table::JumpAndLink),
            funct3: None,
            funct7: None,
            imm11: None,
        },
        Mnemonic::Fence => Descriptor {
            set: "RV32I",
            mnemonic: "FENCE",
            name: "Fence",
            format: InstructionKind::Fence,
            opcode: Some(Opcode7Table::MiscMemory),
            funct3: None,
            funct7: None,
            imm11: None,
        },
        Mnemonic::Ecall => Descriptor {
            set: "RV32I",
            mnemonic: "ECALL",
            name: "Environment Call",
            format: InstructionKind::EnvironmentCallAndBreakpoint,
            opcode: Some(Opcode7Table::System),
            funct3: Some(Funct3Expr::System(Funct3SystemTable::ECALL)),
            funct7: Some(Funct7Table::Logical),
            imm11: None,
        },
    }
}

/// The operation at position `i` of the descriptor table.
pub open spec fn spec_mnemonic_at(i: int) -> Mnemonic
    recommends
        0 <= i < DESCRIPTOR_COUNT,
{
    if i == 0 {
        Mnemonic::Addi
    } else if i == 1 {
        Mnemonic::Slti
    } else if i == 2 {
        Mnemonic::Sltiu
    } else if i == 3 {
        Mnemonic::Xori
    } else if i == 4 {
        Mnemonic::Ori
    } else if i == 5 {
        Mnemonic::Andi
    } else if i == 6 {
        Mnemonic::Add
    } else if i == 7 {
        Mnemonic::Sub
    } else if i == 8 {
        Mnemonic::Sll
    } else if i == 9 {
        Mnemonic::Slt
    } else if i == 10 {
        Mnemonic::Sltu
    } else if i == 11 {
        Mnemonic::Xor
    } else if i == 12 {
        Mnemonic::Srl
    } else if i == 13 {
        Mnemonic::Sra
    } else if i == 14 {
        Mnemonic::Or
    } else if i == 15 {
        Mnemonic::And
    } else if i == 16 {
        Mnemonic::Beq
    } else if i == 17 {
        Mnemonic::Bne
    } else if i == 18 {
        Mnemonic::Blt
    } else if i == 19 {
        Mnemonic::Bge
    } else if i == 20 {
        Mnemonic::Bltu
    } else if i == 21 {
        Mnemonic::Bgeu
    } else if i == 22 {
        Mnemonic::Lb
    } else if i == 23 {
        Mnemonic::Lh
    } else if i == 24 {
        Mnemonic::Lw
    } else if i == 25 {
        Mnemonic::Lbu
    } else if i == 26 {
        Mnemonic::Lhu
    } else if i == 27 {
        Mnemonic::Sb
    } else if i == 28 {
        Mnemonic::Sh
    } else if i == 29 {
        Mnemonic::Sw
    } else if i == 30 {
        Mnemonic::Jal
    } else if i == 31 {
        Mnemonic::Fence
    } else {
        Mnemonic::Ecall
    }
}

/// The position of an operation in the descriptor table.
pub open spec fn spec_mnemonic_index(m: Mnemonic) -> int {
    match m {
        Mnemonic::Addi => 0,
        Mnemonic::Slti => 1,
        Mnemonic::Sltiu => 2,
        Mnemonic::Xori => 3,
        Mnemonic::Ori => 4,
        Mnemonic::Andi => 5,
        Mnemonic::Add => 6,
        Mnemonic::Sub => 7,
        Mnemonic::Sll => 8,
        Mnemonic::Slt => 9,
        Mnemonic::Sltu => 10,
        Mnemonic::Xor => 11,
        Mnemonic::Srl => 12,
        Mnemonic::Sra => 13,
        Mnemonic::Or => 14,
        Mnemonic::And => 15,
        Mnemonic::Beq => 16,
        Mnemonic::Bne => 17,
        Mnemonic::Blt => 18,
        Mnemonic::Bge => 19,
        Mnemonic::Bltu => 20,
        Mnemonic::Bgeu => 21,
        Mnemonic::Lb => 22,
        Mnemonic::Lh => 23,
        Mnemonic::Lw => 24,
        Mnemonic::Lbu => 25,
        Mnemonic::Lhu => 26,
        Mnemonic::Sb => 27,
        Mnemonic::Sh => 28,
        Mnemonic::Sw => 29,
        Mnemonic::Jal => 30,
        Mnemonic::Fence => 31,
        Mnemonic::Ecall => 32,
    }
}

/// A number for each descriptor pattern, equal for equal patterns.
spec fn key_code(
    k: (InstructionKind, Option<Opcode7Table>, Option<Funct3Expr>, Option<Funct7Table>),
) -> int {
    let format: int = match k.0 {
        InstructionKind::IntegerRegisterImmediate => 0,
        InstructionKind::IntegerRegisterRegister => 1,
        InstructionKind::UnconditionalJump => 2,
        InstructionKind::ConditionBranch => 3,
        InstructionKind::Load => 4,
        InstructionKind::Store => 5,
        InstructionKind::Fence => 6,
        InstructionKind::ControlAndStatusRegister => 7,
        InstructionKind::TimeAndCounter => 8,
        InstructionKind::EnvironmentCallAndBreakpoint => 9,
    };
    let opcode: int = match k.1 {
        Some(op) => 1 + crate::opcode::opcode_value(op),
        None => 0,
    };
    let funct3: int = match k.2 {
        Some(f) => 1 + crate::opcode::funct3_expr_value(f),
        None => 0,
    };
    let funct7: int = match k.3 {
        Some(f) => 1 + crate::opcode::funct7_value(f),
        None => 0,
    };
    ((format * 256 + opcode) * 512 + funct3) * 512 + funct7
}

/// The operation whose descriptor pattern has the number `c`: the numbers
/// are [`key_code`] of each declared descriptor, in table order.
spec fn mnemonic_of_code(c: int) -> Option<Mnemonic> {
    if c == 5243392 {
        Some(Mnemonic::Addi)
    } else if c == 5244416 {
        Some(Mnemonic::Slti)
    } else if c == 5244928 {
        Some(Mnemonic::Sltiu)
    } else if c == 5245440 {
        Some(Mnemonic::Xori)
    } else if c == 5246464 {
        Some(Mnemonic::Ori)
    } else if c == 5246976 {
        Some(Mnemonic::Andi)
    } else if c == 80740865 {
        Some(Mnemonic::Add)
    } else if c == 80740897 {
        Some(Mnemonic::Sub)
    } else if c == 80741377 {
        Some(Mnemonic::Sll)
    } else if c == 80741889 {
        Some(Mnemonic::Slt)
    } else if c == 80742401 {
        Some(Mnemonic::Sltu)
    } else if c == 80742913 {
        Some(Mnemonic::Xor)
    } else if c == 80743425 {
        Some(Mnemonic::Srl)
    } else if c == 80743457 {
        Some(Mnemonic::Sra)
    } else if c == 80743937 {
        Some(Mnemonic::Or)
    } else if c == 80744449 {
        Some(Mnemonic::And)
    } else if c == 227541504 {
        Some(Mnemonic::Beq)
    } else if c == 227542016 {
        Some(Mnemonic::Bne)
    } else if c == 227543552 {
        Some(Mnemonic::Blt)
    } else if c == 227544064 {
        Some(Mnemonic::Bge)
    } else if c == 227544576 {
        Some(Mnemonic::Bltu)
    } else if c == 227545088 {
        Some(Mnemonic::Bgeu)
    } else if c == 269484544 {
        Some(Mnemonic::Lb)
    } else if c == 269485056 {
        Some(Mnemonic::Lh)
    } else if c == 269485568 {
        Some(Mnemonic::Lw)
    } else if c == 269486592 {
        Some(Mnemonic::Lbu)
    } else if c == 269487104 {
        Some(Mnemonic::Lhu)
    } else if c == 344982016 {
        Some(Mnemonic::Sb)
    } else if c == 344982528 {
        Some(Mnemonic::Sh)
    } else if c == 344983040 {
        Some(Mnemonic::Sw)
    } else if c == 163577856 {
        Some(Mnemonic::Jal)
    } else if c == 406847488 {
        Some(Mnemonic::Fence)
    } else if c == 634388993 {
        Some(Mnemonic::Ecall)
    } else {
        None
    }
}

proof fn lemma_code_identifies(m: Mnemonic)
    ensures
        mnemonic_of_code(key_code(descriptor_key(spec_descriptor(m)))) == Some(m),
{
}

/// No two declared descriptors share the same pattern of format, opcode,
/// funct3 and funct7.
pub proof fn lemma_descriptors_disjoint(m1: Mnemonic, m2: Mnemonic)
    ensures
        descriptor_key(spec_descriptor(m1)) == descriptor_key(spec_descriptor(m2)) ==> m1 == m2,
{
    lemma_code_identifies(m1);
    lemma_code_identifies(m2);
}

/// The table lists every operation once, at its own position.
pub proof fn lemma_table_lists_every_mnemonic(m: Mnemonic)
    ensures
        0 <= spec_mnemonic_index(m) < DESCRIPTOR_COUNT,
        spec_mnemonic_at(spec_mnemonic_index(m)) == m,
{
}

/// The operation that an instruction denotes: the one whose descriptor
/// matches it, if there is one.
pub open spec fn spec_identify(inst: RV32Instruction) -> Option<Mnemonic> {
    if exists|m: Mnemonic| spec_matches(inst, #[trigger] spec_descriptor(m)) {
        Some(choose|m: Mnemonic| spec_matches(inst, #[trigger] spec_descriptor(m)))
    } else {
        None
    }
}

/// At most one descriptor matches any instruction.
pub proof fn lemma_at_most_one_match(inst: RV32Instruction, m1: Mnemonic, m2: Mnemonic)
    requires
        spec_matches(inst, spec_descriptor(m1)),
        spec_matches(inst, spec_descriptor(m2)),
    ensures
        m1 == m2,
{
    lemma_descriptors_disjoint(m1, m2);
}

/// An instruction that matches the descriptor of `m` is identified as `m`.
pub proof fn lemma_identify_matching(inst: RV32Instruction, m: Mnemonic)
    requires
        spec_matches(inst, spec_descriptor(m)),
    ensures
        spec_identify(inst) == Some(m),
{
    let c = choose|m2: Mnemonic| spec_matches(inst, #[trigger] spec_descriptor(m2));
    lemma_at_most_one_match(inst, m, c);
}

impl Mnemonic {
    /// The descriptor of this operation.
    pub fn descriptor(&self) -> (r: Descriptor)
        ensures
            r == spec_descriptor(*self),
    {
        match self {
            Mnemonic::Addi => Descriptor {
                set: "RV32I",
                mnemonic: "ADDI",
                name: "Add Immediate",
                format: InstructionKind::IntegerRegisterImmediate,
                opcode: Some(Opcode7Table::OpImmediate),
                funct3: Some(Funct3Expr::OpImmediate(Funct3OpImmediateTable::ADDI)),
                funct7: None,
                imm11: None,
        },
            Mnemonic::Slti => Descriptor {
                set: "RV32I",
                mnemonic: "SLTI",
                name: "Set Less Than Immediate",
                format: InstructionKind::IntegerRegisterImmediate,
                opcode: Some(Opcode7Table::OpImmediate),
                funct3: Some(Funct3Expr::OpImmediate(Funct3OpImmediateTable::SLTI)),
                funct7: None,
                imm11: None,
        },
            Mnemonic::Sltiu => Descriptor {
                set: "RV32I",
                mnemonic: "SLTIU",
                name: "Set Less Than Immediate Unsigned",
                format: InstructionKind::IntegerRegisterImmediate,
                opcode: Some(Opcode7Table::OpImmediate),
                funct3: Some(Funct3Expr::OpImmediate(Funct3OpImmediateTable::SLTIU)),
                funct7: None,
                imm11: None,
        },
            Mnemonic::Xori => Descriptor {
                set: "RV32I",
                mnemonic: "XORI",
                name: "XOR Immediate",
                format: InstructionKind::IntegerRegisterImmediate,
                opcode: Some(Opcode7Table::OpImmediate),
                funct3: Some(Funct3Expr::OpImmediate(Funct3OpImmediateTable::XORI)),
                funct7: None,
                imm11: None,
        },
            Mnemonic::Ori => Descriptor {
                set: "RV32I",
                mnemonic: "ORI",
                name: "OR Immediate",
                format: InstructionKind::IntegerRegisterImmediate,
                opcode: Some(Opcode7Table::OpImmediate),
                funct3: Some(Funct3Expr::OpImmediate(Funct3OpImmediateTable::ORI)),
                funct7: None,
                imm11: None,
        },
            Mnemonic::Andi => Descriptor {
                set: "RV32I",
                mnemonic: "ANDI",
                name: "AND Immediate",
                format: InstructionKind::IntegerRegisterImmediate,
                opcode: Some(Opcode7Table::OpImmediate),
                funct3: Some(Funct3Expr::OpImmediate(Funct3OpImmediateTable::ANDI)),
                funct7: None,
                imm11: None,
        },
            Mnemonic::Add => Descriptor {
                set: "RV32I",
                mnemonic: "ADD",
                name: "Add",
                format: InstructionKind::IntegerRegisterRegister,
                opcode: Some(Opcode7Table::OpRegister),
                funct3: Some(Funct3Expr::OpRegister(Funct3OpRegisterTable::ADD)),
                funct7: Some(Funct7Table::Logical),
                imm11: None,
        },
            Mnemonic::Sub => Descriptor {
                set: "RV32I",
                mnemonic: "SUB",
                name: "Subtract",
                format: InstructionKind::IntegerRegisterRegister,
                opcode: Some(Opcode7Table::OpRegister),
                funct3: Some(Funct3Expr::OpRegister(Funct3OpRegisterTable::ADD)),
                funct7: Some(Funct7Table::Arithmetic),
                imm11: None,
        },
            Mnemonic::Sll => Descriptor {
                set: "RV32I",
                mnemonic: "SLL",
                name: "Shift Left Logical",
                format: InstructionKind::IntegerRegisterRegister,
                opcode: Some(Opcode7Table::OpRegister),
                funct3: Some(Funct3Expr::OpRegister(Funct3OpRegisterTable::SLL)),
                funct7: Some(Funct7Table::Logical),
                imm11: None,
        },
            Mnemonic::Slt => Descriptor {
                set: "RV32I",
                mnemonic: "SLT",
                name: "Set Less Than",
                format: InstructionKind::IntegerRegisterRegister,
                opcode: Some(Opcode7Table::OpRegister),
                funct3: Some(Funct3Expr::OpRegister(Funct3OpRegisterTable::SLT)),
                funct7: Some(Funct7Table::Logical),
                imm11: None,
        },
            Mnemonic::Sltu => Descriptor {
                set: "RV32I",
                mnemonic: "SLTU",
                name: "Set Less Than Unsigned",
                format: InstructionKind::IntegerRegisterRegister,
                opcode: Some(Opcode7Table::OpRegister),
                funct3: Some(Funct3Expr::OpRegister(Funct3OpRegisterTable::SLTU)),
                funct7: Some(Funct7Table::Logical),
                imm11: None,
        },
            Mnemonic::Xor => Descriptor {
                set: "RV32I",
                mnemonic: "XOR",
                name: "XOR",
                format: InstructionKind::IntegerRegisterRegister,
                opcode: Some(Opcode7Table::OpRegister),
                funct3: Some(Funct3Expr::OpRegister(Funct3OpRegisterTable::XOR)),
                funct7: Some(Funct7Table::Logical),
                imm11: None,
        },
            Mnemonic::Srl => Descriptor {
                set: "RV32I",
                mnemonic: "SRL",
                name: "Shift Right Logical",
                format: InstructionKind::IntegerRegisterRegister,
                opcode: Some(Opcode7Table::OpRegister),
                funct3: Some(Funct3Expr::OpRegister(Funct3OpRegisterTable::SRA)),
                funct7: Some(Funct7Table::Logical),
                imm11: None,
        },
            Mnemonic::Sra => Descriptor {
                set: "RV32I",
                mnemonic: "SRA",
                name: "Shift Right Arithmetic",
                format: InstructionKind::IntegerRegisterRegister,
                opcode: Some(Opcode7Table::OpRegister),
                funct3: Some(Funct3Expr::OpRegister(Funct3OpRegisterTable::SRA)),
                funct7: Some(Funct7Table::Arithmetic),
                imm11: None,
        },
            Mnemonic::Or => Descriptor {
                set: "RV32I",
                mnemonic: "OR",
                name: "OR",
                format: InstructionKind::IntegerRegisterRegister,
                opcode: Some(Opcode7Table::OpRegister),
                funct3: Some(Funct3Expr::OpRegister(Funct3OpRegisterTable::OR)),
                funct7: Some(Funct7Table::Logical),
                imm11: None,
        },
            Mnemonic::And => Descriptor {
                set: "RV32I",
                mnemonic: "AND",
                name: "AND",
                format: InstructionKind::IntegerRegisterRegister,
                opcode: Some(Opcode7Table::OpRegister),
                funct3: Some(Funct3Expr::OpRegister(Funct3OpRegisterTable::AND)),
                funct7: Some(Funct7Table::Logical),
                imm11: None,
        },
            Mnemonic::Beq => Descriptor {
                set: "RV32I",
                mnemonic: "BEQ",
                name: "Branch Equal",
                format: InstructionKind::ConditionBranch,
                opcode: Some(Opcode7Table::Branch),
                funct3: Some(Funct3Expr::Branch(Funct3BranchTable::BEQ)),
                funct7: None,
                imm11: None,
        },
            Mnemonic::Bne => Descriptor {
                set: "RV32I",
                mnemonic: "BNE",
                name: "Branch Not Equal",
                format: InstructionKind::ConditionBranch,
                opcode: Some(Opcode7Table::Branch),
                funct3: Some(Funct3Expr::Branch(Funct3BranchTable::BNE)),
                funct7: None,
                imm11: None,
        },
            Mnemonic::Blt => Descriptor {
                set: "RV32I",
                mnemonic: "BLT",
                name: "Branch Less Than",
                format: InstructionKind::ConditionBranch,
                opcode: Some(Opcode7Table::Branch),
                funct3: Some(Funct3Expr::Branch(Funct3BranchTable::BLT)),
                funct7: None,
                imm11: None,
        },
            Mnemonic::Bge => Descriptor {
                set: "RV32I",
                mnemonic: "BGE",
                name: "Branch Greater or Equal",
                format: InstructionKind::ConditionBranch,
                opcode: Some(Opcode7Table::Branch),
                funct3: Some(Funct3Expr::Branch(Funct3BranchTable::BGE)),
                funct7: None,
                imm11: None,
        },
            Mnemonic::Bltu => Descriptor {
                set: "RV32I",
                mnemonic: "BLTU",
                name: "Branch Less Than Unsigned",
                format: InstructionKind::ConditionBranch,
                opcode: Some(Opcode7Table::Branch),
                funct3: Some(Funct3Expr::Branch(Funct3BranchTable::BLTU)),
                funct7: None,
                imm11: None,
        },
            Mnemonic::Bgeu => Descriptor {
                set: "RV32I",
                mnemonic: "BGEU",
                name: "Branch Greater or Equal Unsigned",
                format: InstructionKind::ConditionBranch,
                opcode: Some(Opcode7Table::Branch),
                funct3: Some(Funct3Expr::Branch(Funct3BranchTable::BGEU)),
                funct7: None,
                imm11: None,
        },
            Mnemonic::Lb => Descriptor {
                set: "RV32I",
                mnemonic: "LB",
                name: "Load Byte",
                format: InstructionKind::Load,
                opcode: Some(Opcode7Table::Load),
                funct3: Some(Funct3Expr::Load(Funct3LoadTable::LB)),
                funct7: None,
                imm11: None,
        },
            Mnemonic::Lh => Descriptor {
                set: "RV32I",
                mnemonic: "LH",
                name: "Load Half Word",
                format: InstructionKind::Load,
                opcode: Some(Opcode7Table::Load),
                funct3: Some(Funct3Expr::Load(Funct3LoadTable::LH)),
                funct7: None,
                imm11: None,
        },
            Mnemonic::Lw => Descriptor {
                set: "RV32I",
                mnemonic: "LW",
                name: "Load Word",
                format: InstructionKind::Load,
                opcode: Some(Opcode7Table::Load),
                funct3: Some(Funct3Expr::Load(Funct3LoadTable::LW)),
                funct7: None,
                imm11: None,
        },
            Mnemonic::Lbu => Descriptor {
                set: "RV32I",
                mnemonic: "LBU",
                name: "Load Byte Unsigned",
                format: InstructionKind::Load,
                opcode: Some(Opcode7Table::Load),
                funct3: Some(Funct3Expr::Load(Funct3LoadTable::LBU)),
                funct7: None,
                imm11: None,
        },
            Mnemonic::Lhu => Descriptor {
                set: "RV32I",
                mnemonic: "LHU",
                name: "Load Half Word Unsigned",
                format: InstructionKind::Load,
                opcode: Some(Opcode7Table::Load),
                funct3: Some(Funct3Expr::Load(Funct3LoadTable::LHU)),
                funct7: None,
                imm11: None,
        },
            Mnemonic::Sb => Descriptor {
                set: "RV32I",
                mnemonic: "SB",
                name: "Store Byte",
                format: InstructionKind::Store,
                opcode: Some(Opcode7Table::Store),
                funct3: Some(Funct3Expr::Store(Funct3StoreTable::SB)),
                funct7: None,
                imm11: None,
        },
            Mnemonic::Sh => Descriptor {
                set: "RV32I",
                mnemonic: "SH",
                name: "Store Half Word",
                format: InstructionKind::Store,
                opcode: Some(Opcode7Table::Store),
                funct3: Some(Funct3Expr::Store(Funct3StoreTable::SH)),
                funct7: None,
                imm11: None,
        },
            Mnemonic::Sw => Descriptor {
                set: "RV32I",
                mnemonic: "SW",
                name: "Store Word",
                format: InstructionKind::Store,
                opcode: Some(Opcode7Table::Store),
                funct3: Some(Funct3Expr::Store(Funct3StoreTable::SW)),
                funct7: None,
                imm11: None,
        },
            Mnemonic::Jal => Descriptor {
                set: "RV32I",
                mnemonic: "JAL",
                name: "Jump And Link",
                format: InstructionKind::UnconditionalJump,
                opcode: Some(Opcode7Table::JumpAndLink),
                funct3: None,
                funct7: None,
                imm11: None,
        },
            Mnemonic::Fence => Descriptor {
                set: "RV32I",
                mnemonic: "FENCE",
                name: "Fence",
                format: InstructionKind::Fence,
                opcode: Some(Opcode7Table::MiscMemory),
                funct3: None,
                funct7: None,
                imm11: None,
        },
            Mnemonic::Ecall => Descriptor {
                set: "RV32I",
                mnemonic: "ECALL",
                name: "Environment Call",
                format: InstructionKind::EnvironmentCallAndBreakpoint,
                opcode: Some(Opcode7Table::System),
                funct3: Some(Funct3Expr::System(Funct3SystemTable::ECALL)),
                funct7: Some(Funct7Table::Logical),
                imm11: None,
        },
        }
    }

    /// The operation at position `i` of the descriptor table.
    pub fn at(i: usize) -> (r: Mnemonic)
        requires
            i < DESCRIPTOR_COUNT,
        ensures
            r == spec_mnemonic_at(i as int),
    {
        if i == 0 {
            Mnemonic::Addi
        } else if i == 1 {
            Mnemonic::Slti
        } else if i == 2 {
            Mnemonic::Sltiu
        } else if i == 3 {
            Mnemonic::Xori
        } else if i == 4 {
            Mnemonic::Ori
        } else if i == 5 {
            Mnemonic::Andi
        } else if i == 6 {
            Mnemonic::Add
        } else if i == 7 {
            Mnemonic::Sub
        } else if i == 8 {
            Mnemonic::Sll
        } else if i == 9 {
            Mnemonic::Slt
        } else if i == 10 {
            Mnemonic::Sltu
        } else if i == 11 {
            Mnemonic::Xor
        } else if i == 12 {
            Mnemonic::Srl
        } else if i == 13 {
            Mnemonic::Sra
        } else if i == 14 {
            Mnemonic::Or
        } else if i == 15 {
            Mnemonic::And
        } else if i == 16 {
            Mnemonic::Beq
        } else if i == 17 {
            Mnemonic::Bne
        } else if i == 18 {
            Mnemonic::Blt
        } else if i == 19 {
            Mnemonic::Bge
        } else if i == 20 {
            Mnemonic::Bltu
        } else if i == 21 {
            Mnemonic::Bgeu
        } else if i == 22 {
            Mnemonic::Lb
        } else if i == 23 {
            Mnemonic::Lh
        } else if i == 24 {
            Mnemonic::Lw
        } else if i == 25 {
            Mnemonic::Lbu
        } else if i == 26 {
            Mnemonic::Lhu
        } else if i == 27 {
            Mnemonic::Sb
        } else if i == 28 {
            Mnemonic::Sh
        } else if i == 29 {
            Mnemonic::Sw
        } else if i == 30 {
            Mnemonic::Jal
        } else if i == 31 {
            Mnemonic::Fence
        } else {
            Mnemonic::Ecall
        }
    }
}

/// Identifies a decoded instruction: walks the descriptor table and returns
/// the operation of the first descriptor that matches, which is the only one.
pub fn identify(instruction: &RV32Instruction) -> (r: Option<Mnemonic>)
    ensures
        r == spec_identify(*instruction),
{
    let mut i: usize = 0;
    while i < DESCRIPTOR_COUNT
        invariant
            i <= DESCRIPTOR_COUNT,
            forall|j: int|
                0 <= j < i ==> !spec_matches(*instruction, #[trigger] spec_descriptor(spec_mnemonic_at(j))),
        decreases DESCRIPTOR_COUNT - i,
    {
        let m = Mnemonic::at(i);
        let d = m.descriptor();
        if RV32I.match_instruction(instruction, &d) {
            proof {
                assert forall|m2: Mnemonic| spec_matches(*instruction, #[trigger] spec_descriptor(m2)) implies m2 == m by {
                    lemma_at_most_one_match(*instruction, m, m2);
                }
            }
            return Some(m);
        }
        i = i + 1;
    }
    proof {
        assert forall|m2: Mnemonic| !spec_matches(*instruction, #[trigger] spec_descriptor(m2)) by {
            lemma_table_lists_every_mnemonic(m2);
            let j = spec_mnemonic_index(m2);
            assert(!spec_matches(*instruction, spec_descriptor(spec_mnemonic_at(j))));
        }
    }
    None
}

} // verus!
