//! Instruction formats of RV32I and the decoder: a raw word is classified by
//! its primary opcode and wrapped in the field layout of its format.
use vstd::prelude::*;
use crate::bitfield::{
    b_imm_bits, funct3_bits, funct7_bits, i_imm_bits, j_imm_bits, opcode_bits, s_imm_bits,
    sign_extend, BType32Bitfield, IFenceType32Bitfield,
    IType32Bitfield, JType32Bitfield, RType32Bitfield, SType32Bitfield,
};
use crate::instruction::Descriptor;
use crate::opcode::{
    funct3_expr_from, funct7_from_value, opcode_from_value, Funct3Expr, Funct7Table, Opcode7Table,
};

verus! {

/// Marker for the decoded instruction types of an instruction set.
pub trait Instruction {

}

/// Marker for an instruction set.
pub trait InstructionSet {

}

/// The 32-bit base integer instruction set.
#[derive(Clone, Copy, Debug, PartialEq, Eq, Structural)]
pub struct RV32I;

impl InstructionSet for RV32I {

}

/// The 64-bit base integer instruction set.
#[derive(Clone, Copy, Debug, PartialEq, Eq, Structural)]
pub struct RV64I;

impl InstructionSet for RV64I {

}

impl RV64I {
    pub fn name(&self) -> (r: &'static str)
        ensures
            r@ == "RV64I"@,
    {
        "RV64I"
    }
}

/// A decoded instruction: the variant names the format, and its payload is
/// the word read under that format's field layout.
#[derive(Debug, PartialEq, Eq)]
pub enum Format<I, R, J, B, S, F> {
    IntegerRegisterImmediate(I),
    IntegerRegisterRegister(R),
    UnconditionalJump(J),
    ConditionBranch(B),
    Load(I),
    Store(S),
    Fence(F),
    ControlAndStatusRegister(I),
    TimeAndCounter(I),
    EnvironmentCallAndBreakpoint(R),
}

/// The variant of a [`Format`] without its payload.
#[derive(Clone, Copy, Debug, PartialEq, Eq, Structural)]
pub enum InstructionKind {
    IntegerRegisterImmediate,
    IntegerRegisterRegister,
    UnconditionalJump,
    ConditionBranch,
    Load,
    Store,
    Fence,
    ControlAndStatusRegister,
    TimeAndCounter,
    EnvironmentCallAndBreakpoint,
}

/// An RV32I instruction in its format.
pub type RV32Instruction = Format<
    IType32Bitfield,
    RType32Bitfield,
    JType32Bitfield,
    BType32Bitfield,
    SType32Bitfield,
    IFenceType32Bitfield,
>;

impl Instruction for RV32Instruction {

}

/// The variant of an instruction.
pub open spec fn kind_of(inst: RV32Instruction) -> InstructionKind {
    match inst {
        Format::IntegerRegisterImmediate(_) => InstructionKind::IntegerRegisterImmediate,
        Format::IntegerRegisterRegister(_) => InstructionKind::IntegerRegisterRegister,
        Format::UnconditionalJump(_) => InstructionKind::UnconditionalJump,
        Format::ConditionBranch(_) => InstructionKind::ConditionBranch,
        Format::Load(_) => InstructionKind::Load,
        Format::Store(_) => InstructionKind::Store,
        Format::Fence(_) => InstructionKind::Fence,
        Format::ControlAndStatusRegister(_) => InstructionKind::ControlAndStatusRegister,
        Format::TimeAndCounter(_) => InstructionKind::TimeAndCounter,
        Format::EnvironmentCallAndBreakpoint(_) => InstructionKind::EnvironmentCallAndBreakpoint,
    }
}

/// The raw word inside an instruction.
pub open spec fn raw_of(inst: RV32Instruction) -> u32 {
    match inst {
        Format::IntegerRegisterImmediate(b) => b.raw,
        Format::IntegerRegisterRegister(b) => b.raw,
        Format::UnconditionalJump(b) => b.raw,
        Format::ConditionBranch(b) => b.raw,
        Format::Load(b) => b.raw,
        Format::Store(b) => b.raw,
        Format::Fence(b) => b.raw,
        Format::ControlAndStatusRegister(b) => b.raw,
        Format::TimeAndCounter(b) => b.raw,
        Format::EnvironmentCallAndBreakpoint(b) => b.raw,
    }
}

/// The format chosen for a primary opcode value, if it denotes an RV32I
/// family that has a format here: register-immediate, register-register,
/// jump-and-link, branch, load, store, fence, and the system family as
/// environment call and breakpoint. Every other value, known or not, has
/// none.
pub open spec fn kind_for_opcode(opcode: u32) -> Option<InstructionKind> {
    if opcode == 0x13 {
        Some(InstructionKind::IntegerRegisterImmediate)
    } else if opcode == 0x33 {
        Some(InstructionKind::IntegerRegisterRegister)
    } else if opcode == 0x6f {
        Some(InstructionKind::UnconditionalJump)
    } else if opcode == 0x63 {
        Some(InstructionKind::ConditionBranch)
    } else if opcode == 0x03 {
        Some(InstructionKind::Load)
    } else if opcode == 0x23 {
        Some(InstructionKind::Store)
    } else if opcode == 0x0f {
        Some(InstructionKind::Fence)
    } else if opcode == 0x73 {
        Some(InstructionKind::EnvironmentCallAndBreakpoint)
    } else {
        None
    }
}

/// The word `w` wrapped in the layout of the format `k`.
pub open spec fn wrap_as(k: InstructionKind, w: u32) -> RV32Instruction {
    match k {
        InstructionKind::IntegerRegisterImmediate => Format::IntegerRegisterImmediate(
            IType32Bitfield { raw: w },
        ),
        InstructionKind::IntegerRegisterRegister => Format::IntegerRegisterRegister(
            RType32Bitfield { raw: w },
        ),
        InstructionKind::UnconditionalJump => Format::UnconditionalJump(JType32Bitfield { raw: w }),
        InstructionKind::ConditionBranch => Format::ConditionBranch(BType32Bitfield { raw: w }),
        InstructionKind::Load => Format::Load(IType32Bitfield { raw: w }),
        InstructionKind::Store => Format::Store(SType32Bitfield { raw: w }),
        InstructionKind::Fence => Format::Fence(IFenceType32Bitfield { raw: w }),
        InstructionKind::ControlAndStatusRegister => Format::ControlAndStatusRegister(
            IType32Bitfield { raw: w },
        ),
        InstructionKind::TimeAndCounter => Format::TimeAndCounter(IType32Bitfield { raw: w }),
        InstructionKind::EnvironmentCallAndBreakpoint => Format::EnvironmentCallAndBreakpoint(
            RType32Bitfield { raw: w },
        ),
    }
}

/// What decoding `w` gives: the word in the format of its opcode, or
/// nothing.
pub open spec fn spec_decode(w: u32) -> Option<RV32Instruction> {
    match kind_for_opcode(opcode_bits(w)) {
        Some(k) => Some(wrap_as(k, w)),
        None => None,
    }
}

/// What an instruction offers for matching against a descriptor: its format,
/// its opcode, its funct3 within the opcode's family where the format has a
/// funct3 field, and its funct7 where the format has one.
pub open spec fn instruction_key(inst: RV32Instruction) -> (
    InstructionKind,
    Option<Opcode7Table>,
    Option<Funct3Expr>,
    Option<Funct7Table>,
) {
    let w = raw_of(inst);
    let opcode = opcode_bits(w) as u8;
    let funct3 = funct3_expr_from(opcode, funct3_bits(w) as u8);
    let funct7 = Some(funct7_from_value(funct7_bits(w) as u8));
    match inst {
        Format::IntegerRegisterRegister(_) | Format::EnvironmentCallAndBreakpoint(_) => (
            kind_of(inst),
            opcode_from_value(opcode),
            funct3,
            funct7,
        ),
        Format::UnconditionalJump(_) => (kind_of(inst), opcode_from_value(opcode), None, None),
        _ => (kind_of(inst), opcode_from_value(opcode), funct3, None),
    }
}

/// The pattern a descriptor expects: format, opcode, funct3 and funct7.
pub open spec fn descriptor_key(d: Descriptor) -> (
    InstructionKind,
    Option<Opcode7Table>,
    Option<Funct3Expr>,
    Option<Funct7Table>,
) {
    (d.format, d.opcode, d.funct3, d.funct7)
}

/// An instruction and a descriptor denote the same operation when the
/// descriptor's pattern is what the instruction offers: format, opcode and
/// funct3 agree, funct7 agrees for the formats that carry it, and the
/// descriptor expects no field that the format lacks.
pub open spec fn spec_matches(inst: RV32Instruction, d: Descriptor) -> bool {
    descriptor_key(d) == instruction_key(inst)
}

impl<I, R, J, B, S, F> Format<I, R, J, B, S, F> {
    /// The variant of this instruction without its payload.
    pub fn kind(&self) -> (r: InstructionKind)
        ensures
            r == match *self {
                Format::IntegerRegisterImmediate(_) => InstructionKind::IntegerRegisterImmediate,
                Format::IntegerRegisterRegister(_) => InstructionKind::IntegerRegisterRegister,
                Format::UnconditionalJump(_) => InstructionKind::UnconditionalJump,
                Format::ConditionBranch(_) => InstructionKind::ConditionBranch,
                Format::Load(_) => InstructionKind::Load,
                Format::Store(_) => InstructionKind::Store,
                Format::Fence(_) => InstructionKind::Fence,
                Format::ControlAndStatusRegister(_) => InstructionKind::ControlAndStatusRegister,
                Format::TimeAndCounter(_) => InstructionKind::TimeAndCounter,
                Format::EnvironmentCallAndBreakpoint(_) => InstructionKind::EnvironmentCallAndBreakpoint,
            },
    {
        match self {
            Format::IntegerRegisterImmediate(_) => InstructionKind::IntegerRegisterImmediate,
            Format::IntegerRegisterRegister(_) => InstructionKind::IntegerRegisterRegister,
            Format::UnconditionalJump(_) => InstructionKind::UnconditionalJump,
            Format::ConditionBranch(_) => InstructionKind::ConditionBranch,
            Format::Load(_) => InstructionKind::Load,
            Format::Store(_) => InstructionKind::Store,
            Format::Fence(_) => InstructionKind::Fence,
            Format::ControlAndStatusRegister(_) => InstructionKind::ControlAndStatusRegister,
            Format::TimeAndCounter(_) => InstructionKind::TimeAndCounter,
            Format::EnvironmentCallAndBreakpoint(_) => InstructionKind::EnvironmentCallAndBreakpoint,
        }
    }
}

/// The raw word inside an instruction.
pub fn raw_word(inst: &RV32Instruction) -> (r: u32)
    ensures
        r == raw_of(*inst),
{
    match inst {
        Format::IntegerRegisterImmediate(b) => b.raw,
        Format::IntegerRegisterRegister(b) => b.raw,
        Format::UnconditionalJump(b) => b.raw,
        Format::ConditionBranch(b) => b.raw,
        Format::Load(b) => b.raw,
        Format::Store(b) => b.raw,
        Format::Fence(b) => b.raw,
        Format::ControlAndStatusRegister(b) => b.raw,
        Format::TimeAndCounter(b) => b.raw,
        Format::EnvironmentCallAndBreakpoint(b) => b.raw,
    }
}

impl RV32I {
    pub fn name(&self) -> (r: &'static str)
        ensures
            r@ == "RV32I"@,
    {
        "RV32I"
    }

    /// Decodes a raw word: its opcode, read under the R layout, chooses the
    /// format, and the same word is wrapped in that format's layout. Opcodes
    /// without a format give `None`.
    pub fn decode(&self, chomp: u32) -> (r: Option<RV32Instruction>)
        ensures
            r == spec_decode(chomp),
    {
        let opcode = RType32Bitfield::new_with_raw_value(chomp).opcode();
        match Opcode7Table::try_from(opcode) {
            Some(Opcode7Table::OpImmediate) => Some(
                Format::IntegerRegisterImmediate(IType32Bitfield::new_with_raw_value(chomp)),
            ),
            Some(Opcode7Table::OpRegister) => Some(
                Format::IntegerRegisterRegister(RType32Bitfield::new_with_raw_value(chomp)),
            ),
            Some(Opcode7Table::JumpAndLink) => Some(
                Format::UnconditionalJump(JType32Bitfield::new_with_raw_value(chomp)),
            ),
            Some(Opcode7Table::Branch) => Some(
                Format::ConditionBranch(BType32Bitfield::new_with_raw_value(chomp)),
            ),
            Some(Opcode7Table::Load) => Some(Format::Load(IType32Bitfield::new_with_raw_value(chomp))),
            Some(Opcode7Table::Store) => Some(
                Format::Store(SType32Bitfield::new_with_raw_value(chomp)),
            ),
            Some(Opcode7Table::MiscMemory) => Some(
                Format::Fence(IFenceType32Bitfield::new_with_raw_value(chomp)),
            ),
            Some(Opcode7Table::System) => Some(
                Format::EnvironmentCallAndBreakpoint(RType32Bitfield::new_with_raw_value(chomp)),
            ),
            _ => None,
        }
    }

    /// The primary opcode of a decoded instruction.
    pub fn get_opcode(&self, instruction: &RV32Instruction) -> (r: u8)
        ensures
            r == opcode_bits(raw_of(*instruction)),
    {
        match instruction {
            Format::IntegerRegisterImmediate(b) => b.opcode(),
            Format::IntegerRegisterRegister(b) => b.opcode(),
            Format::UnconditionalJump(b) => b.opcode(),
            Format::ConditionBranch(b) => b.opcode(),
            Format::Load(b) => b.opcode(),
            Format::Store(b) => b.opcode(),
            Format::Fence(b) => b.opcode(),
            Format::ControlAndStatusRegister(b) => b.opcode(),
            Format::TimeAndCounter(b) => b.opcode(),
            Format::EnvironmentCallAndBreakpoint(b) => b.opcode(),
        }
    }

    /// The sign-extended immediate of an instruction; `None` for the
    /// register-register, fence and environment-call formats.
    pub fn get_imm(&self, instruction: &RV32Instruction) -> (r: Option<i32>)
        ensures
            r matches Some(v) ==> spec_immediate(*instruction) == Some(v as int),
            r is None ==> spec_immediate(*instruction) is None,
    {
        match instruction {
            Format::IntegerRegisterImmediate(b) => Some(b.imm()),
            Format::Load(b) => Some(b.imm()),
            Format::ControlAndStatusRegister(b) => Some(b.imm()),
            Format::TimeAndCounter(b) => Some(b.imm()),
            Format::Store(b) => Some(b.imm()),
            Format::ConditionBranch(b) => Some(b.imm()),
            Format::UnconditionalJump(b) => Some(b.imm()),
            _ => None,
        }
    }

    /// Whether `instruction` and `descr` denote the same operation.
    pub fn match_instruction(&self, instruction: &RV32Instruction, descr: &Descriptor) -> (r: bool)
        ensures
            r == spec_matches(*instruction, *descr),
    {
        let w = raw_word(instruction);
        let b = RType32Bitfield::new_with_raw_value(w);
        let opcode = b.opcode();
        let opcode_entry = Opcode7Table::try_from(opcode);
        let funct3_entry = Funct3Expr::try_from(opcode, b.funct3());
        let funct7_entry = Funct7Table::from_value(b.funct7());
        let same_opcode = descr.format == instruction.kind() && descr.opcode == opcode_entry;
        match instruction {
            Format::IntegerRegisterRegister(_) | Format::EnvironmentCallAndBreakpoint(_) => {
                same_opcode && descr.funct3 == funct3_entry && descr.funct7 == Some(funct7_entry)
            },
            Format::UnconditionalJump(_) => {
                same_opcode && descr.funct3.is_none() && descr.funct7.is_none()
            },
            _ => same_opcode && descr.funct3 == funct3_entry && descr.funct7.is_none(),
        }
    }
}

/// The sign-extended immediate of an instruction whose format has one.
pub open spec fn spec_immediate(inst: RV32Instruction) -> Option<int> {
    let w = raw_of(inst);
    match inst {
        Format::IntegerRegisterImmediate(_) | Format::Load(_) | Format::ControlAndStatusRegister(_)
        | Format::TimeAndCounter(_) => Some(sign_extend(i_imm_bits(w) as int, 0x800)),
        Format::Store(_) => Some(sign_extend(s_imm_bits(w) as int, 0x800)),
        Format::ConditionBranch(_) => Some(sign_extend(b_imm_bits(w) as int, 0x1000)),
        Format::UnconditionalJump(_) => Some(sign_extend(j_imm_bits(w) as int, 0x10_0000)),
        _ => None,
    }
}

/// Decoding depends on the word alone, keeps the word, and picks the format
/// from the opcode alone: two words with the same opcode decode to the same
/// format or both to nothing.
pub proof fn lemma_decode_by_opcode(w1: u32, w2: u32)
    ensures
        spec_decode(w1) matches Some(i) ==> raw_of(i) == w1,
        opcode_bits(w1) == opcode_bits(w2) ==> (spec_decode(w1) is Some <==> spec_decode(w2) is Some),
        opcode_bits(w1) == opcode_bits(w2) && spec_decode(w1) is Some ==> kind_of(
            spec_decode(w1).unwrap(),
        ) == kind_of(spec_decode(w2).unwrap()),
{
}

/// A word whose opcode is outside the opcode table decodes to nothing.
pub proof fn lemma_unknown_opcode_decodes_to_none(w: u32)
    requires
        opcode_from_value(opcode_bits(w) as u8) is None,
    ensures
        spec_decode(w) is None,
{
    crate::bitfield::lemma_field_bounds(w);
}

} // verus!
