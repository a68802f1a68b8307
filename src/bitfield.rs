//! Field layouts of the six 32-bit instruction shapes (R, I, S, B, U, J) and
//! the fence variant of I. Each layout wraps a raw word; the accessors extract
//! the named bit ranges and the `with_*` builders write them, truncating the
//! value to the field's width.
use vstd::prelude::*;

verus! {

/// Bits 6:0, the primary opcode (same position in every shape).
pub open spec fn opcode_bits(w: u32) -> u32 {
    w & 0x7f
}

/// Bits 11:7, the destination register.
pub open spec fn rd_bits(w: u32) -> u32 {
    (w >> 7u32) & 0x1f
}

/// Bits 14:12, the funct3 field.
pub open spec fn funct3_bits(w: u32) -> u32 {
    (w >> 12u32) & 0x7
}

/// Bits 19:15, the first source register.
pub open spec fn rs1_bits(w: u32) -> u32 {
    (w >> 15u32) & 0x1f
}

/// Bits 24:20, the second source register.
pub open spec fn rs2_bits(w: u32) -> u32 {
    (w >> 20u32) & 0x1f
}

/// Bits 31:25, the funct7 field.
pub open spec fn funct7_bits(w: u32) -> u32 {
    w >> 25u32
}

/// Bits 31:20, the 12-bit immediate of the I shape.
pub open spec fn i_imm_bits(w: u32) -> u32 {
    w >> 20u32
}

/// The 12-bit immediate of the S shape: bits 31:25 above bits 11:7.
pub open spec fn s_imm_bits(w: u32) -> u32 {
    ((w >> 25u32) << 5u32) | ((w >> 7u32) & 0x1f)
}

/// The 13-bit immediate of the B shape: bit 31, bit 7, bits 30:25, bits 11:8
/// and a zero bit 0.
pub open spec fn b_imm_bits(w: u32) -> u32 {
    ((w >> 31u32) << 12u32) | (((w >> 7u32) & 0x1) << 11u32) | (((w >> 25u32) & 0x3f) << 5u32) | (
    ((w >> 8u32) & 0xf) << 1u32)
}

/// The immediate of the U shape: bits 31:12 in place, low 12 bits zero.
pub open spec fn u_imm_bits(w: u32) -> u32 {
    w & 0xffff_f000
}

/// The 21-bit immediate of the J shape: bit 31, bits 19:12, bit 20,
/// bits 30:21 and a zero bit 0.
pub open spec fn j_imm_bits(w: u32) -> u32 {
    ((w >> 31u32) << 20u32) | (((w >> 12u32) & 0xff) << 12u32) | (((w >> 20u32) & 0x1) << 11u32) | (((
    w >> 21u32) & 0x3ff) << 1u32)
}

/// Bit `i` of `w`.
pub open spec fn bit_set(w: u32, i: u32) -> bool {
    (w >> i) & 1 == 1
}

/// Bits 31:28, the fence mode.
pub open spec fn fm_bits(w: u32) -> u32 {
    w >> 28u32
}

/// Two's-complement value of `v` read as a field whose sign bit has weight
/// `sign_bit`: values at or above the sign bit are negative.
pub open spec fn sign_extend(v: int, sign_bit: int) -> int {
    if v >= sign_bit {
        v - 2 * sign_bit
    } else {
        v
    }
}

/// `w` with the `mask`-wide field at `lo` replaced by the low bits of `v`.
pub open spec fn with_bits(w: u32, lo: u32, mask: u32, v: u32) -> u32 {
    (w & !(mask << lo)) | ((v & mask) << lo)
}

/// Each field read from a word fits its width.
pub proof fn lemma_field_bounds(w: u32)
    by (bit_vector)
    ensures
        w & 0x7f < 128,
        (w >> 7u32) & 0x1f < 32,
        (w >> 12u32) & 0x7 < 8,
        (w >> 15u32) & 0x1f < 32,
        (w >> 20u32) & 0x1f < 32,
        w >> 25u32 < 128,
        w >> 20u32 < 4096,
        w >> 28u32 < 16,
        ((w >> 25u32) << 5u32) | ((w >> 7u32) & 0x1f) < 4096,
        ((w >> 31u32) << 12u32) | (((w >> 7u32) & 0x1) << 11u32) | (((w >> 25u32) & 0x3f) << 5u32)
            | (((w >> 8u32) & 0xf) << 1u32) < 8192,
        ((w >> 31u32) << 20u32) | (((w >> 12u32) & 0xff) << 12u32) | (((w >> 20u32) & 0x1)
            << 11u32) | (((w >> 21u32) & 0x3ff) << 1u32) < 0x20_0000,
{
}

/// The value of `v`, `v < 2 * sign_bit`, as a signed field whose sign bit has
/// weight `sign_bit`.
pub fn sign_extend_field(v: u32, sign_bit: u32) -> (r: i32)
    requires
        0 < sign_bit <= 0x4000_0000,
        v < 2 * sign_bit,
    ensures
        r as int == sign_extend(v as int, sign_bit as int),
{
    if v >= sign_bit {
        (v as i32) - (sign_bit as i32) - (sign_bit as i32)
    } else {
        v as i32
    }
}

fn field_opcode(w: u32) -> (r: u8)
    ensures
        r == opcode_bits(w),
        r < 128,
{
    proof {
        lemma_field_bounds(w);
    }
    (w & 0x7f) as u8
}

fn field_rd(w: u32) -> (r: u8)
    ensures
        r == rd_bits(w),
        r < 32,
{
    proof {
        lemma_field_bounds(w);
    }
    ((w >> 7u32) & 0x1f) as u8
}

fn field_funct3(w: u32) -> (r: u8)
    ensures
        r == funct3_bits(w),
        r < 8,
{
    proof {
        lemma_field_bounds(w);
    }
    ((w >> 12u32) & 0x7) as u8
}

fn field_rs1(w: u32) -> (r: u8)
    ensures
        r == rs1_bits(w),
        r < 32,
{
    proof {
        lemma_field_bounds(w);
    }
    ((w >> 15u32) & 0x1f) as u8
}

fn field_rs2(w: u32) -> (r: u8)
    ensures
        r == rs2_bits(w),
        r < 32,
{
    proof {
        lemma_field_bounds(w);
    }
    ((w >> 20u32) & 0x1f) as u8
}

fn field_funct7(w: u32) -> (r: u8)
    ensures
        r == funct7_bits(w),
        r < 128,
{
    proof {
        lemma_field_bounds(w);
    }
    (w >> 25u32) as u8
}

fn field_bit(w: u32, i: u32) -> (r: bool)
    requires
        i < 32,
    ensures
        r == bit_set(w, i),
{
    (w >> i) & 1 == 1
}

/// `w` with the field of width `mask` at bit `lo` replaced by the low bits of `v`.
fn set_field(w: u32, lo: u32, mask: u32, v: u32) -> (r: u32)
    requires
        lo < 32,
    ensures
        r == with_bits(w, lo, mask, v),
{
    (w & !(mask << lo)) | ((v & mask) << lo)
}

/// The R shape: opcode, rd, funct3, rs1, rs2, funct7.
#[derive(Clone, Copy, Debug, PartialEq, Eq, Structural)]
pub struct RType32Bitfield {
    pub raw: u32,
}

impl RType32Bitfield {
    pub fn new_with_raw_value(raw: u32) -> (r: Self)
        ensures
            r.raw == raw,
    {
        RType32Bitfield { raw }
    }

    pub fn raw_value(&self) -> (r: u32)
        ensures
            r == self.raw,
    {
        self.raw
    }

    pub fn opcode(&self) -> (r: u8)
        ensures
            r == opcode_bits(self.raw),
            r < 128,
    {
        field_opcode(self.raw)
    }

    pub fn rd(&self) -> (r: u8)
        ensures
            r == rd_bits(self.raw),
            r < 32,
    {
        field_rd(self.raw)
    }

    pub fn funct3(&self) -> (r: u8)
        ensures
            r == funct3_bits(self.raw),
            r < 8,
    {
        field_funct3(self.raw)
    }

    pub fn rs1(&self) -> (r: u8)
        ensures
            r == rs1_bits(self.raw),
            r < 32,
    {
        field_rs1(self.raw)
    }

    pub fn rs2(&self) -> (r: u8)
        ensures
            r == rs2_bits(self.raw),
            r < 32,
    {
        field_rs2(self.raw)
    }

    pub fn funct7(&self) -> (r: u8)
        ensures
            r == funct7_bits(self.raw),
            r < 128,
    {
        field_funct7(self.raw)
    }

    pub fn with_opcode(self, v: u8) -> (r: Self)
        ensures
            r.raw == with_bits(self.raw, 0, 0x7f, v as u32),
    {
        RType32Bitfield { raw: set_field(self.raw, 0, 0x7f, v as u32) }
    }

    pub fn with_rd(self, v: u8) -> (r: Self)
        ensures
            r.raw == with_bits(self.raw, 7, 0x1f, v as u32),
    {
        RType32Bitfield { raw: set_field(self.raw, 7, 0x1f, v as u32) }
    }

    pub fn with_funct3(self, v: u8) -> (r: Self)
        ensures
            r.raw == with_bits(self.raw, 12, 0x7, v as u32),
    {
        RType32Bitfield { raw: set_field(self.raw, 12, 0x7, v as u32) }
    }

    pub fn with_rs1(self, v: u8) -> (r: Self)
        ensures
            r.raw == with_bits(self.raw, 15, 0x1f, v as u32),
    {
        RType32Bitfield { raw: set_field(self.raw, 15, 0x1f, v as u32) }
    }

    pub fn with_rs2(self, v: u8) -> (r: Self)
        ensures
            r.raw == with_bits(self.raw, 20, 0x1f, v as u32),
    {
        RType32Bitfield { raw: set_field(self.raw, 20, 0x1f, v as u32) }
    }

    pub fn with_funct7(self, v: u8) -> (r: Self)
        ensures
            r.raw == with_bits(self.raw, 25, 0x7f, v as u32),
    {
        RType32Bitfield { raw: set_field(self.raw, 25, 0x7f, v as u32) }
    }
}

/// The I shape: opcode, rd, funct3, rs1 and a 12-bit signed immediate.
#[derive(Clone, Copy, Debug, PartialEq, Eq, Structural)]
pub struct IType32Bitfield {
    pub raw: u32,
}

impl IType32Bitfield {
    pub fn new_with_raw_value(raw: u32) -> (r: Self)
        ensures
            r.raw == raw,
    {
        IType32Bitfield { raw }
    }

    pub fn raw_value(&self) -> (r: u32)
        ensures
            r == self.raw,
    {
        self.raw
    }

    pub fn opcode(&self) -> (r: u8)
        ensures
            r == opcode_bits(self.raw),
            r < 128,
    {
        field_opcode(self.raw)
    }

    pub fn rd(&self) -> (r: u8)
        ensures
            r == rd_bits(self.raw),
            r < 32,
    {
        field_rd(self.raw)
    }

    pub fn funct3(&self) -> (r: u8)
        ensures
            r == funct3_bits(self.raw),
            r < 8,
    {
        field_funct3(self.raw)
    }

    pub fn rs1(&self) -> (r: u8)
        ensures
            r == rs1_bits(self.raw),
            r < 32,
    {
        field_rs1(self.raw)
    }

    /// The raw 12 bits of the immediate.
    pub fn imm_raw(&self) -> (r: u16)
        ensures
            r == i_imm_bits(self.raw),
    {
        proof {
            lemma_field_bounds(self.raw);
        }
        (self.raw >> 20u32) as u16
    }

    /// The immediate, sign-extended from 12 bits.
    pub fn imm(&self) -> (r: i32)
        ensures
            r == sign_extend(i_imm_bits(self.raw) as int, 0x800),
    {
        proof {
            lemma_field_bounds(self.raw);
        }
        let v = self.imm_raw();
        sign_extend_field(v as u32, 0x800)
    }

    pub fn with_opcode(self, v: u8) -> (r: Self)
        ensures
            r.raw == with_bits(self.raw, 0, 0x7f, v as u32),
    {
        IType32Bitfield { raw: set_field(self.raw, 0, 0x7f, v as u32) }
    }

    pub fn with_rd(self, v: u8) -> (r: Self)
        ensures
            r.raw == with_bits(self.raw, 7, 0x1f, v as u32),
    {
        IType32Bitfield { raw: set_field(self.raw, 7, 0x1f, v as u32) }
    }

    pub fn with_funct3(self, v: u8) -> (r: Self)
        ensures
            r.raw == with_bits(self.raw, 12, 0x7, v as u32),
    {
        IType32Bitfield { raw: set_field(self.raw, 12, 0x7, v as u32) }
    }

    pub fn with_rs1(self, v: u8) -> (r: Self)
        ensures
            r.raw == with_bits(self.raw, 15, 0x1f, v as u32),
    {
        IType32Bitfield { raw: set_field(self.raw, 15, 0x1f, v as u32) }
    }

    /// Writes the low 12 bits of `v` as the immediate.
    pub fn with_imm(self, v: u16) -> (r: Self)
        ensures
            r.raw == with_bits(self.raw, 20, 0xfff, v as u32),
    {
        IType32Bitfield { raw: set_field(self.raw, 20, 0xfff, v as u32) }
    }
}

/// The fence variant of the I shape: eight ordering flags in bits 27:20 and
/// the fence mode in bits 31:28.
#[derive(Clone, Copy, Debug, PartialEq, Eq, Structural)]
pub struct IFenceType32Bitfield {
    pub raw: u32,
}

impl IFenceType32Bitfield {
    pub fn new_with_raw_value(raw: u32) -> (r: Self)
        ensures
            r.raw == raw,
    {
        IFenceType32Bitfield { raw }
    }

    pub fn raw_value(&self) -> (r: u32)
        ensures
            r == self.raw,
    {
        self.raw
    }

    pub fn opcode(&self) -> (r: u8)
        ensures
            r == opcode_bits(self.raw),
            r < 128,
    {
        field_opcode(self.raw)
    }

    pub fn rd(&self) -> (r: u8)
        ensures
            r == rd_bits(self.raw),
            r < 32,
    {
        field_rd(self.raw)
    }

    pub fn funct3(&self) -> (r: u8)
        ensures
            r == funct3_bits(self.raw),
            r < 8,
    {
        field_funct3(self.raw)
    }

    pub fn rs1(&self) -> (r: u8)
        ensures
            r == rs1_bits(self.raw),
            r < 32,
    {
        field_rs1(self.raw)
    }

    /// Successor writes (bit 20).
    pub fn sw(&self) -> (r: bool)
        ensures
            r == bit_set(self.raw, 20),
    {
        field_bit(self.raw, 20)
    }

    /// Successor reads (bit 21).
    pub fn sr(&self) -> (r: bool)
        ensures
            r == bit_set(self.raw, 21),
    {
        field_bit(self.raw, 21)
    }

    /// Successor output (bit 22).
    pub fn so(&self) -> (r: bool)
        ensures
            r == bit_set(self.raw, 22),
    {
        field_bit(self.raw, 22)
    }

    /// Successor input (bit 23).
    pub fn si(&self) -> (r: bool)
        ensures
            r == bit_set(self.raw, 23),
    {
        field_bit(self.raw, 23)
    }

    /// Predecessor writes (bit 24).
    pub fn pw(&self) -> (r: bool)
        ensures
            r == bit_set(self.raw, 24),
    {
        field_bit(self.raw, 24)
    }

    /// Predecessor reads (bit 25).
    pub fn pr(&self) -> (r: bool)
        ensures
            r == bit_set(self.raw, 25),
    {
        field_bit(self.raw, 25)
    }

    /// Predecessor output (bit 26).
    pub fn po(&self) -> (r: bool)
        ensures
            r == bit_set(self.raw, 26),
    {
        field_bit(self.raw, 26)
    }

    /// Predecessor input (bit 27).
    pub fn pi(&self) -> (r: bool)
        ensures
            r == bit_set(self.raw, 27),
    {
        field_bit(self.raw, 27)
    }

    /// The fence mode (bits 31:28).
    pub fn fm(&self) -> (r: u8)
        ensures
            r == fm_bits(self.raw),
    {
        proof {
            lemma_field_bounds(self.raw);
        }
        (self.raw >> 28u32) as u8
    }
}

/// The S shape: opcode, funct3, rs1, rs2 and a 12-bit signed immediate split
/// over bits 31:25 and 11:7.
#[derive(Clone, Copy, Debug, PartialEq, Eq, Structural)]
pub struct SType32Bitfield {
    pub raw: u32,
}

impl SType32Bitfield {
    pub fn new_with_raw_value(raw: u32) -> (r: Self)
        ensures
            r.raw == raw,
    {
        SType32Bitfield { raw }
    }

    pub fn raw_value(&self) -> (r: u32)
        ensures
            r == self.raw,
    {
        self.raw
    }

    pub fn opcode(&self) -> (r: u8)
        ensures
            r == opcode_bits(self.raw),
            r < 128,
    {
        field_opcode(self.raw)
    }

    pub fn funct3(&self) -> (r: u8)
        ensures
            r == funct3_bits(self.raw),
            r < 8,
    {
        field_funct3(self.raw)
    }

    pub fn rs1(&self) -> (r: u8)
        ensures
            r == rs1_bits(self.raw),
            r < 32,
    {
        field_rs1(self.raw)
    }

    pub fn rs2(&self) -> (r: u8)
        ensures
            r == rs2_bits(self.raw),
            r < 32,
    {
        field_rs2(self.raw)
    }

    /// The immediate, sign-extended from 12 bits.
    pub fn imm(&self) -> (r: i32)
        ensures
            r == sign_extend(s_imm_bits(self.raw) as int, 0x800),
    {
        proof {
            lemma_field_bounds(self.raw);
        }
        let w = self.raw;
        let v = ((w >> 25u32) << 5u32) | ((w >> 7u32) & 0x1f);
        sign_extend_field(v, 0x800)
    }
}

/// The B shape: opcode, funct3, rs1, rs2 and a 13-bit signed branch offset
/// whose bit 0 is always zero.
#[derive(Clone, Copy, Debug, PartialEq, Eq, Structural)]
pub struct BType32Bitfield {
    pub raw: u32,
}

impl BType32Bitfield {
    pub fn new_with_raw_value(raw: u32) -> (r: Self)
        ensures
            r.raw == raw,
    {
        BType32Bitfield { raw }
    }

    pub fn raw_value(&self) -> (r: u32)
        ensures
            r == self.raw,
    {
        self.raw
    }

    pub fn opcode(&self) -> (r: u8)
        ensures
            r == opcode_bits(self.raw),
            r < 128,
    {
        field_opcode(self.raw)
    }

    pub fn funct3(&self) -> (r: u8)
        ensures
            r == funct3_bits(self.raw),
            r < 8,
    {
        field_funct3(self.raw)
    }

    pub fn rs1(&self) -> (r: u8)
        ensures
            r == rs1_bits(self.raw),
            r < 32,
    {
        field_rs1(self.raw)
    }

    pub fn rs2(&self) -> (r: u8)
        ensures
            r == rs2_bits(self.raw),
            r < 32,
    {
        field_rs2(self.raw)
    }

    /// The branch offset, sign-extended from 13 bits.
    pub fn imm(&self) -> (r: i32)
        ensures
            r == sign_extend(b_imm_bits(self.raw) as int, 0x1000),
    {
        proof {
            lemma_field_bounds(self.raw);
        }
        let w = self.raw;
        let v = ((w >> 31u32) << 12u32) | (((w >> 7u32) & 0x1) << 11u32) | (((w >> 25u32) & 0x3f)
            << 5u32) | (((w >> 8u32) & 0xf) << 1u32);
        sign_extend_field(v, 0x1000)
    }
}

/// The U shape: opcode, rd and the upper 20 bits of a 32-bit immediate.
#[derive(Clone, Copy, Debug, PartialEq, Eq, Structural)]
pub struct UType32Bitfield {
    pub raw: u32,
}

impl UType32Bitfield {
    pub fn new_with_raw_value(raw: u32) -> (r: Self)
        ensures
            r.raw == raw,
    {
        UType32Bitfield { raw }
    }

    pub fn raw_value(&self) -> (r: u32)
        ensures
            r == self.raw,
    {
        self.raw
    }

    pub fn opcode(&self) -> (r: u8)
        ensures
            r == opcode_bits(self.raw),
            r < 128,
    {
        field_opcode(self.raw)
    }

    pub fn rd(&self) -> (r: u8)
        ensures
            r == rd_bits(self.raw),
            r < 32,
    {
        field_rd(self.raw)
    }

    /// Bits 31:12 in place, with the low 12 bits zero.
    pub fn imm(&self) -> (r: u32)
        ensures
            r == u_imm_bits(self.raw),
    {
        self.raw & 0xffff_f000
    }
}

/// The J shape: opcode, rd and a 21-bit signed jump offset whose bit 0 is
/// always zero.
#[derive(Clone, Copy, Debug, PartialEq, Eq, Structural)]
pub struct JType32Bitfield {
    pub raw: u32,
}

impl JType32Bitfield {
    pub fn new_with_raw_value(raw: u32) -> (r: Self)
        ensures
            r.raw == raw,
    {
        JType32Bitfield { raw }
    }

    pub fn raw_value(&self) -> (r: u32)
        ensures
            r == self.raw,
    {
        self.raw
    }

    pub fn opcode(&self) -> (r: u8)
        ensures
            r == opcode_bits(self.raw),
            r < 128,
    {
        field_opcode(self.raw)
    }

    pub fn rd(&self) -> (r: u8)
        ensures
            r == rd_bits(self.raw),
            r < 32,
    {
        field_rd(self.raw)
    }

    /// The jump offset, sign-extended from 21 bits.
    pub fn imm(&self) -> (r: i32)
        ensures
            r == sign_extend(j_imm_bits(self.raw) as int, 0x10_0000),
    {
        proof {
            lemma_field_bounds(self.raw);
        }
        let w = self.raw;
        let v = ((w >> 31u32) << 20u32) | (((w >> 12u32) & 0xff) << 12u32) | (((w >> 20u32) & 0x1)
            << 11u32) | (((w >> 21u32) & 0x3ff) << 1u32);
        sign_extend_field(v, 0x10_0000)
    }
}

/// The R-shape word with the given fields written, in order, over `w`.
pub open spec fn r_type_word(w: u32, opcode: u32, rd: u32, funct3: u32, rs1: u32, rs2: u32, funct7: u32) -> u32 {
    with_bits(
        with_bits(
            with_bits(with_bits(with_bits(with_bits(w, 0, 0x7f, opcode), 7, 0x1f, rd), 12, 0x7, funct3), 15, 0x1f, rs1),
            20,
            0x1f,
            rs2,
        ),
        25,
        0x7f,
        funct7,
    )
}

/// Writing the six R-shape fields into any word and reading them back gives
/// the values written, for every value that fits its field's width.
pub proof fn lemma_r_type_fields_round_trip(
    w: u32,
    opcode: u32,
    rd: u32,
    funct3: u32,
    rs1: u32,
    rs2: u32,
    funct7: u32,
)
    requires
        opcode < 128,
        rd < 32,
        funct3 < 8,
        rs1 < 32,
        rs2 < 32,
        funct7 < 128,
    ensures
        opcode_bits(r_type_word(w, opcode, rd, funct3, rs1, rs2, funct7)) == opcode,
        rd_bits(r_type_word(w, opcode, rd, funct3, rs1, rs2, funct7)) == rd,
        funct3_bits(r_type_word(w, opcode, rd, funct3, rs1, rs2, funct7)) == funct3,
        rs1_bits(r_type_word(w, opcode, rd, funct3, rs1, rs2, funct7)) == rs1,
        rs2_bits(r_type_word(w, opcode, rd, funct3, rs1, rs2, funct7)) == rs2,
        funct7_bits(r_type_word(w, opcode, rd, funct3, rs1, rs2, funct7)) == funct7,
{
    let c = r_type_word(w, opcode, rd, funct3, rs1, rs2, funct7);
    assert(opcode_bits(c) == opcode && rd_bits(c) == rd && funct3_bits(c) == funct3 && rs1_bits(c)
        == rs1 && rs2_bits(c) == rs2 && funct7_bits(c) == funct7) by (bit_vector)
        requires
            c == r_type_word(w, opcode, rd, funct3, rs1, rs2, funct7),
            opcode < 128,
            rd < 32,
            funct3 < 8,
            rs1 < 32,
            rs2 < 32,
            funct7 < 128,
    ;
}

/// An I-shape immediate field of all ones is the value -1.
pub proof fn lemma_i_imm_all_ones(w: u32)
    requires
        i_imm_bits(w) == 0xfff,
    ensures
        sign_extend(i_imm_bits(w) as int, 0x800) == -1,
{
}

} // verus!
