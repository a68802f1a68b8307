use monologvm_core::architecture::{Format, InstructionKind, RV32I};
use monologvm_core::bitfield::{
    BType32Bitfield, IFenceType32Bitfield, IType32Bitfield, JType32Bitfield, RType32Bitfield,
    SType32Bitfield, UType32Bitfield,
};
use monologvm_core::opcode::{
    Funct3Expr, Funct3OpImmediateTable, Funct3OpRegisterTable, Funct7Table, Opcode7Table,
};

#[test]
fn decode_is_deterministic() {
    for w in [0x0050_0293u32, 0x0000_0033, 0xffff_ffff, 0x0000_007f, 0x0000_0000, 0x1234_5678] {
        assert_eq!(RV32I.decode(w), RV32I.decode(w));
    }
}

#[test]
fn unknown_opcode_decodes_to_none() {
    assert_eq!(RV32I.decode(0b111_1111), None);
    assert_eq!(RV32I.decode(0xffff_ffff), None);
    // Known opcodes without a format here decode to nothing as well.
    assert_eq!(RV32I.decode(0x0000_0037), None);
    assert_eq!(RV32I.decode(0x0000_002f), None);
}

#[test]
fn decode_picks_format_by_opcode() {
    let w = 0x0050_0293u32;
    assert_eq!(
        RV32I.decode(w),
        Some(Format::IntegerRegisterImmediate(IType32Bitfield::new_with_raw_value(w)))
    );
    let add = 0x0031_00b3u32;
    assert_eq!(
        RV32I.decode(add),
        Some(Format::IntegerRegisterRegister(RType32Bitfield::new_with_raw_value(add)))
    );
    assert_eq!(RV32I.decode(0x0000_0003).map(|i| i.kind()), Some(InstructionKind::Load));
    assert_eq!(RV32I.decode(0x0000_0023).map(|i| i.kind()), Some(InstructionKind::Store));
    assert_eq!(RV32I.decode(0x0000_0063).map(|i| i.kind()), Some(InstructionKind::ConditionBranch));
    assert_eq!(RV32I.decode(0x0000_006f).map(|i| i.kind()), Some(InstructionKind::UnconditionalJump));
    assert_eq!(RV32I.decode(0x0000_000f).map(|i| i.kind()), Some(InstructionKind::Fence));
    assert_eq!(
        RV32I.decode(0x0000_0073).map(|i| i.kind()),
        Some(InstructionKind::EnvironmentCallAndBreakpoint)
    );
    let inst = RV32I.decode(w).unwrap();
    assert_eq!(RV32I.get_opcode(&inst), 0x13);
}

#[test]
fn r_type_fields_round_trip() {
    let word = RType32Bitfield::new_with_raw_value(0)
        .with_opcode(0b011_0011)
        .with_rd(1)
        .with_funct3(0)
        .with_rs1(2)
        .with_rs2(3)
        .with_funct7(0);
    assert_eq!(word.opcode(), 0b011_0011);
    assert_eq!(word.rd(), 1);
    assert_eq!(word.funct3(), 0);
    assert_eq!(word.rs1(), 2);
    assert_eq!(word.rs2(), 3);
    assert_eq!(word.funct7(), 0);
    assert_eq!(word.raw_value(), 0x0031_00b3);

    let full = RType32Bitfield::new_with_raw_value(0xffff_ffff)
        .with_opcode(0x7f)
        .with_rd(31)
        .with_funct3(7)
        .with_rs1(0)
        .with_rs2(17)
        .with_funct7(0x20);
    assert_eq!(
        (full.opcode(), full.rd(), full.funct3(), full.rs1(), full.rs2(), full.funct7()),
        (0x7f, 31, 7, 0, 17, 0x20)
    );
}

#[test]
fn out_of_range_field_writes_are_truncated() {
    let word = RType32Bitfield::new_with_raw_value(0).with_rd(0xff);
    assert_eq!(word.rd(), 31);
    assert_eq!(word.raw_value(), 0x0000_0f80);
    assert_eq!(word.opcode(), 0);
}

#[test]
fn i_immediate_all_ones_is_minus_one() {
    let i = IType32Bitfield::new_with_raw_value(0xfff0_0013);
    assert_eq!(i.imm(), -1);
    assert_eq!(i.imm_raw(), 0xfff);
    assert_eq!(IType32Bitfield::new_with_raw_value(0x7ff0_0000).imm(), 2047);
    assert_eq!(IType32Bitfield::new_with_raw_value(0x8000_0000).imm(), -2048);
}

#[test]
fn i_type_builder_writes_immediate() {
    let i = IType32Bitfield::new_with_raw_value(0)
        .with_opcode(0x13)
        .with_rd(5)
        .with_funct3(0)
        .with_rs1(0)
        .with_imm(5);
    assert_eq!(i.raw_value(), 0x0050_0293);
    assert_eq!(i.imm(), 5);
}

#[test]
fn s_immediate_joins_both_parts() {
    // sw x2, -4(x1): imm = 0xffc -> bits 31:25 = 0x7f, bits 11:7 = 0x1c
    let s = SType32Bitfield::new_with_raw_value(0xfe20_ae23);
    assert_eq!(s.imm(), -4);
    assert_eq!(s.rs1(), 1);
    assert_eq!(s.rs2(), 2);
    assert_eq!(s.funct3(), 2);
    assert_eq!(SType32Bitfield::new_with_raw_value(0x0020_a423).imm(), 8);
}

#[test]
fn b_immediate_has_zero_low_bit() {
    // beq x0, x0, 8
    let b = BType32Bitfield::new_with_raw_value(0x0000_0463);
    assert_eq!(b.imm(), 8);
    // beq x0, x0, -4
    assert_eq!(BType32Bitfield::new_with_raw_value(0xfe00_0ee3).imm(), -4);
    // bit 7 is immediate bit 11
    assert_eq!(BType32Bitfield::new_with_raw_value(0x0000_00e3).imm(), 2048);
}

#[test]
fn j_immediate_reassembles_offset() {
    // jal x1, 2048
    assert_eq!(JType32Bitfield::new_with_raw_value(0x0010_00ef).imm(), 2048);
    // jal x0, -8
    let j = JType32Bitfield::new_with_raw_value(0xff9f_f06f);
    assert_eq!(j.imm(), -8);
    assert_eq!(j.rd(), 0);
    // jal x0, 4096 (bit 12 comes from bits 19:12)
    assert_eq!(JType32Bitfield::new_with_raw_value(0x0000_106f).imm(), 4096);
}

#[test]
fn u_immediate_keeps_upper_bits() {
    let u = UType32Bitfield::new_with_raw_value(0x1234_50b7);
    assert_eq!(u.imm(), 0x1234_5000);
    assert_eq!(u.rd(), 1);
    assert_eq!(u.opcode(), 0x37);
}

#[test]
fn fence_flags_and_mode() {
    // fence iorw, ow with fm = 8
    let f = IFenceType32Bitfield::new_with_raw_value(0x8f50_000f);
    assert!(f.pi() && f.po() && f.pr() && f.pw());
    assert!(f.so() && !f.si() && f.sw() && !f.sr());
    assert_eq!(f.fm(), 8);
    assert_eq!(f.opcode(), 0x0f);
}

#[test]
fn opcode_table_conversions() {
    assert_eq!(Opcode7Table::try_from(0x13), Some(Opcode7Table::OpImmediate));
    assert_eq!(Opcode7Table::try_from(0x33), Some(Opcode7Table::OpRegister));
    assert_eq!(Opcode7Table::try_from(0x00), Some(Opcode7Table::Zero));
    assert_eq!(Opcode7Table::try_from(0x7f), None);
    assert_eq!(Opcode7Table::try_from(0x01), None);
    assert_eq!(Opcode7Table::System.value(), 0x73);
    assert_eq!(Opcode7Table::AddUpperImmediatePC.value(), 0x17);
    let mut known = 0;
    for v in 0u8..=255 {
        if let Some(op) = Opcode7Table::try_from(v) {
            assert_eq!(op.value(), v);
            known += 1;
        }
    }
    assert_eq!(known, 29);
}

#[test]
fn funct3_is_read_in_its_family() {
    assert_eq!(
        Funct3Expr::try_from(0x13, 0),
        Some(Funct3Expr::OpImmediate(Funct3OpImmediateTable::ADDI))
    );
    assert_eq!(
        Funct3Expr::try_from(0x33, 5),
        Some(Funct3Expr::OpRegister(Funct3OpRegisterTable::SRA))
    );
    assert_eq!(Funct3Expr::try_from(0x6f, 0), None);
    assert_eq!(Funct3Expr::try_from(0x67, 0), None);
    assert_eq!(Funct3Expr::try_from(0x7f, 0), None);
    assert_eq!(Funct3Expr::OpImmediate(Funct3OpImmediateTable::ANDI).into(), 7);
    assert_eq!(Funct3Expr::try_from(0x03, 3).map(|f| f.into()), Some(3));
    assert_eq!(Funct7Table::from_value(0x20), Funct7Table::Arithmetic);
    assert_eq!(Funct7Table::from_value(1), Funct7Table::Unknown(1));
    assert_eq!(Funct7Table::Logical.value(), 0);
}

#[test]
fn instruction_set_names() {
    assert_eq!(RV32I.name(), "RV32I");
    assert_eq!(monologvm_core::architecture::RV64I.name(), "RV64I");
}

#[test]
fn immediates_of_decoded_instructions() {
    let addi = RV32I.decode(0xffb2_8093).unwrap();
    assert_eq!(RV32I.get_imm(&addi), Some(-5));
    let sw = RV32I.decode(0xfe20_ae23).unwrap();
    assert_eq!(RV32I.get_imm(&sw), Some(-4));
    let beq = RV32I.decode(0x0000_0463).unwrap();
    assert_eq!(RV32I.get_imm(&beq), Some(8));
    let jal = RV32I.decode(0x0010_00ef).unwrap();
    assert_eq!(RV32I.get_imm(&jal), Some(2048));
    let add = RV32I.decode(0x0031_00b3).unwrap();
    assert_eq!(RV32I.get_imm(&add), None);
}
