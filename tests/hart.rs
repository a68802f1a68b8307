use monologvm_core::architecture::RV32I;
use monologvm_core::error::HartError;
use monologvm_core::hart::{Hart, SimpleRV32IHart};
use monologvm_core::instruction::{identify, Mnemonic, DESCRIPTOR_COUNT};
use monologvm_core::machine::{Machine, DRAM_SIZE};

/// A hart whose memory starts with the given words, little-endian, and has
/// `extra` zero bytes after them.
fn hart_with(words: &[u32], extra: usize) -> SimpleRV32IHart {
    let mut image = Vec::new();
    for w in words {
        image.extend_from_slice(&w.to_le_bytes());
    }
    image.extend(std::iter::repeat(0u8).take(extra));
    SimpleRV32IHart::with_memory(image)
}

#[test]
fn end_to_end_addi() {
    let mut hart = SimpleRV32IHart::with_memory(vec![0x93, 0x02, 0x50, 0x00]);
    assert_eq!(hart.read_pc(), 0);
    assert_eq!(hart.step(), Ok(()));
    assert_eq!(hart.read_register(5), 5);
    assert_eq!(hart.read_pc(), 4);
}

#[test]
fn addi_round_trip_to_zero() {
    // addi x1, x5, -5 with x5 = 5
    let mut hart = hart_with(&[0xffb2_8093], 0);
    hart.write_register(5, 5);
    let inst = hart.fetch().unwrap();
    assert_eq!(hart.execute(&inst), Ok(()));
    assert_eq!(hart.read_register(1), 0);
    assert_eq!(hart.read_pc(), 4);
}

#[test]
fn addi_wraps() {
    // addi x1, x1, 1 with x1 = 0xffffffff
    let mut hart = hart_with(&[0x0010_8093], 0);
    hart.write_register(1, 0xffff_ffff);
    assert_eq!(hart.step(), Ok(()));
    assert_eq!(hart.read_register(1), 0);
}

#[test]
fn zero_register_reads_zero() {
    let mut hart = SimpleRV32IHart::new(16);
    for v in [0u32, 1, 0xdead_beef, u32::MAX] {
        hart.write_register(0, v);
        assert_eq!(hart.read_register(0), 0);
    }
    // addi x0, x0, 5 leaves x0 at zero
    let mut hart = hart_with(&[0x0050_0013], 0);
    assert_eq!(hart.step(), Ok(()));
    assert_eq!(hart.read_register(0), 0);
}

#[test]
fn new_hart_seeds_stack_pointer() {
    let hart = SimpleRV32IHart::new(1024);
    assert_eq!(hart.read_pc(), 0);
    assert_eq!(hart.read_register(2), 1023);
    assert_eq!(hart.read_register(1), 0);
    assert_eq!(hart.peek(0, 4), Ok(vec![0, 0, 0, 0]));
}

#[test]
fn machine_has_full_memory() {
    let machine = Machine::new();
    assert_eq!(machine.hart.read_pc(), 0);
    assert_eq!(machine.hart.read_register(2), (DRAM_SIZE - 1) as u32);
    assert_eq!(machine.hart.peek((DRAM_SIZE - 2) as u32, 2), Ok(vec![0, 0]));
    assert_eq!(
        machine.hart.peek((DRAM_SIZE - 1) as u32, 2),
        Err(HartError::OutOfBounds((DRAM_SIZE - 1) as u32))
    );
}

#[test]
fn immediate_operations() {
    // x1 = -3; slti x2, x1, 0; sltiu x3, x1, 1; xori x4, x1, -1; ori x5, x0, 0x7f0; andi x6, x1, 0xf
    let words = [0xffd0_0093, 0x0000_a113, 0x0010_b193, 0xfff0_c213, 0x7f00_6293, 0x00f0_f313];
    let mut hart = hart_with(&words, 0);
    for _ in 0..words.len() {
        assert_eq!(hart.step(), Ok(()));
    }
    assert_eq!(hart.read_register(1), 0xffff_fffd);
    assert_eq!(hart.read_register(2), 1);
    assert_eq!(hart.read_register(3), 0);
    assert_eq!(hart.read_register(4), 2);
    assert_eq!(hart.read_register(5), 0x7f0);
    assert_eq!(hart.read_register(6), 0xd);
}

#[test]
fn register_operations() {
    // add x3, x1, x2; sub x4, x1, x2; sll x5, x1, x2; slt x6, x2, x1; sltu x7, x2, x1;
    // xor x8, x1, x2; srl x9, x1, x2; sra x10, x1, x2; or x11, x1, x2; and x12, x1, x2
    let words = [
        0x0020_81b3, 0x4020_8233, 0x0020_92b3, 0x0011_2333, 0x0011_33b3, 0x0020_c433,
        0x0020_d4b3, 0x4020_d533, 0x0020_e5b3, 0x0020_f633,
    ];
    let mut hart = hart_with(&words, 0);
    hart.write_register(1, 0x8000_0010);
    hart.write_register(2, 0x24);
    for _ in 0..words.len() {
        assert_eq!(hart.step(), Ok(()));
    }
    assert_eq!(hart.read_register(3), 0x8000_0034);
    assert_eq!(hart.read_register(4), 0x7fff_ffec);
    assert_eq!(hart.read_register(5), 0x0000_0100);
    assert_eq!(hart.read_register(6), 0);
    assert_eq!(hart.read_register(7), 1);
    assert_eq!(hart.read_register(8), 0x8000_0034);
    assert_eq!(hart.read_register(9), 0x0800_0001);
    assert_eq!(hart.read_register(10), 0xf800_0001);
    assert_eq!(hart.read_register(11), 0x8000_0034);
    assert_eq!(hart.read_register(12), 0);
}

#[test]
fn branches_aim_from_fetched_address() {
    // beq x0, x0, 8 at address 0
    let mut hart = hart_with(&[0x0000_0463], 16);
    assert_eq!(hart.step(), Ok(()));
    assert_eq!(hart.read_pc(), 8);
    // bne x0, x0, 8 falls through
    let mut hart = hart_with(&[0x0000_1463], 16);
    assert_eq!(hart.step(), Ok(()));
    assert_eq!(hart.read_pc(), 4);
    // blt x1, x0, 8 with x1 = -1 is taken; bltu is not
    let mut hart = hart_with(&[0x0000_c463], 16);
    hart.write_register(1, 0xffff_ffff);
    assert_eq!(hart.step(), Ok(()));
    assert_eq!(hart.read_pc(), 8);
    let mut hart = hart_with(&[0x0000_e463], 16);
    hart.write_register(1, 0xffff_ffff);
    assert_eq!(hart.step(), Ok(()));
    assert_eq!(hart.read_pc(), 4);
}

#[test]
fn jal_links_and_jumps() {
    // addi x0, x0, 0; jal x1, -4
    let mut hart = hart_with(&[0x0000_0013, 0xffdf_f0ef], 0);
    assert_eq!(hart.step(), Ok(()));
    assert_eq!(hart.step(), Ok(()));
    assert_eq!(hart.read_register(1), 8);
    assert_eq!(hart.read_pc(), 0);
}

#[test]
fn loads_and_stores() {
    // sw x2, 32(x0); lb x3, 32(x0); lbu x4, 32(x0); lh x5, 32(x0); lhu x6, 32(x0);
    // lw x7, 32(x0); sb x0, 33(x0); sh x0, 34(x0)
    let words = [
        0x0220_2023, 0x0200_0183, 0x0200_4203, 0x0200_1283, 0x0200_5303, 0x0200_2383, 0x0200_00a3,
        0x0200_1123,
    ];
    let mut hart = hart_with(&words, 16);
    hart.write_register(2, 0x1234_8281);
    for _ in 0..words.len() {
        assert_eq!(hart.step(), Ok(()));
    }
    assert_eq!(hart.read_register(3), 0xffff_ff81);
    assert_eq!(hart.read_register(4), 0x81);
    assert_eq!(hart.read_register(5), 0xffff_8281);
    assert_eq!(hart.read_register(6), 0x8281);
    assert_eq!(hart.read_register(7), 0x1234_8281);
    assert_eq!(hart.peek(32, 4), Ok(vec![0x81, 0x00, 0x00, 0x00]));
}

#[test]
fn load_out_of_bounds_is_an_error() {
    // lw x1, 4(x0) with six bytes of memory
    let mut hart = hart_with(&[0x0040_2083], 2);
    assert_eq!(hart.step(), Err(HartError::OutOfBounds(4)));
    assert_eq!(hart.read_register(1), 0);
    assert_eq!(hart.read_pc(), 4);
}

#[test]
fn fetch_past_memory_is_an_error() {
    let mut hart = SimpleRV32IHart::with_memory(vec![0x13, 0x00]);
    assert_eq!(hart.step(), Err(HartError::OutOfBounds(0)));
    assert_eq!(hart.read_pc(), 0);
}

#[test]
fn decode_failure_advances_pc() {
    let mut hart = hart_with(&[0x0000_007f], 0);
    assert_eq!(hart.step(), Err(HartError::Decode(0x7f)));
    assert_eq!(hart.read_pc(), 4);
}

#[test]
fn unmatched_instruction_is_an_identify_error() {
    // slli x1, x1, 1 has no descriptor
    let mut hart = hart_with(&[0x0010_9093], 0);
    assert_eq!(hart.step(), Err(HartError::Identify(0x0010_9093)));
    assert_eq!(hart.read_pc(), 4);
}

#[test]
fn recognized_but_unimplemented() {
    // ecall
    let mut hart = hart_with(&[0x0000_0073], 0);
    assert_eq!(hart.step(), Err(HartError::Unimplemented(0x73)));
    // fence
    let mut hart = hart_with(&[0x0ff0_000f], 0);
    assert_eq!(hart.step(), Err(HartError::Unimplemented(0x0ff0_000f)));
}

#[test]
fn identify_names_the_operation() {
    let inst = RV32I.decode(0x0050_0293).unwrap();
    assert_eq!(identify(&inst), Some(Mnemonic::Addi));
    let d = Mnemonic::Addi.descriptor();
    assert!(RV32I.match_instruction(&inst, &d));
    assert!(!RV32I.match_instruction(&inst, &Mnemonic::Slti.descriptor()));
    assert_eq!(d.mnemonic, "ADDI");
    assert_eq!(d.set, "RV32I");
    let sub = RV32I.decode(0x4020_8233).unwrap();
    assert_eq!(identify(&sub), Some(Mnemonic::Sub));
    let andi = RV32I.decode(0x00f0_f313).unwrap();
    assert_eq!(identify(&andi), Some(Mnemonic::Andi));
    let sltiu = RV32I.decode(0x0010_b193).unwrap();
    assert_eq!(identify(&sltiu), Some(Mnemonic::Sltiu));
}

#[test]
fn descriptors_are_disjoint() {
    for i in 0..DESCRIPTOR_COUNT {
        let a = Mnemonic::at(i).descriptor();
        for j in 0..DESCRIPTOR_COUNT {
            if i == j {
                continue;
            }
            let b = Mnemonic::at(j).descriptor();
            assert!(
                (a.format, a.opcode, a.funct3, a.funct7) != (b.format, b.opcode, b.funct3, b.funct7),
                "{} and {} share a pattern",
                a.mnemonic,
                b.mnemonic
            );
        }
    }
}
