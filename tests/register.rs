use monologvm_core::memory::{InstructionLength, Memory, VecMemory};
use monologvm_core::error::HartError;
use monologvm_core::register::{RegisterType, Registers64, SavedBy};

#[test]
fn register_zero_discards_writes() {
    let mut regs = Registers64::new(64);
    regs.write(0, 42);
    assert_eq!(regs.read(0), 0);
    regs.write(7, 42);
    assert_eq!(regs.read(7), 42);
    assert_eq!(regs.read(2), 63);
}

#[test]
fn registers_by_type() {
    let mut regs = Registers64::new(256);
    let sp = RegisterType::get_type_by_name("sp").unwrap();
    assert_eq!(sp.pos, 2);
    assert_eq!(sp.id, "x2");
    assert_eq!(sp.saved_by, SavedBy::Callee);
    assert_eq!(regs.get(sp), 255);
    let pc = RegisterType::get_type_by_name("pc").unwrap();
    regs.set(pc, 0x40);
    assert_eq!(regs.read_pc(), 0x40);
    assert_eq!(regs.get(pc), 0x40);
    let zero = RegisterType::get_type_by_name("zero").unwrap();
    regs.set(zero, 9);
    assert_eq!(regs.get(zero), 0);
    let a0 = RegisterType::get_type_by_id("x10").unwrap();
    assert_eq!(a0.abi, "a0");
    assert_eq!(a0.saved_by, SavedBy::Caller);
    regs.set(a0, 3);
    assert_eq!(regs.read(10), 3);
    assert_eq!(RegisterType::get_type_by_name("s0 / fp").unwrap().id, "x8");
    assert_eq!(RegisterType::get_type_by_id("x31").unwrap().abi, "t6");
    assert!(RegisterType::get_type_by_name("x99").is_none());
    assert!(RegisterType::get_type_by_id("sp").is_none());
}

#[test]
fn memory_is_little_endian() {
    let mut m = VecMemory::new(16);
    assert_eq!(m.write_word(0, 0x0050_0293), Ok(()));
    assert_eq!(m.read_byte(0), Ok(0x93));
    assert_eq!(m.read_byte(3), Ok(0x00));
    assert_eq!(m.read_half_word(0), Ok(0x0293));
    assert_eq!(m.read_word(0), Ok(0x0050_0293));
    assert_eq!(m.write_double_word(8, 0x0102_0304_0506_0708), Ok(()));
    assert_eq!(m.read_byte(8), Ok(0x08));
    assert_eq!(m.read_byte(15), Ok(0x01));
    assert_eq!(m.read_word(12), Ok(0x0102_0304));
    assert_eq!(m.read_double_word(8), Ok(0x0102_0304_0506_0708));
    assert_eq!(m.write_half_word(1, 0xbeef), Ok(()));
    assert_eq!(m.read_word(0), Ok(0x00be_ef93));
    assert_eq!(m.write_byte(2, 0x11), Ok(()));
    assert_eq!(m.read_half_word(2), Ok(0x0011));
}

#[test]
fn memory_rejects_accesses_past_the_end() {
    let mut m = VecMemory::new(8);
    assert_eq!(m.read_word(5), Err(HartError::OutOfBounds(5)));
    assert_eq!(m.read_double_word(1), Err(HartError::OutOfBounds(1)));
    assert_eq!(m.read_byte(8), Err(HartError::OutOfBounds(8)));
    assert_eq!(m.write_word(6, 0xffff_ffff), Err(HartError::OutOfBounds(6)));
    assert_eq!(m.read_half_word(6), Ok(0));
    assert_eq!(m.read_word(u32::MAX), Err(HartError::OutOfBounds(u32::MAX)));
    assert_eq!(m.size(), 8);
}

#[test]
fn access_widths() {
    assert_eq!(InstructionLength::Byte.bits(), 8);
    assert_eq!(InstructionLength::HalfWord.bits(), 16);
    assert_eq!(InstructionLength::Word.bits(), 32);
    assert_eq!(InstructionLength::DoubleWord.bits(), 64);
}
