//! Flat byte-addressed memory with little-endian accesses of one, two, four
//! and eight bytes. An access that reaches past the end fails as a whole.
use vstd::prelude::*;
use crate::error::HartError;

verus! {

/// The widths of memory accesses and instructions.
#[derive(Clone, Copy, Debug, PartialEq, Eq, Structural)]
pub enum InstructionLength {
    Byte,
    HalfWord,
    Word,
    DoubleWord,
}

impl InstructionLength {
    /// The width in bits.
    pub fn bits(&self) -> (r: u32)
        ensures
            r == match *self {
                InstructionLength::Byte => 8u32,
                InstructionLength::HalfWord => 16u32,
                InstructionLength::Word => 32u32,
                InstructionLength::DoubleWord => 64u32,
            },
    {
        match self {
            InstructionLength::Byte => 8,
            InstructionLength::HalfWord => 16,
            InstructionLength::Word => 32,
            InstructionLength::DoubleWord => 64,
        }
    }
}

/// Whether the `n` bytes from `address` lie inside `m`.
pub open spec fn in_bounds(m: Seq<u8>, address: int, n: int) -> bool {
    0 <= address && address + n <= m.len()
}

/// The little-endian value of the two bytes at `a`.
pub open spec fn le_half(m: Seq<u8>, a: int) -> int {
    m[a] + 0x100 * m[a + 1]
}

/// The little-endian value of the four bytes at `a`.
pub open spec fn le_word(m: Seq<u8>, a: int) -> int {
    le_half(m, a) + 0x1_0000 * le_half(m, a + 2)
}

/// The little-endian value of the eight bytes at `a`.
pub open spec fn le_double(m: Seq<u8>, a: int) -> int {
    le_word(m, a) + 0x1_0000_0000 * le_word(m, a + 4)
}

/// `m` with the two bytes at `a` holding `v` in little-endian order.
pub open spec fn put_half(m: Seq<u8>, a: int, v: u16) -> Seq<u8> {
    m.update(a, (v % 0x100) as u8).update(a + 1, (v / 0x100) as u8)
}

/// `m` with the four bytes at `a` holding `v` in little-endian order.
pub open spec fn put_word(m: Seq<u8>, a: int, v: u32) -> Seq<u8> {
    put_half(put_half(m, a, (v % 0x1_0000) as u16), a + 2, (v / 0x1_0000) as u16)
}

/// `m` with the eight bytes at `a` holding `v` in little-endian order.
pub open spec fn put_double(m: Seq<u8>, a: int, v: u64) -> Seq<u8> {
    put_word(put_word(m, a, (v % 0x1_0000_0000) as u32), a + 4, (v / 0x1_0000_0000) as u32)
}

/// Reading back the two bytes just written at `a` gives the value written.
pub proof fn lemma_half_round_trip(m: Seq<u8>, a: int, v: u16)
    requires
        in_bounds(m, a, 2),
    ensures
        le_half(put_half(m, a, v), a) == v,
        put_half(m, a, v).len() == m.len(),
{
    assert(v % 0x100 + 0x100 * (v / 0x100) == v);
}

/// Reading back the four bytes just written at `a` gives the value written.
pub proof fn lemma_word_round_trip(m: Seq<u8>, a: int, v: u32)
    requires
        in_bounds(m, a, 4),
    ensures
        le_word(put_word(m, a, v), a) == v,
        put_word(m, a, v).len() == m.len(),
{
    let lo = (v % 0x1_0000) as u16;
    let hi = (v / 0x1_0000) as u16;
    let m1 = put_half(m, a, lo);
    lemma_half_round_trip(m, a, lo);
    lemma_half_round_trip(m1, a + 2, hi);
    assert(le_half(put_half(m1, a + 2, hi), a) == le_half(m1, a));
    assert(v % 0x1_0000 + 0x1_0000 * (v / 0x1_0000) == v);
}

/// Byte-addressed storage.
pub trait Memory {
    /// The bytes held, the first at address 0.
    spec fn bytes(&self) -> Seq<u8>;

    fn read_byte(&self, address: u32) -> (r: Result<u8, HartError>)
        ensures
            in_bounds(self.bytes(), address as int, 1) ==> r == Ok::<u8, HartError>(self.bytes()[address as int]),
            !in_bounds(self.bytes(), address as int, 1) ==> r == Err::<u8, HartError>(HartError::OutOfBounds(address)),
    ;

    fn read_half_word(&self, address: u32) -> (r: Result<u16, HartError>)
        ensures
            in_bounds(self.bytes(), address as int, 2) ==> (r matches Ok(v) && v == le_half(self.bytes(), address as int)),
            !in_bounds(self.bytes(), address as int, 2) ==> r == Err::<u16, HartError>(HartError::OutOfBounds(address)),
    ;

    fn read_word(&self, address: u32) -> (r: Result<u32, HartError>)
        ensures
            in_bounds(self.bytes(), address as int, 4) ==> (r matches Ok(v) && v == le_word(self.bytes(), address as int)),
            !in_bounds(self.bytes(), address as int, 4) ==> r == Err::<u32, HartError>(HartError::OutOfBounds(address)),
    ;

    fn read_double_word(&self, address: u32) -> (r: Result<u64, HartError>)
        ensures
            in_bounds(self.bytes(), address as int, 8) ==> (r matches Ok(v) && v == le_double(self.bytes(), address as int)),
            !in_bounds(self.bytes(), address as int, 8) ==> r == Err::<u64, HartError>(HartError::OutOfBounds(address)),
    ;

    fn write_byte(&mut self, address: u32, value: u8) -> (r: Result<(), HartError>)
        ensures
            in_bounds(old(self).bytes(), address as int, 1) ==> r == Ok::<(), HartError>(()) && final(self).bytes() == old(self).bytes().update(address as int, value),
            !in_bounds(old(self).bytes(), address as int, 1) ==> r == Err::<(), HartError>(HartError::OutOfBounds(address)) && final(self).bytes() == old(self).bytes(),
    ;

    fn write_half_word(&mut self, address: u32, value: u16) -> (r: Result<(), HartError>)
        ensures
            in_bounds(old(self).bytes(), address as int, 2) ==> r == Ok::<(), HartError>(()) && final(self).bytes() == put_half(old(self).bytes(), address as int, value),
            !in_bounds(old(self).bytes(), address as int, 2) ==> r == Err::<(), HartError>(HartError::OutOfBounds(address)) && final(self).bytes() == old(self).bytes(),
    ;

    fn write_word(&mut self, address: u32, value: u32) -> (r: Result<(), HartError>)
        ensures
            in_bounds(old(self).bytes(), address as int, 4) ==> r == Ok::<(), HartError>(()) && final(self).bytes() == put_word(old(self).bytes(), address as int, value),
            !in_bounds(old(self).bytes(), address as int, 4) ==> r == Err::<(), HartError>(HartError::OutOfBounds(address)) && final(self).bytes() == old(self).bytes(),
    ;

    fn write_double_word(&mut self, address: u32, value: u64) -> (r: Result<(), HartError>)
        ensures
            in_bounds(old(self).bytes(), address as int, 8) ==> r == Ok::<(), HartError>(()) && final(self).bytes() == put_double(old(self).bytes(), address as int, value),
            !in_bounds(old(self).bytes(), address as int, 8) ==> r == Err::<(), HartError>(HartError::OutOfBounds(address)) && final(self).bytes() == old(self).bytes(),
    ;
}

/// Memory held in a vector of bytes.
#[derive(Debug)]
pub struct VecMemory {
    ram: Vec<u8>,
}

impl VecMemory {
    /// `size` bytes of zeroed memory.
    pub fn new(size: usize) -> (r: Self)
        ensures
            r.bytes().len() == size,
            forall|i: int| 0 <= i < size ==> #[trigger] r.bytes()[i] == 0,
    {
        let ram: Vec<u8> = vec![0u8; size];
        VecMemory { ram }
    }

    /// Memory holding `image`, the first byte at address 0.
    pub fn from_bytes(image: Vec<u8>) -> (r: Self)
        ensures
            r.bytes() == image@,
    {
        VecMemory { ram: image }
    }

    /// The number of bytes.
    pub fn size(&self) -> (r: usize)
        ensures
            r == self.bytes().len(),
    {
        self.ram.len()
    }

    fn fits(&self, address: u32, n: u64) -> (r: bool)
        requires
            n <= 8,
        ensures
            r == in_bounds(self.bytes(), address as int, n as int),
    {
        (address as u64) + n <= self.ram.len() as u64
    }

    fn half_at(&self, a: usize) -> (r: u16)
        requires
            a + 2 <= self.ram.len(),
        ensures
            r == le_half(self.bytes(), a as int),
    {
        let lo = self.ram[a] as u16;
        let hi = self.ram[a + 1] as u16;
        lo + hi * 0x100
    }

    fn word_at(&self, a: usize) -> (r: u32)
        requires
            a + 4 <= self.ram.len(),
        ensures
            r == le_word(self.bytes(), a as int),
    {
        let lo = self.half_at(a) as u32;
        let hi = self.half_at(a + 2) as u32;
        lo + hi * 0x1_0000
    }

    fn put_half_at(&mut self, a: usize, v: u16)
        requires
            a + 2 <= old(self).ram.len(),
        ensures
            final(self).bytes() == put_half(old(self).bytes(), a as int, v),
    {
        self.ram.set(a, (v % 0x100) as u8);
        self.ram.set(a + 1, (v / 0x100) as u8);
    }

    fn put_word_at(&mut self, a: usize, v: u32)
        requires
            a + 4 <= old(self).ram.len(),
        ensures
            final(self).bytes() == put_word(old(self).bytes(), a as int, v),
    {
        self.put_half_at(a, (v % 0x1_0000) as u16);
        self.put_half_at(a + 2, (v / 0x1_0000) as u16);
    }
}

impl Memory for VecMemory {
    closed spec fn bytes(&self) -> Seq<u8> {
        self.ram@
    }

    fn read_byte(&self, address: u32) -> (r: Result<u8, HartError>) {
        if !self.fits(address, 1) {
            return Err(HartError::OutOfBounds(address));
        }
        Ok(self.ram[address as usize])
    }

    fn read_half_word(&self, address: u32) -> (r: Result<u16, HartError>) {
        if !self.fits(address, 2) {
            return Err(HartError::OutOfBounds(address));
        }
        Ok(self.half_at(address as usize))
    }

    fn read_word(&self, address: u32) -> (r: Result<u32, HartError>) {
        if !self.fits(address, 4) {
            return Err(HartError::OutOfBounds(address));
        }
        Ok(self.word_at(address as usize))
    }

    fn read_double_word(&self, address: u32) -> (r: Result<u64, HartError>) {
        if !self.fits(address, 8) {
            return Err(HartError::OutOfBounds(address));
        }
        assert(address + 8 <= self.ram.len());
        let lo = self.word_at(address as usize) as u64;
        let hi = self.word_at(address as usize + 4) as u64;
        Ok(lo + hi * 0x1_0000_0000)
    }

    fn write_byte(&mut self, address: u32, value: u8) -> (r: Result<(), HartError>) {
        if !self.fits(address, 1) {
            return Err(HartError::OutOfBounds(address));
        }
        self.ram.set(address as usize, value);
        Ok(())
    }

    fn write_half_word(&mut self, address: u32, value: u16) -> (r: Result<(), HartError>) {
        if !self.fits(address, 2) {
            return Err(HartError::OutOfBounds(address));
        }
        self.put_half_at(address as usize, value);
        Ok(())
    }

    fn write_word(&mut self, address: u32, value: u32) -> (r: Result<(), HartError>) {
        if !self.fits(address, 4) {
            return Err(HartError::OutOfBounds(address));
        }
        self.put_word_at(address as usize, value);
        Ok(())
    }

    fn write_double_word(&mut self, address: u32, value: u64) -> (r: Result<(), HartError>) {
        if !self.fits(address, 8) {
            return Err(HartError::OutOfBounds(address));
        }
        assert(address + 8 <= self.ram.len());
        self.put_word_at(address as usize, (value % 0x1_0000_0000) as u32);
        self.put_word_at(address as usize + 4, (value / 0x1_0000_0000) as u32);
        Ok(())
    }
}

} // verus!
