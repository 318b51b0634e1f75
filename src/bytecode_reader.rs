use vstd::prelude::*;

verus! {

/// The big-endian 16-bit value of the two bytes at `i`.
pub open spec fn be_u16(b: Seq<u8>, i: int) -> u16 {
    (b[i] as int * 0x100 + b[i + 1] as int) as u16
}

/// The big-endian 32-bit value of the four bytes at `i`.
pub open spec fn be_u32(b: Seq<u8>, i: int) -> u32 {
    (b[i] as int * 0x1000000 + b[i + 1] as int * 0x10000 + b[i + 2] as int * 0x100 + b[i
        + 3] as int) as u32
}

/// Reads big-endian operands out of a method's code, from a position that it tracks.
pub struct BytecodeReader {
    pc: usize,
    code: Vec<u8>,
}

impl BytecodeReader {
    pub closed spec fn code(&self) -> Seq<u8> {
        self.code@
    }

    pub closed spec fn pos(&self) -> int {
        self.pc as int
    }

    pub fn new(code: Vec<u8>) -> (r: Self)
        ensures
            r.code() == code@,
            r.pos() == 0,
    {
        BytecodeReader { pc: 0, code }
    }

    pub fn reset(&mut self, code: Vec<u8>, pc: usize)
        ensures
            final(self).code() == code@,
            final(self).pos() == pc,
    {
        self.code = code;
        self.pc = pc;
    }

    /// Moves to position `pc` of the same code.
    pub fn seek(&mut self, pc: usize)
        ensures
            final(self).code() == old(self).code(),
            final(self).pos() == pc,
    {
        self.pc = pc;
    }

    pub fn len(&self) -> (r: usize)
        ensures
            r == self.code().len(),
    {
        self.code.len()
    }

    /// The number of bytes left after the position (none when it lies past the end).
    pub fn remaining(&self) -> (r: usize)
        ensures
            self.pos() <= self.code().len() ==> r == self.code().len() - self.pos(),
            self.pos() > self.code().len() ==> r == 0,
    {
        if self.pc <= self.code.len() {
            self.code.len() - self.pc
        } else {
            0
        }
    }

    pub fn read_u8(&mut self) -> (r: u8)
        requires
            old(self).pos() + 1 <= old(self).code().len(),
        ensures
            r == old(self).code()[old(self).pos()],
            final(self).code() == old(self).code(),
            final(self).pos() == old(self).pos() + 1,
    {
        let n = self.code.len();
        let byte = self.code[self.pc];
        self.pc = self.pc + 1;
        byte
    }

    pub fn read_i8(&mut self) -> (r: i8)
        requires
            old(self).pos() + 1 <= old(self).code().len(),
        ensures
            r == old(self).code()[old(self).pos()] as i8,
            final(self).code() == old(self).code(),
            final(self).pos() == old(self).pos() + 1,
    {
        self.read_u8() as i8
    }

    pub fn read_u16(&mut self) -> (r: u16)
        requires
            old(self).pos() + 2 <= old(self).code().len(),
        ensures
            r == be_u16(old(self).code(), old(self).pos()),
            final(self).code() == old(self).code(),
            final(self).pos() == old(self).pos() + 2,
    {
        let n = self.code.len();
        let byte1 = self.code[self.pc] as u16;
        let byte2 = self.code[self.pc + 1] as u16;
        self.pc = self.pc + 2;
        byte1 * 0x100 + byte2
    }

    pub fn read_i16(&mut self) -> (r: i16)
        requires
            old(self).pos() + 2 <= old(self).code().len(),
        ensures
            r == be_u16(old(self).code(), old(self).pos()) as i16,
            final(self).code() == old(self).code(),
            final(self).pos() == old(self).pos() + 2,
    {
        self.read_u16() as i16
    }

    pub fn read_u32(&mut self) -> (r: u32)
        requires
            old(self).pos() + 4 <= old(self).code().len(),
        ensures
            r == be_u32(old(self).code(), old(self).pos()),
            final(self).code() == old(self).code(),
            final(self).pos() == old(self).pos() + 4,
    {
        let n = self.code.len();
        let byte1 = self.code[self.pc] as u32;
        let byte2 = self.code[self.pc + 1] as u32;
        let byte3 = self.code[self.pc + 2] as u32;
        let byte4 = self.code[self.pc + 3] as u32;
        self.pc = self.pc + 4;
        byte1 * 0x1000000 + byte2 * 0x10000 + byte3 * 0x100 + byte4
    }

    pub fn read_i32(&mut self) -> (r: i32)
        requires
            old(self).pos() + 4 <= old(self).code().len(),
        ensures
            r == be_u32(old(self).code(), old(self).pos()) as i32,
            final(self).code() == old(self).code(),
            final(self).pos() == old(self).pos() + 4,
    {
        self.read_u32() as i32
    }

    pub fn pc(&self) -> (r: usize)
        ensures
            r == self.pos(),
    {
        self.pc
    }
}

} // verus!
