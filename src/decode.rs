use vstd::prelude::*;

use crate::bytecode_reader::{be_u16, be_u32, BytecodeReader};
use crate::instructions::Instruction;
use crate::runtime_data_area::VmError;

verus! {

/// The opcode byte of each instruction.
pub open spec fn opcode_of(ins: Instruction) -> u8 {
    match ins {
        Instruction::Nop => 0x00,
        Instruction::AconstNull => 0x01,
        Instruction::IconstM1 => 0x02,
        Instruction::Iconst0 => 0x03,
        Instruction::Iconst1 => 0x04,
        Instruction::Iconst2 => 0x05,
        Instruction::Iconst3 => 0x06,
        Instruction::Iconst4 => 0x07,
        Instruction::Iconst5 => 0x08,
        Instruction::Lconst0 => 0x09,
        Instruction::Lconst1 => 0x0a,
        Instruction::Fconst0 => 0x0b,
        Instruction::Fconst1 => 0x0c,
        Instruction::Fconst2 => 0x0d,
        Instruction::Dconst0 => 0x0e,
        Instruction::Dconst1 => 0x0f,
        Instruction::Bipush(_) => 0x10,
        Instruction::Sipush(_) => 0x11,
        Instruction::Iload(_) => 0x15,
        Instruction::Lload(_) => 0x16,
        Instruction::Fload(_) => 0x17,
        Instruction::Dload(_) => 0x18,
        Instruction::Aload(_) => 0x19,
        Instruction::Iload0 => 0x1a,
        Instruction::Iload1 => 0x1b,
        Instruction::Iload2 => 0x1c,
        Instruction::Iload3 => 0x1d,
        Instruction::Lload0 => 0x1e,
        Instruction::Lload1 => 0x1f,
        Instruction::Lload2 => 0x20,
        Instruction::Lload3 => 0x21,
        Instruction::Fload0 => 0x22,
        Instruction::Fload1 => 0x23,
        Instruction::Fload2 => 0x24,
        Instruction::Fload3 => 0x25,
        Instruction::Dload0 => 0x26,
        Instruction::Dload1 => 0x27,
        Instruction::Dload2 => 0x28,
        Instruction::Dload3 => 0x29,
        Instruction::Aload0 => 0x2a,
        Instruction::Aload1 => 0x2b,
        Instruction::Aload2 => 0x2c,
        Instruction::Aload3 => 0x2d,
        Instruction::Iaload => 0x2e,
        Instruction::Laload => 0x2f,
        Instruction::Faload => 0x30,
        Instruction::Daload => 0x31,
        Instruction::Aaload => 0x32,
        Instruction::Istore(_) => 0x36,
        Instruction::Lstore(_) => 0x37,
        Instruction::Fstore(_) => 0x38,
        Instruction::Dstore(_) => 0x39,
        Instruction::Astore(_) => 0x3a,
        Instruction::Istore0 => 0x3b,
        Instruction::Istore1 => 0x3c,
        Instruction::Istore2 => 0x3d,
        Instruction::Istore3 => 0x3e,
        Instruction::Lstore0 => 0x3f,
        Instruction::Lstore1 => 0x40,
        Instruction::Lstore2 => 0x41,
        Instruction::Lstore3 => 0x42,
        Instruction::Fstore0 => 0x43,
        Instruction::Fstore1 => 0x44,
        Instruction::Fstore2 => 0x45,
        Instruction::Fstore3 => 0x46,
        Instruction::Dstore0 => 0x47,
        Instruction::Dstore1 => 0x48,
        Instruction::Dstore2 => 0x49,
        Instruction::Dstore3 => 0x4a,
        Instruction::Astore0 => 0x4b,
        Instruction::Astore1 => 0x4c,
        Instruction::Astore2 => 0x4d,
        Instruction::Astore3 => 0x4e,
        Instruction::Iastore => 0x4f,
        Instruction::Lastore => 0x50,
        Instruction::Fastore => 0x51,
        Instruction::Dastore => 0x52,
        Instruction::Aastore => 0x53,
        Instruction::Pop => 0x57,
        Instruction::Pop2 => 0x58,
        Instruction::Dup => 0x59,
        Instruction::DupX1 => 0x5a,
        Instruction::DupX2 => 0x5b,
        Instruction::Dup2 => 0x5c,
        Instruction::Dup2X1 => 0x5d,
        Instruction::Dup2X2 => 0x5e,
        Instruction::Swap => 0x5f,
        Instruction::Iadd => 0x60,
        Instruction::Ladd => 0x61,
        Instruction::Fadd => 0x62,
        Instruction::Dadd => 0x63,
        Instruction::Isub => 0x64,
        Instruction::Lsub => 0x65,
        Instruction::Fsub => 0x66,
        Instruction::Dsub => 0x67,
        Instruction::Imul => 0x68,
        Instruction::Lmul => 0x69,
        Instruction::Fmul => 0x6a,
        Instruction::Dmul => 0x6b,
        Instruction::Idiv => 0x6c,
        Instruction::Ldiv => 0x6d,
        Instruction::Fdiv => 0x6e,
        Instruction::Ddiv => 0x6f,
        Instruction::Irem => 0x70,
        Instruction::Lrem => 0x71,
        Instruction::Frem => 0x72,
        Instruction::Drem => 0x73,
        Instruction::Ineg => 0x74,
        Instruction::Lneg => 0x75,
        Instruction::Fneg => 0x76,
        Instruction::Dneg => 0x77,
        Instruction::Ishl => 0x78,
        Instruction::Lshl => 0x79,
        Instruction::Ishr => 0x7a,
        Instruction::Lshr => 0x7b,
        Instruction::Iushr => 0x7c,
        Instruction::Lushr => 0x7d,
        Instruction::Iand => 0x7e,
        Instruction::Land => 0x7f,
        Instruction::Ior => 0x80,
        Instruction::Lor => 0x81,
        Instruction::IXor => 0x82,
        Instruction::Lxor => 0x83,
        Instruction::Iinc(_, _) => 0x84,
        Instruction::I2l => 0x85,
        Instruction::I2f => 0x86,
        Instruction::I2d => 0x87,
        Instruction::L2i => 0x88,
        Instruction::L2f => 0x89,
        Instruction::L2d => 0x8a,
        Instruction::F2i => 0x8b,
        Instruction::F2l => 0x8c,
        Instruction::F2d => 0x8d,
        Instruction::D2i => 0x8e,
        Instruction::D2l => 0x8f,
        Instruction::D2f => 0x90,
        Instruction::LCmp => 0x94,
        Instruction::FCmpL => 0x95,
        Instruction::FCmpG => 0x96,
        Instruction::DCmpL => 0x97,
        Instruction::DCmpG => 0x98,
        Instruction::IfEq(_) => 0x99,
        Instruction::IfNe(_) => 0x9a,
        Instruction::IfLt(_) => 0x9b,
        Instruction::IfGe(_) => 0x9c,
        Instruction::IfGt(_) => 0x9d,
        Instruction::IfLe(_) => 0x9e,
        Instruction::IficmpEq(_) => 0x9f,
        Instruction::IficmpNe(_) => 0xa0,
        Instruction::IficmpLt(_) => 0xa1,
        Instruction::IficmpGe(_) => 0xa2,
        Instruction::IficmpGt(_) => 0xa3,
        Instruction::IficmpLe(_) => 0xa4,
        Instruction::IfacmpEq(_) => 0xa5,
        Instruction::IfacmpNe(_) => 0xa6,
        Instruction::Goto(_) => 0xa7,
        Instruction::TableSwitch { .. } => 0xaa,
        Instruction::LookupSwitch { .. } => 0xab,
        Instruction::Ireturn => 0xac,
        Instruction::Lreturn => 0xad,
        Instruction::Freturn => 0xae,
        Instruction::Dreturn => 0xaf,
        Instruction::Areturn => 0xb0,
        Instruction::Return => 0xb1,
        Instruction::GetStatic(_) => 0xb2,
        Instruction::PutStatic(_) => 0xb3,
        Instruction::GetField(_) => 0xb4,
        Instruction::PutField(_) => 0xb5,
        Instruction::InvokeVirtual(_) => 0xb6,
        Instruction::InvokeSpecial(_) => 0xb7,
        Instruction::InvokeStatic(_) => 0xb8,
        Instruction::InvokeInterface(_, _) => 0xb9,
        Instruction::InvokeDynamic(_) => 0xba,
        Instruction::New(_) => 0xbb,
        Instruction::NewArray(_) => 0xbc,
        Instruction::ANewArray(_) => 0xbd,
        Instruction::ArrayLength => 0xbe,
        Instruction::AThrow => 0xbf,
        Instruction::Wide(_) => 0xc4,
        Instruction::IfNull(_) => 0xc6,
        Instruction::IfNonNull(_) => 0xc7,
        Instruction::GotoW(_) => 0xc8,
    }
}

impl Instruction {
    /// The instruction of an opcode, its operands not yet read.
    pub fn from_opcode(opcode: u8) -> (r: Option<Instruction>)
        ensures
            r is Some ==> opcode_of(r->0) == opcode,
            r is None ==> forall|i: Instruction| opcode_of(i) != opcode,
    {
        match opcode {
            0x00 => Some(Instruction::Nop),
            0x01 => Some(Instruction::AconstNull),
            0x02 => Some(Instruction::IconstM1),
            0x03 => Some(Instruction::Iconst0),
            0x04 => Some(Instruction::Iconst1),
            0x05 => Some(Instruction::Iconst2),
            0x06 => Some(Instruction::Iconst3),
            0x07 => Some(Instruction::Iconst4),
            0x08 => Some(Instruction::Iconst5),
            0x09 => Some(Instruction::Lconst0),
            0x0a => Some(Instruction::Lconst1),
            0x0b => Some(Instruction::Fconst0),
            0x0c => Some(Instruction::Fconst1),
            0x0d => Some(Instruction::Fconst2),
            0x0e => Some(Instruction::Dconst0),
            0x0f => Some(Instruction::Dconst1),
            0x10 => Some(Instruction::Bipush(0)),
            0x11 => Some(Instruction::Sipush(0)),
            0x15 => Some(Instruction::Iload(0)),
            0x16 => Some(Instruction::Lload(0)),
            0x17 => Some(Instruction::Fload(0)),
            0x18 => Some(Instruction::Dload(0)),
            0x19 => Some(Instruction::Aload(0)),
            0x1a => Some(Instruction::Iload0),
            0x1b => Some(Instruction::Iload1),
            0x1c => Some(Instruction::Iload2),
            0x1d => Some(Instruction::Iload3),
            0x1e => Some(Instruction::Lload0),
            0x1f => Some(Instruction::Lload1),
            0x20 => Some(Instruction::Lload2),
            0x21 => Some(Instruction::Lload3),
            0x22 => Some(Instruction::Fload0),
            0x23 => Some(Instruction::Fload1),
            0x24 => Some(Instruction::Fload2),
            0x25 => Some(Instruction::Fload3),
            0x26 => Some(Instruction::Dload0),
            0x27 => Some(Instruction::Dload1),
            0x28 => Some(Instruction::Dload2),
            0x29 => Some(Instruction::Dload3),
            0x2a => Some(Instruction::Aload0),
            0x2b => Some(Instruction::Aload1),
            0x2c => Some(Instruction::Aload2),
            0x2d => Some(Instruction::Aload3),
            0x2e => Some(Instruction::Iaload),
            0x2f => Some(Instruction::Laload),
            0x30 => Some(Instruction::Faload),
            0x31 => Some(Instruction::Daload),
            0x32 => Some(Instruction::Aaload),
            0x36 => Some(Instruction::Istore(0)),
            0x37 => Some(Instruction::Lstore(0)),
            0x38 => Some(Instruction::Fstore(0)),
            0x39 => Some(Instruction::Dstore(0)),
            0x3a => Some(Instruction::Astore(0)),
            0x3b => Some(Instruction::Istore0),
            0x3c => Some(Instruction::Istore1),
            0x3d => Some(Instruction::Istore2),
            0x3e => Some(Instruction::Istore3),
            0x3f => Some(Instruction::Lstore0),
            0x40 => Some(Instruction::Lstore1),
            0x41 => Some(Instruction::Lstore2),
            0x42 => Some(Instruction::Lstore3),
            0x43 => Some(Instruction::Fstore0),
            0x44 => Some(Instruction::Fstore1),
            0x45 => Some(Instruction::Fstore2),
            0x46 => Some(Instruction::Fstore3),
            0x47 => Some(Instruction::Dstore0),
            0x48 => Some(Instruction::Dstore1),
            0x49 => Some(Instruction::Dstore2),
            0x4a => Some(Instruction::Dstore3),
            0x4b => Some(Instruction::Astore0),
            0x4c => Some(Instruction::Astore1),
            0x4d => Some(Instruction::Astore2),
            0x4e => Some(Instruction::Astore3),
            0x4f => Some(Instruction::Iastore),
            0x50 => Some(Instruction::Lastore),
            0x51 => Some(Instruction::Fastore),
            0x52 => Some(Instruction::Dastore),
            0x53 => Some(Instruction::Aastore),
            0x57 => Some(Instruction::Pop),
            0x58 => Some(Instruction::Pop2),
            0x59 => Some(Instruction::Dup),
            0x5a => Some(Instruction::DupX1),
            0x5b => Some(Instruction::DupX2),
            0x5c => Some(Instruction::Dup2),
            0x5d => Some(Instruction::Dup2X1),
            0x5e => Some(Instruction::Dup2X2),
            0x5f => Some(Instruction::Swap),
            0x60 => Some(Instruction::Iadd),
            0x61 => Some(Instruction::Ladd),
            0x62 => Some(Instruction::Fadd),
            0x63 => Some(Instruction::Dadd),
            0x64 => Some(Instruction::Isub),
            0x65 => Some(Instruction::Lsub),
            0x66 => Some(Instruction::Fsub),
            0x67 => Some(Instruction::Dsub),
            0x68 => Some(Instruction::Imul),
            0x69 => Some(Instruction::Lmul),
            0x6a => Some(Instruction::Fmul),
            0x6b => Some(Instruction::Dmul),
            0x6c => Some(Instruction::Idiv),
            0x6d => Some(Instruction::Ldiv),
            0x6e => Some(Instruction::Fdiv),
            0x6f => Some(Instruction::Ddiv),
            0x70 => Some(Instruction::Irem),
            0x71 => Some(Instruction::Lrem),
            0x72 => Some(Instruction::Frem),
            0x73 => Some(Instruction::Drem),
            0x74 => Some(Instruction::Ineg),
            0x75 => Some(Instruction::Lneg),
            0x76 => Some(Instruction::Fneg),
            0x77 => Some(Instruction::Dneg),
            0x78 => Some(Instruction::Ishl),
            0x79 => Some(Instruction::Lshl),
            0x7a => Some(Instruction::Ishr),
            0x7b => Some(Instruction::Lshr),
            0x7c => Some(Instruction::Iushr),
            0x7d => Some(Instruction::Lushr),
            0x7e => Some(Instruction::Iand),
            0x7f => Some(Instruction::Land),
            0x80 => Some(Instruction::Ior),
            0x81 => Some(Instruction::Lor),
            0x82 => Some(Instruction::IXor),
            0x83 => Some(Instruction::Lxor),
            0x84 => Some(Instruction::Iinc(0, 0)),
            0x85 => Some(Instruction::I2l),
            0x86 => Some(Instruction::I2f),
            0x87 => Some(Instruction::I2d),
            0x88 => Some(Instruction::L2i),
            0x89 => Some(Instruction::L2f),
            0x8a => Some(Instruction::L2d),
            0x8b => Some(Instruction::F2i),
            0x8c => Some(Instruction::F2l),
            0x8d => Some(Instruction::F2d),
            0x8e => Some(Instruction::D2i),
            0x8f => Some(Instruction::D2l),
            0x90 => Some(Instruction::D2f),
            0x94 => Some(Instruction::LCmp),
            0x95 => Some(Instruction::FCmpL),
            0x96 => Some(Instruction::FCmpG),
            0x97 => Some(Instruction::DCmpL),
            0x98 => Some(Instruction::DCmpG),
            0x99 => Some(Instruction::IfEq(0)),
            0x9a => Some(Instruction::IfNe(0)),
            0x9b => Some(Instruction::IfLt(0)),
            0x9c => Some(Instruction::IfGe(0)),
            0x9d => Some(Instruction::IfGt(0)),
            0x9e => Some(Instruction::IfLe(0)),
            0x9f => Some(Instruction::IficmpEq(0)),
            0xa0 => Some(Instruction::IficmpNe(0)),
            0xa1 => Some(Instruction::IficmpLt(0)),
            0xa2 => Some(Instruction::IficmpGe(0)),
            0xa3 => Some(Instruction::IficmpGt(0)),
            0xa4 => Some(Instruction::IficmpLe(0)),
            0xa5 => Some(Instruction::IfacmpEq(0)),
            0xa6 => Some(Instruction::IfacmpNe(0)),
            0xa7 => Some(Instruction::Goto(0)),
            0xaa => Some(Instruction::TableSwitch { default_offset: 0, low: 0, high: 0, offsets: Vec::new() }),
            0xab => Some(Instruction::LookupSwitch { default_offset: 0, npairs: 0, match_offsets: Vec::new() }),
            0xac => Some(Instruction::Ireturn),
            0xad => Some(Instruction::Lreturn),
            0xae => Some(Instruction::Freturn),
            0xaf => Some(Instruction::Dreturn),
            0xb0 => Some(Instruction::Areturn),
            0xb1 => Some(Instruction::Return),
            0xb2 => Some(Instruction::GetStatic(0)),
            0xb3 => Some(Instruction::PutStatic(0)),
            0xb4 => Some(Instruction::GetField(0)),
            0xb5 => Some(Instruction::PutField(0)),
            0xb6 => Some(Instruction::InvokeVirtual(0)),
            0xb7 => Some(Instruction::InvokeSpecial(0)),
            0xb8 => Some(Instruction::InvokeStatic(0)),
            0xb9 => Some(Instruction::InvokeInterface(0, 0)),
            0xba => Some(Instruction::InvokeDynamic(0)),
            0xbb => Some(Instruction::New(0)),
            0xbc => Some(Instruction::NewArray(0)),
            0xbd => Some(Instruction::ANewArray(0)),
            0xbe => Some(Instruction::ArrayLength),
            0xbf => Some(Instruction::AThrow),
            0xc4 => Some(Instruction::Wide(Box::new(Instruction::Nop))),
            0xc6 => Some(Instruction::IfNull(0)),
            0xc7 => Some(Instruction::IfNonNull(0)),
            0xc8 => Some(Instruction::GotoW(0)),
            _ => None,
        }
    }
}


/// The first multiple of four at or after `p`: where a switch's operands begin.
pub open spec fn align4(p: int) -> int {
    if p % 4 == 0 {
        p
    } else {
        p + (4 - p % 4)
    }
}

/// How many offsets a `tableswitch` from `low` to `high` holds.
pub open spec fn switch_count(low: i32, high: i32) -> int {
    if high >= low {
        high - low + 1
    } else {
        0
    }
}

pub open spec fn pair_count(npairs: i32) -> int {
    if npairs > 0 {
        npairs as int
    } else {
        0
    }
}

/// The opcodes that `wide` may prefix.
pub open spec fn wide_opcode(b: u8) -> bool {
    (0x15 <= b <= 0x19) || (0x36 <= b <= 0x3a) || b == 0x84
}

pub open spec fn table_end(code: Seq<u8>, pos: int) -> int {
    let p = align4(pos);
    if p + 12 <= code.len() {
        p + 12 + 4 * switch_count(be_u32(code, p + 4) as i32, be_u32(code, p + 8) as i32)
    } else {
        p + 12
    }
}

pub open spec fn lookup_end(code: Seq<u8>, pos: int) -> int {
    let p = align4(pos);
    if p + 8 <= code.len() {
        p + 8 + 8 * pair_count(be_u32(code, p + 4) as i32)
    } else {
        p + 8
    }
}

pub open spec fn wide_end(code: Seq<u8>, pos: int) -> int {
    if pos < code.len() && code[pos] == 0x84 {
        pos + 5
    } else {
        pos + 3
    }
}

/// Where the operands of an instruction of the kind of `ins`, starting at `pos`, end.
pub open spec fn operand_end(ins: Instruction, code: Seq<u8>, pos: int) -> int {
    match ins {
        Instruction::Bipush(_) | Instruction::Iload(_) | Instruction::Lload(_) | Instruction::Fload(_)
        | Instruction::Dload(_) | Instruction::Aload(_) | Instruction::Istore(_)
        | Instruction::Lstore(_) | Instruction::Fstore(_) | Instruction::Dstore(_)
        | Instruction::Astore(_) | Instruction::NewArray(_) => pos + 1,
        Instruction::Sipush(_) | Instruction::Iinc(_, _) | Instruction::IfEq(_) | Instruction::IfNe(_)
        | Instruction::IfLt(_) | Instruction::IfGe(_) | Instruction::IfGt(_) | Instruction::IfLe(_)
        | Instruction::IficmpEq(_) | Instruction::IficmpNe(_) | Instruction::IficmpLt(_)
        | Instruction::IficmpGe(_) | Instruction::IficmpGt(_) | Instruction::IficmpLe(_)
        | Instruction::IfacmpEq(_) | Instruction::IfacmpNe(_) | Instruction::Goto(_)
        | Instruction::IfNull(_) | Instruction::IfNonNull(_) | Instruction::GetStatic(_)
        | Instruction::PutStatic(_) | Instruction::GetField(_) | Instruction::PutField(_)
        | Instruction::InvokeVirtual(_) | Instruction::InvokeSpecial(_)
        | Instruction::InvokeStatic(_) | Instruction::New(_) | Instruction::ANewArray(_) => pos + 2,
        Instruction::GotoW(_) | Instruction::InvokeInterface(_, _) | Instruction::InvokeDynamic(_) => pos
            + 4,
        Instruction::TableSwitch { .. } => table_end(code, pos),
        Instruction::LookupSwitch { .. } => lookup_end(code, pos),
        Instruction::Wide(_) => wide_end(code, pos),
        _ => pos,
    }
}

/// The operands of `ins` are what the bytes from `pos` on say.
pub open spec fn operands_match(ins: Instruction, code: Seq<u8>, pos: int) -> bool {
    match ins {
        Instruction::Bipush(v) => v == code[pos] as i8,
        Instruction::Sipush(v) => v == be_u16(code, pos) as i16,
        Instruction::Iload(i) | Instruction::Lload(i) | Instruction::Fload(i) | Instruction::Dload(i)
        | Instruction::Aload(i) | Instruction::Istore(i) | Instruction::Lstore(i)
        | Instruction::Fstore(i) | Instruction::Dstore(i) | Instruction::Astore(i) => i
            == code[pos] as u16,
        Instruction::NewArray(t) => t == code[pos],
        Instruction::Iinc(i, c) => i == code[pos] as u16 && c == code[pos + 1] as i8 as i32,
        Instruction::IfEq(o) | Instruction::IfNe(o) | Instruction::IfLt(o) | Instruction::IfGe(o)
        | Instruction::IfGt(o) | Instruction::IfLe(o) | Instruction::IficmpEq(o)
        | Instruction::IficmpNe(o) | Instruction::IficmpLt(o) | Instruction::IficmpGe(o)
        | Instruction::IficmpGt(o) | Instruction::IficmpLe(o) | Instruction::IfacmpEq(o)
        | Instruction::IfacmpNe(o) | Instruction::Goto(o) | Instruction::IfNull(o)
        | Instruction::IfNonNull(o) => o == be_u16(code, pos) as i16,
        Instruction::GetStatic(i) | Instruction::PutStatic(i) | Instruction::GetField(i)
        | Instruction::PutField(i) | Instruction::InvokeVirtual(i) | Instruction::InvokeSpecial(i)
        | Instruction::InvokeStatic(i) | Instruction::New(i) | Instruction::ANewArray(i)
        | Instruction::InvokeDynamic(i) => i == be_u16(code, pos),
        Instruction::InvokeInterface(i, n) => i == be_u16(code, pos) && n == code[pos + 2],
        Instruction::GotoW(o) => o == be_u32(code, pos) as i32,
        Instruction::TableSwitch { default_offset, low, high, offsets } => {
            let p = align4(pos);
            &&& default_offset == be_u32(code, p) as i32
            &&& low == be_u32(code, p + 4) as i32
            &&& high == be_u32(code, p + 8) as i32
            &&& offsets@.len() == switch_count(low, high)
            &&& forall|j: int|
                0 <= j < offsets@.len() ==> offsets@[j] == be_u32(code, p + 12 + 4 * j) as i32
        },
        Instruction::LookupSwitch { default_offset, npairs, match_offsets } => {
            let p = align4(pos);
            &&& default_offset == be_u32(code, p) as i32
            &&& npairs == be_u32(code, p + 4) as i32
            &&& match_offsets@.len() == pair_count(npairs)
            &&& forall|j: int|
                0 <= j < match_offsets@.len() ==> match_offsets@[j] == (
                    be_u32(code, p + 8 + 8 * j) as i32,
                    be_u32(code, p + 12 + 8 * j) as i32,
                )
        },
        Instruction::Wide(inner) => code[pos] == opcode_of(*inner) && match *inner {
            Instruction::Iload(i) | Instruction::Lload(i) | Instruction::Fload(i)
            | Instruction::Dload(i) | Instruction::Aload(i) | Instruction::Istore(i)
            | Instruction::Lstore(i) | Instruction::Fstore(i) | Instruction::Dstore(i)
            | Instruction::Astore(i) => i == be_u16(code, pos + 1),
            Instruction::Iinc(i, c) => i == be_u16(code, pos + 1) && c == be_u16(code, pos + 3) as i16
                as i32,
            _ => false,
        },
        _ => true,
    }
}

/// The operands can be read: they lie within the code, and a `wide` prefixes what it may.
pub open spec fn operands_readable(ins: Instruction, code: Seq<u8>, pos: int) -> bool {
    &&& operand_end(ins, code, pos) <= code.len()
    &&& (ins is Wide ==> wide_opcode(code[pos]))
}


fn fetch_table(reader: &mut BytecodeReader) -> (r: Result<Instruction, VmError>)
    requires
        old(reader).pos() <= old(reader).code().len(),
    ensures
        final(reader).code() == old(reader).code(),
        r is Ok <==> table_end(old(reader).code(), old(reader).pos()) <= old(reader).code().len(),
        r is Ok ==> r->Ok_0 is TableSwitch && operands_match(r->Ok_0, old(reader).code(), old(reader).pos())
            && final(reader).pos() == table_end(old(reader).code(), old(reader).pos()),
        r is Err ==> r == Err::<Instruction, VmError>(VmError::TruncatedCode),
{
    let ghost code = reader.code();
    let len = reader.len();
    let pos = reader.pc();
    let pad = (4 - pos % 4) % 4;
    let rem = reader.remaining();
    if rem < 12 || rem - 12 < pad {
        return Err(VmError::TruncatedCode);
    }
    let p = pos + pad;
    assert(p == align4(pos as int));
    reader.seek(p);
    let default_offset = reader.read_i32();
    let low = reader.read_i32();
    let high = reader.read_i32();
    let count: u64 = if high >= low {
        (high as i64 - low as i64 + 1) as u64
    } else {
        0
    };
    assert(count == switch_count(low, high));
    if count > (reader.remaining() / 4) as u64 {
        return Err(VmError::TruncatedCode);
    }
    let mut offsets: Vec<i32> = Vec::new();
    let mut j: u64 = 0;
    while j < count
        invariant
            reader.code() == code,
            j <= count,
            4 * count <= code.len() - (p + 12),
            reader.pos() == p + 12 + 4 * j,
            offsets@.len() == j,
            forall|t: int| 0 <= t < j ==> offsets@[t] == be_u32(code, p + 12 + 4 * t) as i32,
        decreases count - j,
    {
        let o = reader.read_i32();
        offsets.push(o);
        j = j + 1;
    }
    Ok(Instruction::TableSwitch { default_offset, low, high, offsets })
}

fn fetch_lookup(reader: &mut BytecodeReader) -> (r: Result<Instruction, VmError>)
    requires
        old(reader).pos() <= old(reader).code().len(),
    ensures
        final(reader).code() == old(reader).code(),
        r is Ok <==> lookup_end(old(reader).code(), old(reader).pos()) <= old(reader).code().len(),
        r is Ok ==> r->Ok_0 is LookupSwitch && operands_match(r->Ok_0, old(reader).code(), old(reader).pos())
            && final(reader).pos() == lookup_end(old(reader).code(), old(reader).pos()),
        r is Err ==> r == Err::<Instruction, VmError>(VmError::TruncatedCode),
{
    let ghost code = reader.code();
    let len = reader.len();
    let pos = reader.pc();
    let pad = (4 - pos % 4) % 4;
    let rem = reader.remaining();
    if rem < 8 || rem - 8 < pad {
        return Err(VmError::TruncatedCode);
    }
    let p = pos + pad;
    assert(p == align4(pos as int));
    reader.seek(p);
    let default_offset = reader.read_i32();
    let npairs = reader.read_i32();
    let count: u64 = if npairs > 0 {
        npairs as u64
    } else {
        0
    };
    if count > (reader.remaining() / 8) as u64 {
        return Err(VmError::TruncatedCode);
    }
    let mut match_offsets: Vec<(i32, i32)> = Vec::new();
    let mut j: u64 = 0;
    while j < count
        invariant
            reader.code() == code,
            j <= count,
            count == pair_count(npairs),
            8 * count <= code.len() - (p + 8),
            reader.pos() == p + 8 + 8 * j,
            match_offsets@.len() == j,
            forall|t: int|
                0 <= t < j ==> match_offsets@[t] == (
                    be_u32(code, p + 8 + 8 * t) as i32,
                    be_u32(code, p + 12 + 8 * t) as i32,
                ),
        decreases count - j,
    {
        let m = reader.read_i32();
        let o = reader.read_i32();
        match_offsets.push((m, o));
        j = j + 1;
    }
    Ok(Instruction::LookupSwitch { default_offset, npairs, match_offsets })
}

fn fetch_wide(reader: &mut BytecodeReader) -> (r: Result<Instruction, VmError>)
    requires
        old(reader).pos() <= old(reader).code().len(),
    ensures
        final(reader).code() == old(reader).code(),
        r is Ok <==> wide_end(old(reader).code(), old(reader).pos()) <= old(reader).code().len()
            && wide_opcode(old(reader).code()[old(reader).pos()]),
        r is Ok ==> r->Ok_0 is Wide && operands_match(r->Ok_0, old(reader).code(), old(reader).pos())
            && final(reader).pos() == wide_end(old(reader).code(), old(reader).pos()),
        r matches Err(e) ==> e == VmError::TruncatedCode || e is UnsupportedOpcode,
{
    let rem = reader.remaining();
    if rem < 3 {
        return Err(VmError::TruncatedCode);
    }
    let opcode = reader.read_u8();
    if opcode == 0x84 {
        if rem < 5 {
            return Err(VmError::TruncatedCode);
        }
        let index = reader.read_u16();
        let c = reader.read_i16() as i32;
        return Ok(Instruction::Wide(Box::new(Instruction::Iinc(index, c))));
    }
    let inner = match opcode {
        0x15 => Instruction::Iload(reader.read_u16()),
        0x16 => Instruction::Lload(reader.read_u16()),
        0x17 => Instruction::Fload(reader.read_u16()),
        0x18 => Instruction::Dload(reader.read_u16()),
        0x19 => Instruction::Aload(reader.read_u16()),
        0x36 => Instruction::Istore(reader.read_u16()),
        0x37 => Instruction::Lstore(reader.read_u16()),
        0x38 => Instruction::Fstore(reader.read_u16()),
        0x39 => Instruction::Dstore(reader.read_u16()),
        0x3a => Instruction::Astore(reader.read_u16()),
        _ => {
            return Err(VmError::UnsupportedOpcode(opcode));
        },
    };
    Ok(Instruction::Wide(Box::new(inner)))
}


impl Instruction {
    /// Reads this instruction's operands, which follow its opcode in the code.
    pub fn fetch_operands(&mut self, reader: &mut BytecodeReader) -> (r: Result<(), VmError>)
        requires
            old(reader).pos() <= old(reader).code().len(),
        ensures
            final(reader).code() == old(reader).code(),
            r is Ok <==> operands_readable(*old(self), old(reader).code(), old(reader).pos()),
            r is Ok ==> opcode_of(*final(self)) == opcode_of(*old(self)) && operands_match(
                *final(self),
                old(reader).code(),
                old(reader).pos(),
            ) && final(reader).pos() == operand_end(*old(self), old(reader).code(), old(reader).pos())
                && final(reader).pos() == operand_end(*final(self), old(reader).code(), old(reader).pos())
                && operands_readable(*final(self), old(reader).code(), old(reader).pos()),
            r matches Err(e) ==> e == VmError::TruncatedCode || e is UnsupportedOpcode,
    {
        let rem = reader.remaining();
        let fetched = match &*self {
            Instruction::Bipush(_) => {
                if rem < 1 {
                    return Err(VmError::TruncatedCode);
                }
                Instruction::Bipush(reader.read_i8())
            },
            Instruction::Sipush(_) => {
                if rem < 2 {
                    return Err(VmError::TruncatedCode);
                }
                Instruction::Sipush(reader.read_i16())
            },
            Instruction::Iload(_) => {
                if rem < 1 {
                    return Err(VmError::TruncatedCode);
                }
                Instruction::Iload(reader.read_u8() as u16)
            },
            Instruction::Lload(_) => {
                if rem < 1 {
                    return Err(VmError::TruncatedCode);
                }
                Instruction::Lload(reader.read_u8() as u16)
            },
            Instruction::Fload(_) => {
                if rem < 1 {
                    return Err(VmError::TruncatedCode);
                }
                Instruction::Fload(reader.read_u8() as u16)
            },
            Instruction::Dload(_) => {
                if rem < 1 {
                    return Err(VmError::TruncatedCode);
                }
                Instruction::Dload(reader.read_u8() as u16)
            },
            Instruction::Aload(_) => {
                if rem < 1 {
                    return Err(VmError::TruncatedCode);
                }
                Instruction::Aload(reader.read_u8() as u16)
            },
            Instruction::Istore(_) => {
                if rem < 1 {
                    return Err(VmError::TruncatedCode);
                }
                Instruction::Istore(reader.read_u8() as u16)
            },
            Instruction::Lstore(_) => {
                if rem < 1 {
                    return Err(VmError::TruncatedCode);
                }
                Instruction::Lstore(reader.read_u8() as u16)
            },
            Instruction::Fstore(_) => {
                if rem < 1 {
                    return Err(VmError::TruncatedCode);
                }
                Instruction::Fstore(reader.read_u8() as u16)
            },
            Instruction::Dstore(_) => {
                if rem < 1 {
                    return Err(VmError::TruncatedCode);
                }
                Instruction::Dstore(reader.read_u8() as u16)
            },
            Instruction::Astore(_) => {
                if rem < 1 {
                    return Err(VmError::TruncatedCode);
                }
                Instruction::Astore(reader.read_u8() as u16)
            },
            Instruction::NewArray(_) => {
                if rem < 1 {
                    return Err(VmError::TruncatedCode);
                }
                Instruction::NewArray(reader.read_u8())
            },
            Instruction::Iinc(_, _) => {
                if rem < 2 {
                    return Err(VmError::TruncatedCode);
                }
                let i = reader.read_u8() as u16;
                let c = reader.read_i8() as i32;
                Instruction::Iinc(i, c)
            },
            Instruction::IfEq(_) => {
                if rem < 2 {
                    return Err(VmError::TruncatedCode);
                }
                Instruction::IfEq(reader.read_i16())
            },
            Instruction::IfNe(_) => {
                if rem < 2 {
                    return Err(VmError::TruncatedCode);
                }
                Instruction::IfNe(reader.read_i16())
            },
            Instruction::IfLt(_) => {
                if rem < 2 {
                    return Err(VmError::TruncatedCode);
                }
                Instruction::IfLt(reader.read_i16())
            },
            Instruction::IfGe(_) => {
                if rem < 2 {
                    return Err(VmError::TruncatedCode);
                }
                Instruction::IfGe(reader.read_i16())
            },
            Instruction::IfGt(_) => {
                if rem < 2 {
                    return Err(VmError::TruncatedCode);
                }
                Instruction::IfGt(reader.read_i16())
            },
            Instruction::IfLe(_) => {
                if rem < 2 {
                    return Err(VmError::TruncatedCode);
                }
                Instruction::IfLe(reader.read_i16())
            },
            Instruction::IficmpEq(_) => {
                if rem < 2 {
                    return Err(VmError::TruncatedCode);
                }
                Instruction::IficmpEq(reader.read_i16())
            },
            Instruction::IficmpNe(_) => {
                if rem < 2 {
                    return Err(VmError::TruncatedCode);
                }
                Instruction::IficmpNe(reader.read_i16())
            },
            Instruction::IficmpLt(_) => {
                if rem < 2 {
                    return Err(VmError::TruncatedCode);
                }
                Instruction::IficmpLt(reader.read_i16())
            },
            Instruction::IficmpGe(_) => {
                if rem < 2 {
                    return Err(VmError::TruncatedCode);
                }
                Instruction::IficmpGe(reader.read_i16())
            },
            Instruction::IficmpGt(_) => {
                if rem < 2 {
                    return Err(VmError::TruncatedCode);
                }
                Instruction::IficmpGt(reader.read_i16())
            },
            Instruction::IficmpLe(_) => {
                if rem < 2 {
                    return Err(VmError::TruncatedCode);
                }
                Instruction::IficmpLe(reader.read_i16())
            },
            Instruction::IfacmpEq(_) => {
                if rem < 2 {
                    return Err(VmError::TruncatedCode);
                }
                Instruction::IfacmpEq(reader.read_i16())
            },
            Instruction::IfacmpNe(_) => {
                if rem < 2 {
                    return Err(VmError::TruncatedCode);
                }
                Instruction::IfacmpNe(reader.read_i16())
            },
            Instruction::Goto(_) => {
                if rem < 2 {
                    return Err(VmError::TruncatedCode);
                }
                Instruction::Goto(reader.read_i16())
            },
            Instruction::IfNull(_) => {
                if rem < 2 {
                    return Err(VmError::TruncatedCode);
                }
                Instruction::IfNull(reader.read_i16())
            },
            Instruction::IfNonNull(_) => {
                if rem < 2 {
                    return Err(VmError::TruncatedCode);
                }
                Instruction::IfNonNull(reader.read_i16())
            },
            Instruction::GetStatic(_) => {
                if rem < 2 {
                    return Err(VmError::TruncatedCode);
                }
                Instruction::GetStatic(reader.read_u16())
            },
            Instruction::PutStatic(_) => {
                if rem < 2 {
                    return Err(VmError::TruncatedCode);
                }
                Instruction::PutStatic(reader.read_u16())
            },
            Instruction::GetField(_) => {
                if rem < 2 {
                    return Err(VmError::TruncatedCode);
                }
                Instruction::GetField(reader.read_u16())
            },
            Instruction::PutField(_) => {
                if rem < 2 {
                    return Err(VmError::TruncatedCode);
                }
                Instruction::PutField(reader.read_u16())
            },
            Instruction::InvokeVirtual(_) => {
                if rem < 2 {
                    return Err(VmError::TruncatedCode);
                }
                Instruction::InvokeVirtual(reader.read_u16())
            },
            Instruction::InvokeSpecial(_) => {
                if rem < 2 {
                    return Err(VmError::TruncatedCode);
                }
                Instruction::InvokeSpecial(reader.read_u16())
            },
            Instruction::InvokeStatic(_) => {
                if rem < 2 {
                    return Err(VmError::TruncatedCode);
                }
                Instruction::InvokeStatic(reader.read_u16())
            },
            Instruction::New(_) => {
                if rem < 2 {
                    return Err(VmError::TruncatedCode);
                }
                Instruction::New(reader.read_u16())
            },
            Instruction::ANewArray(_) => {
                if rem < 2 {
                    return Err(VmError::TruncatedCode);
                }
                Instruction::ANewArray(reader.read_u16())
            },
            Instruction::InvokeDynamic(_) => {
                if rem < 4 {
                    return Err(VmError::TruncatedCode);
                }
                let i = reader.read_u16();
                reader.read_u16();
                Instruction::InvokeDynamic(i)
            },
            Instruction::InvokeInterface(_, _) => {
                if rem < 4 {
                    return Err(VmError::TruncatedCode);
                }
                let i = reader.read_u16();
                let n = reader.read_u8();
                reader.read_u8();
                Instruction::InvokeInterface(i, n)
            },
            Instruction::GotoW(_) => {
                if rem < 4 {
                    return Err(VmError::TruncatedCode);
                }
                Instruction::GotoW(reader.read_i32())
            },
            Instruction::TableSwitch { .. } => fetch_table(reader)?,
            Instruction::LookupSwitch { .. } => fetch_lookup(reader)?,
            Instruction::Wide(_) => fetch_wide(reader)?,
            _ => {
                return Ok(());
            },
        };
        *self = fetched;
        Ok(())
    }
}

} // verus!
