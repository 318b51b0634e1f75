use vstd::prelude::*;

use crate::arith::{
    cond, cond_holds, dcmp_bits, dcmp_value, fcmp_bits, fcmp_value, int_op, int_op_value,
    is_division, is_shift, lcmp, lcmp_value, long_op, long_op_value, wrap32, wrap64, Cond, IntOp,
};
use crate::runtime_data_area::{
    hi_word, int_slot, join_words, lo_word, ref_slot, Frame, Slot, VmError,
};

verus! {

/// One decoded instruction: an opcode together with the operands that follow it.
#[derive(Debug)]
pub enum Instruction {
    Nop,
    AconstNull,
    IconstM1,
    Iconst0,
    Iconst1,
    Iconst2,
    Iconst3,
    Iconst4,
    Iconst5,
    Lconst0,
    Lconst1,
    Fconst0,
    Fconst1,
    Fconst2,
    Dconst0,
    Dconst1,
    Bipush(i8),
    Sipush(i16),
    Iload(u16),
    Iload0,
    Iload1,
    Iload2,
    Iload3,
    Lload(u16),
    Lload0,
    Lload1,
    Lload2,
    Lload3,
    Fload(u16),
    Fload0,
    Fload1,
    Fload2,
    Fload3,
    Dload(u16),
    Dload0,
    Dload1,
    Dload2,
    Dload3,
    Aload(u16),
    Aload0,
    Aload1,
    Aload2,
    Aload3,
    Iaload,
    Laload,
    Faload,
    Daload,
    Aaload,
    Istore(u16),
    Istore0,
    Istore1,
    Istore2,
    Istore3,
    Lstore(u16),
    Lstore0,
    Lstore1,
    Lstore2,
    Lstore3,
    Fstore(u16),
    Fstore0,
    Fstore1,
    Fstore2,
    Fstore3,
    Dstore(u16),
    Dstore0,
    Dstore1,
    Dstore2,
    Dstore3,
    Astore(u16),
    Astore0,
    Astore1,
    Astore2,
    Astore3,
    Iastore,
    Lastore,
    Fastore,
    Dastore,
    Aastore,
    Pop,
    Pop2,
    Dup,
    DupX1,
    DupX2,
    Dup2,
    Dup2X1,
    Dup2X2,
    Swap,
    Iadd,
    Ladd,
    Fadd,
    Dadd,
    Isub,
    Lsub,
    Fsub,
    Dsub,
    Imul,
    Lmul,
    Fmul,
    Dmul,
    Idiv,
    Ldiv,
    Fdiv,
    Ddiv,
    Irem,
    Lrem,
    Frem,
    Drem,
    Ineg,
    Lneg,
    Fneg,
    Dneg,
    Ishl,
    Lshl,
    Ishr,
    Lshr,
    Iushr,
    Lushr,
    Iand,
    Land,
    Ior,
    Lor,
    IXor,
    Lxor,
    Iinc(u16, i32),
    I2l,
    I2f,
    I2d,
    L2i,
    L2f,
    L2d,
    F2i,
    F2l,
    F2d,
    D2i,
    D2l,
    D2f,
    LCmp,
    FCmpL,
    FCmpG,
    DCmpL,
    DCmpG,
    IfEq(i16),
    IfNe(i16),
    IfLt(i16),
    IfGe(i16),
    IfGt(i16),
    IfLe(i16),
    IficmpEq(i16),
    IficmpNe(i16),
    IficmpLt(i16),
    IficmpGe(i16),
    IficmpGt(i16),
    IficmpLe(i16),
    IfacmpEq(i16),
    IfacmpNe(i16),
    Goto(i16),
    TableSwitch { default_offset: i32, low: i32, high: i32, offsets: Vec<i32> },
    LookupSwitch { default_offset: i32, npairs: i32, match_offsets: Vec<(i32, i32)> },
    Ireturn,
    Lreturn,
    Freturn,
    Dreturn,
    Areturn,
    Return,
    GetStatic(u16),
    PutStatic(u16),
    GetField(u16),
    PutField(u16),
    InvokeVirtual(u16),
    InvokeSpecial(u16),
    InvokeStatic(u16),
    InvokeInterface(u16, u8),
    InvokeDynamic(u16),
    New(u16),
    NewArray(u8),
    ANewArray(u16),
    ArrayLength,
    AThrow,
    Wide(Box<Instruction>),
    IfNull(i16),
    IfNonNull(i16),
    GotoW(i32),
}

/// The arithmetic that floating-point instructions ask of their caller.
#[derive(Clone, Copy, PartialEq, Eq, Structural, Debug)]
pub enum FloatOp {
    Add,
    Sub,
    Mul,
    Div,
    Rem,
}

/// A conversion that involves a floating-point type.
#[derive(Clone, Copy, PartialEq, Eq, Structural, Debug)]
pub enum Conversion {
    I2f,
    I2d,
    L2f,
    L2d,
    F2i,
    F2l,
    F2d,
    D2i,
    D2l,
    D2f,
}

/// Floating-point work that the frame is waiting for: its operands have been popped (as
/// bit patterns), and the operand stack has room for the result.
#[derive(Clone, Copy, PartialEq, Eq, Structural, Debug)]
pub enum FloatRequest {
    Float(FloatOp, u32, u32),
    Double(FloatOp, u64, u64),
    /// The operand is the int or long value, or the bit pattern of the float or double.
    Convert(Conversion, i64),
}

/// What the caller is to do once an instruction has executed.
#[derive(Clone, Copy, PartialEq, Eq, Structural, Debug)]
pub enum Effect {
    /// Go on with the instruction at the frame's next pc.
    Next,
    /// The method returned; its result, if any, is on top of the operand stack.
    Return,
    /// Carry out the floating-point work, push its result, and go on.
    Float(FloatRequest),
    /// The instruction needs the class linker or the heap.
    Link,
}

/// The type through which a load or store reads or writes local variables.
#[derive(Clone, Copy, PartialEq, Eq, Structural, Debug)]
pub enum Kind {
    Int,
    Long,
    Float,
    Double,
    Ref,
}

/// The state of a frame that instructions read and change.
pub ghost struct FrameState {
    pub locals: Seq<Slot>,
    pub stack: Seq<Slot>,
    pub cap: nat,
    pub next_pc: int,
}

pub open spec fn state(f: Frame) -> FrameState {
    FrameState {
        locals: f.local_vars@,
        stack: f.operand_stack@,
        cap: f.operand_stack.capacity(),
        next_pc: f.next_pc as int,
    }
}

/// The call that produced `r` took the frame from `before` to `after` as `expected` says.
pub open spec fn outcome(
    expected: Result<(FrameState, Effect), VmError>,
    before: Frame,
    after: Frame,
    r: Result<Effect, VmError>,
) -> bool {
    &&& after.lower == before.lower
    &&& after.thread == before.thread
    &&& after.operand_stack.capacity() == before.operand_stack.capacity()
    &&& match expected {
        Ok((st, e)) => r == Ok::<Effect, VmError>(e) && state(after) == st,
        Err(err) => r == Err::<Effect, VmError>(err),
    }
}

pub open spec fn width(k: Kind) -> nat {
    match k {
        Kind::Long | Kind::Double => 2,
        _ => 1,
    }
}

// ---- the operand stack as the instructions see it ----

/// The slot `depth` places below the top of the stack.
pub open spec fn top(s: FrameState, depth: int) -> Slot {
    s.stack[s.stack.len() - 1 - depth]
}

/// The long whose high word lies `depth` places below the top, its low word just below.
pub open spec fn long_at(s: FrameState, depth: int) -> i64 {
    join_words(top(s, depth + 1).num, top(s, depth).num)
}

pub open spec fn long_slots(v: i64) -> Seq<Slot> {
    seq![int_slot(lo_word(v)), int_slot(hi_word(v))]
}

/// What stops an instruction that pops `pops` slots and then pushes `pushes`.
pub open spec fn stack_fault(s: FrameState, pops: int, pushes: int) -> Option<VmError> {
    if s.stack.len() < pops {
        Some(VmError::OperandStackUnderflow)
    } else if s.stack.len() - pops + pushes > s.cap {
        Some(VmError::OperandStackOverflow)
    } else {
        None
    }
}

/// The state after `pops` slots are popped and `vals` pushed.
pub open spec fn replace_top(s: FrameState, pops: int, vals: Seq<Slot>) -> FrameState {
    FrameState { stack: s.stack.subrange(0, s.stack.len() - pops) + vals, ..s }
}

pub open spec fn transform(s: FrameState, pops: int, vals: Seq<Slot>) -> Result<
    (FrameState, Effect),
    VmError,
> {
    match stack_fault(s, pops, vals.len() as int) {
        Some(e) => Err(e),
        None => Ok((replace_top(s, pops, vals), Effect::Next)),
    }
}

/// Control goes to `pc + offset`, where `pc` is the address of the branching opcode.
pub open spec fn branch_to(s: FrameState, pc: int, offset: int) -> Result<
    (FrameState, Effect),
    VmError,
> {
    if 0 <= pc + offset <= usize::MAX {
        Ok((FrameState { next_pc: pc + offset, ..s }, Effect::Next))
    } else {
        Err(VmError::BranchOutOfRange)
    }
}


pub open spec fn loaded(k: Kind, l: Seq<Slot>, i: int) -> Seq<Slot> {
    match k {
        Kind::Long | Kind::Double => seq![int_slot(l[i].num), int_slot(l[i + 1].num)],
        Kind::Ref => seq![ref_slot(l[i].objref)],
        _ => seq![int_slot(l[i].num)],
    }
}

/// A load pushes local `i` (and `i + 1` for a long or double) through type `k`.
pub open spec fn load_spec(k: Kind, i: int, s: FrameState) -> Result<(FrameState, Effect), VmError> {
    match stack_fault(s, 0, width(k) as int) {
        Some(e) => Err(e),
        None => if i + width(k) > s.locals.len() {
            Err(VmError::LocalOutOfRange)
        } else {
            Ok((replace_top(s, 0, loaded(k, s.locals, i)), Effect::Next))
        },
    }
}

pub open spec fn stored(k: Kind, s: FrameState, i: int) -> Seq<Slot> {
    match k {
        Kind::Long | Kind::Double => s.locals.update(i, int_slot(top(s, 1).num)).update(
            i + 1,
            int_slot(top(s, 0).num),
        ),
        Kind::Ref => s.locals.update(i, ref_slot(top(s, 0).objref)),
        _ => s.locals.update(i, int_slot(top(s, 0).num)),
    }
}

/// A store pops a value of type `k` into local `i` (and `i + 1` for a long or double).
pub open spec fn store_spec(k: Kind, i: int, s: FrameState) -> Result<(FrameState, Effect), VmError> {
    match stack_fault(s, width(k) as int, 0) {
        Some(e) => Err(e),
        None => if i + width(k) > s.locals.len() {
            Err(VmError::LocalOutOfRange)
        } else {
            Ok(
                (
                    FrameState { locals: stored(k, s, i), ..replace_top(s, width(k) as int, seq![]) },
                    Effect::Next,
                ),
            )
        },
    }
}

pub open spec fn int_binop_spec(op: IntOp, s: FrameState) -> Result<(FrameState, Effect), VmError> {
    match stack_fault(s, 2, 1) {
        Some(e) => Err(e),
        None => if is_division(op) && top(s, 0).num == 0 {
            Err(VmError::DivideByZero)
        } else {
            Ok(
                (
                    replace_top(s, 2, seq![int_slot(int_op_value(op, top(s, 1).num, top(s, 0).num))]),
                    Effect::Next,
                ),
            )
        },
    }
}

/// The operands of a long instruction: two longs, or a long and an int shift amount.
pub open spec fn long_pops(op: IntOp) -> int {
    if is_shift(op) {
        3
    } else {
        4
    }
}

pub open spec fn long_rhs(op: IntOp, s: FrameState) -> i64 {
    if is_shift(op) {
        top(s, 0).num as i64
    } else {
        long_at(s, 0)
    }
}

pub open spec fn long_binop_spec(op: IntOp, s: FrameState) -> Result<(FrameState, Effect), VmError> {
    match stack_fault(s, long_pops(op), 2) {
        Some(e) => Err(e),
        None => if is_division(op) && long_rhs(op, s) == 0 {
            Err(VmError::DivideByZero)
        } else {
            Ok(
                (
                    replace_top(
                        s,
                        long_pops(op),
                        long_slots(long_op_value(op, long_at(s, long_pops(op) - 2), long_rhs(op, s))),
                    ),
                    Effect::Next,
                ),
            )
        },
    }
}

/// Floating-point arithmetic pops its operands and hands them to the caller.
pub open spec fn float_spec(op: FloatOp, s: FrameState) -> Result<(FrameState, Effect), VmError> {
    match stack_fault(s, 2, 1) {
        Some(e) => Err(e),
        None => Ok(
            (
                replace_top(s, 2, seq![]),
                Effect::Float(FloatRequest::Float(op, top(s, 1).num as u32, top(s, 0).num as u32)),
            ),
        ),
    }
}

pub open spec fn double_spec(op: FloatOp, s: FrameState) -> Result<(FrameState, Effect), VmError> {
    match stack_fault(s, 4, 2) {
        Some(e) => Err(e),
        None => Ok(
            (
                replace_top(s, 4, seq![]),
                Effect::Float(FloatRequest::Double(op, long_at(s, 2) as u64, long_at(s, 0) as u64)),
            ),
        ),
    }
}

/// The slots a conversion pops, and the slots its result takes.
pub open spec fn conversion_widths(c: Conversion) -> (int, int) {
    match c {
        Conversion::I2f => (1, 1),
        Conversion::I2d => (1, 2),
        Conversion::L2f => (2, 1),
        Conversion::L2d => (2, 2),
        Conversion::F2i => (1, 1),
        Conversion::F2l => (1, 2),
        Conversion::F2d => (1, 2),
        Conversion::D2i => (2, 1),
        Conversion::D2l => (2, 2),
        Conversion::D2f => (2, 1),
    }
}

pub open spec fn conversion_operand(c: Conversion, s: FrameState) -> i64 {
    match c {
        Conversion::I2f | Conversion::I2d => top(s, 0).num as i64,
        Conversion::F2i | Conversion::F2l | Conversion::F2d => (top(s, 0).num as u32) as i64,
        _ => long_at(s, 0),
    }
}

pub open spec fn convert_spec(c: Conversion, s: FrameState) -> Result<(FrameState, Effect), VmError> {
    match stack_fault(s, conversion_widths(c).0, conversion_widths(c).1) {
        Some(e) => Err(e),
        None => Ok(
            (
                replace_top(s, conversion_widths(c).0, seq![]),
                Effect::Float(FloatRequest::Convert(c, conversion_operand(c, s))),
            ),
        ),
    }
}

/// A float negated: its sign bit flipped.
pub open spec fn flip_sign(v: i32) -> i32 {
    ((v as u32) ^ 0x8000_0000u32) as i32
}

pub open spec fn iinc_spec(i: int, c: i32, s: FrameState) -> Result<(FrameState, Effect), VmError> {
    if i >= s.locals.len() {
        Err(VmError::LocalOutOfRange)
    } else {
        Ok(
            (
                FrameState {
                    locals: s.locals.update(i, int_slot(wrap32(s.locals[i].num + c))),
                    ..s
                },
                Effect::Next,
            ),
        )
    }
}

/// A conditional branch pops `pops` slots and then branches when `taken` holds.
pub open spec fn cond_branch_spec(pops: int, taken: bool, offset: int, s: FrameState, pc: int) -> Result<
    (FrameState, Effect),
    VmError,
> {
    match stack_fault(s, pops, 0) {
        Some(e) => Err(e),
        None => if taken {
            branch_to(replace_top(s, pops, seq![]), pc, offset)
        } else {
            Ok((replace_top(s, pops, seq![]), Effect::Next))
        },
    }
}

/// The offset paired with the first match of `k`.
pub open spec fn first_match(pairs: Seq<(i32, i32)>, k: i32) -> Option<i32>
    decreases pairs.len(),
{
    if pairs.len() == 0 {
        None
    } else if pairs[0].0 == k {
        Some(pairs[0].1)
    } else {
        first_match(pairs.drop_first(), k)
    }
}

pub open spec fn table_offset(default: i32, low: i32, high: i32, offsets: Seq<i32>, k: i32) -> i32 {
    if low <= k <= high && k - low < offsets.len() {
        offsets[k - low]
    } else {
        default
    }
}

pub open spec fn lookup_offset(default: i32, pairs: Seq<(i32, i32)>, k: i32) -> i32 {
    match first_match(pairs, k) {
        Some(o) => o,
        None => default,
    }
}

/// What `pop`, `dup`, `swap` and their kin do to the operand stack.
pub open spec fn stack_op_spec(ins: Instruction, s: FrameState) -> Result<(FrameState, Effect), VmError> {
    match ins {
        Instruction::Pop => transform(s, 1, seq![]),
        Instruction::Pop2 => transform(s, 2, seq![]),
        Instruction::Dup => transform(s, 1, seq![top(s, 0), top(s, 0)]),
        Instruction::DupX1 => transform(s, 2, seq![top(s, 0), top(s, 1), top(s, 0)]),
        Instruction::DupX2 => transform(s, 3, seq![top(s, 0), top(s, 2), top(s, 1), top(s, 0)]),
        Instruction::Dup2 => transform(s, 2, seq![top(s, 1), top(s, 0), top(s, 1), top(s, 0)]),
        Instruction::Dup2X1 => transform(
            s,
            3,
            seq![top(s, 1), top(s, 0), top(s, 2), top(s, 1), top(s, 0)],
        ),
        Instruction::Dup2X2 => transform(
            s,
            4,
            seq![top(s, 1), top(s, 0), top(s, 3), top(s, 2), top(s, 1), top(s, 0)],
        ),
        Instruction::Swap => transform(s, 2, seq![top(s, 0), top(s, 1)]),
        _ => Err(VmError::UnsupportedOpcode(0)),
    }
}

/// What negations, int-long conversions and comparisons do to the operand stack.
pub open spec fn compute_spec(ins: Instruction, s: FrameState) -> Result<(FrameState, Effect), VmError> {
    match ins {
        Instruction::Ineg => transform(s, 1, seq![int_slot(wrap32(-top(s, 0).num))]),
        Instruction::Lneg => transform(s, 2, long_slots(wrap64(-long_at(s, 0)))),
        Instruction::Fneg => transform(s, 1, seq![int_slot(flip_sign(top(s, 0).num))]),
        Instruction::Dneg => transform(
            s,
            2,
            seq![int_slot(top(s, 1).num), int_slot(flip_sign(top(s, 0).num))],
        ),
        Instruction::I2l => transform(s, 1, long_slots(top(s, 0).num as i64)),
        Instruction::L2i => transform(s, 2, seq![int_slot(top(s, 1).num)]),
        Instruction::LCmp => transform(s, 4, seq![int_slot(lcmp_value(long_at(s, 2), long_at(s, 0)))]),
        Instruction::FCmpL => transform(
            s,
            2,
            seq![int_slot(fcmp_value(top(s, 1).num as u32, top(s, 0).num as u32, false))],
        ),
        Instruction::FCmpG => transform(
            s,
            2,
            seq![int_slot(fcmp_value(top(s, 1).num as u32, top(s, 0).num as u32, true))],
        ),
        Instruction::DCmpL => transform(
            s,
            4,
            seq![int_slot(dcmp_value(long_at(s, 2) as u64, long_at(s, 0) as u64, false))],
        ),
        Instruction::DCmpG => transform(
            s,
            4,
            seq![int_slot(dcmp_value(long_at(s, 2) as u64, long_at(s, 0) as u64, true))],
        ),
        _ => Err(VmError::UnsupportedOpcode(0)),
    }
}

/// What branches and switches do, their opcode at `pc`.
pub open spec fn jump_spec(ins: Instruction, s: FrameState, pc: int) -> Result<(FrameState, Effect), VmError> {
    match ins {
        Instruction::IfEq(o) => cond_branch_spec(1, cond_holds(Cond::Eq, top(s, 0).num, 0), o as int, s, pc),
        Instruction::IfNe(o) => cond_branch_spec(1, cond_holds(Cond::Ne, top(s, 0).num, 0), o as int, s, pc),
        Instruction::IfLt(o) => cond_branch_spec(1, cond_holds(Cond::Lt, top(s, 0).num, 0), o as int, s, pc),
        Instruction::IfGe(o) => cond_branch_spec(1, cond_holds(Cond::Ge, top(s, 0).num, 0), o as int, s, pc),
        Instruction::IfGt(o) => cond_branch_spec(1, cond_holds(Cond::Gt, top(s, 0).num, 0), o as int, s, pc),
        Instruction::IfLe(o) => cond_branch_spec(1, cond_holds(Cond::Le, top(s, 0).num, 0), o as int, s, pc),
        Instruction::IficmpEq(o) => cond_branch_spec(2, cond_holds(Cond::Eq, top(s, 1).num, top(s, 0).num), o as int, s, pc),
        Instruction::IficmpNe(o) => cond_branch_spec(2, cond_holds(Cond::Ne, top(s, 1).num, top(s, 0).num), o as int, s, pc),
        Instruction::IficmpLt(o) => cond_branch_spec(2, cond_holds(Cond::Lt, top(s, 1).num, top(s, 0).num), o as int, s, pc),
        Instruction::IficmpGe(o) => cond_branch_spec(2, cond_holds(Cond::Ge, top(s, 1).num, top(s, 0).num), o as int, s, pc),
        Instruction::IficmpGt(o) => cond_branch_spec(2, cond_holds(Cond::Gt, top(s, 1).num, top(s, 0).num), o as int, s, pc),
        Instruction::IficmpLe(o) => cond_branch_spec(2, cond_holds(Cond::Le, top(s, 1).num, top(s, 0).num), o as int, s, pc),
        Instruction::IfacmpEq(o) => cond_branch_spec(2, top(s, 1).objref == top(s, 0).objref, o as int, s, pc),
        Instruction::IfacmpNe(o) => cond_branch_spec(2, top(s, 1).objref != top(s, 0).objref, o as int, s, pc),
        Instruction::IfNull(o) => cond_branch_spec(1, top(s, 0).objref is None, o as int, s, pc),
        Instruction::IfNonNull(o) => cond_branch_spec(1, top(s, 0).objref is Some, o as int, s, pc),
        Instruction::Goto(o) => branch_to(s, pc, o as int),
        Instruction::GotoW(o) => branch_to(s, pc, o as int),
        Instruction::TableSwitch { default_offset, low, high, offsets } => cond_branch_spec(
            1,
            true,
            table_offset(default_offset, low, high, offsets@, top(s, 0).num) as int,
            s,
            pc,
        ),
        Instruction::LookupSwitch { default_offset, npairs, match_offsets } => cond_branch_spec(
            1,
            true,
            lookup_offset(default_offset, match_offsets@, top(s, 0).num) as int,
            s,
            pc,
        ),
        _ => Err(VmError::UnsupportedOpcode(0)),
    }
}

/// What an instruction other than `wide` does to a frame, its opcode at `pc`.
pub open spec fn step_base(ins: Instruction, s: FrameState, pc: int) -> Result<
    (FrameState, Effect),
    VmError,
> {
    match ins {
        Instruction::Nop => Ok((s, Effect::Next)),
        Instruction::AconstNull => transform(s, 0, seq![ref_slot(None)]),
        Instruction::IconstM1 => transform(s, 0, seq![int_slot(-1i32)]),
        Instruction::Iconst0 => transform(s, 0, seq![int_slot(0)]),
        Instruction::Iconst1 => transform(s, 0, seq![int_slot(1)]),
        Instruction::Iconst2 => transform(s, 0, seq![int_slot(2)]),
        Instruction::Iconst3 => transform(s, 0, seq![int_slot(3)]),
        Instruction::Iconst4 => transform(s, 0, seq![int_slot(4)]),
        Instruction::Iconst5 => transform(s, 0, seq![int_slot(5)]),
        Instruction::Lconst0 => transform(s, 0, long_slots(0)),
        Instruction::Lconst1 => transform(s, 0, long_slots(1)),
        Instruction::Fconst0 => transform(s, 0, seq![int_slot(0)]),
        Instruction::Fconst1 => transform(s, 0, seq![int_slot(0x3f80_0000)]),
        Instruction::Fconst2 => transform(s, 0, seq![int_slot(0x4000_0000)]),
        Instruction::Dconst0 => transform(s, 0, long_slots(0)),
        Instruction::Dconst1 => transform(s, 0, long_slots(0x3ff0_0000_0000_0000)),
        Instruction::Bipush(v) => transform(s, 0, seq![int_slot(v as i32)]),
        Instruction::Sipush(v) => transform(s, 0, seq![int_slot(v as i32)]),
        Instruction::Iload(i) => load_spec(Kind::Int, i as int, s),
        Instruction::Iload0 => load_spec(Kind::Int, 0, s),
        Instruction::Iload1 => load_spec(Kind::Int, 1, s),
        Instruction::Iload2 => load_spec(Kind::Int, 2, s),
        Instruction::Iload3 => load_spec(Kind::Int, 3, s),
        Instruction::Lload(i) => load_spec(Kind::Long, i as int, s),
        Instruction::Lload0 => load_spec(Kind::Long, 0, s),
        Instruction::Lload1 => load_spec(Kind::Long, 1, s),
        Instruction::Lload2 => load_spec(Kind::Long, 2, s),
        Instruction::Lload3 => load_spec(Kind::Long, 3, s),
        Instruction::Fload(i) => load_spec(Kind::Float, i as int, s),
        Instruction::Fload0 => load_spec(Kind::Float, 0, s),
        Instruction::Fload1 => load_spec(Kind::Float, 1, s),
        Instruction::Fload2 => load_spec(Kind::Float, 2, s),
        Instruction::Fload3 => load_spec(Kind::Float, 3, s),
        Instruction::Dload(i) => load_spec(Kind::Double, i as int, s),
        Instruction::Dload0 => load_spec(Kind::Double, 0, s),
        Instruction::Dload1 => load_spec(Kind::Double, 1, s),
        Instruction::Dload2 => load_spec(Kind::Double, 2, s),
        Instruction::Dload3 => load_spec(Kind::Double, 3, s),
        Instruction::Aload(i) => load_spec(Kind::Ref, i as int, s),
        Instruction::Aload0 => load_spec(Kind::Ref, 0, s),
        Instruction::Aload1 => load_spec(Kind::Ref, 1, s),
        Instruction::Aload2 => load_spec(Kind::Ref, 2, s),
        Instruction::Aload3 => load_spec(Kind::Ref, 3, s),
        Instruction::Istore(i) => store_spec(Kind::Int, i as int, s),
        Instruction::Istore0 => store_spec(Kind::Int, 0, s),
        Instruction::Istore1 => store_spec(Kind::Int, 1, s),
        Instruction::Istore2 => store_spec(Kind::Int, 2, s),
        Instruction::Istore3 => store_spec(Kind::Int, 3, s),
        Instruction::Lstore(i) => store_spec(Kind::Long, i as int, s),
        Instruction::Lstore0 => store_spec(Kind::Long, 0, s),
        Instruction::Lstore1 => store_spec(Kind::Long, 1, s),
        Instruction::Lstore2 => store_spec(Kind::Long, 2, s),
        Instruction::Lstore3 => store_spec(Kind::Long, 3, s),
        Instruction::Fstore(i) => store_spec(Kind::Float, i as int, s),
        Instruction::Fstore0 => store_spec(Kind::Float, 0, s),
        Instruction::Fstore1 => store_spec(Kind::Float, 1, s),
        Instruction::Fstore2 => store_spec(Kind::Float, 2, s),
        Instruction::Fstore3 => store_spec(Kind::Float, 3, s),
        Instruction::Dstore(i) => store_spec(Kind::Double, i as int, s),
        Instruction::Dstore0 => store_spec(Kind::Double, 0, s),
        Instruction::Dstore1 => store_spec(Kind::Double, 1, s),
        Instruction::Dstore2 => store_spec(Kind::Double, 2, s),
        Instruction::Dstore3 => store_spec(Kind::Double, 3, s),
        Instruction::Astore(i) => store_spec(Kind::Ref, i as int, s),
        Instruction::Astore0 => store_spec(Kind::Ref, 0, s),
        Instruction::Astore1 => store_spec(Kind::Ref, 1, s),
        Instruction::Astore2 => store_spec(Kind::Ref, 2, s),
        Instruction::Astore3 => store_spec(Kind::Ref, 3, s),
        Instruction::Pop | Instruction::Pop2 | Instruction::Dup | Instruction::DupX1
        | Instruction::DupX2 | Instruction::Dup2 | Instruction::Dup2X1 | Instruction::Dup2X2
        | Instruction::Swap => stack_op_spec(ins, s),
        Instruction::Iadd => int_binop_spec(IntOp::Add, s),
        Instruction::Isub => int_binop_spec(IntOp::Sub, s),
        Instruction::Imul => int_binop_spec(IntOp::Mul, s),
        Instruction::Idiv => int_binop_spec(IntOp::Div, s),
        Instruction::Irem => int_binop_spec(IntOp::Rem, s),
        Instruction::Ishl => int_binop_spec(IntOp::Shl, s),
        Instruction::Ishr => int_binop_spec(IntOp::Shr, s),
        Instruction::Iushr => int_binop_spec(IntOp::Ushr, s),
        Instruction::Iand => int_binop_spec(IntOp::And, s),
        Instruction::Ior => int_binop_spec(IntOp::Or, s),
        Instruction::IXor => int_binop_spec(IntOp::Xor, s),
        Instruction::Ladd => long_binop_spec(IntOp::Add, s),
        Instruction::Lsub => long_binop_spec(IntOp::Sub, s),
        Instruction::Lmul => long_binop_spec(IntOp::Mul, s),
        Instruction::Ldiv => long_binop_spec(IntOp::Div, s),
        Instruction::Lrem => long_binop_spec(IntOp::Rem, s),
        Instruction::Lshl => long_binop_spec(IntOp::Shl, s),
        Instruction::Lshr => long_binop_spec(IntOp::Shr, s),
        Instruction::Lushr => long_binop_spec(IntOp::Ushr, s),
        Instruction::Land => long_binop_spec(IntOp::And, s),
        Instruction::Lor => long_binop_spec(IntOp::Or, s),
        Instruction::Lxor => long_binop_spec(IntOp::Xor, s),
        Instruction::Fadd => float_spec(FloatOp::Add, s),
        Instruction::Fsub => float_spec(FloatOp::Sub, s),
        Instruction::Fmul => float_spec(FloatOp::Mul, s),
        Instruction::Fdiv => float_spec(FloatOp::Div, s),
        Instruction::Frem => float_spec(FloatOp::Rem, s),
        Instruction::Dadd => double_spec(FloatOp::Add, s),
        Instruction::Dsub => double_spec(FloatOp::Sub, s),
        Instruction::Dmul => double_spec(FloatOp::Mul, s),
        Instruction::Ddiv => double_spec(FloatOp::Div, s),
        Instruction::Drem => double_spec(FloatOp::Rem, s),
        Instruction::Ineg | Instruction::Lneg | Instruction::Fneg | Instruction::Dneg
        | Instruction::I2l | Instruction::L2i | Instruction::LCmp | Instruction::FCmpL
        | Instruction::FCmpG | Instruction::DCmpL | Instruction::DCmpG => compute_spec(ins, s),
        Instruction::Iinc(i, c) => iinc_spec(i as int, c, s),
        Instruction::I2f => convert_spec(Conversion::I2f, s),
        Instruction::I2d => convert_spec(Conversion::I2d, s),
        Instruction::L2f => convert_spec(Conversion::L2f, s),
        Instruction::L2d => convert_spec(Conversion::L2d, s),
        Instruction::F2i => convert_spec(Conversion::F2i, s),
        Instruction::F2l => convert_spec(Conversion::F2l, s),
        Instruction::F2d => convert_spec(Conversion::F2d, s),
        Instruction::D2i => convert_spec(Conversion::D2i, s),
        Instruction::D2l => convert_spec(Conversion::D2l, s),
        Instruction::D2f => convert_spec(Conversion::D2f, s),
        Instruction::IfEq(_) | Instruction::IfNe(_) | Instruction::IfLt(_) | Instruction::IfGe(_)
        | Instruction::IfGt(_) | Instruction::IfLe(_) | Instruction::IficmpEq(_)
        | Instruction::IficmpNe(_) | Instruction::IficmpLt(_) | Instruction::IficmpGe(_)
        | Instruction::IficmpGt(_) | Instruction::IficmpLe(_) | Instruction::IfacmpEq(_)
        | Instruction::IfacmpNe(_) | Instruction::IfNull(_) | Instruction::IfNonNull(_)
        | Instruction::Goto(_) | Instruction::GotoW(_) | Instruction::TableSwitch { .. }
        | Instruction::LookupSwitch { .. } => jump_spec(ins, s, pc),
        Instruction::Ireturn | Instruction::Lreturn | Instruction::Freturn | Instruction::Dreturn
        | Instruction::Areturn | Instruction::Return => Ok((s, Effect::Return)),
        Instruction::Wide(_) => Err(VmError::UnsupportedOpcode(0xc4)),
        _ => Ok((s, Effect::Link)),
    }
}

/// The instructions that `wide` can prefix.
pub open spec fn widenable(ins: Instruction) -> bool {
    match ins {
        Instruction::Iload(_) | Instruction::Lload(_) | Instruction::Fload(_) | Instruction::Dload(_)
        | Instruction::Aload(_) | Instruction::Istore(_) | Instruction::Lstore(_)
        | Instruction::Fstore(_) | Instruction::Dstore(_) | Instruction::Astore(_)
        | Instruction::Iinc(_, _) => true,
        _ => false,
    }
}

/// What an instruction does to a frame, its opcode at `pc`.
pub open spec fn step(ins: Instruction, s: FrameState, pc: int) -> Result<(FrameState, Effect), VmError> {
    match ins {
        Instruction::Wide(inner) => if widenable(*inner) {
            step_base(*inner, s, pc)
        } else {
            Err(VmError::UnsupportedOpcode(0xc4))
        },
        _ => step_base(ins, s, pc),
    }
}


pub open spec fn is_stack_op(ins: Instruction) -> bool {
    match ins {
        Instruction::Pop | Instruction::Pop2 | Instruction::Dup | Instruction::DupX1
        | Instruction::DupX2 | Instruction::Dup2 | Instruction::Dup2X1 | Instruction::Dup2X2
        | Instruction::Swap => true,
        _ => false,
    }
}

pub open spec fn is_compute(ins: Instruction) -> bool {
    match ins {
        Instruction::Ineg | Instruction::Lneg | Instruction::Fneg | Instruction::Dneg
        | Instruction::I2l | Instruction::L2i | Instruction::LCmp | Instruction::FCmpL
        | Instruction::FCmpG | Instruction::DCmpL | Instruction::DCmpG => true,
        _ => false,
    }
}

fn fault(frame: &Frame, pops: usize, pushes: usize) -> (r: Option<VmError>)
    ensures
        r == stack_fault(state(*frame), pops as int, pushes as int),
{
    let n = frame.operand_stack.size();
    let cap = frame.operand_stack.max_size();
    if n < pops {
        Some(VmError::OperandStackUnderflow)
    } else if n - pops > cap || pushes > cap - (n - pops) {
        Some(VmError::OperandStackOverflow)
    } else {
        None
    }
}

/// Pops `pops` slots and pushes `vals`, leaving the rest of the frame as it was.
fn replace(frame: &mut Frame, pops: usize, vals: Vec<Slot>)
    requires
        stack_fault(state(*old(frame)), pops as int, vals@.len() as int) is None,
    ensures
        state(*final(frame)) == replace_top(state(*old(frame)), pops as int, vals@),
        final(frame).lower == old(frame).lower,
        final(frame).thread == old(frame).thread,
{
    let ghost s0 = state(*frame);
    let n = frame.operand_stack.size();
    let mut k: usize = 0;
    while k < pops
        invariant
            k <= pops <= n,
            n == s0.stack.len(),
            frame.operand_stack@ == s0.stack.subrange(0, n - k),
            frame.operand_stack.capacity() == s0.cap,
            frame.local_vars@ == s0.locals,
            frame.next_pc == s0.next_pc,
            frame.lower == old(frame).lower,
            frame.thread == old(frame).thread,
        decreases pops - k,
    {
        frame.operand_stack.pop_slot();
        k = k + 1;
        assert(frame.operand_stack@ =~= s0.stack.subrange(0, n - k));
    }
    let mut j: usize = 0;
    while j < vals.len()
        invariant
            j <= vals@.len(),
            pops <= n,
            n == s0.stack.len(),
            n - pops + vals@.len() <= s0.cap,
            frame.operand_stack@ == s0.stack.subrange(0, n - pops) + vals@.subrange(0, j as int),
            frame.operand_stack.capacity() == s0.cap,
            frame.local_vars@ == s0.locals,
            frame.next_pc == s0.next_pc,
            frame.lower == old(frame).lower,
            frame.thread == old(frame).thread,
        decreases vals@.len() - j,
    {
        frame.operand_stack.push_slot(vals[j]);
        j = j + 1;
        assert(frame.operand_stack@ =~= s0.stack.subrange(0, n - pops) + vals@.subrange(0, j as int));
    }
    assert(vals@.subrange(0, vals@.len() as int) =~= vals@);
    assert(state(*frame) =~= replace_top(s0, pops as int, vals@));
}

/// Pushes the given slots when the stack has room for them.
fn push_slots(frame: &mut Frame, vals: Vec<Slot>) -> (r: Result<Effect, VmError>)
    ensures
        outcome(transform(state(*old(frame)), 0, vals@), *old(frame), *final(frame), r),
{
    if let Some(e) = fault(frame, 0, vals.len()) {
        return Err(e);
    }
    replace(frame, 0, vals);
    Ok(Effect::Next)
}

fn push_int_const(frame: &mut Frame, v: i32) -> (r: Result<Effect, VmError>)
    ensures
        outcome(transform(state(*old(frame)), 0, seq![int_slot(v)]), *old(frame), *final(frame), r),
{
    let vals = vec![Slot { num: v, objref: None }];
    assert(vals@ =~= seq![int_slot(v)]);
    push_slots(frame, vals)
}

fn long_vals(v: i64) -> (r: Vec<Slot>)
    ensures
        r@ == long_slots(v),
{
    let vals = vec![Slot { num: v as i32, objref: None }, Slot { num: (v >> 32u32) as i32, objref: None }];
    assert(vals@ =~= long_slots(v));
    vals
}

fn push_long_const(frame: &mut Frame, v: i64) -> (r: Result<Effect, VmError>)
    ensures
        outcome(transform(state(*old(frame)), 0, long_slots(v)), *old(frame), *final(frame), r),
{
    push_slots(frame, long_vals(v))
}

/// Pushes a local through type `k`.
fn load(frame: &mut Frame, k: Kind, index: usize) -> (r: Result<Effect, VmError>)
    ensures
        outcome(load_spec(k, index as int, state(*old(frame))), *old(frame), *final(frame), r),
{
    let w: usize = match k {
        Kind::Long | Kind::Double => 2,
        _ => 1,
    };
    if let Some(e) = fault(frame, 0, w) {
        return Err(e);
    }
    let n = frame.local_vars.len();
    if index >= n || w > n - index {
        return Err(VmError::LocalOutOfRange);
    }
    let vals = match k {
        Kind::Long | Kind::Double => vec![
            Slot { num: frame.local_vars.get_int(index), objref: None },
            Slot { num: frame.local_vars.get_int(index + 1), objref: None },
        ],
        Kind::Ref => vec![Slot { num: 0, objref: frame.local_vars.get_ref(index) }],
        _ => vec![Slot { num: frame.local_vars.get_int(index), objref: None }],
    };
    assert(vals@ =~= loaded(k, frame.local_vars@, index as int));
    replace(frame, 0, vals);
    Ok(Effect::Next)
}

/// Pops a value of type `k` into a local.
fn store(frame: &mut Frame, k: Kind, index: usize) -> (r: Result<Effect, VmError>)
    ensures
        outcome(store_spec(k, index as int, state(*old(frame))), *old(frame), *final(frame), r),
{
    let w: usize = match k {
        Kind::Long | Kind::Double => 2,
        _ => 1,
    };
    if let Some(e) = fault(frame, w, 0) {
        return Err(e);
    }
    let n = frame.local_vars.len();
    if index >= n || w > n - index {
        return Err(VmError::LocalOutOfRange);
    }
    let ghost s0 = state(*frame);
    match k {
        Kind::Long | Kind::Double => {
            let hi = frame.operand_stack.pop_slot();
            let lo = frame.operand_stack.pop_slot();
            frame.local_vars.set_int(index, lo.num);
            frame.local_vars.set_int(index + 1, hi.num);
        },
        Kind::Ref => {
            let v = frame.operand_stack.pop_slot();
            frame.local_vars.set_ref(index, v.objref);
        },
        _ => {
            let v = frame.operand_stack.pop_slot();
            frame.local_vars.set_int(index, v.num);
        },
    }
    assert(frame.operand_stack@ =~= replace_top(s0, w as int, seq![]).stack);
    assert(frame.local_vars@ =~= stored(k, s0, index as int));
    Ok(Effect::Next)
}

fn int_binop(frame: &mut Frame, op: IntOp) -> (r: Result<Effect, VmError>)
    ensures
        outcome(int_binop_spec(op, state(*old(frame))), *old(frame), *final(frame), r),
{
    if let Some(e) = fault(frame, 2, 1) {
        return Err(e);
    }
    let b = frame.operand_stack.peek(0).num;
    let a = frame.operand_stack.peek(1).num;
    if (op == IntOp::Div || op == IntOp::Rem) && b == 0 {
        return Err(VmError::DivideByZero);
    }
    let vals = vec![Slot { num: int_op(op, a, b), objref: None }];
    assert(vals@ =~= seq![int_slot(int_op_value(op, a, b))]);
    replace(frame, 2, vals);
    Ok(Effect::Next)
}

/// The long whose high word lies `depth` places below the top.
fn peek_long(frame: &Frame, depth: usize) -> (r: i64)
    requires
        depth + 2 <= frame.operand_stack@.len(),
    ensures
        r == long_at(state(*frame), depth as int),
{
    let n = frame.operand_stack.size();
    let hi = frame.operand_stack.peek(depth).num;
    let lo = frame.operand_stack.peek(depth + 1).num;
    crate::runtime_data_area::join_long(lo, hi)
}

fn long_binop(frame: &mut Frame, op: IntOp) -> (r: Result<Effect, VmError>)
    ensures
        outcome(long_binop_spec(op, state(*old(frame))), *old(frame), *final(frame), r),
{
    let shift = op == IntOp::Shl || op == IntOp::Shr || op == IntOp::Ushr;
    let pops: usize = if shift {
        3
    } else {
        4
    };
    if let Some(e) = fault(frame, pops, 2) {
        return Err(e);
    }
    let b: i64 = if shift {
        frame.operand_stack.peek(0).num as i64
    } else {
        peek_long(frame, 0)
    };
    let a = peek_long(frame, pops - 2);
    if (op == IntOp::Div || op == IntOp::Rem) && b == 0 {
        return Err(VmError::DivideByZero);
    }
    replace(frame, pops, long_vals(long_op(op, a, b)));
    Ok(Effect::Next)
}

fn float_binop(frame: &mut Frame, op: FloatOp) -> (r: Result<Effect, VmError>)
    ensures
        outcome(float_spec(op, state(*old(frame))), *old(frame), *final(frame), r),
{
    if let Some(e) = fault(frame, 2, 1) {
        return Err(e);
    }
    let b = frame.operand_stack.peek(0).num as u32;
    let a = frame.operand_stack.peek(1).num as u32;
    replace(frame, 2, Vec::new());
    Ok(Effect::Float(FloatRequest::Float(op, a, b)))
}

fn double_binop(frame: &mut Frame, op: FloatOp) -> (r: Result<Effect, VmError>)
    ensures
        outcome(double_spec(op, state(*old(frame))), *old(frame), *final(frame), r),
{
    if let Some(e) = fault(frame, 4, 2) {
        return Err(e);
    }
    let b = peek_long(frame, 0) as u64;
    let a = peek_long(frame, 2) as u64;
    replace(frame, 4, Vec::new());
    Ok(Effect::Float(FloatRequest::Double(op, a, b)))
}

fn convert(frame: &mut Frame, c: Conversion) -> (r: Result<Effect, VmError>)
    ensures
        outcome(convert_spec(c, state(*old(frame))), *old(frame), *final(frame), r),
{
    let (pops, pushes): (usize, usize) = match c {
        Conversion::I2f => (1, 1),
        Conversion::I2d => (1, 2),
        Conversion::L2f => (2, 1),
        Conversion::L2d => (2, 2),
        Conversion::F2i => (1, 1),
        Conversion::F2l => (1, 2),
        Conversion::F2d => (1, 2),
        Conversion::D2i => (2, 1),
        Conversion::D2l => (2, 2),
        Conversion::D2f => (2, 1),
    };
    if let Some(e) = fault(frame, pops, pushes) {
        return Err(e);
    }
    let operand: i64 = match c {
        Conversion::I2f | Conversion::I2d => frame.operand_stack.peek(0).num as i64,
        Conversion::F2i | Conversion::F2l | Conversion::F2d => (frame.operand_stack.peek(0).num
            as u32) as i64,
        _ => peek_long(frame, 0),
    };
    replace(frame, pops, Vec::new());
    Ok(Effect::Float(FloatRequest::Convert(c, operand)))
}

fn iinc(frame: &mut Frame, index: usize, c: i32) -> (r: Result<Effect, VmError>)
    ensures
        outcome(iinc_spec(index as int, c, state(*old(frame))), *old(frame), *final(frame), r),
{
    if index >= frame.local_vars.len() {
        return Err(VmError::LocalOutOfRange);
    }
    let v = frame.local_vars.get_int(index);
    frame.local_vars.set_int(index, int_op(IntOp::Add, v, c));
    Ok(Effect::Next)
}

/// Sends control to `pc + offset`, `pc` being the address of the branching opcode.
fn branch(frame: &mut Frame, pc: usize, offset: i64) -> (r: Result<Effect, VmError>)
    requires
        i32::MIN <= offset <= i32::MAX,
    ensures
        outcome(branch_to(state(*old(frame)), pc as int, offset as int), *old(frame), *final(frame), r),
{
    let target = if offset >= 0 {
        pc.checked_add(offset as usize)
    } else if pc >= (-offset) as usize {
        Some(pc - (-offset) as usize)
    } else {
        None
    };
    match target {
        Some(t) => {
            frame.set_next_pc(t);
            Ok(Effect::Next)
        },
        None => Err(VmError::BranchOutOfRange),
    }
}

/// Pops `pops` slots, then branches by `offset` when `taken` holds.
fn cond_branch(frame: &mut Frame, pops: usize, taken: bool, offset: i64, pc: usize) -> (r: Result<
    Effect,
    VmError,
>)
    requires
        i32::MIN <= offset <= i32::MAX,
    ensures
        outcome(
            cond_branch_spec(pops as int, taken, offset as int, state(*old(frame)), pc as int),
            *old(frame),
            *final(frame),
            r,
        ),
{
    if let Some(e) = fault(frame, pops, 0) {
        return Err(e);
    }
    replace(frame, pops, Vec::new());
    if taken {
        branch(frame, pc, offset)
    } else {
        Ok(Effect::Next)
    }
}


/// Looks `k` up among the (match, offset) pairs.
fn find_match(pairs: &Vec<(i32, i32)>, k: i32) -> (r: Option<i32>)
    ensures
        r == first_match(pairs@, k),
{
    let mut i: usize = 0;
    assert(pairs@.subrange(0, pairs@.len() as int) =~= pairs@);
    while i < pairs.len()
        invariant
            i <= pairs@.len(),
            first_match(pairs@, k) == first_match(pairs@.subrange(i as int, pairs@.len() as int), k),
        decreases pairs@.len() - i,
    {
        let ghost rest = pairs@.subrange(i as int, pairs@.len() as int);
        assert(rest.drop_first() =~= pairs@.subrange(i + 1, pairs@.len() as int));
        if pairs[i].0 == k {
            return Some(pairs[i].1);
        }
        i = i + 1;
    }
    None
}

impl Instruction {
    /// Executes one of the instructions that rearrange slots without reading them.
    fn exec_stack_op(&self, frame: &mut Frame) -> (r: Result<Effect, VmError>)
        requires
            is_stack_op(*self),
        ensures
            outcome(stack_op_spec(*self, state(*old(frame))), *old(frame), *final(frame), r),
    {
        let (pops, pushes): (usize, usize) = match self {
            Instruction::Pop => (1, 0),
            Instruction::Pop2 => (2, 0),
            Instruction::Dup => (1, 2),
            Instruction::DupX1 => (2, 3),
            Instruction::DupX2 => (3, 4),
            Instruction::Dup2 => (2, 4),
            Instruction::Dup2X1 => (3, 5),
            Instruction::Dup2X2 => (4, 6),
            _ => (2, 2),
        };
        if let Some(e) = fault(frame, pops, pushes) {
            return Err(e);
        }
        let ghost s = state(*frame);
        let s0 = frame.operand_stack.peek(0);
        let s1 = if pops >= 2 {
            frame.operand_stack.peek(1)
        } else {
            s0
        };
        let s2 = if pops >= 3 {
            frame.operand_stack.peek(2)
        } else {
            s0
        };
        let s3 = if pops >= 4 {
            frame.operand_stack.peek(3)
        } else {
            s0
        };
        let vals = match self {
            Instruction::Pop => Vec::new(),
            Instruction::Pop2 => Vec::new(),
            Instruction::Dup => vec![s0, s0],
            Instruction::DupX1 => vec![s0, s1, s0],
            Instruction::DupX2 => vec![s0, s2, s1, s0],
            Instruction::Dup2 => vec![s1, s0, s1, s0],
            Instruction::Dup2X1 => vec![s1, s0, s2, s1, s0],
            Instruction::Dup2X2 => vec![s1, s0, s3, s2, s1, s0],
            _ => vec![s0, s1],
        };
        proof {
            match *self {
                Instruction::Pop => assert(vals@ =~= seq![]),
                Instruction::Pop2 => assert(vals@ =~= seq![]),
                Instruction::Dup => assert(vals@ =~= seq![top(s, 0), top(s, 0)]),
                Instruction::DupX1 => assert(vals@ =~= seq![top(s, 0), top(s, 1), top(s, 0)]),
                Instruction::DupX2 => assert(vals@ =~= seq![top(s, 0), top(s, 2), top(s, 1), top(s, 0)]),
                Instruction::Dup2 => assert(vals@ =~= seq![top(s, 1), top(s, 0), top(s, 1), top(s, 0)]),
                Instruction::Dup2X1 => assert(vals@ =~= seq![top(s, 1), top(s, 0), top(s, 2), top(s, 1), top(s, 0)]),
                Instruction::Dup2X2 => assert(vals@ =~= seq![top(s, 1), top(s, 0), top(s, 3), top(s, 2), top(s, 1), top(s, 0)]),
                _ => assert(vals@ =~= seq![top(s, 0), top(s, 1)]),
            }
        }
        replace(frame, pops, vals);
        Ok(Effect::Next)
    }

    /// Executes a negation, an int-long conversion or a comparison.
    fn exec_compute(&self, frame: &mut Frame) -> (r: Result<Effect, VmError>)
        requires
            is_compute(*self),
        ensures
            outcome(compute_spec(*self, state(*old(frame))), *old(frame), *final(frame), r),
    {
        let (pops, pushes): (usize, usize) = match self {
            Instruction::Ineg => (1, 1),
            Instruction::Fneg => (1, 1),
            Instruction::I2l => (1, 2),
            Instruction::L2i => (2, 1),
            Instruction::FCmpL => (2, 1),
            Instruction::FCmpG => (2, 1),
            Instruction::LCmp => (4, 1),
            Instruction::DCmpL => (4, 1),
            Instruction::DCmpG => (4, 1),
            _ => (2, 2),
        };
        if let Some(e) = fault(frame, pops, pushes) {
            return Err(e);
        }
        let ghost s = state(*frame);
        let vals = match self {
            Instruction::Ineg => vec![
                Slot { num: int_op(IntOp::Sub, 0, frame.operand_stack.peek(0).num), objref: None },
            ],
            Instruction::Lneg => long_vals(long_op(IntOp::Sub, 0, peek_long(frame, 0))),
            Instruction::Fneg => vec![
                Slot {
                    num: ((frame.operand_stack.peek(0).num as u32) ^ 0x8000_0000u32) as i32,
                    objref: None,
                },
            ],
            Instruction::Dneg => vec![
                Slot { num: frame.operand_stack.peek(1).num, objref: None },
                Slot {
                    num: ((frame.operand_stack.peek(0).num as u32) ^ 0x8000_0000u32) as i32,
                    objref: None,
                },
            ],
            Instruction::I2l => long_vals(frame.operand_stack.peek(0).num as i64),
            Instruction::L2i => vec![Slot { num: frame.operand_stack.peek(1).num, objref: None }],
            Instruction::LCmp => vec![
                Slot { num: lcmp(peek_long(frame, 2), peek_long(frame, 0)), objref: None },
            ],
            Instruction::FCmpL => vec![
                Slot {
                    num: fcmp_bits(
                        frame.operand_stack.peek(1).num as u32,
                        frame.operand_stack.peek(0).num as u32,
                        false,
                    ),
                    objref: None,
                },
            ],
            Instruction::FCmpG => vec![
                Slot {
                    num: fcmp_bits(
                        frame.operand_stack.peek(1).num as u32,
                        frame.operand_stack.peek(0).num as u32,
                        true,
                    ),
                    objref: None,
                },
            ],
            Instruction::DCmpL => vec![
                Slot {
                    num: dcmp_bits(peek_long(frame, 2) as u64, peek_long(frame, 0) as u64, false),
                    objref: None,
                },
            ],
            _ => vec![
                Slot {
                    num: dcmp_bits(peek_long(frame, 2) as u64, peek_long(frame, 0) as u64, true),
                    objref: None,
                },
            ],
        };
        proof {
            match *self {
                Instruction::Ineg => assert(vals@ =~= seq![int_slot(wrap32(-top(s, 0).num))]),
                Instruction::Fneg => assert(vals@ =~= seq![int_slot(flip_sign(top(s, 0).num))]),
                Instruction::Dneg => assert(vals@ =~= seq![
                    int_slot(top(s, 1).num),
                    int_slot(flip_sign(top(s, 0).num)),
                ]),
                Instruction::L2i => assert(vals@ =~= seq![int_slot(top(s, 1).num)]),
                Instruction::LCmp => assert(vals@ =~= seq![
                    int_slot(lcmp_value(long_at(s, 2), long_at(s, 0))),
                ]),
                Instruction::FCmpL => assert(vals@ =~= seq![
                    int_slot(fcmp_value(top(s, 1).num as u32, top(s, 0).num as u32, false)),
                ]),
                Instruction::FCmpG => assert(vals@ =~= seq![
                    int_slot(fcmp_value(top(s, 1).num as u32, top(s, 0).num as u32, true)),
                ]),
                Instruction::DCmpL => assert(vals@ =~= seq![
                    int_slot(dcmp_value(long_at(s, 2) as u64, long_at(s, 0) as u64, false)),
                ]),
                Instruction::DCmpG => assert(vals@ =~= seq![
                    int_slot(dcmp_value(long_at(s, 2) as u64, long_at(s, 0) as u64, true)),
                ]),
                _ => {},
            }
        }
        replace(frame, pops, vals);
        Ok(Effect::Next)
    }

    /// Executes a conditional branch, a switch or `goto`, whose opcode lies at `pc`.
    fn exec_jump(&self, frame: &mut Frame, pc: usize) -> (r: Result<Effect, VmError>)
        ensures
            is_jump(*self) ==> outcome(
                jump_spec(*self, state(*old(frame)), pc as int),
                *old(frame),
                *final(frame),
                r,
            ),
    {
        match self {
            Instruction::Goto(o) => return branch(frame, pc, *o as i64),
            Instruction::GotoW(o) => return branch(frame, pc, *o as i64),
            _ => {},
        }
        let (pops, offset): (usize, i64) = match self {
            Instruction::IfEq(o) | Instruction::IfNe(o) | Instruction::IfLt(o) | Instruction::IfGe(o)
            | Instruction::IfGt(o) | Instruction::IfLe(o) | Instruction::IfNull(o)
            | Instruction::IfNonNull(o) => (1, *o as i64),
            Instruction::IficmpEq(o) | Instruction::IficmpNe(o) | Instruction::IficmpLt(o)
            | Instruction::IficmpGe(o) | Instruction::IficmpGt(o) | Instruction::IficmpLe(o)
            | Instruction::IfacmpEq(o) | Instruction::IfacmpNe(o) => (2, *o as i64),
            _ => (1, 0),
        };
        if let Some(e) = fault(frame, pops, 0) {
            return Err(e);
        }
        let v0 = frame.operand_stack.peek(0);
        let v1 = if pops >= 2 {
            frame.operand_stack.peek(1)
        } else {
            v0
        };
        let (taken, offset): (bool, i64) = match self {
            Instruction::IfEq(_) => (cond(Cond::Eq, v0.num, 0), offset),
            Instruction::IfNe(_) => (cond(Cond::Ne, v0.num, 0), offset),
            Instruction::IfLt(_) => (cond(Cond::Lt, v0.num, 0), offset),
            Instruction::IfGe(_) => (cond(Cond::Ge, v0.num, 0), offset),
            Instruction::IfGt(_) => (cond(Cond::Gt, v0.num, 0), offset),
            Instruction::IfLe(_) => (cond(Cond::Le, v0.num, 0), offset),
            Instruction::IficmpEq(_) => (cond(Cond::Eq, v1.num, v0.num), offset),
            Instruction::IficmpNe(_) => (cond(Cond::Ne, v1.num, v0.num), offset),
            Instruction::IficmpLt(_) => (cond(Cond::Lt, v1.num, v0.num), offset),
            Instruction::IficmpGe(_) => (cond(Cond::Ge, v1.num, v0.num), offset),
            Instruction::IficmpGt(_) => (cond(Cond::Gt, v1.num, v0.num), offset),
            Instruction::IficmpLe(_) => (cond(Cond::Le, v1.num, v0.num), offset),
            Instruction::IfacmpEq(_) => (v1.objref == v0.objref, offset),
            Instruction::IfacmpNe(_) => (v1.objref != v0.objref, offset),
            Instruction::IfNull(_) => (v0.objref.is_none(), offset),
            Instruction::IfNonNull(_) => (v0.objref.is_some(), offset),
            Instruction::TableSwitch { default_offset, low, high, offsets } => {
                let k = v0.num;
                if *low <= k && k <= *high && ((k as i64 - *low as i64) as usize) < offsets.len() {
                    (true, offsets[(k as i64 - *low as i64) as usize] as i64)
                } else {
                    (true, *default_offset as i64)
                }
            },
            Instruction::LookupSwitch { default_offset, npairs, match_offsets } => {
                match find_match(match_offsets, v0.num) {
                    Some(o) => (true, o as i64),
                    None => (true, *default_offset as i64),
                }
            },
            _ => (false, 0),
        };
        cond_branch(frame, pops, taken, offset, pc)
    }
}

pub open spec fn is_jump(ins: Instruction) -> bool {
    match ins {
        Instruction::IfEq(_) | Instruction::IfNe(_) | Instruction::IfLt(_) | Instruction::IfGe(_)
        | Instruction::IfGt(_) | Instruction::IfLe(_) | Instruction::IficmpEq(_)
        | Instruction::IficmpNe(_) | Instruction::IficmpLt(_) | Instruction::IficmpGe(_)
        | Instruction::IficmpGt(_) | Instruction::IficmpLe(_) | Instruction::IfacmpEq(_)
        | Instruction::IfacmpNe(_) | Instruction::IfNull(_) | Instruction::IfNonNull(_)
        | Instruction::Goto(_) | Instruction::GotoW(_) | Instruction::TableSwitch { .. }
        | Instruction::LookupSwitch { .. } => true,
        _ => false,
    }
}


impl Instruction {
    /// Executes an instruction other than `wide` against `frame`; `pc` is its opcode's address.
    #[verifier::rlimit(60)]
    fn execute_base(&self, frame: &mut Frame, pc: usize) -> (r: Result<Effect, VmError>)
        ensures
            outcome(step_base(*self, state(*old(frame)), pc as int), *old(frame), *final(frame), r),
    {
        match self {
            Instruction::Nop => Ok(Effect::Next),
            Instruction::AconstNull => {
                let vals = vec![Slot { num: 0, objref: None }];
                assert(vals@ =~= seq![ref_slot(None)]);
                push_slots(frame, vals)
            },
            Instruction::IconstM1 => push_int_const(frame, -1),
            Instruction::Iconst0 => push_int_const(frame, 0),
            Instruction::Iconst1 => push_int_const(frame, 1),
            Instruction::Iconst2 => push_int_const(frame, 2),
            Instruction::Iconst3 => push_int_const(frame, 3),
            Instruction::Iconst4 => push_int_const(frame, 4),
            Instruction::Iconst5 => push_int_const(frame, 5),
            Instruction::Lconst0 => push_long_const(frame, 0),
            Instruction::Lconst1 => push_long_const(frame, 1),
            Instruction::Fconst0 => push_int_const(frame, 0),
            Instruction::Fconst1 => push_int_const(frame, 0x3f80_0000),
            Instruction::Fconst2 => push_int_const(frame, 0x4000_0000),
            Instruction::Dconst0 => push_long_const(frame, 0),
            Instruction::Dconst1 => push_long_const(frame, 0x3ff0_0000_0000_0000),
            Instruction::Bipush(v) => push_int_const(frame, *v as i32),
            Instruction::Sipush(v) => push_int_const(frame, *v as i32),
            Instruction::Iload(i) => load(frame, Kind::Int, *i as usize),
            Instruction::Iload0 => load(frame, Kind::Int, 0),
            Instruction::Iload1 => load(frame, Kind::Int, 1),
            Instruction::Iload2 => load(frame, Kind::Int, 2),
            Instruction::Iload3 => load(frame, Kind::Int, 3),
            Instruction::Lload(i) => load(frame, Kind::Long, *i as usize),
            Instruction::Lload0 => load(frame, Kind::Long, 0),
            Instruction::Lload1 => load(frame, Kind::Long, 1),
            Instruction::Lload2 => load(frame, Kind::Long, 2),
            Instruction::Lload3 => load(frame, Kind::Long, 3),
            Instruction::Fload(i) => load(frame, Kind::Float, *i as usize),
            Instruction::Fload0 => load(frame, Kind::Float, 0),
            Instruction::Fload1 => load(frame, Kind::Float, 1),
            Instruction::Fload2 => load(frame, Kind::Float, 2),
            Instruction::Fload3 => load(frame, Kind::Float, 3),
            Instruction::Dload(i) => load(frame, Kind::Double, *i as usize),
            Instruction::Dload0 => load(frame, Kind::Double, 0),
            Instruction::Dload1 => load(frame, Kind::Double, 1),
            Instruction::Dload2 => load(frame, Kind::Double, 2),
            Instruction::Dload3 => load(frame, Kind::Double, 3),
            Instruction::Aload(i) => load(frame, Kind::Ref, *i as usize),
            Instruction::Aload0 => load(frame, Kind::Ref, 0),
            Instruction::Aload1 => load(frame, Kind::Ref, 1),
            Instruction::Aload2 => load(frame, Kind::Ref, 2),
            Instruction::Aload3 => load(frame, Kind::Ref, 3),
            Instruction::Istore(i) => store(frame, Kind::Int, *i as usize),
            Instruction::Istore0 => store(frame, Kind::Int, 0),
            Instruction::Istore1 => store(frame, Kind::Int, 1),
            Instruction::Istore2 => store(frame, Kind::Int, 2),
            Instruction::Istore3 => store(frame, Kind::Int, 3),
            Instruction::Lstore(i) => store(frame, Kind::Long, *i as usize),
            Instruction::Lstore0 => store(frame, Kind::Long, 0),
            Instruction::Lstore1 => store(frame, Kind::Long, 1),
            Instruction::Lstore2 => store(frame, Kind::Long, 2),
            Instruction::Lstore3 => store(frame, Kind::Long, 3),
            Instruction::Fstore(i) => store(frame, Kind::Float, *i as usize),
            Instruction::Fstore0 => store(frame, Kind::Float, 0),
            Instruction::Fstore1 => store(frame, Kind::Float, 1),
            Instruction::Fstore2 => store(frame, Kind::Float, 2),
            Instruction::Fstore3 => store(frame, Kind::Float, 3),
            Instruction::Dstore(i) => store(frame, Kind::Double, *i as usize),
            Instruction::Dstore0 => store(frame, Kind::Double, 0),
            Instruction::Dstore1 => store(frame, Kind::Double, 1),
            Instruction::Dstore2 => store(frame, Kind::Double, 2),
            Instruction::Dstore3 => store(frame, Kind::Double, 3),
            Instruction::Astore(i) => store(frame, Kind::Ref, *i as usize),
            Instruction::Astore0 => store(frame, Kind::Ref, 0),
            Instruction::Astore1 => store(frame, Kind::Ref, 1),
            Instruction::Astore2 => store(frame, Kind::Ref, 2),
            Instruction::Astore3 => store(frame, Kind::Ref, 3),
            Instruction::Pop | Instruction::Pop2 | Instruction::Dup | Instruction::DupX1
            | Instruction::DupX2 | Instruction::Dup2 | Instruction::Dup2X1 | Instruction::Dup2X2
            | Instruction::Swap => self.exec_stack_op(frame),
            Instruction::Iadd => int_binop(frame, IntOp::Add),
            Instruction::Isub => int_binop(frame, IntOp::Sub),
            Instruction::Imul => int_binop(frame, IntOp::Mul),
            Instruction::Idiv => int_binop(frame, IntOp::Div),
            Instruction::Irem => int_binop(frame, IntOp::Rem),
            Instruction::Ishl => int_binop(frame, IntOp::Shl),
            Instruction::Ishr => int_binop(frame, IntOp::Shr),
            Instruction::Iushr => int_binop(frame, IntOp::Ushr),
            Instruction::Iand => int_binop(frame, IntOp::And),
            Instruction::Ior => int_binop(frame, IntOp::Or),
            Instruction::IXor => int_binop(frame, IntOp::Xor),
            Instruction::Ladd => long_binop(frame, IntOp::Add),
            Instruction::Lsub => long_binop(frame, IntOp::Sub),
            Instruction::Lmul => long_binop(frame, IntOp::Mul),
            Instruction::Ldiv => long_binop(frame, IntOp::Div),
            Instruction::Lrem => long_binop(frame, IntOp::Rem),
            Instruction::Lshl => long_binop(frame, IntOp::Shl),
            Instruction::Lshr => long_binop(frame, IntOp::Shr),
            Instruction::Lushr => long_binop(frame, IntOp::Ushr),
            Instruction::Land => long_binop(frame, IntOp::And),
            Instruction::Lor => long_binop(frame, IntOp::Or),
            Instruction::Lxor => long_binop(frame, IntOp::Xor),
            Instruction::Fadd => float_binop(frame, FloatOp::Add),
            Instruction::Fsub => float_binop(frame, FloatOp::Sub),
            Instruction::Fmul => float_binop(frame, FloatOp::Mul),
            Instruction::Fdiv => float_binop(frame, FloatOp::Div),
            Instruction::Frem => float_binop(frame, FloatOp::Rem),
            Instruction::Dadd => double_binop(frame, FloatOp::Add),
            Instruction::Dsub => double_binop(frame, FloatOp::Sub),
            Instruction::Dmul => double_binop(frame, FloatOp::Mul),
            Instruction::Ddiv => double_binop(frame, FloatOp::Div),
            Instruction::Drem => double_binop(frame, FloatOp::Rem),
            Instruction::Ineg | Instruction::Lneg | Instruction::Fneg | Instruction::Dneg
            | Instruction::I2l | Instruction::L2i | Instruction::LCmp | Instruction::FCmpL
            | Instruction::FCmpG | Instruction::DCmpL | Instruction::DCmpG => self.exec_compute(frame),
            Instruction::Iinc(i, c) => iinc(frame, *i as usize, *c),
            Instruction::I2f => convert(frame, Conversion::I2f),
            Instruction::I2d => convert(frame, Conversion::I2d),
            Instruction::L2f => convert(frame, Conversion::L2f),
            Instruction::L2d => convert(frame, Conversion::L2d),
            Instruction::F2i => convert(frame, Conversion::F2i),
            Instruction::F2l => convert(frame, Conversion::F2l),
            Instruction::F2d => convert(frame, Conversion::F2d),
            Instruction::D2i => convert(frame, Conversion::D2i),
            Instruction::D2l => convert(frame, Conversion::D2l),
            Instruction::D2f => convert(frame, Conversion::D2f),
            Instruction::IfEq(_) | Instruction::IfNe(_) | Instruction::IfLt(_) | Instruction::IfGe(_)
            | Instruction::IfGt(_) | Instruction::IfLe(_) | Instruction::IficmpEq(_)
            | Instruction::IficmpNe(_) | Instruction::IficmpLt(_) | Instruction::IficmpGe(_)
            | Instruction::IficmpGt(_) | Instruction::IficmpLe(_) | Instruction::IfacmpEq(_)
            | Instruction::IfacmpNe(_) | Instruction::IfNull(_) | Instruction::IfNonNull(_)
            | Instruction::Goto(_) | Instruction::GotoW(_) | Instruction::TableSwitch { .. }
            | Instruction::LookupSwitch { .. } => self.exec_jump(frame, pc),
            Instruction::Ireturn | Instruction::Lreturn | Instruction::Freturn | Instruction::Dreturn
            | Instruction::Areturn | Instruction::Return => Ok(Effect::Return),
            Instruction::Wide(_) => Err(VmError::UnsupportedOpcode(0xc4)),
            _ => Ok(Effect::Link),
        }
    }

    /// Executes this instruction against `frame`; `pc` is the address of its opcode.
    pub fn execute(&self, frame: &mut Frame, pc: usize) -> (r: Result<Effect, VmError>)
        ensures
            outcome(step(*self, state(*old(frame)), pc as int), *old(frame), *final(frame), r),
    {
        match self {
            Instruction::Wide(inner) => {
                let ok = match &**inner {
                    Instruction::Iload(_) | Instruction::Lload(_) | Instruction::Fload(_)
                    | Instruction::Dload(_) | Instruction::Aload(_) | Instruction::Istore(_)
                    | Instruction::Lstore(_) | Instruction::Fstore(_) | Instruction::Dstore(_)
                    | Instruction::Astore(_) | Instruction::Iinc(_, _) => true,
                    _ => false,
                };
                if ok {
                    inner.execute_base(frame, pc)
                } else {
                    Err(VmError::UnsupportedOpcode(0xc4))
                }
            },
            _ => self.execute_base(frame, pc),
        }
    }
}


/// `dup` leaves the stack below the top as it was and pushes one more copy of the top;
/// `dup_x1` and `dup_x2` insert exactly one copy of the top two and three slots down.
#[verifier::rlimit(60)]
pub proof fn lemma_dup_inserts_one_copy(s: FrameState, pc: int)
    ensures
        1 <= s.stack.len() < s.cap ==> step(Instruction::Dup, s, pc) == Ok::<
            (FrameState, Effect),
            VmError,
        >((FrameState { stack: s.stack.push(s.stack.last()), ..s }, Effect::Next)),
        2 <= s.stack.len() < s.cap ==> step(Instruction::DupX1, s, pc) == Ok::<
            (FrameState, Effect),
            VmError,
        >((FrameState { stack: s.stack.insert(s.stack.len() - 2, s.stack.last()), ..s }, Effect::Next)),
        3 <= s.stack.len() < s.cap ==> step(Instruction::DupX2, s, pc) == Ok::<
            (FrameState, Effect),
            VmError,
        >((FrameState { stack: s.stack.insert(s.stack.len() - 3, s.stack.last()), ..s }, Effect::Next)),
{
    let n = s.stack.len() as int;
    assert(step(Instruction::Dup, s, pc) == stack_op_spec(Instruction::Dup, s));
    assert(step(Instruction::DupX1, s, pc) == stack_op_spec(Instruction::DupX1, s));
    assert(step(Instruction::DupX2, s, pc) == stack_op_spec(Instruction::DupX2, s));
    if 1 <= n < s.cap {
        assert(replace_top(s, 1, seq![top(s, 0), top(s, 0)]).stack =~= s.stack.push(s.stack.last()));
    }
    if 2 <= n < s.cap {
        assert(replace_top(s, 2, seq![top(s, 0), top(s, 1), top(s, 0)]).stack =~= s.stack.insert(
            n - 2,
            s.stack.last(),
        ));
    }
    if 3 <= n < s.cap {
        assert(replace_top(s, 3, seq![top(s, 0), top(s, 2), top(s, 1), top(s, 0)]).stack
            =~= s.stack.insert(n - 3, s.stack.last()));
    }
}

/// After `goto d` (or `goto_w d`) at `pc`, execution continues at `pc + d`.
pub proof fn lemma_goto_target(s: FrameState, pc: int, d: i16, w: i32)
    requires
        0 <= pc <= usize::MAX,
    ensures
        step(Instruction::Goto(d), s, pc) is Ok <==> 0 <= pc + d <= usize::MAX,
        step(Instruction::Goto(d), s, pc) is Ok ==> step(Instruction::Goto(d), s, pc)->Ok_0.0.next_pc
            == pc + d,
        step(Instruction::GotoW(w), s, pc) is Ok ==> step(Instruction::GotoW(w), s, pc)->Ok_0.0.next_pc
            == pc + w,
{
}

/// A `tableswitch` whose key lies below `low` or above `high` branches by the default offset.
pub proof fn lemma_tableswitch_default(
    s: FrameState,
    pc: int,
    default_offset: i32,
    low: i32,
    high: i32,
    offsets: Vec<i32>,
)
    requires
        1 <= s.stack.len() <= s.cap,
        top(s, 0).num < low || top(s, 0).num > high,
    ensures
        step(Instruction::TableSwitch { default_offset, low, high, offsets }, s, pc) == branch_to(
            replace_top(s, 1, seq![]),
            pc,
            default_offset as int,
        ),
        0 <= pc + default_offset <= usize::MAX ==> step(
            Instruction::TableSwitch { default_offset, low, high, offsets },
            s,
            pc,
        ) == Ok::<(FrameState, Effect), VmError>(
            (FrameState { next_pc: pc + default_offset, ..replace_top(s, 1, seq![]) }, Effect::Next),
        ),
{
}

/// Integer addition, subtraction, multiplication and negation never fail when their
/// operands are on the stack: they pop them and push the wrapped result (see
/// `lemma_arithmetic_wraps` for how it wraps).
pub proof fn lemma_arithmetic_never_fails(s: FrameState, pc: int)
    requires
        s.stack.len() <= s.cap,
    ensures
        s.stack.len() >= 2 ==> step(Instruction::Iadd, s, pc) == Ok::<(FrameState, Effect), VmError>(
            (replace_top(s, 2, seq![int_slot(int_op_value(IntOp::Add, top(s, 1).num, top(s, 0).num))]), Effect::Next),
        ),
        s.stack.len() >= 2 ==> step(Instruction::Isub, s, pc) == Ok::<(FrameState, Effect), VmError>(
            (replace_top(s, 2, seq![int_slot(int_op_value(IntOp::Sub, top(s, 1).num, top(s, 0).num))]), Effect::Next),
        ),
        s.stack.len() >= 2 ==> step(Instruction::Imul, s, pc) == Ok::<(FrameState, Effect), VmError>(
            (replace_top(s, 2, seq![int_slot(int_op_value(IntOp::Mul, top(s, 1).num, top(s, 0).num))]), Effect::Next),
        ),
        s.stack.len() >= 1 ==> step(Instruction::Ineg, s, pc) == Ok::<(FrameState, Effect), VmError>(
            (replace_top(s, 1, seq![int_slot(int_op_value(IntOp::Sub, 0, top(s, 0).num))]), Effect::Next),
        ),
        s.stack.len() >= 4 ==> step(Instruction::Ladd, s, pc) == Ok::<(FrameState, Effect), VmError>(
            (replace_top(s, 4, long_slots(long_op_value(IntOp::Add, long_at(s, 2), long_at(s, 0)))), Effect::Next),
        ),
        s.stack.len() >= 4 ==> step(Instruction::Lsub, s, pc) == Ok::<(FrameState, Effect), VmError>(
            (replace_top(s, 4, long_slots(long_op_value(IntOp::Sub, long_at(s, 2), long_at(s, 0)))), Effect::Next),
        ),
        s.stack.len() >= 4 ==> step(Instruction::Lmul, s, pc) == Ok::<(FrameState, Effect), VmError>(
            (replace_top(s, 4, long_slots(long_op_value(IntOp::Mul, long_at(s, 2), long_at(s, 0)))), Effect::Next),
        ),
        s.stack.len() >= 2 ==> step(Instruction::Lneg, s, pc) == Ok::<(FrameState, Effect), VmError>(
            (replace_top(s, 2, long_slots(long_op_value(IntOp::Sub, 0, long_at(s, 0)))), Effect::Next),
        ),
{
}

} // verus!
