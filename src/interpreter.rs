use vstd::prelude::*;

use crate::bytecode_reader::BytecodeReader;
use crate::decode::{opcode_of, operand_end, operands_match, operands_readable};
use crate::instructions::{outcome, state, step, Effect, FloatRequest, FrameState, Instruction};
use crate::attribute::Attribute;
use crate::classfile::Field;
use crate::runtime_data_area::{detached, empty_slot, Frame, Thread, VmError};

verus! {

/// Why the interpreter loop stopped without a fatal condition.
#[derive(Debug)]
pub enum Halt {
    /// A return instruction ran; its result, if any, is on top of the operand stack.
    Returned,
    /// Execution ran off the end of the code.
    EndOfCode,
    /// A floating-point instruction waits for its result to be pushed.
    Float(FloatRequest),
    /// The instruction needs the class linker or the heap.
    Link(Instruction),
    /// The step budget ran out.
    OutOfFuel,
}

/// The frame, with its next pc moved past the operands of the instruction at `pc`.
pub open spec fn advanced(s: FrameState, ins: Instruction, code: Seq<u8>, pc: int) -> FrameState {
    FrameState { next_pc: operand_end(ins, code, pc + 1), ..s }
}

/// The opcode at `pc` is one of the return instructions.
pub open spec fn is_return_at(code: Seq<u8>, pc: int) -> bool {
    0 <= pc < code.len() && 0xac <= code[pc] <= 0xb1
}

/// Only the return instructions end a method.
#[verifier::rlimit(80)]
pub proof fn lemma_only_returns_return(ins: Instruction, s: FrameState, pc: int)
    requires
        step(ins, s, pc) matches Ok((_, Effect::Return)),
    ensures
        0xac <= opcode_of(ins) <= 0xb1,
{
}

/// Decodes and executes the instruction at the frame's next pc; `Ok(None)` at the end of
/// the code.
pub fn step_frame(frame: &mut Frame, reader: &mut BytecodeReader) -> (r: Result<
    Option<(Instruction, Effect)>,
    VmError,
>)
    ensures
        final(reader).code() == old(reader).code(),
        final(frame).lower == old(frame).lower,
        final(frame).thread == old(frame).thread,
        final(frame).operand_stack.capacity() == old(frame).operand_stack.capacity(),
        old(frame).next_pc == old(reader).code().len() <==> r matches Ok(None),
        r matches Ok(None) ==> *final(frame) == *old(frame),
        old(frame).next_pc > old(reader).code().len() ==> r == Err::<
            Option<(Instruction, Effect)>,
            VmError,
        >(VmError::BranchOutOfRange),
        r matches Ok(Some((ins, e))) ==> {
            let code = old(reader).code();
            let pc = old(frame).next_pc as int;
            &&& pc < code.len()
            &&& opcode_of(ins) == code[pc]
            &&& operands_match(ins, code, pc + 1)
            &&& operands_readable(ins, code, pc + 1)
            &&& outcome(
                step(ins, advanced(state(*old(frame)), ins, code, pc), pc),
                *old(frame),
                *final(frame),
                Ok(e),
            )
        },
        old(frame).next_pc < old(reader).code().len() && (forall|i: Instruction|
            opcode_of(i) != old(reader).code()[old(frame).next_pc as int]) ==> r == Err::<
            Option<(Instruction, Effect)>,
            VmError,
        >(VmError::UnsupportedOpcode(old(reader).code()[old(frame).next_pc as int])),
        r matches Err(e) ==> old(frame).next_pc >= old(reader).code().len() || {
            let code = old(reader).code();
            let pc = old(frame).next_pc as int;
            ||| forall|i: Instruction| opcode_of(i) != code[pc]
            ||| exists|i: Instruction|
                opcode_of(i) == code[pc] && (!operands_readable(i, code, pc + 1) || (
                operands_readable(i, code, pc + 1) && operands_match(i, code, pc + 1) && step(
                    i,
                    advanced(state(*old(frame)), i, code, pc),
                    pc,
                ) == Err::<(FrameState, Effect), VmError>(e)))
        },
{
    let pc = frame.next_pc;
    let len = reader.len();
    if pc == len {
        return Ok(None);
    }
    if pc > len {
        return Err(VmError::BranchOutOfRange);
    }
    reader.seek(pc);
    let opcode = reader.read_u8();
    let mut ins = match Instruction::from_opcode(opcode) {
        Some(i) => i,
        None => {
            return Err(VmError::UnsupportedOpcode(opcode));
        },
    };
    let ghost template = ins;
    match ins.fetch_operands(reader) {
        Ok(()) => {},
        Err(e) => {
            assert(opcode_of(template) == opcode && (!operands_readable(
                template,
                reader.code(),
                pc + 1,
            ) || false));
            return Err(e);
        },
    }
    let ghost before = *frame;
    frame.set_next_pc(reader.pc());
    assert(state(*frame) == advanced(state(before), ins, reader.code(), pc as int));
    match ins.execute(frame, pc) {
        Ok(e) => Ok(Some((ins, e))),
        Err(e) => {
            assert(opcode_of(ins) == opcode && (!operands_readable(ins, reader.code(), pc + 1) || (
            operands_readable(ins, reader.code(), pc + 1) && operands_match(ins, reader.code(), pc + 1)
                && step(ins, advanced(state(before), ins, reader.code(), pc as int), pc as int) == Err::<
                (FrameState, Effect),
                VmError,
            >(e))));
            Err(e)
        },
    }
}

/// Running `code` from frame state `s` with a budget of `fuel` instructions may end with
/// the frame in state `t` and the result `r`. An error leaves the frame's state open.
pub open spec fn runs(
    code: Seq<u8>,
    s: FrameState,
    fuel: nat,
    t: FrameState,
    r: Result<Halt, VmError>,
) -> bool
    decreases fuel,
{
    let pc = s.next_pc;
    if fuel == 0 {
        t == s && r matches Ok(Halt::OutOfFuel)
    } else if pc == code.len() {
        t == s && r matches Ok(Halt::EndOfCode)
    } else if pc > code.len() {
        r == Err::<Halt, VmError>(VmError::BranchOutOfRange)
    } else if forall|i: Instruction| opcode_of(i) != code[pc] {
        r == Err::<Halt, VmError>(VmError::UnsupportedOpcode(code[pc]))
    } else {
        exists|i: Instruction|
            opcode_of(i) == code[pc] && ((!operands_readable(i, code, pc + 1) && r is Err) || (
            operands_readable(i, code, pc + 1) && operands_match(i, code, pc + 1) && match step(
                i,
                advanced(s, i, code, pc),
                pc,
            ) {
                Ok((s1, Effect::Next)) => runs(code, s1, (fuel - 1) as nat, t, r),
                Ok((s1, Effect::Return)) => t == s1 && r matches Ok(Halt::Returned),
                Ok((s1, Effect::Float(q))) => t == s1 && r == Ok::<Halt, VmError>(Halt::Float(q)),
                Ok((s1, Effect::Link)) => t == s1 && r == Ok::<Halt, VmError>(Halt::Link(i)),
                Err(e) => r == Err::<Halt, VmError>(e),
            }))
    }
}

/// Runs the method whose code is `code` in the current frame of `thread`, one instruction
/// after another, for at most `fuel` instructions: until it returns, runs off the end of
/// its code, needs floating-point arithmetic or the linker, or meets a fatal condition.
#[verifier::rlimit(40)]
pub fn loop_interpret(thread: &mut Thread, code: Vec<u8>, fuel: u64) -> (r:
    Result<Halt, VmError>)
    requires
        old(thread).frames().len() > 0,
    ensures
        final(thread).frames().len() == old(thread).frames().len(),
        final(thread).depth_limit() == old(thread).depth_limit(),
        r matches Ok(Halt::EndOfCode) ==> final(thread).frames().last().next_pc == code@.len(),
        r matches Ok(Halt::Returned) ==> is_return_at(code@, final(thread).pc() as int),
        final(thread).frames().drop_last() == old(thread).frames().drop_last(),
        runs(
            code@,
            state(old(thread).frames().last()),
            fuel as nat,
            state(final(thread).frames().last()),
            r,
        ),
{
    let mut frame = thread.pop_frame();
    let ghost frames = thread.frames();
    let ghost s0 = state(*frame);
    let mut reader = BytecodeReader::new(code);
    let mut steps: u64 = 0;
    let mut result: Result<Halt, VmError> = Ok(Halt::OutOfFuel);
    let mut done = false;
    while steps < fuel && !done
        invariant
            thread.frames() == frames,
            thread.depth_limit() == old(thread).depth_limit(),
            frames.len() < thread.depth_limit(),
            reader.code() == code@,
            !done ==> result matches Ok(Halt::OutOfFuel),
            result matches Ok(Halt::EndOfCode) ==> frame.next_pc == code@.len(),
            result matches Ok(Halt::Returned) ==> is_return_at(code@, thread.pc() as int),
            steps <= fuel,
            !done ==> forall|t: FrameState, r: Result<Halt, VmError>|
                runs(code@, state(*frame), (fuel - steps) as nat, t, r) ==> runs(
                    code@,
                    s0,
                    fuel as nat,
                    t,
                    r,
                ),
            done ==> runs(code@, s0, fuel as nat, state(*frame), result),
        decreases fuel - steps,
    {
        let pc = frame.next_pc;
        thread.set_pc(pc);
        let ghost before = *frame;
        let ghost k = (fuel - steps) as nat;
        let stepped = step_frame(&mut frame, &mut reader);
        proof {
            assert(k > 0);
            reveal_with_fuel(runs, 2);
        }
        match stepped {
            Ok(None) => {
                assert(runs(code@, state(before), k, state(*frame), Ok::<Halt, VmError>(Halt::EndOfCode)));
                result = Ok(Halt::EndOfCode);
                done = true;
            },
            Ok(Some((ins, e))) => match e {
                Effect::Next => {
                    assert forall|t: FrameState, r: Result<Halt, VmError>|
                        runs(code@, state(*frame), (k - 1) as nat, t, r) implies runs(
                            code@,
                            state(before),
                            k,
                            t,
                            r,
                        ) by {
                        assert(opcode_of(ins) == code@[pc as int]);
                    }
                },
                Effect::Return => {
                    proof {
                        lemma_only_returns_return(
                            ins,
                            advanced(state(before), ins, code@, pc as int),
                            pc as int,
                        );
                    }
                    result = Ok(Halt::Returned);
                    assert(opcode_of(ins) == code@[pc as int]);
                    assert(runs(code@, state(before), k, state(*frame), result));
                    done = true;
                },
                Effect::Float(req) => {
                    result = Ok(Halt::Float(req));
                    assert(opcode_of(ins) == code@[pc as int]);
                    assert(runs(code@, state(before), k, state(*frame), result));
                    done = true;
                },
                Effect::Link => {
                    result = Ok(Halt::Link(ins));
                    assert(opcode_of(ins) == code@[pc as int]);
                    assert(runs(code@, state(before), k, state(*frame), result));
                    done = true;
                },
            },
            Err(e) => {
                result = Err(e);
                assert(runs(code@, state(before), k, state(*frame), result));
                done = true;
            },
        }
        steps = steps + 1;
    }
    let pushed = thread.push_frame(*frame);
    assert(pushed is Ok);
    assert(state(detached(*frame)) == state(*frame));
    assert(thread.frames().drop_last() =~= frames);
    result
}


/// The state of a new frame with `max_locals` empty locals and room for `max_stack` slots.
pub open spec fn initial_state(max_locals: u16, max_stack: u16) -> FrameState {
    FrameState {
        locals: Seq::new(max_locals as nat, |i: int| empty_slot()),
        stack: Seq::empty(),
        cap: max_stack as nat,
        next_pc: 0,
    }
}

/// Runs a method from its first instruction, in a new thread whose only frame has the
/// locals and operand stack that the method's Code attribute asks for.
pub fn interpret(method_info: &Field, fuel: u64) -> (r: Result<(Thread, Halt), VmError>)
    ensures
        (forall|j: int|
            0 <= j < method_info.attributes@.len() ==> !(#[trigger] method_info.attributes@[j] is Code))
            ==> r == Err::<(Thread, Halt), VmError>(VmError::MissingCode),
        forall|i: int|
            0 <= i < method_info.attributes@.len() && (#[trigger] method_info.attributes@[i] is Code)
                && (forall|j: int| 0 <= j < i ==> !(method_info.attributes@[j] is Code))
                ==> match method_info.attributes@[i] {
                Attribute::Code { max_stack, max_locals, code, .. } => match r {
                    Ok((t, h)) => t.frames().len() == 1 && runs(
                        code@,
                        initial_state(max_locals, max_stack),
                        fuel as nat,
                        state(t.frames()[0]),
                        Ok(h),
                    ),
                    Err(e) => exists|t: FrameState|
                        runs(code@, initial_state(max_locals, max_stack), fuel as nat, t, Err(e)),
                },
                _ => true,
            },
{
    let code_attr = match method_info.get_code() {
        Some(a) => a,
        None => {
            return Err(VmError::MissingCode);
        },
    };
    let (max_stack, max_locals, code) = match code_attr {
        Attribute::Code { max_stack, max_locals, code, .. } => (*max_stack, *max_locals, code.clone()),
        _ => {
            return Err(VmError::MissingCode);
        },
    };
    let mut thread = Thread::new();
    let frame = Frame::new(max_locals as usize, max_stack as usize, 0);
    let pushed = thread.push_frame(frame);
    assert(pushed is Ok);
    let ghost code_view = code@;
    let ghost s0 = initial_state(max_locals, max_stack);
    assert(state(thread.frames().last()) == s0);
    let run = loop_interpret(&mut thread, code, fuel);
    proof {
        if run is Ok {
            assert(thread.frames()[0] == thread.frames().last());
        } else {
            let t = state(thread.frames().last());
            assert(runs(code_view, s0, fuel as nat, t, run));
        }
    }
    let halt = run?;
    Ok((thread, halt))
}

} // verus!
