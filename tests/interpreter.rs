use jvm::bytecode_reader::BytecodeReader;
use jvm::instructions::{Conversion, Effect, FloatOp, FloatRequest, Instruction};
use jvm::interpreter::{loop_interpret, step_frame, Halt};
use jvm::runtime_data_area::{Frame, Object, Thread, VmError};

fn run(code: Vec<u8>, frame: Frame) -> (Thread, Result<Halt, VmError>) {
    let mut thread = Thread::new();
    thread.push_frame(frame).unwrap();
    let r = loop_interpret(&mut thread, code, 1000);
    (thread, r)
}

fn ints(thread: &Thread) -> Vec<i32> {
    let s = &thread.current_frame().operand_stack;
    (0..s.size()).map(|d| s.peek(d).num).collect()
}

fn exec(ins: Instruction, frame: &mut Frame, pc: usize) -> Result<Effect, VmError> {
    ins.execute(frame, pc)
}

fn frame_with_ints(vals: &[i32], cap: usize) -> Frame {
    let mut f = Frame::new(4, cap, 0);
    for v in vals {
        f.operand_stack.push_int(*v);
    }
    f
}

fn top_ints(f: &Frame) -> Vec<i32> {
    (0..f.operand_stack.size()).map(|d| f.operand_stack.peek(d).num).collect()
}

#[test]
fn add_then_return() {
    let (t, r) = run(vec![0x03, 0x04, 0x60, 0xac], Frame::new(1, 2, 0));
    assert!(matches!(r, Ok(Halt::Returned)));
    assert_eq!(ints(&t)[0], 1);
    assert_eq!(t.pc(), 3);
}

#[test]
fn divide_then_return() {
    let (t, r) = run(vec![0x10, 0x05, 0x10, 0x03, 0x6c, 0xac], Frame::new(1, 2, 0));
    assert!(matches!(r, Ok(Halt::Returned)));
    assert_eq!(ints(&t)[0], 1);
}

#[test]
fn divide_by_zero_is_fatal() {
    let (_, r) = run(vec![0x10, 0x05, 0x10, 0x00, 0x6c], Frame::new(0, 2, 0));
    assert!(matches!(r, Err(VmError::DivideByZero)));
}

#[test]
fn compare_and_branch_program() {
    let (t, r) = run(
        vec![0x03, 0x03, 0xa0, 0x00, 0x05, 0x04, 0xa7, 0x00, 0x03, 0x05],
        Frame::new(0, 2, 0),
    );
    assert!(matches!(r, Ok(Halt::EndOfCode)));
    assert_eq!(ints(&t)[0], 2);
}

#[test]
fn reference_loads_reverse_order() {
    let mut f = Frame::new(4, 4, 0);
    for i in 0..4 {
        f.local_vars.set_ref(i, Some(Object { id: 10 + i as u64 }));
    }
    let (t, r) = run(vec![0x2a, 0x2b, 0x2c, 0x2d], f);
    assert!(matches!(r, Ok(Halt::EndOfCode)));
    let s = &t.current_frame().operand_stack;
    let tops: Vec<Option<Object>> = (0..4).map(|d| s.peek(d).objref).collect();
    assert_eq!(
        tops,
        vec![Some(Object { id: 13 }), Some(Object { id: 12 }), Some(Object { id: 11 }), Some(Object { id: 10 })]
    );
}

#[test]
fn unknown_opcode_is_reported() {
    let (_, r) = run(vec![0xff], Frame::new(0, 0, 0));
    assert!(matches!(r, Err(VmError::UnsupportedOpcode(0xff))));
}

#[test]
fn stack_underflow_is_fatal() {
    let (_, r) = run(vec![0x60], Frame::new(0, 2, 0));
    assert!(matches!(r, Err(VmError::OperandStackUnderflow)));
}

#[test]
fn stack_overflow_is_fatal() {
    let (_, r) = run(vec![0x03, 0x03], Frame::new(0, 1, 0));
    assert!(matches!(r, Err(VmError::OperandStackOverflow)));
}

#[test]
fn local_out_of_range_is_fatal() {
    let (_, r) = run(vec![0x1b], Frame::new(1, 1, 0));
    assert!(matches!(r, Err(VmError::LocalOutOfRange)));
}

#[test]
fn fuel_bounds_an_endless_loop() {
    let (_, r) = run(vec![0xa7, 0x00, 0x00], Frame::new(0, 0, 0));
    assert!(matches!(r, Ok(Halt::OutOfFuel)));
}

#[test]
fn float_arithmetic_is_handed_out() {
    // fconst_1, fconst_2, fadd
    let (t, r) = run(vec![0x0c, 0x0d, 0x62], Frame::new(0, 2, 0));
    match r {
        Ok(Halt::Float(FloatRequest::Float(FloatOp::Add, a, b))) => {
            assert_eq!(f32::from_bits(a), 1.0);
            assert_eq!(f32::from_bits(b), 2.0);
        }
        other => panic!("unexpected {:?}", other),
    }
    assert_eq!(t.current_frame().operand_stack.size(), 0);
}

#[test]
fn float_division_by_zero_does_not_fail() {
    // fconst_1, fconst_0, fdiv
    let (_, r) = run(vec![0x0c, 0x0b, 0x6e], Frame::new(0, 2, 0));
    assert!(matches!(r, Ok(Halt::Float(FloatRequest::Float(FloatOp::Div, _, 0)))));
}

#[test]
fn conversion_is_handed_out() {
    // iconst_5, i2d
    let (_, r) = run(vec![0x08, 0x87], Frame::new(0, 2, 0));
    assert!(matches!(r, Ok(Halt::Float(FloatRequest::Convert(Conversion::I2d, 5)))));
}

#[test]
fn integer_arithmetic_wraps() {
    let mut f = frame_with_ints(&[i32::MAX, 1], 2);
    exec(Instruction::Iadd, &mut f, 0).unwrap();
    assert_eq!(top_ints(&f), vec![i32::MIN]);
    let mut f = frame_with_ints(&[i32::MIN, 1], 2);
    exec(Instruction::Isub, &mut f, 0).unwrap();
    assert_eq!(top_ints(&f), vec![i32::MAX]);
    let mut f = frame_with_ints(&[0x10000, 0x10000], 2);
    exec(Instruction::Imul, &mut f, 0).unwrap();
    assert_eq!(top_ints(&f), vec![0]);
    let mut f = frame_with_ints(&[i32::MIN], 2);
    exec(Instruction::Ineg, &mut f, 0).unwrap();
    assert_eq!(top_ints(&f), vec![i32::MIN]);
    let mut f = frame_with_ints(&[i32::MIN, -1], 2);
    exec(Instruction::Idiv, &mut f, 0).unwrap();
    assert_eq!(top_ints(&f), vec![i32::MIN]);
    let mut f = frame_with_ints(&[i32::MIN, -1], 2);
    exec(Instruction::Irem, &mut f, 0).unwrap();
    assert_eq!(top_ints(&f), vec![0]);
    let mut f = frame_with_ints(&[-7, 2], 2);
    exec(Instruction::Idiv, &mut f, 0).unwrap();
    assert_eq!(top_ints(&f), vec![-3]);
    let mut f = frame_with_ints(&[-7, 2], 2);
    exec(Instruction::Irem, &mut f, 0).unwrap();
    assert_eq!(top_ints(&f), vec![-1]);
}

#[test]
fn long_arithmetic_wraps() {
    let mut f = Frame::new(0, 4, 0);
    f.operand_stack.push_long(i64::MAX);
    f.operand_stack.push_long(1);
    exec(Instruction::Ladd, &mut f, 0).unwrap();
    assert_eq!(f.operand_stack.pop_long(), i64::MIN);
    f.operand_stack.push_long(i64::MIN);
    f.operand_stack.push_long(-1);
    exec(Instruction::Ldiv, &mut f, 0).unwrap();
    assert_eq!(f.operand_stack.pop_long(), i64::MIN);
    f.operand_stack.push_long(5);
    f.operand_stack.push_long(0);
    assert_eq!(exec(Instruction::Lrem, &mut f, 0), Err(VmError::DivideByZero));
}

#[test]
fn shifts_mask_their_amount() {
    let mut f = frame_with_ints(&[3, 33], 2);
    exec(Instruction::Ishl, &mut f, 0).unwrap();
    assert_eq!(top_ints(&f), vec![6]);
    let mut f = frame_with_ints(&[-16, 2], 2);
    exec(Instruction::Ishr, &mut f, 0).unwrap();
    assert_eq!(top_ints(&f), vec![-4]);
    let mut f = frame_with_ints(&[-16, 28], 2);
    exec(Instruction::Iushr, &mut f, 0).unwrap();
    assert_eq!(top_ints(&f), vec![15]);
    let mut f = Frame::new(0, 3, 0);
    f.operand_stack.push_long(1);
    f.operand_stack.push_int(65);
    exec(Instruction::Lshl, &mut f, 0).unwrap();
    assert_eq!(f.operand_stack.pop_long(), 2);
    f.operand_stack.push_long(-1);
    f.operand_stack.push_int(60);
    exec(Instruction::Lushr, &mut f, 0).unwrap();
    assert_eq!(f.operand_stack.pop_long(), 15);
}

#[test]
fn lcmp_yields_sign() {
    for (a, b, want) in [(1i64, 2i64, -1), (2, 2, 0), (i64::MAX, i64::MIN, 1)] {
        let mut f = Frame::new(0, 4, 0);
        f.operand_stack.push_long(a);
        f.operand_stack.push_long(b);
        exec(Instruction::LCmp, &mut f, 0).unwrap();
        assert_eq!(top_ints(&f), vec![want]);
    }
}

#[test]
fn float_compare_with_nan() {
    let nan = f32::NAN.to_bits();
    for (ins, want) in [(Instruction::FCmpG, 1), (Instruction::FCmpL, -1)] {
        let mut f = Frame::new(0, 2, 0);
        f.operand_stack.push_float(nan);
        f.operand_stack.push_float(1.0f32.to_bits());
        exec(ins, &mut f, 0).unwrap();
        assert_eq!(top_ints(&f), vec![want]);
    }
    let mut f = Frame::new(0, 2, 0);
    f.operand_stack.push_float((-0.0f32).to_bits());
    f.operand_stack.push_float(0.0f32.to_bits());
    exec(Instruction::FCmpL, &mut f, 0).unwrap();
    assert_eq!(top_ints(&f), vec![0]);
    let mut f = Frame::new(0, 2, 0);
    f.operand_stack.push_float((-2.0f32).to_bits());
    f.operand_stack.push_float((-1.0f32).to_bits());
    exec(Instruction::FCmpG, &mut f, 0).unwrap();
    assert_eq!(top_ints(&f), vec![-1]);
}

#[test]
fn double_compare_with_nan() {
    let mut f = Frame::new(0, 4, 0);
    f.operand_stack.push_double(1.5f64.to_bits());
    f.operand_stack.push_double(f64::NAN.to_bits());
    exec(Instruction::DCmpL, &mut f, 0).unwrap();
    assert_eq!(top_ints(&f), vec![-1]);
    let mut f = Frame::new(0, 4, 0);
    f.operand_stack.push_double(3.0f64.to_bits());
    f.operand_stack.push_double((-3.0f64).to_bits());
    exec(Instruction::DCmpG, &mut f, 0).unwrap();
    assert_eq!(top_ints(&f), vec![1]);
}

#[test]
fn negation_flips_the_sign_bit() {
    let mut f = Frame::new(0, 2, 0);
    f.operand_stack.push_float(2.5f32.to_bits());
    exec(Instruction::Fneg, &mut f, 0).unwrap();
    assert_eq!(f32::from_bits(f.operand_stack.pop_float()), -2.5);
    f.operand_stack.push_double(2.5f64.to_bits());
    exec(Instruction::Dneg, &mut f, 0).unwrap();
    assert_eq!(f64::from_bits(f.operand_stack.pop_double()), -2.5);
}

#[test]
fn dup_family_on_tagged_slots() {
    let cases: Vec<(Instruction, Vec<i32>, Vec<i32>)> = vec![
        (Instruction::Dup, vec![1, 2], vec![1, 2, 2]),
        (Instruction::DupX1, vec![1, 2, 3], vec![1, 3, 2, 3]),
        (Instruction::DupX2, vec![1, 2, 3, 4], vec![1, 4, 2, 3, 4]),
        (Instruction::Dup2, vec![1, 2, 3], vec![1, 2, 3, 2, 3]),
        (Instruction::Dup2X1, vec![1, 2, 3], vec![2, 3, 1, 2, 3]),
        (Instruction::Dup2X2, vec![1, 2, 3, 4], vec![3, 4, 1, 2, 3, 4]),
        (Instruction::Swap, vec![1, 2, 3], vec![1, 3, 2]),
        (Instruction::Pop2, vec![1, 2, 3], vec![1]),
    ];
    for (ins, before, after) in cases {
        let mut f = frame_with_ints(&before, 8);
        exec(ins, &mut f, 0).unwrap();
        let mut bottom_first = top_ints(&f);
        bottom_first.reverse();
        assert_eq!(bottom_first, after);
    }
}

#[test]
fn goto_is_relative_to_its_opcode() {
    let mut f = Frame::new(0, 0, 0);
    f.set_next_pc(13);
    exec(Instruction::Goto(-6), &mut f, 10).unwrap();
    assert_eq!(f.next_pc(), 4);
    exec(Instruction::GotoW(100_000), &mut f, 10).unwrap();
    assert_eq!(f.next_pc(), 100_010);
    assert_eq!(exec(Instruction::Goto(-11), &mut f, 10), Err(VmError::BranchOutOfRange));
}

#[test]
fn conditional_branches_taken_and_not() {
    let cases: Vec<(Instruction, Vec<i32>, bool)> = vec![
        (Instruction::IfEq(20), vec![0], true),
        (Instruction::IfEq(20), vec![1], false),
        (Instruction::IfNe(20), vec![1], true),
        (Instruction::IfLt(20), vec![-1], true),
        (Instruction::IfGe(20), vec![-1], false),
        (Instruction::IfGt(20), vec![0], false),
        (Instruction::IfLe(20), vec![0], true),
        (Instruction::IficmpEq(20), vec![3, 3], true),
        (Instruction::IficmpNe(20), vec![3, 3], false),
        (Instruction::IficmpLt(20), vec![2, 3], true),
        (Instruction::IficmpGe(20), vec![2, 3], false),
        (Instruction::IficmpGt(20), vec![4, 3], true),
        (Instruction::IficmpLe(20), vec![4, 3], false),
    ];
    for (ins, vals, taken) in cases {
        let mut f = frame_with_ints(&vals, 2);
        f.set_next_pc(3);
        exec(ins, &mut f, 0).unwrap();
        assert_eq!(f.next_pc(), if taken { 20 } else { 3 });
        assert_eq!(f.operand_stack.size(), 0);
    }
    let mut f = Frame::new(0, 2, 0);
    f.operand_stack.push_ref(None);
    exec(Instruction::IfNull(8), &mut f, 1).unwrap();
    assert_eq!(f.next_pc(), 9);
    f.operand_stack.push_ref(Some(Object { id: 1 }));
    f.operand_stack.push_ref(Some(Object { id: 1 }));
    exec(Instruction::IfacmpEq(8), &mut f, 1).unwrap();
    assert_eq!(f.next_pc(), 9);
}

#[test]
fn tableswitch_match_miss_and_bounds() {
    let make = || Instruction::TableSwitch { default_offset: 100, low: 1, high: 3, offsets: vec![10, 20, 30] };
    for (k, want) in [(0, 100), (1, 10), (2, 20), (3, 30), (4, 100), (i32::MIN, 100)] {
        let mut f = frame_with_ints(&[k], 1);
        exec(make(), &mut f, 0).unwrap();
        assert_eq!(f.next_pc(), want);
    }
}

#[test]
fn lookupswitch_match_and_miss() {
    let make = || Instruction::LookupSwitch {
        default_offset: 100,
        npairs: 2,
        match_offsets: vec![(-5, 10), (7, 20)],
    };
    for (k, want) in [(-5, 10), (7, 20), (0, 100)] {
        let mut f = frame_with_ints(&[k], 1);
        exec(make(), &mut f, 0).unwrap();
        assert_eq!(f.next_pc(), want);
    }
}

#[test]
fn iinc_adds_in_place() {
    let mut f = Frame::new(2, 0, 0);
    f.local_vars.set_int(1, i32::MAX);
    exec(Instruction::Iinc(1, 1), &mut f, 0).unwrap();
    assert_eq!(f.local_vars.get_int(1), i32::MIN);
    assert_eq!(exec(Instruction::Iinc(2, 1), &mut f, 0), Err(VmError::LocalOutOfRange));
}

#[test]
fn decode_switches_and_wide_forms() {
    // nop, nop, tableswitch at 2: pad to 4, default 16, low 0, high 1, offsets 20, 24
    let code = vec![
        0x00, 0x00, 0xaa, 0x00, 0, 0, 0, 16, 0, 0, 0, 0, 0, 0, 0, 1, 0, 0, 0, 20, 0, 0, 0, 24,
    ];
    let mut reader = BytecodeReader::new(code);
    reader.seek(3);
    let mut ins = Instruction::from_opcode(0xaa).unwrap();
    ins.fetch_operands(&mut reader).unwrap();
    match &ins {
        Instruction::TableSwitch { default_offset, low, high, offsets } => {
            assert_eq!((*default_offset, *low, *high), (16, 0, 1));
            assert_eq!(offsets, &vec![20, 24]);
        }
        other => panic!("unexpected {:?}", other),
    }
    assert_eq!(reader.pc(), 24);

    let wide_cases: Vec<(u8, i32)> = vec![
        (0x15, 0), (0x16, 1), (0x17, 2), (0x18, 3), (0x19, 4),
        (0x36, 5), (0x37, 6), (0x38, 7), (0x39, 8), (0x3a, 9),
    ];
    for (op, _) in wide_cases {
        let mut reader = BytecodeReader::new(vec![0xc4, op, 0x01, 0x02]);
        reader.seek(1);
        let mut ins = Instruction::from_opcode(0xc4).unwrap();
        ins.fetch_operands(&mut reader).unwrap();
        match &ins {
            Instruction::Wide(inner) => match **inner {
                Instruction::Iload(i) | Instruction::Lload(i) | Instruction::Fload(i)
                | Instruction::Dload(i) | Instruction::Aload(i) | Instruction::Istore(i)
                | Instruction::Lstore(i) | Instruction::Fstore(i) | Instruction::Dstore(i)
                | Instruction::Astore(i) => assert_eq!(i, 0x0102),
                ref other => panic!("unexpected {:?}", other),
            },
            other => panic!("unexpected {:?}", other),
        }
        assert_eq!(reader.pc(), 4);
    }

    let mut reader = BytecodeReader::new(vec![0xc4, 0x84, 0x01, 0x00, 0xff, 0xfe]);
    reader.seek(1);
    let mut ins = Instruction::from_opcode(0xc4).unwrap();
    ins.fetch_operands(&mut reader).unwrap();
    assert!(matches!(&ins, Instruction::Wide(inner) if matches!(**inner, Instruction::Iinc(0x100, -2))));

    let mut reader = BytecodeReader::new(vec![0xc4, 0x60, 0x00, 0x00]);
    reader.seek(1);
    let mut ins = Instruction::from_opcode(0xc4).unwrap();
    assert_eq!(ins.fetch_operands(&mut reader), Err(VmError::UnsupportedOpcode(0x60)));
}

#[test]
fn wide_iinc_runs() {
    // wide iinc 1 by 1000, then iload_1
    let mut f = Frame::new(2, 1, 0);
    f.local_vars.set_int(1, 5);
    let (t, r) = run(vec![0xc4, 0x84, 0x00, 0x01, 0x03, 0xe8, 0x1b], f);
    assert!(matches!(r, Ok(Halt::EndOfCode)));
    assert_eq!(ints(&t), vec![1005]);
}

#[test]
fn truncated_operands_are_reported() {
    let (_, r) = run(vec![0x11, 0x01], Frame::new(0, 1, 0));
    assert!(matches!(r, Err(VmError::TruncatedCode)));
}

#[test]
fn step_frame_reports_the_instruction() {
    let mut f = Frame::new(0, 1, 0);
    let mut reader = BytecodeReader::new(vec![0x10, 0x2a]);
    let r = step_frame(&mut f, &mut reader).unwrap();
    assert!(matches!(r, Some((Instruction::Bipush(42), Effect::Next))));
    assert_eq!(f.next_pc(), 2);
    assert!(step_frame(&mut f, &mut reader).unwrap().is_none());
}

#[test]
fn linker_instructions_are_handed_out() {
    let (_, r) = run(vec![0xb2, 0x00, 0x07], Frame::new(0, 0, 0));
    assert!(matches!(r, Ok(Halt::Link(Instruction::GetStatic(7)))));
}
