use jvm::runtime_data_area::{Frame, LocalVars, Object, OperandStack, Slot, Stack, Thread, VmError};

#[test]
fn test_local_vars() {
    let mut local_vars = LocalVars::new(10);
    local_vars.set_int(0, 100);
    assert_eq!(local_vars.get_int(0), 100);

    local_vars.set_float(1, 3.14f32.to_bits());
    assert_eq!(f32::from_bits(local_vars.get_float(1)), 3.14);

    local_vars.set_long(2, 2997924580);
    assert_eq!(local_vars.get_long(2), 2997924580);

    local_vars.set_double(4, 2.71828182845f64.to_bits());
    assert_eq!(f64::from_bits(local_vars.get_double(4)), 2.71828182845);
}

#[test]
fn test_operand_stack() {
    let mut operand_stack = OperandStack::new(10);
    operand_stack.push_int(100);
    assert_eq!(operand_stack.pop_int(), 100);

    operand_stack.push_float(3.14f32.to_bits());
    assert_eq!(f32::from_bits(operand_stack.pop_float()), 3.14);

    operand_stack.push_long(2997924580);
    assert_eq!(operand_stack.pop_long(), 2997924580);

    operand_stack.push_double(2.71828182845f64.to_bits());
    assert_eq!(f64::from_bits(operand_stack.pop_double()), 2.71828182845);
}

#[test]
fn test_stack() {
    let mut stack = Stack::new(10);
    let frame = Frame::new(10, 10, 0);
    stack.push(frame).unwrap();
    assert_eq!(stack.size(), 1);
    let _frame = stack.pop();
    assert_eq!(stack.size(), 0);
}

#[test]
fn test_thread() {
    let mut thread = Thread::new();
    let frame = Frame::new(10, 10, 0);
    thread.push_frame(frame).unwrap();
    assert_eq!(thread.stack().size(), 1);
    let _frame = thread.pop_frame();
    assert_eq!(thread.stack().size(), 0);
}

#[test]
fn slot_round_trip_every_type() {
    let mut l = LocalVars::new(4);
    l.set_int(0, -7);
    assert_eq!(l.get_int(0), -7);
    l.set_ref(1, Some(Object { id: 9 }));
    assert_eq!(l.get_ref(1), Some(Object { id: 9 }));
    l.set_ref(1, None);
    assert_eq!(l.get_ref(1), None);
    l.set_float(2, (-0.5f32).to_bits());
    assert_eq!(f32::from_bits(l.get_float(2)), -0.5);
    l.set_long(0, i64::MIN + 3);
    assert_eq!(l.get_long(0), i64::MIN + 3);
    l.set_double(2, f64::MAX.to_bits());
    assert_eq!(f64::from_bits(l.get_double(2)), f64::MAX);
}

#[test]
fn long_stores_low_word_first() {
    let mut l = LocalVars::new(2);
    l.set_long(0, 0x1122_3344_5566_7788);
    assert_eq!(l.get_int(0), 0x5566_7788);
    assert_eq!(l.get_int(1), 0x1122_3344);
    l.set_long(0, -1);
    assert_eq!(l.get_int(0), -1);
    assert_eq!(l.get_int(1), -1);
}

#[test]
fn push_pop_round_trip_every_type() {
    let mut s = OperandStack::new(4);
    s.push_ref(Some(Object { id: 3 }));
    assert_eq!(s.pop_ref(), Some(Object { id: 3 }));
    s.push_long(-2);
    assert_eq!(s.size(), 2);
    assert_eq!(s.pop_long(), -2);
    s.push_int(i32::MIN);
    assert_eq!(s.pop_int(), i32::MIN);
    s.push_slot(Slot { num: 5, objref: None });
    assert_eq!(s.pop_slot(), Slot { num: 5, objref: None });
    assert_eq!(s.size(), 0);
}

#[test]
fn stack_push_beyond_capacity_overflows() {
    let mut stack = Stack::new(1);
    assert_eq!(stack.push(Frame::new(0, 0, 0)), Ok(()));
    assert_eq!(stack.push(Frame::new(0, 0, 0)), Err(VmError::StackOverflow));
    assert_eq!(stack.size(), 1);
}

#[test]
fn stack_pop_returns_last_pushed() {
    let mut stack = Stack::new(4);
    stack.push(Frame::new(1, 1, 0)).unwrap();
    let mut f = Frame::new(2, 1, 0);
    f.set_next_pc(7);
    stack.push(f).unwrap();
    assert_eq!(stack.top().next_pc(), 7);
    let popped = stack.pop();
    assert_eq!(popped.next_pc(), 7);
    assert!(popped.lower.is_none());
    assert_eq!(stack.top().local_vars.len(), 1);
}

#[test]
fn thread_pc_and_current_frame() {
    let mut thread = Thread::new();
    thread.set_pc(12);
    assert_eq!(thread.pc(), 12);
    thread.push_frame(Frame::new(3, 2, 5)).unwrap();
    assert_eq!(thread.current_frame().thread(), 5);
    assert_eq!(thread.current_frame().local_vars.len(), 3);
}
