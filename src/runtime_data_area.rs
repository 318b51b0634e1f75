use vstd::prelude::*;

verus! {

/// A reference to an object on the heap, held as a handle into the heap's table.
#[derive(Clone, Copy, PartialEq, Eq, Structural, Debug)]
pub struct Object {
    pub id: u64,
}

/// The uniform storage cell of local variables and operand stacks.
#[derive(Clone, Copy, PartialEq, Eq, Structural, Debug)]
pub struct Slot {
    pub num: i32,
    pub objref: Option<Object>,
}

/// The fatal conditions that stop the execution of a method.
#[derive(Clone, Copy, PartialEq, Eq, Structural, Debug)]
pub enum VmError {
    DivideByZero,
    StackOverflow,
    OperandStackOverflow,
    OperandStackUnderflow,
    LocalOutOfRange,
    UnsupportedOpcode(u8),
    TruncatedCode,
    BranchOutOfRange,
    /// The method to run has no Code attribute.
    MissingCode,
}

pub open spec fn empty_slot() -> Slot {
    Slot { num: 0, objref: None }
}

pub open spec fn int_slot(v: i32) -> Slot {
    Slot { num: v, objref: None }
}

pub open spec fn ref_slot(r: Option<Object>) -> Slot {
    Slot { num: 0, objref: r }
}

/// The low word of a 64-bit value, as stored in the first of its two slots.
pub open spec fn lo_word(v: i64) -> i32 {
    v as i32
}

/// The high word of a 64-bit value, as stored in the second of its two slots.
pub open spec fn hi_word(v: i64) -> i32 {
    (v >> 32i64) as i32
}

/// The 64-bit value whose low and high words are given.
pub open spec fn join_words(lo: i32, hi: i32) -> i64 {
    ((hi as i64) << 32i64) | (lo as u32 as i64)
}

pub proof fn lemma_join_split(v: i64)
    ensures
        join_words(lo_word(v), hi_word(v)) == v,
{
    assert(((((v >> 32i64) as i32) as i64) << 32i64) | ((v as i32) as u32 as i64) == v)
        by (bit_vector);
}

pub(crate) fn split_long(v: i64) -> (r: (i32, i32))
    ensures
        r.0 == lo_word(v),
        r.1 == hi_word(v),
{
    (v as i32, (v >> 32u32) as i32)
}

pub(crate) fn join_long(lo: i32, hi: i32) -> (r: i64)
    ensures
        r == join_words(lo, hi),
{
    assert((((hi as i64) << 32u32) | (lo as u32 as i64)) == (((hi as i64) << 32i64) | (lo as u32
        as i64))) by (bit_vector);
    ((hi as i64) << 32u32) | (lo as u32 as i64)
}

// What the typed accessors read from, and write into, a sequence of slots.
pub open spec fn slots_set_int(s: Seq<Slot>, i: int, v: i32) -> Seq<Slot> {
    s.update(i, int_slot(v))
}

pub open spec fn slots_set_ref(s: Seq<Slot>, i: int, r: Option<Object>) -> Seq<Slot> {
    s.update(i, ref_slot(r))
}

pub open spec fn slots_set_long(s: Seq<Slot>, i: int, v: i64) -> Seq<Slot> {
    s.update(i, int_slot(lo_word(v))).update(i + 1, int_slot(hi_word(v)))
}

pub open spec fn slots_get_long(s: Seq<Slot>, i: int) -> i64 {
    join_words(s[i].num, s[i + 1].num)
}

/// Writing a value and reading it back through the same type gives the value; a 64-bit
/// value leaves its high word in the following slot.
pub proof fn lemma_slot_round_trip(s: Seq<Slot>, i: int, iv: i32, r: Option<Object>, fv: u32, lv: i64, dv: u64)
    requires
        0 <= i,
        i + 1 < s.len(),
    ensures
        slots_set_int(s, i, iv)[i].num == iv,
        slots_set_ref(s, i, r)[i].objref == r,
        slots_set_int(s, i, fv as i32)[i].num as u32 == fv,
        slots_get_long(slots_set_long(s, i, lv), i) == lv,
        slots_set_long(s, i, lv)[i + 1].num == hi_word(lv),
        slots_get_long(slots_set_long(s, i, dv as i64), i) as u64 == dv,
{
    lemma_join_split(lv);
    lemma_join_split(dv as i64);
    assert(((fv as i32) as u32) == fv) by (bit_vector);
    assert(((dv as i64) as u64) == dv) by (bit_vector);
}

/// The local variables of a frame: a fixed-size array of slots.
pub struct LocalVars {
    slots: Vec<Slot>,
}

impl View for LocalVars {
    type V = Seq<Slot>;

    closed spec fn view(&self) -> Seq<Slot> {
        self.slots@
    }
}

impl LocalVars {
    pub fn new(max_locals: usize) -> (r: Self)
        ensures
            r@ == Seq::new(max_locals as nat, |i: int| empty_slot()),
    {
        let mut slots: Vec<Slot> = Vec::new();
        let mut n: usize = 0;
        while n < max_locals
            invariant
                n <= max_locals,
                slots@ == Seq::new(n as nat, |i: int| empty_slot()),
            decreases max_locals - n,
        {
            slots.push(Slot { num: 0, objref: None });
            n = n + 1;
            assert(slots@ =~= Seq::new(n as nat, |i: int| empty_slot()));
        }
        LocalVars { slots }
    }

    pub fn len(&self) -> (r: usize)
        ensures
            r == self@.len(),
    {
        self.slots.len()
    }

    pub fn set_int(&mut self, index: usize, val: i32)
        requires
            index < old(self)@.len(),
        ensures
            final(self)@ == slots_set_int(old(self)@, index as int, val),
    {
        self.slots.set(index, Slot { num: val, objref: None });
    }

    pub fn get_int(&self, index: usize) -> (r: i32)
        requires
            index < self@.len(),
        ensures
            r == self@[index as int].num,
    {
        self.slots[index].num
    }

    pub fn set_ref(&mut self, index: usize, obj: Option<Object>)
        requires
            index < old(self)@.len(),
        ensures
            final(self)@ == slots_set_ref(old(self)@, index as int, obj),
    {
        self.slots.set(index, Slot { num: 0, objref: obj });
    }

    pub fn get_ref(&self, index: usize) -> (r: Option<Object>)
        requires
            index < self@.len(),
        ensures
            r == self@[index as int].objref,
    {
        self.slots[index].objref
    }

    /// Stores a float given as the bit pattern of its IEEE-754 encoding.
    pub fn set_float(&mut self, index: usize, bits: u32)
        requires
            index < old(self)@.len(),
        ensures
            final(self)@ == slots_set_int(old(self)@, index as int, bits as i32),
    {
        self.set_int(index, bits as i32);
    }

    /// Reads a float as the bit pattern of its IEEE-754 encoding.
    pub fn get_float(&self, index: usize) -> (r: u32)
        requires
            index < self@.len(),
        ensures
            r == self@[index as int].num as u32,
    {
        self.slots[index].num as u32
    }

    pub fn get_long(&self, index: usize) -> (r: i64)
        requires
            index + 1 < self@.len(),
        ensures
            r == slots_get_long(self@, index as int),
    {
        let n = self.slots.len();
        join_long(self.slots[index].num, self.slots[index + 1].num)
    }

    pub fn set_long(&mut self, index: usize, val: i64)
        requires
            index + 1 < old(self)@.len(),
        ensures
            final(self)@ == slots_set_long(old(self)@, index as int, val),
    {
        let (lo, hi) = split_long(val);
        let n = self.slots.len();
        self.slots.set(index, Slot { num: lo, objref: None });
        self.slots.set(index + 1, Slot { num: hi, objref: None });
    }

    /// Reads a double as the bit pattern of its IEEE-754 encoding.
    pub fn get_double(&self, index: usize) -> (r: u64)
        requires
            index + 1 < self@.len(),
        ensures
            r == slots_get_long(self@, index as int) as u64,
    {
        self.get_long(index) as u64
    }

    /// Stores a double given as the bit pattern of its IEEE-754 encoding.
    pub fn set_double(&mut self, index: usize, bits: u64)
        requires
            index + 1 < old(self)@.len(),
        ensures
            final(self)@ == slots_set_long(old(self)@, index as int, bits as i64),
    {
        self.set_long(index, bits as i64);
    }
}

/// The operand stack of a frame: at most `capacity` slots, the last one on top.
pub struct OperandStack {
    max_stack: usize,
    slots: Vec<Slot>,
}

impl View for OperandStack {
    type V = Seq<Slot>;

    closed spec fn view(&self) -> Seq<Slot> {
        self.slots@
    }
}

impl OperandStack {
    pub closed spec fn capacity(&self) -> nat {
        self.max_stack as nat
    }

    pub fn new(max_stack: usize) -> (r: Self)
        ensures
            r@ == Seq::<Slot>::empty(),
            r.capacity() == max_stack,
    {
        OperandStack { max_stack, slots: Vec::new() }
    }

    pub fn size(&self) -> (r: usize)
        ensures
            r == self@.len(),
    {
        self.slots.len()
    }

    pub fn max_size(&self) -> (r: usize)
        ensures
            r == self.capacity(),
    {
        self.max_stack
    }

    /// The slot `depth` places below the top (the top itself at depth 0).
    pub fn peek(&self, depth: usize) -> (r: Slot)
        requires
            depth < self@.len(),
        ensures
            r == self@[self@.len() - 1 - depth],
    {
        self.slots[self.slots.len() - 1 - depth]
    }

    pub fn push_slot(&mut self, slot: Slot)
        requires
            old(self)@.len() < old(self).capacity(),
        ensures
            final(self)@ == old(self)@.push(slot),
            final(self).capacity() == old(self).capacity(),
    {
        self.slots.push(slot);
    }

    pub fn pop_slot(&mut self) -> (r: Slot)
        requires
            old(self)@.len() > 0,
        ensures
            r == old(self)@.last(),
            final(self)@ == old(self)@.drop_last(),
            final(self).capacity() == old(self).capacity(),
    {
        self.slots.pop().unwrap()
    }

    pub fn push_int(&mut self, val: i32)
        requires
            old(self)@.len() < old(self).capacity(),
        ensures
            final(self)@ == old(self)@.push(int_slot(val)),
            final(self).capacity() == old(self).capacity(),
    {
        self.slots.push(Slot { num: val, objref: None });
    }

    pub fn pop_int(&mut self) -> (r: i32)
        requires
            old(self)@.len() > 0,
        ensures
            r == old(self)@.last().num,
            final(self)@ == old(self)@.drop_last(),
            final(self).capacity() == old(self).capacity(),
    {
        self.pop_slot().num
    }

    pub fn push_ref(&mut self, obj: Option<Object>)
        requires
            old(self)@.len() < old(self).capacity(),
        ensures
            final(self)@ == old(self)@.push(ref_slot(obj)),
            final(self).capacity() == old(self).capacity(),
    {
        self.slots.push(Slot { num: 0, objref: obj });
    }

    pub fn pop_ref(&mut self) -> (r: Option<Object>)
        requires
            old(self)@.len() > 0,
        ensures
            r == old(self)@.last().objref,
            final(self)@ == old(self)@.drop_last(),
            final(self).capacity() == old(self).capacity(),
    {
        self.pop_slot().objref
    }

    /// Pushes a float given as the bit pattern of its IEEE-754 encoding.
    pub fn push_float(&mut self, bits: u32)
        requires
            old(self)@.len() < old(self).capacity(),
        ensures
            final(self)@ == old(self)@.push(int_slot(bits as i32)),
            final(self).capacity() == old(self).capacity(),
    {
        self.push_int(bits as i32);
    }

    /// Pops a float as the bit pattern of its IEEE-754 encoding.
    pub fn pop_float(&mut self) -> (r: u32)
        requires
            old(self)@.len() > 0,
        ensures
            r == old(self)@.last().num as u32,
            final(self)@ == old(self)@.drop_last(),
            final(self).capacity() == old(self).capacity(),
    {
        self.pop_int() as u32
    }

    pub fn push_long(&mut self, val: i64)
        requires
            old(self)@.len() + 2 <= old(self).capacity(),
        ensures
            final(self)@ == old(self)@.push(int_slot(lo_word(val))).push(int_slot(hi_word(val))),
            final(self).capacity() == old(self).capacity(),
    {
        let (lo, hi) = split_long(val);
        self.slots.push(Slot { num: lo, objref: None });
        self.slots.push(Slot { num: hi, objref: None });
    }

    pub fn pop_long(&mut self) -> (r: i64)
        requires
            old(self)@.len() >= 2,
        ensures
            r == slots_get_long(old(self)@, old(self)@.len() - 2),
            final(self)@ == old(self)@.drop_last().drop_last(),
            final(self).capacity() == old(self).capacity(),
    {
        let hi = self.pop_slot().num;
        let lo = self.pop_slot().num;
        join_long(lo, hi)
    }

    /// Pushes a double given as the bit pattern of its IEEE-754 encoding.
    pub fn push_double(&mut self, bits: u64)
        requires
            old(self)@.len() + 2 <= old(self).capacity(),
        ensures
            final(self)@ == old(self)@.push(int_slot(lo_word(bits as i64))).push(
                int_slot(hi_word(bits as i64)),
            ),
            final(self).capacity() == old(self).capacity(),
    {
        self.push_long(bits as i64);
    }

    /// Pops a double as the bit pattern of its IEEE-754 encoding.
    pub fn pop_double(&mut self) -> (r: u64)
        requires
            old(self)@.len() >= 2,
        ensures
            r == slots_get_long(old(self)@, old(self)@.len() - 2) as u64,
            final(self)@ == old(self)@.drop_last().drop_last(),
            final(self).capacity() == old(self).capacity(),
    {
        self.pop_long() as u64
    }
}

/// Pushing a value and popping it back through the same type gives the value.
pub proof fn lemma_push_pop_round_trip(s: Seq<Slot>, iv: i32, r: Option<Object>, lv: i64, fv: u32, dv: u64)
    ensures
        s.push(int_slot(fv as i32)).last().num as u32 == fv,
        slots_get_long(
            s.push(int_slot(lo_word(dv as i64))).push(int_slot(hi_word(dv as i64))),
            s.len() as int,
        ) as u64 == dv,
        s.push(int_slot(iv)).last().num == iv,
        s.push(int_slot(iv)).drop_last() == s,
        s.push(ref_slot(r)).last().objref == r,
        s.push(ref_slot(r)).drop_last() == s,
        slots_get_long(
            s.push(int_slot(lo_word(lv))).push(int_slot(hi_word(lv))),
            s.len() as int,
        ) == lv,
        s.push(int_slot(lo_word(lv))).push(int_slot(hi_word(lv))).drop_last().drop_last() == s,
{
    lemma_join_split(lv);
    lemma_join_split(dv as i64);
    assert(((fv as i32) as u32) == fv) by (bit_vector);
    assert(((dv as i64) as u64) == dv) by (bit_vector);
    assert(s.push(int_slot(iv)).drop_last() =~= s);
    assert(s.push(ref_slot(r)).drop_last() =~= s);
    assert(s.push(int_slot(lo_word(lv))).push(int_slot(hi_word(lv))).drop_last().drop_last() =~= s);
}


/// The activation record of one method invocation.
pub struct Frame {
    pub lower: Option<Box<Frame>>,
    pub local_vars: LocalVars,
    pub operand_stack: OperandStack,
    /// Handle of the thread that owns this frame; the frame never outlives it.
    pub thread: usize,
    /// Where execution continues after the current instruction.
    pub next_pc: usize,
}

impl Frame {
    pub fn new(max_locals: usize, max_stack: usize, thread: usize) -> (r: Self)
        ensures
            r.lower is None,
            r.local_vars@ == Seq::new(max_locals as nat, |i: int| empty_slot()),
            r.operand_stack@ == Seq::<Slot>::empty(),
            r.operand_stack.capacity() == max_stack,
            r.thread == thread,
            r.next_pc == 0,
    {
        Frame {
            lower: None,
            local_vars: LocalVars::new(max_locals),
            operand_stack: OperandStack::new(max_stack),
            thread,
            next_pc: 0,
        }
    }

    pub fn thread(&self) -> (r: usize)
        ensures
            r == self.thread,
    {
        self.thread
    }

    pub fn next_pc(&self) -> (r: usize)
        ensures
            r == self.next_pc,
    {
        self.next_pc
    }

    pub fn set_next_pc(&mut self, pc: usize)
        ensures
            final(self).next_pc == pc,
            final(self).lower == old(self).lower,
            final(self).local_vars == old(self).local_vars,
            final(self).operand_stack == old(self).operand_stack,
            final(self).thread == old(self).thread,
    {
        self.next_pc = pc;
    }
}

/// A frame as it stands in a stack, without its link to the frame below.
pub open spec fn detached(f: Frame) -> Frame {
    Frame { lower: None, ..f }
}

/// The frames of a chain, bottom first.
pub open spec fn chain(top: Option<Box<Frame>>) -> Seq<Frame>
    decreases top,
{
    match top {
        None => Seq::empty(),
        Some(f) => chain(f.lower).push(detached(*f)),
    }
}

/// A bounded stack of frames, linked from the top down.
pub struct Stack {
    max_size: usize,
    size: usize,
    top: Option<Box<Frame>>,
}

impl View for Stack {
    type V = Seq<Frame>;

    closed spec fn view(&self) -> Seq<Frame> {
        chain(self.top)
    }
}

impl Stack {
    #[verifier::type_invariant]
    spec fn inv(&self) -> bool {
        &&& self.size == chain(self.top).len()
        &&& self.size <= self.max_size
    }

    pub closed spec fn capacity(&self) -> nat {
        self.max_size as nat
    }

    pub fn new(max_size: usize) -> (r: Self)
        ensures
            r@ == Seq::<Frame>::empty(),
            r.capacity() == max_size,
    {
        Stack { max_size, size: 0, top: None }
    }

    /// Pushes a frame; fails with a stack overflow when the stack is full.
    pub fn push(&mut self, frame: Frame) -> (r: Result<(), VmError>)
        ensures
            final(self).capacity() == old(self).capacity(),
            old(self)@.len() < old(self).capacity() ==> r is Ok && final(self)@ == old(self)@.push(
                detached(frame),
            ),
            old(self)@.len() >= old(self).capacity() ==> r == Err::<(), VmError>(
                VmError::StackOverflow,
            ) && final(self)@ == old(self)@,
    {
        proof {
            use_type_invariant(&*self);
        }
        if self.size >= self.max_size {
            return Err(VmError::StackOverflow);
        }
        let mut taken = Stack { max_size: self.max_size, size: 0, top: None };
        core::mem::swap(self, &mut taken);
        let Stack { max_size, size, top } = taken;
        let mut frame = frame;
        frame.lower = top;
        assert(chain(Some(Box::new(frame))) == chain(frame.lower).push(detached(frame)));
        *self = Stack { max_size, size: size + 1, top: Some(Box::new(frame)) };
        Ok(())
    }

    pub fn pop(&mut self) -> (r: Box<Frame>)
        requires
            old(self)@.len() > 0,
        ensures
            *r == old(self)@.last(),
            final(self)@ == old(self)@.drop_last(),
            final(self).capacity() == old(self).capacity(),
            final(self)@.len() < final(self).capacity(),
    {
        proof {
            use_type_invariant(&*self);
        }
        let mut taken = Stack { max_size: self.max_size, size: 0, top: None };
        core::mem::swap(self, &mut taken);
        let Stack { max_size, size, top } = taken;
        match top {
            Some(f) => {
                let mut f = f;
                assert(chain(Some(f)) == chain(f.lower).push(detached(*f)));
                let lower = f.lower.take();
                *self = Stack { max_size, size: size - 1, top: lower };
                f
            },
            None => {
                assert(false);
                Box::new(Frame::new(0, 0, 0))
            },
        }
    }

    pub fn top(&self) -> (r: &Frame)
        requires
            self@.len() > 0,
        ensures
            detached(*r) == self@.last(),
    {
        proof {
            use_type_invariant(self);
        }
        match &self.top {
            Some(f) => f,
            None => {
                assert(false);
                unreached()
            },
        }
    }

    pub fn size(&self) -> (r: usize)
        ensures
            r == self@.len(),
    {
        proof {
            use_type_invariant(self);
        }
        self.size
    }
}

/// The frame stack a thread starts with holds this many frames.
pub const STACK_DEPTH: usize = 1024;

/// An interpreter thread: the pc of the instruction being executed and its own frame stack.
pub struct Thread {
    pc: usize,
    stack: Stack,
}

impl Thread {
    pub closed spec fn spec_pc(&self) -> usize {
        self.pc
    }

    pub closed spec fn frames(&self) -> Seq<Frame> {
        self.stack@
    }

    pub closed spec fn depth_limit(&self) -> nat {
        self.stack.capacity()
    }

    pub fn new() -> (r: Self)
        ensures
            r.spec_pc() == 0,
            r.frames() == Seq::<Frame>::empty(),
            r.depth_limit() == STACK_DEPTH,
    {
        Thread { pc: 0, stack: Stack::new(STACK_DEPTH) }
    }

    #[verifier::when_used_as_spec(spec_pc)]
    pub fn pc(&self) -> (r: usize)
        ensures
            r == self.spec_pc(),
    {
        self.pc
    }

    pub fn set_pc(&mut self, pc: usize)
        ensures
            final(self).spec_pc() == pc,
            final(self).frames() == old(self).frames(),
            final(self).depth_limit() == old(self).depth_limit(),
    {
        self.pc = pc;
    }

    pub fn stack(&self) -> (r: &Stack)
        ensures
            r@ == self.frames(),
            r.capacity() == self.depth_limit(),
    {
        &self.stack
    }

    pub fn push_frame(&mut self, frame: Frame) -> (r: Result<(), VmError>)
        ensures
            final(self).spec_pc() == old(self).spec_pc(),
            final(self).depth_limit() == old(self).depth_limit(),
            old(self).frames().len() < old(self).depth_limit() ==> r is Ok && final(self).frames()
                == old(self).frames().push(detached(frame)),
            old(self).frames().len() >= old(self).depth_limit() ==> r == Err::<(), VmError>(
                VmError::StackOverflow,
            ) && final(self).frames() == old(self).frames(),
    {
        self.stack.push(frame)
    }

    pub fn pop_frame(&mut self) -> (r: Box<Frame>)
        requires
            old(self).frames().len() > 0,
        ensures
            *r == old(self).frames().last(),
            final(self).frames() == old(self).frames().drop_last(),
            final(self).spec_pc() == old(self).spec_pc(),
            final(self).depth_limit() == old(self).depth_limit(),
            final(self).frames().len() < final(self).depth_limit(),
    {
        self.stack.pop()
    }

    pub fn current_frame(&self) -> (r: &Frame)
        requires
            self.frames().len() > 0,
        ensures
            detached(*r) == self.frames().last(),
    {
        self.stack.top()
    }
}

} // verus!
