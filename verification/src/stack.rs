use vstd::prelude::*;

use crate::errors::VmError;

verus! {

/// Number of slots in a value stack. A hard ceiling, never grown.
pub const STACK_SIZE: usize = 256;

/// A fixed-capacity, last-in-first-out container of signed 32-bit integers.
/// Every operation either fully succeeds or leaves the stack unchanged.
pub struct Stack {
    data: Vec<i32>,
}

impl View for Stack {
    type V = Seq<i32>;

    closed spec fn view(&self) -> Seq<i32> {
        self.data@
    }
}

impl Stack {
    /// The stack never holds more than `STACK_SIZE` elements.
    pub open spec fn wf(&self) -> bool {
        self@.len() <= STACK_SIZE
    }

    /// What a push does: append below capacity, fail with `StackOverflow` at
    /// capacity, leaving the contents unchanged.
    pub open spec fn push_spec(s: Seq<i32>, value: i32) -> (Seq<i32>, Result<(), VmError>) {
        if s.len() < STACK_SIZE {
            (s.push(value), Ok(()))
        } else {
            (s, Err(VmError::StackOverflow))
        }
    }

    /// What a pop does: remove and return the top element, or fail with
    /// `StackUnderflow` on an empty stack, leaving the contents unchanged.
    pub open spec fn pop_spec(s: Seq<i32>) -> (Seq<i32>, Result<i32, VmError>) {
        if s.len() > 0 {
            (s.drop_last(), Ok(s.last()))
        } else {
            (s, Err(VmError::StackUnderflow))
        }
    }

    /// What a peek returns: the top element, or `StackUnderflow` on an empty
    /// stack.
    pub open spec fn peek_spec(s: Seq<i32>) -> Result<i32, VmError> {
        if s.len() > 0 {
            Ok(s.last())
        } else {
            Err(VmError::StackUnderflow)
        }
    }

    /// Create an empty stack.
    pub fn new() -> (s: Stack)
        ensures
            s@ == Seq::<i32>::empty(),
            s.wf(),
    {
        Stack { data: Vec::new() }
    }

    /// Append `value` to the top, or fail with `StackOverflow` if the stack
    /// already holds `STACK_SIZE` elements; the attempted value is then not
    /// stored.
    pub fn push(&mut self, value: i32) -> (r: Result<(), VmError>)
        requires
            old(self).wf(),
        ensures
            final(self).wf(),
            (final(self)@, r) == Stack::push_spec(old(self)@, value),
    {
        if self.is_full() {
            Err(VmError::StackOverflow)
        } else {
            self.data.push(value);
            Ok(())
        }
    }

    /// Remove and return the top element, or fail with `StackUnderflow` if
    /// the stack is empty.
    pub fn pop(&mut self) -> (r: Result<i32, VmError>)
        ensures
            (final(self)@, r) == Stack::pop_spec(old(self)@),
    {
        match self.data.pop() {
            Some(value) => Ok(value),
            None => Err(VmError::StackUnderflow),
        }
    }

    /// Return the top element without removing it, or fail with
    /// `StackUnderflow` if the stack is empty.
    pub fn peek(&self) -> (r: Result<i32, VmError>)
        ensures
            r == Stack::peek_spec(self@),
    {
        if self.data.len() == 0 {
            Err(VmError::StackUnderflow)
        } else {
            Ok(self.data[self.data.len() - 1])
        }
    }

    /// Whether the stack holds no elements. Never fails.
    pub fn is_empty(&self) -> (r: bool)
        ensures
            r == (self@.len() == 0),
    {
        self.data.len() == 0
    }

    /// Whether the stack holds exactly `STACK_SIZE` elements. Never fails.
    pub fn is_full(&self) -> (r: bool)
        ensures
            r == (self@.len() == STACK_SIZE),
    {
        self.data.len() == STACK_SIZE
    }
}

/// What a run of pushes does: push each value of `vs` in order, stopping at
/// the first failure.
pub open spec fn push_all_spec(s: Seq<i32>, vs: Seq<i32>) -> (Seq<i32>, Result<(), VmError>)
    decreases vs.len(),
{
    if vs.len() == 0 {
        (s, Ok(()))
    } else {
        let (s1, r1) = Stack::push_spec(s, vs[0]);
        if r1 is Err {
            (s1, r1)
        } else {
            push_all_spec(s1, vs.drop_first())
        }
    }
}

/// Law: a run of pushes that fits within capacity succeeds in full and
/// appends the pushed values in order. In particular, pushing `STACK_SIZE`
/// values onto an empty stack succeeds.
pub proof fn lemma_pushes_within_capacity(s: Seq<i32>, vs: Seq<i32>)
    requires
        s.len() + vs.len() <= STACK_SIZE,
    ensures
        push_all_spec(s, vs) == (s + vs, Ok::<(), VmError>(())),
    decreases vs.len(),
{
    if vs.len() == 0 {
        assert(s + vs =~= s);
    } else {
        lemma_pushes_within_capacity(s.push(vs[0]), vs.drop_first());
        assert(s.push(vs[0]) + vs.drop_first() =~= s + vs);
    }
}

/// Law: a push below capacity succeeds; a push at capacity fails with
/// `StackOverflow` and leaves the contents unchanged; a pop or peek of an
/// empty stack fails with `StackUnderflow`.
pub proof fn lemma_stack_bounds(s: Seq<i32>, value: i32)
    ensures
        s.len() < STACK_SIZE ==> Stack::push_spec(s, value) == (s.push(value), Ok::<(), VmError>(
            (),
        )),
        s.len() >= STACK_SIZE ==> Stack::push_spec(s, value) == (s, Err::<(), VmError>(
            VmError::StackOverflow,
        )),
        Stack::pop_spec(Seq::<i32>::empty()) == (Seq::<i32>::empty(), Err::<i32, VmError>(
            VmError::StackUnderflow,
        )),
        Stack::peek_spec(Seq::<i32>::empty()) == Err::<i32, VmError>(VmError::StackUnderflow),
{
}

} // verus!
