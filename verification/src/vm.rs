use vstd::prelude::*;

use crate::errors::VmError;
use crate::opcodes::Opcode;
use crate::stack::{STACK_SIZE, Stack};

verus! {

/// The mathematical state of an engine: the stack contents, the program, the
/// program counter, the halted flag, and the values emitted so far.
#[verifier::ext_equal]
pub struct VmView {
    pub stack: Seq<i32>,
    pub code: Seq<u16>,
    pub pc: nat,
    pub halted: bool,
    pub output: Seq<i32>,
}

/// The execution engine: owns the program, a program counter, the value
/// stack, a halted flag, and the ordered sequence of values emitted by
/// `Print` instructions.
pub struct Vm {
    stack: Stack,
    code: Vec<u16>,
    pc: usize,
    halted: bool,
    output: Vec<i32>,
}

impl View for Vm {
    type V = VmView;

    closed spec fn view(&self) -> VmView {
        VmView {
            stack: self.stack@,
            code: self.code@,
            pc: self.pc as nat,
            halted: self.halted,
            output: self.output@,
        }
    }
}

/// What popping two operands and pushing `f` of them does. The first popped
/// operand is handed to `f` first. On underflow the pops taken so far stand
/// (the engine is not meant to be resumed after a failure).
pub open spec fn binop_spec(v: VmView, f: spec_fn(i32, i32) -> i32) -> (VmView, Result<
    (),
    VmError,
>) {
    if v.stack.len() == 0 {
        (v, Err(VmError::StackUnderflow))
    } else if v.stack.len() == 1 {
        (VmView { stack: v.stack.drop_last(), ..v }, Err(VmError::StackUnderflow))
    } else {
        let a = v.stack.last();
        let b = v.stack[v.stack.len() - 2];
        (
            VmView { stack: v.stack.subrange(0, v.stack.len() - 2).push(f(a, b)), ..v },
            Ok(()),
        )
    }
}

/// What executing one decoded instruction does to an engine whose program
/// counter has already advanced past the instruction's word. Arithmetic
/// wraps, two's-complement, on overflow.
pub open spec fn exec_op_spec(v: VmView, op: Opcode) -> (VmView, Result<(), VmError>) {
    match op {
        Opcode::Push(arg) => {
            if v.stack.len() < STACK_SIZE {
                (VmView { stack: v.stack.push(arg as i32), ..v }, Ok(()))
            } else {
                (v, Err(VmError::StackOverflow))
            }
        },
        Opcode::Pop => {
            if v.stack.len() > 0 {
                (VmView { stack: v.stack.drop_last(), ..v }, Ok(()))
            } else {
                (v, Err(VmError::StackUnderflow))
            }
        },
        Opcode::Add => binop_spec(v, |a: i32, b: i32| vstd::wrapping::i32_specs::wrapping_add(a, b)),
        Opcode::Sub => binop_spec(v, |a: i32, b: i32| vstd::wrapping::i32_specs::wrapping_sub(b, a)),
        Opcode::Mul => binop_spec(v, |a: i32, b: i32| vstd::wrapping::i32_specs::wrapping_mul(a, b)),
        Opcode::Jz(target) => {
            if v.stack.len() == 0 {
                (v, Err(VmError::StackUnderflow))
            } else {
                let top = v.stack.last();
                let v1 = VmView { stack: v.stack.drop_last(), ..v };
                if top == 0 {
                    (VmView { pc: target as nat, ..v1 }, Ok(()))
                } else {
                    (v1, Ok(()))
                }
            }
        },
        Opcode::Print => {
            if v.stack.len() == 0 {
                (v, Err(VmError::StackUnderflow))
            } else {
                (
                    VmView {
                        stack: v.stack.drop_last(),
                        output: v.output.push(v.stack.last()),
                        ..v
                    },
                    Ok(()),
                )
            }
        },
        Opcode::Halt => (VmView { halted: true, ..v }, Ok(())),
    }
}

/// What one step does: a halted engine, or one whose program counter has
/// reached or passed the end of the program, halts (again) and succeeds;
/// otherwise the word at the program counter is decoded, the counter
/// advances by one, and the instruction executes. A word with an invalid
/// tag fails before the counter advances.
pub open spec fn step_spec(v: VmView) -> (VmView, Result<(), VmError>) {
    if v.halted || v.pc >= v.code.len() {
        (VmView { halted: true, ..v }, Ok(()))
    } else {
        match Opcode::decode_spec(v.code[v.pc as int]) {
            Ok(op) => exec_op_spec(VmView { pc: (v.pc + 1) as nat, ..v }, op),
            Err(e) => (v, Err(e)),
        }
    }
}

/// What `n` steps do, stopping early at the first failure.
pub open spec fn run_n_spec(v: VmView, n: nat) -> (VmView, Result<(), VmError>)
    decreases n,
{
    if n == 0 {
        (v, Ok(()))
    } else {
        let (v1, r1) = step_spec(v);
        if r1 is Err {
            (v1, r1)
        } else {
            run_n_spec(v1, (n - 1) as nat)
        }
    }
}

/// `n + 1` steps are `n` successful steps followed by one more.
pub proof fn lemma_run_n_snoc(v: VmView, n: nat)
    requires
        run_n_spec(v, n).1 is Ok,
    ensures
        run_n_spec(v, n + 1) == step_spec(run_n_spec(v, n).0),
    decreases n,
{
    if n == 0 {
        let (v1, r1) = step_spec(v);
        if r1 is Err {
            assert(run_n_spec(v, 1) == (v1, r1));
        } else {
            assert(r1 == Ok::<(), VmError>(()));
            assert(run_n_spec(v, 1) == run_n_spec(v1, 0));
        }
    } else {
        lemma_run_n_snoc(step_spec(v).0, (n - 1) as nat);
        assert(run_n_spec(v, n + 1) == run_n_spec(step_spec(v).0, ((n - 1) + 1) as nat));
    }
}

/// `a + b` steps are `a` successful steps followed by `b` more.
pub proof fn lemma_run_n_add(v: VmView, a: nat, b: nat)
    requires
        run_n_spec(v, a).1 is Ok,
    ensures
        run_n_spec(v, a + b) == run_n_spec(run_n_spec(v, a).0, b),
    decreases a,
{
    if a > 0 {
        lemma_run_n_add(step_spec(v).0, (a - 1) as nat, b);
    }
}

/// A run that has failed stays failed: extra steps change nothing.
pub proof fn lemma_run_n_err_stable(v: VmView, n: nat, m: nat)
    requires
        run_n_spec(v, n).1 is Err,
        n <= m,
    ensures
        run_n_spec(v, m) == run_n_spec(v, n),
    decreases n,
{
    if step_spec(v).1 is Ok {
        lemma_run_n_err_stable(step_spec(v).0, (n - 1) as nat, (m - 1) as nat);
    }
}

/// Law: stepping a halted engine changes nothing and succeeds.
pub proof fn lemma_step_halted_noop(v: VmView)
    requires
        v.halted,
    ensures
        step_spec(v) == (v, Ok::<(), VmError>(())),
{
    assert(step_spec(v).0 =~= v);
}

/// Law: once an engine has halted, any number of further steps leaves it
/// unchanged; instructions standing after a `Halt` never execute.
pub proof fn lemma_run_halted_noop(v: VmView, n: nat)
    requires
        v.halted,
    ensures
        run_n_spec(v, n) == (v, Ok::<(), VmError>(())),
    decreases n,
{
    if n > 0 {
        lemma_step_halted_noop(v);
        lemma_run_halted_noop(v, (n - 1) as nat);
    }
}

/// Law: executing `Halt` halts the engine and touches nothing else.
pub proof fn lemma_halt_executes(v: VmView)
    ensures
        exec_op_spec(v, Opcode::Halt) == ((VmView { halted: true, ..v }), Ok::<(), VmError>(())),
{
}

/// Law: an engine whose program counter stands at or past the end of the
/// program — as after a taken jump to an address beyond the program — halts
/// cleanly on the next step: no failure, and stack, counter and output are
/// left as they were.
pub proof fn lemma_step_overrun(v: VmView)
    requires
        v.pc >= v.code.len(),
    ensures
        step_spec(v) == ((VmView { halted: true, ..v }), Ok::<(), VmError>(())),
{
}

impl Vm {
    /// The engine's stack never exceeds its capacity.
    pub open spec fn wf(&self) -> bool {
        self@.stack.len() <= STACK_SIZE
    }

    /// Build an engine around a program: empty stack, program counter at
    /// zero, running, nothing emitted.
    pub fn new(code: Vec<u16>) -> (vm: Vm)
        ensures
            vm@ == (VmView {
                stack: Seq::<i32>::empty(),
                code: code@,
                pc: 0,
                halted: false,
                output: Seq::<i32>::empty(),
            }),
            vm.wf(),
    {
        Vm { stack: Stack::new(), code, pc: 0, halted: false, output: Vec::new() }
    }

    /// Perform one fetch-decode-execute cycle, as `step_spec` states.
    pub fn step(&mut self) -> (r: Result<(), VmError>)
        requires
            old(self).wf(),
        ensures
            final(self).wf(),
            (final(self)@, r) == step_spec(old(self)@),
    {
        if self.halted || self.pc >= self.code.len() {
            self.halted = true;
            proof {
                assert(self@ =~= step_spec(old(self)@).0);
            }
            return Ok(());
        }
        let word = self.code[self.pc];
        let op = match Opcode::decode(word) {
            Ok(op) => op,
            Err(e) => {
                return Err(e);
            },
        };
        self.pc = self.pc + 1;
        let ghost v1 = self@;
        match op {
            Opcode::Push(arg) => {
                match self.stack.push(arg as i32) {
                    Ok(()) => {
                        proof {
                            assert(self@ =~= step_spec(old(self)@).0);
                        }
                        Ok(())
                    },
                    Err(e) => Err(e),
                }
            },
            Opcode::Pop => {
                match self.stack.pop() {
                    Ok(_) => {
                        proof {
                            assert(self@ =~= step_spec(old(self)@).0);
                        }
                        Ok(())
                    },
                    Err(e) => Err(e),
                }
            },
            Opcode::Add => {
                let a = match self.stack.pop() {
                    Ok(value) => value,
                    Err(e) => {
                        return Err(e);
                    },
                };
                let b = match self.stack.pop() {
                    Ok(value) => value,
                    Err(e) => {
                        proof {
                            assert(self@ =~= step_spec(old(self)@).0);
                        }
                        return Err(e);
                    },
                };
                let result = self.stack.push(a.wrapping_add(b));
                proof {
                    assert(v1.stack.drop_last().drop_last() =~= v1.stack.subrange(
                        0,
                        v1.stack.len() - 2,
                    ));
                    assert(self@ =~= step_spec(old(self)@).0);
                }
                result
            },
            Opcode::Sub => {
                let a = match self.stack.pop() {
                    Ok(value) => value,
                    Err(e) => {
                        return Err(e);
                    },
                };
                let b = match self.stack.pop() {
                    Ok(value) => value,
                    Err(e) => {
                        proof {
                            assert(self@ =~= step_spec(old(self)@).0);
                        }
                        return Err(e);
                    },
                };
                let result = self.stack.push(b.wrapping_sub(a));
                proof {
                    assert(v1.stack.drop_last().drop_last() =~= v1.stack.subrange(
                        0,
                        v1.stack.len() - 2,
                    ));
                    assert(self@ =~= step_spec(old(self)@).0);
                }
                result
            },
            Opcode::Mul => {
                let a = match self.stack.pop() {
                    Ok(value) => value,
                    Err(e) => {
                        return Err(e);
                    },
                };
                let b = match self.stack.pop() {
                    Ok(value) => value,
                    Err(e) => {
                        proof {
                            assert(self@ =~= step_spec(old(self)@).0);
                        }
                        return Err(e);
                    },
                };
                let result = self.stack.push(a.wrapping_mul(b));
                proof {
                    assert(v1.stack.drop_last().drop_last() =~= v1.stack.subrange(
                        0,
                        v1.stack.len() - 2,
                    ));
                    assert(self@ =~= step_spec(old(self)@).0);
                }
                result
            },
            Opcode::Jz(target) => {
                let top = match self.stack.pop() {
                    Ok(value) => value,
                    Err(e) => {
                        return Err(e);
                    },
                };
                if top == 0 {
                    self.pc = target as usize;
                }
                proof {
                    assert(self@ =~= step_spec(old(self)@).0);
                }
                Ok(())
            },
            Opcode::Print => {
                let value = match self.stack.pop() {
                    Ok(value) => value,
                    Err(e) => {
                        return Err(e);
                    },
                };
                self.output.push(value);
                proof {
                    assert(self@ =~= step_spec(old(self)@).0);
                }
                Ok(())
            },
            Opcode::Halt => {
                self.halted = true;
                proof {
                    assert(self@ =~= step_spec(old(self)@).0);
                }
                Ok(())
            },
        }
    }

    /// Step the engine up to `max_steps` times, returning as soon as it
    /// halts or a step fails: exactly what `max_steps` iterations of
    /// `step_spec` give, since steps taken after halting change nothing.
    /// Whether the budget sufficed shows in the halted flag.
    pub fn run(&mut self, max_steps: usize) -> (r: Result<(), VmError>)
        requires
            old(self).wf(),
        ensures
            final(self).wf(),
            (final(self)@, r) == run_n_spec(old(self)@, max_steps as nat),
    {
        let ghost v0 = old(self)@;
        let mut taken: usize = 0;
        while taken < max_steps && !self.halted
            invariant
                self.wf(),
                taken <= max_steps,
                v0 == old(self)@,
                run_n_spec(v0, taken as nat) == (self@, Ok::<(), VmError>(())),
            decreases max_steps - taken,
        {
            proof {
                lemma_run_n_snoc(v0, taken as nat);
            }
            match self.step() {
                Ok(()) => {
                    taken = taken + 1;
                },
                Err(e) => {
                    proof {
                        lemma_run_n_err_stable(v0, (taken + 1) as nat, max_steps as nat);
                    }
                    return Err(e);
                },
            }
        }
        proof {
            if self@.halted {
                lemma_run_n_add(v0, taken as nat, (max_steps - taken) as nat);
                lemma_run_halted_noop(self@, (max_steps - taken) as nat);
            }
        }
        Ok(())
    }

    /// The top of the value stack, or `StackUnderflow` if it is empty.
    pub fn peek(&self) -> (r: Result<i32, VmError>)
        ensures
            r == Stack::peek_spec(self@.stack),
    {
        self.stack.peek()
    }

    /// Whether the engine has halted.
    pub fn is_halted(&self) -> (r: bool)
        ensures
            r == self@.halted,
    {
        self.halted
    }

    /// The values emitted by `Print` instructions so far, oldest first.
    pub fn output(&self) -> (r: &Vec<i32>)
        ensures
            r@ == self@.output,
    {
        &self.output
    }
}

} // verus!
