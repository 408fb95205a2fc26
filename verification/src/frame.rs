//! Frames — one method invocation's activation record — and the
//! per-instruction interpreter semantics.
//!
//! The meaning of every instruction is fixed by the specification
//! function [`step_of`]; the executable interpreter is proved to follow
//! it step for step, and a whole run of a frame is the deterministic
//! iteration [`frame_big_step`].

use vstd::prelude::*;
use vstd::wrapping::i32_specs;

use crate::Opcode;
use crate::const_pool::{ConstPool, CpInfo, resolve_text};
use crate::error::{FrameFault, VmError, VmErrorSpec};
use crate::method_area::Method;

verus! {

/// Mathematical image of a frame's mutable state: program counter,
/// local-variable slots and operand stack.
pub ghost struct FrameState {
    pub pc: nat,
    pub locals: Seq<i32>,
    pub stack: Seq<i32>,
}

/// Mathematical image of a whole frame: the immutable context (code,
/// constant pool, declared maximum stack depth) plus the mutable state.
pub ghost struct FrameCtx {
    pub code: Seq<Opcode>,
    pub pool: Seq<CpInfo>,
    pub max_stack: nat,
    pub state: FrameState,
}

impl FrameCtx {
    /// The same frame with its mutable state replaced.
    pub open spec fn with_state(self, s: FrameState) -> FrameCtx {
        FrameCtx { code: self.code, pool: self.pool, max_stack: self.max_stack, state: s }
    }
}

/// What one interpreter step yields. The carried state is the frame's
/// state after the step: for `Invoke` the suspended resume point, for
/// `Return` and `End` the state the frame was left in.
pub ghost enum StepSpec {
    /// The frame continues with this state.
    Continue(FrameState),
    /// The frame terminated with no value for the caller.
    End(FrameState),
    /// The frame terminated, handing this popped value to its invoker.
    Return(i32, FrameState),
    /// The frame suspended at an invoke of this resolved signature.
    Invoke(Seq<char>, FrameState),
    /// A fatal fault; the run aborts, so no state is recorded.
    Fault(VmErrorSpec),
}

/// A push of `v`: a fault if the operand stack is at the method's
/// declared maximum depth, else the value goes on top and `pc` advances.
pub open spec fn push_step(c: FrameCtx, v: i32) -> StepSpec {
    let s = c.state;
    if s.stack.len() >= c.max_stack {
        StepSpec::Fault(VmErrorSpec::Frame(FrameFault::StackOverflow))
    } else {
        StepSpec::Continue(
            FrameState { pc: (s.pc + 1) as nat, locals: s.locals, stack: s.stack.push(v) },
        )
    }
}

/// Loading local `slot` copies it onto the operand-stack top.
pub open spec fn load_step(c: FrameCtx, slot: usize) -> StepSpec {
    let s = c.state;
    if slot >= s.locals.len() {
        StepSpec::Fault(VmErrorSpec::Frame(FrameFault::InvalidLocalIndex { slot }))
    } else {
        push_step(c, s.locals[slot as int])
    }
}

/// Storing into local `slot` pops the operand-stack top into it.
pub open spec fn store_step(c: FrameCtx, slot: usize) -> StepSpec {
    let s = c.state;
    if s.stack.len() < 1 {
        StepSpec::Fault(VmErrorSpec::Frame(FrameFault::StackUnderflow))
    } else if slot >= s.locals.len() {
        StepSpec::Fault(VmErrorSpec::Frame(FrameFault::InvalidLocalIndex { slot }))
    } else {
        StepSpec::Continue(
            FrameState {
                pc: (s.pc + 1) as nat,
                locals: s.locals.update(slot as int, s.stack.last()),
                stack: s.stack.drop_last(),
            },
        )
    }
}

/// An invoke resolves its constant-pool index to a signature and
/// suspends the frame at the following instruction; the arguments stay
/// on the caller's operand stack for the call stack to transfer.
pub open spec fn invoke_step(c: FrameCtx, index: u16) -> StepSpec {
    let s = c.state;
    match resolve_text(c.pool, index) {
        Ok(signature) => StepSpec::Invoke(
            signature,
            FrameState { pc: (s.pc + 1) as nat, locals: s.locals, stack: s.stack },
        ),
        Err(e) => StepSpec::Fault(VmErrorSpec::ConstantResolution(e)),
    }
}

/// One fetch-decode-execute step. A counter past the end of the code
/// signals `End` (implicit fall-off termination); otherwise the counter
/// advances by one before the instruction executes, and branches
/// overwrite it afterwards.
pub open spec fn step_of(c: FrameCtx) -> StepSpec {
    let s = c.state;
    if s.pc >= c.code.len() {
        StepSpec::End(s)
    } else {
        let pc1 = (s.pc + 1) as nat;
        match c.code[s.pc as int] {
            Opcode::IConst0 => push_step(c, 0),
            Opcode::IConst1 => push_step(c, 1),
            Opcode::BiPush(n) => push_step(c, n),
            Opcode::ILoad0 => load_step(c, 0),
            Opcode::ILoad1 => load_step(c, 1),
            Opcode::IStore0 => store_step(c, 0),
            Opcode::IStore1 => store_step(c, 1),
            Opcode::IInc(slot, delta) => {
                if slot >= s.locals.len() {
                    StepSpec::Fault(VmErrorSpec::Frame(FrameFault::InvalidLocalIndex { slot }))
                } else {
                    StepSpec::Continue(
                        FrameState {
                            pc: pc1,
                            locals: s.locals.update(
                                slot as int,
                                i32_specs::wrapping_add(s.locals[slot as int], delta),
                            ),
                            stack: s.stack,
                        },
                    )
                }
            },
            Opcode::IAdd => {
                if s.stack.len() < 2 {
                    StepSpec::Fault(VmErrorSpec::Frame(FrameFault::StackUnderflow))
                } else {
                    let v2 = s.stack.last();
                    let v1 = s.stack[s.stack.len() - 2];
                    StepSpec::Continue(
                        FrameState {
                            pc: pc1,
                            locals: s.locals,
                            stack: s.stack.take(s.stack.len() - 2).push(
                                i32_specs::wrapping_add(v1, v2),
                            ),
                        },
                    )
                }
            },
            Opcode::Goto(target) => {
                if target >= c.code.len() {
                    StepSpec::Fault(VmErrorSpec::Frame(FrameFault::InvalidJumpTarget { target }))
                } else {
                    StepSpec::Continue(
                        FrameState { pc: target as nat, locals: s.locals, stack: s.stack },
                    )
                }
            },
            Opcode::IfICmpLt(target) => {
                if s.stack.len() < 2 {
                    StepSpec::Fault(VmErrorSpec::Frame(FrameFault::StackUnderflow))
                } else {
                    // value2 was on top; both go, whatever the outcome.
                    let v2 = s.stack.last();
                    let v1 = s.stack[s.stack.len() - 2];
                    let popped = s.stack.take(s.stack.len() - 2);
                    if v1 < v2 {
                        if target >= c.code.len() {
                            StepSpec::Fault(
                                VmErrorSpec::Frame(FrameFault::InvalidJumpTarget { target }),
                            )
                        } else {
                            StepSpec::Continue(
                                FrameState { pc: target as nat, locals: s.locals, stack: popped },
                            )
                        }
                    } else {
                        StepSpec::Continue(FrameState { pc: pc1, locals: s.locals, stack: popped })
                    }
                }
            },
            Opcode::Return => StepSpec::End(
                FrameState { pc: pc1, locals: s.locals, stack: s.stack },
            ),
            Opcode::IReturn => {
                if s.stack.len() < 1 {
                    StepSpec::Fault(VmErrorSpec::Frame(FrameFault::StackUnderflow))
                } else {
                    StepSpec::Return(
                        s.stack.last(),
                        FrameState { pc: pc1, locals: s.locals, stack: s.stack.drop_last() },
                    )
                }
            },
            Opcode::InvokeStatic(index) => invoke_step(c, index),
            Opcode::InvokeSpecial(index) => invoke_step(c, index),
        }
    }
}

/// A frame's suspension signal, as the call stack sees it.
#[derive(Debug)]
pub enum FrameResult {
    /// The frame is still active: one more step ran, or the step budget
    /// ran out.
    Running,
    /// Normal end; no value reaches the caller.
    End,
    /// The frame completed with this value for its invoker.
    ReturnValue(i32),
    /// The frame suspended, asking for this signature to be invoked.
    Invoke(String),
    /// A fatal fault.
    Fault(VmError),
}

/// Mathematical image of a [`FrameResult`].
pub ghost enum FrameResultSpec {
    Running,
    End,
    ReturnValue(i32),
    Invoke(Seq<char>),
    Fault(VmErrorSpec),
}

impl View for FrameResult {
    type V = FrameResultSpec;

    open spec fn view(&self) -> FrameResultSpec {
        match self {
            FrameResult::Running => FrameResultSpec::Running,
            FrameResult::End => FrameResultSpec::End,
            FrameResult::ReturnValue(v) => FrameResultSpec::ReturnValue(*v),
            FrameResult::Invoke(s) => FrameResultSpec::Invoke(s@),
            FrameResult::Fault(e) => FrameResultSpec::Fault(e@),
        }
    }
}

/// How an executed step's visible outcome and the frame's new state
/// relate to what [`step_of`] prescribed. After a fault the machine
/// aborts, so the frame's state is left unconstrained there.
pub open spec fn step_matches(
    step: StepSpec,
    r: FrameResultSpec,
    s1: FrameState,
) -> bool {
    match step {
        StepSpec::Continue(s) => r is Running && s1 == s,
        StepSpec::End(s) => r is End && s1 == s,
        StepSpec::Return(v, s) => r == FrameResultSpec::ReturnValue(v) && s1 == s,
        StepSpec::Invoke(sig, s) => r == FrameResultSpec::Invoke(sig) && s1 == s,
        StepSpec::Fault(e) => r == FrameResultSpec::Fault(e),
    }
}

/// Runs a frame until it suspends or `fuel` steps are exhausted: the
/// suspension signal, the state the frame was left in, and the fuel that
/// remains. Every step — the suspending one included — consumes one unit
/// of fuel. On a fault the recorded state is immaterial: the run aborts.
pub open spec fn frame_big_step(c: FrameCtx, fuel: nat) -> (FrameResultSpec, FrameState, nat)
    decreases fuel,
{
    if fuel == 0 {
        (FrameResultSpec::Running, c.state, 0)
    } else {
        match step_of(c) {
            StepSpec::Continue(s) => frame_big_step(c.with_state(s), (fuel - 1) as nat),
            StepSpec::End(s) => (FrameResultSpec::End, s, (fuel - 1) as nat),
            StepSpec::Return(v, s) => (FrameResultSpec::ReturnValue(v), s, (fuel - 1) as nat),
            StepSpec::Invoke(sig, s) => (FrameResultSpec::Invoke(sig), s, (fuel - 1) as nat),
            StepSpec::Fault(e) => (FrameResultSpec::Fault(e), c.state, (fuel - 1) as nat),
        }
    }
}

/// A run consumes fuel: what remains never exceeds what it started
/// with, is zero when the frame is still running, and is strictly less
/// whenever the frame suspended.
pub proof fn lemma_frame_big_step_fuel(c: FrameCtx, fuel: nat)
    ensures
        frame_big_step(c, fuel).2 <= fuel,
        frame_big_step(c, fuel).0 is Running ==> frame_big_step(c, fuel).2 == 0,
        !(frame_big_step(c, fuel).0 is Running) ==> frame_big_step(c, fuel).2 < fuel,
    decreases fuel,
{
    if fuel > 0 {
        match step_of(c) {
            StepSpec::Continue(s) => lemma_frame_big_step_fuel(c.with_state(s), (fuel - 1) as nat),
            _ => {},
        }
    }
}

/// An exact copy of an instruction sequence.
fn copy_codes(codes: &Vec<Opcode>) -> (r: Vec<Opcode>)
    ensures
        r@ == codes@,
{
    let mut r: Vec<Opcode> = Vec::new();
    let mut i: usize = 0;
    while i < codes.len()
        invariant
            i <= codes@.len(),
            r@.len() == i,
            forall|j: int| 0 <= j < i ==> r@[j] == codes@[j],
        decreases codes@.len() - i,
    {
        r.push(codes[i]);
        i += 1;
    }
    proof {
        assert(r@ =~= codes@);
    }
    r
}

/// One activation record: program counter, local-variable slots, operand
/// stack, the method's code, and the owning class's constant pool (used
/// only to resolve invoke targets). Exclusively owned by the call stack
/// while active.
#[derive(Debug)]
pub struct Frame {
    pc: usize,
    locals: Vec<i32>,
    operand_stack: Vec<i32>,
    max_stack: usize,
    codes: Vec<Opcode>,
    pool: ConstPool,
}

impl View for Frame {
    type V = FrameCtx;

    closed spec fn view(&self) -> FrameCtx {
        FrameCtx {
            code: self.codes@,
            pool: self.pool@,
            max_stack: self.max_stack as nat,
            state: FrameState {
                pc: self.pc as nat,
                locals: self.locals@,
                stack: self.operand_stack@,
            },
        }
    }
}

impl Frame {
    /// A fresh frame for `method`: counter at zero, the given locals
    /// (its incoming arguments), an empty operand stack bounded by the
    /// method's declared depth, and the owning class's constant pool.
    pub fn new(locals: Vec<i32>, method: &Method, constant_pool: &ConstPool) -> (frame: Frame)
        ensures
            frame@.code == method@.codes,
            frame@.pool == constant_pool@,
            frame@.max_stack == method@.stack_size,
            frame@.state == (FrameState { pc: 0 as nat, locals: locals@, stack: Seq::<i32>::empty() }),
    {
        let frame = Frame {
            pc: 0,
            locals,
            operand_stack: Vec::with_capacity(method.stack_size),
            max_stack: method.stack_size,
            codes: copy_codes(&method.codes),
            pool: constant_pool.duplicate(),
        };
        proof {
            assert(frame@.state.stack =~= Seq::<i32>::empty());
        }
        frame
    }

    /// The value of local slot `i`.
    pub fn local(&self, i: usize) -> (v: i32)
        requires
            i < self@.state.locals.len(),
        ensures
            v == self@.state.locals[i as int],
    {
        self.locals[i]
    }

    /// The operand-stack depth.
    pub fn stack_len(&self) -> (n: usize)
        ensures
            n == self@.state.stack.len(),
    {
        self.operand_stack.len()
    }

    /// Pushes `value` onto the operand stack; fails if the stack is at
    /// the method's declared maximum depth.
    pub fn push(&mut self, value: i32) -> (r: Result<(), VmError>)
        ensures
            final(self)@.code == old(self)@.code,
            final(self)@.pool == old(self)@.pool,
            final(self)@.max_stack == old(self)@.max_stack,
            final(self)@.state.pc == old(self)@.state.pc,
            final(self)@.state.locals == old(self)@.state.locals,
            match r {
                Ok(()) => old(self)@.state.stack.len() < old(self)@.max_stack
                    && final(self)@.state.stack == old(self)@.state.stack.push(value),
                Err(e) => old(self)@.state.stack.len() >= old(self)@.max_stack
                    && final(self)@.state.stack == old(self)@.state.stack
                    && e@ == VmErrorSpec::Frame(FrameFault::StackOverflow),
            },
    {
        if self.operand_stack.len() >= self.max_stack {
            Err(VmError::Frame(FrameFault::StackOverflow))
        } else {
            self.operand_stack.push(value);
            Ok(())
        }
    }

    /// Pops the operand-stack top; fails if the stack is empty — a fault,
    /// never a default value.
    pub fn pop(&mut self) -> (r: Result<i32, VmError>)
        ensures
            final(self)@.code == old(self)@.code,
            final(self)@.pool == old(self)@.pool,
            final(self)@.max_stack == old(self)@.max_stack,
            final(self)@.state.pc == old(self)@.state.pc,
            final(self)@.state.locals == old(self)@.state.locals,
            match r {
                Ok(v) => old(self)@.state.stack.len() > 0 && v == old(self)@.state.stack.last()
                    && final(self)@.state.stack == old(self)@.state.stack.drop_last(),
                Err(e) => old(self)@.state.stack.len() == 0
                    && final(self)@.state.stack == old(self)@.state.stack
                    && e@ == VmErrorSpec::Frame(FrameFault::StackUnderflow),
            },
    {
        match self.operand_stack.pop() {
            Some(v) => Ok(v),
            None => Err(VmError::Frame(FrameFault::StackUnderflow)),
        }
    }

    /// Executes the instruction at the current counter, exactly as
    /// [`step_of`] prescribes.
    pub fn step(&mut self) -> (r: FrameResult)
        ensures
            final(self)@.code == old(self)@.code,
            final(self)@.pool == old(self)@.pool,
            final(self)@.max_stack == old(self)@.max_stack,
            step_matches(step_of(old(self)@), r@, final(self)@.state),
    {
        if self.pc >= self.codes.len() {
            return FrameResult::End;
        }
        let pc1 = self.pc + 1;
        let instr = self.codes[self.pc];
        match instr {
            Opcode::IConst0 => self.push_and_advance(pc1, 0),
            Opcode::IConst1 => self.push_and_advance(pc1, 1),
            Opcode::BiPush(n) => self.push_and_advance(pc1, n),
            Opcode::ILoad0 => self.load_and_advance(pc1, 0),
            Opcode::ILoad1 => self.load_and_advance(pc1, 1),
            Opcode::IStore0 => self.store_and_advance(pc1, 0),
            Opcode::IStore1 => self.store_and_advance(pc1, 1),
            Opcode::IInc(slot, delta) => {
                if slot >= self.locals.len() {
                    FrameResult::Fault(VmError::Frame(FrameFault::InvalidLocalIndex { slot }))
                } else {
                    let v = self.locals[slot];
                    self.locals[slot] = v.wrapping_add(delta);
                    self.pc = pc1;
                    FrameResult::Running
                }
            },
            Opcode::IAdd => {
                if self.operand_stack.len() < 2 {
                    FrameResult::Fault(VmError::Frame(FrameFault::StackUnderflow))
                } else {
                    let ghost stack0 = self.operand_stack@;
                    let v2 = self.operand_stack.pop().unwrap();
                    let v1 = self.operand_stack.pop().unwrap();
                    self.operand_stack.push(v1.wrapping_add(v2));
                    self.pc = pc1;
                    proof {
                        assert(self.operand_stack@ =~= stack0.take(stack0.len() - 2).push(
                            i32_specs::wrapping_add(v1, v2),
                        ));
                    }
                    FrameResult::Running
                }
            },
            Opcode::Goto(target) => {
                if target >= self.codes.len() {
                    FrameResult::Fault(VmError::Frame(FrameFault::InvalidJumpTarget { target }))
                } else {
                    self.pc = target;
                    FrameResult::Running
                }
            },
            Opcode::IfICmpLt(target) => {
                if self.operand_stack.len() < 2 {
                    FrameResult::Fault(VmError::Frame(FrameFault::StackUnderflow))
                } else {
                    let ghost stack0 = self.operand_stack@;
                    let v2 = self.operand_stack.pop().unwrap();
                    let v1 = self.operand_stack.pop().unwrap();
                    proof {
                        assert(self.operand_stack@ =~= stack0.take(stack0.len() - 2));
                    }
                    if v1 < v2 {
                        if target >= self.codes.len() {
                            FrameResult::Fault(
                                VmError::Frame(FrameFault::InvalidJumpTarget { target }),
                            )
                        } else {
                            self.pc = target;
                            FrameResult::Running
                        }
                    } else {
                        self.pc = pc1;
                        FrameResult::Running
                    }
                }
            },
            Opcode::Return => {
                self.pc = pc1;
                FrameResult::End
            },
            Opcode::IReturn => {
                if self.operand_stack.len() < 1 {
                    FrameResult::Fault(VmError::Frame(FrameFault::StackUnderflow))
                } else {
                    let v = self.operand_stack.pop().unwrap();
                    self.pc = pc1;
                    FrameResult::ReturnValue(v)
                }
            },
            Opcode::InvokeStatic(index) => self.invoke_and_advance(pc1, index),
            Opcode::InvokeSpecial(index) => self.invoke_and_advance(pc1, index),
        }
    }

    /// Runs the frame to its next suspension signal, spending at most
    /// the given step budget. `Running` means the budget ran out with the
    /// frame still active.
    #[verifier::loop_isolation(false)]
    pub fn run(&mut self, fuel: &mut u64) -> (r: FrameResult)
        ensures
            final(self)@.code == old(self)@.code,
            final(self)@.pool == old(self)@.pool,
            final(self)@.max_stack == old(self)@.max_stack,
            ({
                let (r0, s1, f1) = frame_big_step(old(self)@, *old(fuel) as nat);
                &&& r@ == r0
                &&& *final(fuel) as nat == f1
                &&& (r0 is Fault || final(self)@.state == s1)
            }),
    {
        loop
            invariant
                self@.code == old(self)@.code,
                self@.pool == old(self)@.pool,
                self@.max_stack == old(self)@.max_stack,
                frame_big_step(old(self)@, *old(fuel) as nat) == frame_big_step(
                    self@,
                    *fuel as nat,
                ),
            decreases *fuel,
        {
            if *fuel == 0 {
                return FrameResult::Running;
            }
            *fuel = *fuel - 1;
            let r = self.step();
            match r {
                FrameResult::Running => {},
                _ => {
                    return r;
                },
            }
        }
    }

    fn push_and_advance(&mut self, pc1: usize, v: i32) -> (r: FrameResult)
        requires
            pc1 == old(self)@.state.pc + 1,
        ensures
            final(self)@.code == old(self)@.code,
            final(self)@.pool == old(self)@.pool,
            final(self)@.max_stack == old(self)@.max_stack,
            step_matches(push_step(old(self)@, v), r@, final(self)@.state),
    {
        if self.operand_stack.len() >= self.max_stack {
            FrameResult::Fault(VmError::Frame(FrameFault::StackOverflow))
        } else {
            self.operand_stack.push(v);
            self.pc = pc1;
            FrameResult::Running
        }
    }

    fn load_and_advance(&mut self, pc1: usize, slot: usize) -> (r: FrameResult)
        requires
            pc1 == old(self)@.state.pc + 1,
        ensures
            final(self)@.code == old(self)@.code,
            final(self)@.pool == old(self)@.pool,
            final(self)@.max_stack == old(self)@.max_stack,
            step_matches(load_step(old(self)@, slot), r@, final(self)@.state),
    {
        if slot >= self.locals.len() {
            FrameResult::Fault(VmError::Frame(FrameFault::InvalidLocalIndex { slot }))
        } else {
            let v = self.locals[slot];
            self.push_and_advance(pc1, v)
        }
    }

    fn store_and_advance(&mut self, pc1: usize, slot: usize) -> (r: FrameResult)
        requires
            pc1 == old(self)@.state.pc + 1,
        ensures
            final(self)@.code == old(self)@.code,
            final(self)@.pool == old(self)@.pool,
            final(self)@.max_stack == old(self)@.max_stack,
            step_matches(store_step(old(self)@, slot), r@, final(self)@.state),
    {
        if self.operand_stack.len() < 1 {
            FrameResult::Fault(VmError::Frame(FrameFault::StackUnderflow))
        } else if slot >= self.locals.len() {
            FrameResult::Fault(VmError::Frame(FrameFault::InvalidLocalIndex { slot }))
        } else {
            let v = self.operand_stack.pop().unwrap();
            self.locals[slot] = v;
            self.pc = pc1;
            FrameResult::Running
        }
    }

    fn invoke_and_advance(&mut self, pc1: usize, index: u16) -> (r: FrameResult)
        requires
            pc1 == old(self)@.state.pc + 1,
        ensures
            final(self)@.code == old(self)@.code,
            final(self)@.pool == old(self)@.pool,
            final(self)@.max_stack == old(self)@.max_stack,
            step_matches(invoke_step(old(self)@, index), r@, final(self)@.state),
    {
        match self.pool.resolve(index) {
            Ok(signature) => {
                self.pc = pc1;
                FrameResult::Invoke(signature)
            },
            Err(e) => FrameResult::Fault(VmError::ConstantResolution(e)),
        }
    }
}

} // verus!
