//! The call stack: an ordered sequence of frames, last one executing,
//! driven by the invoke/return protocol.
//!
//! The protocol's meaning is the specification function [`machine_run`]:
//! run the top frame to its suspension signal, then pop, propagate a
//! returned value, or push a callee frame. The executable driver is
//! proved to compute exactly that function.

use vstd::prelude::*;

use crate::error::{FrameFault, LookupErrorSpec, VmError, VmErrorSpec};
use crate::frame::{
    Frame, FrameCtx, FrameResult, FrameResultSpec, FrameState, frame_big_step,
    lemma_frame_big_step_fuel,
};
use crate::method_area::{AreaSpec, MethodArea};

verus! {

/// The observable outcome of driving a call stack.
pub ghost enum RunOut {
    /// The frame sequence emptied: the program ran to completion.
    Completed,
    /// The step budget ran out with frames still active.
    Running,
    /// A fault aborted the run.
    Fault(VmErrorSpec),
}

/// How a run of the machine ended.
#[derive(Debug)]
pub enum ExitStatus {
    /// The program ran to completion.
    Completed,
    /// The step budget ran out before the program completed.
    OutOfSteps,
    /// A fault aborted the run; it names the invariant that broke.
    Fault(VmError),
}

impl View for ExitStatus {
    type V = RunOut;

    open spec fn view(&self) -> RunOut {
        match self {
            ExitStatus::Completed => RunOut::Completed,
            ExitStatus::OutOfSteps => RunOut::Running,
            ExitStatus::Fault(e) => RunOut::Fault(e@),
        }
    }
}

/// The arguments an invoke transfers: the callee's local slot `i`
/// receives the `i`-th value popped off the caller's operand stack, so
/// slot 0 holds what was the caller's top of stack.
pub open spec fn popped_args(stack: Seq<i32>, n: nat) -> Seq<i32> {
    Seq::new(n, |i: int| stack[stack.len() - 1 - i])
}

/// The invoke transition, given the suspended caller and the resolved
/// signature: the callee's method and owning class are looked up in the
/// registry, the callee's declared local-slot count of arguments leaves
/// the caller's operand stack, and a fresh frame is built for the
/// callee — counter at zero, empty operand stack, the callee class's
/// constant pool.
pub open spec fn invoke_spec(area: AreaSpec, caller: FrameCtx, signature: Seq<char>) -> Result<
    (FrameCtx, FrameCtx),
    VmErrorSpec,
> {
    if !area.methods.contains_key(signature) {
        Err(VmErrorSpec::RegistryLookup(LookupErrorSpec::MethodNotFound { signature }))
    } else {
        let m = area.methods[signature];
        if !area.classes.contains_key(m.class) {
            Err(VmErrorSpec::RegistryLookup(LookupErrorSpec::ClassNotFound { name: m.class }))
        } else {
            let cls = area.classes[m.class];
            if caller.state.stack.len() < m.local_size {
                Err(VmErrorSpec::Frame(FrameFault::StackUnderflow))
            } else {
                let caller1 = caller.with_state(
                    FrameState {
                        pc: caller.state.pc,
                        locals: caller.state.locals,
                        stack: caller.state.stack.take(
                            caller.state.stack.len() - m.local_size,
                        ),
                    },
                );
                let callee = FrameCtx {
                    code: m.codes,
                    pool: cls.pool,
                    max_stack: m.stack_size,
                    state: FrameState {
                        pc: 0,
                        locals: popped_args(caller.state.stack, m.local_size),
                        stack: Seq::empty(),
                    },
                };
                Ok((caller1, callee))
            }
        }
    }
}

/// Drives a frame sequence (last element executing) within a step
/// budget. While frames remain, the top frame runs to its suspension
/// signal: on `End` it is discarded; on `ReturnValue` it is discarded
/// and the value goes onto its invoker's operand stack; on `Invoke` the
/// caller is reinserted, suspended, beneath the fresh callee frame. An
/// empty sequence is completion.
pub open spec fn machine_run(area: AreaSpec, frames: Seq<FrameCtx>, fuel: nat) -> RunOut
    decreases fuel,
    via machine_run_decreases
{
    if frames.len() == 0 {
        RunOut::Completed
    } else if fuel == 0 {
        RunOut::Running
    } else {
        let top = frames.last();
        let rest = frames.drop_last();
        let (r, s1, fuel1) = frame_big_step(top, fuel);
        match r {
            FrameResultSpec::Running => RunOut::Running,
            FrameResultSpec::End => machine_run(area, rest, fuel1),
            FrameResultSpec::ReturnValue(v) => {
                if rest.len() == 0 {
                    RunOut::Fault(VmErrorSpec::Frame(FrameFault::CallStackUnderflow))
                } else {
                    let invoker = rest.last();
                    if invoker.state.stack.len() >= invoker.max_stack {
                        RunOut::Fault(VmErrorSpec::Frame(FrameFault::StackOverflow))
                    } else {
                        let resumed = invoker.with_state(
                            FrameState {
                                pc: invoker.state.pc,
                                locals: invoker.state.locals,
                                stack: invoker.state.stack.push(v),
                            },
                        );
                        machine_run(area, rest.update(rest.len() - 1, resumed), fuel1)
                    }
                }
            },
            FrameResultSpec::Invoke(signature) => match invoke_spec(
                area,
                top.with_state(s1),
                signature,
            ) {
                Ok((caller, callee)) => machine_run(area, rest.push(caller).push(callee), fuel1),
                Err(e) => RunOut::Fault(e),
            },
            FrameResultSpec::Fault(e) => RunOut::Fault(e),
        }
    }
}

#[via_fn]
proof fn machine_run_decreases(area: AreaSpec, frames: Seq<FrameCtx>, fuel: nat) {
    if frames.len() > 0 && fuel > 0 {
        lemma_frame_big_step_fuel(frames.last(), fuel);
    }
}

/// The ordered sequence of frames that drives execution; the last
/// element is the currently executing frame, every other frame is
/// suspended immediately after an invoke instruction.
pub struct JvmStack {
    frames: Vec<Frame>,
}

impl View for JvmStack {
    type V = Seq<FrameCtx>;

    closed spec fn view(&self) -> Seq<FrameCtx> {
        self.frames@.map_values(|f: Frame| f@)
    }
}

impl JvmStack {
    /// A call stack holding only the entry frame, with room reserved for
    /// `max_size` frames.
    pub fn new(max_size: usize, main: Frame) -> (stack: JvmStack)
        ensures
            stack@ == seq![main@],
    {
        let mut frames: Vec<Frame> = Vec::with_capacity(max_size);
        frames.push(main);
        let stack = JvmStack { frames };
        proof {
            assert(stack@ =~= seq![main@]);
        }
        stack
    }

    /// Drives the frames to completion, a fault, or exhaustion of the
    /// step budget, exactly as [`machine_run`] prescribes.
    #[verifier::loop_isolation(false)]
    pub fn run(&mut self, area: &MethodArea, fuel: &mut u64) -> (r: ExitStatus)
        ensures
            r@ == machine_run(area@, old(self)@, *old(fuel) as nat),
    {
        loop
            invariant
                machine_run(area@, old(self)@, *old(fuel) as nat) == machine_run(
                    area@,
                    self@,
                    *fuel as nat,
                ),
            decreases *fuel,
        {
            let ghost frames0 = self@;
            let ghost fuel0 = *fuel as nat;
            if self.frames.len() == 0 {
                return ExitStatus::Completed;
            }
            if *fuel == 0 {
                return ExitStatus::OutOfSteps;
            }
            let mut frame = self.frames.pop().unwrap();
            proof {
                assert(frame@ == frames0.last());
                assert(self@ =~= frames0.drop_last());
                lemma_frame_big_step_fuel(frames0.last(), fuel0);
            }
            let r = frame.run(fuel);
            match r {
                FrameResult::Running => {
                    self.frames.push(frame);
                    return ExitStatus::OutOfSteps;
                },
                FrameResult::End => {
                    // Discard the frame; no value reaches the caller.
                },
                FrameResult::ReturnValue(v) => {
                    if self.frames.len() == 0 {
                        return ExitStatus::Fault(VmError::Frame(FrameFault::CallStackUnderflow));
                    }
                    let ghost rest = self@;
                    let mut invoker = self.frames.pop().unwrap();
                    proof {
                        assert(invoker@ == rest.last());
                        assert(self@ =~= rest.drop_last());
                    }
                    match invoker.push(v) {
                        Ok(()) => {
                            self.frames.push(invoker);
                            proof {
                                assert(self@ =~= rest.update(rest.len() - 1, invoker@));
                            }
                        },
                        Err(e) => {
                            return ExitStatus::Fault(e);
                        },
                    }
                },
                FrameResult::Invoke(signature) => {
                    let ghost rest = self@;
                    let ghost suspended = frame@;
                    let method = match area.resolve_method(signature.as_str()) {
                        Ok(m) => m,
                        Err(e) => {
                            return ExitStatus::Fault(e);
                        },
                    };
                    let class = match area.resolve_class(method.class.as_str()) {
                        Ok(c) => c,
                        Err(e) => {
                            return ExitStatus::Fault(e);
                        },
                    };
                    if frame.stack_len() < method.local_size {
                        return ExitStatus::Fault(VmError::Frame(FrameFault::StackUnderflow));
                    }
                    let ghost caller_stack = frame@.state.stack;
                    let mut locals: Vec<i32> = Vec::with_capacity(method.local_size);
                    let mut i: usize = 0;
                    while i < method.local_size
                        invariant
                            i <= method.local_size,
                            locals@.len() == i,
                            frame@.code == suspended.code,
                            frame@.pool == suspended.pool,
                            frame@.max_stack == suspended.max_stack,
                            frame@.state.pc == suspended.state.pc,
                            frame@.state.locals == suspended.state.locals,
                            frame@.state.stack == caller_stack.take(
                                caller_stack.len() - i,
                            ),
                            forall|j: int| 0 <= j < i ==> locals@[j] == caller_stack[
                                caller_stack.len() - 1 - j
                            ],
                        decreases method.local_size - i,
                    {
                        let arg = frame.pop().unwrap();
                        locals.push(arg);
                        proof {
                            assert(frame@.state.stack =~= caller_stack.take(
                                caller_stack.len() - (i + 1),
                            ));
                        }
                        i += 1;
                    }
                    proof {
                        assert(locals@ =~= popped_args(caller_stack, method.local_size as nat));
                    }
                    let callee = Frame::new(locals, method, &class.const_pool);
                    let ghost caller1 = frame@;
                    self.frames.push(frame);
                    self.frames.push(callee);
                    proof {
                        assert(self@ =~= rest.push(caller1).push(callee@));
                    }
                },
                FrameResult::Fault(e) => {
                    return ExitStatus::Fault(e);
                },
            }
        }
    }
}

} // verus!
