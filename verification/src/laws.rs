//! Laws of the interpreter semantics, each proved against the same
//! specification functions the executable code is verified against.

use vstd::prelude::*;
use vstd::arithmetic::div_mod::{
    lemma_add_mod_noop_right, lemma_mod_add_multiples_vanish, lemma_mod_bound,
    lemma_mod_sub_multiples_vanish, lemma_small_mod,
};
use vstd::wrapping::i32_specs;

use crate::Opcode;
use crate::call_stack::{RunOut, machine_run};
use crate::error::{LookupErrorSpec, VmErrorSpec};
use crate::frame::{FrameCtx, FrameResultSpec, FrameState, StepSpec, frame_big_step, step_of};
use crate::method_area::AreaSpec;

verus! {

/// One abstract operand-stack operation.
pub ghost enum StackOp {
    Push(i32),
    Pop,
}

/// Simulates `ops` in order against `stack`, bounded by `max_stack`:
/// `None` when a pop underflows or a push exceeds the declared depth.
pub open spec fn sim_stack_ops(stack: Seq<i32>, max_stack: nat, ops: Seq<StackOp>) -> Option<
    Seq<i32>,
>
    decreases ops.len(),
{
    if ops.len() == 0 {
        Some(stack)
    } else {
        match sim_stack_ops(stack, max_stack, ops.drop_last()) {
            None => None,
            Some(s) => match ops.last() {
                StackOp::Push(v) => if s.len() >= max_stack {
                    None
                } else {
                    Some(s.push(v))
                },
                StackOp::Pop => if s.len() == 0 {
                    None
                } else {
                    Some(s.drop_last())
                },
            },
        }
    }
}

/// Whether `instr` only pushes to or pops from the operand stack.
pub open spec fn is_stack_op(instr: Opcode) -> bool {
    match instr {
        Opcode::IConst0 => true,
        Opcode::IConst1 => true,
        Opcode::BiPush(_) => true,
        Opcode::IStore0 => true,
        Opcode::IStore1 => true,
        _ => false,
    }
}

/// The push or pop a stack instruction performs; meaningful only where
/// [`is_stack_op`] holds.
pub open spec fn stack_op_of(instr: Opcode) -> StackOp {
    match instr {
        Opcode::IConst0 => StackOp::Push(0),
        Opcode::IConst1 => StackOp::Push(1),
        Opcode::BiPush(n) => StackOp::Push(n),
        _ => StackOp::Pop,
    }
}

/// Whether the local slot a store writes exists among `locals_len`
/// slots; trivially true of instructions that touch no local.
pub open spec fn slot_in_range(instr: Opcode, locals_len: nat) -> bool {
    match instr {
        Opcode::IStore0 => locals_len >= 1,
        Opcode::IStore1 => locals_len >= 2,
        _ => true,
    }
}

/// The stack effects of the `k` instructions from the counter on.
pub open spec fn ops_of(c: FrameCtx, k: nat) -> Seq<StackOp> {
    Seq::new(k, |j: int| stack_op_of(c.code[c.state.pc + j]))
}

/// The frame's state after `k` continuing steps; `None` if any of the
/// `k` steps suspended or faulted instead.
pub open spec fn steps_k(c: FrameCtx, k: nat) -> Option<FrameState>
    decreases k,
{
    if k == 0 {
        Some(c.state)
    } else {
        match steps_k(c, (k - 1) as nat) {
            None => None,
            Some(s) => match step_of(c.with_state(s)) {
                StepSpec::Continue(s2) => Some(s2),
                _ => None,
            },
        }
    }
}

/// Law (stack discipline): a straight-line run of push and store
/// instructions whose simulation never underflows — nor exceeds the
/// declared depth — neither faults nor suspends, and leaves exactly the
/// operand stack that simulating the pushes and pops in order predicts.
pub proof fn lemma_stack_discipline(c: FrameCtx, k: nat)
    requires
        c.state.pc + k <= c.code.len(),
        forall|j: int| 0 <= j < k ==> is_stack_op(#[trigger] c.code[c.state.pc + j]),
        forall|j: int| 0 <= j < k ==> slot_in_range(
            #[trigger] c.code[c.state.pc + j],
            c.state.locals.len(),
        ),
        sim_stack_ops(c.state.stack, c.max_stack, ops_of(c, k)) is Some,
    ensures
        steps_k(c, k) is Some,
        ({
            let s1 = steps_k(c, k).unwrap();
            &&& s1.pc == c.state.pc + k
            &&& s1.locals.len() == c.state.locals.len()
            &&& Some(s1.stack) == sim_stack_ops(c.state.stack, c.max_stack, ops_of(c, k))
        }),
    decreases k,
{
    if k > 0 {
        assert(ops_of(c, (k - 1) as nat) =~= ops_of(c, k).drop_last());
        lemma_stack_discipline(c, (k - 1) as nat);
        let s = steps_k(c, (k - 1) as nat).unwrap();
        let instr = c.code[c.state.pc + k - 1];
        assert(is_stack_op(instr));
        assert(slot_in_range(instr, c.state.locals.len()));
        assert(ops_of(c, k).last() == stack_op_of(instr));
        match instr {
            Opcode::IConst0 => {},
            Opcode::IConst1 => {},
            Opcode::BiPush(_) => {},
            Opcode::IStore0 => {},
            Opcode::IStore1 => {},
            _ => {
                assert(false);
            },
        }
    } else {
        assert(ops_of(c, 0) =~= Seq::<StackOp>::empty());
    }
}

/// `x` with `d` added `k` times in wrapping 32-bit arithmetic — the
/// accumulated effect of `k` increment instructions with delta `d`.
pub open spec fn iter_inc(x: i32, d: i32, k: nat) -> i32
    decreases k,
{
    if k == 0 {
        x
    } else {
        i32_specs::wrapping_add(iter_inc(x, d, (k - 1) as nat), d)
    }
}

/// Adding `d` to a value already wrapped to the 32-bit range wraps to
/// the same result as adding `d` before wrapping.
proof fn lemma_wrapping_add_crop(b: int, d: i32)
    ensures
        i32_specs::wrapping_add(i32_specs::signed_crop(b), d) == i32_specs::signed_crop(b + d),
{
    let r = 0x1_0000_0000 as int;
    let m = b % r;
    lemma_mod_bound(b, r);
    lemma_add_mod_noop_right(d as int, b, r);
    if m + d < 0 {
        lemma_mod_add_multiples_vanish(m + d, r);
        lemma_small_mod((m + d + r) as nat, r as nat);
    } else if m + d < r {
        lemma_small_mod((m + d) as nat, r as nat);
    } else {
        lemma_mod_sub_multiples_vanish(m + d, r);
        lemma_small_mod((m + d - r) as nat, r as nat);
    }
}

/// Law (linearity of increment): incrementing a local slot by `d`,
/// `k` times over, equals one increment by `d * k`, the total wrapped to
/// the machine's 32-bit range as every increment is.
pub proof fn lemma_increment_linearity(x: i32, d: i32, k: nat)
    ensures
        iter_inc(x, d, k) == i32_specs::signed_crop(x + d * k),
    decreases k,
{
    let r = 0x1_0000_0000 as int;
    if k == 0 {
        assert(d * 0 == 0);
        if x >= 0 {
            lemma_small_mod(x as nat, r as nat);
        } else {
            lemma_mod_add_multiples_vanish(x as int, r);
            lemma_small_mod((x + r) as nat, r as nat);
        }
    } else {
        lemma_increment_linearity(x, d, (k - 1) as nat);
        lemma_wrapping_add_crop(x + d * (k - 1), d);
        assert(d * (k - 1) + d == d * k) by (nonlinear_arith);
    }
}

/// Law: an unconditional jump to a valid target mutates only the
/// program counter — the locals and the operand stack are unchanged.
pub proof fn lemma_jump_changes_only_pc(c: FrameCtx, target: usize)
    requires
        c.state.pc < c.code.len(),
        c.code[c.state.pc as int] == Opcode::Goto(target),
        target < c.code.len(),
    ensures
        step_of(c) == StepSpec::Continue(
            FrameState { pc: target as nat, locals: c.state.locals, stack: c.state.stack },
        ),
{
}

/// Law: when the executing frame suspends asking for a signature that
/// the registry does not hold, the run aborts with a lookup fault that
/// names that signature — never with a silent default.
pub proof fn lemma_unregistered_invoke_faults(
    area: AreaSpec,
    frames: Seq<FrameCtx>,
    fuel: nat,
    signature: Seq<char>,
)
    requires
        frames.len() > 0,
        fuel > 0,
        frame_big_step(frames.last(), fuel).0 == FrameResultSpec::Invoke(signature),
        !area.methods.contains_key(signature),
    ensures
        machine_run(area, frames, fuel) == RunOut::Fault(
            VmErrorSpec::RegistryLookup(LookupErrorSpec::MethodNotFound { signature }),
        ),
{
}

/// Law: the less-than branch pops exactly two values on every
/// execution — its two operands, value2 off the top — whether or not the
/// branch is taken; the locals are untouched, and only the counter
/// depends on the comparison.
pub proof fn lemma_branch_pops_two(c: FrameCtx, target: usize)
    requires
        c.state.pc < c.code.len(),
        c.code[c.state.pc as int] == Opcode::IfICmpLt(target),
        target < c.code.len(),
        c.state.stack.len() >= 2,
    ensures
        ({
            let taken = c.state.stack[c.state.stack.len() - 2] < c.state.stack.last();
            step_of(c) == StepSpec::Continue(
                FrameState {
                    pc: if taken {
                        target as nat
                    } else {
                        (c.state.pc + 1) as nat
                    },
                    locals: c.state.locals,
                    stack: c.state.stack.take(c.state.stack.len() - 2),
                },
            )
        }),
{
}

} // verus!
