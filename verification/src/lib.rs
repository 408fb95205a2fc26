//! A minimal virtual machine for a subset of stack-based bytecode.
//!
//! The crate models one loaded class's compiled methods and executes them:
//! a constant pool resolves symbolic entries to canonical text keys, a
//! method area maps signatures to methods, and a call stack drives frames
//! (activation records) through an invoke/return protocol.

use vstd::prelude::*;

pub mod call_stack;
pub mod const_pool;
pub mod error;
pub mod frame;
pub mod laws;
pub mod method_area;
pub mod table;
pub mod vm;

verus! {

/// One decoded bytecode instruction of the subset this machine executes.
///
/// Branch targets (`Goto`, `IfICmpLt`) are absolute instruction indices;
/// `InvokeStatic` and `InvokeSpecial` carry a constant-pool index that
/// resolves to the callee's signature.
#[derive(Clone, Copy, PartialEq, Eq, Structural, Debug)]
pub enum Opcode {
    IConst0,
    IConst1,
    BiPush(i32),
    ILoad0,
    ILoad1,
    IStore0,
    IStore1,
    IInc(usize, i32),
    IAdd,
    Goto(usize),
    IfICmpLt(usize),
    Return,
    IReturn,
    InvokeStatic(u16),
    InvokeSpecial(u16),
}

} // verus!
