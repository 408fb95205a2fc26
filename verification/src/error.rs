//! The machine's fault taxonomy.
//!
//! Every fault is unrecoverable: there is no verification pass and no
//! catchable-exception machinery, so a fault aborts the entire run.

use vstd::prelude::*;

verus! {

/// Failure of constant-pool text resolution.
#[derive(Clone, Copy, PartialEq, Eq, Structural, Debug)]
pub enum CpError {
    /// The entry at this index has no textual representation
    /// (a numeric literal or an unresolved handle-kind entry).
    UnresolvableConstant { index: u16 },
    /// The index lies beyond the pool's bounds.
    IndexOutOfRange { index: u16 },
}

/// A fatal fault raised while a frame executes.
#[derive(Clone, Copy, PartialEq, Eq, Structural, Debug)]
pub enum FrameFault {
    /// An instruction popped an empty operand stack, or an invoke asked
    /// for more arguments than the caller's operand stack holds.
    StackUnderflow,
    /// A push would exceed the method's declared maximum stack depth.
    StackOverflow,
    /// A local-variable slot outside the frame's declared range.
    InvalidLocalIndex { slot: usize },
    /// A branch to an instruction index outside the method's code.
    InvalidJumpTarget { target: usize },
    /// A value-returning method completed with no invoker left to
    /// receive the value.
    CallStackUnderflow,
}

/// Failure of a method-registry lookup. Fatal: the interpreter cannot
/// synthesize missing code.
#[derive(Debug)]
pub enum LookupError {
    /// No method is registered under this signature.
    MethodNotFound { signature: String },
    /// No class is registered under this name.
    ClassNotFound { name: String },
}

/// Any fault that aborts a run.
#[derive(Debug)]
pub enum VmError {
    ConstantResolution(CpError),
    RegistryLookup(LookupError),
    Frame(FrameFault),
}

/// Mathematical image of [`LookupError`], with text as character sequences.
pub ghost enum LookupErrorSpec {
    MethodNotFound { signature: Seq<char> },
    ClassNotFound { name: Seq<char> },
}

/// Mathematical image of [`VmError`].
pub ghost enum VmErrorSpec {
    ConstantResolution(CpError),
    RegistryLookup(LookupErrorSpec),
    Frame(FrameFault),
}

impl View for LookupError {
    type V = LookupErrorSpec;

    open spec fn view(&self) -> LookupErrorSpec {
        match self {
            LookupError::MethodNotFound { signature } => LookupErrorSpec::MethodNotFound {
                signature: signature@,
            },
            LookupError::ClassNotFound { name } => LookupErrorSpec::ClassNotFound {
                name: name@,
            },
        }
    }
}

impl View for VmError {
    type V = VmErrorSpec;

    open spec fn view(&self) -> VmErrorSpec {
        match self {
            VmError::ConstantResolution(e) => VmErrorSpec::ConstantResolution(*e),
            VmError::RegistryLookup(e) => VmErrorSpec::RegistryLookup(e@),
            VmError::Frame(f) => VmErrorSpec::Frame(*f),
        }
    }
}

} // verus!
