use vstd::prelude::*;

verus! {

/// The ways a run of the interpreter can fail. Every one of them is fatal to
/// the run that raised it.
#[derive(Debug, Clone, Copy, PartialEq, Eq, Structural)]
pub enum RuntimeError {
    /// A pop from an empty operand stack.
    StackUnderflow,
    /// A store to, or a load from, a local slot at or past the bank's capacity.
    LocalsIndexOutOfBounds,
    /// The script's literal arguments do not match its declared parameters in number.
    ArgumentArityMismatch,
    /// A literal argument does not have its parameter's declared type.
    ArgumentTypeConversionFailure,
    /// A call names a function handle that the caller's context cannot resolve.
    UnresolvedFunctionHandle,
    /// The instruction capability failed to allocate a witness cell.
    CircuitAllocationFailure,
    /// A call would exceed the configured maximum depth of the call stack.
    CallStackOverflow,
    /// A resumed frame's program counter cannot move past its call instruction.
    ProgramCounterOverflow,
    /// The step counter, which labels circuit regions, has no fresh value left.
    StepCounterExhausted,
}

/// Result of an interpreter operation.
pub type VmResult<T> = Result<T, RuntimeError>;

} // verus!
