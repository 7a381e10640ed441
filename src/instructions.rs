use vstd::prelude::*;
use crate::error::RuntimeError;
use crate::frame::{ExitStatus, Frame, FunctionRegistry};
use crate::stack::EvalStack;
use crate::value::WireRef;

verus! {

/// Failure of the instruction capability to allocate a witness cell.
#[derive(Debug, Clone, Copy, PartialEq, Eq, Structural)]
pub struct AllocationError {
    pub code: u32,
}

/// The instruction execution capability: it allocates the circuit's wires
/// and enforces the constraints of each opcode. The interpreter promises
/// nothing about what it returns; it only decides what to do next from it.
pub trait Instructions {
    /// Allocates a private witness cell holding `witness` (unknown when
    /// absent) for script argument number `index`, inside the region labelled
    /// by step `step`.
    fn load_private(&mut self, step: u64, index: usize, witness: Option<u128>) -> Result<WireRef, AllocationError>;

    /// Runs `frame` inside the region labelled by step `step` until its
    /// function returns or calls another function, pushing and popping
    /// operands on `stack` and advancing the frame's program counter within
    /// its own function.
    fn execute_frame(
        &mut self,
        step: u64,
        frame: &mut Frame,
        stack: &mut EvalStack,
        registry: &FunctionRegistry,
    ) -> Result<ExitStatus, RuntimeError>;
}

} // verus!
