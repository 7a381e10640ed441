use vstd::prelude::*;
use crate::error::RuntimeError;
use crate::locals::Locals;

verus! {

/// What the interpreter needs of one function definition: how many formal
/// parameters it declares, how many local slots it uses (parameters
/// included), and the function each of its call handles refers to, as an
/// index into the registry that holds it.
pub struct FunctionDef {
    pub arg_count: usize,
    pub local_count: usize,
    pub handles: Vec<usize>,
}

/// The read-only set of function definitions of one program. Frames name
/// their function by its index here and never own a definition.
pub struct FunctionRegistry {
    pub functions: Vec<FunctionDef>,
}

/// The function that handle `handle` of function `caller` refers to, when
/// both the caller and the target exist.
pub open spec fn resolve(reg: &FunctionRegistry, caller: usize, handle: usize) -> Option<usize> {
    if caller < reg.functions@.len() && handle < reg.functions@[caller as int].handles@.len()
        && reg.functions@[caller as int].handles@[handle as int] < reg.functions@.len() {
        Some(reg.functions@[caller as int].handles@[handle as int])
    } else {
        None
    }
}

impl FunctionRegistry {
    /// Number of definitions.
    pub fn len(&self) -> (r: usize)
        ensures
            r == self.functions@.len(),
    {
        self.functions.len()
    }

    /// Resolves call handle `handle` of function `caller`. An unknown
    /// caller, a handle past the caller's handle table, or a target outside
    /// the registry gives `UnresolvedFunctionHandle`.
    pub fn function_from_handle(&self, caller: usize, handle: usize) -> (r: Result<usize, RuntimeError>)
        ensures
            resolve(self, caller, handle) is Some ==> r == Ok::<usize, RuntimeError>(resolve(self, caller, handle)->0),
            resolve(self, caller, handle) is None ==> r == Err::<usize, RuntimeError>(RuntimeError::UnresolvedFunctionHandle),
    {
        if caller >= self.functions.len() {
            return Err(RuntimeError::UnresolvedFunctionHandle);
        }
        let def = &self.functions[caller];
        if handle >= def.handles.len() {
            return Err(RuntimeError::UnresolvedFunctionHandle);
        }
        let target = def.handles[handle];
        if target >= self.functions.len() {
            return Err(RuntimeError::UnresolvedFunctionHandle);
        }
        Ok(target)
    }
}

/// How the execution of a frame ended: its function returned, or it calls
/// the function behind the given handle of its own function.
#[derive(Debug, Clone, Copy, PartialEq, Eq, Structural)]
pub enum ExitStatus {
    Return,
    Call(usize),
}

/// One activation: the function it runs (an index into the registry), its
/// locals and its program counter.
pub struct Frame {
    pub func: usize,
    pub locals: Locals,
    pub pc: u64,
}

impl Frame {
    /// A frame about to run `func` from its first instruction.
    pub fn new(func: usize, locals: Locals) -> (r: Frame)
        ensures
            r.func == func,
            r.locals == locals,
            r.pc == 0,
    {
        Frame { func, locals, pc: 0 }
    }

    /// Index of the function this frame runs.
    pub fn func(&self) -> (r: usize)
        ensures
            r == self.func,
    {
        self.func
    }

    /// Moves the program counter past the current instruction. Fails with
    /// `ProgramCounterOverflow`, changing nothing, when it cannot advance.
    pub fn add_pc(&mut self) -> (r: Result<(), RuntimeError>)
        ensures
            final(self).func == old(self).func,
            final(self).locals == old(self).locals,
            old(self).pc < u64::MAX ==> r is Ok && final(self).pc == old(self).pc + 1,
            old(self).pc == u64::MAX ==> r == Err::<(), RuntimeError>(RuntimeError::ProgramCounterOverflow)
                && final(self).pc == old(self).pc,
    {
        if self.pc == u64::MAX {
            return Err(RuntimeError::ProgramCounterOverflow);
        }
        self.pc = self.pc + 1;
        Ok(())
    }
}

} // verus!
