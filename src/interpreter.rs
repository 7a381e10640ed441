use vstd::prelude::*;
use crate::error::{RuntimeError, VmResult};
use crate::frame::{resolve, ExitStatus, Frame, FunctionRegistry};
use crate::instructions::Instructions;
use crate::locals::Locals;
use crate::stack::{CallStack, EvalStack};
use crate::value::{convert_from, literal_scalar, literal_type, Literal, Value, ValueType};

verus! {

/// The locals of a frame for a function with `arg_count` parameters and
/// `local_count` slots, called with `stack` as operand stack: parameter `i`
/// holds the `i`-th of the top `arg_count` values, counted from the deepest,
/// and the other slots are empty.
pub open spec fn entry_locals(stack: Seq<Value>, arg_count: nat, local_count: nat) -> Seq<Option<Value>> {
    Seq::new(local_count, |i: int|
        if i < arg_count { Some(stack[stack.len() - arg_count + i]) } else { None::<Value> })
}

/// Whatever lies below them on the operand stack, arguments pushed by a
/// caller left to right land in the callee's locals in declaration order:
/// slot `i` holds the `i`-th pushed argument, and the slots past the
/// parameters are empty.
pub proof fn lemma_arguments_keep_declaration_order(below: Seq<Value>, pushed: Seq<Value>, local_count: nat)
    requires
        pushed.len() <= local_count,
    ensures
        forall|i: int| 0 <= i < pushed.len() ==>
            #[trigger] entry_locals(below + pushed, pushed.len(), local_count)[i] == Some(pushed[i]),
        forall|i: int| pushed.len() <= i < local_count ==>
            #[trigger] entry_locals(below + pushed, pushed.len(), local_count)[i] is None,
{
    assert forall|i: int| 0 <= i < pushed.len() implies
        #[trigger] entry_locals(below + pushed, pushed.len(), local_count)[i] == Some(pushed[i]) by {
        assert((below + pushed)[below.len() + i] == pushed[i]);
    }
}

/// The error, if any, that argument handling reports before any cell is
/// allocated: a count that differs from the declaration, a literal of the
/// wrong type, or more parameters than local slots.
pub open spec fn argument_error(args: Option<Seq<Literal>>, arg_types: Seq<ValueType>, capacity: nat) -> Option<RuntimeError> {
    if args is Some && args->0.len() != arg_types.len() {
        Some(RuntimeError::ArgumentArityMismatch)
    } else if args is Some && exists|i: int| 0 <= i < arg_types.len() && literal_type(args->0[i]) != arg_types[i] {
        Some(RuntimeError::ArgumentTypeConversionFailure)
    } else if arg_types.len() > capacity {
        Some(RuntimeError::LocalsIndexOutOfBounds)
    } else {
        None
    }
}

/// The witness of parameter `i`: the scalar of its literal, or unknown when
/// no literals were given.
pub open spec fn argument_witness(args: Option<Seq<Literal>>, i: int) -> Option<u128> {
    match args {
        Some(a) => Some(literal_scalar(a[i])),
        None => None,
    }
}

/// Slot content for parameter `i` once its argument is bound: a value with
/// the parameter's witness and declared type.
pub open spec fn argument_bound(slot: Option<Value>, args: Option<Seq<Literal>>, arg_types: Seq<ValueType>, i: int) -> bool {
    &&& slot is Some
    &&& slot->0.witness == argument_witness(args, i)
    &&& slot->0.kind == arg_types[i]
}

/// The bank `new`, made from `old` by argument binding that stopped at
/// parameter `k`: the slots before `k` are bound and the others unchanged.
pub open spec fn bound_before(
    new: Seq<Option<Value>>,
    old: Seq<Option<Value>>,
    args: Option<Seq<Literal>>,
    arg_types: Seq<ValueType>,
    k: int,
) -> bool {
    &&& forall|j: int| 0 <= j < k ==> argument_bound(#[trigger] new[j], args, arg_types, j)
    &&& forall|j: int| k <= j < old.len() ==> #[trigger] new[j] == old[j]
}

/// The literal arguments, if given, as a sequence.
pub open spec fn literals_view(args: &Option<Vec<Literal>>) -> Option<Seq<Literal>> {
    match args {
        Some(a) => Some(a@),
        None => None,
    }
}

/// Converts the literal arguments, if given, into the witnesses of the
/// declared parameters; without literals every witness is unknown.
pub fn convert_arguments(args: &Option<Vec<Literal>>, arg_types: &Vec<ValueType>) -> (r: VmResult<Vec<Option<u128>>>)
    ensures
        argument_error(literals_view(args), arg_types@, usize::MAX as nat) is Some
            ==> r == Err::<Vec<Option<u128>>, RuntimeError>(argument_error(literals_view(args), arg_types@, usize::MAX as nat)->0),
        argument_error(literals_view(args), arg_types@, usize::MAX as nat) is None ==> r is Ok
            && r->Ok_0@.len() == arg_types@.len()
            && forall|i: int| 0 <= i < arg_types@.len() ==> r->Ok_0@[i] == argument_witness(literals_view(args), i),
{
    let n = arg_types.len();
    let mut out: Vec<Option<u128>> = Vec::with_capacity(n);
    match args {
        Some(a) => {
            if a.len() != n {
                return Err(RuntimeError::ArgumentArityMismatch);
            }
            let mut i: usize = 0;
            while i < n
                invariant
                    i <= n,
                    n == arg_types@.len(),
                    a@.len() == n,
                    *args == Some(*a),
                    out@.len() == i,
                    forall|j: int| 0 <= j < i ==> literal_type(a@[j]) == arg_types@[j],
                    forall|j: int| 0 <= j < i ==> out@[j] == Some(literal_scalar(a@[j])),
                decreases n - i,
            {
                match convert_from(a[i], arg_types[i]) {
                    Ok(s) => out.push(Some(s)),
                    Err(e) => return Err(e),
                }
                i = i + 1;
            }
        },
        None => {
            let mut i: usize = 0;
            while i < n
                invariant
                    i <= n,
                    out@.len() == i,
                    forall|j: int| 0 <= j < i ==> out@[j] is None,
                decreases n - i,
            {
                out.push(None);
                i = i + 1;
            }
        },
    }
    Ok(out)
}

/// The interpreter: the operand stack shared by the call chain, the
/// suspended callers, and the counter whose values label circuit regions.
pub struct Interpreter {
    pub stack: EvalStack,
    pub frames: CallStack,
    pub step: u64,
}

impl Interpreter {
    /// An interpreter with empty stacks, no bound on the call depth, at step 0.
    pub fn new() -> (r: Interpreter)
        ensures
            r.stack@ == Seq::<Value>::empty(),
            r.frames@ == Seq::<Frame>::empty(),
            r.frames.max_depth() == usize::MAX,
            r.step == 0,
    {
        Interpreter { stack: EvalStack::new(), frames: CallStack::new(), step: 0 }
    }

    /// An interpreter with empty stacks, at step 0, that suspends at most
    /// `max_depth` callers at once.
    pub fn with_max_depth(max_depth: usize) -> (r: Interpreter)
        ensures
            r.stack@ == Seq::<Value>::empty(),
            r.frames@ == Seq::<Frame>::empty(),
            r.frames.max_depth() == max_depth,
            r.step == 0,
    {
        Interpreter { stack: EvalStack::new(), frames: CallStack::with_max_depth(max_depth), step: 0 }
    }

    /// The operand stack.
    pub fn stack(&self) -> (r: &EvalStack)
        ensures
            *r == self.stack,
    {
        &self.stack
    }

    /// The stack of suspended frames.
    pub fn frames(&mut self) -> (r: &mut CallStack)
        ensures
            *r == old(self).frames,
            final(self).frames == *final(r),
            final(self).stack == old(self).stack,
            final(self).step == old(self).step,
    {
        &mut self.frames
    }

    /// The innermost suspended frame, if any.
    pub fn current_frame(&mut self) -> (r: Option<&mut Frame>)
        ensures
            final(self).stack == old(self).stack,
            final(self).step == old(self).step,
            final(self).frames.max_depth() == old(self).frames.max_depth(),
            old(self).frames@.len() == 0 ==> r is None && final(self).frames@ == old(self).frames@,
            old(self).frames@.len() > 0 ==> r is Some && *r.unwrap() == old(self).frames@.last()
                && final(self).frames@ == old(self).frames@.update(old(self).frames@.len() - 1, *final(r.unwrap())),
    {
        self.frames.top_mut()
    }

    /// Hands out the current step as a fresh region label and advances the
    /// counter, so that no label repeats. Fails with `StepCounterExhausted`
    /// once the counter has no value left.
    pub fn next_step(&mut self) -> (r: VmResult<u64>)
        ensures
            final(self).stack == old(self).stack,
            final(self).frames == old(self).frames,
            old(self).step < u64::MAX ==> r == Ok::<u64, RuntimeError>(old(self).step)
                && final(self).step == old(self).step + 1,
            old(self).step == u64::MAX ==> r == Err::<u64, RuntimeError>(RuntimeError::StepCounterExhausted)
                && final(self).step == old(self).step,
    {
        if self.step == u64::MAX {
            return Err(RuntimeError::StepCounterExhausted);
        }
        let s = self.step;
        self.step = self.step + 1;
        Ok(s)
    }

    /// Builds the frame of a call to function `func`: pops exactly its
    /// declared number of arguments off the operand stack and stores them so
    /// that parameter `i` holds the `i`-th argument the caller pushed. Fails,
    /// changing nothing, with `UnresolvedFunctionHandle` for an unknown
    /// function, with `StackUnderflow` when the stack holds fewer values than
    /// the function has parameters, and with `LocalsIndexOutOfBounds` when the
    /// function declares more parameters than local slots.
    pub fn make_frame(&mut self, registry: &FunctionRegistry, func: usize) -> (r: VmResult<Frame>)
        ensures
            final(self).frames == old(self).frames,
            final(self).step == old(self).step,
            func >= registry.functions@.len() ==> r == Err::<Frame, RuntimeError>(RuntimeError::UnresolvedFunctionHandle)
                && final(self).stack@ == old(self).stack@,
            func < registry.functions@.len() ==> ({
                let def = registry.functions@[func as int];
                let old_stack = old(self).stack@;
                &&& old_stack.len() < def.arg_count ==> r == Err::<Frame, RuntimeError>(RuntimeError::StackUnderflow)
                    && final(self).stack@ == old_stack
                &&& old_stack.len() >= def.arg_count && def.arg_count > def.local_count
                    ==> r == Err::<Frame, RuntimeError>(RuntimeError::LocalsIndexOutOfBounds)
                    && final(self).stack@ == old_stack
                &&& old_stack.len() >= def.arg_count && def.arg_count <= def.local_count ==> r is Ok
                    && final(self).stack@ == old_stack.subrange(0, old_stack.len() - def.arg_count)
                    && r->Ok_0.func == func
                    && r->Ok_0.pc == 0
                    && r->Ok_0.locals@ == entry_locals(old_stack, def.arg_count as nat, def.local_count as nat)
            }),
    {
        if func >= registry.len() {
            return Err(RuntimeError::UnresolvedFunctionHandle);
        }
        let def = &registry.functions[func];
        let arg_count = def.arg_count;
        let local_count = def.local_count;
        if self.stack.len() < arg_count {
            return Err(RuntimeError::StackUnderflow);
        }
        if arg_count > local_count {
            return Err(RuntimeError::LocalsIndexOutOfBounds);
        }
        let ghost old_stack = self.stack@;
        let ghost base = old_stack.len() - arg_count;
        let mut locals = Locals::new(local_count);
        let mut i: usize = 0;
        while i < arg_count
            invariant
                i <= arg_count,
                arg_count <= local_count,
                func < registry.functions@.len(),
                arg_count == registry.functions@[func as int].arg_count,
                local_count == registry.functions@[func as int].local_count,
                old_stack == old(self).stack@,
                arg_count <= old_stack.len(),
                base + arg_count == old_stack.len(),
                self.stack@ == old_stack.subrange(0, old_stack.len() - i),
                self.frames == old(self).frames,
                self.step == old(self).step,
                locals@.len() == local_count,
                forall|j: int| 0 <= j < local_count ==> #[trigger] locals@[j] ==
                    if arg_count - i <= j < arg_count { Some(old_stack[base + j]) } else { None::<Value> },
            decreases arg_count - i,
        {
            let v = match self.stack.pop() {
                Ok(v) => v,
                Err(e) => return Err(e),
            };
            match locals.store(arg_count - i - 1, v) {
                Ok(()) => {},
                Err(e) => return Err(e),
            }
            i = i + 1;
        }
        proof {
            assert(self.stack@ == old_stack.subrange(0, old_stack.len() - arg_count));
            assert(locals@ =~= entry_locals(old_stack, arg_count as nat, local_count as nat));
        }
        Ok(Frame::new(func, locals))
    }

    /// Binds the script's arguments to freshly allocated private witness
    /// cells, parameter `i` in slot `i` of `locals`, in the region labelled by
    /// the current step. Every error of `argument_error` is reported before
    /// any cell is allocated, and leaves `locals` unchanged; otherwise the only
    /// failure is the capability's, reported as `CircuitAllocationFailure`.
    pub fn process_arguments<I: Instructions>(
        &mut self,
        chip: &mut I,
        locals: &mut Locals,
        args: Option<Vec<Literal>>,
        arg_types: Vec<ValueType>,
    ) -> (r: VmResult<()>)
        ensures
            final(self).stack == old(self).stack,
            final(self).frames == old(self).frames,
            final(self).step == old(self).step,
            final(locals)@.len() == old(locals)@.len(),
            argument_error(literals_view(&args), arg_types@, old(locals)@.len()) is Some
                ==> r == Err::<(), RuntimeError>(argument_error(literals_view(&args), arg_types@, old(locals)@.len())->0)
                && final(locals)@ == old(locals)@,
            forall|j: int| arg_types@.len() <= j < old(locals)@.len() ==> #[trigger] final(locals)@[j] == old(locals)@[j],
            argument_error(literals_view(&args), arg_types@, old(locals)@.len()) is None && arg_types@.len() == 0 ==> r is Ok,
            argument_error(literals_view(&args), arg_types@, old(locals)@.len()) is None && r is Err
                ==> r == Err::<(), RuntimeError>(RuntimeError::CircuitAllocationFailure)
                && exists|k: int| 0 <= k < arg_types@.len()
                    && #[trigger] bound_before(final(locals)@, old(locals)@, literals_view(&args), arg_types@, k),
            r is Ok ==> argument_error(literals_view(&args), arg_types@, old(locals)@.len()) is None
                && forall|i: int| 0 <= i < arg_types@.len() ==> argument_bound(#[trigger] final(locals)@[i], literals_view(&args), arg_types@, i),
    {
        let n = arg_types.len();
        let witnesses = match convert_arguments(&args, &arg_types) {
            Ok(w) => w,
            Err(e) => return Err(e),
        };
        if n > locals.capacity() {
            return Err(RuntimeError::LocalsIndexOutOfBounds);
        }
        let ghost old_locals = locals@;
        let step = self.step;
        let mut i: usize = 0;
        while i < n
            invariant
                i <= n,
                n == arg_types@.len(),
                n <= old_locals.len(),
                old_locals == old(locals)@,
                argument_error(literals_view(&args), arg_types@, old_locals.len()) is None,
                self.stack == old(self).stack,
                self.frames == old(self).frames,
                self.step == old(self).step,
                step == self.step,
                witnesses@.len() == n,
                forall|j: int| 0 <= j < n ==> witnesses@[j] == argument_witness(literals_view(&args), j),
                locals@.len() == old_locals.len(),
                forall|j: int| 0 <= j < i ==> argument_bound(#[trigger] locals@[j], literals_view(&args), arg_types@, j),
                forall|j: int| i <= j < old_locals.len() ==> #[trigger] locals@[j] == old_locals[j],
            decreases n - i,
        {
            let witness = witnesses[i];
            let cell = match chip.load_private(step, i, witness) {
                Ok(c) => c,
                Err(_) => {
                    assert(bound_before(locals@, old_locals, literals_view(&args), arg_types@, i as int));
                    return Err(RuntimeError::CircuitAllocationFailure);
                },
            };
            match locals.store(i, Value::new_variable(witness, cell, arg_types[i])) {
                Ok(()) => {},
                Err(e) => return Err(e),
            }
            i = i + 1;
        }
        Ok(())
    }
    /// Applies the outcome `exec` of running `frame` through the capability.
    /// An error of the capability is returned as it came, with nothing
    /// changed. Otherwise its exit status decides: on `Return` the
    /// innermost suspended caller, if any, resumes past its call instruction;
    /// with no caller left the script has terminated, which is `Ok(None)`. On
    /// `Call(h)` the callee behind handle `h` of the running function gets a
    /// new frame built by `make_frame`, and the running frame is suspended.
    /// Every error leaves the interpreter unchanged.
    pub fn apply_exit(&mut self, registry: &FunctionRegistry, frame: Frame, exec: VmResult<ExitStatus>) -> (r: VmResult<Option<Frame>>)
        ensures
            final(self).step == old(self).step,
            final(self).frames.max_depth() == old(self).frames.max_depth(),
            r is Err ==> final(self).frames@ == old(self).frames@ && final(self).stack@ == old(self).stack@,
            exec is Err ==> r == Err::<Option<Frame>, RuntimeError>(exec->Err_0),
            (r == Ok::<Option<Frame>, RuntimeError>(None))
                <==> (exec == Ok::<ExitStatus, RuntimeError>(ExitStatus::Return) && old(self).frames@.len() == 0),
            r == Ok::<Option<Frame>, RuntimeError>(None) ==> final(self).frames@.len() == 0,
            exec == Ok::<ExitStatus, RuntimeError>(ExitStatus::Return) ==> ({
                let callers = old(self).frames@;
                &&& final(self).stack@ == old(self).stack@
                &&& callers.len() == 0 ==> r == Ok::<Option<Frame>, RuntimeError>(None) && final(self).frames@ == callers
                &&& callers.len() > 0 && callers.last().pc == u64::MAX
                    ==> r == Err::<Option<Frame>, RuntimeError>(RuntimeError::ProgramCounterOverflow)
                &&& callers.len() > 0 && callers.last().pc < u64::MAX ==> ({
                    &&& r is Ok && r->Ok_0 is Some
                    &&& r->Ok_0->0.func == callers.last().func
                    &&& r->Ok_0->0.locals == callers.last().locals
                    &&& r->Ok_0->0.pc == callers.last().pc + 1
                    &&& final(self).frames@ == callers.drop_last()
                })
            }),
            exec is Ok && exec->Ok_0 is Call ==> ({
                let callee = resolve(registry, frame.func, exec->Ok_0->Call_0);
                let def = registry.functions@[callee->0 as int];
                let callers = old(self).frames@;
                let operands = old(self).stack@;
                &&& callee is None ==> r == Err::<Option<Frame>, RuntimeError>(RuntimeError::UnresolvedFunctionHandle)
                &&& callee is Some && callers.len() >= old(self).frames.max_depth()
                    ==> r == Err::<Option<Frame>, RuntimeError>(RuntimeError::CallStackOverflow)
                &&& callee is Some && callers.len() < old(self).frames.max_depth() && operands.len() < def.arg_count
                    ==> r == Err::<Option<Frame>, RuntimeError>(RuntimeError::StackUnderflow)
                &&& callee is Some && callers.len() < old(self).frames.max_depth() && operands.len() >= def.arg_count
                    && def.arg_count > def.local_count
                    ==> r == Err::<Option<Frame>, RuntimeError>(RuntimeError::LocalsIndexOutOfBounds)
                &&& callee is Some && callers.len() < old(self).frames.max_depth() && operands.len() >= def.arg_count
                    && def.arg_count <= def.local_count ==> ({
                    &&& r is Ok && r->Ok_0 is Some
                    &&& r->Ok_0->0.func == callee->0
                    &&& r->Ok_0->0.pc == 0
                    &&& r->Ok_0->0.locals@ == entry_locals(operands, def.arg_count as nat, def.local_count as nat)
                    &&& final(self).stack@ == operands.subrange(0, operands.len() - def.arg_count)
                    &&& final(self).frames@ == callers.push(frame)
                })
            }),
    {
        let status = match exec {
            Ok(s) => s,
            Err(e) => return Err(e),
        };
        match status {
            ExitStatus::Return => {
                match self.frames.top() {
                    None => return Ok(None),
                    Some(caller) => {
                        if caller.pc == u64::MAX {
                            return Err(RuntimeError::ProgramCounterOverflow);
                        }
                    },
                }
                match self.frames.pop() {
                    Some(mut caller) => {
                        match caller.add_pc() {
                            Ok(()) => Ok(Some(caller)),
                            Err(e) => Err(e),
                        }
                    },
                    None => Ok(None),
                }
            },
            ExitStatus::Call(handle) => {
                let callee = match registry.function_from_handle(frame.func(), handle) {
                    Ok(f) => f,
                    Err(e) => return Err(e),
                };
                if self.frames.len() >= self.frames.max_depth_exec() {
                    return Err(RuntimeError::CallStackOverflow);
                }
                let callee_frame = match self.make_frame(registry, callee) {
                    Ok(f) => f,
                    Err(e) => return Err(e),
                };
                match self.frames.push(frame) {
                    Ok(()) => Ok(Some(callee_frame)),
                    Err(e) => Err(e),
                }
            },
        }
    }

    /// Runs function `entry` of `registry` as a script. Its locals are
    /// allocated, the arguments bound by `process_arguments` in the region of
    /// the first step, and then each step runs the current frame through the
    /// capability and applies its exit status with `apply_exit`, until the
    /// entry function returns with no caller left. Checked before any work:
    /// `entry` must exist, and its declared parameters must match `arg_types`
    /// in number. Every step label is fresh, and a successful run ends with
    /// no suspended frame.
    #[verifier::loop_isolation(false)]
    pub fn run_script<I: Instructions>(
        &mut self,
        chip: &mut I,
        registry: &FunctionRegistry,
        entry: usize,
        args: Option<Vec<Literal>>,
        arg_types: Vec<ValueType>,
    ) -> (r: VmResult<()>)
        ensures
            final(self).step >= old(self).step,
            entry >= registry.functions@.len() ==> r == Err::<(), RuntimeError>(RuntimeError::UnresolvedFunctionHandle),
            entry < registry.functions@.len() && arg_types@.len() != registry.functions@[entry as int].arg_count
                ==> r == Err::<(), RuntimeError>(RuntimeError::ArgumentArityMismatch),
            entry < registry.functions@.len() && arg_types@.len() == registry.functions@[entry as int].arg_count
                && argument_error(literals_view(&args), arg_types@, registry.functions@[entry as int].local_count as nat) is Some
                ==> r == Err::<(), RuntimeError>(
                    argument_error(literals_view(&args), arg_types@, registry.functions@[entry as int].local_count as nat)->0),
            entry < registry.functions@.len() && arg_types@.len() == registry.functions@[entry as int].arg_count
                && argument_error(literals_view(&args), arg_types@, registry.functions@[entry as int].local_count as nat) is None
                && arg_types@.len() == 0 && old(self).step >= u64::MAX - 1
                ==> r == Err::<(), RuntimeError>(RuntimeError::StepCounterExhausted),
            r is Ok ==> final(self).frames@.len() == 0 && final(self).step > old(self).step,
    {
        if entry >= registry.len() {
            return Err(RuntimeError::UnresolvedFunctionHandle);
        }
        let def = &registry.functions[entry];
        if arg_types.len() != def.arg_count {
            return Err(RuntimeError::ArgumentArityMismatch);
        }
        let mut locals = Locals::new(def.local_count);
        match self.process_arguments(chip, &mut locals, args, arg_types) {
            Ok(()) => {},
            Err(e) => return Err(e),
        }
        match self.next_step() {
            Ok(_) => {},
            Err(e) => return Err(e),
        }
        let mut frame = Frame::new(entry, locals);
        loop
            invariant
                self.step > old(self).step,
            decreases u64::MAX - self.step,
        {
            let step = match self.next_step() {
                Ok(s) => s,
                Err(e) => return Err(e),
            };
            let exec = chip.execute_frame(step, &mut frame, &mut self.stack, registry);
            match self.apply_exit(registry, frame, exec) {
                Ok(None) => return Ok(()),
                Ok(Some(next)) => frame = next,
                Err(e) => return Err(e),
            }
        }
    }
}

impl Default for Interpreter {
    /// Same as `Interpreter::new`.
    fn default() -> (r: Interpreter)
        ensures
            r.stack@ == Seq::<Value>::empty(),
            r.frames@ == Seq::<Frame>::empty(),
            r.frames.max_depth() == usize::MAX,
            r.step == 0,
    {
        Interpreter::new()
    }
}

} // verus!
