use zkmove_vm::error::RuntimeError;
use zkmove_vm::frame::{ExitStatus, Frame, FunctionDef, FunctionRegistry};
use zkmove_vm::instructions::{AllocationError, Instructions};
use zkmove_vm::interpreter::{convert_arguments, Interpreter};
use zkmove_vm::locals::Locals;
use zkmove_vm::stack::EvalStack;
use zkmove_vm::value::{Literal, Value, ValueType, WireRef};

#[derive(Clone, Copy)]
enum Op {
    LoadLocal(usize),
    Add,
    Sub,
    Call(usize),
    Ret,
}

/// A tiny instruction capability: it allocates wires in order and runs a
/// handful of opcodes.
struct Chip {
    code: Vec<Vec<Op>>,
    next_wire: u64,
    argument_steps: Vec<u64>,
    frame_steps: Vec<u64>,
    allocations_left: Option<usize>,
}

impl Chip {
    fn new(code: Vec<Vec<Op>>) -> Chip {
        Chip { code, next_wire: 0, argument_steps: vec![], frame_steps: vec![], allocations_left: None }
    }

    fn wire(&mut self) -> WireRef {
        let w = WireRef { index: self.next_wire };
        self.next_wire += 1;
        w
    }
}

impl Instructions for Chip {
    fn load_private(&mut self, step: u64, _index: usize, _witness: Option<u128>) -> Result<WireRef, AllocationError> {
        match self.allocations_left {
            Some(0) => return Err(AllocationError { code: 1 }),
            Some(n) => self.allocations_left = Some(n - 1),
            None => {}
        }
        self.argument_steps.push(step);
        Ok(self.wire())
    }

    fn execute_frame(
        &mut self,
        step: u64,
        frame: &mut Frame,
        stack: &mut EvalStack,
        _registry: &FunctionRegistry,
    ) -> Result<ExitStatus, RuntimeError> {
        self.frame_steps.push(step);
        loop {
            match self.code[frame.func][frame.pc as usize] {
                Op::LoadLocal(i) => {
                    let v = frame.locals.load(i)?.expect("local is set");
                    stack.push(v);
                }
                Op::Add | Op::Sub => {
                    let right = stack.pop()?;
                    let left = stack.pop()?;
                    let sub = matches!(self.code[frame.func][frame.pc as usize], Op::Sub);
                    let w = match (left.witness, right.witness) {
                        (Some(a), Some(b)) => Some(if sub { a - b } else { a + b }),
                        _ => None,
                    };
                    let cell = self.wire();
                    stack.push(Value::new_variable(w, cell, ValueType::U64));
                }
                Op::Call(h) => return Ok(ExitStatus::Call(h)),
                Op::Ret => return Ok(ExitStatus::Return),
            }
            frame.pc += 1;
        }
    }
}

fn def(arg_count: usize, local_count: usize, handles: Vec<usize>) -> FunctionDef {
    FunctionDef { arg_count, local_count, handles }
}

/// A script of two parameters that calls function 1 on them and returns.
fn binary_program(op: Op) -> (Chip, FunctionRegistry) {
    let chip = Chip::new(vec![
        vec![Op::LoadLocal(0), Op::LoadLocal(1), Op::Call(0), Op::Ret],
        vec![Op::LoadLocal(0), Op::LoadLocal(1), op, Op::Ret],
    ]);
    let registry = FunctionRegistry { functions: vec![def(2, 2, vec![1]), def(2, 2, vec![])] };
    (chip, registry)
}

fn val(witness: u128, wire: u64) -> Value {
    Value::new_variable(Some(witness), WireRef { index: wire }, ValueType::U64)
}

#[test]
fn script_calling_add_yields_eight() {
    let (mut chip, registry) = binary_program(Op::Add);
    let mut vm = Interpreter::new();
    let r = vm.run_script(
        &mut chip,
        &registry,
        0,
        Some(vec![Literal::U64(3), Literal::U64(5)]),
        vec![ValueType::U64, ValueType::U64],
    );
    assert_eq!(r, Ok(()));
    assert_eq!(vm.stack().len(), 1);
    let result = vm.stack.pop().unwrap();
    assert_eq!(result.witness, Some(8));
    assert_eq!(vm.frames().len(), 0);
}

#[test]
fn callee_reads_arguments_in_declaration_order() {
    let (mut chip, registry) = binary_program(Op::Sub);
    let mut vm = Interpreter::new();
    let r = vm.run_script(
        &mut chip,
        &registry,
        0,
        Some(vec![Literal::U64(10), Literal::U64(3)]),
        vec![ValueType::U64, ValueType::U64],
    );
    assert_eq!(r, Ok(()));
    assert_eq!(vm.stack.pop().unwrap().witness, Some(7));
}

#[test]
fn circuit_construction_without_arguments_has_unknown_witnesses() {
    let (mut chip, registry) = binary_program(Op::Add);
    let mut vm = Interpreter::new();
    let r = vm.run_script(&mut chip, &registry, 0, None, vec![ValueType::U64, ValueType::U64]);
    assert_eq!(r, Ok(()));
    let result = vm.stack.pop().unwrap();
    assert_eq!(result.witness, None);
    assert_eq!(result.kind, ValueType::U64);
}

#[test]
fn region_labels_never_repeat() {
    let (mut chip, registry) = binary_program(Op::Add);
    let mut vm = Interpreter::new();
    vm.run_script(&mut chip, &registry, 0, Some(vec![Literal::U64(1), Literal::U64(2)]), vec![ValueType::U64, ValueType::U64])
        .unwrap();
    assert_eq!(chip.argument_steps, vec![0, 0]);
    assert_eq!(chip.frame_steps, vec![1, 2, 3]);
    assert_eq!(vm.step, 4);
}

#[test]
fn call_to_unknown_handle_is_an_error() {
    let mut chip = Chip::new(vec![vec![Op::Call(7)]]);
    let registry = FunctionRegistry { functions: vec![def(0, 0, vec![0, 0, 0, 0, 0])] };
    let mut vm = Interpreter::new();
    let r = vm.run_script(&mut chip, &registry, 0, Some(vec![]), vec![]);
    assert_eq!(r, Err(RuntimeError::UnresolvedFunctionHandle));
    assert_eq!(registry.function_from_handle(0, 7), Err(RuntimeError::UnresolvedFunctionHandle));
    assert_eq!(registry.function_from_handle(0, 4), Ok(0));
}

#[test]
fn function_from_handle_refuses_targets_outside_the_registry() {
    let registry = FunctionRegistry { functions: vec![def(0, 0, vec![3])] };
    assert_eq!(registry.function_from_handle(0, 0), Err(RuntimeError::UnresolvedFunctionHandle));
    assert_eq!(registry.function_from_handle(1, 0), Err(RuntimeError::UnresolvedFunctionHandle));
}

#[test]
fn unknown_entry_function_is_an_error() {
    let (mut chip, registry) = binary_program(Op::Add);
    let mut vm = Interpreter::new();
    assert_eq!(vm.run_script(&mut chip, &registry, 2, None, vec![]), Err(RuntimeError::UnresolvedFunctionHandle));
}

#[test]
fn argument_count_must_match_the_declaration() {
    let (mut chip, registry) = binary_program(Op::Add);
    let mut vm = Interpreter::new();
    let r = vm.run_script(&mut chip, &registry, 0, Some(vec![Literal::U64(1)]), vec![ValueType::U64]);
    assert_eq!(r, Err(RuntimeError::ArgumentArityMismatch));
    let r = vm.run_script(&mut chip, &registry, 0, Some(vec![Literal::U64(1)]), vec![ValueType::U64, ValueType::U64]);
    assert_eq!(r, Err(RuntimeError::ArgumentArityMismatch));
    assert!(chip.argument_steps.is_empty());
}

#[test]
fn argument_of_wrong_type_is_refused() {
    let (mut chip, registry) = binary_program(Op::Add);
    let mut vm = Interpreter::new();
    let r = vm.run_script(
        &mut chip,
        &registry,
        0,
        Some(vec![Literal::U64(1), Literal::Bool(true)]),
        vec![ValueType::U64, ValueType::U64],
    );
    assert_eq!(r, Err(RuntimeError::ArgumentTypeConversionFailure));
    assert!(chip.argument_steps.is_empty());
}

#[test]
fn allocation_failure_is_a_synthesis_error() {
    let (mut chip, registry) = binary_program(Op::Add);
    chip.allocations_left = Some(0);
    let mut vm = Interpreter::new();
    let r = vm.run_script(&mut chip, &registry, 0, None, vec![ValueType::U64, ValueType::U64]);
    assert_eq!(r, Err(RuntimeError::CircuitAllocationFailure));
    assert!(chip.frame_steps.is_empty());
}

#[test]
fn call_depth_bound_is_enforced() {
    let (mut chip, registry) = binary_program(Op::Add);
    let mut vm = Interpreter::with_max_depth(0);
    let r = vm.run_script(&mut chip, &registry, 0, None, vec![ValueType::U64, ValueType::U64]);
    assert_eq!(r, Err(RuntimeError::CallStackOverflow));
}

#[test]
fn exhausted_step_counter_stops_the_run() {
    let (mut chip, registry) = binary_program(Op::Add);
    let mut vm = Interpreter::new();
    vm.step = u64::MAX - 1;
    let r = vm.run_script(&mut chip, &registry, 0, None, vec![ValueType::U64, ValueType::U64]);
    assert_eq!(r, Err(RuntimeError::StepCounterExhausted));
    assert_eq!(vm.step, u64::MAX);
}

#[test]
fn make_frame_pops_exactly_the_arguments_in_order() {
    let registry = FunctionRegistry { functions: vec![def(2, 3, vec![])] };
    let mut vm = Interpreter::new();
    vm.stack.push(val(1, 0));
    vm.stack.push(val(2, 1));
    vm.stack.push(val(3, 2));
    let frame = vm.make_frame(&registry, 0).unwrap();
    assert_eq!(vm.stack.len(), 1);
    assert_eq!(frame.locals.load(0), Ok(Some(val(2, 1))));
    assert_eq!(frame.locals.load(1), Ok(Some(val(3, 2))));
    assert_eq!(frame.locals.load(2), Ok(None));
    assert_eq!(frame.pc, 0);
    assert_eq!(vm.stack.pop(), Ok(val(1, 0)));
}

#[test]
fn make_frame_with_too_few_operands_underflows() {
    let registry = FunctionRegistry { functions: vec![def(2, 2, vec![])] };
    let mut vm = Interpreter::new();
    vm.stack.push(val(1, 0));
    assert!(matches!(vm.make_frame(&registry, 0), Err(RuntimeError::StackUnderflow)));
    assert_eq!(vm.stack.len(), 1);
}

#[test]
fn make_frame_with_more_parameters_than_slots_fails() {
    let registry = FunctionRegistry { functions: vec![def(2, 1, vec![])] };
    let mut vm = Interpreter::new();
    vm.stack.push(val(1, 0));
    vm.stack.push(val(2, 1));
    assert!(matches!(vm.make_frame(&registry, 0), Err(RuntimeError::LocalsIndexOutOfBounds)));
    assert_eq!(vm.stack.len(), 2);
}

#[test]
fn return_with_no_caller_terminates() {
    let registry = FunctionRegistry { functions: vec![def(0, 0, vec![])] };
    let mut vm = Interpreter::new();
    let r = vm.apply_exit(&registry, Frame::new(0, Locals::new(0)), Ok(ExitStatus::Return));
    assert!(matches!(r, Ok(None)));
}

#[test]
fn call_then_return_resumes_caller_past_the_call() {
    let registry = FunctionRegistry { functions: vec![def(0, 1, vec![1]), def(1, 1, vec![])] };
    let mut vm = Interpreter::new();
    vm.stack.push(val(5, 0));
    let mut caller = Frame::new(0, Locals::new(1));
    caller.pc = 4;
    let callee = vm.apply_exit(&registry, caller, Ok(ExitStatus::Call(0))).unwrap().unwrap();
    assert_eq!(callee.func, 1);
    assert_eq!(callee.locals.load(0), Ok(Some(val(5, 0))));
    assert_eq!(vm.frames().len(), 1);
    assert_eq!(vm.current_frame().map(|f| f.pc), Some(4));
    assert_eq!(vm.stack.len(), 0);
    let resumed = vm.apply_exit(&registry, callee, Ok(ExitStatus::Return)).unwrap().unwrap();
    assert_eq!(resumed.func, 0);
    assert_eq!(resumed.pc, 5);
    assert_eq!(vm.frames().len(), 0);
    assert!(vm.current_frame().is_none());
}

#[test]
fn convert_arguments_without_literals_gives_unknown_witnesses() {
    assert_eq!(convert_arguments(&None, &vec![ValueType::Bool, ValueType::U8]), Ok(vec![None, None]));
    assert_eq!(
        convert_arguments(&Some(vec![Literal::Bool(true), Literal::U8(9)]), &vec![ValueType::Bool, ValueType::U8]),
        Ok(vec![Some(1), Some(9)])
    );
    assert_eq!(
        convert_arguments(&Some(vec![Literal::Bool(true)]), &vec![ValueType::Bool, ValueType::U8]),
        Err(RuntimeError::ArgumentArityMismatch)
    );
}

#[test]
fn default_interpreter_is_fresh() {
    let mut vm = Interpreter::default();
    assert_eq!(vm.step, 0);
    assert_eq!(vm.stack().len(), 0);
    assert_eq!(vm.frames().len(), 0);
}

#[test]
fn capability_error_is_returned_as_it_came() {
    let registry = FunctionRegistry { functions: vec![def(0, 0, vec![])] };
    let mut vm = Interpreter::new();
    let r = vm.apply_exit(&registry, Frame::new(0, Locals::new(0)), Err(RuntimeError::StackUnderflow));
    assert!(matches!(r, Err(RuntimeError::StackUnderflow)));
    assert_eq!(vm.frames().len(), 0);
}

#[test]
fn no_parameters_bind_without_allocation() {
    let mut chip = Chip::new(vec![]);
    chip.allocations_left = Some(0);
    let mut vm = Interpreter::new();
    let mut locals = Locals::new(1);
    assert_eq!(vm.process_arguments(&mut chip, &mut locals, None, vec![]), Ok(()));
    assert_eq!(locals.load(0), Ok(None));
}

#[test]
fn failed_allocation_keeps_later_slots() {
    let mut chip = Chip::new(vec![]);
    chip.allocations_left = Some(1);
    let mut vm = Interpreter::new();
    let mut locals = Locals::new(3);
    locals.store(2, val(9, 40)).unwrap();
    let r = vm.process_arguments(
        &mut chip,
        &mut locals,
        Some(vec![Literal::U64(4), Literal::U64(6)]),
        vec![ValueType::U64, ValueType::U64],
    );
    assert_eq!(r, Err(RuntimeError::CircuitAllocationFailure));
    assert_eq!(locals.load(0).unwrap().unwrap().witness, Some(4));
    assert_eq!(locals.load(1), Ok(None));
    assert_eq!(locals.load(2), Ok(Some(val(9, 40))));
}

#[test]
fn script_without_parameters_at_last_step_is_exhausted() {
    let mut chip = Chip::new(vec![vec![Op::Ret]]);
    let registry = FunctionRegistry { functions: vec![def(0, 0, vec![])] };
    let mut vm = Interpreter::new();
    vm.step = u64::MAX;
    assert_eq!(vm.run_script(&mut chip, &registry, 0, None, vec![]), Err(RuntimeError::StepCounterExhausted));
    assert!(chip.frame_steps.is_empty());
}
