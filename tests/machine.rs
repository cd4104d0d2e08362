use std::collections::HashMap;

use stack_vm::control_op::ControlOp;
use stack_vm::data_type::{DataType, Typed};
use stack_vm::function::{Function, FunctionController, RunOutcome, RuntimeContext, StepOutcome};
use stack_vm::instruction::{FaultKind, Instruction, InstructionError};
use stack_vm::math_op::MathOp;
use stack_vm::numeric::{FloatUnit, Numeric, NumericType};
use stack_vm::ptr::{Cells, Ptr};
use stack_vm::stack::Stack;
use stack_vm::stack_op::StackOp;
use stack_vm::type_op::TypeOp;
use stack_vm::value::{Value, ValueType};

struct Native;

impl FloatUnit for Native {
    fn f32_arith(&self, op: MathOp, a: u32, b: u32) -> u32 {
        let (a, b) = (f32::from_bits(a), f32::from_bits(b));
        let r = match op {
            MathOp::Add => a + b,
            MathOp::Sub => a - b,
            MathOp::Mul => a * b,
            _ => a / b,
        };
        r.to_bits()
    }

    fn f64_arith(&self, op: MathOp, a: u64, b: u64) -> u64 {
        let (a, b) = (f64::from_bits(a), f64::from_bits(b));
        let r = match op {
            MathOp::Add => a + b,
            MathOp::Sub => a - b,
            MathOp::Mul => a * b,
            _ => a / b,
        };
        r.to_bits()
    }

    fn f32_compare(&self, op: MathOp, a: u32, b: u32) -> bool {
        let (a, b) = (f32::from_bits(a), f32::from_bits(b));
        match op {
            MathOp::GreaterThan => a > b,
            MathOp::LessThan => a < b,
            MathOp::GreaterThanEq => a >= b,
            MathOp::LessThanEq => a <= b,
            _ => a == b,
        }
    }

    fn f64_compare(&self, op: MathOp, a: u64, b: u64) -> bool {
        let (a, b) = (f64::from_bits(a), f64::from_bits(b));
        match op {
            MathOp::GreaterThan => a > b,
            MathOp::LessThan => a < b,
            MathOp::GreaterThanEq => a >= b,
            MathOp::LessThanEq => a <= b,
            _ => a == b,
        }
    }

    fn f32_to_i128(&self, a: u32) -> i128 {
        f32::from_bits(a) as i128
    }

    fn f32_to_u128(&self, a: u32) -> u128 {
        f32::from_bits(a) as u128
    }

    fn f64_to_i128(&self, a: u64) -> i128 {
        f64::from_bits(a) as i128
    }

    fn f64_to_u128(&self, a: u64) -> u128 {
        f64::from_bits(a) as u128
    }

    fn i128_to_f32(&self, a: i128) -> u32 {
        (a as f32).to_bits()
    }

    fn u128_to_f32(&self, a: u128) -> u32 {
        (a as f32).to_bits()
    }

    fn i128_to_f64(&self, a: i128) -> u64 {
        (a as f64).to_bits()
    }

    fn u128_to_f64(&self, a: u128) -> u64 {
        (a as f64).to_bits()
    }

    fn f32_to_f64(&self, a: u32) -> u64 {
        (f32::from_bits(a) as f64).to_bits()
    }

    fn f64_to_f32(&self, a: u64) -> u32 {
        (f64::from_bits(a) as f32).to_bits()
    }
}

fn imm(n: Numeric) -> ValueType {
    ValueType::Value(Value::Numeric(n))
}

fn f32v(x: f32) -> Numeric {
    Numeric::Float32(x.to_bits())
}

fn func(param_count: usize, return_count: usize, instructions: Vec<Instruction>) -> Function {
    Function { instructions, param_count, return_count }
}

fn read_numeric(cells: &Cells, p: Ptr) -> Option<Numeric> {
    match cells.read(p) {
        Some(Value::Numeric(n)) => Some(n),
        _ => None,
    }
}

fn run_program(functions: Vec<(usize, Function)>, start: usize, cells: &mut Cells) -> RunOutcome {
    let mut table = HashMap::new();
    for (id, f) in functions {
        table.insert(id, f);
    }
    let mut machine = FunctionController::new(table, start);
    machine.run(cells, &Native)
}

fn fault_kind(outcome: &RunOutcome) -> Option<FaultKind> {
    match outcome {
        RunOutcome::Faulted(e) => Some(e.error.kind),
        _ => None,
    }
}

#[test]
fn scenario_float_mul_then_cast_to_int8() {
    let mut cells = Cells::new();
    let ptr = Ptr::new(&mut cells, Value::Bool(false));
    let main = func(0, 0, vec![
        Instruction::Stack(StackOp::Push(imm(f32v(3.0)))),
        Instruction::Stack(StackOp::Push(imm(f32v(0.5)))),
        Instruction::Math(MathOp::Mul),
        Instruction::Type(TypeOp::NumericCast(NumericType::Int8)),
        Instruction::Stack(StackOp::Pop(ptr)),
    ]);
    let outcome = run_program(vec![(0, main)], 0, &mut cells);
    assert!(matches!(outcome, RunOutcome::Halted));
    assert_eq!(read_numeric(&cells, ptr), Some(Numeric::Int8(1)));
}

#[test]
fn scenario_call_carries_parameter_and_result() {
    let mut cells = Cells::new();
    let ptr = Ptr::new(&mut cells, Value::Bool(false));
    let caller = func(0, 0, vec![
        Instruction::Stack(StackOp::Push(imm(Numeric::Int32(5)))),
        Instruction::Control(ControlOp::Call(imm(Numeric::USize(2)))),
        Instruction::Stack(StackOp::Swap),
        Instruction::Stack(StackOp::Drop),
        Instruction::Stack(StackOp::Pop(ptr)),
    ]);
    let callee = func(1, 1, vec![
        Instruction::Stack(StackOp::Push(imm(Numeric::Int32(3)))),
        Instruction::Math(MathOp::Add),
    ]);
    let outcome = run_program(vec![(1, caller), (2, callee)], 1, &mut cells);
    assert!(matches!(outcome, RunOutcome::Halted));
    assert_eq!(read_numeric(&cells, ptr), Some(Numeric::Int32(8)));
}

#[test]
fn scenario_call_frames_step_by_step() {
    let mut cells = Cells::new();
    let caller = func(0, 0, vec![
        Instruction::Stack(StackOp::Push(imm(Numeric::Int32(5)))),
        Instruction::Control(ControlOp::Call(imm(Numeric::USize(2)))),
    ]);
    let callee = func(1, 1, vec![
        Instruction::Stack(StackOp::Push(imm(Numeric::Int32(3)))),
        Instruction::Math(MathOp::Add),
    ]);
    let mut table = HashMap::new();
    table.insert(1, caller);
    table.insert(2, callee);
    let mut m = FunctionController::new(table, 1);
    assert!(matches!(m.step(&mut cells, &Native), StepOutcome::Continued));
    assert!(matches!(m.step(&mut cells, &Native), StepOutcome::Called(2)));
    assert_eq!(m.depth(), 2);
    assert_eq!(m.current_frame().len(), 1);
    assert!(matches!(m.step(&mut cells, &Native), StepOutcome::Continued));
    assert!(matches!(m.step(&mut cells, &Native), StepOutcome::Continued));
    assert!(matches!(m.current_frame()[0], Value::Numeric(Numeric::Int32(8))));
    assert!(matches!(m.step(&mut cells, &Native), StepOutcome::Returned));
    let frame = m.current_frame();
    assert_eq!(frame.len(), 2);
    assert!(matches!(frame[0], Value::Numeric(Numeric::Int32(5))));
    assert!(matches!(frame[1], Value::Numeric(Numeric::Int32(8))));
    assert!(matches!(m.step(&mut cells, &Native), StepOutcome::Returned));
    assert_eq!(m.depth(), 0);
    assert_eq!(m.frame_count(), 0);
    assert!(matches!(m.step(&mut cells, &Native), StepOutcome::Halted));
}

#[test]
fn call_of_absent_function_faults_and_keeps_cells() {
    let mut cells = Cells::new();
    let written = Ptr::new(&mut cells, Value::Bool(false));
    let untouched = Ptr::new(&mut cells, Value::Bool(false));
    let main = func(0, 0, vec![
        Instruction::Stack(StackOp::Push(imm(Numeric::Int32(7)))),
        Instruction::Stack(StackOp::Pop(written)),
        Instruction::Control(ControlOp::Call(imm(Numeric::USize(99)))),
        Instruction::Stack(StackOp::Push(imm(Numeric::Int32(9)))),
        Instruction::Stack(StackOp::Pop(untouched)),
    ]);
    let outcome = run_program(vec![(0, main)], 0, &mut cells);
    match outcome {
        RunOutcome::Faulted(e) => {
            assert_eq!(e.error.kind, FaultKind::UnknownFunction);
            assert_eq!(e.function, 0);
            assert_eq!(e.instruction, 2);
        },
        _ => panic!("expected a fault"),
    }
    assert_eq!(read_numeric(&cells, written), Some(Numeric::Int32(7)));
    assert!(matches!(cells.read(untouched), Some(Value::Bool(false))));
}

#[test]
fn absent_entry_function_faults() {
    let mut cells = Cells::new();
    let outcome = run_program(vec![], 3, &mut cells);
    assert_eq!(fault_kind(&outcome), Some(FaultKind::UnknownFunction));
}

#[test]
fn swap_on_short_frame_underflows_and_keeps_frame() {
    let mut cells = Cells::new();
    let mut stack = Stack::new();
    let push = StackOp::Push(imm(Numeric::UInt8(1)));
    let _ = stack_vm::instruction::Runnable::run(&push, &mut stack, &mut cells, &Native);
    let r = stack_vm::instruction::Runnable::run(&StackOp::Swap, &mut stack, &mut cells, &Native);
    assert!(matches!(r, stack_vm::instruction::InstructionResult::Error(ref e) if e.kind == FaultKind::OperandUnderflow));
    assert_eq!(stack.current().len(), 1);
    assert!(matches!(stack.current()[0], Value::Numeric(Numeric::UInt8(1))));
}

#[test]
fn duplicate_on_empty_frame_underflows() {
    let mut frame: Vec<Value> = Vec::new();
    let mut cells = Cells::new();
    let r = StackOp::Duplicate.run_on(&mut frame, &mut cells);
    assert!(matches!(r, stack_vm::instruction::InstructionResult::Error(ref e) if e.kind == FaultKind::OperandUnderflow));
    assert!(frame.is_empty());
}

#[test]
fn swap_duplicate_drop_len_rearrange_frame() {
    let mut frame = vec![Value::Numeric(Numeric::UInt8(1)), Value::Numeric(Numeric::UInt8(2))];
    let mut cells = Cells::new();
    StackOp::Swap.run_on(&mut frame, &mut cells);
    assert!(matches!(frame[0], Value::Numeric(Numeric::UInt8(2))));
    assert!(matches!(frame[1], Value::Numeric(Numeric::UInt8(1))));
    StackOp::Duplicate.run_on(&mut frame, &mut cells);
    assert_eq!(frame.len(), 3);
    assert!(matches!(frame[2], Value::Numeric(Numeric::UInt8(1))));
    StackOp::Len.run_on(&mut frame, &mut cells);
    assert!(matches!(frame[3], Value::Numeric(Numeric::USize(3))));
    StackOp::Drop.run_on(&mut frame, &mut cells);
    StackOp::Drop.run_on(&mut frame, &mut cells);
    assert_eq!(frame.len(), 2);
}

#[test]
fn pop_push_ptr_deref_gives_back_the_value() {
    let mut cells = Cells::new();
    let ptr = Ptr::new(&mut cells, Value::Bool(true));
    let mut frame = vec![Value::Str("hello".to_string())];
    StackOp::Pop(ptr).run_on(&mut frame, &mut cells);
    assert!(frame.is_empty());
    StackOp::PushPtr(ptr).run_on(&mut frame, &mut cells);
    StackOp::DeRef.run_on(&mut frame, &mut cells);
    assert_eq!(frame.len(), 1);
    assert!(matches!(&frame[0], Value::Str(s) if s == "hello"));
}

#[test]
fn deref_of_non_pointer_is_a_type_mismatch() {
    let mut cells = Cells::new();
    let mut frame = vec![Value::Bool(true)];
    let r = StackOp::DeRef.run_on(&mut frame, &mut cells);
    assert!(matches!(r, stack_vm::instruction::InstructionResult::Error(ref e) if e.kind == FaultKind::TypeMismatch));
    assert_eq!(frame.len(), 1);
}

#[test]
fn push_of_stack_value_on_empty_frame_is_unresolved() {
    let mut cells = Cells::new();
    let main = func(0, 0, vec![Instruction::Stack(StackOp::Push(ValueType::StackValue))]);
    let outcome = run_program(vec![(0, main)], 0, &mut cells);
    assert_eq!(fault_kind(&outcome), Some(FaultKind::UnresolvedOperand));
}

#[test]
fn push_through_pointer_reads_the_cell() {
    let mut cells = Cells::new();
    let src = Ptr::new(&mut cells, Value::Numeric(Numeric::Int64(-4)));
    let dst = Ptr::new(&mut cells, Value::Bool(false));
    let main = func(0, 0, vec![
        Instruction::Stack(StackOp::Push(ValueType::Ptr(src))),
        Instruction::Stack(StackOp::Push(ValueType::StackValue)),
        Instruction::Math(MathOp::Mul),
        Instruction::Stack(StackOp::Pop(dst)),
    ]);
    let outcome = run_program(vec![(0, main)], 0, &mut cells);
    assert!(matches!(outcome, RunOutcome::Halted));
    assert_eq!(read_numeric(&cells, dst), Some(Numeric::Int64(16)));
}

#[test]
fn math_on_non_numeric_is_a_type_mismatch() {
    let mut cells = Cells::new();
    let main = func(0, 0, vec![
        Instruction::Stack(StackOp::Push(ValueType::Value(Value::Bool(true)))),
        Instruction::Stack(StackOp::Push(imm(Numeric::Int32(1)))),
        Instruction::Math(MathOp::Add),
    ]);
    let outcome = run_program(vec![(0, main)], 0, &mut cells);
    assert_eq!(fault_kind(&outcome), Some(FaultKind::TypeMismatch));
}

#[test]
fn math_on_one_operand_underflows() {
    let mut cells = Cells::new();
    let main = func(0, 0, vec![
        Instruction::Stack(StackOp::Push(imm(Numeric::Int32(1)))),
        Instruction::Math(MathOp::Sub),
    ]);
    let outcome = run_program(vec![(0, main)], 0, &mut cells);
    assert_eq!(fault_kind(&outcome), Some(FaultKind::OperandUnderflow));
}

#[test]
fn math_across_sub_types_is_a_mismatch() {
    let mut cells = Cells::new();
    let main = func(0, 0, vec![
        Instruction::Stack(StackOp::Push(imm(Numeric::Int32(1)))),
        Instruction::Stack(StackOp::Push(imm(Numeric::Int64(1)))),
        Instruction::Math(MathOp::Add),
    ]);
    let outcome = run_program(vec![(0, main)], 0, &mut cells);
    assert_eq!(fault_kind(&outcome), Some(FaultKind::NumericSubtypeMismatch));
}

#[test]
fn division_by_zero_faults() {
    let mut cells = Cells::new();
    let main = func(0, 0, vec![
        Instruction::Stack(StackOp::Push(imm(Numeric::UInt16(10)))),
        Instruction::Stack(StackOp::Push(imm(Numeric::UInt16(0)))),
        Instruction::Math(MathOp::Div),
    ]);
    let outcome = run_program(vec![(0, main)], 0, &mut cells);
    assert_eq!(fault_kind(&outcome), Some(FaultKind::InvalidDivision));
}

#[test]
fn call_with_boolean_target_is_invalid() {
    let mut cells = Cells::new();
    let main = func(0, 0, vec![Instruction::Control(ControlOp::Call(ValueType::Value(Value::Bool(true))))]);
    let outcome = run_program(vec![(0, main)], 0, &mut cells);
    assert_eq!(fault_kind(&outcome), Some(FaultKind::InvalidControlTarget));
}

#[test]
fn call_if_with_numeric_predicate_is_invalid() {
    let mut cells = Cells::new();
    let main = func(0, 0, vec![Instruction::Control(ControlOp::CallIf(
        imm(Numeric::USize(0)),
        imm(Numeric::Int32(1)),
    ))]);
    let outcome = run_program(vec![(0, main)], 0, &mut cells);
    assert_eq!(fault_kind(&outcome), Some(FaultKind::InvalidControlTarget));
}

#[test]
fn call_if_and_call_else_follow_the_predicate() {
    let mut cells = Cells::new();
    let out = Ptr::new(&mut cells, Value::Numeric(Numeric::Int32(0)));
    let main = func(0, 0, vec![
        Instruction::Control(ControlOp::CallIf(imm(Numeric::USize(1)), ValueType::Value(Value::Bool(false)))),
        Instruction::Control(ControlOp::CallElse(imm(Numeric::USize(2)), ValueType::Value(Value::Bool(false)))),
    ]);
    let one = func(0, 0, vec![
        Instruction::Stack(StackOp::Push(imm(Numeric::Int32(1)))),
        Instruction::Stack(StackOp::Pop(out)),
    ]);
    let two = func(0, 0, vec![
        Instruction::Stack(StackOp::Push(imm(Numeric::Int32(2)))),
        Instruction::Stack(StackOp::Pop(out)),
    ]);
    let outcome = run_program(vec![(0, main), (1, one), (2, two)], 0, &mut cells);
    assert!(matches!(outcome, RunOutcome::Halted));
    assert_eq!(read_numeric(&cells, out), Some(Numeric::Int32(2)));
}

#[test]
fn endless_recursion_stops_at_the_step_limit() {
    let mut cells = Cells::new();
    let mut table = HashMap::new();
    table.insert(0, func(0, 0, vec![Instruction::Control(ControlOp::Call(imm(Numeric::USize(0))))]));
    let mut m = FunctionController::new(table, 0);
    let outcome = m.run_for(&mut cells, &Native, 1000);
    assert!(matches!(outcome, RunOutcome::StepLimit));
    assert_eq!(m.depth(), 1001);
}

#[test]
fn fibonacci_program_computes_fib_14() {
    let mut cells = Cells::new();
    let ptr = Ptr::new(&mut cells, Value::Numeric(Numeric::Int32(14)));
    let fib = imm(Numeric::USize(2));
    let start = func(0, 0, vec![
        Instruction::Stack(StackOp::PushPtr(ptr)),
        Instruction::Stack(StackOp::DeRef),
        Instruction::Control(ControlOp::Call(fib.clone())),
        Instruction::Stack(StackOp::Swap),
        Instruction::Stack(StackOp::Drop),
        Instruction::Stack(StackOp::Pop(ptr)),
    ]);
    let fibonacci = func(1, 1, vec![
        Instruction::Stack(StackOp::Duplicate),
        Instruction::Stack(StackOp::Push(imm(Numeric::Int32(2)))),
        Instruction::Math(MathOp::GreaterThan),
        Instruction::Control(ControlOp::CallIf(imm(Numeric::USize(3)), ValueType::StackValue)),
        Instruction::Control(ControlOp::CallIf(imm(Numeric::USize(4)), ValueType::StackValue)),
        Instruction::Control(ControlOp::CallElse(imm(Numeric::USize(5)), ValueType::StackValue)),
        Instruction::Stack(StackOp::Drop),
        Instruction::Math(MathOp::Add),
    ]);
    let sub_one = func(2, 3, vec![
        Instruction::Stack(StackOp::Drop),
        Instruction::Stack(StackOp::Duplicate),
        Instruction::Stack(StackOp::Push(imm(Numeric::Int32(1)))),
        Instruction::Math(MathOp::Sub),
        Instruction::Control(ControlOp::Call(fib.clone())),
        Instruction::Stack(StackOp::Swap),
        Instruction::Stack(StackOp::Drop),
        Instruction::Stack(StackOp::Push(ValueType::Value(Value::Bool(true)))),
    ]);
    let sub_two = func(3, 3, vec![
        Instruction::Stack(StackOp::Drop),
        Instruction::Stack(StackOp::Swap),
        Instruction::Stack(StackOp::Push(imm(Numeric::Int32(2)))),
        Instruction::Math(MathOp::Sub),
        Instruction::Control(ControlOp::Call(fib.clone())),
        Instruction::Stack(StackOp::Swap),
        Instruction::Stack(StackOp::Drop),
        Instruction::Stack(StackOp::Push(ValueType::Value(Value::Bool(true)))),
    ]);
    let sub_exit = func(0, 3, vec![
        Instruction::Stack(StackOp::Push(imm(Numeric::Int32(1)))),
        Instruction::Stack(StackOp::Push(imm(Numeric::Int32(0)))),
        Instruction::Stack(StackOp::Push(ValueType::Value(Value::Bool(false)))),
    ]);
    let outcome = run_program(
        vec![(1, start), (2, fibonacci), (3, sub_one), (4, sub_two), (5, sub_exit)],
        1,
        &mut cells,
    );
    assert!(matches!(outcome, RunOutcome::Halted));
    assert_eq!(read_numeric(&cells, ptr), Some(Numeric::Int32(377)));
}

#[test]
fn open_then_close_keeps_depth_and_top_values() {
    let mut cells = Cells::new();
    let mut stack = Stack::new();
    for v in [1u8, 2, 3] {
        let op = StackOp::Push(imm(Numeric::UInt8(v)));
        let _ = stack_vm::instruction::Runnable::run(&op, &mut stack, &mut cells, &Native);
    }
    stack.substack(2);
    assert_eq!(stack.depth(), 2);
    assert_eq!(stack.current().len(), 2);
    assert!(matches!(stack.current()[0], Value::Numeric(Numeric::UInt8(2))));
    stack.destack(2);
    assert_eq!(stack.depth(), 1);
    let frame = stack.current();
    assert_eq!(frame.len(), 5);
    assert!(matches!(frame[3], Value::Numeric(Numeric::UInt8(2))));
    assert!(matches!(frame[4], Value::Numeric(Numeric::UInt8(3))));
}

#[test]
fn runtime_context_starts_at_first_instruction() {
    let c = RuntimeContext::new(7);
    assert_eq!(c.current_fn, 7);
    assert_eq!(c.current_instruction, 0);
}

#[test]
fn instruction_error_keeps_kind_and_message() {
    let e = InstructionError::new(FaultKind::TypeMismatch, "bad operand");
    assert_eq!(e.kind, FaultKind::TypeMismatch);
    assert_eq!(e.message, "bad operand");
}

fn apply(op: MathOp, a: Numeric, b: Numeric) -> Option<Value> {
    a.apply(op, &b, &Native)
}

fn numeric_of(v: Option<Value>) -> Option<Numeric> {
    match v {
        Some(Value::Numeric(n)) => Some(n),
        _ => None,
    }
}

fn bool_of(v: Option<Value>) -> Option<bool> {
    match v {
        Some(Value::Bool(b)) => Some(b),
        _ => None,
    }
}

#[test]
fn add_of_one_sub_type_is_the_native_wrapping_sum() {
    assert_eq!(numeric_of(Numeric::UInt8(3).add(&Numeric::UInt8(4), &Native)), Some(Numeric::UInt8(7)));
    assert_eq!(numeric_of(Numeric::UInt8(250).add(&Numeric::UInt8(10), &Native)), Some(Numeric::UInt8(4)));
    assert_eq!(numeric_of(Numeric::Int8(127).add(&Numeric::Int8(1), &Native)), Some(Numeric::Int8(-128)));
    assert_eq!(
        numeric_of(Numeric::UInt128(u128::MAX).add(&Numeric::UInt128(2), &Native)),
        Some(Numeric::UInt128(1))
    );
    assert_eq!(
        numeric_of(Numeric::Int128(i128::MIN).add(&Numeric::Int128(-1), &Native)),
        Some(Numeric::Int128(i128::MAX))
    );
    assert_eq!(numeric_of(Numeric::USize(40).add(&Numeric::USize(2), &Native)), Some(Numeric::USize(42)));
    assert_eq!(
        numeric_of(Numeric::Float64(1.5f64.to_bits()).add(&Numeric::Float64(2.25f64.to_bits()), &Native)),
        Some(Numeric::Float64(3.75f64.to_bits()))
    );
}

#[test]
fn add_across_sub_types_gives_nothing() {
    assert!(Numeric::UInt8(1).add(&Numeric::UInt16(1), &Native).is_none());
    assert!(Numeric::Int32(1).add(&Numeric::Float32(1.0f32.to_bits()), &Native).is_none());
    assert!(Numeric::USize(1).greater_than(&Numeric::ISize(1), &Native).is_none());
}

#[test]
fn sub_mul_div_follow_the_host() {
    assert_eq!(numeric_of(apply(MathOp::Sub, Numeric::UInt8(3), Numeric::UInt8(5))), Some(Numeric::UInt8(254)));
    assert_eq!(numeric_of(apply(MathOp::Sub, Numeric::Int16(-3), Numeric::Int16(5))), Some(Numeric::Int16(-8)));
    assert_eq!(numeric_of(apply(MathOp::Mul, Numeric::UInt8(16), Numeric::UInt8(17))), Some(Numeric::UInt8(16)));
    assert_eq!(
        numeric_of(apply(MathOp::Mul, Numeric::Int64(i64::MAX), Numeric::Int64(2))),
        Some(Numeric::Int64(-2))
    );
    assert_eq!(
        numeric_of(apply(MathOp::Mul, Numeric::UInt128(1u128 << 127), Numeric::UInt128(2))),
        Some(Numeric::UInt128(0))
    );
    assert_eq!(numeric_of(apply(MathOp::Div, Numeric::Int32(-7), Numeric::Int32(2))), Some(Numeric::Int32(-3)));
    assert_eq!(numeric_of(apply(MathOp::Div, Numeric::UInt32(7), Numeric::UInt32(2))), Some(Numeric::UInt32(3)));
    assert_eq!(numeric_of(apply(MathOp::Div, Numeric::ISize(9), Numeric::ISize(-3))), Some(Numeric::ISize(-3)));
    assert!(apply(MathOp::Div, Numeric::Int8(i8::MIN), Numeric::Int8(-1)).is_none());
    assert!(apply(MathOp::Div, Numeric::Int128(i128::MIN), Numeric::Int128(-1)).is_none());
    assert!(apply(MathOp::Div, Numeric::UInt64(1), Numeric::UInt64(0)).is_none());
    let q = numeric_of(apply(MathOp::Div, Numeric::Float32(1.0f32.to_bits()), Numeric::Float32(0.0f32.to_bits())));
    assert_eq!(q, Some(Numeric::Float32(f32::INFINITY.to_bits())));
}

#[test]
fn comparisons_yield_bools() {
    assert_eq!(bool_of(apply(MathOp::GreaterThan, Numeric::Int32(3), Numeric::Int32(2))), Some(true));
    assert_eq!(bool_of(apply(MathOp::LessThan, Numeric::Int32(3), Numeric::Int32(2))), Some(false));
    assert_eq!(bool_of(apply(MathOp::GreaterThanEq, Numeric::UInt64(2), Numeric::UInt64(2))), Some(true));
    assert_eq!(bool_of(apply(MathOp::LessThanEq, Numeric::Int8(-1), Numeric::Int8(-2))), Some(false));
    assert_eq!(bool_of(apply(MathOp::Eql, Numeric::UInt128(9), Numeric::UInt128(9))), Some(true));
    let nan = Numeric::Float64(f64::NAN.to_bits());
    assert_eq!(bool_of(apply(MathOp::Eql, nan, nan)), Some(false));
    assert_eq!(
        bool_of(apply(MathOp::LessThan, Numeric::Float32(1.0f32.to_bits()), Numeric::Float32(2.0f32.to_bits()))),
        Some(true)
    );
}

#[test]
fn casts_are_lossy_between_sub_types() {
    let x = Numeric::Int16(300);
    let narrowed = x.cast(&NumericType::UInt8, &Native);
    assert_eq!(narrowed, Numeric::UInt8(44));
    assert_eq!(narrowed.cast(&NumericType::Int16, &Native), Numeric::Int16(44));
    assert_eq!(Numeric::Int8(-1).cast(&NumericType::UInt32, &Native), Numeric::UInt32(u32::MAX));
    assert_eq!(Numeric::UInt64(u64::MAX).cast(&NumericType::Int64, &Native), Numeric::Int64(-1));
    assert_eq!(Numeric::Int128(-2).cast(&NumericType::UInt128, &Native), Numeric::UInt128(u128::MAX - 1));
}

#[test]
fn cast_to_own_sub_type_is_identity() {
    assert_eq!(Numeric::Int16(300).cast(&NumericType::Int16, &Native), Numeric::Int16(300));
    let nan = Numeric::Float32(f32::NAN.to_bits());
    assert_eq!(nan.cast(&NumericType::Float32, &Native), nan);
}

#[test]
fn float_casts_saturate_and_round() {
    assert_eq!(f32v(300.0).cast(&NumericType::UInt8, &Native), Numeric::UInt8(255));
    assert_eq!(f32v(-300.0).cast(&NumericType::Int8, &Native), Numeric::Int8(-128));
    assert_eq!(f32v(-1.5).cast(&NumericType::Int8, &Native), Numeric::Int8(-1));
    assert_eq!(f32v(-1.5).cast(&NumericType::UInt16, &Native), Numeric::UInt16(0));
    assert_eq!(Numeric::Float32(f32::NAN.to_bits()).cast(&NumericType::Int32, &Native), Numeric::Int32(0));
    assert_eq!(
        Numeric::Float64(1e30f64.to_bits()).cast(&NumericType::USize, &Native),
        Numeric::USize(usize::MAX)
    );
    assert_eq!(Numeric::Int32(-3).cast(&NumericType::Float64, &Native), Numeric::Float64((-3.0f64).to_bits()));
    assert_eq!(Numeric::UInt8(7).cast(&NumericType::Float32, &Native), f32v(7.0));
    assert_eq!(f32v(0.5).cast(&NumericType::Float64, &Native), Numeric::Float64(0.5f64.to_bits()));
}

#[test]
fn cast_of_non_numeric_is_a_type_mismatch() {
    let mut cells = Cells::new();
    let main = func(0, 0, vec![
        Instruction::Stack(StackOp::Push(ValueType::Value(Value::Str("x".to_string())))),
        Instruction::Type(TypeOp::NumericCast(NumericType::Int8)),
    ]);
    let outcome = run_program(vec![(0, main)], 0, &mut cells);
    assert_eq!(fault_kind(&outcome), Some(FaultKind::TypeMismatch));
}

#[test]
fn values_report_their_data_type() {
    assert_eq!(Value::Str("s".to_string()).get_type(), DataType::Str);
    assert_eq!(Value::Numeric(Numeric::UInt8(1)).get_type(), DataType::Int32);
    assert_eq!(Value::Bool(true).get_type(), DataType::Bool);
    assert_eq!(Value::Ptr(Ptr { cell: 0 }).get_type(), DataType::Ptr);
}

#[test]
fn entry_frame_is_discarded_when_the_entry_function_returns() {
    let mut cells = Cells::new();
    let mut table = HashMap::new();
    table.insert(4, func(0, 0, vec![]));
    let mut m = FunctionController::new(table, 4);
    assert_eq!(m.frame_count(), 1);
    assert!(matches!(m.run(&mut cells, &Native), RunOutcome::Halted));
    assert_eq!(m.depth(), 0);
    assert_eq!(m.frame_count(), 0);
}

#[test]
fn cells_report_the_data_type_of_their_contents() {
    let mut cells = Cells::new();
    let s = Ptr::new(&mut cells, Value::Str("s".to_string()));
    let b = Ptr::new(&mut cells, Value::Bool(true));
    assert_eq!(cells.get_type(s), Some(DataType::Str));
    assert_eq!(cells.get_type(b), Some(DataType::Bool));
    assert_eq!(cells.get_type(Ptr { cell: 5 }), None);
}
