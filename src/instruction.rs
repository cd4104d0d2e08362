use vstd::prelude::*;

use crate::control::InstructionControl;
use crate::control_op::ControlOp;
use crate::math_op::MathOp;
use crate::numeric::FloatUnit;
use crate::ptr::Cells;
use crate::stack::Stack;
use crate::stack_op::StackOp;
use crate::type_op::TypeOp;
use crate::value::Value;

verus! {

/// Why an instruction could not proceed.
#[derive(Clone, Copy, Debug, PartialEq, Eq, Structural)]
pub enum FaultKind {
    /// Too few values on the current frame.
    OperandUnderflow,
    /// A value of the wrong kind for the operation.
    TypeMismatch,
    /// Arithmetic or comparison across two numeric sub-types.
    NumericSubtypeMismatch,
    /// An operand reference that resolves to no value.
    UnresolvedOperand,
    /// A call target that is not a `USize`, or a predicate that is not a `Bool`.
    InvalidControlTarget,
    /// A function identifier absent from the function table.
    UnknownFunction,
    /// An integer division by zero, or one whose quotient does not fit.
    InvalidDivision,
}

/// The outcome of an instruction, as the contracts speak of it.
#[derive(Clone, Copy, Debug, PartialEq, Eq, Structural)]
pub enum Step {
    Proceed,
    Call(usize),
    Fault(FaultKind),
}

/// A fault raised by an instruction, with a diagnostic message.
#[derive(Clone, Debug)]
pub struct InstructionError {
    pub kind: FaultKind,
    pub message: String,
}

impl InstructionError {
    pub fn new(kind: FaultKind, message: &str) -> (r: InstructionError)
        ensures
            r.kind == kind,
            r.message@ == message@,
    {
        InstructionError { kind, message: message.to_owned() }
    }
}

/// What running one instruction produced.
#[derive(Clone, Debug)]
pub enum InstructionResult {
    /// Go on with the next instruction.
    Proceed,
    Error(InstructionError),
    Control(InstructionControl),
}

impl InstructionResult {
    pub open spec fn step(self) -> Step {
        match self {
            InstructionResult::Proceed => Step::Proceed,
            InstructionResult::Error(e) => Step::Fault(e.kind),
            InstructionResult::Control(InstructionControl::Call(f)) => Step::Call(f),
        }
    }

    /// A fault of the given kind.
    pub fn fault(kind: FaultKind, message: &str) -> (r: InstructionResult)
        ensures
            r.step() == Step::Fault(kind),
    {
        InstructionResult::Error(InstructionError::new(kind, message))
    }
}

/// An instruction that runs against the current frame and the cells.
pub trait Runnable {
    /// Whether running takes the current frame `frame` and the cells `cells`
    /// to `frame2` and `cells2` with the outcome `step`.
    spec fn transition(
        &self,
        frame: Seq<Value>,
        cells: Seq<Value>,
        frame2: Seq<Value>,
        cells2: Seq<Value>,
        step: Step,
    ) -> bool;

    /// Runs the instruction. It touches only the current frame and the cells,
    /// and when it faults or transfers control it changes nothing.
    fn run<F: FloatUnit>(&self, stack: &mut Stack, cells: &mut Cells, unit: &F) -> (r:
        InstructionResult)
        requires
            old(stack)@.len() > 0,
        ensures
            final(stack)@.len() == old(stack)@.len(),
            final(stack)@.drop_last() == old(stack)@.drop_last(),
            self.transition(
                old(stack)@.last(),
                old(cells)@,
                final(stack)@.last(),
                final(cells)@,
                r.step(),
            ),
            r.step() is Fault ==> final(stack)@ == old(stack)@ && final(cells)@ == old(cells)@,
            r.step() is Call ==> final(stack)@ == old(stack)@ && final(cells)@ == old(cells)@,
    ;
}

/// An instruction of one of the four families.
#[derive(Debug)]
pub enum Instruction {
    Math(MathOp),
    Stack(StackOp),
    Type(TypeOp),
    Control(ControlOp),
}

impl Runnable for Instruction {
    open spec fn transition(
        &self,
        frame: Seq<Value>,
        cells: Seq<Value>,
        frame2: Seq<Value>,
        cells2: Seq<Value>,
        step: Step,
    ) -> bool {
        match self {
            Instruction::Math(i) => i.transition(frame, cells, frame2, cells2, step),
            Instruction::Stack(i) => i.transition(frame, cells, frame2, cells2, step),
            Instruction::Type(i) => i.transition(frame, cells, frame2, cells2, step),
            Instruction::Control(i) => i.transition(frame, cells, frame2, cells2, step),
        }
    }

    fn run<F: FloatUnit>(&self, stack: &mut Stack, cells: &mut Cells, unit: &F) -> (r:
        InstructionResult) {
        match self {
            Instruction::Math(i) => i.run(stack, cells, unit),
            Instruction::Stack(i) => i.run(stack, cells, unit),
            Instruction::Type(i) => i.run(stack, cells, unit),
            Instruction::Control(i) => i.run(stack, cells, unit),
        }
    }
}

} // verus!
