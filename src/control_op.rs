use vstd::prelude::*;

use crate::control::InstructionControl;
use crate::instruction::{FaultKind, InstructionResult, Runnable, Step};
use crate::numeric::{FloatUnit, Numeric};
use crate::ptr::Cells;
use crate::stack::Stack;
use crate::stack_op::top_of;
use crate::value::{Value, ValueType};

verus! {

/// Instructions that transfer control to another function.
#[derive(Debug)]
pub enum ControlOp {
    /// Call the function whose identifier the operand resolves to.
    Call(ValueType),
    /// Call the target (first operand) when the predicate (second) is true.
    CallIf(ValueType, ValueType),
    /// Call the target (first operand) when the predicate (second) is false.
    CallElse(ValueType, ValueType),
}

/// The outcome of a conditional call: the target is resolved and checked
/// first, then the predicate; the call happens when the predicate equals `when`.
pub open spec fn conditional_step(
    target: ValueType,
    predicate: ValueType,
    when: bool,
    top: Option<Value>,
    cells: Seq<Value>,
) -> Step {
    match target.resolve(top, cells) {
        None => Step::Fault(FaultKind::UnresolvedOperand),
        Some(Value::Numeric(Numeric::USize(id))) => match predicate.resolve(top, cells) {
            None => Step::Fault(FaultKind::UnresolvedOperand),
            Some(Value::Bool(b)) => if b == when {
                Step::Call(id)
            } else {
                Step::Proceed
            },
            Some(_) => Step::Fault(FaultKind::InvalidControlTarget),
        },
        Some(_) => Step::Fault(FaultKind::InvalidControlTarget),
    }
}

impl ControlOp {
    /// The outcome of running on the frame `f` with the cells `c`; neither
    /// is changed.
    pub open spec fn outcome(self, f: Seq<Value>, c: Seq<Value>) -> Step {
        match self {
            ControlOp::Call(target) => match target.resolve(top_of(f), c) {
                None => Step::Fault(FaultKind::UnresolvedOperand),
                Some(Value::Numeric(Numeric::USize(id))) => Step::Call(id),
                Some(_) => Step::Fault(FaultKind::InvalidControlTarget),
            },
            ControlOp::CallIf(target, predicate) => conditional_step(
                target,
                predicate,
                true,
                top_of(f),
                c,
            ),
            ControlOp::CallElse(target, predicate) => conditional_step(
                target,
                predicate,
                false,
                top_of(f),
                c,
            ),
        }
    }

    /// The outcome on the frame `frame` and the cells `cells`.
    pub fn run_on(&self, frame: &Vec<Value>, cells: &Cells) -> (r: InstructionResult)
        ensures
            r.step() == self.outcome(frame@, cells@),
    {
        let n = frame.len();
        let top = if n > 0 {
            Some(&frame[n - 1])
        } else {
            None
        };
        let (target, predicate, when) = match self {
            ControlOp::Call(target) => (target, None, true),
            ControlOp::CallIf(target, predicate) => (target, Some(predicate), true),
            ControlOp::CallElse(target, predicate) => (target, Some(predicate), false),
        };
        let id = match target.to_value(top, cells) {
            Some(Value::Numeric(Numeric::USize(id))) => id,
            Some(_) => {
                return InstructionResult::fault(
                    FaultKind::InvalidControlTarget,
                    "call target must be a numeric usize",
                );
            },
            None => {
                return InstructionResult::fault(
                    FaultKind::UnresolvedOperand,
                    "failed to obtain the call target",
                );
            },
        };
        match predicate {
            None => InstructionResult::Control(InstructionControl::Call(id)),
            Some(predicate) => match predicate.to_value(top, cells) {
                Some(Value::Bool(b)) => {
                    if b == when {
                        InstructionResult::Control(InstructionControl::Call(id))
                    } else {
                        InstructionResult::Proceed
                    }
                },
                Some(_) => InstructionResult::fault(
                    FaultKind::InvalidControlTarget,
                    "predicate must be a boolean",
                ),
                None => InstructionResult::fault(
                    FaultKind::UnresolvedOperand,
                    "failed to obtain the predicate",
                ),
            },
        }
    }
}

impl Runnable for ControlOp {
    open spec fn transition(
        &self,
        frame: Seq<Value>,
        cells: Seq<Value>,
        frame2: Seq<Value>,
        cells2: Seq<Value>,
        step: Step,
    ) -> bool {
        frame2 == frame && cells2 == cells && step == self.outcome(frame, cells)
    }

    fn run<F: FloatUnit>(&self, stack: &mut Stack, cells: &mut Cells, unit: &F) -> (r:
        InstructionResult) {
        self.run_on(stack.current(), cells)
    }
}

} // verus!
