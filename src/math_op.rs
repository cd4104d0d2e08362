use vstd::prelude::*;

use crate::instruction::{FaultKind, InstructionResult, Runnable, Step};
use crate::numeric::{FloatUnit, Numeric};
use crate::ptr::Cells;
use crate::stack::Stack;
use crate::value::Value;

verus! {

/// Binary operations on two numerics of the same sub-type.
#[derive(Clone, Copy, Debug, PartialEq, Eq, Structural)]
pub enum MathOp {
    Add,
    Sub,
    Mul,
    Div,
    GreaterThan,
    LessThan,
    GreaterThanEq,
    LessThanEq,
    Eql,
}

impl MathOp {
    /// Whether the operation compares its operands (and yields a `Bool`).
    pub open spec fn is_comparison(self) -> bool {
        match self {
            MathOp::Add | MathOp::Sub | MathOp::Mul | MathOp::Div => false,
            _ => true,
        }
    }

    /// Whether running on the frame `f` may give the frame `f2` and the
    /// outcome `step`. The right operand is the top value, the left one below
    /// it; both are replaced by the result.
    pub open spec fn admits(self, f: Seq<Value>, f2: Seq<Value>, step: Step) -> bool {
        let n = f.len();
        if n < 2 {
            f2 == f && step == Step::Fault(FaultKind::OperandUnderflow)
        } else {
            match (f[n - 2], f[n - 1]) {
                (Value::Numeric(a), Value::Numeric(b)) => if a.sub_type() != b.sub_type() {
                    f2 == f && step == Step::Fault(FaultKind::NumericSubtypeMismatch)
                } else if step == Step::Proceed {
                    &&& f2.len() == n - 1
                    &&& f2.drop_last() == f.subrange(0, n - 2)
                    &&& Numeric::admits(self, a, b, Some(f2.last()))
                } else {
                    &&& f2 == f
                    &&& step == Step::Fault(FaultKind::InvalidDivision)
                    &&& Numeric::admits(self, a, b, None)
                },
                _ => f2 == f && step == Step::Fault(FaultKind::TypeMismatch),
            }
        }
    }

    /// Runs on the current frame, held apart from the stack.
    pub fn run_on<F: FloatUnit>(&self, frame: &mut Vec<Value>, unit: &F) -> (r: InstructionResult)
        ensures
            self.admits(old(frame)@, final(frame)@, r.step()),
    {
        let n = frame.len();
        if n < 2 {
            return InstructionResult::fault(
                FaultKind::OperandUnderflow,
                "two operands are needed",
            );
        }
        let (a, b) = match (&frame[n - 2], &frame[n - 1]) {
            (Value::Numeric(a), Value::Numeric(b)) => (*a, *b),
            _ => {
                return InstructionResult::fault(FaultKind::TypeMismatch, "an operand is not numeric");
            },
        };
        if a.numeric_type() != b.numeric_type() {
            return InstructionResult::fault(
                FaultKind::NumericSubtypeMismatch,
                "operands are not of matching numeric sub-types",
            );
        }
        let value = match self {
            MathOp::Add => a.add(&b, unit),
            MathOp::Sub => a.sub(&b, unit),
            MathOp::Mul => a.mul(&b, unit),
            MathOp::Div => a.div(&b, unit),
            MathOp::GreaterThan => a.greater_than(&b, unit),
            MathOp::LessThan => a.less_than(&b, unit),
            MathOp::GreaterThanEq => a.greater_than_eq(&b, unit),
            MathOp::LessThanEq => a.less_than_eq(&b, unit),
            MathOp::Eql => a.eq(&b, unit),
        };
        assert(Numeric::admits(*self, a, b, value));
        let ghost before = frame@;
        let r = push_to_stack(value, frame);
        assert(frame@.drop_last() =~= before.subrange(0, n - 2) || value is None);
        r
    }

    pub fn is_comparison_exec(&self) -> (r: bool)
        ensures
            r == self.is_comparison(),
    {
        match self {
            MathOp::Add | MathOp::Sub | MathOp::Mul | MathOp::Div => false,
            _ => true,
        }
    }
}

/// Replaces the two operands on top of `current_stack` by `value`; when there
/// is no value the quotient did not exist, and the frame is left as it is.
fn push_to_stack(value: Option<Value>, current_stack: &mut Vec<Value>) -> (r: InstructionResult)
    requires
        old(current_stack)@.len() >= 2,
    ensures
        value is Some ==> r.step() == Step::Proceed,
        value is Some ==> final(current_stack)@ == old(current_stack)@.subrange(
            0,
            old(current_stack)@.len() - 2,
        ).push(value->0),
        value is None ==> r.step() == Step::Fault(FaultKind::InvalidDivision),
        value is None ==> final(current_stack)@ == old(current_stack)@,
{
    match value {
        Some(v) => {
            current_stack.pop();
            current_stack.pop();
            current_stack.push(v);
            InstructionResult::Proceed
        },
        None => InstructionResult::fault(
            FaultKind::InvalidDivision,
            "integer division by zero or with a quotient out of range",
        ),
    }
}

impl Runnable for MathOp {
    open spec fn transition(
        &self,
        frame: Seq<Value>,
        cells: Seq<Value>,
        frame2: Seq<Value>,
        cells2: Seq<Value>,
        step: Step,
    ) -> bool {
        cells2 == cells && self.admits(frame, frame2, step)
    }

    fn run<F: FloatUnit>(&self, stack: &mut Stack, cells: &mut Cells, unit: &F) -> (r:
        InstructionResult) {
        let mut frame = stack.take_current();
        let r = self.run_on(&mut frame, unit);
        stack.put_current(frame);
        assert(old(stack)@.drop_last().push(old(stack)@.last()) =~= old(stack)@);
        r
    }
}

/// `Add` on two integers of one sub-type on top of a frame replaces them by
/// their sum wrapped to that sub-type, which is the exact sum when it fits;
/// on a float pair it leaves a float of the same sub-type.
pub proof fn lemma_add_instruction(
    rest: Seq<Value>,
    a: Numeric,
    b: Numeric,
    f2: Seq<Value>,
    step: Step,
)
    requires
        a.sub_type() == b.sub_type(),
        MathOp::Add.admits(rest.push(Value::Numeric(a)).push(Value::Numeric(b)), f2, step),
    ensures
        step == Step::Proceed,
        f2.drop_last() == rest,
        !a.sub_type().is_float() ==> f2.last() == Value::Numeric(
            Numeric::from_int(a.sub_type(), a.int_value() + b.int_value()),
        ),
        !a.sub_type().is_float() && a.sub_type().holds(a.int_value() + b.int_value()) ==> (
        f2.last() matches Value::Numeric(n) && n.sub_type() == a.sub_type() && n.int_value()
            == a.int_value() + b.int_value()),
        a.sub_type().is_float() ==> (f2.last() matches Value::Numeric(n) && n.sub_type()
            == a.sub_type()),
{
    let f = rest.push(Value::Numeric(a)).push(Value::Numeric(b));
    assert(f[f.len() - 2] == Value::Numeric(a));
    assert(f[f.len() - 1] == Value::Numeric(b));
    assert(f.subrange(0, f.len() - 2) =~= rest);
}

} // verus!
