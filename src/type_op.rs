use vstd::prelude::*;

use crate::instruction::{FaultKind, InstructionResult, Runnable, Step};
use crate::numeric::{FloatUnit, NumericType};
use crate::ptr::Cells;
use crate::stack::Stack;
use crate::value::Value;

verus! {

/// Instructions that convert between types.
#[derive(Debug)]
pub enum TypeOp {
    /// Pop a numeric and push its conversion to the given sub-type.
    NumericCast(NumericType),
}

impl TypeOp {
    /// Whether running on the frame `f` may give the frame `f2` and the
    /// outcome `step`.
    pub open spec fn admits(self, f: Seq<Value>, f2: Seq<Value>, step: Step) -> bool {
        let n = f.len();
        match self {
            TypeOp::NumericCast(to) => if n < 1 {
                f2 == f && step == Step::Fault(FaultKind::OperandUnderflow)
            } else {
                match f.last() {
                    Value::Numeric(x) => {
                        &&& step == Step::Proceed
                        &&& f2.len() == n
                        &&& f2.drop_last() == f.drop_last()
                        &&& f2.last() matches Value::Numeric(y) && x.cast_admits(to, y)
                    },
                    _ => f2 == f && step == Step::Fault(FaultKind::TypeMismatch),
                }
            },
        }
    }

    /// Runs on the current frame, held apart from the stack.
    pub fn run_on<F: FloatUnit>(&self, frame: &mut Vec<Value>, unit: &F) -> (r: InstructionResult)
        ensures
            self.admits(old(frame)@, final(frame)@, r.step()),
    {
        match self {
            TypeOp::NumericCast(to) => {
                let n = frame.len();
                if n < 1 {
                    return InstructionResult::fault(
                        FaultKind::OperandUnderflow,
                        "no value on the stack to cast",
                    );
                }
                let x = match &frame[n - 1] {
                    Value::Numeric(x) => *x,
                    _ => {
                        return InstructionResult::fault(
                            FaultKind::TypeMismatch,
                            "cannot cast a non-numeric value",
                        );
                    },
                };
                frame.pop();
                frame.push(Value::Numeric(x.cast(to, unit)));
                assert(frame@.drop_last() =~= old(frame)@.drop_last());
                InstructionResult::Proceed
            },
        }
    }
}

impl Runnable for TypeOp {
    open spec fn transition(
        &self,
        frame: Seq<Value>,
        cells: Seq<Value>,
        frame2: Seq<Value>,
        cells2: Seq<Value>,
        step: Step,
    ) -> bool {
        cells2 == cells && self.admits(frame, frame2, step)
    }

    fn run<F: FloatUnit>(&self, stack: &mut Stack, cells: &mut Cells, unit: &F) -> (r:
        InstructionResult) {
        let mut frame = stack.take_current();
        let r = self.run_on(&mut frame, unit);
        stack.put_current(frame);
        assert(old(stack)@.drop_last().push(old(stack)@.last()) =~= old(stack)@);
        r
    }
}

} // verus!
