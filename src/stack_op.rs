use vstd::prelude::*;

use crate::instruction::{FaultKind, InstructionResult, Runnable, Step};
use crate::numeric::{FloatUnit, Numeric};
use crate::ptr::{Cells, Ptr};
use crate::stack::Stack;
use crate::value::{Value, ValueType};

verus! {

/// Instructions that rearrange the current frame or move values between it
/// and the cells.
///
/// None of them opens or closes a frame: only calls and returns do, so that
/// every active call keeps exactly one frame. Printing a frame is left to the
/// embedder, which can read it through the machine.
#[derive(Debug)]
pub enum StackOp {
    /// Exchange the top two values.
    Swap,
    /// Push a copy of the top value.
    Duplicate,
    /// Discard the top value, if any.
    Drop,
    /// Pop the top value into a pointer's cell.
    Pop(Ptr),
    /// Push the value an operand reference resolves to.
    Push(ValueType),
    /// Push a pointer as a value.
    PushPtr(Ptr),
    /// Replace a pointer on top by a copy of its cell's contents.
    DeRef,
    /// Push the number of values on the frame as a `USize`.
    Len,
}

/// The top value of a frame, if it has one.
pub open spec fn top_of(frame: Seq<Value>) -> Option<Value> {
    if frame.len() > 0 {
        Some(frame.last())
    } else {
        None
    }
}

impl StackOp {
    /// The frame, the cells and the outcome after running on `f` and `c`.
    pub open spec fn effect(self, f: Seq<Value>, c: Seq<Value>) -> (Seq<Value>, Seq<Value>, Step) {
        let n = f.len();
        let underflow = (f, c, Step::Fault(FaultKind::OperandUnderflow));
        match self {
            StackOp::Swap => if n < 2 {
                underflow
            } else {
                (f.subrange(0, n - 2).push(f[n - 1]).push(f[n - 2]), c, Step::Proceed)
            },
            StackOp::Duplicate => if n < 1 {
                underflow
            } else {
                (f.push(f.last()), c, Step::Proceed)
            },
            StackOp::Drop => if n < 1 {
                (f, c, Step::Proceed)
            } else {
                (f.drop_last(), c, Step::Proceed)
            },
            StackOp::Pop(p) => if n < 1 {
                underflow
            } else if p.cell >= c.len() {
                (f, c, Step::Fault(FaultKind::UnresolvedOperand))
            } else {
                (f.drop_last(), c.update(p.cell as int, f.last()), Step::Proceed)
            },
            StackOp::Push(v) => match v.resolve(top_of(f), c) {
                Some(x) => (f.push(x), c, Step::Proceed),
                None => (f, c, Step::Fault(FaultKind::UnresolvedOperand)),
            },
            StackOp::PushPtr(p) => (f.push(Value::Ptr(p)), c, Step::Proceed),
            StackOp::DeRef => if n < 1 {
                underflow
            } else {
                match f.last() {
                    Value::Ptr(p) => if p.cell < c.len() {
                        (f.drop_last().push(c[p.cell as int]), c, Step::Proceed)
                    } else {
                        (f, c, Step::Fault(FaultKind::UnresolvedOperand))
                    },
                    _ => (f, c, Step::Fault(FaultKind::TypeMismatch)),
                }
            },
            StackOp::Len => (f.push(Value::Numeric(Numeric::USize(n as usize))), c, Step::Proceed),
        }
    }

    /// Runs on the current frame, held apart from the stack.
    pub fn run_on(&self, frame: &mut Vec<Value>, cells: &mut Cells) -> (r: InstructionResult)
        ensures
            (final(frame)@, final(cells)@, r.step()) == self.effect(old(frame)@, old(cells)@),
    {
        let n = frame.len();
        match self {
            StackOp::Swap => {
                if n < 2 {
                    return InstructionResult::fault(
                        FaultKind::OperandUnderflow,
                        "stack too short to swap",
                    );
                }
                let a = frame.pop().unwrap();
                let b = frame.pop().unwrap();
                frame.push(a);
                frame.push(b);
                assert(frame@ =~= old(frame)@.subrange(0, n - 2).push(old(frame)@[n - 1]).push(
                    old(frame)@[n - 2],
                ));
                InstructionResult::Proceed
            },
            StackOp::Duplicate => {
                if n < 1 {
                    return InstructionResult::fault(
                        FaultKind::OperandUnderflow,
                        "no value on the stack to duplicate",
                    );
                }
                let top = frame[n - 1].clone_value();
                frame.push(top);
                InstructionResult::Proceed
            },
            StackOp::Drop => {
                if n > 0 {
                    frame.pop();
                }
                InstructionResult::Proceed
            },
            StackOp::Pop(p) => {
                if n < 1 {
                    return InstructionResult::fault(
                        FaultKind::OperandUnderflow,
                        "no value on the stack to pop",
                    );
                }
                if p.cell >= cells.len() {
                    return InstructionResult::fault(
                        FaultKind::UnresolvedOperand,
                        "pointer names no cell",
                    );
                }
                let v = frame.pop().unwrap();
                cells.write(*p, v);
                InstructionResult::Proceed
            },
            StackOp::Push(v) => {
                let top = if n > 0 {
                    Some(&frame[n - 1])
                } else {
                    None
                };
                match v.to_value(top, cells) {
                    Some(x) => {
                        frame.push(x);
                        InstructionResult::Proceed
                    },
                    None => InstructionResult::fault(
                        FaultKind::UnresolvedOperand,
                        "failed to get the value to push",
                    ),
                }
            },
            StackOp::PushPtr(p) => {
                frame.push(Value::Ptr(*p));
                InstructionResult::Proceed
            },
            StackOp::DeRef => {
                if n < 1 {
                    return InstructionResult::fault(
                        FaultKind::OperandUnderflow,
                        "no value on the stack to dereference",
                    );
                }
                let target = match &frame[n - 1] {
                    Value::Ptr(p) => *p,
                    _ => {
                        return InstructionResult::fault(
                            FaultKind::TypeMismatch,
                            "top of the stack is not a pointer",
                        );
                    },
                };
                match cells.read(target) {
                    Some(x) => {
                        frame.pop();
                        frame.push(x);
                        InstructionResult::Proceed
                    },
                    None => InstructionResult::fault(
                        FaultKind::UnresolvedOperand,
                        "pointer names no cell",
                    ),
                }
            },
            StackOp::Len => {
                frame.push(Value::Numeric(Numeric::USize(n)));
                InstructionResult::Proceed
            },
        }
    }
}

impl Runnable for StackOp {
    open spec fn transition(
        &self,
        frame: Seq<Value>,
        cells: Seq<Value>,
        frame2: Seq<Value>,
        cells2: Seq<Value>,
        step: Step,
    ) -> bool {
        (frame2, cells2, step) == self.effect(frame, cells)
    }

    fn run<F: FloatUnit>(&self, stack: &mut Stack, cells: &mut Cells, unit: &F) -> (r:
        InstructionResult) {
        let mut frame = stack.take_current();
        let r = self.run_on(&mut frame, cells);
        stack.put_current(frame);
        assert(old(stack)@.drop_last().push(old(stack)@.last()) =~= old(stack)@);
        r
    }
}

/// Popping the top value into a pointer's cell, pushing that pointer and
/// dereferencing it gives back the popped value, and the frame is as before.
pub proof fn lemma_pop_push_ptr_deref(f: Seq<Value>, c: Seq<Value>, p: Ptr)
    requires
        f.len() > 0,
        p.cell < c.len(),
    ensures
        ({
            let (f1, c1, s1) = StackOp::Pop(p).effect(f, c);
            let (f2, c2, s2) = StackOp::PushPtr(p).effect(f1, c1);
            let (f3, c3, s3) = StackOp::DeRef.effect(f2, c2);
            &&& s1 == Step::Proceed
            &&& s2 == Step::Proceed
            &&& s3 == Step::Proceed
            &&& f3.last() == f.last()
            &&& f3 == f
            &&& c3[p.cell as int] == f.last()
        }),
{
    let (f1, c1, s1) = StackOp::Pop(p).effect(f, c);
    let (f2, c2, s2) = StackOp::PushPtr(p).effect(f1, c1);
    let (f3, c3, s3) = StackOp::DeRef.effect(f2, c2);
    assert(f2.last() == Value::Ptr(p));
    assert(f3 =~= f);
}

/// `Swap` on a frame of fewer than two values, and `Duplicate` on an empty
/// frame, fault with `OperandUnderflow` and leave the frame and the cells as
/// they were.
pub proof fn lemma_short_frame_underflow(f: Seq<Value>, c: Seq<Value>)
    ensures
        f.len() < 2 ==> StackOp::Swap.effect(f, c) == (
            f,
            c,
            Step::Fault(FaultKind::OperandUnderflow),
        ),
        f.len() < 1 ==> StackOp::Duplicate.effect(f, c) == (
            f,
            c,
            Step::Fault(FaultKind::OperandUnderflow),
        ),
{
}

} // verus!
