use std::collections::HashMap;

use vstd::prelude::*;

use crate::control::InstructionControl;
use crate::instruction::{
    FaultKind, Instruction, InstructionError, InstructionResult, Runnable, Step,
};
use crate::numeric::FloatUnit;
use crate::ptr::Cells;
use crate::stack::{closed, opened, Stack};
use crate::value::Value;

verus! {

broadcast use vstd::std_specs::hash::group_hash_axioms;

/// A function of the program: its instructions, and how many values a call
/// carries in (`param_count`) and back out (`return_count`).
#[derive(Debug)]
pub struct Function {
    pub instructions: Vec<Instruction>,
    pub param_count: usize,
    pub return_count: usize,
}

/// The progress of one active call.
#[derive(Clone, Copy, Debug, PartialEq, Eq, Structural)]
pub struct RuntimeContext {
    pub current_fn: usize,
    pub current_instruction: usize,
}

impl RuntimeContext {
    /// A call of `current_fn` at its first instruction.
    pub fn new(current_fn: usize) -> (r: RuntimeContext)
        ensures
            r.current_fn == current_fn,
            r.current_instruction == 0,
    {
        RuntimeContext { current_fn, current_instruction: 0 }
    }
}

/// Where the machine stopped on a fault, and why.
#[derive(Clone, Debug)]
pub struct MachineFault {
    /// The function that was running.
    pub function: usize,
    /// The position of the faulting instruction (or, when the function itself
    /// is absent from the table, the position the call had reached).
    pub instruction: usize,
    pub error: InstructionError,
}

/// What one step of the machine did.
#[derive(Clone, Debug)]
pub enum StepOutcome {
    /// An instruction ran and execution goes on after it.
    Continued,
    /// A call of the function with this identifier was issued.
    Called(usize),
    /// The current function reached its end and returned.
    Returned,
    /// No call is active: the machine has halted.
    Halted,
    /// The machine faulted; nothing was changed by this step.
    Fault(MachineFault),
}

/// How a run ended.
#[derive(Clone, Debug)]
pub enum RunOutcome {
    /// Every call returned.
    Halted,
    /// A step faulted; the machine stopped there.
    Faulted(MachineFault),
    /// The step budget ran out first.
    StepLimit,
}

/// The contexts after the current call moved past its current instruction.
pub open spec fn advanced(contexts: Seq<RuntimeContext>) -> Seq<RuntimeContext> {
    let top = contexts.last();
    contexts.update(
        contexts.len() - 1,
        RuntimeContext {
            current_fn: top.current_fn,
            current_instruction: (top.current_instruction + 1) as usize,
        },
    )
}

/// The frames after the current call returns: with a caller, its frame is
/// closed carrying `return_count` values; the entry function's frame is
/// discarded along with its call.
pub open spec fn returned_frames(
    contexts: Seq<RuntimeContext>,
    frames: Seq<Seq<Value>>,
    return_count: nat,
) -> Seq<Seq<Value>> {
    if contexts.len() > 1 {
        closed(frames, return_count)
    } else {
        frames.drop_last()
    }
}

/// The fetch-execute machine: the function table, the stack of active calls,
/// and the operand stack with one frame per active call.
pub struct FunctionController {
    functions: HashMap<usize, Function>,
    context: Vec<RuntimeContext>,
    stack: Stack,
}

impl FunctionController {
    pub closed spec fn table(&self) -> Map<usize, Function> {
        self.functions@
    }

    pub closed spec fn contexts(&self) -> Seq<RuntimeContext> {
        self.context@
    }

    pub closed spec fn frames(&self) -> Seq<Seq<Value>> {
        self.stack@
    }

    /// There is exactly one frame per active call.
    pub open spec fn wf(&self) -> bool {
        self.contexts().len() == self.frames().len()
    }

    /// A machine about to run `start` from its first instruction on one empty
    /// frame.
    pub fn new(functions: HashMap<usize, Function>, start: usize) -> (r: FunctionController)
        ensures
            r.wf(),
            r.table() == functions@,
            r.contexts() == seq![RuntimeContext { current_fn: start, current_instruction: 0 }],
            r.frames() == seq![Seq::<Value>::empty()],
    {
        let mut context: Vec<RuntimeContext> = Vec::new();
        context.push(RuntimeContext::new(start));
        let r = FunctionController { functions, context, stack: Stack::new() };
        assert(r.contexts() =~= seq![RuntimeContext { current_fn: start, current_instruction: 0 }]);
        r
    }

    /// The number of active calls.
    pub fn depth(&self) -> (r: usize)
        ensures
            r == self.contexts().len(),
    {
        self.context.len()
    }

    /// The number of frames.
    pub fn frame_count(&self) -> (r: usize)
        ensures
            r == self.frames().len(),
    {
        self.stack.depth()
    }

    /// The current frame.
    pub fn current_frame(&self) -> (r: &Vec<Value>)
        requires
            self.wf(),
            self.contexts().len() > 0,
        ensures
            r@ == self.frames().last(),
    {
        self.stack.current()
    }

    /// Whether one step from this machine with the cells `cells` may give the
    /// machine `next`, the cells `cells2` and the outcome `r`.
    ///
    /// With no active call the machine has halted. Otherwise, when the current
    /// function is absent from the table the step faults; when its instruction
    /// pointer has reached the end, the call returns; else the instruction
    /// there runs on the current frame: proceeding advances the pointer, a
    /// control transfer advances it and opens a frame and a context for the
    /// callee, and a fault (also a call of an absent function) changes nothing.
    pub open spec fn performs(
        &self,
        cells: Seq<Value>,
        next: FunctionController,
        cells2: Seq<Value>,
        r: StepOutcome,
    ) -> bool {
        let ctx = self.contexts();
        let frames = self.frames();
        let table = self.table();
        let unchanged = next.contexts() == ctx && next.frames() == frames && cells2 == cells;
        &&& next.table() == table
        &&& if ctx.len() == 0 {
            r is Halted && unchanged
        } else {
            let top = ctx.last();
            let ip = top.current_instruction;
            &&& (match r {
                StepOutcome::Fault(e) => unchanged && e.function == top.current_fn && e.instruction
                    == ip,
                _ => true,
            })
            &&& if !table.contains_key(top.current_fn) {
                r matches StepOutcome::Fault(e) && e.error.kind == FaultKind::UnknownFunction
            } else {
                let func = table[top.current_fn];
                if ip >= func.instructions.len() {
                    &&& r is Returned
                    &&& next.contexts() == ctx.drop_last()
                    &&& next.frames() == returned_frames(ctx, frames, func.return_count as nat)
                    &&& cells2 == cells
                } else {
                    let ins = func.instructions[ip as int];
                    match r {
                        StepOutcome::Continued => {
                            &&& next.contexts() == advanced(ctx)
                            &&& next.frames().len() == frames.len()
                            &&& next.frames().drop_last() == frames.drop_last()
                            &&& ins.transition(
                                frames.last(),
                                cells,
                                next.frames().last(),
                                cells2,
                                Step::Proceed,
                            )
                        },
                        StepOutcome::Called(f) => {
                            &&& ins.transition(frames.last(), cells, frames.last(), cells, Step::Call(f))
                            &&& table.contains_key(f)
                            &&& next.contexts() == advanced(ctx).push(
                                RuntimeContext { current_fn: f, current_instruction: 0 },
                            )
                            &&& next.frames() == opened(frames, table[f].param_count as nat)
                            &&& cells2 == cells
                        },
                        StepOutcome::Fault(e) => {
                            ||| ins.transition(
                                frames.last(),
                                cells,
                                frames.last(),
                                cells,
                                Step::Fault(e.error.kind),
                            )
                            ||| e.error.kind == FaultKind::UnknownFunction && exists|f: usize|
                                ins.transition(frames.last(), cells, frames.last(), cells, Step::Call(f))
                                    && !table.contains_key(f)
                        },
                        _ => false,
                    }
                }
            }
        }
    }

    /// Runs one step: fetches the current instruction and executes it, or
    /// returns from the current call when its instructions are exhausted.
    pub fn step<F: FloatUnit>(&mut self, cells: &mut Cells, unit: &F) -> (r: StepOutcome)
        requires
            old(self).wf(),
        ensures
            final(self).wf(),
            old(self).performs(old(cells)@, *final(self), final(cells)@, r),
    {
        let depth = self.context.len();
        if depth == 0 {
            return StepOutcome::Halted;
        }
        let top = self.context[depth - 1];
        let func = match self.functions.get(&top.current_fn) {
            Some(func) => func,
            None => {
                return StepOutcome::Fault(
                    MachineFault {
                        function: top.current_fn,
                        instruction: top.current_instruction,
                        error: InstructionError::new(
                            FaultKind::UnknownFunction,
                            "invalid function address used",
                        ),
                    },
                );
            },
        };
        if top.current_instruction >= func.instructions.len() {
            if depth > 1 {
                self.stack.destack(func.return_count);
            } else {
                self.stack.take_current();
            }
            self.context.pop();
            return StepOutcome::Returned;
        }
        let next = RuntimeContext {
            current_fn: top.current_fn,
            current_instruction: top.current_instruction + 1,
        };
        let result = func.instructions[top.current_instruction].run(&mut self.stack, cells, unit);
        match result {
            InstructionResult::Proceed => {
                self.context.set(depth - 1, next);
                StepOutcome::Continued
            },
            InstructionResult::Control(InstructionControl::Call(f)) => {
                match self.functions.get(&f) {
                    Some(callee) => {
                        self.context.set(depth - 1, next);
                        self.stack.substack(callee.param_count);
                        self.context.push(RuntimeContext::new(f));
                        StepOutcome::Called(f)
                    },
                    None => StepOutcome::Fault(
                        MachineFault {
                            function: top.current_fn,
                            instruction: top.current_instruction,
                            error: InstructionError::new(
                                FaultKind::UnknownFunction,
                                "invalid function address used",
                            ),
                        },
                    ),
                }
            },
            InstructionResult::Error(error) => StepOutcome::Fault(
                MachineFault {
                    function: top.current_fn,
                    instruction: top.current_instruction,
                    error,
                },
            ),
        }
    }

    /// Whether two machines have the same table, calls and frames.
    pub open spec fn same_state(&self, other: FunctionController) -> bool {
        &&& self.table() == other.table()
        &&& self.contexts() == other.contexts()
        &&& self.frames() == other.frames()
    }

    /// Whether `n` steps that neither halt nor fault may take this machine
    /// with the cells `cells` to `next` with the cells `cells2`.
    pub open spec fn runs(
        &self,
        cells: Seq<Value>,
        next: FunctionController,
        cells2: Seq<Value>,
        n: nat,
    ) -> bool {
        exists|ms: Seq<FunctionController>, cs: Seq<Seq<Value>>, rs: Seq<StepOutcome>|
            #[trigger] is_trace(*self, cells, next, cells2, n, ms, cs, rs)
    }

    /// Runs at most `max_steps` steps. The machine ends where some number of
    /// ordinary steps took it: all `max_steps` of them when the budget ran
    /// out; on a halt no call is active; on a fault the machine stays at the
    /// state whose step faulted, which that step left as it was.
    pub fn run_for<F: FloatUnit>(&mut self, cells: &mut Cells, unit: &F, max_steps: u64) -> (r:
        RunOutcome)
        requires
            old(self).wf(),
        ensures
            final(self).wf(),
            final(self).table() == old(self).table(),
            exists|n: nat|
                n <= max_steps && #[trigger] old(self).runs(
                    old(cells)@,
                    *final(self),
                    final(cells)@,
                    n,
                ) && (r is StepLimit ==> n == max_steps),
            r is Halted ==> final(self).contexts().len() == 0 && final(self).frames().len() == 0,
            r matches RunOutcome::Faulted(e) ==> final(self).performs(
                final(cells)@,
                *final(self),
                final(cells)@,
                StepOutcome::Fault(e),
            ),
    {
        let mut remaining: u64 = max_steps;
        let ghost mut steps: nat = 0;
        let ghost mut ms: Seq<FunctionController> = seq![*self];
        let ghost mut cs: Seq<Seq<Value>> = seq![cells@];
        let ghost mut rs: Seq<StepOutcome> = Seq::empty();
        while remaining > 0
            invariant
                self.wf(),
                self.table() == old(self).table(),
                steps + remaining == max_steps,
                is_trace(*old(self), old(cells)@, *self, cells@, steps, ms, cs, rs),
                ms.last() == *self,
                cs.last() == cells@,
            decreases remaining,
        {
            let ghost before = *self;
            let ghost cells_before = cells@;
            let r = self.step(cells, unit);
            match r {
                StepOutcome::Halted => {
                    assert(is_trace(*old(self), old(cells)@, *self, cells@, steps, ms, cs, rs));
                    assert(old(self).runs(old(cells)@, *self, cells@, steps));
                    return RunOutcome::Halted;
                },
                StepOutcome::Fault(e) => {
                    assert(before.performs(cells_before, *self, cells@, StepOutcome::Fault(e)));
                    assert(is_trace(*old(self), old(cells)@, *self, cells@, steps, ms, cs, rs));
                    assert(old(self).runs(old(cells)@, *self, cells@, steps));
                    return RunOutcome::Faulted(e);
                },
                _ => {},
            }
            proof {
                ms = ms.push(*self);
                cs = cs.push(cells@);
                rs = rs.push(r);
                steps = steps + 1;
                assert forall|i: int| 0 <= i < steps implies #[trigger] ms[i].performs(
                    cs[i],
                    ms[i + 1],
                    cs[i + 1],
                    rs[i],
                ) && !(rs[i] is Halted) && !(rs[i] is Fault) by {
                    if i < steps - 1 {
                        assert(ms[i] == ms.drop_last()[i]);
                    }
                }
                assert(is_trace(*old(self), old(cells)@, *self, cells@, steps, ms, cs, rs));
            }
            remaining = remaining - 1;
        }
        assert(is_trace(*old(self), old(cells)@, *self, cells@, steps, ms, cs, rs));
        assert(old(self).runs(old(cells)@, *self, cells@, steps));
        RunOutcome::StepLimit
    }

    /// Runs until every call has returned or a step faults (or an
    /// astronomically large step budget runs out).
    pub fn run<F: FloatUnit>(&mut self, cells: &mut Cells, unit: &F) -> (r: RunOutcome)
        requires
            old(self).wf(),
        ensures
            final(self).wf(),
            final(self).table() == old(self).table(),
            exists|n: nat|
                n <= u64::MAX && #[trigger] old(self).runs(
                    old(cells)@,
                    *final(self),
                    final(cells)@,
                    n,
                ) && (r is StepLimit ==> n == u64::MAX),
            r is Halted ==> final(self).contexts().len() == 0 && final(self).frames().len() == 0,
            r matches RunOutcome::Faulted(e) ==> final(self).performs(
                final(cells)@,
                *final(self),
                final(cells)@,
                StepOutcome::Fault(e),
            ),
    {
        self.run_for(cells, unit, u64::MAX)
    }
}

/// When the current instruction transfers control to an identifier absent
/// from the function table, the step faults with `UnknownFunction` and leaves
/// the calls, the frames and every cell as they were.
pub proof fn lemma_call_of_absent_function(
    m: FunctionController,
    cells: Seq<Value>,
    next: FunctionController,
    cells2: Seq<Value>,
    r: StepOutcome,
    f: usize,
)
    requires
        m.contexts().len() > 0,
        m.table().contains_key(m.contexts().last().current_fn),
        m.contexts().last().current_instruction < m.table()[m.contexts().last().current_fn].instructions.len(),
        m.table()[m.contexts().last().current_fn].instructions[m.contexts().last().current_instruction as int] matches Instruction::Control(op)
            && op.outcome(m.frames().last(), cells) == Step::Call(f),
        !m.table().contains_key(f),
        m.performs(cells, next, cells2, r),
    ensures
        r matches StepOutcome::Fault(e) && e.error.kind == FaultKind::UnknownFunction,
        next.contexts() == m.contexts(),
        next.frames() == m.frames(),
        cells2 == cells,
{
}

/// Whether `ms`, `cs` and `rs` record `n` steps that neither halt nor fault,
/// from `start` with the cells `cells` to a machine in the state of `next`
/// with the cells `cells2`: machine `ms[i]` with cells `cs[i]` performs a step
/// with outcome `rs[i]` to `ms[i + 1]` with `cs[i + 1]`.
pub open spec fn is_trace(
    start: FunctionController,
    cells: Seq<Value>,
    next: FunctionController,
    cells2: Seq<Value>,
    n: nat,
    ms: Seq<FunctionController>,
    cs: Seq<Seq<Value>>,
    rs: Seq<StepOutcome>,
) -> bool {
    &&& ms.len() == n + 1
    &&& cs.len() == n + 1
    &&& rs.len() == n
    &&& ms[0] == start
    &&& cs[0] == cells
    &&& ms[n as int].same_state(next)
    &&& cs[n as int] == cells2
    &&& forall|i: int|
        0 <= i < n ==> #[trigger] ms[i].performs(cs[i], ms[i + 1], cs[i + 1], rs[i]) && !(
        rs[i] is Halted) && !(rs[i] is Fault)
}

/// A run that stopped on a fault at an instruction that transfers control to
/// an identifier absent from the function table stopped with
/// `UnknownFunction`: the machine is left at that instruction, and its cells
/// are exactly those that the ordinary steps before it produced.
pub proof fn lemma_run_stops_at_absent_call(
    m: FunctionController,
    cells: Seq<Value>,
    last: FunctionController,
    last_cells: Seq<Value>,
    n: nat,
    e: MachineFault,
    g: usize,
)
    requires
        m.runs(cells, last, last_cells, n),
        last.performs(last_cells, last, last_cells, StepOutcome::Fault(e)),
        last.contexts().len() > 0,
        last.table().contains_key(last.contexts().last().current_fn),
        last.contexts().last().current_instruction < last.table()[last.contexts().last().current_fn].instructions.len(),
        last.table()[last.contexts().last().current_fn].instructions[last.contexts().last().current_instruction as int] matches Instruction::Control(op)
            && op.outcome(last.frames().last(), last_cells) == Step::Call(g),
        !last.table().contains_key(g),
    ensures
        e.error.kind == FaultKind::UnknownFunction,
        e.function == last.contexts().last().current_fn,
        e.instruction == last.contexts().last().current_instruction,
{
    lemma_call_of_absent_function(
        last,
        last_cells,
        last,
        last_cells,
        StepOutcome::Fault(e),
        g,
    );
}

} // verus!
