use vstd::prelude::*;

verus! {

/// A request from an instruction to transfer control.
#[derive(Clone, Copy, Debug, PartialEq, Eq, Structural)]
pub enum InstructionControl {
    /// Invoke the function with this identifier next.
    Call(usize),
}

} // verus!
