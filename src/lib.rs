//! A stack-based bytecode virtual machine whose execution engine is verified.
//!
//! Programs are tables of functions; each function is a list of instructions
//! that work on the operand frame of its own call. Calls open a new frame that
//! receives copies of the caller's top values, and returns carry the callee's
//! top values back onto the caller's frame.
pub mod control;
pub mod control_op;
pub mod data_type;
pub mod function;
pub mod instruction;
pub mod math_op;
pub mod numeric;
pub mod ptr;
pub mod stack;
pub mod stack_op;
pub mod type_op;
pub mod value;
