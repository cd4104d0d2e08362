use vstd::prelude::*;

use crate::data_type::{DataType, Typed};
use crate::numeric::Numeric;
use crate::ptr::{Cells, Ptr};

verus! {

/// A value of the machine.
#[derive(Clone, Debug)]
pub enum Value {
    Str(String),
    Numeric(Numeric),
    Bool(bool),
    Ptr(Ptr),
}

impl Value {
    /// A copy of this value.
    pub fn clone_value(&self) -> (r: Value)
        ensures
            r == *self,
    {
        match self {
            Value::Str(s) => Value::Str(s.clone()),
            Value::Numeric(n) => Value::Numeric(*n),
            Value::Bool(b) => Value::Bool(*b),
            Value::Ptr(p) => Value::Ptr(*p),
        }
    }
}

impl Typed for Value {
    open spec fn data_type(&self) -> DataType {
        match self {
            Value::Str(_) => DataType::Str,
            Value::Numeric(_) => DataType::Int32,
            Value::Bool(_) => DataType::Bool,
            Value::Ptr(_) => DataType::Ptr,
        }
    }

    fn get_type(&self) -> (r: DataType) {
        match self {
            Value::Str(_) => DataType::Str,
            Value::Numeric(_) => DataType::Int32,
            Value::Bool(_) => DataType::Bool,
            Value::Ptr(_) => DataType::Ptr,
        }
    }
}

/// An operand reference: a description of a value that is resolved when the
/// instruction that holds it runs.
#[derive(Clone, Debug)]
pub enum ValueType {
    /// The current contents of a pointer's cell.
    Ptr(Ptr),
    /// An immediate value.
    Value(Value),
    /// The top value of the current frame, peeked and not popped.
    StackValue,
}

impl ValueType {
    /// The value this reference resolves to, given the top of the current
    /// frame and the cells.
    pub open spec fn resolve(self, top: Option<Value>, cells: Seq<Value>) -> Option<Value> {
        match self {
            ValueType::Ptr(p) => if p.cell < cells.len() {
                Some(cells[p.cell as int])
            } else {
                None
            },
            ValueType::Value(v) => Some(v),
            ValueType::StackValue => top,
        }
    }

    pub fn to_value(&self, last_stack_value: Option<&Value>, cells: &Cells) -> (r: Option<Value>)
        ensures
            r == self.resolve(
                match last_stack_value {
                    Some(v) => Some(*v),
                    None => None,
                },
                cells@,
            ),
    {
        match self {
            ValueType::Ptr(p) => cells.read(*p),
            ValueType::Value(v) => Some(v.clone_value()),
            ValueType::StackValue => match last_stack_value {
                Some(v) => Some(v.clone_value()),
                None => None,
            },
        }
    }
}

} // verus!
