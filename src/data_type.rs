use vstd::prelude::*;

verus! {

/// The coarse kind of a value.
#[derive(Clone, Copy, PartialEq, Eq, Debug, Structural)]
pub enum DataType {
    Str,
    Int32,
    Bool,
    Ptr,
}

/// Values that can report their coarse kind.
pub trait Typed {
    spec fn data_type(&self) -> DataType;

    fn get_type(&self) -> (r: DataType)
        ensures
            r == self.data_type(),
    ;
}

} // verus!
