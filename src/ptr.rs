use vstd::prelude::*;

use crate::data_type::{DataType, Typed};
use crate::value::Value;

verus! {

/// A handle to one cell of a [`Cells`] store. Every copy of a pointer names
/// the same cell, so a write through one is seen through all.
#[derive(Clone, Copy, Debug, PartialEq, Eq, Structural)]
pub struct Ptr {
    pub cell: usize,
}

/// The store of shared, mutable cells that pointers refer to. Cells are never
/// removed, so a pointer stays valid for as long as the store lives.
#[derive(Debug)]
pub struct Cells {
    values: Vec<Value>,
}

impl View for Cells {
    type V = Seq<Value>;

    closed spec fn view(&self) -> Seq<Value> {
        self.values@
    }
}

impl Ptr {
    /// Allocates a new cell holding `value` and points to it.
    pub fn new(cells: &mut Cells, value: Value) -> (r: Ptr)
        ensures
            final(cells)@ == old(cells)@.push(value),
            r.cell == old(cells)@.len(),
    {
        let cell = cells.values.len();
        cells.values.push(value);
        Ptr { cell }
    }
}

impl Cells {
    pub fn new() -> (r: Cells)
        ensures
            r@ == Seq::<Value>::empty(),
    {
        Cells { values: Vec::new() }
    }

    pub fn len(&self) -> (r: usize)
        ensures
            r == self@.len(),
    {
        self.values.len()
    }

    /// A copy of the contents of `p`'s cell; `None` when `p` names no cell.
    pub fn read(&self, p: Ptr) -> (r: Option<Value>)
        ensures
            r == if p.cell < self@.len() {
                Some(self@[p.cell as int])
            } else {
                None
            },
    {
        if p.cell < self.values.len() {
            Some(self.values[p.cell].clone_value())
        } else {
            None
        }
    }

    /// The coarse kind of the value in `p`'s cell; `None` when `p` names no
    /// cell.
    pub fn get_type(&self, p: Ptr) -> (r: Option<DataType>)
        ensures
            r == if p.cell < self@.len() {
                Some(self@[p.cell as int].data_type())
            } else {
                None
            },
    {
        if p.cell < self.values.len() {
            Some(self.values[p.cell].get_type())
        } else {
            None
        }
    }

    /// Replaces the contents of `p`'s cell; `false`, with nothing changed, when
    /// `p` names no cell.
    pub fn write(&mut self, p: Ptr, value: Value) -> (r: bool)
        ensures
            r == (p.cell < old(self)@.len()),
            r ==> final(self)@ == old(self)@.update(p.cell as int, value),
            !r ==> final(self)@ == old(self)@,
    {
        if p.cell < self.values.len() {
            self.values.set(p.cell, value);
            true
        } else {
            false
        }
    }
}

} // verus!
