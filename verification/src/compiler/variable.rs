//! A local variable of a function that is being compiled.

use vstd::prelude::*;
use crate::vm::value::{Value, ValueView};

verus! {

/// A local variable: its name, its slot, and the value it starts with.
pub struct Variable {
    pub name: String,
    pub index: usize,
    pub value: Value,
}

/// The model of a [`Variable`].
pub struct VariableView {
    pub name: Seq<char>,
    pub index: usize,
    pub value: ValueView,
}

impl View for Variable {
    type V = VariableView;

    open spec fn view(&self) -> VariableView {
        VariableView { name: self.name@, index: self.index, value: self.value@ }
    }
}

impl Variable {
    /// A variable of the given parts.
    pub fn new(name: String, index: usize, value: Value) -> (out: Variable)
        ensures
            out@ == (VariableView { name: name@, index, value: value@ }),
    {
        Variable { name, index, value }
    }
}

} // verus!
