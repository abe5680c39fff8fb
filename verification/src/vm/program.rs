//! The program container.

use vstd::prelude::*;
use crate::table::Table;
use crate::vm::instruction::{Instruction, InstructionView, code};
use crate::vm::store::{Store, CellView};
use crate::vm::value::{Value, ValueView, views};

verus! {

/// A compiled program: the instructions of all its functions one after the
/// other, the place where each function starts, the global values by index,
/// and the cells that the globals point to.
pub struct Program {
    pub instructions: Vec<Instruction>,
    pub symbols: Table<usize>,
    pub globals: Vec<Value>,
    pub store: Store,
}

/// The model of a [`Program`].
pub struct ProgramView {
    pub instructions: Seq<InstructionView>,
    pub symbols: Seq<(Seq<char>, usize)>,
    pub globals: Seq<ValueView>,
    pub store: Seq<CellView>,
}

impl View for Program {
    type V = ProgramView;

    open spec fn view(&self) -> ProgramView {
        ProgramView {
            instructions: code(self.instructions@),
            symbols: self.symbols@,
            globals: views(self.globals@),
            store: self.store@,
        }
    }
}

impl Program {
    /// The empty program.
    pub fn new() -> (out: Self)
        ensures
            out@ == (ProgramView {
                instructions: Seq::empty(),
                symbols: Seq::empty(),
                globals: Seq::empty(),
                store: Seq::empty(),
            }),
    {
        let out = Program {
            instructions: Vec::new(),
            symbols: Table::new(),
            globals: Vec::new(),
            store: Store::new(),
        };
        assert(out@.instructions =~= Seq::empty());
        assert(out@.globals =~= Seq::empty());
        out
    }

    /// Adds a global value and returns its index.
    pub fn insert_global(&mut self, value: Value) -> (index: usize)
        ensures
            index == old(self)@.globals.len(),
            final(self)@ == (ProgramView {
                globals: old(self)@.globals.push(value@),
                ..old(self)@
            }),
    {
        self.globals.push(value);
        assert(views(self.globals@) =~= views(old(self).globals@).push(value@));
        self.globals.len() - 1
    }

    /// Records that the function `name` starts at `index`.
    pub fn insert_into_symbols(&mut self, name: String, index: usize)
        ensures
            final(self)@ == (ProgramView {
                symbols: crate::table::bind(old(self)@.symbols, name@, index),
                ..old(self)@
            }),
    {
        self.symbols.insert(name, index);
    }
}

} // verus!
