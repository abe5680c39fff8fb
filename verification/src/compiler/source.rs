//! The array that a `for` runs over.

use vstd::prelude::*;
use crate::compiler::function::Function;
use crate::compiler::lowering::{
    CompileError,
    declared,
    emit,
    lower_expression,
    lower_source,
    lower_statement,
    source_slot,
    temporary_name,
};
use crate::compiler::token::{token_view, Token, lemma_identifier};
use crate::table::Table;
use crate::vm::instruction::{Instruction, InstructionView};
use crate::vm::value::Value;

verus! {

impl Function {
    /// Finds the slot of the array of a `for (item in array)`, computing the
    /// array into a temporary where it is no variable.
    pub(crate) fn compile_source(&mut self, token: &Token, array: &Token, globals: &Table<usize>) -> (out: Result<
        usize,
        CompileError,
    >)
        requires
            decreases_to!(token => array),
        ensures
            match lower_source(
                old(self)@.scope(globals@),
                array@,
                lower_expression(
                    match old(self)@.scope(globals@).declare(
                        temporary_name("arr"@, old(self)@.code.len()),
                    ) {
                        Ok(declared) => declared,
                        Err(_) => old(self)@.scope(globals@),
                    },
                    array@,
                ),
            ) {
                Ok((code, scope)) => {
                    &&& out == Ok::<usize, CompileError>(
                        source_slot(old(self)@.scope(globals@), array@),
                    )
                    &&& final(self)@.code == old(self)@.code + code
                    &&& final(self)@.scope(globals@) == scope
                    &&& final(self)@.name == old(self)@.name
                    &&& final(self)@.parameters == old(self)@.parameters
                    &&& final(self)@.statements == old(self)@.statements
                },
                Err(error) => out == Err::<usize, CompileError>(error),
            },
        decreases token, 0nat,
    {
        proof {
            reveal(token_view);
            reveal(lower_expression);
            reveal(lower_statement);
        }
        match array {
            Token::Identifier(name) => {
                match self.get_variable(name) {
                    Some(slot) => {
                        assert(self@.code =~= old(self)@.code + Seq::empty());
                        Ok(slot)
                    },
                    None => Err(CompileError::UnknownVariable),
                }
            },
            _ => {
                proof {
                    lemma_identifier(*array);
                }
                let name = self.temporary("arr");
                let slot = match self.add_variable(name, Value::Null) {
                    Ok(slot) => slot,
                    Err(error) => {
                        return Err(error);
                    },
                };
                let ghost declared = self@;
                match self.compile_expression(array, globals) {
                    Err(error) => Err(error),
                    Ok(_) => {
                        self.emit(Instruction::StoreLocalVariable(slot));
                        proof {
                            let rule = lower_expression(declared.scope(globals@), array@)->Ok_0;
                            assert(self@.code =~= old(self)@.code + (rule.0 + seq![
                                InstructionView::StoreLocalVariable(slot),
                            ]));
                        }
                        Ok(slot)
                    },
                }
            },
        }
    }
}

} // verus!
