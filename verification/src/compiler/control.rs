//! The compiler of `if`.

use vstd::prelude::*;
use crate::compiler::function::{Function, lowered_as, distance};
use crate::compiler::lowering::{
    CompileError,
    conditional,
    emit,
    lower_else,
    lower_expression,
    lower_statement,
    lower_statements,
};
use crate::compiler::token::{token_view, Token, TokenView, token_views};
use crate::table::Table;
use crate::vm::instruction::Instruction;

verus! {

impl Function {
    /// Compiles the statements under `else`, if there are any.
    pub(crate) fn compile_else(&mut self, token: &Token, body: &Option<Vec<Token>>, globals: &Table<usize>) -> (out:
        Result<(), CompileError>)
        requires
            decreases_to!(token => body),
        ensures
            lowered_as(
                old(self)@,
                final(self)@,
                out,
                lower_else(
                    old(self)@.scope(globals@),
                    match body {
                        Some(statements) => Some(token_views(statements@)),
                        None => None,
                    },
                ),
                globals@,
            ),
        decreases token, 0nat,
    {
        proof {
            reveal(token_view);
            reveal(lower_expression);
            reveal(lower_statement);
        }
        match body {
            Some(statements) => self.compile_statements(statements, 0, globals),
            None => {
                assert(self@.code =~= old(self)@.code + Seq::empty());
                Ok(())
            },
        }
    }

    /// Compiles `if`: the two jumps are emitted with no distance and get
    /// theirs when both branches are there.
    pub(crate) fn compile_ifelse(
        &mut self,
        token: &Token,
        condition: &Token,
        then_body: &Vec<Token>,
        else_body: &Option<Vec<Token>>,
        globals: &Table<usize>,
    ) -> (out: Result<(), CompileError>)
        requires
            decreases_to!(token => condition),
            decreases_to!(token => then_body),
            decreases_to!(token => else_body),
        ensures
            lowered_as(
                old(self)@,
                final(self)@,
                out,
                lower_statement(
                    old(self)@.scope(globals@),
                    TokenView::IfElse(
                        Box::new(condition@),
                        token_views(then_body@),
                        match else_body {
                            Some(statements) => Some(token_views(statements@)),
                            None => None,
                        },
                    ),
                ),
                globals@,
            ),
        decreases token, 2nat,
    {
        proof {
            reveal(token_view);
            reveal(lower_expression);
            reveal(lower_statement);
        }
        match self.compile_expression(condition, globals) {
            Err(error) => {
                return Err(error);
            },
            Ok(_) => {},
        }
        let ghost tested = self@;
        let jump_to_else = self.offset();
        self.emit(Instruction::JumpIfFalse(0));
        assert(self@.scope(globals@) == tested.scope(globals@).skip(1));
        match self.compile_statements(then_body, 0, globals) {
            Err(error) => {
                return Err(error);
            },
            Ok(_) => {},
        }
        let ghost left = self@;
        let jump_to_end = self.offset();
        self.emit(Instruction::Jump(0));
        assert(self@.scope(globals@) == left.scope(globals@).skip(1));
        match self.compile_else(token, else_body, globals) {
            Err(error) => {
                return Err(error);
            },
            Ok(_) => {},
        }
        let end = self.offset();
        let over_then = distance(jump_to_end - jump_to_else + 1);
        let over_else = distance(end - jump_to_end);
        match (over_then, over_else) {
            (Some(first), Some(second)) => {
                self.patch(jump_to_else, Instruction::JumpIfFalse(first));
                self.patch(jump_to_end, Instruction::Jump(second));
                proof {
                    let test = lower_expression(old(self)@.scope(globals@), condition@)->Ok_0;
                    let one = lower_statements(
                        tested.scope(globals@).skip(1),
                        token_views(then_body@),
                        0,
                    )->Ok_0;
                    let two = lower_else(
                        left.scope(globals@).skip(1),
                        match else_body {
                            Some(statements) => Some(token_views(statements@)),
                            None => None,
                        },
                    )->Ok_0;
                    assert(self@.code =~= old(self)@.code + conditional(test.0, one.0, two.0));
                }
                Ok(())
            },
            _ => Err(CompileError::TooLarge),
        }
    }
}

} // verus!
