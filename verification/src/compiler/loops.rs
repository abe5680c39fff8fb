//! The compiler of `while` and of `for` with a counter.

use vstd::prelude::*;
use crate::compiler::function::{Function, FunctionView, lowered_as, distance};
use crate::compiler::lowering::{
    CompileError,
    emit,
    jumpable,
    lower_expression,
    lower_statement,
    lower_statements,
    repetition,
};
use crate::compiler::token::{token_view, Token, TokenView, token_views};
use crate::table::Table;
use crate::vm::instruction::{Instruction, InstructionView};

verus! {

impl Function {
    /// Closes a loop whose condition starts at `start` and whose jump out
    /// stands at `exit`: emits the jump back and gives the jump out its
    /// distance.
    pub(crate) fn close_loop(&mut self, start: usize, exit: usize) -> (out: Result<(), CompileError>)
        requires
            start <= exit < old(self)@.code.len(),
        ensures
            match out {
                Ok(_) => {
                    &&& jumpable((old(self)@.code.len() - start + 1) as nat)
                    &&& final(self)@ == (FunctionView {
                        code: old(self)@.code.update(
                            exit as int,
                            InstructionView::JumpIfFalse(
                                (old(self)@.code.len() - exit + 1) as i64,
                            ),
                        ).push(InstructionView::Jump(-(old(self)@.code.len() - start) as i64)),
                        ..old(self)@
                    })
                },
                Err(error) => error == CompileError::TooLarge && !jumpable(
                    (old(self)@.code.len() - start + 1) as nat,
                ),
            },
    {
        let here = self.offset();
        match distance(here - start) {
            None => Err(CompileError::TooLarge),
            Some(span) => {
                if span == i64::MAX {
                    return Err(CompileError::TooLarge);
                }
                let out_of: i64 = (here - exit) as i64 + 1;
                self.patch(exit, Instruction::JumpIfFalse(out_of));
                self.emit(Instruction::Jump(-span));
                Ok(())
            },
        }
    }

    /// Compiles `while`.
    pub(crate) fn compile_whileloop(
        &mut self,
        token: &Token,
        condition: &Token,
        body: &Vec<Token>,
        globals: &Table<usize>,
    ) -> (out: Result<(), CompileError>)
        requires
            decreases_to!(token => condition),
            decreases_to!(token => body),
        ensures
            lowered_as(
                old(self)@,
                final(self)@,
                out,
                lower_statement(
                    old(self)@.scope(globals@),
                    TokenView::WhileLoop(Box::new(condition@), token_views(body@)),
                ),
                globals@,
            ),
        decreases token, 2nat,
    {
        proof {
            reveal(lower_expression);
            reveal(lower_statement);
        }
        let start = self.offset();
        match self.compile_expression(condition, globals) {
            Err(error) => {
                return Err(error);
            },
            Ok(_) => {},
        }
        let ghost tested = self@;
        let exit = self.offset();
        self.emit(Instruction::JumpIfFalse(0));
        assert(self@.scope(globals@) == tested.scope(globals@).skip(1));
        match self.compile_statements(body, 0, globals) {
            Err(error) => {
                return Err(error);
            },
            Ok(_) => {},
        }
        match self.close_loop(start, exit) {
            Err(error) => Err(error),
            Ok(_) => {
                proof {
                    let test = lower_expression(old(self)@.scope(globals@), condition@)->Ok_0;
                    let inner = lower_statements(
                        tested.scope(globals@).skip(1),
                        token_views(body@),
                        0,
                    )->Ok_0;
                    assert(self@.code =~= old(self)@.code + repetition(test.0, inner.0));
                }
                Ok(())
            },
        }
    }

    /// Compiles `for (start; condition; step)`.
    pub(crate) fn compile_forloop(
        &mut self,
        token: &Token,
        first: &Token,
        condition: &Token,
        step: &Token,
        body: &Vec<Token>,
        globals: &Table<usize>,
    ) -> (out: Result<(), CompileError>)
        requires
            decreases_to!(token => first),
            decreases_to!(token => condition),
            decreases_to!(token => step),
            decreases_to!(token => body),
        ensures
            lowered_as(
                old(self)@,
                final(self)@,
                out,
                lower_statement(
                    old(self)@.scope(globals@),
                    TokenView::ForI(
                        Box::new(first@),
                        Box::new(condition@),
                        Box::new(step@),
                        token_views(body@),
                    ),
                ),
                globals@,
            ),
        decreases token, 2nat,
    {
        proof {
            reveal(lower_expression);
            reveal(lower_statement);
        }
        match self.compile_statement(first, globals) {
            Err(error) => {
                return Err(error);
            },
            Ok(_) => {},
        }
        let ghost begun = self@;
        let start = self.offset();
        match self.compile_expression(condition, globals) {
            Err(error) => {
                return Err(error);
            },
            Ok(_) => {},
        }
        let ghost tested = self@;
        let exit = self.offset();
        self.emit(Instruction::JumpIfFalse(0));
        assert(self@.scope(globals@) == tested.scope(globals@).skip(1));
        match self.compile_statements(body, 0, globals) {
            Err(error) => {
                return Err(error);
            },
            Ok(_) => {},
        }
        let ghost left = self@;
        match self.compile_statement(step, globals) {
            Err(error) => {
                return Err(error);
            },
            Ok(_) => {},
        }
        match self.close_loop(start, exit) {
            Err(error) => Err(error),
            Ok(_) => {
                proof {
                    let init = lower_statement(old(self)@.scope(globals@), first@)->Ok_0;
                    let test = lower_expression(begun.scope(globals@), condition@)->Ok_0;
                    let inner = lower_statements(
                        tested.scope(globals@).skip(1),
                        token_views(body@),
                        0,
                    )->Ok_0;
                    let last = lower_statement(left.scope(globals@), step@)->Ok_0;
                    assert(self@.code =~= old(self)@.code + (init.0 + repetition(
                        test.0,
                        inner.0 + last.0,
                    )));
                }
                Ok(())
            },
        }
    }
}

} // verus!
