//! The compiler of plain statements.

use vstd::prelude::*;
use crate::compiler::function::{Function, lowered_as};
use crate::compiler::lowering::{
    Scope,
    CompileError,
    after,
    before,
    emit,
    lower_expression,
    lower_links,
    lower_statement,
    lower_statements,
    push_text,
};
use crate::compiler::rules::lemma_statement_kinds;
use crate::compiler::token::{lemma_views_index, token_view, Token, TokenView, name_of, token_views};
use crate::table::Table;
use crate::vm::instruction::{Instruction, InstructionView};
use crate::vm::value::Value;

verus! {

impl Function {
    /// Compiles a statement.
    pub(crate) fn compile_statement(&mut self, token: &Token, globals: &Table<usize>) -> (out: Result<
        (),
        CompileError,
    >)
        ensures
            lowered_as(
                old(self)@,
                final(self)@,
                out,
                lower_statement(old(self)@.scope(globals@), token@),
                globals@,
            ),
        decreases token, 3nat,
    {
        proof {
            reveal(token_view);
        }
        proof {
            lemma_statement_kinds(old(self)@.scope(globals@), *token);
        }
        match token {
            Token::Comment(_) => {
                assert(self@.code =~= old(self)@.code + Seq::empty());
                Ok(())
            },
            Token::Assert(value) => self.compile_assert(token, value, globals),
            Token::Print(value) => self.compile_print(token, value, globals),
            Token::Return(value) => self.compile_return(token, value, globals),
            Token::Call(_, _) => self.compile_expression(token, globals),
            Token::Chain(_, _) => self.compile_expression(token, globals),
            Token::Variable(name, value) => self.compile_variable(token, name, value, globals),
            Token::Assign(target, value) => self.compile_assignment(token, target, value, globals),
            Token::IfElse(condition, then_body, else_body) => self.compile_ifelse(
                token,
                condition,
                then_body,
                else_body,
                globals,
            ),
            Token::WhileLoop(condition, body) => self.compile_whileloop(
                token,
                condition,
                body,
                globals,
            ),
            Token::ForI(start, condition, step, body) => self.compile_forloop(
                token,
                start,
                condition,
                step,
                body,
                globals,
            ),
            Token::ForEach(item, array, body) => self.compile_foreach(
                token,
                item,
                array,
                body,
                globals,
            ),
            _ => Err(CompileError::Unsupported),
        }
    }

    /// Compiles statements one after the other, from position `from` on.
    pub(crate) fn compile_statements(&mut self, tokens: &Vec<Token>, from: usize, globals: &Table<usize>) -> (out:
        Result<(), CompileError>)
        ensures
            lowered_as(
                old(self)@,
                final(self)@,
                out,
                lower_statements(old(self)@.scope(globals@), token_views(tokens@), from as nat),
                globals@,
            ),
        decreases tokens, tokens.len() - from,
    {
        let ghost whole = lower_statements(
            old(self)@.scope(globals@),
            token_views(tokens@),
            from as nat,
        );
        let ghost mut emitted: Seq<InstructionView> = Seq::empty();
        let mut i: usize = from;
        proof {
            match whole {
                Ok((rest, _)) => {
                    assert(emitted + rest =~= rest);
                },
                Err(_) => {},
            }
            assert(self@.code =~= old(self)@.code + emitted);
        }
        while i < tokens.len()
            invariant
                from <= i,
                whole == lower_statements(
                    old(self)@.scope(globals@),
                    token_views(tokens@),
                    from as nat,
                ),
                self@.code == old(self)@.code + emitted,
                self@.name == old(self)@.name,
                self@.parameters == old(self)@.parameters,
                self@.statements == old(self)@.statements,
                match lower_statements(self@.scope(globals@), token_views(tokens@), i as nat) {
                    Ok((rest, end)) => whole == Ok::<(Seq<InstructionView>, Scope), CompileError>(
                        (emitted + rest, end),
                    ),
                    Err(error) => whole == Err::<(Seq<InstructionView>, Scope), CompileError>(
                        error,
                    ),
                },
            decreases tokens.len() - i,
        {
            let ghost start = self@.scope(globals@);
            proof {
                reveal(lower_statement);
                lemma_views_index(tokens@, i as int);
            }
            match self.compile_statement(&tokens[i], globals) {
                Err(error) => {
                    return Err(error);
                },
                Ok(_) => {},
            }
            proof {
                let piece = lower_statement(start, tokens[i as int]@)->Ok_0.0;
                match lower_statements(
                    self@.scope(globals@),
                    token_views(tokens@),
                    (i + 1) as nat,
                ) {
                    Ok((rest, _)) => {
                        assert(emitted + (piece + rest) =~= (emitted + piece) + rest);
                    },
                    Err(_) => {},
                }
                assert(self@.code =~= old(self)@.code + (emitted + piece));
                emitted = emitted + piece;
            }
            i += 1;
        }
        proof {
            assert(emitted + Seq::<InstructionView>::empty() =~= emitted);
        }
        Ok(())
    }

    /// Compiles an expression and the instruction that uses its value.
    pub(crate) fn compile_followed(
        &mut self,
        token: &Token,
        value: &Token,
        instruction: Instruction,
        globals: &Table<usize>,
    ) -> (out: Result<(), CompileError>)
        requires
            decreases_to!(token => value),
        ensures
            lowered_as(
                old(self)@,
                final(self)@,
                out,
                after(
                    lower_expression(old(self)@.scope(globals@), value@),
                    seq![instruction@],
                ),
                globals@,
            ),
        decreases token, 1nat,
    {
        proof {
            reveal(lower_expression);
            reveal(lower_statement);
        }
        match self.compile_expression(value, globals) {
            Err(error) => Err(error),
            Ok(_) => {
                self.emit(instruction);
                proof {
                    let rule = lower_expression(old(self)@.scope(globals@), value@)->Ok_0;
                    assert(self@.code =~= old(self)@.code + (rule.0 + seq![instruction@]));
                }
                Ok(())
            },
        }
    }

    /// Compiles `assert value`.
    pub(crate) fn compile_assert(&mut self, token: &Token, value: &Token, globals: &Table<usize>) -> (out: Result<
        (),
        CompileError,
    >)
        requires
            decreases_to!(token => value),
        ensures
            lowered_as(
                old(self)@,
                final(self)@,
                out,
                lower_statement(
                    old(self)@.scope(globals@),
                    TokenView::Assert(Box::new(value@)),
                ),
                globals@,
            ),
        decreases token, 2nat,
    {
        proof {
            reveal(lower_expression);
            reveal(lower_statement);
        }
        self.compile_followed(token, value, Instruction::Assert, globals)
    }

    /// Compiles `print value`.
    pub(crate) fn compile_print(&mut self, token: &Token, value: &Token, globals: &Table<usize>) -> (out: Result<
        (),
        CompileError,
    >)
        requires
            decreases_to!(token => value),
        ensures
            lowered_as(
                old(self)@,
                final(self)@,
                out,
                lower_statement(
                    old(self)@.scope(globals@),
                    TokenView::Print(Box::new(value@)),
                ),
                globals@,
            ),
        decreases token, 2nat,
    {
        proof {
            reveal(lower_expression);
            reveal(lower_statement);
        }
        self.compile_followed(token, value, Instruction::Print, globals)
    }

    /// Compiles `return value`.
    pub(crate) fn compile_return(&mut self, token: &Token, value: &Token, globals: &Table<usize>) -> (out: Result<
        (),
        CompileError,
    >)
        requires
            decreases_to!(token => value),
        ensures
            lowered_as(
                old(self)@,
                final(self)@,
                out,
                lower_statement(
                    old(self)@.scope(globals@),
                    TokenView::Return(Box::new(value@)),
                ),
                globals@,
            ),
        decreases token, 2nat,
    {
        proof {
            reveal(lower_expression);
            reveal(lower_statement);
        }
        self.compile_followed(token, value, Instruction::Return(true), globals)
    }

    /// Compiles `var name = value`.
    pub(crate) fn compile_variable(&mut self, token: &Token, name: &Token, value: &Token, globals: &Table<usize>) -> (out:
        Result<(), CompileError>)
        requires
            decreases_to!(token => value),
        ensures
            lowered_as(
                old(self)@,
                final(self)@,
                out,
                lower_statement(
                    old(self)@.scope(globals@),
                    TokenView::Variable(Box::new(name@), Box::new(value@)),
                ),
                globals@,
            ),
        decreases token, 2nat,
    {
        proof {
            reveal(lower_expression);
            reveal(lower_statement);
        }
        let slot = match self.add_variable(name.to_string(), Value::Null) {
            Ok(slot) => slot,
            Err(error) => {
                return Err(error);
            },
        };
        let ghost middle = self@;
        assert(middle.scope(globals@) == old(self)@.scope(globals@).declare(name_of(name@))->Ok_0);
        match self.compile_expression(value, globals) {
            Err(error) => Err(error),
            Ok(_) => {
                self.emit(Instruction::StoreLocalVariable(slot));
                proof {
                    let rule = lower_expression(middle.scope(globals@), value@)->Ok_0;
                    assert(self@.code =~= old(self)@.code + (rule.0 + seq![
                        InstructionView::StoreLocalVariable(slot),
                    ]));
                }
                Ok(())
            },
        }
    }

    /// Compiles an assignment to a variable, to an item of an array that a
    /// variable holds, or to a member at the end of a chain.
    pub(crate) fn compile_assignment(
        &mut self,
        token: &Token,
        target: &Token,
        value: &Token,
        globals: &Table<usize>,
    ) -> (out: Result<(), CompileError>)
        requires
            decreases_to!(token => target),
            decreases_to!(token => value),
        ensures
            lowered_as(
                old(self)@,
                final(self)@,
                out,
                lower_statement(
                    old(self)@.scope(globals@),
                    TokenView::Assign(Box::new(target@), Box::new(value@)),
                ),
                globals@,
            ),
        decreases token, 2nat,
    {
        proof {
            reveal(token_view);
            reveal(lower_expression);
            reveal(lower_statement);
        }
        match target {
            Token::Identifier(name) => {
                match self.get_variable(name) {
                    None => Err(CompileError::UnknownVariable),
                    Some(slot) => self.compile_followed(
                        token,
                        value,
                        Instruction::StoreLocalVariable(slot),
                        globals,
                    ),
                }
            },
            Token::ArrayIndex(array, index) => self.assign_item(
                token,
                array,
                index,
                value,
                globals,
            ),
            Token::Chain(root, rest) => self.assign_member(token, root, rest, value, globals),
            _ => Err(CompileError::Unsupported),
        }
    }

    /// Compiles `array[index] = value`.
    pub(crate) fn assign_item(
        &mut self,
        token: &Token,
        array: &Token,
        index: &Token,
        value: &Token,
        globals: &Table<usize>,
    ) -> (out: Result<(), CompileError>)
        requires
            decreases_to!(token => index),
            decreases_to!(token => value),
        ensures
            lowered_as(
                old(self)@,
                final(self)@,
                out,
                match old(self)@.scope(globals@).slot(name_of(array@)) {
                    None => Err(CompileError::UnknownVariable),
                    Some(slot) => match lower_expression(
                        old(self)@.scope(globals@).skip(1),
                        value@,
                    ) {
                        Err(error) => Err(error),
                        Ok((code, next)) => before(
                            seq![InstructionView::LoadLocalVariable(slot)] + code,
                            after(
                                lower_expression(next, index@),
                                seq![
                                    InstructionView::SetCollectionItemByKey,
                                    InstructionView::StoreLocalVariable(slot),
                                ],
                            ),
                        ),
                    },
                },
                globals@,
            ),
        decreases token, 1nat,
    {
        proof {
            reveal(lower_expression);
            reveal(lower_statement);
        }
        let name = array.to_string();
        let slot = match self.get_variable(&name) {
            Some(slot) => slot,
            None => {
                return Err(CompileError::UnknownVariable);
            },
        };
        self.emit(Instruction::LoadLocalVariable(slot));
        assert(self@.scope(globals@) == old(self)@.scope(globals@).skip(1));
        match self.compile_expression(value, globals) {
            Err(error) => {
                return Err(error);
            },
            Ok(_) => {},
        }
        let ghost middle = self@;
        match self.compile_expression(index, globals) {
            Err(error) => {
                return Err(error);
            },
            Ok(_) => {},
        }
        self.emit(Instruction::SetCollectionItemByKey);
        self.emit(Instruction::StoreLocalVariable(slot));
        proof {
            let first = lower_expression(old(self)@.scope(globals@).skip(1), value@)->Ok_0;
            let second = lower_expression(middle.scope(globals@), index@)->Ok_0;
            assert(self@.code =~= old(self)@.code + ((seq![
                InstructionView::LoadLocalVariable(slot),
            ] + first.0) + (second.0 + seq![
                InstructionView::SetCollectionItemByKey,
                InstructionView::StoreLocalVariable(slot),
            ])));
        }
        Ok(())
    }

    /// Compiles `root.a.b = value`: the chain up to the last dot gives the
    /// object, and the last name is the member that is set.
    pub(crate) fn assign_member(
        &mut self,
        token: &Token,
        root: &Token,
        rest: &Vec<Token>,
        value: &Token,
        globals: &Table<usize>,
    ) -> (out: Result<(), CompileError>)
        requires
            decreases_to!(token => root),
            decreases_to!(token => rest),
            decreases_to!(token => value),
        ensures
            lowered_as(
                old(self)@,
                final(self)@,
                out,
                lower_statement(
                    old(self)@.scope(globals@),
                    TokenView::Assign(
                        Box::new(TokenView::Chain(Box::new(root@), token_views(rest@))),
                        Box::new(value@),
                    ),
                ),
                globals@,
            ),
        decreases token, 1nat,
    {
        proof {
            reveal(token_view);
            reveal(lower_expression);
            reveal(lower_statement);
        }
        if rest.len() == 0 {
            return Err(CompileError::Unsupported);
        }
        let member = match &rest[rest.len() - 1] {
            Token::Identifier(member) => member.clone(),
            _ => {
                return Err(CompileError::Unsupported);
            },
        };
        assert(token_views(rest@).last() == rest[rest.len() - 1]@);
        match self.compile_expression(root, globals) {
            Err(error) => {
                return Err(error);
            },
            Ok(_) => {},
        }
        let ghost reached = self@;
        let name = root.to_string();
        match self.compile_links(&name, rest, 0, rest.len() - 1, globals) {
            Err(error) => {
                return Err(error);
            },
            Ok(_) => {},
        }
        let ghost held = self@;
        match self.compile_expression(value, globals) {
            Err(error) => {
                return Err(error);
            },
            Ok(_) => {},
        }
        self.push_text(member);
        self.emit(Instruction::SetCollectionItemByKey);
        self.emit(Instruction::Pop(1));
        proof {
            let start = lower_expression(old(self)@.scope(globals@), root@)->Ok_0;
            let middle = lower_links(
                reached.scope(globals@),
                name@,
                token_views(rest@),
                0,
                (rest.len() - 1) as nat,
            )->Ok_0;
            let last = lower_expression(held.scope(globals@), value@)->Ok_0;
            assert(self@.code =~= old(self)@.code + ((start.0 + middle.0) + (last.0 + seq![
                push_text(member@),
                InstructionView::SetCollectionItemByKey,
                InstructionView::Pop(1),
            ])));
        }
        Ok(())
    }
}

} // verus!
