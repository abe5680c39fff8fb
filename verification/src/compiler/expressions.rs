//! The compiler of expressions.

use vstd::prelude::*;
use vstd::string::StringExecFns;
use crate::compiler::function::{Function, lowered_as};
use crate::compiler::lowering::{
    Scope,
    CompileError,
    after,
    binary,
    constructor_name,
    emit,
    lower_expression,
    lower_expressions,
    lower_items,
    lower_links,
    lower_pairs,
    lower_statement,
    push_text,
};
use crate::compiler::rules::{lemma_binary_rules, lemma_expression_kinds};
use crate::compiler::token::{lemma_views_index, token_view, Token, TokenView, name_of, token_views};
use crate::table::Table;
use crate::vm::instruction::{Instruction, InstructionView, Literal, LiteralView};
use crate::vm::value::Value;

verus! {

impl Function {
    /// Compiles an expression.
    pub(crate) fn compile_expression(&mut self, token: &Token, globals: &Table<usize>) -> (out: Result<
        (),
        CompileError,
    >)
        ensures
            lowered_as(
                old(self)@,
                final(self)@,
                out,
                lower_expression(old(self)@.scope(globals@), token@),
                globals@,
            ),
        decreases token, 1nat,
    {
        proof {
            reveal(token_view);
        }
        proof {
            lemma_expression_kinds(old(self)@.scope(globals@), *token);
            match token {
                Token::Eq(left, right)
                | Token::Ne(left, right)
                | Token::Lt(left, right)
                | Token::Le(left, right)
                | Token::Gt(left, right)
                | Token::Ge(left, right)
                | Token::Add(left, right)
                | Token::Sub(left, right)
                | Token::Mul(left, right)
                | Token::Div(left, right)
                | Token::Pow(left, right) => {
                    lemma_binary_rules(old(self)@.scope(globals@), left@, right@);
                },
                _ => {},
            }
        }
        match token {
            Token::Null => self.compile_one(Instruction::StackPush(Literal::Null), globals),
            Token::Integer(i) => self.compile_one(
                Instruction::StackPush(Literal::Integer(*i)),
                globals,
            ),
            Token::Float(text) => self.compile_one(
                Instruction::StackPush(Literal::Float(text.clone())),
                globals,
            ),
            Token::Bool(b) => self.compile_one(Instruction::StackPush(Literal::Bool(*b)), globals),
            Token::String(text) => self.compile_one(
                Instruction::StackPush(Literal::String(text.clone())),
                globals,
            ),
            Token::Identifier(name) => self.compile_identifier(name, globals),
            Token::Array(items) => self.compile_array(token, items, globals),
            Token::Dictionary(pairs) => self.compile_dictionary(token, pairs, globals),
            Token::Object(class, arguments) => self.compile_new_object(
                token,
                class,
                arguments,
                globals,
            ),
            Token::ArrayIndex(array, index) => self.compile_index(token, array, index, globals),
            Token::Call(callee, arguments) => self.compile_call(token, callee, arguments, globals),
            Token::Chain(root, rest) => self.compile_chain(token, root, rest, globals),
            Token::AnonFunction(parameters, statements) => self.compile_literal_function(
                token,
                parameters,
                statements,
                globals,
            ),
            Token::Eq(left, right) => self.compile_binary(
                token,
                left,
                right,
                Instruction::Equal,
                globals,
            ),
            Token::Ne(left, right) => self.compile_binary(
                token,
                left,
                right,
                Instruction::NotEqual,
                globals,
            ),
            Token::Lt(left, right) => self.compile_binary(
                token,
                left,
                right,
                Instruction::LessThan,
                globals,
            ),
            Token::Le(left, right) => self.compile_binary(
                token,
                left,
                right,
                Instruction::LessThanOrEqual,
                globals,
            ),
            Token::Gt(left, right) => self.compile_binary(
                token,
                left,
                right,
                Instruction::GreaterThan,
                globals,
            ),
            Token::Ge(left, right) => self.compile_binary(
                token,
                left,
                right,
                Instruction::GreaterThanOrEqual,
                globals,
            ),
            Token::Add(left, right) => self.compile_binary(
                token,
                left,
                right,
                Instruction::Add,
                globals,
            ),
            Token::Sub(left, right) => self.compile_binary(
                token,
                left,
                right,
                Instruction::Sub,
                globals,
            ),
            Token::Mul(left, right) => self.compile_binary(
                token,
                left,
                right,
                Instruction::Multiply,
                globals,
            ),
            Token::Div(left, right) => self.compile_binary(
                token,
                left,
                right,
                Instruction::Divide,
                globals,
            ),
            Token::Pow(left, right) => self.compile_binary(
                token,
                left,
                right,
                Instruction::Pow,
                globals,
            ),
            _ => Err(CompileError::Unsupported),
        }
    }

    /// Compiles a binary operator: the left operand, the right operand, the
    /// operator.
    pub(crate) fn compile_binary(
        &mut self,
        token: &Token,
        left: &Token,
        right: &Token,
        operator: Instruction,
        globals: &Table<usize>,
    ) -> (out: Result<(), CompileError>)
        requires
            decreases_to!(token => left),
            decreases_to!(token => right),
        ensures
            lowered_as(
                old(self)@,
                final(self)@,
                out,
                binary(old(self)@.scope(globals@), left@, right@, operator@),
                globals@,
            ),
        decreases token, 0nat,
    {
        proof {
            reveal(lower_expression);
            reveal(lower_statement);
        }
        match self.compile_expression(left, globals) {
            Err(error) => {
                return Err(error);
            },
            Ok(_) => {},
        }
        let ghost middle = self@;
        match self.compile_expression(right, globals) {
            Err(error) => {
                return Err(error);
            },
            Ok(_) => {},
        }
        self.emit(operator);
        proof {
            let first = lower_expression(old(self)@.scope(globals@), left@)->Ok_0;
            let second = lower_expression(middle.scope(globals@), right@)->Ok_0;
            assert(self@.code =~= old(self)@.code + (first.0 + (second.0 + seq![operator@])));
        }
        Ok(())
    }

    /// Compiles expressions one after the other, from position `from` on.
    pub(crate) fn compile_expressions(&mut self, tokens: &Vec<Token>, from: usize, globals: &Table<usize>) -> (out:
        Result<(), CompileError>)
        ensures
            lowered_as(
                old(self)@,
                final(self)@,
                out,
                lower_expressions(old(self)@.scope(globals@), token_views(tokens@), from as nat),
                globals@,
            ),
        decreases tokens, tokens.len() - from,
    {
        let ghost whole = lower_expressions(
            old(self)@.scope(globals@),
            token_views(tokens@),
            from as nat,
        );
        let ghost mut emitted: Seq<InstructionView> = Seq::empty();
        let mut i: usize = from;
        proof {
            match whole {
                Ok((rest, _)) => {
                    assert(emitted + rest =~= rest);
                },
                Err(_) => {},
            }
            assert(self@.code =~= old(self)@.code + emitted);
        }
        while i < tokens.len()
            invariant
                from <= i,
                whole == lower_expressions(
                    old(self)@.scope(globals@),
                    token_views(tokens@),
                    from as nat,
                ),
                self@.code == old(self)@.code + emitted,
                self@.name == old(self)@.name,
                self@.parameters == old(self)@.parameters,
                self@.statements == old(self)@.statements,
                match lower_expressions(self@.scope(globals@), token_views(tokens@), i as nat) {
                    Ok((rest, end)) => whole == Ok::<(Seq<InstructionView>, Scope), CompileError>(
                        (emitted + rest, end),
                    ),
                    Err(error) => whole == Err::<(Seq<InstructionView>, Scope), CompileError>(
                        error,
                    ),
                },
            decreases tokens.len() - i,
        {
            let ghost start = self@;
            proof {
                reveal(lower_expression);
                reveal(token_view);
                lemma_views_index(tokens@, i as int);
            }
            match self.compile_expression(&tokens[i], globals) {
                Err(error) => {
                    return Err(error);
                },
                Ok(_) => {},
            }
            proof {
                let piece = lower_expression(start.scope(globals@), tokens[i as int]@)->Ok_0.0;
                match lower_expressions(self@.scope(globals@), token_views(tokens@), (i + 1) as nat) {
                    Ok((rest, _)) => {
                        assert(emitted + (piece + rest) =~= (emitted + piece) + rest);
                    },
                    Err(_) => {},
                }
                assert(self@.code =~= old(self)@.code + (emitted + piece));
                emitted = emitted + piece;
            }
            i += 1;
        }
        proof {
            assert(emitted + Seq::<InstructionView>::empty() =~= emitted);
        }
        Ok(())
    }

    /// Compiles the items of an array literal, from position `from` on.
    pub(crate) fn compile_items(&mut self, tokens: &Vec<Token>, from: usize, globals: &Table<usize>) -> (out:
        Result<(), CompileError>)
        ensures
            lowered_as(
                old(self)@,
                final(self)@,
                out,
                lower_items(old(self)@.scope(globals@), token_views(tokens@), from as nat),
                globals@,
            ),
        decreases tokens, tokens.len() - from,
    {
        let ghost whole = lower_items(
            old(self)@.scope(globals@),
            token_views(tokens@),
            from as nat,
        );
        let ghost mut emitted: Seq<InstructionView> = Seq::empty();
        let mut i: usize = from;
        proof {
            match whole {
                Ok((rest, _)) => {
                    assert(emitted + rest =~= rest);
                },
                Err(_) => {},
            }
            assert(self@.code =~= old(self)@.code + emitted);
        }
        while i < tokens.len()
            invariant
                from <= i,
                whole == lower_items(
                    old(self)@.scope(globals@),
                    token_views(tokens@),
                    from as nat,
                ),
                self@.code == old(self)@.code + emitted,
                self@.name == old(self)@.name,
                self@.parameters == old(self)@.parameters,
                self@.statements == old(self)@.statements,
                match lower_items(self@.scope(globals@), token_views(tokens@), i as nat) {
                    Ok((rest, end)) => whole == Ok::<(Seq<InstructionView>, Scope), CompileError>(
                        (emitted + rest, end),
                    ),
                    Err(error) => whole == Err::<(Seq<InstructionView>, Scope), CompileError>(
                        error,
                    ),
                },
            decreases tokens.len() - i,
        {
            let ghost start = self@;
            proof {
                reveal(lower_expression);
                reveal(token_view);
                lemma_views_index(tokens@, i as int);
            }
            match self.compile_expression(&tokens[i], globals) {
                Err(error) => {
                    return Err(error);
                },
                Ok(_) => {},
            }
            self.emit(Instruction::ArrayAdd);
            proof {
                let piece = lower_expression(start.scope(globals@), tokens[i as int]@)->Ok_0.0 + seq![
                    InstructionView::ArrayAdd,
                ];
                match lower_items(self@.scope(globals@), token_views(tokens@), (i + 1) as nat) {
                    Ok((rest, _)) => {
                        assert(emitted + (piece + rest) =~= (emitted + piece) + rest);
                    },
                    Err(_) => {},
                }
                assert(self@.code =~= old(self)@.code + (emitted + piece));
                emitted = emitted + piece;
            }
            i += 1;
        }
        proof {
            assert(emitted + Seq::<InstructionView>::empty() =~= emitted);
        }
        Ok(())
    }

    /// Compiles the pairs of a dictionary literal, from position `from` on.
    pub(crate) fn compile_pairs(&mut self, tokens: &Vec<Token>, from: usize, globals: &Table<usize>) -> (out:
        Result<(), CompileError>)
        ensures
            lowered_as(
                old(self)@,
                final(self)@,
                out,
                lower_pairs(old(self)@.scope(globals@), token_views(tokens@), from as nat),
                globals@,
            ),
        decreases tokens, tokens.len() - from,
    {
        let ghost whole = lower_pairs(
            old(self)@.scope(globals@),
            token_views(tokens@),
            from as nat,
        );
        let ghost mut emitted: Seq<InstructionView> = Seq::empty();
        let mut i: usize = from;
        proof {
            match whole {
                Ok((rest, _)) => {
                    assert(emitted + rest =~= rest);
                },
                Err(_) => {},
            }
            assert(self@.code =~= old(self)@.code + emitted);
        }
        while i < tokens.len()
            invariant
                from <= i,
                whole == lower_pairs(
                    old(self)@.scope(globals@),
                    token_views(tokens@),
                    from as nat,
                ),
                self@.code == old(self)@.code + emitted,
                self@.name == old(self)@.name,
                self@.parameters == old(self)@.parameters,
                self@.statements == old(self)@.statements,
                match lower_pairs(self@.scope(globals@), token_views(tokens@), i as nat) {
                    Ok((rest, end)) => whole == Ok::<(Seq<InstructionView>, Scope), CompileError>(
                        (emitted + rest, end),
                    ),
                    Err(error) => whole == Err::<(Seq<InstructionView>, Scope), CompileError>(
                        error,
                    ),
                },
            decreases tokens.len() - i,
        {
            let ghost start = self@;
            proof {
                reveal(lower_expression);
                reveal(token_view);
                lemma_views_index(tokens@, i as int);
            }
            let ghost mut inner: Seq<InstructionView> = Seq::empty();
            match &tokens[i] {
                Token::KeyValuePair(key, value) => {
                    self.push_text(key.clone());
                    assert(self@.scope(globals@) == start.scope(globals@).skip(1));
                    match self.compile_expression(value, globals) {
                        Err(error) => {
                            return Err(error);
                        },
                        Ok(_) => {},
                    }
                    self.emit(Instruction::DictionaryAdd);
                    proof {
                        inner = seq![push_text(key@)] + (lower_expression(
                            start.scope(globals@).skip(1),
                            value@,
                        )->Ok_0.0 + seq![InstructionView::DictionaryAdd]);
                    }
                },
                _ => {
                    return Err(CompileError::Unsupported);
                },
            }
            proof {
                let piece = inner;
                match lower_pairs(self@.scope(globals@), token_views(tokens@), (i + 1) as nat) {
                    Ok((rest, _)) => {
                        assert(emitted + (piece + rest) =~= (emitted + piece) + rest);
                    },
                    Err(_) => {},
                }
                assert(self@.code =~= old(self)@.code + (emitted + piece));
                emitted = emitted + piece;
            }
            i += 1;
        }
        proof {
            assert(emitted + Seq::<InstructionView>::empty() =~= emitted);
        }
        Ok(())
    }

    /// Compiles an array literal.
    pub(crate) fn compile_array(&mut self, token: &Token, items: &Vec<Token>, globals: &Table<usize>) -> (out:
        Result<(), CompileError>)
        requires
            decreases_to!(token => items),
        ensures
            lowered_as(
                old(self)@,
                final(self)@,
                out,
                lower_expression(
                    old(self)@.scope(globals@),
                    TokenView::Array(token_views(items@)),
                ),
                globals@,
            ),
        decreases token, 0nat,
    {
        proof {
            reveal(lower_expression);
            reveal(lower_statement);
        }
        self.emit(Instruction::StackPush(Literal::Array));
        assert(self@.scope(globals@) == old(self)@.scope(globals@).skip(1));
        match self.compile_items(items, 0, globals) {
            Ok(_) => {
                proof {
                    let rule = lower_items(
                        old(self)@.scope(globals@).skip(1),
                        token_views(items@),
                        0,
                    );
                    assert(self@.code =~= old(self)@.code + (seq![
                        InstructionView::StackPush(LiteralView::Array),
                    ] + rule->Ok_0.0));
                }
                Ok(())
            },
            Err(error) => Err(error),
        }
    }

    /// Compiles a dictionary literal.
    pub(crate) fn compile_dictionary(&mut self, token: &Token, pairs: &Vec<Token>, globals: &Table<usize>) -> (out:
        Result<(), CompileError>)
        requires
            decreases_to!(token => pairs),
        ensures
            lowered_as(
                old(self)@,
                final(self)@,
                out,
                lower_expression(
                    old(self)@.scope(globals@),
                    TokenView::Dictionary(token_views(pairs@)),
                ),
                globals@,
            ),
        decreases token, 0nat,
    {
        proof {
            reveal(lower_expression);
            reveal(lower_statement);
        }
        self.emit(Instruction::StackPush(Literal::Dictionary));
        assert(self@.scope(globals@) == old(self)@.scope(globals@).skip(1));
        match self.compile_pairs(pairs, 0, globals) {
            Ok(_) => {
                proof {
                    let rule = lower_pairs(
                        old(self)@.scope(globals@).skip(1),
                        token_views(pairs@),
                        0,
                    );
                    assert(self@.code =~= old(self)@.code + (seq![
                        InstructionView::StackPush(LiteralView::Dictionary),
                    ] + rule->Ok_0.0));
                }
                Ok(())
            },
            Err(error) => Err(error),
        }
    }

    /// Compiles `array[index]`.
    pub(crate) fn compile_index(&mut self, token: &Token, array: &Token, index: &Token, globals: &Table<usize>) -> (out:
        Result<(), CompileError>)
        requires
            decreases_to!(token => index),
        ensures
            lowered_as(
                old(self)@,
                final(self)@,
                out,
                lower_expression(
                    old(self)@.scope(globals@),
                    TokenView::ArrayIndex(Box::new(array@), Box::new(index@)),
                ),
                globals@,
            ),
        decreases token, 0nat,
    {
        proof {
            reveal(lower_expression);
            reveal(lower_statement);
        }
        let name = array.to_string();
        match self.get_variable(&name) {
            None => Err(CompileError::UnknownVariable),
            Some(slot) => {
                self.emit(Instruction::LoadLocalVariable(slot));
                assert(self@.scope(globals@) == old(self)@.scope(globals@).skip(1));
                match self.compile_expression(index, globals) {
                    Err(error) => Err(error),
                    Ok(_) => {
                        self.emit(Instruction::GetCollectionItemByKey);
                        proof {
                            let rule = lower_expression(
                                old(self)@.scope(globals@).skip(1),
                                index@,
                            );
                            assert(self@.code =~= old(self)@.code + (seq![
                                InstructionView::LoadLocalVariable(slot),
                            ] + (rule->Ok_0.0 + seq![InstructionView::GetCollectionItemByKey])));
                        }
                        Ok(())
                    },
                }
            },
        }
    }

    /// Compiles `new Class(arguments)`.
    pub(crate) fn compile_new_object(
        &mut self,
        token: &Token,
        class: &Token,
        arguments: &Vec<Token>,
        globals: &Table<usize>,
    ) -> (out: Result<(), CompileError>)
        requires
            decreases_to!(token => arguments),
            token@ == TokenView::Object(Box::new(class@), token_views(arguments@)),
        ensures
            lowered_as(
                old(self)@,
                final(self)@,
                out,
                lower_expression(old(self)@.scope(globals@), token@),
                globals@,
            ),
        decreases token, 0nat,
    {
        proof {
            reveal(lower_expression);
            reveal(lower_statement);
        }
        let class_name = class.to_string();
        let global = match globals.get(&class_name) {
            Some(global) => *global,
            None => {
                return Err(CompileError::UnknownClass);
            },
        };
        self.emit(Instruction::LoadGlobal(global));
        self.emit(Instruction::CreateObject);
        assert(self@.scope(globals@) == old(self)@.scope(globals@).skip(2));
        let name = self.temporary("tmp");
        let slot = match self.add_variable(name, Value::Null) {
            Ok(slot) => slot,
            Err(error) => {
                return Err(error);
            },
        };
        if arguments.len() == usize::MAX {
            return Err(CompileError::TooLarge);
        }
        self.emit(Instruction::CopyToLocalVariable(slot));
        self.push_text(String::from_str("constructor"));
        self.emit(Instruction::GetCollectionItemByKey);
        self.emit(Instruction::LoadLocalVariable(slot));
        let ghost middle = self@;
        match self.compile_expressions(arguments, 0, globals) {
            Err(error) => {
                return Err(error);
            },
            Ok(_) => {},
        }
        self.emit(Instruction::Call(arguments.len() + 1));
        self.emit(Instruction::LoadLocalVariable(slot));
        proof {
            let rest = lower_expressions(middle.scope(globals@), token_views(arguments@), 0)->Ok_0;
            assert(self@.code =~= old(self)@.code + (seq![
                InstructionView::LoadGlobal(global),
                InstructionView::CreateObject,
                InstructionView::CopyToLocalVariable(slot),
                push_text(constructor_name()),
                InstructionView::GetCollectionItemByKey,
                InstructionView::LoadLocalVariable(slot),
            ] + (rest.0 + seq![
                InstructionView::Call((arguments.len() + 1) as usize),
                InstructionView::LoadLocalVariable(slot),
            ])));
        }
        Ok(())
    }

    /// Compiles a call.
    pub(crate) fn compile_call(
        &mut self,
        token: &Token,
        callee: &Token,
        arguments: &Vec<Token>,
        globals: &Table<usize>,
    ) -> (out: Result<(), CompileError>)
        requires
            decreases_to!(token => arguments),
            token@ == TokenView::Call(Box::new(callee@), token_views(arguments@)),
        ensures
            lowered_as(
                old(self)@,
                final(self)@,
                out,
                lower_expression(old(self)@.scope(globals@), token@),
                globals@,
            ),
        decreases token, 0nat,
    {
        proof {
            reveal(lower_expression);
            reveal(lower_statement);
        }
        let name = callee.to_string();
        match self.get_variable(&name) {
            Some(slot) => {
                self.emit(Instruction::LoadLocalVariable(slot));
                let ghost middle = self@;
                match self.compile_expressions(arguments, 0, globals) {
                    Err(error) => {
                        return Err(error);
                    },
                    Ok(_) => {},
                }
                self.emit(Instruction::Call(arguments.len()));
                proof {
                    let rest = lower_expressions(
                        middle.scope(globals@),
                        token_views(arguments@),
                        0,
                    )->Ok_0;
                    assert(self@.code =~= old(self)@.code + (seq![
                        InstructionView::LoadLocalVariable(slot),
                    ] + (rest.0 + seq![InstructionView::Call(arguments.len())])));
                }
                Ok(())
            },
            None => {
                if arguments.len() == usize::MAX {
                    return Err(CompileError::TooLarge);
                }
                self.emit(Instruction::LoadLocalVariable(0));
                self.push_text(name);
                self.emit(Instruction::GetCollectionItemByKey);
                self.emit(Instruction::LoadLocalVariable(0));
                let ghost middle = self@;
                match self.compile_expressions(arguments, 0, globals) {
                    Err(error) => {
                        return Err(error);
                    },
                    Ok(_) => {},
                }
                self.emit(Instruction::Call(arguments.len() + 1));
                proof {
                    let rest = lower_expressions(
                        middle.scope(globals@),
                        token_views(arguments@),
                        0,
                    )->Ok_0;
                    assert(self@.code =~= old(self)@.code + (seq![
                        InstructionView::LoadLocalVariable(0),
                        push_text(name_of(callee@)),
                        InstructionView::GetCollectionItemByKey,
                        InstructionView::LoadLocalVariable(0),
                    ] + (rest.0 + seq![
                        InstructionView::Call((arguments.len() + 1) as usize),
                    ])));
                }
                Ok(())
            },
        }
    }

    /// Compiles a chain: the root, then what follows the dots.
    pub(crate) fn compile_chain(
        &mut self,
        token: &Token,
        root: &Token,
        rest: &Vec<Token>,
        globals: &Table<usize>,
    ) -> (out: Result<(), CompileError>)
        requires
            decreases_to!(token => root),
            decreases_to!(token => rest),
            token@ == TokenView::Chain(Box::new(root@), token_views(rest@)),
        ensures
            lowered_as(
                old(self)@,
                final(self)@,
                out,
                lower_expression(old(self)@.scope(globals@), token@),
                globals@,
            ),
        decreases token, 0nat,
    {
        proof {
            reveal(lower_expression);
            reveal(lower_statement);
        }
        match self.compile_expression(root, globals) {
            Err(error) => {
                return Err(error);
            },
            Ok(_) => {},
        }
        let ghost middle = self@;
        let name = root.to_string();
        match self.compile_links(&name, rest, 0, rest.len(), globals) {
            Err(error) => Err(error),
            Ok(_) => {
                proof {
                    let first = lower_expression(old(self)@.scope(globals@), root@)->Ok_0;
                    let links = lower_links(
                        middle.scope(globals@),
                        name@,
                        token_views(rest@),
                        0,
                        rest.len() as nat,
                    )->Ok_0;
                    assert(self@.code =~= old(self)@.code + (first.0 + links.0));
                }
                Ok(())
            },
        }
    }

    /// Compiles what follows the dots of a chain, from position `from` up to
    /// `to`.
    pub(crate) fn compile_links(
        &mut self,
        root: &String,
        rest: &Vec<Token>,
        from: usize,
        to: usize,
        globals: &Table<usize>,
    ) -> (out: Result<(), CompileError>)
        ensures
            lowered_as(
                old(self)@,
                final(self)@,
                out,
                lower_links(
                    old(self)@.scope(globals@),
                    root@,
                    token_views(rest@),
                    from as nat,
                    to as nat,
                ),
                globals@,
            ),
        decreases rest, to - from,
    {
        let ghost whole = lower_links(
            old(self)@.scope(globals@),
            root@,
            token_views(rest@),
            from as nat,
            to as nat,
        );
        let ghost mut emitted: Seq<InstructionView> = Seq::empty();
        let mut i: usize = from;
        proof {
            match whole {
                Ok((more, _)) => {
                    assert(emitted + more =~= more);
                },
                Err(_) => {},
            }
            assert(self@.code =~= old(self)@.code + emitted);
        }
        if to > rest.len() {
            return Ok(());
        }
        while i < to
            invariant
                from <= i,
                to <= rest.len(),
                whole == lower_links(
                    old(self)@.scope(globals@),
                    root@,
                    token_views(rest@),
                    from as nat,
                    to as nat,
                ),
                self@.code == old(self)@.code + emitted,
                self@.name == old(self)@.name,
                self@.parameters == old(self)@.parameters,
                self@.statements == old(self)@.statements,
                match lower_links(
                    self@.scope(globals@),
                    root@,
                    token_views(rest@),
                    i as nat,
                    to as nat,
                ) {
                    Ok((more, end)) => whole == Ok::<(Seq<InstructionView>, Scope), CompileError>(
                        (emitted + more, end),
                    ),
                    Err(error) => whole == Err::<(Seq<InstructionView>, Scope), CompileError>(
                        error,
                    ),
                },
            decreases to - i,
        {
            let ghost start = self@;
            let ghost mut piece: Seq<InstructionView> = Seq::empty();
            proof {
                reveal(lower_expression);
                reveal(token_view);
                lemma_views_index(rest@, i as int);
            }
            match &rest[i] {
                Token::Identifier(name) => {
                    self.push_text(name.clone());
                    self.emit(Instruction::GetCollectionItemByKey);
                    proof {
                        piece = seq![push_text(name@), InstructionView::GetCollectionItemByKey];
                    }
                },
                Token::Call(callee, arguments) => {
                    let slot = match self.get_variable(root) {
                        Some(slot) => slot,
                        None => {
                            return Err(CompileError::UnknownVariable);
                        },
                    };
                    if arguments.len() == usize::MAX {
                        return Err(CompileError::TooLarge);
                    }
                    self.push_text(callee.to_string());
                    self.emit(Instruction::GetCollectionItemByKey);
                    self.emit(Instruction::LoadLocalVariable(slot));
                    assert(self@.scope(globals@) == start.scope(globals@).skip(3));
                    match self.compile_expressions(arguments, 0, globals) {
                        Err(error) => {
                            return Err(error);
                        },
                        Ok(_) => {},
                    }
                    self.emit(Instruction::Call(arguments.len() + 1));
                    proof {
                        piece = seq![
                            push_text(name_of(callee@)),
                            InstructionView::GetCollectionItemByKey,
                            InstructionView::LoadLocalVariable(slot),
                        ] + (lower_expressions(
                            start.scope(globals@).skip(3),
                            token_views(arguments@),
                            0,
                        )->Ok_0.0 + seq![InstructionView::Call((arguments.len() + 1) as usize)]);
                    }
                },
                _ => {
                    return Err(CompileError::Unsupported);
                },
            }
            proof {
                match lower_links(
                    self@.scope(globals@),
                    root@,
                    token_views(rest@),
                    (i + 1) as nat,
                    to as nat,
                ) {
                    Ok((more, _)) => {
                        assert(emitted + (piece + more) =~= (emitted + piece) + more);
                    },
                    Err(_) => {},
                }
                assert(self@.code =~= old(self)@.code + (emitted + piece));
                emitted = emitted + piece;
            }
            i += 1;
        }
        proof {
            assert(emitted + Seq::<InstructionView>::empty() =~= emitted);
        }
        Ok(())
    }
}

} // verus!
