//! The rules of the compiler for the nodes that stand for themselves.

use vstd::prelude::*;
use crate::compiler::lowering::{
    CompileError,
    Scope,
    binary,
    emit,
    lower_expression,
    lower_statement,
    push_text,
};
use crate::compiler::token::{Token, TokenView, token_view};
use crate::vm::instruction::{InstructionView, LiteralView};

verus! {

/// Whether the compiler has a rule for the token as an expression.
pub open spec fn is_expression(token: Token) -> bool {
    token is Null
            || token is Integer
            || token is Float
            || token is Bool
            || token is String
            || token is Identifier
            || token is Array
            || token is Dictionary
            || token is Object
            || token is ArrayIndex
            || token is Call
            || token is Chain
            || token is AnonFunction
            || token is Eq
            || token is Ne
            || token is Lt
            || token is Le
            || token is Gt
            || token is Ge
            || token is Add
            || token is Sub
            || token is Mul
            || token is Div
            || token is Pow
}

/// Whether the compiler has a rule for the token as a statement.
pub open spec fn is_statement(token: Token) -> bool {
    token is Comment
            || token is Assert
            || token is Print
            || token is Return
            || token is Call
            || token is Chain
            || token is Variable
            || token is Assign
            || token is IfElse
            || token is WhileLoop
            || token is ForI
            || token is ForEach
}

/// A literal pushes itself; a variable is loaded from its slot; a token that
/// is no expression is refused.
pub proof fn lemma_expression_kinds(scope: Scope, token: Token)
    ensures
        token is Null ==> lower_expression(scope, token@) == emit(
            scope,
            seq![InstructionView::StackPush(LiteralView::Null)],
        ),
        token matches Token::Integer(i) ==> lower_expression(scope, token@) == emit(
            scope,
            seq![InstructionView::StackPush(LiteralView::Integer(i))],
        ),
        token matches Token::Float(text) ==> lower_expression(scope, token@) == emit(
            scope,
            seq![InstructionView::StackPush(LiteralView::Float(text@))],
        ),
        token matches Token::Bool(b) ==> lower_expression(scope, token@) == emit(
            scope,
            seq![InstructionView::StackPush(LiteralView::Bool(b))],
        ),
        token matches Token::String(text) ==> lower_expression(scope, token@) == emit(
            scope,
            seq![push_text(text@)],
        ),
        token matches Token::Identifier(name) ==> lower_expression(scope, token@) == (match scope.slot(
            name@,
        ) {
            Some(slot) => emit(scope, seq![InstructionView::LoadLocalVariable(slot)]),
            None => Err(CompileError::UnknownVariable),
        }),
        !is_expression(token) ==> lower_expression(scope, token@) == Err::<
            (Seq<InstructionView>, Scope),
            CompileError,
        >(CompileError::Unsupported),
{
    reveal(lower_expression);
    reveal(token_view);
}

/// Each binary operator node follows the rule of binary operators with its
/// own instruction.
pub proof fn lemma_binary_rules(scope: Scope, left: TokenView, right: TokenView)
    ensures
        lower_expression(scope, TokenView::Eq(Box::new(left), Box::new(right))) == binary(
            scope,
            left,
            right,
            InstructionView::Equal,
        ),
        lower_expression(scope, TokenView::Ne(Box::new(left), Box::new(right))) == binary(
            scope,
            left,
            right,
            InstructionView::NotEqual,
        ),
        lower_expression(scope, TokenView::Lt(Box::new(left), Box::new(right))) == binary(
            scope,
            left,
            right,
            InstructionView::LessThan,
        ),
        lower_expression(scope, TokenView::Le(Box::new(left), Box::new(right))) == binary(
            scope,
            left,
            right,
            InstructionView::LessThanOrEqual,
        ),
        lower_expression(scope, TokenView::Gt(Box::new(left), Box::new(right))) == binary(
            scope,
            left,
            right,
            InstructionView::GreaterThan,
        ),
        lower_expression(scope, TokenView::Ge(Box::new(left), Box::new(right))) == binary(
            scope,
            left,
            right,
            InstructionView::GreaterThanOrEqual,
        ),
        lower_expression(scope, TokenView::Add(Box::new(left), Box::new(right))) == binary(
            scope,
            left,
            right,
            InstructionView::Add,
        ),
        lower_expression(scope, TokenView::Sub(Box::new(left), Box::new(right))) == binary(
            scope,
            left,
            right,
            InstructionView::Sub,
        ),
        lower_expression(scope, TokenView::Mul(Box::new(left), Box::new(right))) == binary(
            scope,
            left,
            right,
            InstructionView::Multiply,
        ),
        lower_expression(scope, TokenView::Div(Box::new(left), Box::new(right))) == binary(
            scope,
            left,
            right,
            InstructionView::Divide,
        ),
        lower_expression(scope, TokenView::Pow(Box::new(left), Box::new(right))) == binary(
            scope,
            left,
            right,
            InstructionView::Pow,
        ),
{
    reveal(lower_expression);
    reveal(token_view);
}

/// A comment gives nothing; a call or a chain that stands as a statement is
/// compiled as the expression that it is; a token that is no statement is
/// refused.
pub proof fn lemma_statement_kinds(scope: Scope, token: Token)
    ensures
        token is Comment ==> lower_statement(scope, token@) == Ok::<
            (Seq<InstructionView>, Scope),
            CompileError,
        >((Seq::empty(), scope)),
        token is Call || token is Chain ==> lower_statement(scope, token@) == lower_expression(
            scope,
            token@,
        ),
        !is_statement(token) ==> lower_statement(scope, token@) == Err::<
            (Seq<InstructionView>, Scope),
            CompileError,
        >(CompileError::Unsupported),
{
    reveal(lower_statement);
    reveal(lower_expression);
    reveal(token_view);
}

} // verus!
