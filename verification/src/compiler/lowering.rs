//! What the compiler emits for each node of the syntax tree.
//!
//! Each rule gives the instructions for a node as one sequence, made of the
//! sequences for its parts. A jump is written with the distance that it has
//! in the finished sequence.

use vstd::prelude::*;
use vstd::string::StringExecFns;
use crate::compiler::token::{TokenView, name_of};
use crate::compiler::variable::VariableView;
use crate::table::lookup;
use crate::compiler::grammar::{Expected, ParseError};
use crate::text::{decimal, format_unsigned};
use crate::vm::instruction::{InstructionView, LiteralView};
use crate::vm::value::ValueView;

verus! {

/// Why a program does not compile.
#[derive(Clone, Copy, Debug, PartialEq, Eq, Structural)]
pub enum CompileError {
    /// The source text is no script of the language.
    Syntax(ParseError),
    /// A variable is declared twice in one function.
    DuplicateVariable,
    /// A name is used that no declaration of the function brings.
    UnknownVariable,
    /// `new` names a class that the script does not declare.
    UnknownClass,
    /// A class is declared twice.
    DuplicateClass,
    /// Two functions have one qualified name.
    DuplicateFunction,
    /// A node stands where the compiler has no rule for it.
    Unsupported,
    /// A jump or an argument count that the instruction cannot hold.
    TooLarge,
}

/// What was expected, in words.
pub open spec fn expected_text(expected: Expected) -> Seq<char> {
    match expected {
        Expected::Item => "an import, a class or a comment"@,
        Expected::Member => "a member of the class or its closing brace"@,
        Expected::Statement => "a statement or the closing brace of the block"@,
    }
}

impl Expected {
    /// What was expected, in words.
    pub fn text(&self) -> (out: String)
        ensures
            out@ == expected_text(*self),
    {
        match self {
            Expected::Item => String::from_str("an import, a class or a comment"),
            Expected::Member => String::from_str("a member of the class or its closing brace"),
            Expected::Statement => String::from_str(
                "a statement or the closing brace of the block",
            ),
        }
    }
}

/// The error in words.
pub open spec fn error_text(error: CompileError) -> Seq<char> {
    match error {
        CompileError::Syntax(error) => "ParseError: "@ + expected_text(error.expected)
            + " expected at position "@ + decimal(error.position as int),
        CompileError::DuplicateVariable => "CompileError: a variable is declared twice"@,
        CompileError::UnknownVariable => "CompileError: a name is not declared"@,
        CompileError::UnknownClass => "CompileError: a class is not declared"@,
        CompileError::DuplicateClass => "CompileError: a class is declared twice"@,
        CompileError::DuplicateFunction => "CompileError: a function is declared twice"@,
        CompileError::Unsupported => "CompileError: a node stands where it cannot be compiled"@,
        CompileError::TooLarge => "CompileError: the program is too large"@,
    }
}

impl CompileError {
    /// The error in words.
    pub fn message(&self) -> (out: String)
        ensures
            out@ == error_text(*self),
    {
        match self {
            CompileError::Syntax(error) => {
                let mut out = String::from_str("ParseError: ");
                out.append(error.expected.text().as_str());
                out.append(" expected at position ");
                out.append(format_unsigned(error.position as u64).as_str());
                out
            },
            CompileError::DuplicateVariable => String::from_str(
                "CompileError: a variable is declared twice",
            ),
            CompileError::UnknownVariable => String::from_str(
                "CompileError: a name is not declared",
            ),
            CompileError::UnknownClass => String::from_str("CompileError: a class is not declared"),
            CompileError::DuplicateClass => String::from_str(
                "CompileError: a class is declared twice",
            ),
            CompileError::DuplicateFunction => String::from_str(
                "CompileError: a function is declared twice",
            ),
            CompileError::Unsupported => String::from_str(
                "CompileError: a node stands where it cannot be compiled",
            ),
            CompileError::TooLarge => String::from_str("CompileError: the program is too large"),
        }
    }
}

/// A compiled function: its qualified name and its instructions.
pub struct CompiledView {
    pub name: Seq<char>,
    pub code: Seq<InstructionView>,
}

/// What the compiler knows in the middle of a function.
pub struct Scope {
    /// The class of the function.
    pub class_name: Seq<char>,
    /// The index of each class among the globals.
    pub globals: Seq<(Seq<char>, usize)>,
    /// The variables declared so far.
    pub variables: Seq<(Seq<char>, VariableView)>,
    /// The number of instructions emitted so far.
    pub offset: nat,
    /// The functions compiled so far from function literals.
    pub nested: Seq<CompiledView>,
}

/// The instructions for a node, and the scope after it.
pub type Lowered = Result<(Seq<InstructionView>, Scope), CompileError>;

/// The name of the receiver.
pub open spec fn this_name() -> Seq<char> {
    "this"@
}

/// The name of the constructor of a class.
pub open spec fn constructor_name() -> Seq<char> {
    "constructor"@
}

/// The qualified name of a function.
pub open spec fn full_name(class_name: Seq<char>, name: Seq<char>) -> Seq<char> {
    class_name + "."@ + name
}

/// The name of a temporary made at an offset. The mark at its start keeps it
/// apart from every identifier.
pub open spec fn temporary_name(prefix: Seq<char>, offset: nat) -> Seq<char> {
    "%"@ + prefix + decimal(offset as int)
}

impl Scope {
    /// The scope after `count` more instructions.
    pub open spec fn skip(self, count: nat) -> Scope {
        Scope { offset: self.offset + count, ..self }
    }

    /// The slot of a variable.
    pub open spec fn slot(self, name: Seq<char>) -> Option<usize> {
        slot_in(self.variables, name)
    }

    /// The scope with one more variable, in the next free slot.
    pub open spec fn declare(self, name: Seq<char>) -> Result<Scope, CompileError> {
        match declared(self.variables, name) {
            Some(variables) => Ok(Scope { variables, ..self }),
            None => Err(CompileError::DuplicateVariable),
        }
    }

    /// The slot that `declare` gives.
    pub open spec fn next_slot(self) -> usize {
        self.variables.len() as usize
    }
}

/// The slot of a variable among `variables`.
pub open spec fn slot_in(variables: Seq<(Seq<char>, VariableView)>, name: Seq<char>) -> Option<
    usize,
> {
    match lookup(variables, name) {
        Some(variable) => Some(variable.index),
        None => None,
    }
}

/// The variables with `name` added in the next free slot; `None` where the
/// name is taken.
pub open spec fn declared(variables: Seq<(Seq<char>, VariableView)>, name: Seq<char>) -> Option<
    Seq<(Seq<char>, VariableView)>,
> {
    if lookup(variables, name) is Some {
        None
    } else {
        Some(
            variables.push(
                (name, VariableView { name, index: variables.len() as usize, value: ValueView::Null }),
            ),
        )
    }
}

/// The given instructions, emitted in `scope`.
pub open spec fn emit(scope: Scope, code: Seq<InstructionView>) -> Lowered {
    Ok((code, scope.skip(code.len())))
}

/// `code` followed by what `rest` gives.
pub open spec fn before(code: Seq<InstructionView>, rest: Lowered) -> Lowered {
    match rest {
        Ok((more, scope)) => Ok((code + more, scope)),
        Err(error) => Err(error),
    }
}

/// What `first` gives, followed by `code`.
pub open spec fn after(first: Lowered, code: Seq<InstructionView>) -> Lowered {
    match first {
        Ok((start, scope)) => Ok((start + code, scope.skip(code.len()))),
        Err(error) => Err(error),
    }
}

/// The instruction that pushes a text.
pub open spec fn push_text(text: Seq<char>) -> InstructionView {
    InstructionView::StackPush(LiteralView::String(text))
}

/// An expression: its instructions leave its value on the stack.
#[verifier::opaque]
pub open spec fn lower_expression(scope: Scope, token: TokenView) -> Lowered
    decreases token, 0nat,
{
    match token {
        TokenView::Null => emit(scope, seq![InstructionView::StackPush(LiteralView::Null)]),
        TokenView::Integer(i) => emit(
            scope,
            seq![InstructionView::StackPush(LiteralView::Integer(i))],
        ),
        TokenView::Float(text) => emit(
            scope,
            seq![InstructionView::StackPush(LiteralView::Float(text))],
        ),
        TokenView::Bool(b) => emit(scope, seq![InstructionView::StackPush(LiteralView::Bool(b))]),
        TokenView::String(text) => emit(scope, seq![push_text(text)]),
        TokenView::Identifier(name) => match scope.slot(name) {
            Some(slot) => emit(scope, seq![InstructionView::LoadLocalVariable(slot)]),
            None => Err(CompileError::UnknownVariable),
        },
        TokenView::Array(items) => before(
            seq![InstructionView::StackPush(LiteralView::Array)],
            lower_items(scope.skip(1), items, 0),
        ),
        TokenView::Dictionary(pairs) => before(
            seq![InstructionView::StackPush(LiteralView::Dictionary)],
            lower_pairs(scope.skip(1), pairs, 0),
        ),
        TokenView::Object(class, arguments) => match lookup(scope.globals, name_of(*class)) {
            None => Err(CompileError::UnknownClass),
            Some(global) => match scope.skip(2).declare(
                temporary_name("tmp"@, scope.offset + 2),
            ) {
                Err(error) => Err(error),
                Ok(declared) => if arguments.len() + 1 > usize::MAX {
                    Err(CompileError::TooLarge)
                } else {
                    let slot = scope.next_slot();
                    before(
                        seq![
                            InstructionView::LoadGlobal(global),
                            InstructionView::CreateObject,
                            InstructionView::CopyToLocalVariable(slot),
                            push_text(constructor_name()),
                            InstructionView::GetCollectionItemByKey,
                            InstructionView::LoadLocalVariable(slot),
                        ],
                        after(
                            lower_expressions(declared.skip(4), arguments, 0),
                            seq![
                                InstructionView::Call((arguments.len() + 1) as usize),
                                InstructionView::LoadLocalVariable(slot),
                            ],
                        ),
                    )
                },
            },
        },
        TokenView::ArrayIndex(array, index) => match scope.slot(name_of(*array)) {
            None => Err(CompileError::UnknownVariable),
            Some(slot) => before(
                seq![InstructionView::LoadLocalVariable(slot)],
                after(
                    lower_expression(scope.skip(1), *index),
                    seq![InstructionView::GetCollectionItemByKey],
                ),
            ),
        },
        TokenView::Call(callee, arguments) => match scope.slot(name_of(*callee)) {
            Some(slot) => before(
                seq![InstructionView::LoadLocalVariable(slot)],
                after(
                    lower_expressions(scope.skip(1), arguments, 0),
                    seq![InstructionView::Call(arguments.len() as usize)],
                ),
            ),
            None => if arguments.len() + 1 > usize::MAX {
                Err(CompileError::TooLarge)
            } else {
                before(
                    seq![
                        InstructionView::LoadLocalVariable(0),
                        push_text(name_of(*callee)),
                        InstructionView::GetCollectionItemByKey,
                        InstructionView::LoadLocalVariable(0),
                    ],
                    after(
                        lower_expressions(scope.skip(4), arguments, 0),
                        seq![InstructionView::Call((arguments.len() + 1) as usize)],
                    ),
                )
            },
        },
        TokenView::Chain(root, rest) => match lower_expression(scope, *root) {
            Err(error) => Err(error),
            Ok((code, next)) => before(code, lower_links(next, name_of(*root), rest, 0, rest.len())),
        },
        TokenView::AnonFunction(parameters, statements) => {
            let name = "func"@ + decimal(scope.offset as int);
            match lower_function(scope.class_name, name, parameters, statements, scope.globals) {
                Err(error) => Err(error),
                Ok(compiled) => Ok(
                    (
                        seq![
                            InstructionView::StackPush(
                                LiteralView::FunctionRef(full_name(scope.class_name, name)),
                            ),
                        ],
                        Scope { nested: scope.nested + compiled, ..scope.skip(1) },
                    ),
                ),
            }
        },
        TokenView::Eq(left, right) => match lower_expression(scope, *left) {
            Err(error) => Err(error),
            Ok((code, next)) => before(
                code,
                after(lower_expression(next, *right), seq![InstructionView::Equal]),
            ),
        },
        TokenView::Ne(left, right) => match lower_expression(scope, *left) {
            Err(error) => Err(error),
            Ok((code, next)) => before(
                code,
                after(lower_expression(next, *right), seq![InstructionView::NotEqual]),
            ),
        },
        TokenView::Lt(left, right) => match lower_expression(scope, *left) {
            Err(error) => Err(error),
            Ok((code, next)) => before(
                code,
                after(lower_expression(next, *right), seq![InstructionView::LessThan]),
            ),
        },
        TokenView::Le(left, right) => match lower_expression(scope, *left) {
            Err(error) => Err(error),
            Ok((code, next)) => before(
                code,
                after(lower_expression(next, *right), seq![InstructionView::LessThanOrEqual]),
            ),
        },
        TokenView::Gt(left, right) => match lower_expression(scope, *left) {
            Err(error) => Err(error),
            Ok((code, next)) => before(
                code,
                after(lower_expression(next, *right), seq![InstructionView::GreaterThan]),
            ),
        },
        TokenView::Ge(left, right) => match lower_expression(scope, *left) {
            Err(error) => Err(error),
            Ok((code, next)) => before(
                code,
                after(lower_expression(next, *right), seq![InstructionView::GreaterThanOrEqual]),
            ),
        },
        TokenView::Add(left, right) => match lower_expression(scope, *left) {
            Err(error) => Err(error),
            Ok((code, next)) => before(
                code,
                after(lower_expression(next, *right), seq![InstructionView::Add]),
            ),
        },
        TokenView::Sub(left, right) => match lower_expression(scope, *left) {
            Err(error) => Err(error),
            Ok((code, next)) => before(
                code,
                after(lower_expression(next, *right), seq![InstructionView::Sub]),
            ),
        },
        TokenView::Mul(left, right) => match lower_expression(scope, *left) {
            Err(error) => Err(error),
            Ok((code, next)) => before(
                code,
                after(lower_expression(next, *right), seq![InstructionView::Multiply]),
            ),
        },
        TokenView::Div(left, right) => match lower_expression(scope, *left) {
            Err(error) => Err(error),
            Ok((code, next)) => before(
                code,
                after(lower_expression(next, *right), seq![InstructionView::Divide]),
            ),
        },
        TokenView::Pow(left, right) => match lower_expression(scope, *left) {
            Err(error) => Err(error),
            Ok((code, next)) => before(
                code,
                after(lower_expression(next, *right), seq![InstructionView::Pow]),
            ),
        },
        _ => Err(CompileError::Unsupported),
    }
}

/// A binary operator: the left operand, the right operand, the operator.
pub open spec fn binary(
    scope: Scope,
    left: TokenView,
    right: TokenView,
    operator: InstructionView,
) -> Lowered {
    match lower_expression(scope, left) {
        Err(error) => Err(error),
        Ok((code, next)) => before(code, after(lower_expression(next, right), seq![operator])),
    }
}

/// Expressions one after the other, from position `from` on.
pub open spec fn lower_expressions(scope: Scope, tokens: Seq<TokenView>, from: nat) -> Lowered
    decreases tokens, tokens.len() - from,
{
    if from >= tokens.len() {
        Ok((Seq::empty(), scope))
    } else {
        match lower_expression(scope, tokens[from as int]) {
            Err(error) => Err(error),
            Ok((code, next)) => before(code, lower_expressions(next, tokens, from + 1)),
        }
    }
}

/// The items of an array literal: each is computed and appended.
pub open spec fn lower_items(scope: Scope, tokens: Seq<TokenView>, from: nat) -> Lowered
    decreases tokens, tokens.len() - from,
{
    if from >= tokens.len() {
        Ok((Seq::empty(), scope))
    } else {
        match after(lower_expression(scope, tokens[from as int]), seq![InstructionView::ArrayAdd]) {
            Err(error) => Err(error),
            Ok((code, next)) => before(code, lower_items(next, tokens, from + 1)),
        }
    }
}

/// The pairs of a dictionary literal: each key is pushed, its value is
/// computed, and the two are added.
pub open spec fn lower_pairs(scope: Scope, tokens: Seq<TokenView>, from: nat) -> Lowered
    decreases tokens, tokens.len() - from,
{
    if from >= tokens.len() {
        Ok((Seq::empty(), scope))
    } else {
        match tokens[from as int] {
            TokenView::KeyValuePair(key, value) => match before(
                seq![push_text(key)],
                after(
                    lower_expression(scope.skip(1), *value),
                    seq![InstructionView::DictionaryAdd],
                ),
            ) {
                Err(error) => Err(error),
                Ok((code, next)) => before(code, lower_pairs(next, tokens, from + 1)),
            },
            _ => Err(CompileError::Unsupported),
        }
    }
}

/// What follows the dots of a chain, from position `from` up to `to`: a name
/// reads a member; a call reads the member, takes the root of the chain as
/// the receiver, and calls.
pub open spec fn lower_links(
    scope: Scope,
    root: Seq<char>,
    rest: Seq<TokenView>,
    from: nat,
    to: nat,
) -> Lowered
    decreases rest, to - from,
{
    if from >= to || to > rest.len() {
        Ok((Seq::empty(), scope))
    } else {
        match rest[from as int] {
            TokenView::Identifier(name) => before(
                seq![push_text(name), InstructionView::GetCollectionItemByKey],
                lower_links(scope.skip(2), root, rest, from + 1, to),
            ),
            TokenView::Call(callee, arguments) => match scope.slot(root) {
                None => Err(CompileError::UnknownVariable),
                Some(slot) => if arguments.len() + 1 > usize::MAX {
                    Err(CompileError::TooLarge)
                } else {
                    match before(
                        seq![
                            push_text(name_of(*callee)),
                            InstructionView::GetCollectionItemByKey,
                            InstructionView::LoadLocalVariable(slot),
                        ],
                        after(
                            lower_expressions(scope.skip(3), arguments, 0),
                            seq![InstructionView::Call((arguments.len() + 1) as usize)],
                        ),
                    ) {
                        Err(error) => Err(error),
                        Ok((code, next)) => before(
                            code,
                            lower_links(next, root, rest, from + 1, to),
                        ),
                    }
                },
            },
            _ => Err(CompileError::Unsupported),
        }
    }
}

/// Statements one after the other, from position `from` on.
pub open spec fn lower_statements(scope: Scope, tokens: Seq<TokenView>, from: nat) -> Lowered
    decreases tokens, tokens.len() - from,
{
    if from >= tokens.len() {
        Ok((Seq::empty(), scope))
    } else {
        match lower_statement(scope, tokens[from as int]) {
            Err(error) => Err(error),
            Ok((code, next)) => before(code, lower_statements(next, tokens, from + 1)),
        }
    }
}

/// The statements under `else`; nothing where there is no `else`.
pub open spec fn lower_else(scope: Scope, body: Option<Seq<TokenView>>) -> Lowered
    decreases body, 0nat,
{
    match body {
        Some(statements) => lower_statements(scope, statements, 0),
        None => Ok((Seq::empty(), scope)),
    }
}

/// Whether a distance can stand in a jump, forward or back.
pub open spec fn jumpable(distance: nat) -> bool {
    distance <= i64::MAX
}

/// `if`: the condition; a jump over the first branch and its closing jump,
/// taken where the condition is false; the first branch; a jump over the
/// second branch; the second branch.
pub open spec fn conditional(
    condition: Seq<InstructionView>,
    then_body: Seq<InstructionView>,
    else_body: Seq<InstructionView>,
) -> Seq<InstructionView> {
    condition + seq![InstructionView::JumpIfFalse((then_body.len() + 2) as i64)] + then_body
        + seq![InstructionView::Jump((else_body.len() + 1) as i64)] + else_body
}

/// A loop: the condition; a jump past the loop, taken where the condition is
/// false; the body; a jump back to the condition.
pub open spec fn repetition(condition: Seq<InstructionView>, body: Seq<InstructionView>) -> Seq<
    InstructionView,
> {
    condition + seq![InstructionView::JumpIfFalse((body.len() + 2) as i64)] + body
        + seq![InstructionView::Jump(-(condition.len() + 1 + body.len()) as i64)]
}

/// `for (item in array)`: the length is stored in `length` and zero in
/// `index`; then, again and again, the item at the index is stored in
/// `item`, the body runs, the index grows by one, and the loop goes on while
/// the index is below the length.
pub open spec fn iteration(
    array: usize,
    item: usize,
    length: usize,
    index: usize,
    body: Seq<InstructionView>,
) -> Seq<InstructionView> {
    seq![
        InstructionView::LoadLocalVariable(array),
        InstructionView::ArrayLength,
        InstructionView::StoreLocalVariable(length),
        InstructionView::StackPush(LiteralView::Integer(0)),
        InstructionView::StoreLocalVariable(index),
        InstructionView::LoadLocalVariable(array),
        InstructionView::LoadLocalVariable(index),
        InstructionView::GetCollectionItemByKey,
        InstructionView::StoreLocalVariable(item),
    ] + body + seq![
        InstructionView::LoadLocalVariable(index),
        InstructionView::StackPush(LiteralView::Integer(1)),
        InstructionView::Add,
        InstructionView::StoreLocalVariable(index),
        InstructionView::LoadLocalVariable(index),
        InstructionView::LoadLocalVariable(length),
        InstructionView::LessThan,
        InstructionView::JumpIfFalse(2),
        InstructionView::Jump(-(body.len() + 12) as i64),
    ]
}

/// A statement: its instructions leave the stack as deep as it was, but for
/// a call or a chain, which leave what they come to.
#[verifier::opaque]
pub open spec fn lower_statement(scope: Scope, token: TokenView) -> Lowered
    decreases token, 1nat,
{
    match token {
        TokenView::Comment(_) => Ok((Seq::empty(), scope)),
        TokenView::Assert(value) => after(
            lower_expression(scope, *value),
            seq![InstructionView::Assert],
        ),
        TokenView::Print(value) => after(
            lower_expression(scope, *value),
            seq![InstructionView::Print],
        ),
        TokenView::Return(value) => after(
            lower_expression(scope, *value),
            seq![InstructionView::Return(true)],
        ),
        TokenView::Call(_, _) => lower_expression(scope, token),
        TokenView::Chain(_, _) => lower_expression(scope, token),
        TokenView::Variable(name, value) => match scope.declare(name_of(*name)) {
            Err(error) => Err(error),
            Ok(declared) => after(
                lower_expression(declared, *value),
                seq![InstructionView::StoreLocalVariable(scope.next_slot())],
            ),
        },
        TokenView::Assign(target, value) => match *target {
            TokenView::Identifier(name) => match scope.slot(name) {
                None => Err(CompileError::UnknownVariable),
                Some(slot) => after(
                    lower_expression(scope, *value),
                    seq![InstructionView::StoreLocalVariable(slot)],
                ),
            },
            TokenView::ArrayIndex(array, index) => match scope.slot(name_of(*array)) {
                None => Err(CompileError::UnknownVariable),
                Some(slot) => match lower_expression(scope.skip(1), *value) {
                    Err(error) => Err(error),
                    Ok((code, next)) => before(
                        seq![InstructionView::LoadLocalVariable(slot)] + code,
                        after(
                            lower_expression(next, *index),
                            seq![
                                InstructionView::SetCollectionItemByKey,
                                InstructionView::StoreLocalVariable(slot),
                            ],
                        ),
                    ),
                },
            },
            TokenView::Chain(root, rest) => if rest.len() == 0 {
                Err(CompileError::Unsupported)
            } else {
                match rest.last() {
                    TokenView::Identifier(member) => match lower_expression(scope, *root) {
                        Err(error) => Err(error),
                        Ok((start, reached)) => match lower_links(
                            reached,
                            name_of(*root),
                            rest,
                            0,
                            (rest.len() - 1) as nat,
                        ) {
                            Err(error) => Err(error),
                            Ok((middle, held)) => before(
                                start + middle,
                                after(
                                    lower_expression(held, *value),
                                    seq![
                                        push_text(member),
                                        InstructionView::SetCollectionItemByKey,
                                        InstructionView::Pop(1),
                                    ],
                                ),
                            ),
                        },
                    },
                    _ => Err(CompileError::Unsupported),
                }
            },
            _ => Err(CompileError::Unsupported),
        },
        TokenView::IfElse(condition, then_body, else_body) => match lower_expression(
            scope,
            *condition,
        ) {
            Err(error) => Err(error),
            Ok((test, tested)) => match lower_statements(tested.skip(1), then_body, 0) {
                Err(error) => Err(error),
                Ok((first, left)) => match lower_else(left.skip(1), else_body) {
                    Err(error) => Err(error),
                    Ok((second, done)) => if jumpable(first.len() + 2) && jumpable(
                        second.len() + 1,
                    ) {
                        Ok((conditional(test, first, second), done))
                    } else {
                        Err(CompileError::TooLarge)
                    },
                },
            },
        },
        TokenView::WhileLoop(condition, body) => match lower_expression(scope, *condition) {
            Err(error) => Err(error),
            Ok((test, tested)) => match lower_statements(tested.skip(1), body, 0) {
                Err(error) => Err(error),
                Ok((inner, left)) => if jumpable(test.len() + inner.len() + 2) {
                    Ok((repetition(test, inner), left.skip(1)))
                } else {
                    Err(CompileError::TooLarge)
                },
            },
        },
        TokenView::ForI(start, condition, step, body) => match lower_statement(scope, *start) {
            Err(error) => Err(error),
            Ok((first, begun)) => match lower_expression(begun, *condition) {
                Err(error) => Err(error),
                Ok((test, tested)) => match lower_statements(tested.skip(1), body, 0) {
                    Err(error) => Err(error),
                    Ok((inner, left)) => match lower_statement(left, *step) {
                        Err(error) => Err(error),
                        Ok((last, stepped)) => if jumpable(
                            test.len() + inner.len() + last.len() + 2,
                        ) {
                            Ok((first + repetition(test, inner + last), stepped.skip(1)))
                        } else {
                            Err(CompileError::TooLarge)
                        },
                    },
                },
            },
        },
        TokenView::ForEach(item, array, body) => match prepare_iteration(
            scope,
            name_of(*item),
            *array,
            lower_expression(holding(scope, name_of(*item)), *array),
        ) {
            Err(error) => Err(error),
            Ok(ready) => match lower_statements(ready.scope.skip(9), body, 0) {
                Err(error) => Err(error),
                Ok((inner, left)) => if jumpable(inner.len() + 12) {
                    Ok(
                        (
                            ready.fetch + iteration(
                                ready.array,
                                ready.item,
                                ready.length,
                                ready.index,
                                inner,
                            ),
                            left.skip(9),
                        ),
                    )
                } else {
                    Err(CompileError::TooLarge)
                },
            },
        },
        _ => Err(CompileError::Unsupported),
    }
}

/// What a `for (item in array)` needs before its loop: the instructions that
/// fetch the array, and the slots of the array, of the item, of the length
/// and of the index.
pub struct Prepared {
    pub fetch: Seq<InstructionView>,
    pub scope: Scope,
    pub array: usize,
    pub item: usize,
    pub length: usize,
    pub index: usize,
}

/// The scope in which the array of a `for (item in array)` is computed
/// where it is no variable: the item and a temporary for the array are
/// declared.
pub open spec fn holding(scope: Scope, item: Seq<char>) -> Scope {
    match scope.declare(item) {
        Err(_) => scope,
        Ok(with_item) => match with_item.declare(temporary_name("arr"@, scope.offset)) {
            Err(_) => with_item,
            Ok(declared) => declared,
        },
    }
}

/// Declares what a `for (item in array)` needs: the item, then a temporary
/// for the array where it is no variable, then the length and the index.
/// `computed` is what computing the array gives in `holding(scope, item)`.
pub open spec fn prepare_iteration(
    scope: Scope,
    item: Seq<char>,
    array: TokenView,
    computed: Lowered,
) -> Result<Prepared, CompileError> {
    match scope.declare(item) {
        Err(error) => Err(error),
        Ok(with_item) => match lower_source(with_item, array, computed) {
            Err(error) => Err(error),
            Ok((fetch, fetched)) => match fetched.declare(temporary_name("len"@, fetched.offset)) {
                Err(error) => Err(error),
                Ok(with_length) => match with_length.declare(
                    temporary_name("idx"@, fetched.offset),
                ) {
                    Err(error) => Err(error),
                    Ok(with_index) => Ok(
                        Prepared {
                            fetch,
                            scope: with_index,
                            array: source_slot(with_item, array),
                            item: scope.next_slot(),
                            length: fetched.next_slot(),
                            index: with_length.next_slot(),
                        },
                    ),
                },
            },
        },
    }
}

/// The array of a `for (item in array)`: a variable is used where it is;
/// anything else is computed once and kept in a temporary. `computed` is
/// what computing the array gives once the temporary is declared.
pub open spec fn lower_source(scope: Scope, array: TokenView, computed: Lowered) -> Lowered {
    match array {
        TokenView::Identifier(name) => match scope.slot(name) {
            Some(_) => Ok((Seq::empty(), scope)),
            None => Err(CompileError::UnknownVariable),
        },
        _ => match scope.declare(temporary_name("arr"@, scope.offset)) {
            Err(error) => Err(error),
            Ok(_) => after(computed, seq![InstructionView::StoreLocalVariable(scope.next_slot())]),
        },
    }
}

/// The slot that holds the array of a `for (item in array)`.
pub open spec fn source_slot(scope: Scope, array: TokenView) -> usize {
    match array {
        TokenView::Identifier(name) => scope.slot(name)->0,
        _ => scope.next_slot(),
    }
}

/// The variables with the parameters from position `from` on added, each in
/// the next free slot; `None` where a name is taken.
pub open spec fn declared_parameters(
    variables: Seq<(Seq<char>, VariableView)>,
    parameters: Seq<TokenView>,
    from: nat,
) -> Option<Seq<(Seq<char>, VariableView)>>
    decreases parameters.len() - from,
{
    if from >= parameters.len() {
        Some(variables)
    } else {
        match declared(variables, name_of(parameters[from as int])) {
            None => None,
            Some(next) => declared_parameters(next, parameters, from + 1),
        }
    }
}

/// The variables of a function without parameters: the receiver in slot 0.
pub open spec fn receiver_only() -> Seq<(Seq<char>, VariableView)> {
    seq![(this_name(), VariableView { name: this_name(), index: 0, value: ValueView::Null })]
}

/// The instructions of a function body, closed by a `Return` where the body
/// does not end in one.
pub open spec fn closed(code: Seq<InstructionView>) -> Seq<InstructionView> {
    if code.len() > 0 && code.last() is Return {
        code
    } else {
        code.push(InstructionView::Return(false))
    }
}

/// The scope at the start of a function: no variable, no instruction.
pub open spec fn fresh_scope(class_name: Seq<char>, globals: Seq<(Seq<char>, usize)>) -> Scope {
    Scope { class_name, globals, variables: Seq::empty(), offset: 0, nested: Seq::empty() }
}

/// A function: itself first, then the functions that its function literals
/// gave. A function without statements only returns. In any other the
/// receiver `this` has slot 0 and the parameters the slots after it.
pub open spec fn lower_function(
    class_name: Seq<char>,
    name: Seq<char>,
    parameters: Seq<TokenView>,
    statements: Seq<TokenView>,
    globals: Seq<(Seq<char>, usize)>,
) -> Result<Seq<CompiledView>, CompileError>
    decreases statements, statements.len() + 1,
{
    if statements.len() == 0 {
        Ok(
            seq![
                CompiledView {
                    name: full_name(class_name, name),
                    code: seq![InstructionView::Return(false)],
                },
            ],
        )
    } else {
        match declared_parameters(receiver_only(), parameters, 0) {
            None => Err(CompileError::DuplicateVariable),
            Some(variables) => match lower_statements(
                Scope { variables, ..fresh_scope(class_name, globals) },
                statements,
                0,
            ) {
                Err(error) => Err(error),
                Ok((code, scope)) => Ok(
                    seq![CompiledView { name: full_name(class_name, name), code: closed(code) }]
                        + scope.nested,
                ),
            },
        }
    }
}

} // verus!
