//! The instruction set.

use vstd::prelude::*;

verus! {

/// A constant that an instruction pushes. An array or a dictionary literal is
/// empty, and every push makes a new one. A float literal is kept as it was
/// written, in decimal: the host reads it when it is pushed.
#[derive(Debug, PartialEq)]
pub enum Literal {
    Null,
    Integer(i32),
    Float(String),
    Bool(bool),
    String(String),
    Array,
    Dictionary,
    FunctionRef(String),
}

/// The model of a [`Literal`].
pub enum LiteralView {
    Null,
    Integer(i32),
    Float(Seq<char>),
    Bool(bool),
    String(Seq<char>),
    Array,
    Dictionary,
    FunctionRef(Seq<char>),
}

impl View for Literal {
    type V = LiteralView;

    open spec fn view(&self) -> LiteralView {
        match self {
            Literal::Null => LiteralView::Null,
            Literal::Integer(i) => LiteralView::Integer(*i),
            Literal::Float(text) => LiteralView::Float(text@),
            Literal::Bool(b) => LiteralView::Bool(*b),
            Literal::String(s) => LiteralView::String(s@),
            Literal::Array => LiteralView::Array,
            Literal::Dictionary => LiteralView::Dictionary,
            Literal::FunctionRef(name) => LiteralView::FunctionRef(name@),
        }
    }
}

impl Clone for Literal {
    fn clone(&self) -> (out: Self)
        ensures
            out == *self,
    {
        match self {
            Literal::Null => Literal::Null,
            Literal::Integer(i) => Literal::Integer(*i),
            Literal::Float(text) => Literal::Float(text.clone()),
            Literal::Bool(b) => Literal::Bool(*b),
            Literal::String(s) => Literal::String(s.clone()),
            Literal::Array => Literal::Array,
            Literal::Dictionary => Literal::Dictionary,
            Literal::FunctionRef(name) => Literal::FunctionRef(name.clone()),
        }
    }
}

/// One instruction of the machine. Every instruction takes one place in a
/// program.
#[derive(Debug, PartialEq)]
pub enum Instruction {
    Assert,
    Print,
    StackPush(Literal),
    Pop(usize),
    StoreLocalVariable(usize),
    MoveToLocalVariable(usize),
    CopyToLocalVariable(usize),
    LoadLocalVariable(usize),
    LoadGlobal(usize),
    CreateObject,
    DictionaryAdd,
    ArrayLength,
    ArrayAdd,
    GetCollectionItemByKey,
    SetCollectionItemByKey,
    Call(usize),
    Jump(i64),
    JumpIfFalse(i64),
    Return(bool),
    Equal,
    NotEqual,
    Add,
    Sub,
    Multiply,
    Divide,
    Pow,
    LessThan,
    LessThanOrEqual,
    GreaterThan,
    GreaterThanOrEqual,
    Halt(String),
}

/// The model of an [`Instruction`].
pub enum InstructionView {
    Assert,
    Print,
    StackPush(LiteralView),
    Pop(usize),
    StoreLocalVariable(usize),
    MoveToLocalVariable(usize),
    CopyToLocalVariable(usize),
    LoadLocalVariable(usize),
    LoadGlobal(usize),
    CreateObject,
    DictionaryAdd,
    ArrayLength,
    ArrayAdd,
    GetCollectionItemByKey,
    SetCollectionItemByKey,
    Call(usize),
    Jump(i64),
    JumpIfFalse(i64),
    Return(bool),
    Equal,
    NotEqual,
    Add,
    Sub,
    Multiply,
    Divide,
    Pow,
    LessThan,
    LessThanOrEqual,
    GreaterThan,
    GreaterThanOrEqual,
    Halt(Seq<char>),
}

impl View for Instruction {
    type V = InstructionView;

    open spec fn view(&self) -> InstructionView {
        match self {
            Instruction::Assert => InstructionView::Assert,
            Instruction::Print => InstructionView::Print,
            Instruction::StackPush(literal) => InstructionView::StackPush(literal@),
            Instruction::Pop(n) => InstructionView::Pop(*n),
            Instruction::StoreLocalVariable(i) => InstructionView::StoreLocalVariable(*i),
            Instruction::MoveToLocalVariable(i) => InstructionView::MoveToLocalVariable(*i),
            Instruction::CopyToLocalVariable(i) => InstructionView::CopyToLocalVariable(*i),
            Instruction::LoadLocalVariable(i) => InstructionView::LoadLocalVariable(*i),
            Instruction::LoadGlobal(i) => InstructionView::LoadGlobal(*i),
            Instruction::CreateObject => InstructionView::CreateObject,
            Instruction::DictionaryAdd => InstructionView::DictionaryAdd,
            Instruction::ArrayLength => InstructionView::ArrayLength,
            Instruction::ArrayAdd => InstructionView::ArrayAdd,
            Instruction::GetCollectionItemByKey => InstructionView::GetCollectionItemByKey,
            Instruction::SetCollectionItemByKey => InstructionView::SetCollectionItemByKey,
            Instruction::Call(n) => InstructionView::Call(*n),
            Instruction::Jump(delta) => InstructionView::Jump(*delta),
            Instruction::JumpIfFalse(delta) => InstructionView::JumpIfFalse(*delta),
            Instruction::Return(has_value) => InstructionView::Return(*has_value),
            Instruction::Equal => InstructionView::Equal,
            Instruction::NotEqual => InstructionView::NotEqual,
            Instruction::Add => InstructionView::Add,
            Instruction::Sub => InstructionView::Sub,
            Instruction::Multiply => InstructionView::Multiply,
            Instruction::Divide => InstructionView::Divide,
            Instruction::Pow => InstructionView::Pow,
            Instruction::LessThan => InstructionView::LessThan,
            Instruction::LessThanOrEqual => InstructionView::LessThanOrEqual,
            Instruction::GreaterThan => InstructionView::GreaterThan,
            Instruction::GreaterThanOrEqual => InstructionView::GreaterThanOrEqual,
            Instruction::Halt(message) => InstructionView::Halt(message@),
        }
    }
}

impl Clone for Instruction {
    fn clone(&self) -> (out: Self)
        ensures
            out == *self,
    {
        match self {
            Instruction::Assert => Instruction::Assert,
            Instruction::Print => Instruction::Print,
            Instruction::StackPush(literal) => Instruction::StackPush(literal.clone()),
            Instruction::Pop(n) => Instruction::Pop(*n),
            Instruction::StoreLocalVariable(i) => Instruction::StoreLocalVariable(*i),
            Instruction::MoveToLocalVariable(i) => Instruction::MoveToLocalVariable(*i),
            Instruction::CopyToLocalVariable(i) => Instruction::CopyToLocalVariable(*i),
            Instruction::LoadLocalVariable(i) => Instruction::LoadLocalVariable(*i),
            Instruction::LoadGlobal(i) => Instruction::LoadGlobal(*i),
            Instruction::CreateObject => Instruction::CreateObject,
            Instruction::DictionaryAdd => Instruction::DictionaryAdd,
            Instruction::ArrayLength => Instruction::ArrayLength,
            Instruction::ArrayAdd => Instruction::ArrayAdd,
            Instruction::GetCollectionItemByKey => Instruction::GetCollectionItemByKey,
            Instruction::SetCollectionItemByKey => Instruction::SetCollectionItemByKey,
            Instruction::Call(n) => Instruction::Call(*n),
            Instruction::Jump(delta) => Instruction::Jump(*delta),
            Instruction::JumpIfFalse(delta) => Instruction::JumpIfFalse(*delta),
            Instruction::Return(has_value) => Instruction::Return(*has_value),
            Instruction::Equal => Instruction::Equal,
            Instruction::NotEqual => Instruction::NotEqual,
            Instruction::Add => Instruction::Add,
            Instruction::Sub => Instruction::Sub,
            Instruction::Multiply => Instruction::Multiply,
            Instruction::Divide => Instruction::Divide,
            Instruction::Pow => Instruction::Pow,
            Instruction::LessThan => Instruction::LessThan,
            Instruction::LessThanOrEqual => Instruction::LessThanOrEqual,
            Instruction::GreaterThan => Instruction::GreaterThan,
            Instruction::GreaterThanOrEqual => Instruction::GreaterThanOrEqual,
            Instruction::Halt(message) => Instruction::Halt(message.clone()),
        }
    }
}

/// The models of a sequence of instructions, one by one.
pub open spec fn code(instructions: Seq<Instruction>) -> Seq<InstructionView> {
    Seq::new(instructions.len(), |i: int| instructions[i]@)
}

/// What an instruction that is no jump, call, return or halt does to the
/// depth of the operand stack: how many values it takes and how many it
/// gives. Both depend on the instruction and its immediates alone.
pub open spec fn stack_effect(instruction: InstructionView) -> Option<(nat, nat)> {
    match instruction {
        InstructionView::Assert => Some((1, 0)),
        InstructionView::Print => Some((1, 0)),
        InstructionView::StackPush(_) => Some((0, 1)),
        InstructionView::Pop(n) => Some((n as nat, 0)),
        InstructionView::StoreLocalVariable(_) => Some((1, 0)),
        InstructionView::MoveToLocalVariable(_) => Some((1, 0)),
        InstructionView::CopyToLocalVariable(_) => Some((1, 1)),
        InstructionView::LoadLocalVariable(_) => Some((0, 1)),
        InstructionView::LoadGlobal(_) => Some((0, 1)),
        InstructionView::CreateObject => Some((1, 1)),
        InstructionView::DictionaryAdd => Some((3, 1)),
        InstructionView::ArrayLength => Some((1, 1)),
        InstructionView::ArrayAdd => Some((2, 1)),
        InstructionView::GetCollectionItemByKey => Some((2, 1)),
        InstructionView::SetCollectionItemByKey => Some((3, 1)),
        InstructionView::Equal => Some((2, 1)),
        InstructionView::NotEqual => Some((2, 1)),
        InstructionView::Add => Some((2, 1)),
        InstructionView::Sub => Some((2, 1)),
        InstructionView::Multiply => Some((2, 1)),
        InstructionView::Divide => Some((2, 1)),
        InstructionView::Pow => Some((2, 1)),
        InstructionView::LessThan => Some((2, 1)),
        InstructionView::LessThanOrEqual => Some((2, 1)),
        InstructionView::GreaterThan => Some((2, 1)),
        InstructionView::GreaterThanOrEqual => Some((2, 1)),
        InstructionView::Call(_) => None,
        InstructionView::Jump(_) => None,
        InstructionView::JumpIfFalse(_) => None,
        InstructionView::Return(_) => None,
        InstructionView::Halt(_) => None,
    }
}

} // verus!
