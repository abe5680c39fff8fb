//! The compiler of `for` over an array.

use vstd::prelude::*;
use crate::compiler::function::{Function, FunctionView, lowered_as, distance};
use crate::compiler::lowering::{
    CompileError,
    after,
    before,
    emit,
    iteration,
    lower_expression,
    holding,
    prepare_iteration,
    lower_statement,
    lower_statements,
    temporary_name,
};
use crate::compiler::token::{token_view, Token, TokenView, name_of, token_views};
use crate::table::Table;
use crate::vm::instruction::{Instruction, InstructionView, Literal, LiteralView};
use crate::vm::value::Value;

verus! {

impl Function {
    /// Emits what stands before the body of a `for (item in array)`.
    pub(crate) fn open_iteration(&mut self, array: usize, item: usize, length: usize, index: usize)
        ensures
            final(self)@ == (FunctionView {
                code: old(self)@.code + seq![
                    InstructionView::LoadLocalVariable(array),
                    InstructionView::ArrayLength,
                    InstructionView::StoreLocalVariable(length),
                    InstructionView::StackPush(LiteralView::Integer(0)),
                    InstructionView::StoreLocalVariable(index),
                    InstructionView::LoadLocalVariable(array),
                    InstructionView::LoadLocalVariable(index),
                    InstructionView::GetCollectionItemByKey,
                    InstructionView::StoreLocalVariable(item),
                ],
                ..old(self)@
            }),
    {
        self.emit(Instruction::LoadLocalVariable(array));
        self.emit(Instruction::ArrayLength);
        self.emit(Instruction::StoreLocalVariable(length));
        self.emit(Instruction::StackPush(Literal::Integer(0)));
        self.emit(Instruction::StoreLocalVariable(index));
        self.emit(Instruction::LoadLocalVariable(array));
        self.emit(Instruction::LoadLocalVariable(index));
        self.emit(Instruction::GetCollectionItemByKey);
        self.emit(Instruction::StoreLocalVariable(item));
        assert(self@.code =~= old(self)@.code + seq![
            InstructionView::LoadLocalVariable(array),
            InstructionView::ArrayLength,
            InstructionView::StoreLocalVariable(length),
            InstructionView::StackPush(LiteralView::Integer(0)),
            InstructionView::StoreLocalVariable(index),
            InstructionView::LoadLocalVariable(array),
            InstructionView::LoadLocalVariable(index),
            InstructionView::GetCollectionItemByKey,
            InstructionView::StoreLocalVariable(item),
        ]);
    }

    /// Emits what stands after the body of a `for (item in array)`; `back`
    /// is the distance from the last jump to the start of the loop.
    pub(crate) fn close_iteration(&mut self, length: usize, index: usize, back: i64)
        ensures
            final(self)@ == (FunctionView {
                code: old(self)@.code + seq![
                    InstructionView::LoadLocalVariable(index),
                    InstructionView::StackPush(LiteralView::Integer(1)),
                    InstructionView::Add,
                    InstructionView::StoreLocalVariable(index),
                    InstructionView::LoadLocalVariable(index),
                    InstructionView::LoadLocalVariable(length),
                    InstructionView::LessThan,
                    InstructionView::JumpIfFalse(2),
                    InstructionView::Jump(back),
                ],
                ..old(self)@
            }),
    {
        self.emit(Instruction::LoadLocalVariable(index));
        self.emit(Instruction::StackPush(Literal::Integer(1)));
        self.emit(Instruction::Add);
        self.emit(Instruction::StoreLocalVariable(index));
        self.emit(Instruction::LoadLocalVariable(index));
        self.emit(Instruction::LoadLocalVariable(length));
        self.emit(Instruction::LessThan);
        self.emit(Instruction::JumpIfFalse(2));
        self.emit(Instruction::Jump(back));
        assert(self@.code =~= old(self)@.code + seq![
            InstructionView::LoadLocalVariable(index),
            InstructionView::StackPush(LiteralView::Integer(1)),
            InstructionView::Add,
            InstructionView::StoreLocalVariable(index),
            InstructionView::LoadLocalVariable(index),
            InstructionView::LoadLocalVariable(length),
            InstructionView::LessThan,
            InstructionView::JumpIfFalse(2),
            InstructionView::Jump(back),
        ]);
    }

    /// Declares what a `for (item in array)` needs, and returns the slots
    /// of the array, the item, the length and the index.
    pub(crate) fn prepare_iteration(
        &mut self,
        token: &Token,
        item: &Token,
        array: &Token,
        globals: &Table<usize>,
    ) -> (out: Result<(usize, usize, usize, usize), CompileError>)
        requires
            decreases_to!(token => array),
        ensures
            match prepare_iteration(
                old(self)@.scope(globals@),
                name_of(item@),
                array@,
                lower_expression(holding(old(self)@.scope(globals@), name_of(item@)), array@),
            ) {
                Ok(ready) => {
                    &&& out == Ok::<(usize, usize, usize, usize), CompileError>(
                        (ready.array, ready.item, ready.length, ready.index),
                    )
                    &&& final(self)@.code == old(self)@.code + ready.fetch
                    &&& final(self)@.scope(globals@) == ready.scope
                    &&& final(self)@.name == old(self)@.name
                    &&& final(self)@.parameters == old(self)@.parameters
                    &&& final(self)@.statements == old(self)@.statements
                },
                Err(error) => out == Err::<(usize, usize, usize, usize), CompileError>(error),
            },
        decreases token, 1nat,
    {
        proof {
            reveal(lower_expression);
            reveal(lower_statement);
        }
        let item_slot = match self.add_variable(item.to_string(), Value::Null) {
            Ok(slot) => slot,
            Err(error) => {
                return Err(error);
            },
        };
        let ghost with_item = self@;
        assert(with_item.scope(globals@) == old(self)@.scope(globals@).declare(
            name_of(item@),
        )->Ok_0);
        let array_slot = match self.compile_source(token, array, globals) {
            Ok(slot) => slot,
            Err(error) => {
                return Err(error);
            },
        };
        let ghost fetched = self@;
        let length_name = self.temporary("len");
        let index_name = self.temporary("idx");
        let length_slot = match self.add_variable(length_name, Value::Null) {
            Ok(slot) => slot,
            Err(error) => {
                return Err(error);
            },
        };
        let ghost with_length = self@;
        assert(with_length.scope(globals@) == fetched.scope(globals@).declare(
            temporary_name("len"@, fetched.code.len()),
        )->Ok_0);
        let index_slot = match self.add_variable(index_name, Value::Null) {
            Ok(slot) => slot,
            Err(error) => {
                return Err(error);
            },
        };
        assert(self@.scope(globals@) == with_length.scope(globals@).declare(
            temporary_name("idx"@, fetched.code.len()),
        )->Ok_0);
        Ok((array_slot, item_slot, length_slot, index_slot))
    }

    /// Compiles `for (item in array)`.
    pub(crate) fn compile_foreach(
        &mut self,
        token: &Token,
        item: &Token,
        array: &Token,
        body: &Vec<Token>,
        globals: &Table<usize>,
    ) -> (out: Result<(), CompileError>)
        requires
            decreases_to!(token => array),
            decreases_to!(token => body),
        ensures
            lowered_as(
                old(self)@,
                final(self)@,
                out,
                lower_statement(
                    old(self)@.scope(globals@),
                    TokenView::ForEach(Box::new(item@), Box::new(array@), token_views(body@)),
                ),
                globals@,
            ),
        decreases token, 2nat,
    {
        proof {
            reveal(lower_expression);
            reveal(lower_statement);
        }
        let (array_slot, item_slot, length_slot, index_slot) = match self.prepare_iteration(
            token,
            item,
            array,
            globals,
        ) {
            Ok(slots) => slots,
            Err(error) => {
                return Err(error);
            },
        };
        let ghost ready = self@;
        self.open_iteration(array_slot, item_slot, length_slot, index_slot);
        assert(self@.scope(globals@) == ready.scope(globals@).skip(9));
        let start = self.offset();
        match self.compile_statements(body, 0, globals) {
            Err(error) => {
                return Err(error);
            },
            Ok(_) => {},
        }
        let span: u128 = (self.offset() - start) as u128 + 12;
        if span > 0x7fff_ffff_ffff_ffff {
            return Err(CompileError::TooLarge);
        }
        let back: i64 = -(span as i64);
        self.close_iteration(length_slot, index_slot, back);
        proof {
            let prepared = prepare_iteration(
                old(self)@.scope(globals@),
                name_of(item@),
                array@,
                lower_expression(holding(old(self)@.scope(globals@), name_of(item@)), array@),
            )->Ok_0;
            let inner = lower_statements(
                ready.scope(globals@).skip(9),
                token_views(body@),
                0,
            )->Ok_0;
            assert(self@.code =~= old(self)@.code + (prepared.fetch + iteration(
                array_slot,
                item_slot,
                length_slot,
                index_slot,
                inner.0,
            )));
        }
        Ok(())
    }
}

} // verus!
