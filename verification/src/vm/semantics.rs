//! What each instruction does, as a function from the state of the machine to
//! the next state.

use vstd::prelude::*;
use crate::table::lookup;
use crate::vm::frame::FrameView;
use crate::vm::host::{Fault, ReplyView, RequestView, SignalView};
use crate::vm::instruction::{InstructionView, LiteralView};
use crate::vm::number::{Comparison, Operator, holds};
use crate::vm::store::{
    CellView,
    equal_values,
    fields_at,
    is_array,
    is_class,
    is_dictionary,
    is_object,
    items_at,
    with_binding,
};
use crate::vm::operation::{OutcomeView, Standing, operated, standing};
use crate::vm::value::{ValueView, text_of};

verus! {

/// What the machine does with the host's answer.
pub enum ResumeView {
    /// Push the float.
    PushFloat,
    /// Push whether the comparison holds of the order.
    PushComparison(Comparison),
    /// Print the text.
    Print,
    /// Push this text followed by the answer.
    Concat(Seq<char>),
    /// Bind the answer to the value in the dictionary at the address, and
    /// push the dictionary.
    DictionaryKey(usize, ValueView),
}

/// A request that is not answered yet, and what follows the answer.
pub struct AwaitedView {
    pub request: RequestView,
    pub resume: ResumeView,
}

/// The state of a machine.
pub struct MachineView {
    pub instructions: Seq<InstructionView>,
    pub symbols: Seq<(Seq<char>, usize)>,
    pub globals: Seq<ValueView>,
    pub store: Seq<CellView>,
    /// The frames that wait for a call to return, the root first.
    pub callers: Seq<FrameView>,
    /// The frame that runs.
    pub frame: FrameView,
    pub ip: usize,
    /// What was printed, line by line.
    pub output: Seq<Seq<char>>,
    pub awaited: Option<AwaitedView>,
}

impl MachineView {
    /// The state with another running frame.
    pub open spec fn with_frame(self, frame: FrameView) -> MachineView {
        MachineView { frame, ..self }
    }

    /// The state with another store.
    pub open spec fn with_store(self, store: Seq<CellView>) -> MachineView {
        MachineView { store, ..self }
    }

    /// The state at another instruction.
    pub open spec fn with_ip(self, ip: usize) -> MachineView {
        MachineView { ip, ..self }
    }

    /// The state with a value pushed in the running frame.
    pub open spec fn push(self, value: ValueView) -> MachineView {
        self.with_frame(self.frame.push(value))
    }

    /// The state without the `count` topmost values of the running frame.
    pub open spec fn drop_top(self, count: nat) -> MachineView {
        self.with_frame(self.frame.drop_top(count))
    }

    /// The state at the next instruction.
    pub open spec fn advance(self) -> MachineView {
        self.with_ip(next_position(self.ip))
    }

    /// The state with one more line printed.
    pub open spec fn print(self, line: Seq<char>) -> MachineView {
        MachineView { output: self.output.push(line), ..self }
    }

    /// The state that waits for an answer.
    pub open spec fn wait(self, request: RequestView, resume: ResumeView) -> MachineView {
        MachineView { awaited: Some(AwaitedView { request, resume }), ..self }
    }

    /// The state that waits for nothing.
    pub open spec fn settle(self) -> MachineView {
        MachineView { awaited: None, ..self }
    }

    /// The value `depth` places under the top of the running frame's stack.
    pub open spec fn peek(self, depth: nat) -> ValueView {
        self.frame.peek(depth)
    }

    /// The depth of the running frame's stack.
    pub open spec fn depth(self) -> nat {
        self.frame.stack.len()
    }
}

/// The position after `ip`.
pub open spec fn next_position(ip: usize) -> usize {
    if ip < usize::MAX {
        (ip + 1) as usize
    } else {
        ip
    }
}

/// A step that goes on in `next`.
pub open spec fn go(next: MachineView) -> (MachineView, SignalView) {
    (next, SignalView::Continue)
}

/// A step that fails. The state stays as it was.
pub open spec fn fail(m: MachineView, fault: Fault) -> (MachineView, SignalView) {
    (m, SignalView::Failed(fault))
}

/// A step that ends in a question to the host.
pub open spec fn ask(next: MachineView, request: RequestView, resume: ResumeView) -> (
    MachineView,
    SignalView,
) {
    (next.wait(request, resume), SignalView::Waiting(request))
}

/// The result of a program that stops here: the top of the stack, or `Null`
/// where the stack is empty.
pub open spec fn result_of(m: MachineView) -> ValueView {
    if m.depth() > 0 {
        m.peek(0)
    } else {
        ValueView::Null
    }
}

/// Where a jump by `delta` from the instruction at `ip` lands, if that is a
/// position of the program or its end.
pub open spec fn jump_target(m: MachineView, delta: i64) -> Option<usize> {
    if 0 <= m.ip + delta <= m.instructions.len() {
        Some((m.ip + delta) as usize)
    } else {
        None
    }
}

/// `Assert`: takes a boolean and fails where it is `false`.
pub open spec fn step_assert(m: MachineView) -> (MachineView, SignalView) {
    if m.depth() < 1 {
        fail(m, Fault::StackUnderflow)
    } else {
        match m.peek(0) {
            ValueView::Bool(true) => go(m.drop_top(1).advance()),
            ValueView::Bool(false) => fail(m, Fault::AssertionFailed),
            _ => fail(m, Fault::NotABoolean),
        }
    }
}

/// `Print`: takes a value and prints its text; the text of a float is
/// asked of the host.
pub open spec fn step_print(m: MachineView) -> (MachineView, SignalView) {
    if m.depth() < 1 {
        fail(m, Fault::StackUnderflow)
    } else {
        match m.peek(0) {
            ValueView::Float(bits) => ask(
                m.drop_top(1),
                RequestView::Render(bits),
                ResumeView::Print,
            ),
            value => go(m.drop_top(1).print(text_of(value)->0).advance()),
        }
    }
}

/// `StackPush`: pushes the value of a literal. An array or a dictionary
/// gets a new cell; a float is asked of the host.
pub open spec fn step_push(m: MachineView, literal: LiteralView) -> (MachineView, SignalView) {
    match literal {
        LiteralView::Null => go(m.push(ValueView::Null).advance()),
        LiteralView::Integer(i) => go(m.push(ValueView::Integer(i)).advance()),
        LiteralView::Float(text) => ask(m, RequestView::Read(text), ResumeView::PushFloat),
        LiteralView::Bool(b) => go(m.push(ValueView::Bool(b)).advance()),
        LiteralView::String(s) => go(m.push(ValueView::String(s)).advance()),
        LiteralView::Array => go(
            m.with_store(m.store.push(CellView::Array(Seq::empty()))).push(
                ValueView::Array(m.store.len() as usize),
            ).advance(),
        ),
        LiteralView::Dictionary => go(
            m.with_store(m.store.push(CellView::Dictionary(Seq::empty()))).push(
                ValueView::Dictionary(m.store.len() as usize),
            ).advance(),
        ),
        LiteralView::FunctionRef(name) => go(m.push(ValueView::FunctionRef(name)).advance()),
    }
}

/// `Pop`: takes `count` values.
pub open spec fn step_pop(m: MachineView, count: usize) -> (MachineView, SignalView) {
    if m.depth() < count {
        fail(m, Fault::StackUnderflow)
    } else {
        go(m.drop_top(count as nat).advance())
    }
}

/// `StoreLocalVariable` and `MoveToLocalVariable`: take a value and write
/// it into a slot.
pub open spec fn step_move_to_local(m: MachineView, slot: usize) -> (MachineView, SignalView) {
    if m.depth() < 1 {
        fail(m, Fault::StackUnderflow)
    } else {
        go(m.with_frame(m.frame.drop_top(1).store(slot as nat, m.peek(0))).advance())
    }
}

/// `CopyToLocalVariable`: writes the top of the stack into a slot and
/// leaves it on the stack.
pub open spec fn step_copy_to_local(m: MachineView, slot: usize) -> (MachineView, SignalView) {
    if m.depth() < 1 {
        fail(m, Fault::StackUnderflow)
    } else {
        go(m.with_frame(m.frame.store(slot as nat, m.peek(0))).advance())
    }
}

/// `LoadLocalVariable`: pushes what a slot holds.
pub open spec fn step_load_local(m: MachineView, slot: usize) -> (MachineView, SignalView) {
    if slot >= m.frame.variables.len() {
        fail(m, Fault::UnknownSlot)
    } else {
        go(m.push(m.frame.variables[slot as int]).advance())
    }
}

/// `LoadGlobal`: pushes a global.
pub open spec fn step_load_global(m: MachineView, index: usize) -> (MachineView, SignalView) {
    if index >= m.globals.len() {
        fail(m, Fault::UnknownGlobal)
    } else {
        go(m.push(m.globals[index as int]).advance())
    }
}

/// `CreateObject`: takes a class and pushes a new object that holds a copy
/// of the members of the class.
pub open spec fn step_create_object(m: MachineView) -> (MachineView, SignalView) {
    if m.depth() < 1 {
        fail(m, Fault::StackUnderflow)
    } else {
        match m.peek(0) {
            ValueView::Class(class) => if is_class(m.store, class) {
                go(
                    m.drop_top(1).with_store(
                        m.store.push(CellView::Object(fields_at(m.store, class))),
                    ).push(ValueView::Object(m.store.len() as usize)).advance(),
                )
            } else {
                fail(m, Fault::NotAClass)
            },
            _ => fail(m, Fault::NotAClass),
        }
    }
}

/// `ArrayLength`: takes an array and pushes its length.
pub open spec fn step_array_length(m: MachineView) -> (MachineView, SignalView) {
    if m.depth() < 1 {
        fail(m, Fault::StackUnderflow)
    } else {
        match m.peek(0) {
            ValueView::Array(array) => if !is_array(m.store, array) {
                fail(m, Fault::NotAnArray)
            } else if items_at(m.store, array).len() > i32::MAX {
                fail(m, Fault::Overflow)
            } else {
                go(
                    m.drop_top(1).push(
                        ValueView::Integer(items_at(m.store, array).len() as i32),
                    ).advance(),
                )
            },
            _ => fail(m, Fault::NotAnArray),
        }
    }
}

/// `ArrayAdd`: takes a value and an array, appends the value to the array
/// where it is, and pushes the array.
pub open spec fn step_array_add(m: MachineView) -> (MachineView, SignalView) {
    if m.depth() < 2 {
        fail(m, Fault::StackUnderflow)
    } else {
        match m.peek(1) {
            ValueView::Array(array) => if !is_array(m.store, array) {
                fail(m, Fault::NotAnArray)
            } else {
                go(
                    m.drop_top(2).with_store(
                        m.store.update(
                            array as int,
                            CellView::Array(items_at(m.store, array).push(m.peek(0))),
                        ),
                    ).push(ValueView::Array(array)).advance(),
                )
            },
            _ => fail(m, Fault::NotAnArray),
        }
    }
}

/// `DictionaryAdd`: takes a value, a key and a dictionary, binds the text of
/// the key to the value in the dictionary where it is, and pushes the
/// dictionary. The text of a float is asked of the host.
pub open spec fn step_dictionary_add(m: MachineView) -> (MachineView, SignalView) {
    if m.depth() < 3 {
        fail(m, Fault::StackUnderflow)
    } else {
        match m.peek(2) {
            ValueView::Dictionary(dictionary) => if !is_dictionary(m.store, dictionary) {
                fail(m, Fault::NotADictionary)
            } else {
                match m.peek(1) {
                    ValueView::Float(bits) => ask(
                        m.drop_top(3),
                        RequestView::Render(bits),
                        ResumeView::DictionaryKey(dictionary, m.peek(0)),
                    ),
                    key => go(
                        m.drop_top(3).with_store(
                            m.store.update(
                                dictionary as int,
                                with_binding(
                                    m.store[dictionary as int],
                                    text_of(key)->0,
                                    m.peek(0),
                                ),
                            ),
                        ).push(ValueView::Dictionary(dictionary)).advance(),
                    ),
                }
            },
            _ => fail(m, Fault::NotADictionary),
        }
    }
}

/// The item that `key` selects in `collection`.
pub open spec fn item_of(store: Seq<CellView>, collection: ValueView, key: ValueView) -> Result<
    ValueView,
    Fault,
> {
    match collection {
        ValueView::Array(array) => if !is_array(store, array) {
            Err(Fault::NotACollection)
        } else {
            match key {
                ValueView::Integer(i) => if 0 <= i < items_at(store, array).len() {
                    Ok(items_at(store, array)[i as int])
                } else {
                    Err(Fault::IndexOutOfBounds)
                },
                _ => Err(Fault::BadKey),
            }
        },
        ValueView::Dictionary(dictionary) => if !is_dictionary(store, dictionary) {
            Err(Fault::NotACollection)
        } else {
            match key {
                ValueView::String(k) => match lookup(fields_at(store, dictionary), k) {
                    Some(value) => Ok(value),
                    None => Err(Fault::MissingKey),
                },
                _ => Err(Fault::BadKey),
            }
        },
        ValueView::Object(object) => if !is_object(store, object) {
            Err(Fault::NotACollection)
        } else {
            match key {
                ValueView::String(k) => match lookup(fields_at(store, object), k) {
                    Some(value) => Ok(value),
                    None => Err(Fault::MissingMember),
                },
                _ => Err(Fault::BadKey),
            }
        },
        _ => Err(Fault::NotACollection),
    }
}

/// The store after `key` of `collection` was set to `value`.
pub open spec fn store_with_item(
    store: Seq<CellView>,
    collection: ValueView,
    key: ValueView,
    value: ValueView,
) -> Result<Seq<CellView>, Fault> {
    match collection {
        ValueView::Array(array) => if !is_array(store, array) {
            Err(Fault::NotACollection)
        } else {
            match key {
                ValueView::Integer(i) => if 0 <= i < items_at(store, array).len() {
                    Ok(
                        store.update(
                            array as int,
                            CellView::Array(items_at(store, array).update(i as int, value)),
                        ),
                    )
                } else {
                    Err(Fault::IndexOutOfBounds)
                },
                _ => Err(Fault::BadKey),
            }
        },
        ValueView::Dictionary(dictionary) => if !is_dictionary(store, dictionary) {
            Err(Fault::NotACollection)
        } else {
            match key {
                ValueView::String(k) => Ok(
                    store.update(
                        dictionary as int,
                        with_binding(store[dictionary as int], k, value),
                    ),
                ),
                _ => Err(Fault::BadKey),
            }
        },
        ValueView::Object(object) => if !is_object(store, object) {
            Err(Fault::NotACollection)
        } else {
            match key {
                ValueView::String(k) => Ok(
                    store.update(object as int, with_binding(store[object as int], k, value)),
                ),
                _ => Err(Fault::BadKey),
            }
        },
        _ => Err(Fault::NotACollection),
    }
}

/// `GetCollectionItemByKey`: takes a key and a collection and pushes the
/// item.
pub open spec fn step_get_item(m: MachineView) -> (MachineView, SignalView) {
    if m.depth() < 2 {
        fail(m, Fault::StackUnderflow)
    } else {
        match item_of(m.store, m.peek(1), m.peek(0)) {
            Ok(item) => go(m.drop_top(2).push(item).advance()),
            Err(fault) => fail(m, fault),
        }
    }
}

/// `SetCollectionItemByKey`: takes a key, a value and a collection, sets
/// the item in the collection where it is, and pushes the collection.
pub open spec fn step_set_item(m: MachineView) -> (MachineView, SignalView) {
    if m.depth() < 3 {
        fail(m, Fault::StackUnderflow)
    } else {
        match store_with_item(m.store, m.peek(2), m.peek(0), m.peek(1)) {
            Ok(store) => go(m.drop_top(3).with_store(store).push(m.peek(2)).advance()),
            Err(fault) => fail(m, fault),
        }
    }
}

/// `Call`: takes `count` arguments and, under them, a reference to a
/// function; a new frame with the arguments in its first slots runs the
/// function, and remembers the instruction after the call.
pub open spec fn step_call(m: MachineView, count: usize) -> (MachineView, SignalView) {
    if m.depth() < count + 1 {
        fail(m, Fault::StackUnderflow)
    } else {
        match m.peek(count as nat) {
            ValueView::FunctionRef(name) => match lookup(m.symbols, name) {
                Some(entry) => go(
                    MachineView {
                        callers: m.callers.push(m.frame.drop_top((count + 1) as nat)),
                        frame: FrameView {
                            name,
                            return_position: Some(next_position(m.ip)),
                            variables: m.frame.stack.skip(m.frame.stack.len() - count),
                            stack: Seq::empty(),
                        },
                        ip: entry,
                        ..m
                    },
                ),
                None => fail(m, Fault::UnknownFunction),
            },
            _ => fail(m, Fault::NotCallable),
        }
    }
}

/// `Return`: the root frame ends the program with the value; any other
/// frame gives way to its caller, which gets the value where there is one.
pub open spec fn step_return(m: MachineView, has_value: bool) -> (MachineView, SignalView) {
    if has_value && m.depth() < 1 {
        fail(m, Fault::StackUnderflow)
    } else {
        let value = if has_value {
            m.peek(0)
        } else {
            ValueView::Null
        };
        match m.frame.return_position {
            None => (m, SignalView::Finished(value)),
            Some(position) => if m.callers.len() == 0 {
                fail(m, Fault::NoCaller)
            } else {
                go(
                    MachineView {
                        callers: m.callers.drop_last(),
                        frame: if has_value {
                            m.callers.last().push(value)
                        } else {
                            m.callers.last()
                        },
                        ip: position,
                        ..m
                    },
                )
            },
        }
    }
}

/// `Jump`: goes on `delta` instructions from this one.
pub open spec fn step_jump(m: MachineView, delta: i64) -> (MachineView, SignalView) {
    match jump_target(m, delta) {
        Some(target) => go(m.with_ip(target)),
        None => fail(m, Fault::BadJump),
    }
}

/// `JumpIfFalse`: takes a value; on `false` it goes on `delta` instructions
/// from this one, on anything else with the next instruction.
pub open spec fn step_jump_if_false(m: MachineView, delta: i64) -> (MachineView, SignalView) {
    if m.depth() < 1 {
        fail(m, Fault::StackUnderflow)
    } else {
        match m.peek(0) {
            ValueView::Bool(false) => match jump_target(m, delta) {
                Some(target) => go(m.drop_top(1).with_ip(target)),
                None => fail(m, Fault::BadJump),
            },
            _ => go(m.drop_top(1).advance()),
        }
    }
}

/// `Add`, `Sub`, `Multiply`, `Divide` and `Pow`: take two values and push
/// what the operator makes of them.
pub open spec fn step_arithmetic(m: MachineView, operator: Operator) -> (MachineView, SignalView) {
    if m.depth() < 2 {
        fail(m, Fault::StackUnderflow)
    } else {
        match operated(operator, m.peek(1), m.peek(0)) {
            OutcomeView::Value(value) => go(m.drop_top(2).push(value).advance()),
            OutcomeView::Float(op, a, b) => ask(
                m.drop_top(2),
                RequestView::Arithmetic(op, a, b),
                ResumeView::PushFloat,
            ),
            OutcomeView::Joined(left, bits) => ask(
                m.drop_top(2),
                RequestView::Render(bits),
                ResumeView::Concat(left),
            ),
            OutcomeView::Extended(target, source) => if is_array(m.store, target) && is_array(
                m.store,
                source,
            ) {
                go(
                    m.drop_top(2).with_store(
                        m.store.update(
                            target as int,
                            CellView::Array(
                                items_at(m.store, target) + items_at(m.store, source),
                            ),
                        ),
                    ).push(ValueView::Array(target)).advance(),
                )
            } else {
                fail(m, Fault::NotAnArray)
            },
            OutcomeView::Failed(fault) => fail(m, fault),
        }
    }
}

/// `Equal` and `NotEqual`: take two values and push whether they are
/// equal, or whether they are not. The test enters as many shared values
/// one inside the other as the store has cells: values that are nested
/// deeper than that are nested in themselves, and are not compared.
pub open spec fn step_equal(m: MachineView, negate: bool) -> (MachineView, SignalView) {
    if m.depth() < 2 {
        fail(m, Fault::StackUnderflow)
    } else {
        match equal_values(m.store, m.peek(1), m.peek(0), m.store.len()) {
            Some(equal) => go(m.drop_top(2).push(ValueView::Bool(equal != negate)).advance()),
            None => fail(m, Fault::TooDeep),
        }
    }
}

/// The ordering comparisons: take two numbers and push whether the
/// comparison holds of them.
pub open spec fn step_compare(m: MachineView, comparison: Comparison) -> (
    MachineView,
    SignalView,
) {
    if m.depth() < 2 {
        fail(m, Fault::StackUnderflow)
    } else {
        match standing(m.peek(1), m.peek(0)) {
            Standing::Known(order) => go(
                m.drop_top(2).push(ValueView::Bool(holds(comparison, order))).advance(),
            ),
            Standing::Asked(a, b) => ask(
                m.drop_top(2),
                RequestView::Compare(a, b),
                ResumeView::PushComparison(comparison),
            ),
            Standing::Incomparable => fail(m, Fault::BadOperands),
        }
    }
}

/// What the instruction does in state `m`.
pub open spec fn execute(m: MachineView, instruction: InstructionView) -> (
    MachineView,
    SignalView,
) {
    match instruction {
        InstructionView::Assert => step_assert(m),
        InstructionView::Print => step_print(m),
        InstructionView::StackPush(literal) => step_push(m, literal),
        InstructionView::Pop(count) => step_pop(m, count),
        InstructionView::StoreLocalVariable(slot) => step_move_to_local(m, slot),
        InstructionView::MoveToLocalVariable(slot) => step_move_to_local(m, slot),
        InstructionView::CopyToLocalVariable(slot) => step_copy_to_local(m, slot),
        InstructionView::LoadLocalVariable(slot) => step_load_local(m, slot),
        InstructionView::LoadGlobal(index) => step_load_global(m, index),
        InstructionView::CreateObject => step_create_object(m),
        InstructionView::DictionaryAdd => step_dictionary_add(m),
        InstructionView::ArrayLength => step_array_length(m),
        InstructionView::ArrayAdd => step_array_add(m),
        InstructionView::GetCollectionItemByKey => step_get_item(m),
        InstructionView::SetCollectionItemByKey => step_set_item(m),
        InstructionView::Call(count) => step_call(m, count),
        InstructionView::Jump(delta) => step_jump(m, delta),
        InstructionView::JumpIfFalse(delta) => step_jump_if_false(m, delta),
        InstructionView::Return(has_value) => step_return(m, has_value),
        InstructionView::Equal => step_equal(m, false),
        InstructionView::NotEqual => step_equal(m, true),
        InstructionView::Add => step_arithmetic(m, Operator::Add),
        InstructionView::Sub => step_arithmetic(m, Operator::Sub),
        InstructionView::Multiply => step_arithmetic(m, Operator::Mul),
        InstructionView::Divide => step_arithmetic(m, Operator::Div),
        InstructionView::Pow => step_arithmetic(m, Operator::Pow),
        InstructionView::LessThan => step_compare(m, Comparison::LessThan),
        InstructionView::LessThanOrEqual => step_compare(m, Comparison::LessThanOrEqual),
        InstructionView::GreaterThan => step_compare(m, Comparison::GreaterThan),
        InstructionView::GreaterThanOrEqual => step_compare(m, Comparison::GreaterThanOrEqual),
        InstructionView::Halt(_) => (m, SignalView::Finished(result_of(m))),
    }
}

/// One step of the machine. A machine that waits for the host asks again; one
/// that stands at the end of the program has finished; one that stands
/// beyond it has failed; any other runs the instruction at `ip`.
pub open spec fn step(m: MachineView) -> (MachineView, SignalView) {
    if m.awaited is Some {
        (m, SignalView::Waiting(m.awaited->0.request))
    } else if m.ip > m.instructions.len() {
        fail(m, Fault::BadJump)
    } else if m.ip == m.instructions.len() {
        (m, SignalView::Finished(result_of(m)))
    } else {
        execute(m, m.instructions[m.ip as int])
    }
}

/// The state after the host's answer, where the machine waits for an answer
/// of this kind.
pub open spec fn resume(m: MachineView, reply: ReplyView) -> Option<MachineView> {
    match m.awaited {
        None => None,
        Some(awaited) => match (awaited.resume, reply) {
            (ResumeView::PushFloat, ReplyView::Bits(bits)) => Some(
                m.settle().push(ValueView::Float(bits)).advance(),
            ),
            (ResumeView::PushComparison(comparison), ReplyView::Order(order)) => Some(
                m.settle().push(ValueView::Bool(holds(comparison, order))).advance(),
            ),
            (ResumeView::Print, ReplyView::Text(text)) => Some(m.settle().print(text).advance()),
            (ResumeView::Concat(left), ReplyView::Text(text)) => Some(
                m.settle().push(ValueView::String(left + text)).advance(),
            ),
            (ResumeView::DictionaryKey(dictionary, value), ReplyView::Text(text)) => if is_dictionary(
                m.store,
                dictionary,
            ) {
                Some(
                    m.settle().with_store(
                        m.store.update(
                            dictionary as int,
                            with_binding(m.store[dictionary as int], text, value),
                        ),
                    ).push(ValueView::Dictionary(dictionary)).advance(),
                )
            } else {
                None
            },
            _ => None,
        },
    }
}

/// The state and signal after at most `fuel` steps: the run stops at the
/// first step that does not say `Continue`.
pub open spec fn run(m: MachineView, fuel: nat) -> (MachineView, SignalView)
    decreases fuel,
{
    if fuel == 0 {
        (m, SignalView::Continue)
    } else {
        let (next, signal) = step(m);
        match signal {
            SignalView::Continue => run(next, (fuel - 1) as nat),
            _ => (next, signal),
        }
    }
}

} // verus!
