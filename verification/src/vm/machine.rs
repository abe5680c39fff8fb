//! The machine that runs a program.

use vstd::prelude::*;
use vstd::string::StringExecFns;
use crate::table::{Table, lookup};
use crate::vm::frame::{Frame, FrameView};
use crate::vm::host::{Error, Fault, Reply, Request, Signal, SignalView};
use crate::vm::instruction::{Instruction, Literal, code};
use crate::vm::number::{Comparison, Operator, decide};
use crate::vm::operation::{Outcome, Standing};
use crate::vm::program::{Program, ProgramView};
use crate::vm::semantics::{
    AwaitedView,
    MachineView,
    ResumeView,
    item_of,
    jump_target,
    store_with_item,
    result_of,
    resume,
    run,
    step,
    step_arithmetic,
    step_array_add,
    step_array_length,
    step_assert,
    step_call,
    step_compare,
    step_copy_to_local,
    step_create_object,
    step_dictionary_add,
    step_equal,
    step_get_item,
    step_jump,
    step_jump_if_false,
    step_load_global,
    step_load_local,
    step_move_to_local,
    step_pop,
    step_print,
    step_push,
    step_return,
    step_set_item,
};
use crate::vm::store::{Cell, CellView, Fields, Store, fields_at, is_class};
use crate::vm::value::{Value, ValueView, views};

verus! {

enum Resume {
    PushFloat,
    PushComparison(Comparison),
    Print,
    Concat(String),
    DictionaryKey(usize, Value),
}

impl View for Resume {
    type V = ResumeView;

    closed spec fn view(&self) -> ResumeView {
        match self {
            Resume::PushFloat => ResumeView::PushFloat,
            Resume::PushComparison(comparison) => ResumeView::PushComparison(*comparison),
            Resume::Print => ResumeView::Print,
            Resume::Concat(left) => ResumeView::Concat(left@),
            Resume::DictionaryKey(dictionary, value) => ResumeView::DictionaryKey(
                *dictionary,
                value@,
            ),
        }
    }
}

struct Awaited {
    request: Request,
    resume: Resume,
}

impl View for Awaited {
    type V = AwaitedView;

    closed spec fn view(&self) -> AwaitedView {
        AwaitedView { request: self.request@, resume: self.resume@ }
    }
}

/// The virtual machine: a program, the store, the frames of the calls that
/// are under way, and the place of the next instruction.
pub struct VM {
    instructions: Vec<Instruction>,
    functions: Table<usize>,
    frames: Vec<Frame>,
    frame: Frame,
    globals: Vec<Value>,
    store: Store,
    ip: usize,
    output: Vec<String>,
    awaited: Option<Awaited>,
}

/// The models of a sequence of lines.
pub open spec fn lines(output: Seq<String>) -> Seq<Seq<char>> {
    Seq::new(output.len(), |i: int| output[i]@)
}

/// The models of a sequence of frames.
pub open spec fn frame_views(frames: Seq<Frame>) -> Seq<FrameView> {
    Seq::new(frames.len(), |i: int| frames[i]@)
}

/// The root frame of a run: named `main`, called from nowhere, with the
/// arguments in its first slots.
pub open spec fn root_frame(arguments: Seq<ValueView>) -> FrameView {
    FrameView { name: "main"@, return_position: None, variables: arguments, stack: Seq::empty() }
}

/// The machine that was loaded with a program and has not run yet.
pub open spec fn loaded(program: ProgramView) -> MachineView {
    MachineView {
        instructions: program.instructions,
        symbols: program.symbols,
        globals: program.globals,
        store: program.store,
        callers: Seq::empty(),
        frame: root_frame(Seq::empty()),
        ip: 0,
        output: Seq::empty(),
        awaited: None,
    }
}

/// The machine at the start of a run of the function at `entry`: one root
/// frame, nothing awaited. What was printed before stays.
pub open spec fn started(m: MachineView, entry: usize, arguments: Seq<ValueView>) -> MachineView {
    MachineView {
        callers: Seq::empty(),
        frame: root_frame(arguments),
        ip: entry,
        awaited: None,
        ..m
    }
}

impl View for VM {
    type V = MachineView;

    closed spec fn view(&self) -> MachineView {
        MachineView {
            instructions: code(self.instructions@),
            symbols: self.functions@,
            globals: views(self.globals@),
            store: self.store@,
            callers: frame_views(self.frames@),
            frame: self.frame@,
            ip: self.ip,
            output: lines(self.output@),
            awaited: match self.awaited {
                Some(awaited) => Some(awaited@),
                None => None,
            },
        }
    }
}

impl VM {
    /// Loads a program.
    pub fn new(program: Program) -> (out: Self)
        ensures
            out@ == loaded(program@),
    {
        let out = VM {
            instructions: program.instructions,
            functions: program.symbols,
            globals: program.globals,
            store: program.store,
            frames: Vec::new(),
            frame: Frame::new(String::from_str("main"), None, Vec::new()),
            ip: 0,
            output: Vec::new(),
            awaited: None,
        };
        assert(out@.callers =~= Seq::empty());
        assert(out@.output =~= Seq::empty());
        assert(out@.frame.variables =~= Seq::empty());
        out
    }

    /// The place of the next instruction.
    pub fn position(&self) -> (ip: usize)
        ensures
            ip == self@.ip,
    {
        self.ip
    }

    /// The frame that runs.
    pub fn current_frame(&self) -> (frame: &Frame)
        ensures
            frame@ == self@.frame,
    {
        &self.frame
    }

    /// The store.
    pub fn store(&self) -> (store: &Store)
        ensures
            store@ == self@.store,
    {
        &self.store
    }

    /// The number of calls that wait for a callee to return.
    pub fn call_depth(&self) -> (n: usize)
        ensures
            n == self@.callers.len(),
    {
        self.frames.len()
    }

    /// The lines that were printed and not taken yet; they are taken by this.
    pub fn take_output(&mut self) -> (out: Vec<String>)
        ensures
            lines(out@) == old(self)@.output,
            final(self)@ == (MachineView { output: Seq::empty(), ..old(self)@ }),
    {
        let mut out: Vec<String> = Vec::new();
        out.append(&mut self.output);
        assert(lines(out@) =~= old(self)@.output);
        assert(self@.output =~= Seq::empty());
        out
    }

    fn advance(&mut self)
        ensures
            final(self)@ == old(self)@.advance(),
    {
        if self.ip < usize::MAX {
            self.ip = self.ip + 1;
        }
    }

    fn push(&mut self, value: Value)
        ensures
            final(self)@ == old(self)@.push(value@),
    {
        self.frame.push_value_to_stack(value);
    }

    fn drop_top(&mut self, count: usize)
        requires
            count <= old(self)@.depth(),
        ensures
            final(self)@ == old(self)@.drop_top(count as nat),
    {
        let _ = self.frame.pop_values_from_stack(count);
    }

    fn peek(&self, depth: usize) -> (value: &Value)
        requires
            depth < self@.depth(),
        ensures
            value@ == self@.peek(depth as nat),
    {
        let stack = self.frame.stack();
        &stack[stack.len() - 1 - depth]
    }

    fn wait(&mut self, request: Request, resume: Resume) -> (signal: Signal)
        ensures
            final(self)@ == old(self)@.wait(request@, resume@),
            signal@ == SignalView::Waiting(request@),
    {
        let copy = request.clone();
        self.awaited = Some(Awaited { request, resume });
        Signal::Waiting(copy)
    }
}

impl VM {
    fn do_assert(&mut self) -> (signal: Signal)
        ensures
            (final(self)@, signal@) == step_assert(old(self)@),
    {
        if self.frame.stack_len() < 1 {
            return Signal::Failed(Fault::StackUnderflow);
        }
        match self.peek(0) {
            Value::Bool(true) => {
                self.drop_top(1);
                self.advance();
                Signal::Continue
            },
            Value::Bool(false) => Signal::Failed(Fault::AssertionFailed),
            _ => Signal::Failed(Fault::NotABoolean),
        }
    }

    fn do_print(&mut self) -> (signal: Signal)
        ensures
            (final(self)@, signal@) == step_print(old(self)@),
    {
        if self.frame.stack_len() < 1 {
            return Signal::Failed(Fault::StackUnderflow);
        }
        let value = self.frame.pop_value_from_stack();
        match value.text() {
            Ok(line) => {
                self.print(line);
                self.advance();
                Signal::Continue
            },
            Err(bits) => self.wait(Request::Render(bits), Resume::Print),
        }
    }

    fn print(&mut self, line: String)
        ensures
            final(self)@ == old(self)@.print(line@),
    {
        self.output.push(line);
        assert(lines(self.output@) =~= lines(old(self).output@).push(line@));
    }

    fn do_push(&mut self, literal: Literal) -> (signal: Signal)
        ensures
            (final(self)@, signal@) == step_push(old(self)@, literal@),
    {
        match literal {
            Literal::Null => {
                self.push(Value::Null);
                self.advance();
                Signal::Continue
            },
            Literal::Integer(i) => {
                self.push(Value::Integer(i));
                self.advance();
                Signal::Continue
            },
            Literal::Float(text) => self.wait(Request::Read(text), Resume::PushFloat),
            Literal::Bool(b) => {
                self.push(Value::Bool(b));
                self.advance();
                Signal::Continue
            },
            Literal::String(s) => {
                self.push(Value::String(s));
                self.advance();
                Signal::Continue
            },
            Literal::Array => {
                let items: Vec<Value> = Vec::new();
                assert(views(items@) =~= Seq::empty());
                let address = self.store.allocate(Cell::Array(items));
                self.push(Value::Array(address));
                self.advance();
                Signal::Continue
            },
            Literal::Dictionary => {
                let address = self.store.allocate(Cell::Dictionary(Table::new()));
                self.push(Value::Dictionary(address));
                self.advance();
                Signal::Continue
            },
            Literal::FunctionRef(name) => {
                self.push(Value::FunctionRef(name));
                self.advance();
                Signal::Continue
            },
        }
    }

    fn do_pop(&mut self, count: usize) -> (signal: Signal)
        ensures
            (final(self)@, signal@) == step_pop(old(self)@, count),
    {
        if self.frame.stack_len() < count {
            return Signal::Failed(Fault::StackUnderflow);
        }
        self.drop_top(count);
        self.advance();
        Signal::Continue
    }

    fn do_move_to_local(&mut self, slot: usize) -> (signal: Signal)
        ensures
            (final(self)@, signal@) == step_move_to_local(old(self)@, slot),
    {
        if self.frame.stack_len() < 1 {
            return Signal::Failed(Fault::StackUnderflow);
        }
        self.frame.move_from_stack_to_variable_slot(slot);
        self.advance();
        Signal::Continue
    }

    fn do_copy_to_local(&mut self, slot: usize) -> (signal: Signal)
        ensures
            (final(self)@, signal@) == step_copy_to_local(old(self)@, slot),
    {
        if self.frame.stack_len() < 1 {
            return Signal::Failed(Fault::StackUnderflow);
        }
        self.frame.copy_from_stack_to_variable_slot(slot);
        self.advance();
        Signal::Continue
    }

    fn do_load_local(&mut self, slot: usize) -> (signal: Signal)
        ensures
            (final(self)@, signal@) == step_load_local(old(self)@, slot),
    {
        if slot >= self.frame.variables_len() {
            return Signal::Failed(Fault::UnknownSlot);
        }
        self.frame.copy_from_variable_slot_to_stack(slot);
        self.advance();
        Signal::Continue
    }

    fn do_load_global(&mut self, index: usize) -> (signal: Signal)
        ensures
            (final(self)@, signal@) == step_load_global(old(self)@, index),
    {
        if index >= self.globals.len() {
            return Signal::Failed(Fault::UnknownGlobal);
        }
        let value = self.globals[index].clone();
        self.push(value);
        self.advance();
        Signal::Continue
    }
}

impl VM {
    fn do_create_object(&mut self) -> (signal: Signal)
        ensures
            (final(self)@, signal@) == step_create_object(old(self)@),
    {
        if self.frame.stack_len() < 1 {
            return Signal::Failed(Fault::StackUnderflow);
        }
        let class = match self.peek(0) {
            Value::Class(class) => *class,
            _ => {
                return Signal::Failed(Fault::NotAClass);
            },
        };
        match self.store.get(class) {
            Some(Cell::Class(_)) => {},
            _ => {
                return Signal::Failed(Fault::NotAClass);
            },
        }
        self.drop_top(1);
        let address = self.store.instantiate(class);
        self.push(Value::Object(address));
        self.advance();
        Signal::Continue
    }

    fn do_array_length(&mut self) -> (signal: Signal)
        ensures
            (final(self)@, signal@) == step_array_length(old(self)@),
    {
        if self.frame.stack_len() < 1 {
            return Signal::Failed(Fault::StackUnderflow);
        }
        let array = match self.peek(0) {
            Value::Array(array) => *array,
            _ => {
                return Signal::Failed(Fault::NotAnArray);
            },
        };
        let length = match self.store.get(array) {
            Some(Cell::Array(items)) => items.len(),
            _ => {
                return Signal::Failed(Fault::NotAnArray);
            },
        };
        if length > 2147483647 {
            return Signal::Failed(Fault::Overflow);
        }
        self.drop_top(1);
        self.push(Value::Integer(length as i32));
        self.advance();
        Signal::Continue
    }

    fn do_array_add(&mut self) -> (signal: Signal)
        ensures
            (final(self)@, signal@) == step_array_add(old(self)@),
    {
        if self.frame.stack_len() < 2 {
            return Signal::Failed(Fault::StackUnderflow);
        }
        let array = match self.peek(1) {
            Value::Array(array) => *array,
            _ => {
                return Signal::Failed(Fault::NotAnArray);
            },
        };
        match self.store.get(array) {
            Some(Cell::Array(_)) => {},
            _ => {
                return Signal::Failed(Fault::NotAnArray);
            },
        }
        let value = self.frame.pop_value_from_stack();
        self.drop_top(1);
        assert(self@.frame.stack =~= old(self)@.frame.drop_top(2).stack);
        self.store.array_push(array, value);
        self.push(Value::Array(array));
        self.advance();
        Signal::Continue
    }

    fn do_dictionary_add(&mut self) -> (signal: Signal)
        ensures
            (final(self)@, signal@) == step_dictionary_add(old(self)@),
    {
        if self.frame.stack_len() < 3 {
            return Signal::Failed(Fault::StackUnderflow);
        }
        let dictionary = match self.peek(2) {
            Value::Dictionary(dictionary) => *dictionary,
            _ => {
                return Signal::Failed(Fault::NotADictionary);
            },
        };
        match self.store.get(dictionary) {
            Some(Cell::Dictionary(_)) => {},
            _ => {
                return Signal::Failed(Fault::NotADictionary);
            },
        }
        let value = self.frame.pop_value_from_stack();
        let key = self.frame.pop_value_from_stack();
        self.drop_top(1);
        assert(self@.frame.stack =~= old(self)@.frame.drop_top(3).stack);
        match key.text() {
            Ok(text) => {
                self.store.table_insert(dictionary, text, value);
                self.push(Value::Dictionary(dictionary));
                self.advance();
                Signal::Continue
            },
            Err(bits) => self.wait(
                Request::Render(bits),
                Resume::DictionaryKey(dictionary, value),
            ),
        }
    }

    /// Reads the item that `key` selects in `collection`.
    fn item(&self, collection: &Value, key: &Value) -> (out: Result<Value, Fault>)
        ensures
            match out {
                Ok(value) => item_of(self@.store, collection@, key@) == Ok::<ValueView, Fault>(value@),
                Err(fault) => item_of(self@.store, collection@, key@) == Err::<ValueView, Fault>(fault),
            },
    {
        match collection {
            Value::Array(array) => {
                match self.store.get(*array) {
                    Some(Cell::Array(items)) => {
                        match key {
                            Value::Integer(i) => {
                                if *i >= 0 && (*i as usize) < items.len() {
                                    Ok(items[*i as usize].clone())
                                } else {
                                    Err(Fault::IndexOutOfBounds)
                                }
                            },
                            _ => Err(Fault::BadKey),
                        }
                    },
                    _ => Err(Fault::NotACollection),
                }
            },
            Value::Dictionary(dictionary) => {
                match self.store.get(*dictionary) {
                    Some(Cell::Dictionary(fields)) => {
                        match key {
                            Value::String(k) => {
                                match fields.get(k) {
                                    Some(value) => Ok(value.clone()),
                                    None => Err(Fault::MissingKey),
                                }
                            },
                            _ => Err(Fault::BadKey),
                        }
                    },
                    _ => Err(Fault::NotACollection),
                }
            },
            Value::Object(object) => {
                match self.store.get(*object) {
                    Some(Cell::Object(fields)) => {
                        match key {
                            Value::String(k) => {
                                match fields.get(k) {
                                    Some(value) => Ok(value.clone()),
                                    None => Err(Fault::MissingMember),
                                }
                            },
                            _ => Err(Fault::BadKey),
                        }
                    },
                    _ => Err(Fault::NotACollection),
                }
            },
            _ => Err(Fault::NotACollection),
        }
    }

    fn do_get_item(&mut self) -> (signal: Signal)
        ensures
            (final(self)@, signal@) == step_get_item(old(self)@),
    {
        if self.frame.stack_len() < 2 {
            return Signal::Failed(Fault::StackUnderflow);
        }
        match self.item(self.peek(1), self.peek(0)) {
            Ok(value) => {
                self.drop_top(2);
                self.push(value);
                self.advance();
                Signal::Continue
            },
            Err(fault) => Signal::Failed(fault),
        }
    }

    /// Whether `key` can be set in `collection`.
    fn settable(&self, collection: &Value, key: &Value) -> (out: Result<(), Fault>)
        ensures
            match out {
                Ok(_) => store_with_item(self@.store, collection@, key@, ValueView::Null) is Ok,
                Err(fault) => store_with_item(self@.store, collection@, key@, ValueView::Null)
                    == Err::<Seq<CellView>, Fault>(fault),
            },
    {
        match collection {
            Value::Array(array) => {
                match self.store.get(*array) {
                    Some(Cell::Array(items)) => {
                        match key {
                            Value::Integer(i) => {
                                if *i >= 0 && (*i as usize) < items.len() {
                                    Ok(())
                                } else {
                                    Err(Fault::IndexOutOfBounds)
                                }
                            },
                            _ => Err(Fault::BadKey),
                        }
                    },
                    _ => Err(Fault::NotACollection),
                }
            },
            Value::Dictionary(dictionary) => {
                match self.store.get(*dictionary) {
                    Some(Cell::Dictionary(_)) => {
                        match key {
                            Value::String(_) => Ok(()),
                            _ => Err(Fault::BadKey),
                        }
                    },
                    _ => Err(Fault::NotACollection),
                }
            },
            Value::Object(object) => {
                match self.store.get(*object) {
                    Some(Cell::Object(_)) => {
                        match key {
                            Value::String(_) => Ok(()),
                            _ => Err(Fault::BadKey),
                        }
                    },
                    _ => Err(Fault::NotACollection),
                }
            },
            _ => Err(Fault::NotACollection),
        }
    }

    fn do_set_item(&mut self) -> (signal: Signal)
        ensures
            (final(self)@, signal@) == step_set_item(old(self)@),
    {
        if self.frame.stack_len() < 3 {
            return Signal::Failed(Fault::StackUnderflow);
        }
        match self.settable(self.peek(2), self.peek(0)) {
            Ok(_) => {},
            Err(fault) => {
                return Signal::Failed(fault);
            },
        }
        let key = self.frame.pop_value_from_stack();
        let value = self.frame.pop_value_from_stack();
        let collection = self.frame.pop_value_from_stack();
        assert(self@.frame.stack =~= old(self)@.frame.drop_top(3).stack);
        match (&collection, key) {
            (Value::Array(array), Value::Integer(i)) => {
                self.store.array_set(*array, i as usize, value);
            },
            (Value::Dictionary(dictionary), Value::String(k)) => {
                self.store.table_insert(*dictionary, k, value);
            },
            (Value::Object(object), Value::String(k)) => {
                self.store.table_insert(*object, k, value);
            },
            _ => {},
        }
        self.push(collection);
        self.advance();
        Signal::Continue
    }
}

impl VM {
    fn do_call(&mut self, count: usize) -> (signal: Signal)
        ensures
            (final(self)@, signal@) == step_call(old(self)@, count),
    {
        if self.frame.stack_len() <= count {
            return Signal::Failed(Fault::StackUnderflow);
        }
        let (name, entry) = match self.peek(count) {
            Value::FunctionRef(name) => {
                match self.functions.get(name) {
                    Some(entry) => (name.clone(), *entry),
                    None => {
                        return Signal::Failed(Fault::UnknownFunction);
                    },
                }
            },
            _ => {
                return Signal::Failed(Fault::NotCallable);
            },
        };
        let arguments = self.frame.pop_values_from_stack(count);
        self.drop_top(1);
        assert(self@.frame.stack =~= old(self)@.frame.drop_top((count + 1) as nat).stack);
        let back = if self.ip < usize::MAX {
            self.ip + 1
        } else {
            self.ip
        };
        let mut callee = Frame::new(name, Some(back), arguments);
        core::mem::swap(&mut self.frame, &mut callee);
        self.frames.push(callee);
        self.ip = entry;
        assert(self@.callers =~= old(self)@.callers.push(
            old(self)@.frame.drop_top((count + 1) as nat),
        ));
        Signal::Continue
    }

    fn do_return(&mut self, has_value: bool) -> (signal: Signal)
        ensures
            (final(self)@, signal@) == step_return(old(self)@, has_value),
    {
        if has_value && self.frame.stack_len() < 1 {
            return Signal::Failed(Fault::StackUnderflow);
        }
        let value = if has_value {
            self.frame.get_top_value_on_stack()
        } else {
            Value::Null
        };
        match self.frame.get_return_position() {
            None => Signal::Finished(value),
            Some(position) => {
                match self.frames.pop() {
                    None => Signal::Failed(Fault::NoCaller),
                    Some(caller) => {
                        self.frame = caller;
                        if has_value {
                            self.frame.push_value_to_stack(value);
                        }
                        self.ip = position;
                        assert(self@.callers =~= old(self)@.callers.drop_last());
                        Signal::Continue
                    },
                }
            },
        }
    }

    /// Where a jump by `delta` lands.
    fn target(&self, delta: i64) -> (out: Option<usize>)
        ensures
            out == jump_target(self@, delta),
    {
        let wide: i128 = self.ip as i128 + delta as i128;
        if 0 <= wide && wide <= self.instructions.len() as i128 {
            Some(wide as usize)
        } else {
            None
        }
    }

    fn do_jump(&mut self, delta: i64) -> (signal: Signal)
        ensures
            (final(self)@, signal@) == step_jump(old(self)@, delta),
    {
        match self.target(delta) {
            Some(target) => {
                self.ip = target;
                Signal::Continue
            },
            None => Signal::Failed(Fault::BadJump),
        }
    }

    fn do_jump_if_false(&mut self, delta: i64) -> (signal: Signal)
        ensures
            (final(self)@, signal@) == step_jump_if_false(old(self)@, delta),
    {
        if self.frame.stack_len() < 1 {
            return Signal::Failed(Fault::StackUnderflow);
        }
        match self.peek(0) {
            Value::Bool(false) => {
                match self.target(delta) {
                    Some(target) => {
                        self.drop_top(1);
                        self.ip = target;
                        Signal::Continue
                    },
                    None => Signal::Failed(Fault::BadJump),
                }
            },
            _ => {
                self.drop_top(1);
                self.advance();
                Signal::Continue
            },
        }
    }

    fn replace_top(&mut self, count: usize, value: Value) -> (signal: Signal)
        requires
            count <= old(self)@.depth(),
        ensures
            final(self)@ == old(self)@.drop_top(count as nat).push(value@).advance(),
            signal@ == SignalView::Continue,
    {
        self.drop_top(count);
        self.push(value);
        self.advance();
        Signal::Continue
    }

    fn do_arithmetic(&mut self, operator: Operator) -> (signal: Signal)
        ensures
            (final(self)@, signal@) == step_arithmetic(old(self)@, operator),
    {
        if self.frame.stack_len() < 2 {
            return Signal::Failed(Fault::StackUnderflow);
        }
        match self.peek(1).operate(operator, self.peek(0)) {
            Outcome::Value(value) => self.replace_top(2, value),
            Outcome::Float(op, a, b) => {
                self.drop_top(2);
                self.wait(Request::Arithmetic(op, a, b), Resume::PushFloat)
            },
            Outcome::Joined(left, bits) => {
                self.drop_top(2);
                self.wait(Request::Render(bits), Resume::Concat(left))
            },
            Outcome::Extended(target, source) => {
                match (self.store.get(target), self.store.get(source)) {
                    (Some(Cell::Array(_)), Some(Cell::Array(_))) => {
                        self.store.array_extend(target, source);
                        self.replace_top(2, Value::Array(target))
                    },
                    _ => Signal::Failed(Fault::NotAnArray),
                }
            },
            Outcome::Failed(fault) => Signal::Failed(fault),
        }
    }

    fn do_equal(&mut self, negate: bool) -> (signal: Signal)
        ensures
            (final(self)@, signal@) == step_equal(old(self)@, negate),
    {
        if self.frame.stack_len() < 2 {
            return Signal::Failed(Fault::StackUnderflow);
        }
        match self.store.equal(self.peek(1), self.peek(0), self.store.len()) {
            Some(equal) => self.replace_top(2, Value::Bool(equal != negate)),
            None => Signal::Failed(Fault::TooDeep),
        }
    }

    fn do_compare(&mut self, comparison: Comparison) -> (signal: Signal)
        ensures
            (final(self)@, signal@) == step_compare(old(self)@, comparison),
    {
        if self.frame.stack_len() < 2 {
            return Signal::Failed(Fault::StackUnderflow);
        }
        match self.peek(1).partial_cmp(self.peek(0)) {
            Standing::Known(order) => self.replace_top(2, Value::Bool(decide(comparison, order))),
            Standing::Asked(a, b) => {
                self.drop_top(2);
                self.wait(Request::Compare(a, b), Resume::PushComparison(comparison))
            },
            Standing::Incomparable => Signal::Failed(Fault::BadOperands),
        }
    }

    /// The result of a program that stops here.
    fn result(&self) -> (value: Value)
        ensures
            value@ == result_of(self@),
    {
        if self.frame.stack_len() > 0 {
            self.frame.get_top_value_on_stack()
        } else {
            Value::Null
        }
    }

    /// Runs one instruction.
    pub fn step(&mut self) -> (signal: Signal)
        ensures
            (final(self)@, signal@) == step(old(self)@),
    {
        match &self.awaited {
            Some(awaited) => {
                return Signal::Waiting(awaited.request.clone());
            },
            None => {},
        }
        if self.ip > self.instructions.len() {
            return Signal::Failed(Fault::BadJump);
        }
        if self.ip == self.instructions.len() {
            return Signal::Finished(self.result());
        }
        let instruction = self.instructions[self.ip].clone();
        match instruction {
            Instruction::Assert => self.do_assert(),
            Instruction::Print => self.do_print(),
            Instruction::StackPush(literal) => self.do_push(literal),
            Instruction::Pop(count) => self.do_pop(count),
            Instruction::StoreLocalVariable(slot) => self.do_move_to_local(slot),
            Instruction::MoveToLocalVariable(slot) => self.do_move_to_local(slot),
            Instruction::CopyToLocalVariable(slot) => self.do_copy_to_local(slot),
            Instruction::LoadLocalVariable(slot) => self.do_load_local(slot),
            Instruction::LoadGlobal(index) => self.do_load_global(index),
            Instruction::CreateObject => self.do_create_object(),
            Instruction::DictionaryAdd => self.do_dictionary_add(),
            Instruction::ArrayLength => self.do_array_length(),
            Instruction::ArrayAdd => self.do_array_add(),
            Instruction::GetCollectionItemByKey => self.do_get_item(),
            Instruction::SetCollectionItemByKey => self.do_set_item(),
            Instruction::Call(count) => self.do_call(count),
            Instruction::Jump(delta) => self.do_jump(delta),
            Instruction::JumpIfFalse(delta) => self.do_jump_if_false(delta),
            Instruction::Return(has_value) => self.do_return(has_value),
            Instruction::Equal => self.do_equal(false),
            Instruction::NotEqual => self.do_equal(true),
            Instruction::Add => self.do_arithmetic(Operator::Add),
            Instruction::Sub => self.do_arithmetic(Operator::Sub),
            Instruction::Multiply => self.do_arithmetic(Operator::Mul),
            Instruction::Divide => self.do_arithmetic(Operator::Div),
            Instruction::Pow => self.do_arithmetic(Operator::Pow),
            Instruction::LessThan => self.do_compare(Comparison::LessThan),
            Instruction::LessThanOrEqual => self.do_compare(Comparison::LessThanOrEqual),
            Instruction::GreaterThan => self.do_compare(Comparison::GreaterThan),
            Instruction::GreaterThanOrEqual => self.do_compare(Comparison::GreaterThanOrEqual),
            Instruction::Halt(_) => Signal::Finished(self.result()),
        }
    }

    /// Runs at most `fuel` instructions, and stops before that where the
    /// program ends, fails or asks the host. `Continue` says that the fuel
    /// ran out.
    pub fn run(&mut self, fuel: u64) -> (signal: Signal)
        ensures
            (final(self)@, signal@) == run(old(self)@, fuel as nat),
    {
        let mut left: u64 = fuel;
        while left > 0
            invariant
                run(old(self)@, fuel as nat) == run(self@, left as nat),
            decreases left,
        {
            let signal = self.step();
            match signal {
                Signal::Continue => {},
                other => {
                    return other;
                },
            }
            left = left - 1;
        }
        Signal::Continue
    }
}

/// How a run that cannot ask the host ends: with the program's result, or
/// with the fault that stopped it. A question to the host stops it, and so
/// does the end of the fuel.
pub open spec fn outcome(signal: SignalView) -> Result<ValueView, Fault> {
    match signal {
        SignalView::Finished(value) => Ok(value),
        SignalView::Failed(fault) => Err(fault),
        SignalView::Waiting(_) => Err(Fault::HostNeeded),
        SignalView::Continue => Err(Fault::StepLimit),
    }
}

impl VM {
    /// Whether the machine waits for an answer that `reply` can be.
    fn expects(&self, reply: &Reply) -> (out: bool)
        ensures
            out == (resume(self@, reply@) is Some),
    {
        match &self.awaited {
            None => false,
            Some(awaited) => {
                match (&awaited.resume, reply) {
                    (Resume::PushFloat, Reply::Bits(_)) => true,
                    (Resume::PushComparison(_), Reply::Order(_)) => true,
                    (Resume::Print, Reply::Text(_)) => true,
                    (Resume::Concat(_), Reply::Text(_)) => true,
                    (Resume::DictionaryKey(dictionary, _), Reply::Text(_)) => {
                        match self.store.get(*dictionary) {
                            Some(Cell::Dictionary(_)) => true,
                            _ => false,
                        }
                    },
                    _ => false,
                }
            },
        }
    }

    /// Hands the host's answer to a machine that waits for it. The answer is
    /// refused, and nothing changes, where the machine waits for nothing or
    /// for an answer of another kind.
    pub fn resume(&mut self, reply: Reply) -> (accepted: bool)
        ensures
            match resume(old(self)@, reply@) {
                Some(next) => accepted && final(self)@ == next,
                None => !accepted && final(self)@ == old(self)@,
            },
    {
        if !self.expects(&reply) {
            return false;
        }
        let mut awaited: Option<Awaited> = None;
        core::mem::swap(&mut self.awaited, &mut awaited);
        assert(self@ == old(self)@.settle());
        match awaited {
            None => {},
            Some(awaited) => {
                match (awaited.resume, reply) {
                    (Resume::PushFloat, Reply::Bits(bits)) => {
                        self.push(Value::Float(bits));
                    },
                    (Resume::PushComparison(comparison), Reply::Order(order)) => {
                        self.push(Value::Bool(decide(comparison, order)));
                    },
                    (Resume::Print, Reply::Text(text)) => {
                        self.print(text);
                    },
                    (Resume::Concat(left), Reply::Text(text)) => {
                        self.push(Value::String(left.concat(text.as_str())));
                    },
                    (Resume::DictionaryKey(dictionary, value), Reply::Text(text)) => {
                        self.store.table_insert(dictionary, text, value);
                        self.push(Value::Dictionary(dictionary));
                    },
                    _ => {},
                }
            },
        }
        self.advance();
        true
    }

    /// Makes the machine ready to run the function `entry` with the given
    /// arguments in the first slots of a root frame. Fails, and changes
    /// nothing, where the program has no such function.
    pub fn start(&mut self, entry: &str, parameters: Option<Vec<Value>>) -> (out: Result<(), Fault>)
        ensures
            match lookup(old(self)@.symbols, entry@) {
                Some(position) => out is Ok && final(self)@ == started(
                    old(self)@,
                    position,
                    arguments_of(parameters),
                ),
                None => out == Err::<(), Fault>(Fault::UnknownFunction) && final(self)@ == old(
                    self,
                )@,
            },
    {
        let name = String::from_str(entry);
        let position = match self.functions.get(&name) {
            Some(position) => *position,
            None => {
                return Err(Fault::UnknownFunction);
            },
        };
        let arguments = match parameters {
            Some(values) => values,
            None => Vec::new(),
        };
        assert(views(arguments@) =~= arguments_of(parameters));
        self.frames = Vec::new();
        self.frame = Frame::new(String::from_str("main"), None, arguments);
        self.ip = position;
        self.awaited = None;
        assert(self@.callers =~= Seq::empty());
        Ok(())
    }

    /// Runs the function `entry` to its end and returns the program's result.
    ///
    /// The run fails where the program has no function `entry`, where an
    /// instruction fails, where an instruction needs the host, and after
    /// `u64::MAX` steps.
    pub fn exec(&mut self, entry: &str, parameters: Option<Vec<Value>>) -> (out: Result<
        Value,
        Error,
    >)
        ensures
            match lookup(old(self)@.symbols, entry@) {
                Some(position) => {
                    let end = run(
                        started(old(self)@, position, arguments_of(parameters)),
                        u64::MAX as nat,
                    );
                    &&& final(self)@ == end.0
                    &&& match out {
                        Ok(value) => outcome(end.1) == Ok::<ValueView, Fault>(value@),
                        Err(error) => outcome(end.1) == Err::<ValueView, Fault>(error.fault)
                            && error.function@ == end.0.frame.name && error.position == end.0.ip,
                    }
                },
                None => {
                    &&& final(self)@ == old(self)@
                    &&& out matches Err(error)
                    &&& error.fault == Fault::UnknownFunction
                    &&& error.function@ == old(self)@.frame.name
                    &&& error.position == old(self)@.ip
                },
            },
    {
        match self.start(entry, parameters) {
            Ok(_) => {},
            Err(fault) => {
                return Err(self.error(fault));
            },
        }
        match self.run(u64::MAX) {
            Signal::Finished(value) => Ok(value),
            Signal::Failed(fault) => Err(self.error(fault)),
            Signal::Waiting(_) => Err(self.error(Fault::HostNeeded)),
            Signal::Continue => Err(self.error(Fault::StepLimit)),
        }
    }

    /// The error that says where the machine stands.
    pub fn error(&self, fault: Fault) -> (out: Error)
        ensures
            out.fault == fault,
            out.function@ == self@.frame.name,
            out.position == self@.ip,
    {
        Error { fault, function: self.frame.get_name().clone(), position: self.ip }
    }
}

/// Whether a member from position `from` on is a reference to the function
/// `name`.
pub open spec fn refers(fields: Fields, name: Seq<char>, from: nat) -> bool
    decreases fields.len() - from,
{
    if from >= fields.len() {
        false
    } else if fields[from as int].1 == ValueView::FunctionRef(name) {
        true
    } else {
        refers(fields, name, from + 1)
    }
}

/// The address of the first class among the globals from position `from` on
/// that has the function `name` as a member.
pub open spec fn owner_from(m: MachineView, name: Seq<char>, from: nat) -> Option<usize>
    decreases m.globals.len() - from,
{
    if from >= m.globals.len() {
        None
    } else {
        match m.globals[from as int] {
            ValueView::Class(class) => if is_class(m.store, class) && refers(
                fields_at(m.store, class),
                name,
                0,
            ) {
                Some(class)
            } else {
                owner_from(m, name, from + 1)
            },
            _ => owner_from(m, name, from + 1),
        }
    }
}

/// The machine with a new object of the class that has the function `name`
/// as a member, and the object; the machine as it is, and nothing, where no
/// class has it.
pub open spec fn with_receiver(m: MachineView, name: Seq<char>) -> (MachineView, Option<ValueView>) {
    match owner_from(m, name, 0) {
        Some(class) => (
            m.with_store(m.store.push(CellView::Object(fields_at(m.store, class)))),
            Some(ValueView::Object(m.store.len() as usize)),
        ),
        None => (m, None),
    }
}

/// The arguments of a call with its receiver before them.
pub open spec fn behind(receiver: Option<ValueView>, arguments: Seq<ValueView>) -> Seq<ValueView> {
    match receiver {
        Some(object) => seq![object] + arguments,
        None => arguments,
    }
}

impl VM {
    /// Whether a member of the table is a reference to the function `name`.
    fn has_reference(fields: &Table<Value>, name: &String) -> (out: bool)
        ensures
            out == refers(fields@, name@, 0),
    {
        let mut i: usize = 0;
        while i < fields.len()
            invariant
                i <= fields@.len(),
                refers(fields@, name@, 0) == refers(fields@, name@, i as nat),
            decreases fields@.len() - i,
        {
            match fields.value_at(i) {
                Value::FunctionRef(found) => {
                    if *found == *name {
                        return true;
                    }
                },
                _ => {},
            }
            i += 1;
        }
        false
    }

    /// The address of the first class that has the function `name` as a
    /// member.
    fn owner(&self, name: &String) -> (out: Option<usize>)
        ensures
            out == owner_from(self@, name@, 0),
            out matches Some(class) ==> is_class(self@.store, class),
    {
        let mut i: usize = 0;
        while i < self.globals.len()
            invariant
                i <= self.globals.len(),
                owner_from(self@, name@, 0) == owner_from(self@, name@, i as nat),
            decreases self.globals.len() - i,
        {
            match &self.globals[i] {
                Value::Class(class) => {
                    match self.store.get(*class) {
                        Some(Cell::Class(fields)) => {
                            if VM::has_reference(fields, name) {
                                return Some(*class);
                            }
                        },
                        _ => {},
                    }
                },
                _ => {},
            }
            i += 1;
        }
        None
    }

    /// Makes the object on which the function `entry` can run: a new object
    /// of the class that has the function as a member. Gives nothing, and
    /// changes nothing, where no class has it.
    pub fn make_receiver(&mut self, entry: &str) -> (out: Option<Value>)
        ensures
            final(self)@ == with_receiver(old(self)@, entry@).0,
            match with_receiver(old(self)@, entry@).1 {
                Some(object) => out matches Some(value) && value@ == object,
                None => out is None,
            },
    {
        let name = String::from_str(entry);
        match self.owner(&name) {
            Some(class) => {
                let address = self.store.instantiate(class);
                Some(Value::Object(address))
            },
            None => None,
        }
    }

    /// The arguments of a call with its receiver before them.
    pub fn arguments(receiver: Option<Value>, parameters: Option<Vec<Value>>) -> (out: Vec<Value>)
        ensures
            views(out@) == behind(
                match receiver {
                    Some(object) => Some(object@),
                    None => None,
                },
                arguments_of(parameters),
            ),
    {
        let mut out: Vec<Value> = Vec::new();
        match receiver {
            Some(object) => {
                out.push(object);
            },
            None => {},
        }
        match parameters {
            Some(mut values) => {
                let ghost raw = values@;
                let ghost start = out@;
                out.append(&mut values);
                assert(views(start + raw) =~= views(start) + views(raw));
            },
            None => {},
        }
        assert(views(out@) =~= behind(
            match receiver {
                Some(object) => Some(object@),
                None => None,
            },
            arguments_of(parameters),
        ));
        out
    }
}

/// The arguments of a run: none where none were given.
pub open spec fn arguments_of(parameters: Option<Vec<Value>>) -> Seq<ValueView> {
    match parameters {
        Some(values) => views(values@),
        None => Seq::empty(),
    }
}

} // verus!
