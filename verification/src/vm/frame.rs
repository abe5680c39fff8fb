//! The activation frame: the record of one call.

use vstd::prelude::*;
use vstd::string::StringExecFns;
use crate::vm::value::{Value, ValueView, views};

verus! {

/// The record of one call: its name, where to go on when it returns, its
/// local variables by slot, and its operand stack.
#[derive(Debug, PartialEq)]
pub struct Frame {
    name: String,
    return_position: Option<usize>,
    variables: Vec<Value>,
    data: Vec<Value>,
}

/// The model of a [`Frame`]. The top of the stack is its last item.
pub struct FrameView {
    pub name: Seq<char>,
    pub return_position: Option<usize>,
    pub variables: Seq<ValueView>,
    pub stack: Seq<ValueView>,
}

/// The variables after a write to `slot`: slots that were missing up to
/// `slot` hold `Null`.
pub open spec fn with_slot(variables: Seq<ValueView>, slot: nat, value: ValueView) -> Seq<
    ValueView,
> {
    if slot < variables.len() {
        variables.update(slot as int, value)
    } else {
        (variables + Seq::new((slot - variables.len()) as nat, |i: int| ValueView::Null)).push(
            value,
        )
    }
}

impl FrameView {
    /// The frame with another stack.
    pub open spec fn with_stack(self, stack: Seq<ValueView>) -> FrameView {
        FrameView { stack, ..self }
    }

    /// The frame with other variables.
    pub open spec fn with_variables(self, variables: Seq<ValueView>) -> FrameView {
        FrameView { variables, ..self }
    }

    /// The frame after pushing a value.
    pub open spec fn push(self, value: ValueView) -> FrameView {
        self.with_stack(self.stack.push(value))
    }

    /// The frame without its `count` topmost values.
    pub open spec fn drop_top(self, count: nat) -> FrameView
        recommends
            count <= self.stack.len(),
    {
        self.with_stack(self.stack.take(self.stack.len() - count))
    }

    /// The value `depth` places under the top of the stack; 0 is the top.
    pub open spec fn peek(self, depth: nat) -> ValueView
        recommends
            depth < self.stack.len(),
    {
        self.stack[self.stack.len() - 1 - depth]
    }

    /// The frame after writing to a slot.
    pub open spec fn store(self, slot: nat, value: ValueView) -> FrameView {
        self.with_variables(with_slot(self.variables, slot, value))
    }
}

impl View for Frame {
    type V = FrameView;

    closed spec fn view(&self) -> FrameView {
        FrameView {
            name: self.name@,
            return_position: self.return_position,
            variables: views(self.variables@),
            stack: views(self.data@),
        }
    }
}

impl Clone for Frame {
    fn clone(&self) -> (out: Self)
        ensures
            out@ == self@,
    {
        Frame {
            name: self.name.clone(),
            return_position: self.return_position,
            variables: crate::vm::value::clone_values(&self.variables),
            data: crate::vm::value::clone_values(&self.data),
        }
    }
}

impl Frame {
    /// A frame with the arguments in its first slots and an empty stack.
    pub fn new(name: String, return_position: Option<usize>, args: Vec<Value>) -> (out: Frame)
        ensures
            out@ == (FrameView {
                name: name@,
                return_position,
                variables: views(args@),
                stack: Seq::empty(),
            }),
    {
        let out = Frame { name, return_position, variables: args, data: Vec::new() };
        assert(out@.stack =~= Seq::empty());
        out
    }

    /// The name of the function that runs in the frame.
    pub fn get_name(&self) -> (name: &String)
        ensures
            name@ == self@.name,
    {
        &self.name
    }

    /// Where the caller goes on; `None` in the root frame.
    pub fn get_return_position(&self) -> (position: Option<usize>)
        ensures
            position == self@.return_position,
    {
        self.return_position
    }

    /// The frame in words.
    pub fn to_string(&self) -> (out: String)
        ensures
            out@ == "Frame: "@ + self@.name,
    {
        String::from_str("Frame: ").concat(self.name.as_str())
    }

    /// The number of values on the stack.
    pub fn stack_len(&self) -> (n: usize)
        ensures
            n == self@.stack.len(),
    {
        self.data.len()
    }

    /// The number of slots.
    pub fn variables_len(&self) -> (n: usize)
        ensures
            n == self@.variables.len(),
    {
        self.variables.len()
    }

    /// The operand stack, bottom first.
    pub fn stack(&self) -> (values: &Vec<Value>)
        ensures
            views(values@) == self@.stack,
    {
        &self.data
    }

    /// The local variables by slot.
    pub fn variables(&self) -> (values: &Vec<Value>)
        ensures
            views(values@) == self@.variables,
    {
        &self.variables
    }

    /// Pushes a value onto the stack.
    pub fn push_value_to_stack(&mut self, value: Value)
        ensures
            final(self)@ == old(self)@.push(value@),
    {
        self.data.push(value);
        assert(views(self.data@) =~= views(old(self).data@).push(value@));
    }

    /// Writes a value into a slot; missing slots up to it are made and hold `Null`.
    pub fn push_value_to_variable_slot(&mut self, slot: usize, value: Value)
        ensures
            final(self)@ == old(self)@.store(slot as nat, value@),
    {
        if slot < self.variables.len() {
            self.variables.set(slot, value);
            assert(views(self.variables@) =~= with_slot(
                views(old(self).variables@),
                slot as nat,
                value@,
            ));
        } else {
            while self.variables.len() < slot
                invariant
                    old(self).variables.len() <= self.variables.len() <= slot,
                    self.name == old(self).name,
                    self.return_position == old(self).return_position,
                    self.data == old(self).data,
                    views(self.variables@) =~= views(old(self).variables@) + Seq::new(
                        (self.variables.len() - old(self).variables.len()) as nat,
                        |i: int| ValueView::Null,
                    ),
                decreases slot - self.variables.len(),
            {
                let ghost before = self.variables@;
                self.variables.push(Value::Null);
                assert(views(self.variables@) =~= views(before).push(ValueView::Null));
            }
            self.variables.push(value);
            assert(views(self.variables@) =~= with_slot(
                views(old(self).variables@),
                slot as nat,
                value@,
            ));
        }
    }

    /// Pops the top of the stack into a slot.
    pub fn move_from_stack_to_variable_slot(&mut self, slot: usize)
        requires
            old(self)@.stack.len() > 0,
        ensures
            final(self)@ == old(self)@.drop_top(1).store(slot as nat, old(self)@.peek(0)),
    {
        let value = self.pop_value_from_stack();
        self.push_value_to_variable_slot(slot, value);
    }

    /// Copies the top of the stack into a slot; the stack stays as it is.
    pub fn copy_from_stack_to_variable_slot(&mut self, slot: usize)
        requires
            old(self)@.stack.len() > 0,
        ensures
            final(self)@ == old(self)@.store(slot as nat, old(self)@.peek(0)),
    {
        let value = self.get_top_value_on_stack();
        self.push_value_to_variable_slot(slot, value);
    }

    /// Pushes a copy of a slot onto the stack.
    pub fn copy_from_variable_slot_to_stack(&mut self, slot: usize)
        requires
            slot < old(self)@.variables.len(),
        ensures
            final(self)@ == old(self)@.push(old(self)@.variables[slot as int]),
    {
        let value = self.get_variable_or_panic(slot).clone();
        self.push_value_to_stack(value);
    }

    /// A copy of the top of the stack.
    pub fn get_top_value_on_stack(&self) -> (value: Value)
        requires
            self@.stack.len() > 0,
        ensures
            value@ == self@.peek(0),
    {
        self.data[self.data.len() - 1].clone()
    }

    /// Pops the top of the stack.
    pub fn pop_value_from_stack(&mut self) -> (value: Value)
        requires
            old(self)@.stack.len() > 0,
        ensures
            value@ == old(self)@.peek(0),
            final(self)@ == old(self)@.drop_top(1),
    {
        let value = self.data.pop().unwrap();
        assert(views(self.data@) =~= views(old(self).data@).take(old(self).data@.len() - 1));
        value
    }

    /// Pops two values: the one that was pushed first comes first.
    pub fn pop_2_values_from_stack(&mut self) -> (pair: (Value, Value))
        requires
            old(self)@.stack.len() >= 2,
        ensures
            pair.0@ == old(self)@.peek(1),
            pair.1@ == old(self)@.peek(0),
            final(self)@ == old(self)@.drop_top(2),
    {
        let rhs = self.pop_value_from_stack();
        let lhs = self.pop_value_from_stack();
        assert(self@.stack =~= old(self)@.drop_top(2).stack);
        (lhs, rhs)
    }

    /// Pops `count` values and returns them in the order in which they were
    /// pushed, the deepest first.
    pub fn pop_values_from_stack(&mut self, count: usize) -> (values: Vec<Value>)
        requires
            count <= old(self)@.stack.len(),
        ensures
            views(values@) == old(self)@.stack.skip(old(self)@.stack.len() - count),
            final(self)@ == old(self)@.drop_top(count as nat),
    {
        let at = self.data.len() - count;
        let values = self.data.split_off(at);
        assert(views(values@) =~= old(self)@.stack.skip(old(self)@.stack.len() - count));
        assert(views(self.data@) =~= old(self)@.stack.take(old(self)@.stack.len() - count));
        values
    }

    /// The value in a slot.
    pub fn get_variable_or_panic(&self, slot: usize) -> (value: &Value)
        requires
            slot < self@.variables.len(),
        ensures
            value@ == self@.variables[slot as int],
    {
        &self.variables[slot]
    }
}

} // verus!
