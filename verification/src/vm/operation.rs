//! The operators of the language on two values.

use vstd::prelude::*;
use vstd::string::StringExecFns;
use crate::text::{decimal, format_int};
use crate::vm::host::{Fault, fault_of};
use crate::vm::number::{
    Number,
    Operator,
    Order,
    float_order,
    integer_operation,
    integer_order,
    integer_result,
    is_zero,
    order_floats,
    order_integers,
};
use crate::vm::value::{Value, ValueView, text_of};

verus! {

/// What an arithmetic operator on two values comes to.
#[derive(Debug, PartialEq)]
pub enum Outcome {
    /// The result.
    Value(Value),
    /// The result is a float, which the host computes from the two numbers.
    Float(Operator, Number, Number),
    /// The result is this text followed by the text of the float with these
    /// bits, which the host gives.
    Joined(String, u32),
    /// The result is the array at the first address, after the items of the
    /// array at the second address were appended to it.
    Extended(usize, usize),
    /// There is no result.
    Failed(Fault),
}

/// The model of an [`Outcome`].
pub enum OutcomeView {
    Value(ValueView),
    Float(Operator, Number, Number),
    Joined(Seq<char>, u32),
    Extended(usize, usize),
    Failed(Fault),
}

impl View for Outcome {
    type V = OutcomeView;

    open spec fn view(&self) -> OutcomeView {
        match self {
            Outcome::Value(value) => OutcomeView::Value(value@),
            Outcome::Float(operator, a, b) => OutcomeView::Float(*operator, *a, *b),
            Outcome::Joined(text, bits) => OutcomeView::Joined(text@, *bits),
            Outcome::Extended(target, source) => OutcomeView::Extended(*target, *source),
            Outcome::Failed(fault) => OutcomeView::Failed(*fault),
        }
    }
}

/// How two values stand to each other.
#[derive(Clone, Copy, Debug, PartialEq, Eq, Structural)]
pub enum Standing {
    /// Two integers or two floats: their order.
    Known(Order),
    /// An integer and a float: the host orders them.
    Asked(Number, Number),
    /// Anything else has no order.
    Incomparable,
}

/// The number that a value holds.
pub open spec fn number_of(value: ValueView) -> Option<Number> {
    match value {
        ValueView::Integer(i) => Some(Number::Integer(i)),
        ValueView::Float(bits) => Some(Number::Float(bits)),
        _ => None,
    }
}

/// `+` on operands that are not both numbers: a text is followed by the
/// text of what stands right of it; an integer left of a text is written
/// before it; an array is extended by an array; two booleans give whether
/// both hold.
pub open spec fn joined(left: ValueView, right: ValueView) -> OutcomeView {
    match (left, right) {
        (ValueView::String(s), ValueView::Float(bits)) => OutcomeView::Joined(s, bits),
        (ValueView::String(s), other) => OutcomeView::Value(
            ValueView::String(s + text_of(other)->0),
        ),
        (ValueView::Integer(i), ValueView::String(s)) => OutcomeView::Value(
            ValueView::String(decimal(i as int) + s),
        ),
        (ValueView::Array(a), ValueView::Array(b)) => OutcomeView::Extended(a, b),
        (ValueView::Bool(a), ValueView::Bool(b)) => OutcomeView::Value(ValueView::Bool(a && b)),
        _ => OutcomeView::Failed(Fault::BadOperands),
    }
}

/// An arithmetic operator on two values: two integers give an integer,
/// where the result is one; two numbers of which one is a float give a
/// float; `+` joins other values; anything else fails. A division of a
/// number by zero fails, whether the zero is an integer or a float.
pub open spec fn operated(operator: Operator, left: ValueView, right: ValueView) -> OutcomeView {
    match (number_of(left), number_of(right)) {
        (Some(Number::Integer(a)), Some(Number::Integer(b))) => match integer_result(
            operator,
            a,
            b,
        ) {
            Ok(value) => OutcomeView::Value(ValueView::Integer(value)),
            Err(trouble) => OutcomeView::Failed(fault_of(trouble)),
        },
        (Some(a), Some(b)) => if operator == Operator::Div && is_zero(b) {
            OutcomeView::Failed(Fault::DivisionByZero)
        } else {
            OutcomeView::Float(operator, a, b)
        },
        _ => if operator == Operator::Add {
            joined(left, right)
        } else {
            OutcomeView::Failed(Fault::BadOperands)
        },
    }
}

/// How two values stand to each other.
pub open spec fn standing(left: ValueView, right: ValueView) -> Standing {
    match (number_of(left), number_of(right)) {
        (Some(Number::Integer(a)), Some(Number::Integer(b))) => Standing::Known(
            integer_order(a, b),
        ),
        (Some(Number::Float(a)), Some(Number::Float(b))) => Standing::Known(float_order(a, b)),
        (Some(a), Some(b)) => Standing::Asked(a, b),
        _ => Standing::Incomparable,
    }
}

/// What `!` makes of a value: the other boolean of a boolean, and `false`
/// of anything else.
pub open spec fn negated(value: ValueView) -> ValueView {
    match value {
        ValueView::Bool(b) => ValueView::Bool(!b),
        _ => ValueView::Bool(false),
    }
}

impl Value {
    /// The number that the value holds.
    pub fn number(&self) -> (out: Option<Number>)
        ensures
            out == number_of(self@),
    {
        match self {
            Value::Integer(i) => Some(Number::Integer(*i)),
            Value::Float(bits) => Some(Number::Float(*bits)),
            _ => None,
        }
    }

    /// `+` on operands that are not both numbers.
    fn join(&self, rhs: &Value) -> (out: Outcome)
        ensures
            out@ == joined(self@, rhs@),
    {
        match (self, rhs) {
            (Value::String(s), other) => {
                match other.text() {
                    Ok(text) => Outcome::Value(Value::String(s.clone().concat(text.as_str()))),
                    Err(bits) => Outcome::Joined(s.clone(), bits),
                }
            },
            (Value::Integer(i), Value::String(s)) => Outcome::Value(
                Value::String(format_int(*i as i64).concat(s.as_str())),
            ),
            (Value::Array(a), Value::Array(b)) => Outcome::Extended(*a, *b),
            (Value::Bool(a), Value::Bool(b)) => Outcome::Value(Value::Bool(*a && *b)),
            _ => Outcome::Failed(Fault::BadOperands),
        }
    }

    /// An arithmetic operator on this value and another.
    pub fn operate(&self, operator: Operator, rhs: &Value) -> (out: Outcome)
        ensures
            out@ == operated(operator, self@, rhs@),
    {
        match (self.number(), rhs.number()) {
            (Some(Number::Integer(a)), Some(Number::Integer(b))) => {
                match integer_operation(operator, a, b) {
                    Ok(value) => Outcome::Value(Value::Integer(value)),
                    Err(trouble) => Outcome::Failed(Fault::from_trouble(trouble)),
                }
            },
            (Some(a), Some(b)) => {
                if matches!(operator, Operator::Div) && b.is_zero() {
                    Outcome::Failed(Fault::DivisionByZero)
                } else {
                    Outcome::Float(operator, a, b)
                }
            },
            _ => {
                if matches!(operator, Operator::Add) {
                    self.join(rhs)
                } else {
                    Outcome::Failed(Fault::BadOperands)
                }
            },
        }
    }

    /// The sum of this value and another.
    pub fn add(&self, rhs: &Value) -> (out: Outcome)
        ensures
            out@ == operated(Operator::Add, self@, rhs@),
    {
        self.operate(Operator::Add, rhs)
    }

    /// The difference of this value and another.
    pub fn sub(&self, rhs: &Value) -> (out: Outcome)
        ensures
            out@ == operated(Operator::Sub, self@, rhs@),
    {
        self.operate(Operator::Sub, rhs)
    }

    /// The product of this value and another.
    pub fn mul(&self, rhs: &Value) -> (out: Outcome)
        ensures
            out@ == operated(Operator::Mul, self@, rhs@),
    {
        self.operate(Operator::Mul, rhs)
    }

    /// The quotient of this value and another.
    pub fn div(&self, rhs: &Value) -> (out: Outcome)
        ensures
            out@ == operated(Operator::Div, self@, rhs@),
    {
        self.operate(Operator::Div, rhs)
    }

    /// How this value stands to another.
    pub fn partial_cmp(&self, rhs: &Value) -> (out: Standing)
        ensures
            out == standing(self@, rhs@),
    {
        match (self.number(), rhs.number()) {
            (Some(Number::Integer(a)), Some(Number::Integer(b))) => Standing::Known(
                order_integers(a, b),
            ),
            (Some(Number::Float(a)), Some(Number::Float(b))) => Standing::Known(
                order_floats(a, b),
            ),
            (Some(a), Some(b)) => Standing::Asked(a, b),
            _ => Standing::Incomparable,
        }
    }

    /// What `!` makes of the value.
    pub fn not(&self) -> (out: Value)
        ensures
            out@ == negated(self@),
    {
        match self {
            Value::Bool(b) => Value::Bool(!*b),
            _ => Value::Bool(false),
        }
    }
}

} // verus!
