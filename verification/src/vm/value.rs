//! The universe of runtime values.

use vstd::prelude::*;
use vstd::string::StringExecFns;
use crate::text::{decimal, format_int};

verus! {

/// A runtime value.
///
/// Arrays, dictionaries, classes and objects are shared: the value holds the
/// address of a cell of the machine's store, so that every copy of the value
/// reaches the same cell. A float is held as its IEEE-754 binary32 bit pattern.
///
/// The derived `==` compares representations (addresses and bit patterns);
/// the equality of the language is `Store::equal`.
#[derive(Debug, PartialEq)]
pub enum Value {
    Null,
    Integer(i32),
    Float(u32),
    Bool(bool),
    String(String),
    Array(usize),
    Dictionary(usize),
    Class(usize),
    Object(usize),
    FunctionRef(String),
}

/// The mathematical model of a [`Value`]: text is a sequence of characters.
pub enum ValueView {
    Null,
    Integer(i32),
    Float(u32),
    Bool(bool),
    String(Seq<char>),
    Array(usize),
    Dictionary(usize),
    Class(usize),
    Object(usize),
    FunctionRef(Seq<char>),
}

impl View for Value {
    type V = ValueView;

    open spec fn view(&self) -> ValueView {
        match self {
            Value::Null => ValueView::Null,
            Value::Integer(i) => ValueView::Integer(*i),
            Value::Float(bits) => ValueView::Float(*bits),
            Value::Bool(b) => ValueView::Bool(*b),
            Value::String(s) => ValueView::String(s@),
            Value::Array(a) => ValueView::Array(*a),
            Value::Dictionary(a) => ValueView::Dictionary(*a),
            Value::Class(a) => ValueView::Class(*a),
            Value::Object(a) => ValueView::Object(*a),
            Value::FunctionRef(name) => ValueView::FunctionRef(name@),
        }
    }
}

impl Clone for Value {
    fn clone(&self) -> (out: Self)
        ensures
            out == *self,
    {
        match self {
            Value::Null => Value::Null,
            Value::Integer(i) => Value::Integer(*i),
            Value::Float(bits) => Value::Float(*bits),
            Value::Bool(b) => Value::Bool(*b),
            Value::String(s) => Value::String(s.clone()),
            Value::Array(a) => Value::Array(*a),
            Value::Dictionary(a) => Value::Dictionary(*a),
            Value::Class(a) => Value::Class(*a),
            Value::Object(a) => Value::Object(*a),
            Value::FunctionRef(name) => Value::FunctionRef(name.clone()),
        }
    }
}

/// The text of a value, as it is printed and joined to strings. A float has
/// none here: its decimal form is the host's to give.
pub open spec fn text_of(value: ValueView) -> Option<Seq<char>> {
    match value {
        ValueView::Null => Some("null"@),
        ValueView::Integer(i) => Some(decimal(i as int)),
        ValueView::Float(_) => None,
        ValueView::Bool(b) => Some(
            if b {
                "true"@
            } else {
                "false"@
            },
        ),
        ValueView::String(s) => Some(s),
        ValueView::Array(_) => Some("Array"@),
        ValueView::Dictionary(_) => Some("Dictionary"@),
        ValueView::Class(_) => Some("Class"@),
        ValueView::Object(_) => Some("Object"@),
        ValueView::FunctionRef(name) => Some(name),
    }
}

impl Value {
    /// The text of the value; for a float, whose text the host gives, its
    /// bits.
    pub fn text(&self) -> (out: Result<String, u32>)
        ensures
            match out {
                Ok(text) => text_of(self@) == Some(text@),
                Err(bits) => self@ == ValueView::Float(bits),
            },
    {
        match self {
            Value::Null => Ok(String::from_str("null")),
            Value::Integer(i) => Ok(format_int(*i as i64)),
            Value::Float(bits) => Err(*bits),
            Value::Bool(b) => Ok(
                if *b {
                    String::from_str("true")
                } else {
                    String::from_str("false")
                },
            ),
            Value::String(s) => Ok(s.clone()),
            Value::Array(_) => Ok(String::from_str("Array")),
            Value::Dictionary(_) => Ok(String::from_str("Dictionary")),
            Value::Class(_) => Ok(String::from_str("Class")),
            Value::Object(_) => Ok(String::from_str("Object")),
            Value::FunctionRef(name) => Ok(name.clone()),
        }
    }
}

/// The models of a sequence of values, element by element.
pub open spec fn views(values: Seq<Value>) -> Seq<ValueView> {
    Seq::new(values.len(), |i: int| values[i]@)
}

/// Copies a vector of values.
pub fn clone_values(values: &Vec<Value>) -> (out: Vec<Value>)
    ensures
        out@ == values@,
{
    let mut out: Vec<Value> = Vec::new();
    let mut i: usize = 0;
    while i < values.len()
        invariant
            i <= values.len(),
            out@ == values@.take(i as int),
        decreases values.len() - i,
    {
        out.push(values[i].clone());
        i += 1;
    }
    out
}

} // verus!
