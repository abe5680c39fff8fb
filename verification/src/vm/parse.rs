//! The reading of a value from a text, as a host reads an argument.

use vstd::prelude::*;
use vstd::string::StringExecFns;
use crate::compiler::grammar::{Run, has, magnitude, run_end};
use crate::compiler::lexer::{lemma_run, looking_at, read_magnitude, skip};
use crate::text::chars_of;
use crate::vm::value::{Value, ValueView};

verus! {

/// The integer that a whole text writes: an optional sign, then digits and
/// nothing else, for a 32-bit signed integer.
pub open spec fn whole_integer(s: Seq<char>) -> Option<i32> {
    let start: nat = if has(s, 0, '-') || has(s, 0, '+') {
        1
    } else {
        0
    };
    if start < s.len() && run_end(s, start, Run::Digits) == s.len() {
        match magnitude(s, start, s.len(), 0) {
            Some(m) => {
                let value = if has(s, 0, '-') {
                    -m
                } else {
                    m
                };
                if i32::MIN <= value <= i32::MAX {
                    Some(value as i32)
                } else {
                    None
                }
            },
            None => None,
        }
    } else {
        None
    }
}

/// The value that a text stands for: an integer where the text writes one;
/// else the float that the host read from it, where it read one; else a
/// boolean where the text is `true` or `false`; else the text itself.
pub open spec fn parsed(text: Seq<char>, float: Option<u32>) -> ValueView {
    match whole_integer(text) {
        Some(value) => ValueView::Integer(value),
        None => match float {
            Some(bits) => ValueView::Float(bits),
            None => if text == "true"@ {
                ValueView::Bool(true)
            } else if text == "false"@ {
                ValueView::Bool(false)
            } else {
                ValueView::String(text)
            },
        },
    }
}

/// Reads the integer that a whole text writes.
pub fn read_whole_integer(input: &Vec<char>) -> (out: Option<i32>)
    ensures
        out == whole_integer(input@),
{
    let negative = looking_at(input, 0, '-');
    let start: usize = if negative || looking_at(input, 0, '+') {
        1
    } else {
        0
    };
    if start < input.len() && skip(input, start, Run::Digits) == input.len() {
        proof {
            lemma_run(input@, start as nat, Run::Digits);
        }
        match read_magnitude(input, start, input.len()) {
            Some(m) => {
                let value: i64 = if negative {
                    -m
                } else {
                    m
                };
                if value < -2147483648 || value > 2147483647 {
                    None
                } else {
                    Some(value as i32)
                }
            },
            None => None,
        }
    } else {
        None
    }
}

impl Value {
    /// Reads a value from a text. `float` is the float that the host read
    /// from the text, if it read one.
    pub fn parse(param: &str, float: Option<u32>) -> (out: Value)
        ensures
            out@ == parsed(param@, float),
    {
        let input = chars_of(param);
        match read_whole_integer(&input) {
            Some(value) => Value::Integer(value),
            None => {
                match float {
                    Some(bits) => Value::Float(bits),
                    None => {
                        let text = param.to_owned();
                        if text == String::from_str("true") {
                            Value::Bool(true)
                        } else if text == String::from_str("false") {
                            Value::Bool(false)
                        } else {
                            Value::String(text)
                        }
                    },
                }
            },
        }
    }
}

} // verus!
