//! A small scripting language: a compiler from source text to the
//! instructions of a stack machine, and the machine that runs them.
//!
//! - [`compiler`] reads a source text by the rules of `compiler::grammar`
//!   and emits, by the rules of `compiler::lowering`, the instructions of
//!   each function of each class.
//! - [`vm`] holds the values, the instructions and the machine. What each
//!   instruction does is written down in `vm::semantics`; the machine does
//!   exactly that, one step at a time.
//! - [`laws`] states what holds of every program and every state.
//!
//! The machine computes with integers, text and collections. It carries
//! floats as bit patterns and asks its host for every computation on them
//! (see `vm::host`), so that a host has to answer those questions for a
//! program that uses floats.

use vstd::prelude::*;
use crate::compiler::compiler::compile_source;
use crate::compiler::lowering::error_text;
use crate::table::lookup;
use crate::text::decimal;
use crate::vm::host::{Fault, kind_name, kind_of};
use crate::vm::machine::{
    VM,
    arguments_of,
    behind,
    lines,
    loaded,
    outcome,
    started,
    with_receiver,
};
use crate::vm::semantics::run as run_steps;
use crate::vm::value::{Value, ValueView};

pub mod compiler;
pub mod laws;
pub mod table;
pub mod text;
pub mod vm;

pub use crate::compiler::compile;

verus! {

/// What the run of a function of a source text comes to: the result of the
/// program, or the error in words. The function runs on a new object of its
/// class, which stands before the arguments. The run has no host, so it
/// fails where the program computes with floats.
pub open spec fn run_result(source: Seq<char>, entry: Seq<char>, arguments: Seq<ValueView>) -> Result<
    ValueView,
    Seq<char>,
> {
    match compile_source(source) {
        Err(error) => Err(error_text(error)),
        Ok(program) => {
            let (ready, receiver) = with_receiver(loaded(program), entry);
            match lookup(program.symbols, entry) {
                None => Err(
                    kind_name(kind_of(Fault::UnknownFunction)) + " in "@ + "main"@
                        + " at instruction "@ + decimal(0),
                ),
                Some(position) => {
                    let end = run_steps(
                        started(ready, position, behind(receiver, arguments)),
                        u64::MAX as nat,
                    );
                    match outcome(end.1) {
                        Ok(value) => Ok(value),
                        Err(fault) => Err(
                            kind_name(kind_of(fault)) + " in "@ + end.0.frame.name
                                + " at instruction "@ + decimal(end.0.ip as int),
                        ),
                    }
                },
            }
        },
    }
}

/// What the run of a function of a source text printed, line by line, up
/// to where the run ended or failed. A text that does not compile, or that
/// has no such function, prints nothing.
pub open spec fn run_output(source: Seq<char>, entry: Seq<char>, arguments: Seq<ValueView>) -> Seq<
    Seq<char>,
> {
    match compile_source(source) {
        Err(_) => Seq::empty(),
        Ok(program) => {
            let (ready, receiver) = with_receiver(loaded(program), entry);
            match lookup(program.symbols, entry) {
                None => Seq::empty(),
                Some(position) => run_steps(
                    started(ready, position, behind(receiver, arguments)),
                    u64::MAX as nat,
                ).0.output,
            }
        },
    }
}

/// Compiles a source text and runs one of its functions. The lines that the
/// program printed are dropped; `run_with_output` hands them back.
pub fn run(program: &str, main: &str, params: Option<Vec<Value>>) -> (out: Result<Value, String>)
    ensures
        match run_result(program@, main@, arguments_of(params)) {
            Ok(value) => out is Ok && out->Ok_0@ == value,
            Err(message) => out is Err && out->Err_0@ == message,
        },
{
    let (result, _) = run_with_output(program, main, params);
    result
}

/// Compiles a source text and runs one of its functions, and hands back
/// what the run came to together with the lines that the program printed,
/// each as the text of the printed value. Written to standard output, the
/// lines are the text `written(lines)`: each line and a line end.
pub fn run_with_output(program: &str, main: &str, params: Option<Vec<Value>>) -> (out: (
    Result<Value, String>,
    Vec<String>,
))
    ensures
        match run_result(program@, main@, arguments_of(params)) {
            Ok(value) => out.0 is Ok && out.0->Ok_0@ == value,
            Err(message) => out.0 is Err && out.0->Err_0@ == message,
        },
        lines(out.1@) == run_output(program@, main@, arguments_of(params)),
{
    let bytecode = match compile(program) {
        Ok(bytecode) => bytecode,
        Err(error) => {
            let nothing: Vec<String> = Vec::new();
            assert(lines(nothing@) =~= Seq::empty());
            return (Err(error.message()), nothing);
        },
    };
    let mut vm = VM::new(bytecode);
    let receiver = vm.make_receiver(main);
    let arguments = VM::arguments(receiver, params);
    let result = match vm.exec(main, Some(arguments)) {
        Ok(value) => Ok(value),
        Err(error) => Err(error.message()),
    };
    let printed = vm.take_output();
    (result, printed)
}

} // verus!
