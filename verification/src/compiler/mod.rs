//! The compiler: from source text to a program.

use vstd::prelude::*;
use crate::compiler::compiler::{Compiler, compile_source};
use crate::compiler::lowering::CompileError;
use crate::vm::program::Program;

pub mod compiler;
pub mod control;
pub mod diagnosis;
pub mod expressions;
pub mod frontend;
pub mod function;
pub mod grammar;
pub mod iteration;
pub mod lexer;
pub mod loops;
pub mod lowering;
pub mod parser;
pub mod rules;
pub mod source;
pub mod statements;
pub mod token;
pub mod variable;

verus! {

/// Compiles a source text.
pub fn compile(program: &str) -> (out: Result<Program, CompileError>)
    ensures
        match compile_source(program@) {
            Ok(expected) => out is Ok && out->Ok_0@ == expected,
            Err(error) => out is Err && out->Err_0 == error,
        },
{
    Compiler::new().compile(program.to_owned())
}

} // verus!
