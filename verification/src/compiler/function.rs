//! The compiler of one function.

use vstd::prelude::*;
use vstd::string::StringExecFns;
use crate::compiler::lowering::{
    CompileError,
    CompiledView,
    Lowered,
    Scope,
    after,
    closed,
    declared_parameters,
    receiver_only,
    declared,
    emit,
    fresh_scope,
    full_name,
    jumpable,
    lower_expression,
    lower_function,
    lower_statement,
    lower_statements,
    push_text,
    slot_in,
    temporary_name,
};
use crate::compiler::token::{lemma_views_index, token_view, Token, TokenView, token_views};
use crate::compiler::variable::{Variable, VariableView};
use crate::table::Table;
use crate::text::{decimal, format_unsigned};
use crate::vm::instruction::{Instruction, InstructionView, Literal, LiteralView, code};
use crate::vm::value::{Value, ValueView};

verus! {

/// A compiled function: its qualified name and its instructions.
pub struct Compiled {
    pub name: String,
    pub instructions: Vec<Instruction>,
}

impl View for Compiled {
    type V = CompiledView;

    open spec fn view(&self) -> CompiledView {
        CompiledView { name: self.name@, code: code(self.instructions@) }
    }
}

/// The models of a sequence of compiled functions.
pub open spec fn compiled_views(functions: Seq<Compiled>) -> Seq<CompiledView> {
    Seq::new(functions.len(), |i: int| functions[i]@)
}

/// A function that is being compiled.
pub struct Function {
    name: String,
    class_name: String,
    parameters: Vec<Token>,
    statements: Vec<Token>,
    instructions: Vec<Instruction>,
    nested: Vec<Compiled>,
    variables: Table<Variable>,
}

/// The model of a [`Function`].
pub struct FunctionView {
    pub name: Seq<char>,
    pub class_name: Seq<char>,
    pub parameters: Seq<TokenView>,
    pub statements: Seq<TokenView>,
    pub code: Seq<InstructionView>,
    pub nested: Seq<CompiledView>,
    pub variables: Seq<(Seq<char>, VariableView)>,
}

impl FunctionView {
    /// What the compiler knows at this point of the function.
    pub open spec fn scope(self, globals: Seq<(Seq<char>, usize)>) -> Scope {
        Scope {
            class_name: self.class_name,
            globals,
            variables: self.variables,
            offset: self.code.len(),
            nested: self.nested,
        }
    }
}

impl View for Function {
    type V = FunctionView;

    closed spec fn view(&self) -> FunctionView {
        FunctionView {
            name: self.name@,
            class_name: self.class_name@,
            parameters: token_views(self.parameters@),
            statements: token_views(self.statements@),
            code: code(self.instructions@),
            nested: compiled_views(self.nested@),
            variables: self.variables@,
        }
    }
}

/// Whether a step of the compiler did what a rule says: on success the
/// instructions of the rule were appended and the scope is the rule's; on
/// failure the error is the rule's.
pub open spec fn lowered_as(
    start: FunctionView,
    end: FunctionView,
    out: Result<(), CompileError>,
    rule: Lowered,
    globals: Seq<(Seq<char>, usize)>,
) -> bool {
    match rule {
        Ok((code, scope)) => {
            &&& out is Ok
            &&& end.code == start.code + code
            &&& end.scope(globals) == scope
            &&& end.name == start.name
            &&& end.parameters == start.parameters
            &&& end.statements == start.statements
        },
        Err(error) => out == Err::<(), CompileError>(error),
    }
}

/// The jump distance `n`, where an instruction can hold it.
pub(crate) fn distance(n: usize) -> (out: Option<i64>)
    ensures
        match out {
            Some(d) => jumpable(n as nat) && d == n,
            None => !jumpable(n as nat),
        },
{
    if n as u128 > 0x7fff_ffff_ffff_ffff {
        None
    } else {
        Some(n as i64)
    }
}

impl Function {
    /// A function that is not compiled yet.
    pub fn new(class_name: &str, func_name: &str, parameters: Vec<Token>, statements: Vec<Token>) -> (out:
        Self)
        ensures
            out@ == (FunctionView {
                name: func_name@,
                class_name: class_name@,
                parameters: token_views(parameters@),
                statements: token_views(statements@),
                code: Seq::empty(),
                nested: Seq::empty(),
                variables: Seq::empty(),
            }),
    {
        let out = Function {
            name: String::from_str(func_name),
            class_name: String::from_str(class_name),
            parameters,
            statements,
            instructions: Vec::new(),
            nested: Vec::new(),
            variables: Table::new(),
        };
        assert(out@.code =~= Seq::empty());
        assert(out@.nested =~= Seq::empty());
        out
    }

    /// The qualified name: the class, a dot, the name.
    pub fn get_full_name(&self) -> (out: String)
        ensures
            out@ == full_name(self@.class_name, self@.name),
    {
        let mut out = self.class_name.clone();
        out.append(".");
        out.append(self.name.as_str());
        out
    }

    /// The number of instructions emitted so far.
    pub(crate) fn offset(&self) -> (out: usize)
        ensures
            out == self@.code.len(),
    {
        self.instructions.len()
    }

    pub(crate) fn emit(&mut self, instruction: Instruction)
        ensures
            final(self)@ == (FunctionView {
                code: old(self)@.code.push(instruction@),
                ..old(self)@
            }),
    {
        self.instructions.push(instruction);
        assert(code(self.instructions@) =~= code(old(self).instructions@).push(instruction@));
    }

    /// Replaces the instruction at `at`.
    pub(crate) fn patch(&mut self, at: usize, instruction: Instruction)
        requires
            at < old(self)@.code.len(),
        ensures
            final(self)@ == (FunctionView {
                code: old(self)@.code.update(at as int, instruction@),
                ..old(self)@
            }),
    {
        self.instructions.set(at, instruction);
        assert(code(self.instructions@) =~= code(old(self).instructions@).update(
            at as int,
            instruction@,
        ));
    }

    /// The slot of a variable.
    pub(crate) fn get_variable(&self, name: &String) -> (out: Option<usize>)
        ensures
            out == slot_in(self@.variables, name@),
    {
        match self.variables.get(name) {
            Some(variable) => Some(variable.index),
            None => None,
        }
    }

    /// Declares a variable in the next free slot, and returns the slot.
    pub(crate) fn add_variable(&mut self, name: String, value: Value) -> (out: Result<usize, CompileError>)
        requires
            value@ == ValueView::Null,
        ensures
            match declared(old(self)@.variables, name@) {
                Some(variables) => out == Ok::<usize, CompileError>(
                    old(self)@.variables.len() as usize,
                ) && final(self)@ == (FunctionView { variables, ..old(self)@ }),
                None => out == Err::<usize, CompileError>(CompileError::DuplicateVariable)
                    && final(self)@ == old(self)@,
            },
    {
        if self.variables.contains_key(&name) {
            return Err(CompileError::DuplicateVariable);
        }
        let slot = self.variables.len();
        let variable = Variable::new(name.clone(), slot, value);
        self.variables.insert(name, variable);
        Ok(slot)
    }

    /// The name of a temporary made at this point.
    pub(crate) fn temporary(&self, prefix: &str) -> (out: String)
        ensures
            out@ == temporary_name(prefix@, self@.code.len()),
    {
        let mut out = String::from_str("%");
        out.append(prefix);
        out.append(format_unsigned(self.instructions.len() as u64).as_str());
        out
    }

    pub(crate) fn push_text(&mut self, text: String)
        ensures
            final(self)@ == (FunctionView {
                code: old(self)@.code.push(push_text(text@)),
                ..old(self)@
            }),
    {
        self.emit(Instruction::StackPush(Literal::String(text)));
    }

    /// Emits one instruction as the whole of a rule.
    pub(crate) fn compile_one(&mut self, instruction: Instruction, globals: &Table<usize>) -> (out: Result<
        (),
        CompileError,
    >)
        ensures
            lowered_as(
                old(self)@,
                final(self)@,
                out,
                emit(old(self)@.scope(globals@), seq![instruction@]),
                globals@,
            ),
    {
        self.emit(instruction);
        assert(self@.code =~= old(self)@.code + seq![instruction@]);
        Ok(())
    }

    /// Compiles the use of a variable.
    pub(crate) fn compile_identifier(&mut self, name: &String, globals: &Table<usize>) -> (out: Result<
        (),
        CompileError,
    >)
        ensures
            lowered_as(
                old(self)@,
                final(self)@,
                out,
                match old(self)@.scope(globals@).slot(name@) {
                    Some(slot) => emit(
                        old(self)@.scope(globals@),
                        seq![InstructionView::LoadLocalVariable(slot)],
                    ),
                    None => Err(CompileError::UnknownVariable),
                },
                globals@,
            ),
    {
        match self.get_variable(name) {
            Some(slot) => self.compile_one(Instruction::LoadLocalVariable(slot), globals),
            None => Err(CompileError::UnknownVariable),
        }
    }

    /// Compiles a function literal: the function is compiled on the side,
    /// and a reference to it is pushed.
    pub(crate) fn compile_literal_function(
        &mut self,
        token: &Token,
        parameters: &Vec<Token>,
        statements: &Vec<Token>,
        globals: &Table<usize>,
    ) -> (out: Result<(), CompileError>)
        requires
            decreases_to!(token => statements),
        ensures
            lowered_as(
                old(self)@,
                final(self)@,
                out,
                lower_expression(
                    old(self)@.scope(globals@),
                    TokenView::AnonFunction(token_views(parameters@), token_views(statements@)),
                ),
                globals@,
            ),
        decreases token, 0nat,
    {
        proof {
            reveal(lower_expression);
            reveal(lower_statement);
        }
        let mut name = String::from_str("func");
        name.append(format_unsigned(self.instructions.len() as u64).as_str());
        let mut full = self.class_name.clone();
        full.append(".");
        full.append(name.as_str());
        let maker = Function::new(self.class_name.as_str(), name.as_str(), Vec::new(), Vec::new());
        match maker.compile_parts(parameters, statements, globals) {
            Err(error) => Err(error),
            Ok(mut compiled) => {
                let ghost added = compiled_views(compiled@);
                self.nested.append(&mut compiled);
                assert(compiled_views(self.nested@) =~= compiled_views(old(self).nested@) + added);
                self.emit(Instruction::StackPush(Literal::FunctionRef(full)));
                assert(self@.code =~= old(self)@.code + seq![
                    InstructionView::StackPush(
                        LiteralView::FunctionRef(full_name(old(self)@.class_name, name@)),
                    ),
                ]);
                Ok(())
            },
        }
    }

    /// Declares the parameters from position `from` on.
    pub(crate) fn add_parameters(&mut self, parameters: &Vec<Token>, from: usize) -> (out: Result<
        (),
        CompileError,
    >)
        ensures
            match declared_parameters(old(self)@.variables, token_views(parameters@), from as nat) {
                Some(variables) => out is Ok && final(self)@ == (FunctionView {
                    variables,
                    ..old(self)@
                }),
                None => out == Err::<(), CompileError>(CompileError::DuplicateVariable),
            },
    {
        let mut i: usize = from;
        while i < parameters.len()
            invariant
                from <= i,
                self@ == (FunctionView { variables: self@.variables, ..old(self)@ }),
                declared_parameters(old(self)@.variables, token_views(parameters@), from as nat)
                    == declared_parameters(self@.variables, token_views(parameters@), i as nat),
            decreases parameters.len() - i,
        {
            proof {
                lemma_views_index(parameters@, i as int);
            }
            match self.add_variable(parameters[i].to_string(), Value::Null) {
                Err(error) => {
                    return Err(error);
                },
                Ok(_) => {},
            }
            i += 1;
        }
        Ok(())
    }

    /// Compiles a function from its parts, and returns it with the functions
    /// that its function literals gave after it.
    pub(crate) fn compile_parts(
        self,
        parameters: &Vec<Token>,
        statements: &Vec<Token>,
        globals: &Table<usize>,
    ) -> (out: Result<Vec<Compiled>, CompileError>)
        requires
            self@.code.len() == 0,
            self@.variables.len() == 0,
            self@.nested.len() == 0,
        ensures
            match lower_function(
                self@.class_name,
                self@.name,
                token_views(parameters@),
                token_views(statements@),
                globals@,
            ) {
                Ok(compiled) => out is Ok && compiled_views(out->Ok_0@) == compiled,
                Err(error) => out == Err::<Vec<Compiled>, CompileError>(error),
            },
        decreases statements, statements.len() + 1,
    {
        proof {
            reveal(lower_expression);
            reveal(lower_statement);
        }
        let mut this = self;
        let name = this.get_full_name();
        let mut out: Vec<Compiled> = Vec::new();
        if statements.len() == 0 {
            let mut instructions: Vec<Instruction> = Vec::new();
            instructions.push(Instruction::Return(false));
            assert(code(instructions@) =~= seq![InstructionView::Return(false)]);
            out.push(Compiled { name, instructions });
            assert(compiled_views(out@) =~= seq![
                CompiledView {
                    name: full_name(self@.class_name, self@.name),
                    code: seq![InstructionView::Return(false)],
                },
            ]);
            return Ok(out);
        }
        assert(this@.variables =~= Seq::empty());
        assert(this@.nested =~= Seq::empty());
        assert(this@.code =~= Seq::empty());
        match this.add_variable(String::from_str("this"), Value::Null) {
            Err(error) => {
                return Err(error);
            },
            Ok(_) => {},
        }
        assert(this@.variables =~= receiver_only());
        match this.add_parameters(parameters, 0) {
            Err(error) => {
                return Err(error);
            },
            Ok(_) => {},
        }
        let ghost ready = this@;
        assert(ready.scope(globals@) == (Scope {
            variables: ready.variables,
            ..fresh_scope(self@.class_name, globals@)
        }));
        match this.compile_statements(statements, 0, globals) {
            Err(error) => {
                return Err(error);
            },
            Ok(_) => {},
        }
        let ghost body = this@.code;
        assert(body =~= lower_statements(
            ready.scope(globals@),
            token_views(statements@),
            0,
        )->Ok_0.0);
        let count = this.instructions.len();
        let ends = count > 0 && matches!(this.instructions[count - 1], Instruction::Return(_));
        if !ends {
            this.emit(Instruction::Return(false));
        }
        assert(this@.code == closed(body));
        let ghost nested = this@.nested;
        let Function { instructions, nested: mut others, .. } = this;
        out.push(Compiled { name, instructions });
        out.append(&mut others);
        assert(compiled_views(out@) =~= seq![
            CompiledView { name: full_name(self@.class_name, self@.name), code: closed(body) },
        ] + nested);
        Ok(out)
    }

    /// Compiles the function, and returns it with the functions that its
    /// function literals gave after it.
    pub fn compile(self, global_lookup: &Table<usize>) -> (out: Result<
        Vec<Compiled>,
        CompileError,
    >)
        ensures
            match lower_function(
                self@.class_name,
                self@.name,
                self@.parameters,
                self@.statements,
                global_lookup@,
            ) {
                Ok(compiled) => out is Ok && compiled_views(out->Ok_0@) == compiled,
                Err(error) => out == Err::<Vec<Compiled>, CompileError>(error),
            },
    {
        self.compile_borrowed(global_lookup)
    }

    /// Compiles the function and leaves it as it is.
    pub(crate) fn compile_borrowed(&self, global_lookup: &Table<usize>) -> (out: Result<
        Vec<Compiled>,
        CompileError,
    >)
        ensures
            match lower_function(
                self@.class_name,
                self@.name,
                self@.parameters,
                self@.statements,
                global_lookup@,
            ) {
                Ok(compiled) => out is Ok && compiled_views(out->Ok_0@) == compiled,
                Err(error) => out == Err::<Vec<Compiled>, CompileError>(error),
            },
    {
        let maker = Function::new(
            self.class_name.as_str(),
            self.name.as_str(),
            Vec::new(),
            Vec::new(),
        );
        maker.compile_parts(&self.parameters, &self.statements, global_lookup)
    }
}

} // verus!
