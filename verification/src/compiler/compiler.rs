//! The compiler of a script: the declaration of its classes, then the
//! instructions of their functions.

use vstd::prelude::*;
use vstd::string::StringExecFns;
use crate::compiler::frontend::parse;
use crate::compiler::function::{Compiled, Function, FunctionView, compiled_views};
use crate::compiler::grammar::{ParseError, script};
use crate::compiler::lowering::{
    CompileError,
    CompiledView,
    constructor_name,
    full_name,
    lower_function,
    this_name,
};
use crate::compiler::token::{
    Token,
    TokenView,
    clone_tokens,
    lemma_views_index,
    name_of,
    token_view,
    token_views,
};
use crate::table::{Table, bind, lookup};
use crate::vm::instruction::{Instruction, InstructionView, code};
use crate::vm::program::{Program, ProgramView};
use crate::vm::store::{Cell, CellView, Fields};
use crate::vm::value::{Value, ValueView};

verus! {

/// What the declaration of classes has come to: the cells and the globals of
/// the program, the index of each class among the globals, and the functions
/// that wait to be compiled.
pub struct Declared {
    pub store: Seq<CellView>,
    pub globals: Seq<ValueView>,
    pub lookup: Seq<(Seq<char>, usize)>,
    pub functions: Seq<FunctionView>,
}

/// What the members of a class have come to: the template of the class, the
/// statements that give its fields their first values, and its functions.
pub struct Members {
    pub template: Fields,
    pub fields: Seq<TokenView>,
    pub functions: Seq<FunctionView>,
}

/// A function that waits to be compiled.
pub open spec fn declaration(
    class_name: Seq<char>,
    name: Seq<char>,
    parameters: Seq<TokenView>,
    statements: Seq<TokenView>,
) -> FunctionView {
    FunctionView {
        name,
        class_name,
        parameters,
        statements,
        code: Seq::empty(),
        nested: Seq::empty(),
        variables: Seq::empty(),
    }
}

/// The statement `this.name = value`.
pub open spec fn field_initialiser(name: Seq<char>, value: TokenView) -> TokenView {
    TokenView::Assign(
        Box::new(
            TokenView::Chain(
                Box::new(TokenView::Identifier(this_name())),
                seq![TokenView::Identifier(name)],
            ),
        ),
        Box::new(value),
    )
}

/// One member of a class: a method or a constructor is recorded in the
/// template as a reference to its qualified name and waits to be compiled; a
/// field is recorded as `Null`, and its first value is kept for the
/// constructor that the compiler writes; anything else is passed over.
pub open spec fn declare_member(class_name: Seq<char>, member: TokenView, so_far: Members) -> Members {
    match member {
        TokenView::Function(name, parameters, statements) => Members {
            template: bind(
                so_far.template,
                name,
                ValueView::FunctionRef(full_name(class_name, name)),
            ),
            functions: so_far.functions.push(
                declaration(class_name, name, parameters, statements),
            ),
            ..so_far
        },
        TokenView::Constructor(parameters, statements) => Members {
            template: bind(
                so_far.template,
                constructor_name(),
                ValueView::FunctionRef(full_name(class_name, constructor_name())),
            ),
            functions: so_far.functions.push(
                declaration(class_name, constructor_name(), parameters, statements),
            ),
            ..so_far
        },
        TokenView::Variable(name, value) => Members {
            template: bind(so_far.template, name_of(*name), ValueView::Null),
            fields: so_far.fields.push(field_initialiser(name_of(*name), *value)),
            ..so_far
        },
        _ => so_far,
    }
}

/// The members of a class from position `from` on.
pub open spec fn declare_members(
    class_name: Seq<char>,
    members: Seq<TokenView>,
    from: nat,
    so_far: Members,
) -> Members
    decreases members.len() - from,
{
    if from >= members.len() {
        so_far
    } else {
        declare_members(
            class_name,
            members,
            from + 1,
            declare_member(class_name, members[from as int], so_far),
        )
    }
}

/// A class without a constructor gets one: it takes no arguments and gives
/// each field its first value.
pub open spec fn with_constructor(class_name: Seq<char>, members: Members) -> Members {
    if lookup(members.template, constructor_name()) is Some {
        members
    } else {
        Members {
            template: bind(
                members.template,
                constructor_name(),
                ValueView::FunctionRef(full_name(class_name, constructor_name())),
            ),
            functions: members.functions.push(
                declaration(class_name, constructor_name(), Seq::empty(), members.fields),
            ),
            ..members
        }
    }
}

/// A class: its template becomes a cell, the cell's address a global, and
/// the global's index is kept under the name of the class.
pub open spec fn declare_class(state: Declared, class_name: Seq<char>, members: Seq<TokenView>) -> Result<
    Declared,
    CompileError,
> {
    if lookup(state.lookup, class_name) is Some {
        Err(CompileError::DuplicateClass)
    } else {
        let found = with_constructor(
            class_name,
            declare_members(
                class_name,
                members,
                0,
                Members { template: Seq::empty(), fields: Seq::empty(), functions: Seq::empty() },
            ),
        );
        Ok(
            Declared {
                store: state.store.push(CellView::Class(found.template)),
                globals: state.globals.push(ValueView::Class(state.store.len() as usize)),
                lookup: bind(state.lookup, class_name, state.globals.len() as usize),
                functions: state.functions + found.functions,
            },
        )
    }
}

/// The classes of a script from position `from` on. What is no class is
/// passed over.
pub open spec fn declare_all(script: Seq<TokenView>, from: nat, state: Declared) -> Result<
    Declared,
    CompileError,
>
    decreases script.len() - from,
{
    if from >= script.len() {
        Ok(state)
    } else {
        match script[from as int] {
            TokenView::Class(name, members) => match declare_class(state, name, members) {
                Err(error) => Err(error),
                Ok(next) => declare_all(script, from + 1, next),
            },
            _ => declare_all(script, from + 1, state),
        }
    }
}

/// The program with compiled functions from position `from` on put at its
/// end, each under its name.
pub open spec fn install(program: ProgramView, compiled: Seq<CompiledView>, from: nat) -> Result<
    ProgramView,
    CompileError,
>
    decreases compiled.len() - from,
{
    if from >= compiled.len() {
        Ok(program)
    } else if lookup(program.symbols, compiled[from as int].name) is Some {
        Err(CompileError::DuplicateFunction)
    } else {
        install(
            ProgramView {
                symbols: bind(
                    program.symbols,
                    compiled[from as int].name,
                    program.instructions.len() as usize,
                ),
                instructions: program.instructions + compiled[from as int].code,
                ..program
            },
            compiled,
            from + 1,
        )
    }
}

/// The program with the functions from position `from` on compiled and put
/// at its end.
pub open spec fn generate(
    functions: Seq<FunctionView>,
    from: nat,
    globals: Seq<(Seq<char>, usize)>,
    program: ProgramView,
) -> Result<ProgramView, CompileError>
    decreases functions.len() - from,
{
    if from >= functions.len() {
        Ok(program)
    } else {
        let function = functions[from as int];
        match lower_function(
            function.class_name,
            function.name,
            function.parameters,
            function.statements,
            globals,
        ) {
            Err(error) => Err(error),
            Ok(compiled) => match install(program, compiled, 0) {
                Err(error) => Err(error),
                Ok(next) => generate(functions, from + 1, globals, next),
            },
        }
    }
}

/// The state before any class is declared.
pub open spec fn nothing_declared() -> Declared {
    Declared {
        store: Seq::empty(),
        globals: Seq::empty(),
        lookup: Seq::empty(),
        functions: Seq::empty(),
    }
}

/// The program of a script: every class is declared, then every function is
/// compiled, in the order in which they stand in the script, a constructor
/// that the compiler wrote after the methods of its class.
pub open spec fn compile_script(script: Seq<TokenView>) -> Result<ProgramView, CompileError> {
    match declare_all(script, 0, nothing_declared()) {
        Err(error) => Err(error),
        Ok(declared) => generate(
            declared.functions,
            0,
            declared.lookup,
            ProgramView {
                instructions: Seq::empty(),
                symbols: Seq::empty(),
                globals: declared.globals,
                store: declared.store,
            },
        ),
    }
}

/// The program of a source text: the text is read as a script, and the
/// script is compiled.
pub open spec fn compile_source(source: Seq<char>) -> Result<ProgramView, CompileError> {
    match script(source) {
        Ok(tokens) => compile_script(tokens),
        Err((expected, position)) => Err(
            CompileError::Syntax(ParseError { expected, position: position as usize }),
        ),
    }
}

/// The models of a sequence of functions.
pub open spec fn function_views(functions: Seq<Function>) -> Seq<FunctionView> {
    Seq::new(functions.len(), |i: int| functions[i]@)
}

/// The name of the constructor of a class.
pub const CLASS_CONSTRUCTOR_FUNCTION_NAME: &'static str = "constructor";

/// The compiler of a script.
pub struct Compiler {
    global_lookup: Table<usize>,
}

/// The statement `this.name = value`.
fn initialiser(name: String, value: &Token) -> (out: Token)
    ensures
        out@ == field_initialiser(name@, value@),
{
    proof {
        reveal(token_view);
    }
    let member = Token::Identifier(name);
    assert(member@ == TokenView::Identifier(name@));
    let mut rest: Vec<Token> = Vec::new();
    rest.push(member);
    assert(token_views(rest@) =~= seq![TokenView::Identifier(name@)]);
    let root = Token::Identifier(String::from_str("this"));
    assert(root@ == TokenView::Identifier(this_name()));
    let target = Token::Chain(Box::new(root), rest);
    assert(target@ == TokenView::Chain(
        Box::new(TokenView::Identifier(this_name())),
        seq![TokenView::Identifier(name@)],
    ));
    Token::Assign(Box::new(target), Box::new(value.clone()))
}

/// Appends copies of instructions.
fn extend(target: &mut Vec<Instruction>, source: &Vec<Instruction>)
    ensures
        code(final(target)@) == code(old(target)@) + code(source@),
{
    let mut i: usize = 0;
    while i < source.len()
        invariant
            i <= source.len(),
            code(target@) == code(old(target)@) + code(source@).take(i as int),
        decreases source.len() - i,
    {
        let ghost before = target@;
        target.push(source[i].clone());
        assert(code(target@) =~= code(before).push(source[i as int]@));
        assert(code(source@).take(i + 1) =~= code(source@).take(i as int).push(source[i as int]@));
        assert(code(target@) =~= code(old(target)@) + code(source@).take(i + 1));
        i += 1;
    }
    assert(code(source@).take(source.len() as int) =~= code(source@));
}

impl Compiler {
    /// Puts compiled functions at the end of a program, each under its name.
    fn install(program: &mut Program, compiled: &Vec<Compiled>) -> (out: Result<(), CompileError>)
        ensures
            match install(old(program)@, compiled_views(compiled@), 0) {
                Ok(next) => out is Ok && final(program)@ == next,
                Err(error) => out == Err::<(), CompileError>(error),
            },
    {
        let mut i: usize = 0;
        while i < compiled.len()
            invariant
                i <= compiled.len(),
                install(old(program)@, compiled_views(compiled@), 0) == install(
                    program@,
                    compiled_views(compiled@),
                    i as nat,
                ),
            decreases compiled.len() - i,
        {
            let name = compiled[i].name.clone();
            if program.symbols.contains_key(&name) {
                return Err(CompileError::DuplicateFunction);
            }
            let start = program.instructions.len();
            program.insert_into_symbols(name, start);
            extend(&mut program.instructions, &compiled[i].instructions);
            i += 1;
        }
        Ok(())
    }

    /// The members of a class: its template, the statements that give its fields
    /// their first values, and its functions.
    fn declare_members(class_name: &String, members: &Vec<Token>) -> (out: (
        Table<Value>,
        Vec<Token>,
        Vec<Function>,
    ))
        ensures
            (Members {
                template: out.0@,
                fields: token_views(out.1@),
                functions: function_views(out.2@),
            }) == declare_members(
                class_name@,
                token_views(members@),
                0,
                Members { template: Seq::empty(), fields: Seq::empty(), functions: Seq::empty() },
            ),
    {
        let mut template: Table<Value> = Table::new();
        let mut fields: Vec<Token> = Vec::new();
        let mut functions: Vec<Function> = Vec::new();
        let ghost start = Members {
            template: Seq::empty(),
            fields: Seq::empty(),
            functions: Seq::empty(),
        };
        assert(token_views(fields@) =~= Seq::empty());
        assert(function_views(functions@) =~= Seq::empty());
        let mut i: usize = 0;
        while i < members.len()
            invariant
                i <= members.len(),
                declare_members(class_name@, token_views(members@), 0, start) == declare_members(
                    class_name@,
                    token_views(members@),
                    i as nat,
                    Members {
                        template: template@,
                        fields: token_views(fields@),
                        functions: function_views(functions@),
                    },
                ),
            decreases members.len() - i,
        {
            let ghost so_far = Members {
                template: template@,
                fields: token_views(fields@),
                functions: function_views(functions@),
            };
            proof {
                reveal(token_view);
                lemma_views_index(members@, i as int);
            }
            match &members[i] {
                Token::Function(name, parameters, statements) => {
                    let function = Function::new(
                        class_name.as_str(),
                        name.as_str(),
                        clone_tokens(parameters),
                        clone_tokens(statements),
                    );
                    template.insert(name.clone(), Value::FunctionRef(function.get_full_name()));
                    let ghost added = function@;
                    functions.push(function);
                    assert(function_views(functions@) =~= so_far.functions.push(added));
                },
                Token::Constructor(parameters, statements) => {
                    let function = Function::new(
                        class_name.as_str(),
                        CLASS_CONSTRUCTOR_FUNCTION_NAME,
                        clone_tokens(parameters),
                        clone_tokens(statements),
                    );
                    template.insert(
                        String::from_str(CLASS_CONSTRUCTOR_FUNCTION_NAME),
                        Value::FunctionRef(function.get_full_name()),
                    );
                    let ghost added = function@;
                    functions.push(function);
                    assert(function_views(functions@) =~= so_far.functions.push(added));
                },
                Token::Variable(name, value) => {
                    let field = name.to_string();
                    template.insert(field.clone(), Value::Null);
                    let first = initialiser(field, value);
                    let ghost added = first@;
                    fields.push(first);
                    assert(token_views(fields@) =~= so_far.fields.push(added));
                },
                _ => {},
            }
            assert((Members {
                template: template@,
                fields: token_views(fields@),
                functions: function_views(functions@),
            }) == declare_member(class_name@, members[i as int]@, so_far));
            i += 1;
        }
        (template, fields, functions)
    }

    /// A compiler that knows no class.
    pub fn new() -> (out: Self)
        ensures
            out.known() == Seq::<(Seq<char>, usize)>::empty(),
    {
        Compiler { global_lookup: Table::new() }
    }

    /// The index of each class that was declared, under its name.
    pub closed spec fn known(&self) -> Seq<(Seq<char>, usize)> {
        self.global_lookup@
    }

    /// What the declaration of classes has come to.
    pub closed spec fn declared(&self, program: Program, functions: Seq<Function>) -> Declared {
        Declared {
            store: program@.store,
            globals: program@.globals,
            lookup: self.global_lookup@,
            functions: function_views(functions),
        }
    }

    /// Declares a class.
    fn declare_class(
        &mut self,
        program: &mut Program,
        functions: &mut Vec<Function>,
        class_name: &String,
        members: &Vec<Token>,
    ) -> (out: Result<(), CompileError>)
        ensures
            match declare_class(
                old(self).declared(*old(program), old(functions)@),
                class_name@,
                token_views(members@),
            ) {
                Ok(next) => {
                    &&& out is Ok
                    &&& final(self).declared(*final(program), final(functions)@) == next
                    &&& final(program)@.instructions == old(program)@.instructions
                    &&& final(program)@.symbols == old(program)@.symbols
                },
                Err(error) => out == Err::<(), CompileError>(error),
            },
    {
        if self.global_lookup.contains_key(class_name) {
            return Err(CompileError::DuplicateClass);
        }
        let (mut template, fields, mut found) = Compiler::declare_members(class_name, members);
        let constructor = String::from_str(CLASS_CONSTRUCTOR_FUNCTION_NAME);
        if !template.contains_key(&constructor) {
            let ghost listed = function_views(found@);
            let function = Function::new(
                class_name.as_str(),
                CLASS_CONSTRUCTOR_FUNCTION_NAME,
                Vec::new(),
                fields,
            );
            let name = function.get_full_name();
            let ghost added = function@;
            found.push(function);
            template.insert(constructor, Value::FunctionRef(name));
            assert(function_views(found@) =~= listed.push(added));
            assert(added.parameters =~= Seq::empty());
        }
        let ghost all = function_views(found@);
        let ghost before = function_views(functions@);
        let address = program.store.allocate(Cell::Class(template));
        let index = program.insert_global(Value::Class(address));
        self.global_lookup.insert(class_name.clone(), index);
        functions.append(&mut found);
        assert(function_views(functions@) =~= before + all);
        Ok(())
    }

    /// Compiles a source text.
    pub fn compile(self, program: String) -> (out: Result<Program, CompileError>)
        ensures
            match compile_source(program@) {
                Ok(expected) => out is Ok && out->Ok_0@ == expected,
                Err(error) => out is Err && out->Err_0 == error,
            },
    {
        match parse(program.as_str()) {
            Ok(script) => self.compile_tokens(&script),
            Err(error) => Err(CompileError::Syntax(error)),
        }
    }

    /// Compiles a script that is already parsed.
    pub fn compile_tokens(self, script: &Vec<Token>) -> (out: Result<Program, CompileError>)
        ensures
            match compile_script(token_views(script@)) {
                Ok(program) => out is Ok && out->Ok_0@ == program,
                Err(error) => out is Err && out->Err_0 == error,
            },
    {
        let mut this = self;
        this.global_lookup = Table::new();
        let mut program = Program::new();
        let mut functions: Vec<Function> = Vec::new();
        assert(function_views(functions@) =~= Seq::empty());
        assert(this.declared(program, functions@) == nothing_declared());
        let mut i: usize = 0;
        while i < script.len()
            invariant
                i <= script.len(),
                program@.instructions == Seq::<InstructionView>::empty(),
                program@.symbols == Seq::<(Seq<char>, usize)>::empty(),
                declare_all(token_views(script@), 0, nothing_declared()) == declare_all(
                    token_views(script@),
                    i as nat,
                    this.declared(program, functions@),
                ),
            decreases script.len() - i,
        {
            proof {
                lemma_views_index(script@, i as int);
            }
            match &script[i] {
                Token::Class(name, members) => {
                    match this.declare_class(&mut program, &mut functions, name, members) {
                        Err(error) => {
                            return Err(error);
                        },
                        Ok(_) => {},
                    }
                },
                _ => {},
            }
            i += 1;
        }
        let ghost declared = this.declared(program, functions@);
        let ghost first = program@;
        assert(first == (ProgramView {
            instructions: Seq::empty(),
            symbols: Seq::empty(),
            globals: declared.globals,
            store: declared.store,
        }));
        assert(compile_script(token_views(script@)) == generate(
            declared.functions,
            0,
            declared.lookup,
            first,
        ));
        let mut k: usize = 0;
        while k < functions.len()
            invariant
                k <= functions.len(),
                compile_script(token_views(script@)) == generate(
                    declared.functions,
                    0,
                    declared.lookup,
                    first,
                ),
                declared.lookup == this.global_lookup@,
                declared.functions == function_views(functions@),
                generate(declared.functions, 0, declared.lookup, first) == generate(
                    declared.functions,
                    k as nat,
                    declared.lookup,
                    program@,
                ),
            decreases functions.len() - k,
        {
            let compiled = match functions[k].compile_borrowed(&this.global_lookup) {
                Ok(compiled) => compiled,
                Err(error) => {
                    return Err(error);
                },
            };
            match Compiler::install(&mut program, &compiled) {
                Err(error) => {
                    return Err(error);
                },
                Ok(_) => {},
            }
            k += 1;
        }
        Ok(program)
    }
}

} // verus!
