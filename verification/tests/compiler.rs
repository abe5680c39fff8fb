use tinyscript::compile;
use tinyscript::compiler::compiler::Compiler;
use tinyscript::compiler::function::Function;
use tinyscript::compiler::grammar::{Expected, ParseError};
use tinyscript::compiler::lowering::CompileError;
use tinyscript::compiler::token::Token;
use tinyscript::compiler::variable::Variable;
use tinyscript::table::Table;
use tinyscript::vm::instruction::{Instruction, Literal};
use tinyscript::vm::store::Cell;
use tinyscript::vm::value::Value;

fn text(s: &str) -> Instruction {
    Instruction::StackPush(Literal::String(s.to_string()))
}

fn whole(i: i32) -> Instruction {
    Instruction::StackPush(Literal::Integer(i))
}

/// The instructions of the only method of a class with the given body.
fn body(statements: &str) -> Vec<Instruction> {
    let source = format!("class T {{ function main(a, b) {{ {} }} }}", statements);
    let program = compile(&source).unwrap();
    assert_eq!(program.symbols.get(&"T.main".to_string()), Some(&0));
    let end = *program.symbols.get(&"T.constructor".to_string()).unwrap();
    let mut code = program.instructions;
    code.truncate(end);
    code
}

fn failure(statements: &str) -> CompileError {
    let source = format!("class T {{ function main(a, b) {{ {} }} }}", statements);
    match compile(&source) {
        Ok(_) => panic!("compiled"),
        Err(error) => error,
    }
}

#[test]
fn compile_helloworld() {
    let program =
        compile("class HelloWorld { function main() { print \"hello\"; } }").expect("should compile");
    assert_eq!(
        program.instructions,
        vec![
            text("hello"),
            Instruction::Print,
            Instruction::Return(false),
            Instruction::Return(false),
        ]
    );
    assert_eq!(program.symbols.get(&"HelloWorld.main".to_string()), Some(&0));
    assert_eq!(program.symbols.get(&"HelloWorld.constructor".to_string()), Some(&3));
    assert_eq!(program.symbols.len(), 2);
    assert_eq!(program.globals, vec![Value::Class(0)]);
    match program.store.get(0) {
        Some(Cell::Class(template)) => {
            assert_eq!(template.len(), 2);
            assert_eq!(
                template.get(&"main".to_string()),
                Some(&Value::FunctionRef("HelloWorld.main".to_string()))
            );
            assert_eq!(
                template.get(&"constructor".to_string()),
                Some(&Value::FunctionRef("HelloWorld.constructor".to_string()))
            );
        }
        _ => panic!("no class"),
    }
}

#[test]
fn compile_variables() {
    assert_eq!(
        body("var x = 1; var y; x = a; y = x + b;"),
        vec![
            whole(1),
            Instruction::StoreLocalVariable(3),
            Instruction::StackPush(Literal::Null),
            Instruction::StoreLocalVariable(4),
            Instruction::LoadLocalVariable(1),
            Instruction::StoreLocalVariable(3),
            Instruction::LoadLocalVariable(3),
            Instruction::LoadLocalVariable(2),
            Instruction::Add,
            Instruction::StoreLocalVariable(4),
            Instruction::Return(false),
        ]
    );
    assert_eq!(
        body("a[b] = 1; print a[0]; print 1.5; print [1, true]; print {\"k\": null};"),
        vec![
            Instruction::LoadLocalVariable(1),
            whole(1),
            Instruction::LoadLocalVariable(2),
            Instruction::SetCollectionItemByKey,
            Instruction::StoreLocalVariable(1),
            Instruction::LoadLocalVariable(1),
            whole(0),
            Instruction::GetCollectionItemByKey,
            Instruction::Print,
            Instruction::StackPush(Literal::Float("1.5".to_string())),
            Instruction::Print,
            Instruction::StackPush(Literal::Array),
            whole(1),
            Instruction::ArrayAdd,
            Instruction::StackPush(Literal::Bool(true)),
            Instruction::ArrayAdd,
            Instruction::Print,
            Instruction::StackPush(Literal::Dictionary),
            text("k"),
            Instruction::StackPush(Literal::Null),
            Instruction::DictionaryAdd,
            Instruction::Print,
            Instruction::Return(false),
        ]
    );
}

#[test]
fn compile_loops() {
    // while: condition, jump out, body, jump back
    assert_eq!(
        body("while a < b { a = a + 1; }"),
        vec![
            Instruction::LoadLocalVariable(1),
            Instruction::LoadLocalVariable(2),
            Instruction::LessThan,
            Instruction::JumpIfFalse(6),
            Instruction::LoadLocalVariable(1),
            whole(1),
            Instruction::Add,
            Instruction::StoreLocalVariable(1),
            Instruction::Jump(-8),
            Instruction::Return(false),
        ]
    );
    // for with a counter: start, condition, jump out, body, step, jump back
    assert_eq!(
        body("for (var i = 0; i < b; i = i + 1) { print i; }"),
        vec![
            whole(0),
            Instruction::StoreLocalVariable(3),
            Instruction::LoadLocalVariable(3),
            Instruction::LoadLocalVariable(2),
            Instruction::LessThan,
            Instruction::JumpIfFalse(8),
            Instruction::LoadLocalVariable(3),
            Instruction::Print,
            Instruction::LoadLocalVariable(3),
            whole(1),
            Instruction::Add,
            Instruction::StoreLocalVariable(3),
            Instruction::Jump(-10),
            Instruction::Return(false),
        ]
    );
    // for over an array
    assert_eq!(
        body("for (x in a) { print x; }"),
        vec![
            Instruction::LoadLocalVariable(1),
            Instruction::ArrayLength,
            Instruction::StoreLocalVariable(4),
            whole(0),
            Instruction::StoreLocalVariable(5),
            Instruction::LoadLocalVariable(1),
            Instruction::LoadLocalVariable(5),
            Instruction::GetCollectionItemByKey,
            Instruction::StoreLocalVariable(3),
            Instruction::LoadLocalVariable(3),
            Instruction::Print,
            Instruction::LoadLocalVariable(5),
            whole(1),
            Instruction::Add,
            Instruction::StoreLocalVariable(5),
            Instruction::LoadLocalVariable(5),
            Instruction::LoadLocalVariable(4),
            Instruction::LessThan,
            Instruction::JumpIfFalse(2),
            Instruction::Jump(-14),
            Instruction::Return(false),
        ]
    );
    // for over an array literal: the array is kept in a temporary
    let code = body("for (x in [7]) { }");
    assert_eq!(
        code[..5].to_vec(),
        vec![
            Instruction::StackPush(Literal::Array),
            whole(7),
            Instruction::ArrayAdd,
            Instruction::StoreLocalVariable(4),
            Instruction::LoadLocalVariable(4),
        ]
    );
    assert_eq!(code[code.len() - 2], Instruction::Jump(-12));
}

#[test]
fn compile_conditions() {
    assert_eq!(
        body("if a { print 1; } else { print 2; print 3; } print 4;"),
        vec![
            Instruction::LoadLocalVariable(1),
            Instruction::JumpIfFalse(4),
            whole(1),
            Instruction::Print,
            Instruction::Jump(5),
            whole(2),
            Instruction::Print,
            whole(3),
            Instruction::Print,
            whole(4),
            Instruction::Print,
            Instruction::Return(false),
        ]
    );
    assert_eq!(
        body("if a { print 1; }"),
        vec![
            Instruction::LoadLocalVariable(1),
            Instruction::JumpIfFalse(4),
            whole(1),
            Instruction::Print,
            Instruction::Jump(1),
            Instruction::Return(false),
        ]
    );
    assert_eq!(
        body("if a { return 1; } return 2;"),
        vec![
            Instruction::LoadLocalVariable(1),
            Instruction::JumpIfFalse(4),
            whole(1),
            Instruction::Return(true),
            Instruction::Jump(1),
            whole(2),
            Instruction::Return(true),
        ]
    );
}

#[test]
fn compile_functions() {
    // a call of a method of the receiver
    assert_eq!(
        body("f(a, 1);"),
        vec![
            Instruction::LoadLocalVariable(0),
            text("f"),
            Instruction::GetCollectionItemByKey,
            Instruction::LoadLocalVariable(0),
            Instruction::LoadLocalVariable(1),
            whole(1),
            Instruction::Call(3),
            Instruction::Return(false),
        ]
    );
    // a call of a function that a variable holds
    assert_eq!(
        body("a(b);"),
        vec![
            Instruction::LoadLocalVariable(1),
            Instruction::LoadLocalVariable(2),
            Instruction::Call(1),
            Instruction::Return(false),
        ]
    );
    // chains
    assert_eq!(
        body("print a.x.y; a.f(1); a.x = b; a.x.y = 2;"),
        vec![
            Instruction::LoadLocalVariable(1),
            text("x"),
            Instruction::GetCollectionItemByKey,
            text("y"),
            Instruction::GetCollectionItemByKey,
            Instruction::Print,
            Instruction::LoadLocalVariable(1),
            text("f"),
            Instruction::GetCollectionItemByKey,
            Instruction::LoadLocalVariable(1),
            whole(1),
            Instruction::Call(2),
            Instruction::LoadLocalVariable(1),
            Instruction::LoadLocalVariable(2),
            text("x"),
            Instruction::SetCollectionItemByKey,
            Instruction::Pop(1),
            Instruction::LoadLocalVariable(1),
            text("x"),
            Instruction::GetCollectionItemByKey,
            whole(2),
            text("y"),
            Instruction::SetCollectionItemByKey,
            Instruction::Pop(1),
            Instruction::Return(false),
        ]
    );
    // a function literal is compiled behind its function
    let program =
        compile("class T { function main() { var f = function(x) { return x; }; } function g() { } }")
            .unwrap();
    assert_eq!(
        program.instructions,
        vec![
            Instruction::StackPush(Literal::FunctionRef("T.func0".to_string())),
            Instruction::StoreLocalVariable(1),
            Instruction::Return(false),
            Instruction::LoadLocalVariable(1),
            Instruction::Return(true),
            Instruction::Return(false),
            Instruction::Return(false),
        ]
    );
    assert_eq!(program.symbols.get(&"T.main".to_string()), Some(&0));
    assert_eq!(program.symbols.get(&"T.func0".to_string()), Some(&3));
    assert_eq!(program.symbols.get(&"T.g".to_string()), Some(&5));
    assert_eq!(program.symbols.get(&"T.constructor".to_string()), Some(&6));
}

#[test]
fn compile_classes() {
    let program = compile(
        "class P { var x = 1; var y; function get() { return this.x; } } class T { function main() { var p = new P(2); } }",
    )
    .expect("should compile");
    assert_eq!(
        program.instructions,
        vec![
            // P.get
            Instruction::LoadLocalVariable(0),
            text("x"),
            Instruction::GetCollectionItemByKey,
            Instruction::Return(true),
            // P.constructor, written by the compiler
            Instruction::LoadLocalVariable(0),
            whole(1),
            text("x"),
            Instruction::SetCollectionItemByKey,
            Instruction::Pop(1),
            Instruction::LoadLocalVariable(0),
            Instruction::StackPush(Literal::Null),
            text("y"),
            Instruction::SetCollectionItemByKey,
            Instruction::Pop(1),
            Instruction::Return(false),
            // T.main
            Instruction::LoadGlobal(0),
            Instruction::CreateObject,
            Instruction::CopyToLocalVariable(2),
            text("constructor"),
            Instruction::GetCollectionItemByKey,
            Instruction::LoadLocalVariable(2),
            whole(2),
            Instruction::Call(2),
            Instruction::LoadLocalVariable(2),
            Instruction::StoreLocalVariable(1),
            Instruction::Return(false),
            // T.constructor
            Instruction::Return(false),
        ]
    );
    assert_eq!(program.symbols.get(&"P.get".to_string()), Some(&0));
    assert_eq!(program.symbols.get(&"P.constructor".to_string()), Some(&4));
    assert_eq!(program.symbols.get(&"T.main".to_string()), Some(&15));
    assert_eq!(program.symbols.get(&"T.constructor".to_string()), Some(&26));
    assert_eq!(program.globals, vec![Value::Class(0), Value::Class(1)]);
    match program.store.get(0) {
        Some(Cell::Class(template)) => {
            assert_eq!(template.len(), 4);
            assert_eq!(template.key_at(0), "x");
            assert_eq!(template.value_at(0), &Value::Null);
            assert_eq!(template.key_at(1), "y");
            assert_eq!(template.key_at(2), "get");
            assert_eq!(template.value_at(2), &Value::FunctionRef("P.get".to_string()));
            assert_eq!(template.key_at(3), "constructor");
        }
        _ => panic!("no class"),
    }
}

#[test]
fn compile_imports() {
    let program = compile("import \"a.tny\";\nclass T { }").expect("should compile");
    assert_eq!(program.instructions, vec![Instruction::Return(false)]);
}

#[test]
fn compile_x() {
    compile("// nothing but a comment\n").expect("should compile");
    compile("").expect("should compile");
}

#[test]
fn what_does_not_compile() {
    assert_eq!(failure("var a = 1;"), CompileError::DuplicateVariable);
    assert_eq!(failure("var this;"), CompileError::DuplicateVariable);
    assert_eq!(failure("var x; var x;"), CompileError::DuplicateVariable);
    assert_eq!(failure("for (a in b) { }"), CompileError::DuplicateVariable);
    assert_eq!(failure("x = 1;"), CompileError::UnknownVariable);
    assert_eq!(failure("print x;"), CompileError::UnknownVariable);
    assert_eq!(failure("x[0] = 1;"), CompileError::UnknownVariable);
    assert_eq!(failure("print x[0];"), CompileError::UnknownVariable);
    assert_eq!(failure("x.f();"), CompileError::UnknownVariable);
    assert_eq!(failure("for (x in y) { }"), CompileError::UnknownVariable);
    assert_eq!(failure("var x = x + y;"), CompileError::UnknownVariable);
    assert_eq!(failure("var p = new Q();"), CompileError::UnknownClass);
    assert_eq!(failure("a.b[0] = 1;"), CompileError::Unsupported);
    assert_eq!(failure("a.f() = 1;"), CompileError::Unsupported);
    assert_eq!(failure("print a.b[0];"), CompileError::Unsupported);
    assert_eq!(
        compile("class A { } class A { }").err(),
        Some(CompileError::DuplicateClass)
    );
    assert_eq!(
        compile("class A { function f() { } function f() { } }").err(),
        Some(CompileError::DuplicateFunction)
    );
    assert_eq!(
        compile("class A { function f(x, x) { return x; } }").err(),
        Some(CompileError::DuplicateVariable)
    );
    assert_eq!(
        compile("class A {").err(),
        Some(CompileError::Syntax(ParseError { expected: Expected::Member, position: 9 }))
    );
    let failed = compile("class A { function f() { 1 + 2; } }").err().unwrap();
    assert_eq!(
        failed,
        CompileError::Syntax(ParseError { expected: Expected::Statement, position: 25 })
    );
    assert_eq!(
        failed.message(),
        "ParseError: a statement or the closing brace of the block expected at position 25"
    );
    assert_eq!(
        compile("class A { } ?").err().unwrap().message(),
        "ParseError: an import, a class or a comment expected at position 12"
    );
    assert_eq!(
        compile("class A { ? }").err().unwrap().message(),
        "ParseError: a member of the class or its closing brace expected at position 10"
    );
    assert_eq!(
        CompileError::UnknownClass.message(),
        "CompileError: a class is not declared"
    );
}

#[test]
fn tokens_are_compiled_without_a_text() {
    let script = vec![
        Token::Comment("c".to_string()),
        Token::Import("i".to_string()),
        Token::Integer(1),
        Token::Class(
            "A".to_string(),
            vec![
                Token::Comment("in".to_string()),
                Token::Function(
                    "f".to_string(),
                    vec![],
                    vec![Token::Return(Box::new(Token::Integer(1)))],
                ),
            ],
        ),
    ];
    let program = Compiler::new().compile_tokens(&script).unwrap();
    assert_eq!(
        program.instructions,
        vec![whole(1), Instruction::Return(true), Instruction::Return(false)]
    );
    // a statement that is no statement, and an expression that is none
    let bad = vec![Token::Class(
        "A".to_string(),
        vec![Token::Function("f".to_string(), vec![], vec![Token::Integer(1)])],
    )];
    assert_eq!(Compiler::new().compile_tokens(&bad).err(), Some(CompileError::Unsupported));
    let bad = vec![Token::Class(
        "A".to_string(),
        vec![Token::Function(
            "f".to_string(),
            vec![],
            vec![Token::Print(Box::new(Token::Comment("c".to_string())))],
        )],
    )];
    assert_eq!(Compiler::new().compile_tokens(&bad).err(), Some(CompileError::Unsupported));
    let bad = vec![Token::Class(
        "A".to_string(),
        vec![Token::Function(
            "f".to_string(),
            vec![],
            vec![Token::Print(Box::new(Token::Dictionary(vec![Token::Integer(1)])))],
        )],
    )];
    assert_eq!(Compiler::new().compile_tokens(&bad).err(), Some(CompileError::Unsupported));
}

#[test]
fn a_function_is_compiled_alone() {
    let function = Function::new(
        "A",
        "f",
        vec![Token::Identifier("x".to_string())],
        vec![Token::Return(Box::new(Token::Identifier("x".to_string())))],
    );
    assert_eq!(function.get_full_name(), "A.f");
    let globals: Table<usize> = Table::new();
    let compiled = function.compile(&globals).unwrap();
    assert_eq!(compiled.len(), 1);
    assert_eq!(compiled[0].name, "A.f");
    assert_eq!(
        compiled[0].instructions,
        vec![Instruction::LoadLocalVariable(1), Instruction::Return(true)]
    );
    let empty = Function::new("A", "g", vec![], vec![]);
    assert_eq!(
        empty.compile(&globals).unwrap()[0].instructions,
        vec![Instruction::Return(false)]
    );
    let variable = Variable::new("v".to_string(), 3, Value::Null);
    assert_eq!(variable.name, "v");
    assert_eq!(variable.index, 3);
    assert_eq!(variable.value, Value::Null);
}
