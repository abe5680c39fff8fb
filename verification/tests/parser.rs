use tinyscript::compiler::frontend::parse;
use tinyscript::compiler::grammar::{Expected, ParseError};
use tinyscript::compiler::token::Token;

fn id(name: &str) -> Token {
    Token::Identifier(name.to_string())
}

fn boxed(token: Token) -> Box<Token> {
    Box::new(token)
}

/// The statements of the only method of the only class.
fn statements(body: &str) -> Vec<Token> {
    let source = format!("class T {{ function main() {{ {} }} }}", body);
    match parse(&source) {
        Ok(mut script) => match script.pop() {
            Some(Token::Class(_, mut members)) => match members.pop() {
                Some(Token::Function(_, _, statements)) => statements,
                other => panic!("no method: {:?}", other),
            },
            other => panic!("no class: {:?}", other),
        },
        Err(error) => panic!("no script: {:?}", error),
    }
}

/// The expression of `print ..;`.
fn expression(text: &str) -> Token {
    let mut found = statements(&format!("print {};", text));
    assert_eq!(found.len(), 1);
    match found.pop() {
        Some(Token::Print(value)) => *value,
        other => panic!("no print: {:?}", other),
    }
}

#[test]
fn an_empty_text_is_an_empty_script() {
    assert_eq!(parse(""), Ok(vec![]));
    assert_eq!(parse("  \n\t\r\n"), Ok(vec![]));
}

fn stops(source: &str, expected: Expected, at: &str) {
    let position = source.find(at).unwrap_or(source.len());
    assert_eq!(parse(source), Err(ParseError { expected, position }), "{}", source);
}

#[test]
fn what_is_no_script_is_refused_where_it_stands() {
    assert_eq!(parse("x"), Err(ParseError { expected: Expected::Item, position: 0 }));
    assert_eq!(
        parse("  function f() { }"),
        Err(ParseError { expected: Expected::Item, position: 2 })
    );
    assert_eq!(
        parse("class A { } class"),
        Err(ParseError { expected: Expected::Item, position: 12 })
    );
    assert_eq!(
        parse("// no end of line"),
        Err(ParseError { expected: Expected::Item, position: 0 })
    );
    assert_eq!(parse("class A {"), Err(ParseError { expected: Expected::Member, position: 9 }));
    stops("class A { var x }", Expected::Member, "var");
    stops("class A { function f() { } 12 }", Expected::Member, "12");
    stops("class A { function f { } }", Expected::Member, "function");
    stops("class T { function main() { print 1 } }", Expected::Statement, "print");
    stops("class T { function main() { a = 1; b = ; } }", Expected::Statement, "b =");
    stops("class T { function main() { var x = 99999999999; } }", Expected::Statement, "var");
    stops("class T { constructor(a) { return; } }", Expected::Statement, "return");
    stops("class T { function main() { a = 1; ", Expected::Statement, "#");
}

#[test]
fn the_innermost_block_is_named() {
    stops("class T { function f() { if a { x = ; } } }", Expected::Statement, "x =");
    stops("class T { function f() { if a { } else { 1; } } }", Expected::Statement, "1;");
    stops("class T { function f() { while (a) { y y } } }", Expected::Statement, "y y");
    stops("class T { function f() { for (x in xs) { ? } } }", Expected::Statement, "?");
    stops(
        "class T { function f() { for (i = 0; i < 1; i = 1) { if b { while c { ! } } } } }",
        Expected::Statement,
        "!",
    );
    // a head that is not read leaves the statement itself as the place
    stops("class T { function f() { if { } } }", Expected::Statement, "if");
    stops("class T { function f() { for (x of xs) { } } }", Expected::Statement, "for");
}

#[test]
fn imports_comments_and_classes() {
    assert_eq!(
        parse("import \"a.tny\";\n// first\nclass A { }\n\n// second \nclass B{}"),
        Ok(vec![
            Token::Import("a.tny".to_string()),
            Token::Comment(" first".to_string()),
            Token::Class("A".to_string(), vec![]),
            Token::Comment(" second ".to_string()),
            Token::Class("B".to_string(), vec![]),
        ])
    );
}

#[test]
fn members_of_a_class() {
    assert_eq!(
        parse("class P {\n  var x;\n  var y = 2;;\n  constructor(a, b) { }\n  function f() { }\n  function g( a ,b ) { }\n}"),
        Ok(vec![Token::Class(
            "P".to_string(),
            vec![
                Token::Variable(boxed(id("x")), boxed(Token::Null)),
                Token::Variable(boxed(id("y")), boxed(Token::Integer(2))),
                Token::Constructor(vec![id("a"), id("b")], vec![]),
                Token::Function("f".to_string(), vec![], vec![]),
                Token::Function("g".to_string(), vec![id("a"), id("b")], vec![]),
            ]
        )])
    );
}

#[test]
fn literals() {
    assert_eq!(expression("1"), Token::Integer(1));
    assert_eq!(expression("-12"), Token::Integer(-12));
    assert_eq!(expression("2147483647"), Token::Integer(i32::MAX));
    assert_eq!(expression("-2147483648"), Token::Integer(i32::MIN));
    assert_eq!(expression("1.5"), Token::Float("1.5".to_string()));
    assert_eq!(expression("-0.25"), Token::Float("-0.25".to_string()));
    assert_eq!(expression("null"), Token::Null);
    assert_eq!(expression("true"), Token::Bool(true));
    assert_eq!(expression("false"), Token::Bool(false));
    assert_eq!(expression("nullable"), id("nullable"));
    assert_eq!(expression("trueish"), id("trueish"));
    assert_eq!(expression("falsely"), id("falsely"));
    assert_eq!(expression("_x1"), id("_x1"));
    assert_eq!(expression("\"a b\""), Token::String("a b".to_string()));
    assert_eq!(expression("\"\""), Token::String("".to_string()));
    assert_eq!(expression("\"é;}\""), Token::String("é;}".to_string()));
    assert_eq!(expression("[]"), Token::Array(vec![]));
    assert_eq!(
        expression("[1, x ,\n 2]"),
        Token::Array(vec![Token::Integer(1), id("x"), Token::Integer(2)])
    );
    assert_eq!(expression("{}"), Token::Dictionary(vec![]));
    assert_eq!(
        expression("{ \"a\" : 1 , \"b\":[2] }"),
        Token::Dictionary(vec![
            Token::KeyValuePair("a".to_string(), boxed(Token::Integer(1))),
            Token::KeyValuePair("b".to_string(), boxed(Token::Array(vec![Token::Integer(2)]))),
        ])
    );
}

#[test]
fn operators_bind_by_level_and_to_the_right() {
    let add = |a, b| Token::Add(boxed(a), boxed(b));
    let sub = |a, b| Token::Sub(boxed(a), boxed(b));
    let mul = |a, b| Token::Mul(boxed(a), boxed(b));
    assert_eq!(expression("1 + 2"), add(Token::Integer(1), Token::Integer(2)));
    assert_eq!(expression("1+2"), add(Token::Integer(1), Token::Integer(2)));
    assert_eq!(
        expression("1 + 2 * 3"),
        add(Token::Integer(1), mul(Token::Integer(2), Token::Integer(3)))
    );
    assert_eq!(
        expression("1 * 2 + 3"),
        add(mul(Token::Integer(1), Token::Integer(2)), Token::Integer(3))
    );
    assert_eq!(
        expression("1 - 2 - 3"),
        sub(Token::Integer(1), sub(Token::Integer(2), Token::Integer(3)))
    );
    assert_eq!(
        expression("a + b == c * d"),
        Token::Eq(boxed(add(id("a"), id("b"))), boxed(mul(id("c"), id("d"))))
    );
    assert_eq!(expression("a != b"), Token::Ne(boxed(id("a")), boxed(id("b"))));
    assert_eq!(expression("a < b"), Token::Lt(boxed(id("a")), boxed(id("b"))));
    assert_eq!(expression("a <= b"), Token::Le(boxed(id("a")), boxed(id("b"))));
    assert_eq!(expression("a > b"), Token::Gt(boxed(id("a")), boxed(id("b"))));
    assert_eq!(expression("a >= b"), Token::Ge(boxed(id("a")), boxed(id("b"))));
    assert_eq!(expression("a / b"), Token::Div(boxed(id("a")), boxed(id("b"))));
    assert_eq!(expression("a ^ b"), Token::Pow(boxed(id("a")), boxed(id("b"))));
    assert_eq!(expression("a - -1"), sub(id("a"), Token::Integer(-1)));
}

#[test]
fn calls_chains_and_indexes() {
    assert_eq!(expression("f()"), Token::Call(boxed(id("f")), vec![]));
    assert_eq!(expression("f( )"), Token::Call(boxed(id("f")), vec![]));
    assert_eq!(
        expression("f(1, g(x) ,2)"),
        Token::Call(
            boxed(id("f")),
            vec![
                Token::Integer(1),
                Token::Call(boxed(id("g")), vec![id("x")]),
                Token::Integer(2)
            ]
        )
    );
    assert_eq!(
        expression("a[i + 1]"),
        Token::ArrayIndex(
            boxed(id("a")),
            boxed(Token::Add(boxed(id("i")), boxed(Token::Integer(1))))
        )
    );
    assert_eq!(
        expression("a.b.c(1).d[2]"),
        Token::Chain(
            boxed(id("a")),
            vec![
                id("b"),
                Token::Call(boxed(id("c")), vec![Token::Integer(1)]),
                Token::ArrayIndex(boxed(id("d")), boxed(Token::Integer(2))),
            ]
        )
    );
    assert_eq!(
        expression("new P(1, 2)"),
        Token::Object(boxed(id("P")), vec![Token::Integer(1), Token::Integer(2)])
    );
    assert_eq!(expression("new P()"), Token::Object(boxed(id("P")), vec![]));
    assert_eq!(
        expression("function(a, b) { return a; }"),
        Token::AnonFunction(vec![id("a"), id("b")], vec![Token::Return(boxed(id("a")))])
    );
    assert_eq!(expression("function() { }"), Token::AnonFunction(vec![], vec![]));
}

#[test]
fn plain_statements() {
    assert_eq!(
        statements("assert x; print \"a\"; var a; var b = 1; a = 2; a[0] = 3; a.b = 4; f(); a.f(); return 5;;"),
        vec![
            Token::Assert(boxed(id("x"))),
            Token::Print(boxed(Token::String("a".to_string()))),
            Token::Variable(boxed(id("a")), boxed(Token::Null)),
            Token::Variable(boxed(id("b")), boxed(Token::Integer(1))),
            Token::Assign(boxed(id("a")), boxed(Token::Integer(2))),
            Token::Assign(
                boxed(Token::ArrayIndex(boxed(id("a")), boxed(Token::Integer(0)))),
                boxed(Token::Integer(3))
            ),
            Token::Assign(
                boxed(Token::Chain(boxed(id("a")), vec![id("b")])),
                boxed(Token::Integer(4))
            ),
            Token::Call(boxed(id("f")), vec![]),
            Token::Chain(boxed(id("a")), vec![Token::Call(boxed(id("f")), vec![])]),
            Token::Return(boxed(Token::Integer(5))),
        ]
    );
    assert_eq!(
        statements("// one\n  // two\n x = 1 ;\n// three\n"),
        vec![
            Token::Comment(" one".to_string()),
            Token::Comment(" two".to_string()),
            Token::Assign(boxed(id("x")), boxed(Token::Integer(1))),
            Token::Comment(" three".to_string()),
        ]
    );
}

#[test]
fn statements_with_blocks() {
    assert_eq!(
        statements("if a { b = 1; }"),
        vec![Token::IfElse(
            boxed(id("a")),
            vec![Token::Assign(boxed(id("b")), boxed(Token::Integer(1)))],
            None
        )]
    );
    assert_eq!(
        statements("if a == 1 { } else { b(); } c();"),
        vec![
            Token::IfElse(
                boxed(Token::Eq(boxed(id("a")), boxed(Token::Integer(1)))),
                vec![],
                Some(vec![Token::Call(boxed(id("b")), vec![])])
            ),
            Token::Call(boxed(id("c")), vec![]),
        ]
    );
    assert_eq!(
        statements("while (a < 1) { } while a { }"),
        vec![
            Token::WhileLoop(boxed(Token::Lt(boxed(id("a")), boxed(Token::Integer(1)))), vec![]),
            Token::WhileLoop(boxed(id("a")), vec![]),
        ]
    );
    assert_eq!(
        statements("for (x in xs) { } for ( y in [1] ) { }"),
        vec![
            Token::ForEach(boxed(id("x")), boxed(id("xs")), vec![]),
            Token::ForEach(boxed(id("y")), boxed(Token::Array(vec![Token::Integer(1)])), vec![]),
        ]
    );
    let counted = Token::ForI(
        boxed(Token::Variable(boxed(id("i")), boxed(Token::Integer(0)))),
        boxed(Token::Lt(boxed(id("i")), boxed(Token::Integer(5)))),
        boxed(Token::Assign(
            boxed(id("i")),
            boxed(Token::Add(boxed(id("i")), boxed(Token::Integer(1)))),
        )),
        vec![],
    );
    assert_eq!(statements("for (var i = 0; i < 5; i = i + 1) { }"), vec![counted.clone()]);
    assert_eq!(statements("for (var i = 0; i < 5; i = i + 1;) { }"), vec![counted.clone()]);
    assert_eq!(statements("for(var i = 0 ;i < 5 ; i = i + 1 ; ){}"), vec![counted]);
    assert_eq!(
        statements("for (i = 0; i < 5; i = 1) { }"),
        vec![Token::ForI(
            boxed(Token::Assign(boxed(id("i")), boxed(Token::Integer(0)))),
            boxed(Token::Lt(boxed(id("i")), boxed(Token::Integer(5)))),
            boxed(Token::Assign(boxed(id("i")), boxed(Token::Integer(1)))),
            vec![],
        )]
    );
}

#[test]
fn tokens_have_names() {
    assert_eq!(Token::Identifier("a".to_string()).to_string(), "a");
    assert_eq!(Token::String("s".to_string()).to_string(), "s");
    assert_eq!(Token::Function("f".to_string(), vec![], vec![]).to_string(), "f");
    assert_eq!(Token::Integer(1).to_string(), "");
    assert_eq!(Token::Class("C".to_string(), vec![]).to_string(), "");
    let token = Token::make_if_else(id("a"), vec![Token::make_null()], None);
    assert_eq!(token, Token::IfElse(boxed(id("a")), vec![Token::Null], None));
    assert_eq!(token.clone(), token);
}
