use tinyscript::run;
use tinyscript::vm::value::Value;

#[test]
fn program_prints_hello() {
    let source = "class HelloWorld { function main() { print \"hello\"; } }";
    assert_eq!(run(source, "HelloWorld.main", None), Ok(Value::Null));
}

#[test]
fn program_does_arithmetic() {
    let source = "class T { function main() { var a = 2; var b = 3; assert a + b == 5; assert b - a == 1; assert a * b == 6; assert b / a == 1; } }";
    assert_eq!(run(source, "T.main", None), Ok(Value::Null));
}

#[test]
fn program_counts_in_a_loop() {
    let source = "class T { function main() { var n = 0; for (var i = 0; i < 5; i = i + 1;) { n = n + i; } assert n == 10; } }";
    assert_eq!(run(source, "T.main", None), Ok(Value::Null));
}

#[test]
fn program_uses_a_constructor() {
    let source = "class Pt { var x; var y; constructor(x, y) { this.x = x; this.y = y; } function sum() { return this.x + this.y; } } class T { function main() { var p = new Pt(3, 4); assert p.sum() == 7; } }";
    assert_eq!(run(source, "T.main", None), Ok(Value::Null));
}

#[test]
fn program_uses_a_dictionary() {
    let source = "class T { function main() { var d = {\"a\": 1, \"b\": 2}; d[\"c\"] = 3; assert d[\"a\"] + d[\"c\"] == 4; } }";
    assert_eq!(run(source, "T.main", None), Ok(Value::Null));
}

#[test]
fn program_recurses() {
    let source = "class T { function fib(n) { if n < 2 { return n; } return this.fib(n - 1) + this.fib(n - 2); } function main() { assert this.fib(10) == 55; } }";
    assert_eq!(run(source, "T.main", None), Ok(Value::Null));
}
