use tinyscript::compile;
use tinyscript::run;
use tinyscript::run_with_output;
use tinyscript::text::write_lines;
use tinyscript::vm::host::{Fault, Reply, Request, Signal};
use tinyscript::vm::number::{Number, Operator, Order};
use tinyscript::vm::value::Value;
use tinyscript::vm::VM;

fn number(n: Number) -> f32 {
    match n {
        Number::Integer(i) => i as f32,
        Number::Float(bits) => f32::from_bits(bits),
    }
}

fn answer(request: Request) -> Reply {
    match request {
        Request::Arithmetic(operator, a, b) => {
            let (x, y) = (number(a), number(b));
            let z = match operator {
                Operator::Add => x + y,
                Operator::Sub => x - y,
                Operator::Mul => x * y,
                Operator::Div => x / y,
                Operator::Pow => x.powf(y),
            };
            Reply::Bits(z.to_bits())
        }
        Request::Compare(a, b) => {
            let (x, y) = (number(a), number(b));
            Reply::Order(if x < y {
                Order::Less
            } else if x > y {
                Order::Greater
            } else if x == y {
                Order::Equal
            } else {
                Order::Unordered
            })
        }
        Request::Render(bits) => Reply::Text(format!("{}", f32::from_bits(bits))),
        Request::Read(text) => Reply::Bits(text.parse::<f32>().unwrap().to_bits()),
    }
}

fn run_with_host(source: &str, entry: &str) -> (Result<Value, Fault>, Vec<String>) {
    let program = compile(source).unwrap();
    let mut vm = VM::new(program);
    let receiver = vm.make_receiver(entry);
    let arguments = VM::arguments(receiver, None);
    vm.start(entry, Some(arguments)).unwrap();
    loop {
        match vm.run(100_000) {
            Signal::Continue => panic!("the script does not end"),
            Signal::Finished(value) => return (Ok(value), vm.take_output()),
            Signal::Failed(fault) => return (Err(fault), vm.take_output()),
            Signal::Waiting(request) => {
                assert!(vm.resume(answer(request)));
            }
        }
    }
}

#[test]
fn hello_world() {
    let source = "class HelloWorld {\n    function main() {\n        print \"hello\";\n    }\n}\n";
    assert_eq!(run(source, "HelloWorld.main", None).unwrap(), Value::Null);
    let (result, output) = run_with_host(source, "HelloWorld.main");
    assert_eq!(result, Ok(Value::Null));
    assert_eq!(output, vec!["hello".to_string()]);
}

#[test]
fn integers() {
    let source = "class Test {
    function main() {
        var a = 1;
        var b = 2;
        assert a + b == 3;
        assert a - b == -1;
        assert a * b == 2;
        assert 7 / 2 == 3;
        assert -7 / 2 == -3;
        assert 2 + 3 * 4 == 14;
        assert 2 * 3 + 4 == 10;
        assert 10 - 3 - 2 == 9;
        assert 2 ^ 10 == 1024;
        assert a < b;
        assert a <= 1;
        assert b > a;
        assert b >= 2;
        assert a != b;
    }
}";
    assert_eq!(run(source, "Test.main", None).unwrap(), Value::Null);
}

#[test]
fn floats() {
    let source = "class Test {
    function main() {
        var a = 1.5;
        var b = 2.25;
        assert a + b == 3.75;
        assert b - a == 0.75;
        assert a * 2 == 3.0;
        assert 3 / a == 2.0;
        assert a < b;
        assert b >= a;
        assert a < 2;
        assert 1 <= a;
        assert a != b;
        assert -0.5 < a;
        print a;
        print \"a = \" + a;
    }
}";
    let (result, output) = run_with_host(source, "Test.main");
    assert_eq!(result, Ok(Value::Null));
    assert_eq!(output, vec!["1.5".to_string(), "a = 1.5".to_string()]);
}

#[test]
fn floats_need_a_host() {
    let source = "class Test { function main() { var a = 1.5; } }";
    assert_eq!(
        run(source, "Test.main", None),
        Err("TypeError in main at instruction 0".to_string())
    );
}

#[test]
fn booleans() {
    let source = "class Test {
    function main() {
        var t = true;
        var f = false;
        assert t;
        assert t == true;
        assert f == false;
        assert t != f;
        assert t + t;
        assert t + f == false;
        assert f + f == false;
        var trueish = 1;
        assert trueish == 1;
    }
}";
    assert_eq!(run(source, "Test.main", None).unwrap(), Value::Null);
}

#[test]
fn dictionary() {
    let source = "class Test {
    function main() {
        var d = {\"a\": 1, \"b\": 2};
        d[\"c\"] = 3;
        assert d[\"a\"] + d[\"c\"] == 4;
        d[\"a\"] = 10;
        assert d[\"a\"] == 10;
        var e = {};
        e[\"x\"] = \"y\";
        assert e[\"x\"] == \"y\";
        var same = {\"b\": 2, \"a\": 10, \"c\": 3};
        assert d == same;
    }
}";
    assert_eq!(run(source, "Test.main", None).unwrap(), Value::Null);
}

#[test]
fn arrays() {
    let source = "class Test {
    function main() {
        var a = [1, 2, 3];
        assert a[0] == 1;
        assert a[2] == 3;
        a[1] = 5;
        assert a[1] == 5;
        var b = a;
        b[0] = 9;
        assert a[0] == 9;
        var c = a + [4];
        assert c[3] == 4;
        assert a[3] == 4;
        assert a == [9, 5, 3, 4];
        assert a != [9, 5, 3];
        var empty = [];
        assert empty == [];
        var nested = [[1], [2, 3]];
        assert nested == [[1], [2, 3]];
    }
}";
    assert_eq!(run(source, "Test.main", None).unwrap(), Value::Null);
}

#[test]
fn strings() {
    let source = "class Test {
    function main() {
        var s = \"hello\";
        assert s == \"hello\";
        assert s + \" world\" == \"hello world\";
        assert s + 1 == \"hello1\";
        assert 1 + s == \"1hello\";
        assert s + true == \"hellotrue\";
        assert s + null == \"hellonull\";
        assert s != \"world\";
        print s + \"!\";
    }
}";
    let (result, output) = run_with_host(source, "Test.main");
    assert_eq!(result, Ok(Value::Null));
    assert_eq!(output, vec!["hello!".to_string()]);
}

#[test]
fn chain() {
    let source = "class Inner {
    var value = 5;
    function get() { return this.value; }
}
class Outer {
    var inner;
    constructor() { this.inner = new Inner(); }
    function read() {
        var i = this.inner;
        return i.get();
    }
}
class Test {
    function main() {
        var o = new Outer();
        assert o.inner.value == 5;
        assert o.read() == 5;
        o.inner.value = 7;
        assert o.inner.value == 7;
        assert o.read() == 7;
    }
}";
    assert_eq!(run(source, "Test.main", None).unwrap(), Value::Null);
}

#[test]
fn if_statement() {
    let source = "class Test { function test() { var x = 0; if 1 < 2 { x = 1; } assert x == 1; } }";
    assert_eq!(run(source, "Test.test", None).unwrap(), Value::Null);
}

#[test]
fn if_false() {
    let source = "class Test { function test() { var x = 0; if 2 < 1 { x = 1; } assert x == 0; } }";
    assert_eq!(run(source, "Test.test", None).unwrap(), Value::Null);
}

#[test]
fn if_else() {
    let source = "class Test { function test() { var x = 0; if 1 < 2 { x = 1; } else { x = 2; } assert x == 1; } }";
    assert_eq!(run(source, "Test.test", None).unwrap(), Value::Null);
}

#[test]
fn if_else_false() {
    let source = "class Test { function test() { var x = 0; if 2 < 1 { x = 1; } else { x = 2; } assert x == 2; } }";
    assert_eq!(run(source, "Test.test", None).unwrap(), Value::Null);
}

#[test]
fn test_class() {
    let source = "class Counter {
    var count = 3;
    var name = \"c\";
    function next() {
        this.count = this.count + 1;
        return this.count;
    }
}
class Test {
    function main() {
        var c = new Counter();
        assert c.count == 3;
        assert c.name == \"c\";
        assert c.next() == 4;
        assert c.next() == 5;
        var d = new Counter();
        assert d.count == 3;
        assert c.count == 5;
    }
}";
    assert_eq!(run(source, "Test.main", None).unwrap(), Value::Null);
}

#[test]
fn test_this() {
    let source = "class Test {
    function twice(n) { return n * 2; }
    function plus(a, b) { return a + b; }
    function main() {
        assert this.twice(4) == 8;
        assert twice(5) == 10;
        assert plus(twice(1), this.twice(2)) == 6;
    }
}";
    assert_eq!(run(source, "Test.main", None).unwrap(), Value::Null);
}

#[test]
fn for_i_loop() {
    let source = "class Test {
    function main() {
        var n = 0;
        for (var i = 0; i < 5; i = i + 1) {
            n = n + i;
        }
        assert n == 10;
        var j = 10;
        for (j = 0; j < 3; j = j + 1) { n = n + 1; }
        assert n == 13;
        assert j == 3;
    }
}";
    assert_eq!(run(source, "Test.main", None).unwrap(), Value::Null);
}

#[test]
fn for_in_loop() {
    let source = "class Test {
    function main() {
        var items = [1, 2, 3, 4];
        var n = 0;
        for (x in items) {
            n = n + x;
        }
        assert n == 10;
        var m = 0;
        for (y in [5, 6]) { m = m + y; }
        assert m == 11;
    }
}";
    assert_eq!(run(source, "Test.main", None).unwrap(), Value::Null);
}

#[test]
fn for_in_loop_over_nothing_fails() {
    let source = "class Test { function main() { var items = []; for (x in items) { print x; } } }";
    let (result, _) = run_with_host(source, "Test.main");
    assert_eq!(result, Err(Fault::IndexOutOfBounds));
}

#[test]
fn while_loop() {
    let source = "class Test {
    function main() {
        var i = 0;
        var n = 1;
        while (i < 10) {
            n = n * 2;
            i = i + 1;
        }
        assert n == 1024;
        while i > 0 { i = i - 1; }
        assert i == 0;
    }
}";
    assert_eq!(run(source, "Test.main", None).unwrap(), Value::Null);
}

#[test]
fn test_fibonacci() {
    let source = "class Test {
    function fib(n) {
        if n < 2 { return n; }
        return this.fib(n - 1) + this.fib(n - 2);
    }
    function main() {
        assert this.fib(0) == 0;
        assert this.fib(1) == 1;
        assert this.fib(10) == 55;
        assert fib(15) == 610;
    }
}";
    assert_eq!(run(source, "Test.main", None).unwrap(), Value::Null);
}

#[test]
fn execute_helloworld() {
    let source = "// a greeting\nclass Main {\n    function main() {\n        // says hello\n        print \"Hello World\";\n    }\n}\n";
    let (result, output) = run_with_host(source, "Main.main");
    assert_eq!(result, Ok(Value::Null));
    assert_eq!(output, vec!["Hello World".to_string()]);
}

#[test]
fn execute_variables() {
    let source = "class Main { function main() { var a; assert a == null; var b = 2; var c = b; c = c + 1; assert b == 2; assert c == 3; var s = \"x\"; var t = s; assert t == \"x\"; } }";
    assert_eq!(run(source, "Main.main", None).unwrap(), Value::Null);
}

#[test]
fn execute_loops() {
    let source = "class Main { function main() { var total = 0; for (var i = 0; i < 3; i = i + 1) { for (var j = 0; j < 3; j = j + 1) { total = total + 1; } } assert total == 9; var k = 0; while (k < 4) { k = k + 1; if k == 2 { total = total + 100; } } assert total == 109; } }";
    assert_eq!(run(source, "Main.main", None).unwrap(), Value::Null);
}

#[test]
fn execute_functions() {
    let source = "class Main {
    function none() { }
    function one() { return 1; }
    function add(a, b) { return a + b; }
    function main() {
        none();
        assert one() == 1;
        assert add(one(), 2) == 3;
        var f = function(x) { return x + 1; };
        assert f(this, 2) == 3;
        return add(20, 22);
    }
}";
    assert_eq!(run(source, "Main.main", None).unwrap(), Value::Integer(42));
}

#[test]
fn execute_fibonacci() {
    let source = "class Main { function fib(n) { if n < 2 { return n; } else { return fib(n - 1) + fib(n - 2); } } function main() { return fib(12); } }";
    assert_eq!(run(source, "Main.main", None).unwrap(), Value::Integer(144));
}

#[test]
fn class() {
    let source = "class Point { var x; var y; constructor(x, y) { this.x = x; this.y = y; } function sum() { return this.x + this.y; } } class Main { function main() { var p = new Point(3, 4); var q = new Point(10, 20); assert p.sum() == 7; assert q.sum() == 30; p.x = 5; assert p.sum() == 9; assert q.x == 10; } }";
    assert_eq!(run(source, "Main.main", None).unwrap(), Value::Null);
}

#[test]
fn execute_imports() {
    let source = "import \"other.tny\";\nimport \"more.tny\";;\nclass Main { function main() { return 1; } }";
    assert_eq!(run(source, "Main.main", None).unwrap(), Value::Integer(1));
}

#[test]
fn experimental() {
    let source = "class Main { function main() { var d = {\"list\": [1, 2], \"n\": null}; var l = d[\"list\"]; l[0] = 7; var again = d[\"list\"]; assert again[0] == 7; assert d[\"n\"] == null; } }";
    assert_eq!(run(source, "Main.main", None).unwrap(), Value::Null);
}

#[test]
fn tests_helloworld() {
    let source = "class Main { function main() { print \"hello\"; print 1; print true; print null; print [1]; } }";
    let (result, output) = run_with_host(source, "Main.main");
    assert_eq!(result, Ok(Value::Null));
    assert_eq!(output, vec!["hello", "1", "true", "null", "Array"]);
}

#[test]
fn tests_variables() {
    let source = "class Main { function main() { var a = 1; var a = 2; } }";
    assert_eq!(
        run(source, "Main.main", None),
        Err("CompileError: a variable is declared twice".to_string())
    );
}

#[test]
fn tests_loops() {
    let source = "class Main { function main() { var n = 0; while n < 1000 { n = n + 1; } return n; } }";
    assert_eq!(run(source, "Main.main", None).unwrap(), Value::Integer(1000));
}

#[test]
fn tests_functions() {
    let source = "class Main { function main() { return missing(1); } }";
    assert_eq!(
        run(source, "Main.main", None),
        Err("LookupError in main at instruction 2".to_string())
    );
}

#[test]
fn classes() {
    let source = "class A { var v = 1; } class B { var v = 2; } class Main { function main() { var a = new A(); var b = new B(); assert a.v == 1; assert b.v == 2; assert a != b; var c = new A(); assert a == c; c.v = 3; assert a != c; } }";
    assert_eq!(run(source, "Main.main", None).unwrap(), Value::Null);
}

#[test]
fn tests_imports() {
    let source = "import \"a.tny\";";
    let program = compile(source).unwrap();
    assert_eq!(program.instructions.len(), 0);
    assert_eq!(
        run(source, "Main.main", None),
        Err("LookupError in main at instruction 0".to_string())
    );
}

#[test]
fn a_call_as_a_statement_leaves_what_it_returns() {
    let source = "class Main { function one() { return 1; } function none() { } function main() { none(); one(); } }";
    let program = compile(source).unwrap();
    let mut vm = VM::new(program);
    let receiver = vm.make_receiver("Main.main");
    let arguments = VM::arguments(receiver, None);
    assert_eq!(vm.exec("Main.main", Some(arguments)), Ok(Value::Null));
    assert_eq!(vm.current_frame().stack(), &vec![Value::Integer(1)]);
}

#[test]
fn an_argument_is_read_from_its_text() {
    let source = "class Main { function double(n) { return n * 2; } }";
    assert_eq!(
        run(source, "Main.double", Some(vec![Value::parse("21", None)])),
        Ok(Value::Integer(42))
    );
    assert_eq!(
        run(source, "Main.double", Some(vec![Value::parse("x", None)])),
        Err("TypeError in main at instruction 2".to_string())
    );
}

#[test]
fn long_programs_are_compiled_and_run() {
    let mut body = String::from("var n = 0;\n");
    for _ in 0..20000 {
        body.push_str("n = n + 1;\n");
    }
    let mut list = String::from("[");
    for i in 0..5000 {
        if i > 0 {
            list.push_str(", ");
        }
        list.push_str(&i.to_string());
    }
    list.push(']');
    let source = format!(
        "class Main {{ function main() {{ {} var items = {}; var total = 0; for (x in items) {{ total = total + x; }} assert total == 12497500; return n; }} }}",
        body, list
    );
    assert_eq!(run(&source, "Main.main", None), Ok(Value::Integer(20000)));
}

#[test]
fn deep_expressions_are_compiled_and_run() {
    let mut text = String::new();
    for _ in 0..500 {
        text.push_str("1 + ");
    }
    text.push('1');
    let source = format!("class Main {{ function main() {{ return {}; }} }}", text);
    assert_eq!(run(&source, "Main.main", None), Ok(Value::Integer(501)));
}

#[test]
fn what_a_program_prints_is_handed_back() {
    let source = "class HelloWorld { function main() { print \"hello\"; } }";
    let (result, lines) = run_with_output(source, "HelloWorld.main", None);
    assert_eq!(result, Ok(Value::Null));
    assert_eq!(lines, vec!["hello".to_string()]);
    assert_eq!(write_lines(&lines), "hello\n");
    let source = "class Main { function main() { print 1; print \"two\"; assert false; print 3; } }";
    let (result, lines) = run_with_output(source, "Main.main", None);
    assert_eq!(result, Err("AssertionFailure in main at instruction 5".to_string()));
    assert_eq!(write_lines(&lines), "1\ntwo\n");
    let (result, lines) = run_with_output("class Main {", "Main.main", None);
    assert!(result.is_err());
    assert_eq!(write_lines(&lines), "");
    let (result, lines) = run_with_output("class Main { }", "Main.main", None);
    assert!(result.is_err());
    assert_eq!(lines, Vec::<String>::new());
}

#[test]
fn a_float_is_not_divided_by_zero() {
    let source = "class Main { function main() { var a = 1.5; print a / 0; } }";
    let (result, output) = run_with_host(source, "Main.main");
    assert_eq!(result, Err(Fault::DivisionByZero));
    assert_eq!(output, Vec::<String>::new());
    let source = "class Main { function main() { var a = 1; print a / 0.0; } }";
    let (result, _) = run_with_host(source, "Main.main");
    assert_eq!(result, Err(Fault::DivisionByZero));
}

#[test]
fn values_are_compared_as_deep_as_they_go() {
    let mut nest = String::from("1");
    for _ in 0..200 {
        nest = format!("[{}]", nest);
    }
    let source = format!(
        "class Main {{ function main() {{ var a = {}; var b = {}; assert a == b; var c = [a]; assert c != a; }} }}",
        nest, nest
    );
    assert_eq!(run(&source, "Main.main", None), Ok(Value::Null));
    // an array that holds itself is not compared
    let source = "class Main { function main() { var a = []; var b = a + [a]; assert a == a; } }";
    assert_eq!(
        run(source, "Main.main", None),
        Err("TypeError in main at instruction 10".to_string())
    );
}
