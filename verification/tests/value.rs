use tinyscript::text::{chars_of, format_int, format_unsigned, string_of};
use tinyscript::vm::host::{Fault, Reply, Request, Signal};
use tinyscript::vm::instruction::{Instruction, Literal};
use tinyscript::vm::number::{
    decide, integer_operation, order_floats, order_integers, Comparison, Number, Operator, Order,
    Trouble,
};
use tinyscript::vm::operation::{Outcome, Standing};
use tinyscript::vm::program::Program;
use tinyscript::vm::store::Store;
use tinyscript::vm::value::Value;
use tinyscript::vm::VM;

fn number(n: Number) -> f32 {
    match n {
        Number::Integer(i) => i as f32,
        Number::Float(bits) => f32::from_bits(bits),
    }
}

fn answer(request: Request) -> Reply {
    match request {
        Request::Arithmetic(operator, a, b) => {
            let (x, y) = (number(a), number(b));
            let z = match operator {
                Operator::Add => x + y,
                Operator::Sub => x - y,
                Operator::Mul => x * y,
                Operator::Div => x / y,
                Operator::Pow => x.powf(y),
            };
            Reply::Bits(z.to_bits())
        }
        Request::Compare(a, b) => {
            let (x, y) = (number(a), number(b));
            Reply::Order(if x < y {
                Order::Less
            } else if x > y {
                Order::Greater
            } else if x == y {
                Order::Equal
            } else {
                Order::Unordered
            })
        }
        Request::Render(bits) => Reply::Text(format!("{}", f32::from_bits(bits))),
        Request::Read(text) => Reply::Bits(text.parse::<f32>().unwrap().to_bits()),
    }
}

fn evaluate(a: Literal, b: Literal, operator: Instruction) -> Result<Value, Fault> {
    let mut program = Program::new();
    program.instructions = vec![
        Instruction::StackPush(a),
        Instruction::StackPush(b),
        operator,
        Instruction::Return(true),
    ];
    program.insert_into_symbols("main".to_string(), 0);
    let mut vm = VM::new(program);
    vm.start("main", None).unwrap();
    loop {
        match vm.run(1000) {
            Signal::Continue => panic!("too many steps"),
            Signal::Finished(value) => return Ok(value),
            Signal::Failed(fault) => return Err(fault),
            Signal::Waiting(request) => assert!(vm.resume(answer(request))),
        }
    }
}

fn whole(i: i32) -> Literal {
    Literal::Integer(i)
}

fn float(text: &str) -> Literal {
    Literal::Float(text.to_string())
}

fn text(s: &str) -> Literal {
    Literal::String(s.to_string())
}

fn floating(x: f32) -> Value {
    Value::Float(x.to_bits())
}

#[test]
fn machine_add() {
    // integers
    assert_eq!(evaluate(whole(2), whole(3), Instruction::Add), Ok(Value::Integer(5)));
    assert_eq!(evaluate(whole(2), float("3.3"), Instruction::Add), Ok(floating(5.3)));

    // floats
    assert_eq!(evaluate(float("2.2"), float("3.3"), Instruction::Add), Ok(floating(5.5)));
    assert_eq!(evaluate(float("2.2"), whole(3), Instruction::Add), Ok(floating(5.2)));

    // strings
    assert_eq!(
        evaluate(text("x = "), whole(3), Instruction::Add),
        Ok(Value::String(String::from("x = 3")))
    );
    assert_eq!(
        evaluate(text("x = "), float("3.1"), Instruction::Add),
        Ok(Value::String(String::from("x = 3.1")))
    );
    assert_eq!(
        evaluate(text("x = "), Literal::Bool(true), Instruction::Add),
        Ok(Value::String(String::from("x = true")))
    );

    // true and false booleans should return false
    assert_eq!(
        evaluate(Literal::Bool(true), Literal::Bool(false), Instruction::Add),
        Ok(Value::Bool(false))
    );
    assert_eq!(
        evaluate(Literal::Bool(false), Literal::Bool(true), Instruction::Add),
        Ok(Value::Bool(false))
    );
    assert_eq!(
        evaluate(Literal::Bool(false), Literal::Bool(false), Instruction::Add),
        Ok(Value::Bool(false))
    );
    assert_eq!(
        evaluate(Literal::Bool(true), Literal::Bool(true), Instruction::Add),
        Ok(Value::Bool(true))
    );
}

#[test]
fn machine_sub() {
    assert_eq!(evaluate(whole(7), whole(3), Instruction::Sub), Ok(Value::Integer(4)));
    assert_eq!(evaluate(whole(5), float("3.3"), Instruction::Sub), Ok(floating(1.7)));
    assert_eq!(evaluate(float("2.4"), float("1.3"), Instruction::Sub), Ok(floating(1.1000001)));
    assert_eq!(evaluate(float("5.2"), whole(3), Instruction::Sub), Ok(floating(2.1999998)));
}

#[test]
fn machine_mul() {
    assert_eq!(evaluate(whole(7), whole(3), Instruction::Multiply), Ok(Value::Integer(21)));
    assert_eq!(evaluate(whole(5), float("1.1"), Instruction::Multiply), Ok(floating(5.5)));
    assert_eq!(
        evaluate(float("2.4"), float("1.3"), Instruction::Multiply),
        Ok(floating(3.1200001))
    );
    assert_eq!(evaluate(float("5.2"), whole(3), Instruction::Multiply), Ok(floating(15.599999)));
}

#[test]
fn machine_div() {
    assert_eq!(evaluate(whole(21), whole(3), Instruction::Divide), Ok(Value::Integer(7)));
    assert_eq!(evaluate(whole(22), float("1.1"), Instruction::Divide), Ok(floating(20.0)));
    assert_eq!(
        evaluate(float("2.4"), float("1.3"), Instruction::Divide),
        Ok(floating(1.84615396))
    );
    assert_eq!(evaluate(float("5.2"), whole(3), Instruction::Divide), Ok(floating(1.7333332)));
}

#[test]
fn machine_eq() {
    assert_eq!(evaluate(whole(3), whole(3), Instruction::Equal), Ok(Value::Bool(true)));
    assert_eq!(evaluate(whole(21), whole(3), Instruction::Equal), Ok(Value::Bool(false)));
    assert_eq!(evaluate(float("2.0"), whole(2), Instruction::Equal), Ok(Value::Bool(false)));
    assert_eq!(evaluate(float("2.0"), float("2.0"), Instruction::Equal), Ok(Value::Bool(true)));
    assert_eq!(
        evaluate(Literal::Bool(true), Literal::Bool(true), Instruction::Equal),
        Ok(Value::Bool(true))
    );
    assert_eq!(
        evaluate(Literal::Bool(false), Literal::Bool(true), Instruction::NotEqual),
        Ok(Value::Bool(true))
    );
    assert_eq!(
        evaluate(text("hello world"), text("hello world"), Instruction::Equal),
        Ok(Value::Bool(true))
    );
    assert_eq!(
        evaluate(text("hello world"), text("goodbye world"), Instruction::Equal),
        Ok(Value::Bool(false))
    );
}

#[test]
fn machine_cmp() {
    assert_eq!(evaluate(whole(6), whole(3), Instruction::GreaterThan), Ok(Value::Bool(true)));
    assert_eq!(evaluate(whole(6), whole(30), Instruction::LessThan), Ok(Value::Bool(true)));
    assert_eq!(
        evaluate(float("6.1"), float("3.5"), Instruction::GreaterThan),
        Ok(Value::Bool(true))
    );
}

#[test]
fn ordering_is_for_numbers_only() {
    assert_eq!(evaluate(text("a"), text("b"), Instruction::LessThan), Err(Fault::BadOperands));
    assert_eq!(evaluate(whole(1), text("b"), Instruction::GreaterThan), Err(Fault::BadOperands));
    assert_eq!(
        evaluate(Literal::Bool(true), Literal::Bool(false), Instruction::LessThanOrEqual),
        Err(Fault::BadOperands)
    );
    assert_eq!(evaluate(whole(1), float("1.5"), Instruction::LessThan), Ok(Value::Bool(true)));
    assert_eq!(
        evaluate(float("2.5"), whole(2), Instruction::LessThanOrEqual),
        Ok(Value::Bool(false))
    );
}

#[test]
fn arithmetic_is_for_numbers_only() {
    assert_eq!(evaluate(text("a"), whole(1), Instruction::Sub), Err(Fault::BadOperands));
    assert_eq!(evaluate(whole(1), Literal::Null, Instruction::Add), Err(Fault::BadOperands));
    assert_eq!(evaluate(Literal::Null, Literal::Null, Instruction::Multiply), Err(Fault::BadOperands));
    assert_eq!(evaluate(float("1.0"), text("a"), Instruction::Add), Err(Fault::BadOperands));
    assert_eq!(
        evaluate(Literal::Bool(true), Literal::Bool(true), Instruction::Divide),
        Err(Fault::BadOperands)
    );
}

#[test]
fn integer_arithmetic_is_checked() {
    assert_eq!(evaluate(whole(i32::MAX), whole(1), Instruction::Add), Err(Fault::Overflow));
    assert_eq!(evaluate(whole(i32::MIN), whole(1), Instruction::Sub), Err(Fault::Overflow));
    assert_eq!(evaluate(whole(65536), whole(65536), Instruction::Multiply), Err(Fault::Overflow));
    assert_eq!(evaluate(whole(i32::MIN), whole(-1), Instruction::Divide), Err(Fault::Overflow));
    assert_eq!(evaluate(whole(1), whole(0), Instruction::Divide), Err(Fault::DivisionByZero));
    assert_eq!(evaluate(whole(2), whole(-1), Instruction::Pow), Err(Fault::NegativeExponent));
    assert_eq!(evaluate(whole(2), whole(31), Instruction::Pow), Err(Fault::Overflow));
    assert_eq!(evaluate(whole(2), whole(30), Instruction::Pow), Ok(Value::Integer(1073741824)));
    assert_eq!(evaluate(whole(-2), whole(31), Instruction::Pow), Ok(Value::Integer(i32::MIN)));
    assert_eq!(evaluate(whole(7), whole(0), Instruction::Pow), Ok(Value::Integer(1)));
    assert_eq!(evaluate(whole(-7), whole(2), Instruction::Divide), Ok(Value::Integer(-3)));
    assert_eq!(evaluate(whole(7), whole(-2), Instruction::Divide), Ok(Value::Integer(-3)));
    assert_eq!(evaluate(whole(-7), whole(-2), Instruction::Divide), Ok(Value::Integer(3)));
    assert_eq!(evaluate(whole(i32::MAX), whole(i32::MAX), Instruction::Sub), Ok(Value::Integer(0)));
}

#[test]
fn integer_operations_directly() {
    assert_eq!(integer_operation(Operator::Add, 2, 3), Ok(5));
    assert_eq!(integer_operation(Operator::Sub, 2, 3), Ok(-1));
    assert_eq!(integer_operation(Operator::Mul, -4, 3), Ok(-12));
    assert_eq!(integer_operation(Operator::Div, 9, 2), Ok(4));
    assert_eq!(integer_operation(Operator::Pow, 3, 4), Ok(81));
    assert_eq!(integer_operation(Operator::Add, i32::MAX, 1), Err(Trouble::Overflow));
    assert_eq!(integer_operation(Operator::Div, 1, 0), Err(Trouble::DivisionByZero));
    assert_eq!(integer_operation(Operator::Pow, 1, -1), Err(Trouble::NegativeExponent));
    // commutative, and associative where nothing overflows
    assert_eq!(integer_operation(Operator::Add, 7, -9), integer_operation(Operator::Add, -9, 7));
    assert_eq!(integer_operation(Operator::Mul, 7, -9), integer_operation(Operator::Mul, -9, 7));
    assert_eq!(
        integer_operation(Operator::Add, integer_operation(Operator::Add, 1, 2).unwrap(), 3),
        integer_operation(Operator::Add, 1, integer_operation(Operator::Add, 2, 3).unwrap())
    );
    // grouping matters where a sum on the way overflows
    assert_eq!(integer_operation(Operator::Add, i32::MAX, 1), Err(Trouble::Overflow));
    assert_eq!(
        integer_operation(Operator::Add, i32::MAX, integer_operation(Operator::Add, 1, -1).unwrap()),
        Ok(i32::MAX)
    );
}

#[test]
fn floats_are_ordered_by_their_bits() {
    let order = |a: f32, b: f32| order_floats(a.to_bits(), b.to_bits());
    assert_eq!(order(1.0, 2.0), Order::Less);
    assert_eq!(order(2.0, 1.0), Order::Greater);
    assert_eq!(order(1.5, 1.5), Order::Equal);
    assert_eq!(order(-1.0, 1.0), Order::Less);
    assert_eq!(order(-1.0, -2.0), Order::Greater);
    assert_eq!(order(0.0, -0.0), Order::Equal);
    assert_eq!(order(f32::NAN, 1.0), Order::Unordered);
    assert_eq!(order(1.0, f32::NAN), Order::Unordered);
    assert_eq!(order(f32::NEG_INFINITY, f32::MIN), Order::Less);
    assert_eq!(order(f32::INFINITY, f32::MAX), Order::Greater);
    assert_eq!(order(f32::MIN_POSITIVE, 0.0), Order::Greater);
    for (a, b) in [(0.1f32, 0.2f32), (-3.5, 2.0), (1e30, 1e-30), (-1e-40, 1e-40), (7.0, 7.0)] {
        let expected = if a < b {
            Order::Less
        } else if a > b {
            Order::Greater
        } else {
            Order::Equal
        };
        assert_eq!(order(a, b), expected);
    }
    assert_eq!(order_integers(1, 2), Order::Less);
    assert_eq!(order_integers(2, 2), Order::Equal);
    assert_eq!(order_integers(3, 2), Order::Greater);
    assert!(decide(Comparison::LessThan, Order::Less));
    assert!(!decide(Comparison::LessThan, Order::Equal));
    assert!(decide(Comparison::LessThanOrEqual, Order::Equal));
    assert!(decide(Comparison::GreaterThan, Order::Greater));
    assert!(decide(Comparison::GreaterThanOrEqual, Order::Equal));
    assert!(!decide(Comparison::GreaterThanOrEqual, Order::Unordered));
    assert!(!decide(Comparison::LessThanOrEqual, Order::Unordered));
}

#[test]
fn nan_equals_nothing() {
    let mut program = Program::new();
    program.instructions = vec![
        Instruction::LoadLocalVariable(0),
        Instruction::LoadLocalVariable(0),
        Instruction::Equal,
        Instruction::Return(true),
    ];
    program.insert_into_symbols("main".to_string(), 0);
    let mut vm = VM::new(program);
    assert_eq!(vm.exec("main", Some(vec![floating(f32::NAN)])), Ok(Value::Bool(false)));
    assert_eq!(vm.exec("main", Some(vec![floating(1.5)])), Ok(Value::Bool(true)));
}

#[test]
fn values_have_text() {
    assert_eq!(Value::Null.text(), Ok("null".to_string()));
    assert_eq!(Value::Integer(-12).text(), Ok("-12".to_string()));
    assert_eq!(Value::Integer(i32::MIN).text(), Ok("-2147483648".to_string()));
    assert_eq!(Value::Bool(true).text(), Ok("true".to_string()));
    assert_eq!(Value::Bool(false).text(), Ok("false".to_string()));
    assert_eq!(Value::String("s".to_string()).text(), Ok("s".to_string()));
    assert_eq!(Value::Array(0).text(), Ok("Array".to_string()));
    assert_eq!(Value::Dictionary(0).text(), Ok("Dictionary".to_string()));
    assert_eq!(Value::Class(0).text(), Ok("Class".to_string()));
    assert_eq!(Value::Object(0).text(), Ok("Object".to_string()));
    assert_eq!(Value::FunctionRef("A.b".to_string()).text(), Ok("A.b".to_string()));
    assert_eq!(floating(1.0).text(), Err(1.0f32.to_bits()));
}

#[test]
fn values_are_parsed() {
    assert_eq!(Value::parse("12", None), Value::Integer(12));
    assert_eq!(Value::parse("-12", None), Value::Integer(-12));
    assert_eq!(Value::parse("+12", None), Value::Integer(12));
    assert_eq!(Value::parse("2147483647", None), Value::Integer(i32::MAX));
    assert_eq!(Value::parse("-2147483648", None), Value::Integer(i32::MIN));
    assert_eq!(Value::parse("12", Some(12.0f32.to_bits())), Value::Integer(12));
    assert_eq!(Value::parse("1.5", Some(1.5f32.to_bits())), floating(1.5));
    assert_eq!(
        Value::parse("2147483648", Some(2147483648.0f32.to_bits())),
        floating(2147483648.0)
    );
    assert_eq!(Value::parse("2147483648", None), Value::String("2147483648".to_string()));
    assert_eq!(Value::parse("true", None), Value::Bool(true));
    assert_eq!(Value::parse("false", None), Value::Bool(false));
    assert_eq!(Value::parse("True", None), Value::String("True".to_string()));
    assert_eq!(Value::parse("", None), Value::String("".to_string()));
    assert_eq!(Value::parse("-", None), Value::String("-".to_string()));
    assert_eq!(Value::parse("12a", None), Value::String("12a".to_string()));
    assert_eq!(Value::parse(" 12", None), Value::String(" 12".to_string()));
    assert_eq!(Value::parse("hello", None), Value::String("hello".to_string()));
}

#[test]
fn integers_are_written_in_decimal() {
    assert_eq!(format_int(0), "0");
    assert_eq!(format_int(7), "7");
    assert_eq!(format_int(-7), "-7");
    assert_eq!(format_int(1234567890), "1234567890");
    assert_eq!(format_int(i64::MIN), "-9223372036854775808");
    assert_eq!(format_int(i64::MAX), "9223372036854775807");
    assert_eq!(format_unsigned(0), "0");
    assert_eq!(format_unsigned(u64::MAX), "18446744073709551615");
    let chars = chars_of("héllo");
    assert_eq!(chars, vec!['h', 'é', 'l', 'l', 'o']);
    assert_eq!(string_of(&chars, 1, 4), "éll");
    assert_eq!(string_of(&chars, 2, 2), "");
}

/// The value of an outcome, with the host's part done.
fn settle(outcome: Outcome) -> Value {
    match outcome {
        Outcome::Value(value) => value,
        Outcome::Float(operator, a, b) => match answer(Request::Arithmetic(operator, a, b)) {
            Reply::Bits(bits) => Value::Float(bits),
            other => panic!("no float: {:?}", other),
        },
        Outcome::Joined(text, bits) => match answer(Request::Render(bits)) {
            Reply::Text(rest) => Value::String(text + &rest),
            other => panic!("no text: {:?}", other),
        },
        other => panic!("no value: {:?}", other),
    }
}

fn equal(a: Value, b: Value) -> bool {
    Store::new().equal(&a, &b, 0).unwrap()
}

#[test]
fn test_add() {
    // integers
    assert_eq!(settle(Value::Integer(2).add(&Value::Integer(3))), Value::Integer(5));
    assert_eq!(settle(Value::Integer(2).add(&floating(3.3))), floating(5.3));

    // floats
    assert_eq!(settle(floating(2.2).add(&floating(3.3))), floating(5.5));
    assert_eq!(settle(floating(2.2).add(&Value::Integer(3))), floating(5.2));

    // strings
    assert_eq!(
        settle(Value::String(String::from("x = ")).add(&Value::Integer(3))),
        Value::String(String::from("x = 3"))
    );
    assert_eq!(
        settle(Value::String(String::from("x = ")).add(&floating(3.1))),
        Value::String(String::from("x = 3.1"))
    );
    assert_eq!(
        settle(Value::String(String::from("x = ")).add(&Value::Bool(true))),
        Value::String(String::from("x = true"))
    );

    // true and false booleans should return false
    assert_eq!(settle(Value::Bool(true).add(&Value::Bool(false))), Value::Bool(false));
    assert_eq!(settle(Value::Bool(false).add(&Value::Bool(true))), Value::Bool(false));
    assert_eq!(settle(Value::Bool(false).add(&Value::Bool(false))), Value::Bool(false));
    assert_eq!(settle(Value::Bool(true).add(&Value::Bool(true))), Value::Bool(true));
}

#[test]
fn test_sub() {
    assert_eq!(settle(Value::Integer(7).sub(&Value::Integer(3))), Value::Integer(4));
    assert_eq!(settle(Value::Integer(5).sub(&floating(3.3))), floating(1.7));
    assert_eq!(settle(floating(2.4).sub(&floating(1.3))), floating(1.1000001));
    assert_eq!(settle(floating(5.2).sub(&Value::Integer(3))), floating(2.1999998));
}

#[test]
fn test_mul() {
    assert_eq!(settle(Value::Integer(7).mul(&Value::Integer(3))), Value::Integer(21));
    assert_eq!(settle(Value::Integer(5).mul(&floating(1.1))), floating(5.5));
    assert_eq!(settle(floating(2.4).mul(&floating(1.3))), floating(3.1200001));
    assert_eq!(settle(floating(5.2).mul(&Value::Integer(3))), floating(15.599999));
}

#[test]
fn test_div() {
    assert_eq!(settle(Value::Integer(21).div(&Value::Integer(3))), Value::Integer(7));
    assert_eq!(settle(Value::Integer(22).div(&floating(1.1))), floating(20.0));
    assert_eq!(settle(floating(2.4).div(&floating(1.3))), floating(1.84615396));
    assert_eq!(settle(floating(5.2).div(&Value::Integer(3))), floating(1.7333332));
}

#[test]
fn test_eq() {
    assert_eq!(equal(Value::Integer(3), Value::Integer(3)), true);
    assert_eq!(equal(Value::Integer(21), Value::Integer(3)), false);
    assert_eq!(equal(floating(2.0), Value::Integer(2)), false);
    assert_eq!(equal(floating(2.0), floating(2.0)), true);
    assert_eq!(equal(Value::Bool(true), Value::Bool(true)), true);
    assert_eq!(!equal(Value::Bool(false), Value::Bool(true)), true);
    assert_eq!(
        equal(
            Value::String("hello world".parse().unwrap()),
            Value::String("hello world".parse().unwrap())
        ),
        true
    );
    assert_eq!(
        equal(
            Value::String("hello world".parse().unwrap()),
            Value::String("goodbye world".parse().unwrap())
        ),
        false
    );
}

#[test]
fn test_cmp() {
    assert_eq!(
        Value::Integer(6).partial_cmp(&Value::Integer(3)),
        Standing::Known(Order::Greater)
    );
    assert_eq!(
        Value::Integer(6).partial_cmp(&Value::Integer(30)),
        Standing::Known(Order::Less)
    );
    assert_eq!(floating(6.1).partial_cmp(&floating(3.5)), Standing::Known(Order::Greater));
}

#[test]
fn values_are_operated_on() {
    assert_eq!(
        Value::Integer(1).add(&floating(2.0)),
        Outcome::Float(Operator::Add, Number::Integer(1), Number::Float(2.0f32.to_bits()))
    );
    assert_eq!(
        floating(2.0).operate(Operator::Pow, &Value::Integer(3)),
        Outcome::Float(Operator::Pow, Number::Float(2.0f32.to_bits()), Number::Integer(3))
    );
    assert_eq!(
        Value::String("a".to_string()).add(&floating(2.0)),
        Outcome::Joined("a".to_string(), 2.0f32.to_bits())
    );
    assert_eq!(
        Value::Integer(12).add(&Value::String("a".to_string())),
        Outcome::Value(Value::String("12a".to_string()))
    );
    assert_eq!(Value::Array(1).add(&Value::Array(2)), Outcome::Extended(1, 2));
    assert_eq!(Value::Array(1).add(&Value::Integer(2)), Outcome::Failed(Fault::BadOperands));
    assert_eq!(Value::Array(1).sub(&Value::Array(2)), Outcome::Failed(Fault::BadOperands));
    assert_eq!(
        Value::String("a".to_string()).mul(&Value::Integer(2)),
        Outcome::Failed(Fault::BadOperands)
    );
    assert_eq!(Value::Integer(1).div(&Value::Integer(0)), Outcome::Failed(Fault::DivisionByZero));
    assert_eq!(
        Value::Integer(i32::MAX).add(&Value::Integer(1)),
        Outcome::Failed(Fault::Overflow)
    );
    assert_eq!(
        Value::Integer(1).partial_cmp(&floating(1.5)),
        Standing::Asked(Number::Integer(1), Number::Float(1.5f32.to_bits()))
    );
    assert_eq!(
        Value::Null.partial_cmp(&Value::Null),
        Standing::Incomparable
    );
    assert_eq!(
        floating(f32::NAN).partial_cmp(&floating(1.0)),
        Standing::Known(Order::Unordered)
    );
    assert_eq!(Value::Bool(true).not(), Value::Bool(false));
    assert_eq!(Value::Bool(false).not(), Value::Bool(true));
    assert_eq!(Value::Integer(1).not(), Value::Bool(false));
    assert_eq!(Value::Null.not(), Value::Bool(false));
    assert_eq!(Value::Integer(3).number(), Some(Number::Integer(3)));
    assert_eq!(Value::Null.number(), None);
}

#[test]
fn a_division_by_zero_fails_for_every_number() {
    let zeros = [Value::Integer(0), floating(0.0), floating(-0.0)];
    let numbers = [Value::Integer(7), Value::Integer(0), floating(1.5), floating(0.0), floating(f32::NAN)];
    for zero in zeros.iter() {
        for number in numbers.iter() {
            assert_eq!(number.div(zero), Outcome::Failed(Fault::DivisionByZero));
            assert_eq!(
                number.operate(Operator::Div, zero),
                Outcome::Failed(Fault::DivisionByZero)
            );
        }
    }
    // a divisor that is no zero is asked of the host
    assert_eq!(
        floating(1.0).div(&floating(f32::MIN_POSITIVE)),
        Outcome::Float(
            Operator::Div,
            Number::Float(1.0f32.to_bits()),
            Number::Float(f32::MIN_POSITIVE.to_bits())
        )
    );
    // the other operators take a zero
    assert_eq!(
        floating(1.0).mul(&Value::Integer(0)),
        Outcome::Float(Operator::Mul, Number::Float(1.0f32.to_bits()), Number::Integer(0))
    );
    assert_eq!(evaluate(float("1.5"), whole(0), Instruction::Divide), Err(Fault::DivisionByZero));
    assert_eq!(evaluate(whole(1), float("0.0"), Instruction::Divide), Err(Fault::DivisionByZero));
    assert_eq!(
        evaluate(float("1.5"), float("-0.0"), Instruction::Divide),
        Err(Fault::DivisionByZero)
    );
    assert!(Number::Integer(0).is_zero());
    assert!(Number::Float(0x8000_0000).is_zero());
    assert!(!Number::Float(1).is_zero());
    assert!(!Number::Integer(-1).is_zero());
}
