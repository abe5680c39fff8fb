use tinyscript::table::Table;
use tinyscript::vm::host::{ErrorKind, Fault, Reply, Request, Signal};
use tinyscript::vm::instruction::{Instruction, Literal};
use tinyscript::vm::number::{Number, Operator, Order};
use tinyscript::vm::program::Program;
use tinyscript::vm::store::{Cell, Store};
use tinyscript::vm::value::Value;
use tinyscript::vm::VM;

fn machine(instructions: Vec<Instruction>) -> VM {
    let mut program = Program::new();
    program.instructions = instructions;
    program.insert_into_symbols("main".to_string(), 0);
    VM::new(program)
}

fn finish(instructions: Vec<Instruction>, arguments: Vec<Value>) -> Result<Value, Fault> {
    let mut vm = machine(instructions);
    vm.exec("main", Some(arguments)).map_err(|error| error.fault)
}

fn text(s: &str) -> Instruction {
    Instruction::StackPush(Literal::String(s.to_string()))
}

fn whole(i: i32) -> Instruction {
    Instruction::StackPush(Literal::Integer(i))
}

#[test]
fn stack_depth_changes_as_the_instruction_says() {
    let cases: Vec<(Instruction, usize, usize)> = vec![
        (whole(1), 0, 1),
        (Instruction::Pop(2), 2, 0),
        (Instruction::StoreLocalVariable(0), 1, 0),
        (Instruction::MoveToLocalVariable(3), 1, 0),
        (Instruction::CopyToLocalVariable(0), 1, 1),
        (Instruction::LoadLocalVariable(0), 0, 1),
        (Instruction::Add, 2, 1),
        (Instruction::Sub, 2, 1),
        (Instruction::Multiply, 2, 1),
        (Instruction::Divide, 2, 1),
        (Instruction::Pow, 2, 1),
        (Instruction::Equal, 2, 1),
        (Instruction::NotEqual, 2, 1),
        (Instruction::LessThan, 2, 1),
        (Instruction::LessThanOrEqual, 2, 1),
        (Instruction::GreaterThan, 2, 1),
        (Instruction::GreaterThanOrEqual, 2, 1),
        (Instruction::Print, 1, 0),
    ];
    for (instruction, takes, gives) in cases {
        let mut vm = machine(vec![whole(8), whole(2), whole(4), whole(2), instruction]);
        vm.start("main", Some(vec![Value::Integer(0)])).unwrap();
        for _ in 0..4 {
            assert_eq!(vm.step(), Signal::Continue);
        }
        assert_eq!(vm.current_frame().stack_len(), 4);
        assert_eq!(vm.step(), Signal::Continue);
        assert_eq!(vm.current_frame().stack_len(), 4 - takes + gives);
        assert_eq!(vm.position(), 5);
        assert_eq!(vm.step(), Signal::Finished(vm.current_frame().get_top_value_on_stack()));
    }
}

#[test]
fn moves_copies_and_loads() {
    let mut vm = machine(vec![
        whole(7),
        Instruction::CopyToLocalVariable(2),
        Instruction::MoveToLocalVariable(0),
        Instruction::LoadLocalVariable(2),
    ]);
    vm.start("main", None).unwrap();
    assert_eq!(vm.step(), Signal::Continue);
    assert_eq!(vm.current_frame().stack_len(), 1);
    assert_eq!(vm.step(), Signal::Continue);
    assert_eq!(vm.current_frame().stack_len(), 1);
    assert_eq!(
        vm.current_frame().variables(),
        &vec![Value::Null, Value::Null, Value::Integer(7)]
    );
    assert_eq!(vm.step(), Signal::Continue);
    assert_eq!(vm.current_frame().stack_len(), 0);
    assert_eq!(
        vm.current_frame().variables(),
        &vec![Value::Integer(7), Value::Null, Value::Integer(7)]
    );
    assert_eq!(vm.step(), Signal::Continue);
    assert_eq!(vm.current_frame().stack_len(), 1);
    assert_eq!(vm.step(), Signal::Finished(Value::Integer(7)));
}

#[test]
fn an_empty_program_ends_with_null() {
    let mut vm = machine(vec![]);
    assert_eq!(vm.exec("main", None), Ok(Value::Null));
    let mut vm = machine(vec![whole(1)]);
    assert_eq!(vm.exec("main", None), Ok(Value::Integer(1)));
}

#[test]
fn halt_gives_the_top_of_the_stack() {
    assert_eq!(
        finish(vec![whole(1), whole(2), Instruction::Halt("stop".to_string()), whole(3)], vec![]),
        Ok(Value::Integer(2))
    );
    assert_eq!(finish(vec![Instruction::Halt("stop".to_string())], vec![]), Ok(Value::Null));
}

#[test]
fn a_missing_entry_is_a_lookup_error() {
    let mut vm = machine(vec![whole(1)]);
    let error = vm.exec("other", None).unwrap_err();
    assert_eq!(error.fault, Fault::UnknownFunction);
    assert_eq!(error.kind(), ErrorKind::Lookup);
    assert_eq!(error.message(), "LookupError in main at instruction 0");
    assert_eq!(vm.start("other", None), Err(Fault::UnknownFunction));
}

#[test]
fn jumps() {
    // 0: push false; 1: jump-if-false +2; 2: push 1; 3: push 2
    assert_eq!(
        finish(
            vec![
                Instruction::StackPush(Literal::Bool(false)),
                Instruction::JumpIfFalse(2),
                whole(1),
                whole(2),
                Instruction::Return(true),
            ],
            vec![]
        ),
        Ok(Value::Integer(2))
    );
    // a true condition goes on with the next instruction
    assert_eq!(
        finish(
            vec![
                Instruction::StackPush(Literal::Bool(true)),
                Instruction::JumpIfFalse(2),
                whole(1),
                Instruction::Return(true),
            ],
            vec![]
        ),
        Ok(Value::Integer(1))
    );
    // anything but false goes on with the next instruction
    assert_eq!(
        finish(vec![whole(0), Instruction::JumpIfFalse(2), whole(1), Instruction::Return(true)], vec![]),
        Ok(Value::Integer(1))
    );
    // a jump forward, and a jump to the end of the program
    assert_eq!(
        finish(vec![whole(5), Instruction::Jump(2), whole(6), Instruction::Jump(1)], vec![]),
        Ok(Value::Integer(5))
    );
    // a jump back: counts slot 0 up to 3
    assert_eq!(
        finish(
            vec![
                Instruction::LoadLocalVariable(0),
                whole(1),
                Instruction::Add,
                Instruction::CopyToLocalVariable(0),
                whole(3),
                Instruction::LessThan,
                Instruction::JumpIfFalse(2),
                Instruction::Jump(-7),
                Instruction::LoadLocalVariable(0),
                Instruction::Return(true),
            ],
            vec![Value::Integer(0)]
        ),
        Ok(Value::Integer(3))
    );
    assert_eq!(finish(vec![Instruction::Jump(2)], vec![]), Err(Fault::BadJump));
    assert_eq!(finish(vec![Instruction::Jump(-1)], vec![]), Err(Fault::BadJump));
    assert_eq!(finish(vec![Instruction::Jump(i64::MAX)], vec![]), Err(Fault::BadJump));
    assert_eq!(finish(vec![Instruction::Jump(i64::MIN)], vec![]), Err(Fault::BadJump));
    assert_eq!(
        finish(
            vec![Instruction::StackPush(Literal::Bool(false)), Instruction::JumpIfFalse(5)],
            vec![]
        ),
        Err(Fault::BadJump)
    );
}

#[test]
fn calls_and_returns() {
    let mut program = Program::new();
    program.instructions = vec![
        // main
        Instruction::StackPush(Literal::FunctionRef("sub".to_string())),
        whole(10),
        whole(3),
        Instruction::Call(2),
        whole(1),
        Instruction::Add,
        Instruction::Return(true),
        // sub
        Instruction::LoadLocalVariable(0),
        Instruction::LoadLocalVariable(1),
        Instruction::Sub,
        Instruction::Return(true),
        // nothing
        Instruction::Return(false),
    ];
    program.insert_into_symbols("main".to_string(), 0);
    program.insert_into_symbols("sub".to_string(), 7);
    program.insert_into_symbols("nothing".to_string(), 11);
    let mut vm = VM::new(program);
    vm.start("main", None).unwrap();
    for _ in 0..3 {
        assert_eq!(vm.step(), Signal::Continue);
    }
    assert_eq!(vm.call_depth(), 0);
    assert_eq!(vm.step(), Signal::Continue);
    assert_eq!(vm.call_depth(), 1);
    assert_eq!(vm.position(), 7);
    assert_eq!(vm.current_frame().get_name(), "sub");
    assert_eq!(vm.current_frame().get_return_position(), Some(4));
    assert_eq!(
        vm.current_frame().variables(),
        &vec![Value::Integer(10), Value::Integer(3)]
    );
    assert_eq!(vm.current_frame().stack_len(), 0);
    for _ in 0..4 {
        assert_eq!(vm.step(), Signal::Continue);
    }
    assert_eq!(vm.call_depth(), 0);
    assert_eq!(vm.position(), 4);
    assert_eq!(vm.current_frame().stack(), &vec![Value::Integer(7)]);
    assert_eq!(vm.run(10), Signal::Finished(Value::Integer(8)));
    assert_eq!(vm.exec("sub", Some(vec![Value::Integer(5), Value::Integer(7)])), Ok(Value::Integer(-2)));
    assert_eq!(vm.exec("nothing", None), Ok(Value::Null));
}

#[test]
fn faults_of_calls() {
    assert_eq!(finish(vec![whole(1), Instruction::Call(0)], vec![]), Err(Fault::NotCallable));
    assert_eq!(
        finish(
            vec![Instruction::StackPush(Literal::FunctionRef("x".to_string())), Instruction::Call(0)],
            vec![]
        ),
        Err(Fault::UnknownFunction)
    );
    assert_eq!(finish(vec![Instruction::Call(0)], vec![]), Err(Fault::StackUnderflow));
    assert_eq!(finish(vec![whole(1), Instruction::Call(1)], vec![]), Err(Fault::StackUnderflow));
    assert_eq!(
        finish(vec![whole(1), Instruction::Call(usize::MAX)], vec![]),
        Err(Fault::StackUnderflow)
    );
    assert_eq!(finish(vec![Instruction::Return(true)], vec![]), Err(Fault::StackUnderflow));
}

#[test]
fn faults_of_the_stack_and_the_slots() {
    for instruction in [
        Instruction::Assert,
        Instruction::Print,
        Instruction::Pop(1),
        Instruction::StoreLocalVariable(0),
        Instruction::MoveToLocalVariable(0),
        Instruction::CopyToLocalVariable(0),
        Instruction::CreateObject,
        Instruction::ArrayLength,
        Instruction::ArrayAdd,
        Instruction::DictionaryAdd,
        Instruction::GetCollectionItemByKey,
        Instruction::SetCollectionItemByKey,
        Instruction::JumpIfFalse(1),
        Instruction::Add,
        Instruction::Equal,
        Instruction::LessThan,
    ] {
        assert_eq!(finish(vec![instruction], vec![]), Err(Fault::StackUnderflow));
    }
    assert_eq!(finish(vec![whole(1), Instruction::Pop(2)], vec![]), Err(Fault::StackUnderflow));
    assert_eq!(finish(vec![whole(1), Instruction::Add], vec![]), Err(Fault::StackUnderflow));
    assert_eq!(finish(vec![Instruction::LoadLocalVariable(0)], vec![]), Err(Fault::UnknownSlot));
    assert_eq!(finish(vec![Instruction::LoadGlobal(0)], vec![]), Err(Fault::UnknownGlobal));
    assert_eq!(Fault::StackUnderflow.kind(), ErrorKind::Bytecode);
    assert_eq!(Fault::BadJump.kind(), ErrorKind::Bytecode);
    assert_eq!(Fault::UnknownSlot.kind(), ErrorKind::Bytecode);
    assert_eq!(Fault::NotABoolean.kind(), ErrorKind::Type);
    assert_eq!(Fault::AssertionFailed.kind(), ErrorKind::AssertionFailure);
    assert_eq!(Fault::MissingKey.kind(), ErrorKind::Lookup);
}

#[test]
fn assertions() {
    assert_eq!(
        finish(vec![Instruction::StackPush(Literal::Bool(true)), Instruction::Assert], vec![]),
        Ok(Value::Null)
    );
    assert_eq!(
        finish(vec![Instruction::StackPush(Literal::Bool(false)), Instruction::Assert], vec![]),
        Err(Fault::AssertionFailed)
    );
    assert_eq!(finish(vec![whole(1), Instruction::Assert], vec![]), Err(Fault::NotABoolean));
    let mut vm = machine(vec![Instruction::StackPush(Literal::Bool(false)), Instruction::Assert]);
    assert_eq!(
        vm.exec("main", None).unwrap_err().message(),
        "AssertionFailure in main at instruction 1"
    );
}

#[test]
fn arrays_are_shared_and_literals_are_new() {
    let program = vec![
        Instruction::StackPush(Literal::Array),
        whole(1),
        Instruction::ArrayAdd,
        Instruction::CopyToLocalVariable(0),
        Instruction::StoreLocalVariable(1),
        // append through slot 1, read through slot 0
        Instruction::LoadLocalVariable(1),
        whole(2),
        Instruction::ArrayAdd,
        Instruction::Pop(1),
        Instruction::LoadLocalVariable(0),
        Instruction::ArrayLength,
        Instruction::Return(true),
    ];
    assert_eq!(finish(program, vec![]), Ok(Value::Integer(2)));
    let mut vm = machine(vec![
        Instruction::StackPush(Literal::Array),
        Instruction::StackPush(Literal::Array),
        Instruction::StackPush(Literal::Dictionary),
    ]);
    vm.start("main", None).unwrap();
    assert_eq!(vm.run(3), Signal::Continue);
    assert_eq!(
        vm.current_frame().stack(),
        &vec![Value::Array(0), Value::Array(1), Value::Dictionary(2)]
    );
    assert_eq!(vm.store().len(), 3);
}

#[test]
fn array_plus_array_extends_the_left_one() {
    let program = vec![
        Instruction::StackPush(Literal::Array),
        whole(1),
        Instruction::ArrayAdd,
        Instruction::CopyToLocalVariable(0),
        Instruction::StackPush(Literal::Array),
        whole(2),
        Instruction::ArrayAdd,
        whole(3),
        Instruction::ArrayAdd,
        Instruction::Add,
        Instruction::Pop(1),
        Instruction::LoadLocalVariable(0),
        whole(2),
        Instruction::GetCollectionItemByKey,
        Instruction::Return(true),
    ];
    assert_eq!(finish(program, vec![]), Ok(Value::Integer(3)));
}

#[test]
fn items_are_set_and_read() {
    // arrays by index
    let program = vec![
        Instruction::StackPush(Literal::Array),
        whole(1),
        Instruction::ArrayAdd,
        whole(2),
        Instruction::ArrayAdd,
        whole(9),
        whole(1),
        Instruction::SetCollectionItemByKey,
        whole(1),
        Instruction::GetCollectionItemByKey,
        Instruction::Return(true),
    ];
    assert_eq!(finish(program, vec![]), Ok(Value::Integer(9)));
    // dictionaries by text
    let program = vec![
        Instruction::StackPush(Literal::Dictionary),
        whole(9),
        text("k"),
        Instruction::SetCollectionItemByKey,
        text("k"),
        Instruction::GetCollectionItemByKey,
        Instruction::Return(true),
    ];
    assert_eq!(finish(program, vec![]), Ok(Value::Integer(9)));
    // a key is bound again in its place
    let program = vec![
        Instruction::StackPush(Literal::Dictionary),
        text("k"),
        whole(1),
        Instruction::DictionaryAdd,
        whole(1),
        whole(2),
        Instruction::DictionaryAdd,
        whole(9),
        text("k"),
        Instruction::SetCollectionItemByKey,
        text("1"),
        Instruction::GetCollectionItemByKey,
        Instruction::Return(true),
    ];
    assert_eq!(finish(program, vec![]), Ok(Value::Integer(2)));
}

#[test]
fn faults_of_collections() {
    let array = || vec![Instruction::StackPush(Literal::Array), whole(1), Instruction::ArrayAdd];
    let dictionary = || vec![Instruction::StackPush(Literal::Dictionary)];
    let with = |mut start: Vec<Instruction>, rest: Vec<Instruction>| {
        start.extend(rest);
        finish(start, vec![])
    };
    assert_eq!(
        with(array(), vec![whole(1), Instruction::GetCollectionItemByKey]),
        Err(Fault::IndexOutOfBounds)
    );
    assert_eq!(
        with(array(), vec![whole(-1), Instruction::GetCollectionItemByKey]),
        Err(Fault::IndexOutOfBounds)
    );
    assert_eq!(
        with(array(), vec![text("a"), Instruction::GetCollectionItemByKey]),
        Err(Fault::BadKey)
    );
    assert_eq!(
        with(array(), vec![whole(5), whole(1), Instruction::SetCollectionItemByKey]),
        Err(Fault::IndexOutOfBounds)
    );
    assert_eq!(
        with(array(), vec![whole(5), text("a"), Instruction::SetCollectionItemByKey]),
        Err(Fault::BadKey)
    );
    assert_eq!(
        with(dictionary(), vec![text("a"), Instruction::GetCollectionItemByKey]),
        Err(Fault::MissingKey)
    );
    assert_eq!(
        with(dictionary(), vec![whole(1), Instruction::GetCollectionItemByKey]),
        Err(Fault::BadKey)
    );
    assert_eq!(
        with(dictionary(), vec![whole(1), whole(1), Instruction::SetCollectionItemByKey]),
        Err(Fault::BadKey)
    );
    assert_eq!(
        finish(vec![whole(1), whole(1), Instruction::GetCollectionItemByKey], vec![]),
        Err(Fault::NotACollection)
    );
    assert_eq!(
        finish(vec![whole(1), whole(1), whole(1), Instruction::SetCollectionItemByKey], vec![]),
        Err(Fault::NotACollection)
    );
    assert_eq!(finish(vec![whole(1), Instruction::ArrayLength], vec![]), Err(Fault::NotAnArray));
    assert_eq!(finish(vec![whole(1), whole(1), Instruction::ArrayAdd], vec![]), Err(Fault::NotAnArray));
    assert_eq!(
        finish(vec![whole(1), whole(1), whole(1), Instruction::DictionaryAdd], vec![]),
        Err(Fault::NotADictionary)
    );
    assert_eq!(finish(vec![whole(1), Instruction::CreateObject], vec![]), Err(Fault::NotAClass));
    assert_eq!(
        finish(vec![Instruction::LoadLocalVariable(0), Instruction::ArrayLength], vec![Value::Array(7)]),
        Err(Fault::NotAnArray)
    );
    assert_eq!(
        finish(
            vec![Instruction::LoadLocalVariable(0), Instruction::CreateObject],
            vec![Value::Class(7)]
        ),
        Err(Fault::NotAClass)
    );
}

fn class_program() -> Program {
    let mut program = Program::new();
    let mut template: Table<Value> = Table::new();
    template.insert("x".to_string(), Value::Integer(1));
    template.insert("get".to_string(), Value::FunctionRef("C.get".to_string()));
    let address = program.store.allocate(Cell::Class(template));
    program.insert_global(Value::Class(address));
    program
}

#[test]
fn objects_do_not_share_their_fields() {
    let mut program = class_program();
    program.instructions = vec![
        Instruction::LoadGlobal(0),
        Instruction::CreateObject,
        Instruction::StoreLocalVariable(0),
        Instruction::LoadGlobal(0),
        Instruction::CreateObject,
        Instruction::StoreLocalVariable(1),
        // first.x = 5
        Instruction::LoadLocalVariable(0),
        whole(5),
        text("x"),
        Instruction::SetCollectionItemByKey,
        Instruction::Pop(1),
        // first.x + second.x * 10
        Instruction::LoadLocalVariable(0),
        text("x"),
        Instruction::GetCollectionItemByKey,
        Instruction::LoadLocalVariable(1),
        text("x"),
        Instruction::GetCollectionItemByKey,
        whole(10),
        Instruction::Multiply,
        Instruction::Add,
        Instruction::Return(true),
    ];
    program.insert_into_symbols("main".to_string(), 0);
    let mut vm = VM::new(program);
    assert_eq!(vm.exec("main", None), Ok(Value::Integer(15)));
    assert_eq!(
        vm.current_frame().variables(),
        &vec![Value::Object(1), Value::Object(2)]
    );
    // the class keeps its template
    match vm.store().get(0) {
        Some(Cell::Class(template)) => {
            assert_eq!(template.get(&"x".to_string()), Some(&Value::Integer(1)));
        }
        _ => panic!("the class is gone"),
    }
    match vm.store().get(1) {
        Some(Cell::Object(fields)) => {
            assert_eq!(fields.get(&"x".to_string()), Some(&Value::Integer(5)));
            assert_eq!(
                fields.get(&"get".to_string()),
                Some(&Value::FunctionRef("C.get".to_string()))
            );
        }
        _ => panic!("the object is gone"),
    }
}

#[test]
fn faults_of_objects() {
    let mut program = class_program();
    program.instructions = vec![
        Instruction::LoadGlobal(0),
        Instruction::CreateObject,
        text("y"),
        Instruction::GetCollectionItemByKey,
    ];
    program.insert_into_symbols("main".to_string(), 0);
    let mut vm = VM::new(program);
    assert_eq!(vm.exec("main", None).unwrap_err().fault, Fault::MissingMember);
    let mut program = class_program();
    program.instructions = vec![
        Instruction::LoadGlobal(0),
        whole(1),
        text("x"),
        Instruction::SetCollectionItemByKey,
    ];
    program.insert_into_symbols("main".to_string(), 0);
    let mut vm = VM::new(program);
    assert_eq!(vm.exec("main", None).unwrap_err().fault, Fault::NotACollection);
}

#[test]
fn a_receiver_is_made_for_a_method_of_a_class() {
    let mut program = class_program();
    program.instructions = vec![
        Instruction::LoadLocalVariable(0),
        text("x"),
        Instruction::GetCollectionItemByKey,
        Instruction::Return(true),
    ];
    program.insert_into_symbols("C.get".to_string(), 0);
    let mut vm = VM::new(program);
    assert_eq!(vm.make_receiver("C.other"), None);
    assert_eq!(vm.store().len(), 1);
    let receiver = vm.make_receiver("C.get");
    assert_eq!(receiver, Some(Value::Object(1)));
    assert_eq!(vm.store().len(), 2);
    let arguments = VM::arguments(receiver, Some(vec![Value::Integer(4)]));
    assert_eq!(arguments, vec![Value::Object(1), Value::Integer(4)]);
    assert_eq!(vm.exec("C.get", Some(arguments)), Ok(Value::Integer(1)));
    assert_eq!(VM::arguments(None, None), vec![]);
    assert_eq!(VM::arguments(None, Some(vec![Value::Null])), vec![Value::Null]);
}

#[test]
fn the_host_is_asked_for_floats() {
    let mut vm = machine(vec![
        Instruction::StackPush(Literal::Float("1.5".to_string())),
        whole(2),
        Instruction::Add,
        Instruction::CopyToLocalVariable(0),
        whole(2),
        Instruction::LessThan,
        Instruction::Pop(1),
        Instruction::LoadLocalVariable(0),
        Instruction::Print,
        text("x"),
        Instruction::LoadLocalVariable(0),
        Instruction::Add,
        Instruction::StackPush(Literal::Dictionary),
        Instruction::LoadLocalVariable(0),
        whole(1),
        Instruction::DictionaryAdd,
        text("3.5"),
        Instruction::GetCollectionItemByKey,
        Instruction::Return(true),
    ]);
    vm.start("main", None).unwrap();
    assert_eq!(vm.resume(Reply::Bits(0)), false);
    assert_eq!(vm.run(100), Signal::Waiting(Request::Read("1.5".to_string())));
    // the machine waits until it is answered
    assert_eq!(vm.step(), Signal::Waiting(Request::Read("1.5".to_string())));
    assert_eq!(vm.position(), 0);
    // an answer of another kind is refused
    assert_eq!(vm.resume(Reply::Text("1.5".to_string())), false);
    assert_eq!(vm.resume(Reply::Order(Order::Less)), false);
    assert_eq!(vm.resume(Reply::Bits(1.5f32.to_bits())), true);
    assert_eq!(vm.position(), 1);
    assert_eq!(
        vm.run(100),
        Signal::Waiting(Request::Arithmetic(
            Operator::Add,
            Number::Float(1.5f32.to_bits()),
            Number::Integer(2)
        ))
    );
    assert_eq!(vm.current_frame().stack_len(), 0);
    assert!(vm.resume(Reply::Bits(3.5f32.to_bits())));
    assert_eq!(vm.current_frame().stack(), &vec![Value::Float(3.5f32.to_bits())]);
    assert_eq!(
        vm.run(100),
        Signal::Waiting(Request::Compare(Number::Float(3.5f32.to_bits()), Number::Integer(2)))
    );
    assert_eq!(vm.resume(Reply::Bits(0)), false);
    assert!(vm.resume(Reply::Order(Order::Greater)));
    assert_eq!(vm.current_frame().stack(), &vec![Value::Bool(false)]);
    assert_eq!(vm.run(100), Signal::Waiting(Request::Render(3.5f32.to_bits())));
    assert!(vm.resume(Reply::Text("3.5".to_string())));
    assert_eq!(vm.take_output(), vec!["3.5".to_string()]);
    assert_eq!(vm.take_output(), Vec::<String>::new());
    assert_eq!(vm.run(100), Signal::Waiting(Request::Render(3.5f32.to_bits())));
    assert!(vm.resume(Reply::Text("3.5".to_string())));
    assert_eq!(vm.current_frame().stack(), &vec![Value::String("x3.5".to_string())]);
    assert_eq!(vm.run(100), Signal::Waiting(Request::Render(3.5f32.to_bits())));
    assert!(vm.resume(Reply::Text("3.5".to_string())));
    assert_eq!(vm.run(100), Signal::Finished(Value::Integer(1)));
}

#[test]
fn a_run_without_a_host_stops_at_floats() {
    let mut vm = machine(vec![Instruction::StackPush(Literal::Float("1.5".to_string()))]);
    let error = vm.exec("main", None).unwrap_err();
    assert_eq!(error.fault, Fault::HostNeeded);
    assert_eq!(error.position, 0);
    assert_eq!(error.function, "main");
}

#[test]
fn a_run_stops_when_its_fuel_is_spent() {
    let mut vm = machine(vec![Instruction::Jump(0)]);
    vm.start("main", None).unwrap();
    assert_eq!(vm.run(1000), Signal::Continue);
    assert_eq!(vm.run(0), Signal::Continue);
    assert_eq!(vm.position(), 0);
}

#[test]
fn equality_goes_into_shared_values() {
    let mut store = Store::new();
    let a = store.allocate(Cell::Array(vec![Value::Integer(1), Value::String("x".to_string())]));
    let b = store.allocate(Cell::Array(vec![Value::Integer(1), Value::String("x".to_string())]));
    let c = store.allocate(Cell::Array(vec![Value::Integer(1)]));
    let outer_a = store.allocate(Cell::Array(vec![Value::Array(a)]));
    let outer_b = store.allocate(Cell::Array(vec![Value::Array(b)]));
    assert_eq!(store.equal(&Value::Array(a), &Value::Array(b), 4), Some(true));
    assert_eq!(store.equal(&Value::Array(a), &Value::Array(c), 4), Some(false));
    assert_eq!(store.equal(&Value::Array(outer_a), &Value::Array(outer_b), 4), Some(true));
    assert_eq!(store.equal(&Value::Array(outer_a), &Value::Array(outer_b), 1), None);
    assert_eq!(store.equal(&Value::Array(a), &Value::Array(b), 0), None);
    assert_eq!(store.equal(&Value::Array(a), &Value::Dictionary(a), 4), Some(false));
    assert_eq!(store.equal(&Value::Array(a), &Value::Array(99), 4), Some(false));
    assert_eq!(store.equal(&Value::Integer(1), &Value::Integer(1), 0), Some(true));
    assert_eq!(
        store.equal(&Value::Integer(1), &Value::Float(1.0f32.to_bits()), 0),
        Some(false)
    );
    assert_eq!(
        store.equal(&Value::Float(0.0f32.to_bits()), &Value::Float((-0.0f32).to_bits()), 0),
        Some(true)
    );
    assert_eq!(
        store.equal(
            &Value::FunctionRef("a".to_string()),
            &Value::FunctionRef("a".to_string()),
            0
        ),
        Some(true)
    );
    assert_eq!(store.equal(&Value::Null, &Value::Bool(false), 0), Some(false));
    // a cell that holds itself cannot be compared to the end
    let mut looped = Store::new();
    let l = looped.allocate(Cell::Array(vec![]));
    looped.array_push(l, Value::Array(l));
    assert_eq!(looped.equal(&Value::Array(l), &Value::Array(l), 64), None);
    let mut vm = machine(vec![
        Instruction::StackPush(Literal::Array),
        Instruction::CopyToLocalVariable(0),
        Instruction::LoadLocalVariable(0),
        Instruction::ArrayAdd,
        Instruction::LoadLocalVariable(0),
        Instruction::Equal,
    ]);
    assert_eq!(vm.exec("main", None).unwrap_err().fault, Fault::TooDeep);
}

#[test]
fn tables_keep_the_place_of_a_key() {
    let mut table: Table<usize> = Table::new();
    assert_eq!(table.len(), 0);
    assert_eq!(table.get(&"a".to_string()), None);
    table.insert("a".to_string(), 1);
    table.insert("b".to_string(), 2);
    table.insert("a".to_string(), 3);
    assert_eq!(table.len(), 2);
    assert_eq!(table.get(&"a".to_string()), Some(&3));
    assert_eq!(table.get(&"b".to_string()), Some(&2));
    assert_eq!(table.position(&"a".to_string()), Some(0));
    assert_eq!(table.position(&"b".to_string()), Some(1));
    assert_eq!(table.position(&"c".to_string()), None);
    assert!(table.contains_key(&"b".to_string()));
    assert!(!table.contains_key(&"c".to_string()));
    assert_eq!(table.key_at(1), "b");
    assert_eq!(table.value_at(0), &3);
}

#[test]
fn programs_are_built() {
    let mut program = Program::new();
    assert_eq!(program.insert_global(Value::Integer(1)), 0);
    assert_eq!(program.insert_global(Value::Integer(2)), 1);
    program.insert_into_symbols("f".to_string(), 3);
    program.insert_into_symbols("f".to_string(), 4);
    assert_eq!(program.symbols.get(&"f".to_string()), Some(&4));
    assert_eq!(program.globals, vec![Value::Integer(1), Value::Integer(2)]);
    program.instructions = vec![Instruction::LoadGlobal(1), Instruction::Return(true)];
    program.insert_into_symbols("main".to_string(), 0);
    let mut vm = VM::new(program);
    assert_eq!(vm.exec("main", None), Ok(Value::Integer(2)));
}
