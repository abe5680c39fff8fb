use tinyscript::vm::frame::Frame;
use tinyscript::vm::value::Value;

fn float(x: f32) -> Value {
    Value::Float(x.to_bits())
}

#[test]
fn test_get_name() {
    let frame = Frame::new("test".to_string(), None, vec![]);
    assert_eq!(frame.get_name(), "test");
}

#[test]
fn test_get_return_position() {
    let frame = Frame::new("test".to_string(), Some(7), vec![]);
    assert_eq!(frame.get_return_position(), Some(7));
}

#[test]
fn test_push_value_to_stack() {
    let mut frame = Frame::new("test".to_string(), None, vec![]);
    frame.push_value_to_stack(float(1.0));
    assert_eq!(frame.stack().len(), 1);
    assert_eq!(frame.stack()[0], float(1.0));
}

#[test]
fn test_push_value_to_variable_slot() {
    let mut frame = Frame::new("test".to_string(), None, vec![]);
    frame.push_value_to_variable_slot(0, float(1.0));
    assert_eq!(frame.variables().len(), 1);
    assert_eq!(frame.variables()[0], float(1.0));
}

#[test]
fn test_move_from_stack_to_variable_slot() {
    let mut frame = Frame::new("test".to_string(), None, vec![]);
    frame.push_value_to_stack(float(1.0));
    frame.move_from_stack_to_variable_slot(0);
    assert_eq!(frame.variables().len(), 1);
    assert_eq!(frame.variables()[0], float(1.0));
}

#[test]
fn test_copy_from_variable_slot_to_stack() {
    let mut frame = Frame::new("test".to_string(), None, vec![]);
    frame.push_value_to_variable_slot(0, float(1.0));
    frame.copy_from_variable_slot_to_stack(0);
    assert_eq!(frame.stack().len(), 1);
    assert_eq!(frame.stack()[0], float(1.0));
}

#[test]
fn test_get_variable_or_panic() {
    let mut frame = Frame::new("test".to_string(), None, vec![]);
    frame.push_value_to_variable_slot(0, float(1.0));
    assert_eq!(frame.get_variable_or_panic(0), &float(1.0));
}

#[test]
fn test_pop_value_from_stack() {
    let mut frame = Frame::new("test".to_string(), None, vec![]);
    frame.push_value_to_stack(float(1.0));
    assert_eq!(frame.pop_value_from_stack(), float(1.0));
}

#[test]
fn test_get_2_values_from_stack() {
    let mut frame = Frame::new("test".to_string(), None, vec![]);
    frame.push_value_to_stack(float(1.0));
    frame.push_value_to_stack(float(2.0));
    let (lhs, rhs) = frame.pop_2_values_from_stack();
    assert_eq!(lhs, float(1.0));
    assert_eq!(rhs, float(2.0));
}

#[test]
fn slot_write_pads_with_null() {
    let mut frame = Frame::new("test".to_string(), None, vec![Value::Integer(1)]);
    frame.push_value_to_variable_slot(3, Value::Bool(true));
    assert_eq!(
        frame.variables(),
        &vec![Value::Integer(1), Value::Null, Value::Null, Value::Bool(true)]
    );
}

#[test]
fn pop_values_keeps_push_order() {
    let mut frame = Frame::new("test".to_string(), None, vec![]);
    frame.push_value_to_stack(Value::Integer(1));
    frame.push_value_to_stack(Value::Integer(2));
    frame.push_value_to_stack(Value::Integer(3));
    let values = frame.pop_values_from_stack(2);
    assert_eq!(values, vec![Value::Integer(2), Value::Integer(3)]);
    assert_eq!(frame.stack(), &vec![Value::Integer(1)]);
}

#[test]
fn copy_from_stack_leaves_stack() {
    let mut frame = Frame::new("test".to_string(), None, vec![]);
    frame.push_value_to_stack(Value::Integer(5));
    frame.copy_from_stack_to_variable_slot(1);
    assert_eq!(frame.stack_len(), 1);
    assert_eq!(frame.variables(), &vec![Value::Null, Value::Integer(5)]);
    assert_eq!(frame.to_string(), "Frame: test");
}
