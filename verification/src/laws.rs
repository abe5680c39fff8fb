//! Laws of the machine and of the compiler.

use vstd::prelude::*;
use crate::compiler::lowering::{conditional, iteration, jumpable, repetition};
use crate::table::{bind, distinct_keys, law_bind_distinct, law_bind_same, lemma_find_from, lookup};
use crate::vm::host::{Fault, ReplyView, SignalView};
use crate::vm::instruction::{InstructionView, stack_effect};
use crate::vm::number::{Operator, Trouble, integer_result, is_zero};
use crate::vm::operation::{OutcomeView, number_of, operated};
use crate::vm::semantics::{
    MachineView,
    execute,
    item_of,
    next_position,
    resume,
    step,
    step_arithmetic,
    step_call,
    step_copy_to_local,
    step_create_object,
    step_load_local,
    step_move_to_local,
    step_return,
    store_with_item,
};
use crate::vm::store::{CellView, equal_fields, equal_items, equal_values, fields_at, is_object};
use crate::vm::value::ValueView;

verus! {

/// What an instruction that is no jump, call, return or halt takes from the
/// stack and gives to it depends on the instruction alone: where it goes on
/// at once, the stack of the running frame has changed by that, and no
/// frame was made or left. Where it waits for the host, it has taken what
/// it takes, and it gives what it gives when the answer comes.
pub proof fn law_stack_effect(m: MachineView, instruction: InstructionView, reply: ReplyView)
    requires
        stack_effect(instruction) is Some,
    ensures
        ({
            let (takes, gives) = stack_effect(instruction)->0;
            let (next, signal) = execute(m, instruction);
            &&& signal is Continue ==> next.callers == m.callers && takes <= m.depth()
                && next.depth() == m.depth() - takes + gives
            &&& signal is Waiting ==> next.callers == m.callers && takes <= m.depth()
                && next.depth() == m.depth() - takes && (resume(next, reply) matches Some(after)
                ==> after.callers == m.callers && after.depth() == m.depth() - takes + gives)
        }),
{
}

/// A call and the return from it change the stack of the caller by what the
/// two instructions say: the arguments and the reference to the function
/// are taken, and the value is given where the return has one. What the
/// callee left on its own stack is gone with its frame, and the caller goes
/// on behind the call.
pub proof fn law_call_then_return(
    m: MachineView,
    count: usize,
    inside: MachineView,
    has_value: bool,
)
    requires
        step_call(m, count).1 is Continue,
        inside.callers == step_call(m, count).0.callers,
        inside.frame.return_position == step_call(m, count).0.frame.return_position,
        has_value ==> inside.depth() >= 1,
    ensures
        ({
            let called = step_call(m, count).0;
            let (back, signal) = step_return(inside, has_value);
            &&& called.depth() == 0
            &&& called.callers.len() == m.callers.len() + 1
            &&& signal is Continue
            &&& back.callers == m.callers
            &&& back.ip == next_position(m.ip)
            &&& back.frame.variables == m.frame.variables
            &&& back.depth() == m.depth() - (count + 1) + if has_value {
                1int
            } else {
                0int
            }
            &&& has_value ==> back.peek(0) == inside.peek(0)
        }),
{
    let called = step_call(m, count).0;
    assert(called.callers.drop_last() =~= m.callers);
}

/// After a move to a local variable the stack is one shorter; after a copy
/// to a local variable it is as it was; after a load of a local variable it
/// is one longer.
pub proof fn law_local_variable_depth(m: MachineView, slot: usize)
    ensures
        step_move_to_local(m, slot).1 is Continue ==> step_move_to_local(m, slot).0.depth()
            == m.depth() - 1,
        step_copy_to_local(m, slot).1 is Continue ==> step_copy_to_local(m, slot).0.depth()
            == m.depth(),
        step_load_local(m, slot).1 is Continue ==> step_load_local(m, slot).0.depth() == m.depth()
            + 1,
{
}

/// What was set under a key is what is read under it: in an array under an
/// index, in a dictionary under a text, in an object under a member.
pub proof fn law_set_then_get(
    store: Seq<CellView>,
    collection: ValueView,
    key: ValueView,
    value: ValueView,
)
    requires
        store_with_item(store, collection, key, value) is Ok,
    ensures
        item_of(store_with_item(store, collection, key, value)->Ok_0, collection, key) == Ok::<
            ValueView,
            Fault,
        >(value),
{
    match (collection, key) {
        (ValueView::Dictionary(address), ValueView::String(k)) => {
            law_bind_same(fields_at(store, address), k, value);
        },
        (ValueView::Object(address), ValueView::String(k)) => {
            law_bind_same(fields_at(store, address), k, value);
        },
        _ => {},
    }
}

/// Setting an item changes the cell of its collection and no other: what is
/// read from any other cell is what was read before.
pub proof fn law_set_touches_one_cell(
    store: Seq<CellView>,
    collection: ValueView,
    key: ValueView,
    value: ValueView,
    other: usize,
)
    requires
        store_with_item(store, collection, key, value) is Ok,
        other < store.len(),
        collection != ValueView::Array(other),
        collection != ValueView::Dictionary(other),
        collection != ValueView::Object(other),
    ensures
        store_with_item(store, collection, key, value)->Ok_0.len() == store.len(),
        store_with_item(store, collection, key, value)->Ok_0[other as int] == store[other as int],
{
}

/// A new object stands in a cell of its own: the cells that were there stay
/// as they were, and the object holds a copy of the members of its class.
pub proof fn law_new_object_is_apart(m: MachineView)
    requires
        step_create_object(m).1 is Continue,
        m.store.len() < usize::MAX,
    ensures
        ({
            let next = step_create_object(m).0;
            &&& next.store.len() == m.store.len() + 1
            &&& next.peek(0) == ValueView::Object(m.store.len() as usize)
            &&& forall|address: int|
                0 <= address < m.store.len() ==> next.store[address] == m.store[address]
            &&& m.peek(0) matches ValueView::Class(class) && next.store[m.store.len() as int]
                == CellView::Object(fields_at(m.store, class))
        }),
{
}

/// Two objects of one class do not share their fields: after a field of the
/// one is set, the other reads what it read before.
pub proof fn law_instances_do_not_alias(
    store: Seq<CellView>,
    first: usize,
    second: usize,
    member: Seq<char>,
    value: ValueView,
    any: Seq<char>,
)
    requires
        first != second,
        is_object(store, first),
        is_object(store, second),
    ensures
        store_with_item(
            store,
            ValueView::Object(first),
            ValueView::String(member),
            value,
        ) matches Ok(after) && item_of(
            after,
            ValueView::Object(second),
            ValueView::String(any),
        ) == item_of(store, ValueView::Object(second), ValueView::String(any)),
{
}

/// Whether no dictionary, class or object of a store holds a key twice.
pub open spec fn keys_are_distinct(store: Seq<CellView>) -> bool {
    forall|address: usize|
        address < store.len() ==> distinct_keys(#[trigger] fields_at(store, address))
}

/// Every step of the machine, and every answer of the host, keeps the keys
/// of each dictionary, class and object distinct.
pub proof fn law_keys_stay_distinct(m: MachineView, reply: ReplyView)
    requires
        keys_are_distinct(m.store),
        m.store.len() < usize::MAX,
    ensures
        keys_are_distinct(step(m).0.store),
        resume(m, reply) matches Some(next) ==> keys_are_distinct(next.store),
{
    assert forall|address: usize, key: Seq<char>, value: ValueView|
        address < m.store.len() implies distinct_keys(
        #[trigger] bind(fields_at(m.store, address), key, value),
    ) by {
        law_bind_distinct(fields_at(m.store, address), key, value);
    }
    let after = step(m).0.store;
    assert forall|address: usize| address < after.len() implies distinct_keys(
        #[trigger] fields_at(after, address),
    ) by {
        if address < m.store.len() {
            assert(distinct_keys(fields_at(m.store, address)));
        }
    }
    match resume(m, reply) {
        Some(next) => {
            assert forall|address: usize| address < next.store.len() implies distinct_keys(
                #[trigger] fields_at(next.store, address),
            ) by {
                assert(distinct_keys(fields_at(m.store, address)));
            }
        },
        None => {},
    }
}

/// The address that a shared value holds.
pub open spec fn address_of(value: ValueView) -> Option<usize> {
    match value {
        ValueView::Array(address) => Some(address),
        ValueView::Dictionary(address) => Some(address),
        ValueView::Class(address) => Some(address),
        ValueView::Object(address) => Some(address),
        _ => None,
    }
}

/// The values that a cell holds.
pub open spec fn contents(cell: CellView) -> Seq<ValueView> {
    match cell {
        CellView::Array(items) => items,
        CellView::Dictionary(fields) => Seq::new(fields.len(), |i: int| fields[i].1),
        CellView::Class(fields) => Seq::new(fields.len(), |i: int| fields[i].1),
        CellView::Object(fields) => Seq::new(fields.len(), |i: int| fields[i].1),
    }
}

/// Whether a shared value stands lower than `bound` in a ranking of the
/// cells. A value that is not shared stands lower than everything.
pub open spec fn below(store: Seq<CellView>, rank: spec_fn(usize) -> nat, value: ValueView, bound: nat) -> bool {
    match address_of(value) {
        Some(address) => address < store.len() ==> rank(address) < bound,
        None => true,
    }
}

/// Whether no value of a store is nested in itself: the cells can be ranked
/// so that every cell stands higher than each value that it holds.
pub open spec fn unnested(store: Seq<CellView>, rank: spec_fn(usize) -> nat) -> bool {
    forall|address: usize, i: int|
        address < store.len() && 0 <= i < contents(store[address as int]).len() ==> below(
            store,
            rank,
            #[trigger] contents(store[address as int])[i],
            rank(address),
        )
}

proof fn lemma_compared(
    store: Seq<CellView>,
    rank: spec_fn(usize) -> nat,
    a: ValueView,
    b: ValueView,
    depth: nat,
)
    requires
        unnested(store, rank),
        below(store, rank, a, depth),
        below(store, rank, b, depth),
    ensures
        equal_values(store, a, b, depth) is Some,
    decreases depth, 0nat, 0nat,
{
    match (address_of(a), address_of(b)) {
        (Some(x), Some(y)) => {
            if x < store.len() && y < store.len() && depth > 0 {
                let inner = (depth - 1) as nat;
                assert forall|i: int| 0 <= i < contents(store[x as int]).len() implies below(
                    store,
                    rank,
                    #[trigger] contents(store[x as int])[i],
                    inner,
                ) by {
                    assert(below(store, rank, contents(store[x as int])[i], rank(x)));
                }
                assert forall|i: int| 0 <= i < contents(store[y as int]).len() implies below(
                    store,
                    rank,
                    #[trigger] contents(store[y as int])[i],
                    inner,
                ) by {
                    assert(below(store, rank, contents(store[y as int])[i], rank(y)));
                }
                match (store[x as int], store[y as int]) {
                    (CellView::Array(xs), CellView::Array(ys)) => {
                        lemma_items_compared(store, rank, xs, ys, 0, inner);
                    },
                    (CellView::Array(_), _) => {},
                    (_, CellView::Array(_)) => {},
                    _ => {
                        let fx = fields_at(store, x);
                        let fy = fields_at(store, y);
                        assert forall|i: int| 0 <= i < fx.len() implies below(
                            store,
                            rank,
                            (#[trigger] fx[i]).1,
                            inner,
                        ) by {
                            assert(contents(store[x as int])[i] == fx[i].1);
                        }
                        assert forall|i: int| 0 <= i < fy.len() implies below(
                            store,
                            rank,
                            (#[trigger] fy[i]).1,
                            inner,
                        ) by {
                            assert(contents(store[y as int])[i] == fy[i].1);
                        }
                        lemma_fields_compared(store, rank, fx, fy, 0, inner);
                    },
                }
            }
        },
        _ => {},
    }
}

proof fn lemma_items_compared(
    store: Seq<CellView>,
    rank: spec_fn(usize) -> nat,
    xs: Seq<ValueView>,
    ys: Seq<ValueView>,
    from: nat,
    depth: nat,
)
    requires
        unnested(store, rank),
        forall|i: int| 0 <= i < xs.len() ==> below(store, rank, #[trigger] xs[i], depth),
        forall|i: int| 0 <= i < ys.len() ==> below(store, rank, #[trigger] ys[i], depth),
    ensures
        equal_items(store, xs, ys, from, depth) is Some,
    decreases depth, 1nat, xs.len() - from,
{
    if xs.len() == ys.len() && from < xs.len() {
        lemma_compared(store, rank, xs[from as int], ys[from as int], depth);
        lemma_items_compared(store, rank, xs, ys, from + 1, depth);
    }
}

proof fn lemma_fields_compared(
    store: Seq<CellView>,
    rank: spec_fn(usize) -> nat,
    xs: Seq<(Seq<char>, ValueView)>,
    ys: Seq<(Seq<char>, ValueView)>,
    from: nat,
    depth: nat,
)
    requires
        unnested(store, rank),
        forall|i: int| 0 <= i < xs.len() ==> below(store, rank, (#[trigger] xs[i]).1, depth),
        forall|i: int| 0 <= i < ys.len() ==> below(store, rank, (#[trigger] ys[i]).1, depth),
    ensures
        equal_fields(store, xs, ys, from, depth) is Some,
    decreases depth, 1nat, xs.len() - from,
{
    if xs.len() == ys.len() && from < xs.len() {
        lemma_find_from(ys, xs[from as int].0, 0);
        match lookup(ys, xs[from as int].0) {
            Some(y) => {
                lemma_compared(store, rank, xs[from as int].1, y, depth);
            },
            None => {},
        }
        lemma_fields_compared(store, rank, xs, ys, from + 1, depth);
    }
}

/// Values that are not nested in themselves are always compared: in a
/// store whose cells can be ranked below the number of cells, each above the
/// values that it holds, the equality test of the machine gives an answer
/// for every two values.
pub proof fn law_unnested_values_are_compared(
    store: Seq<CellView>,
    rank: spec_fn(usize) -> nat,
    a: ValueView,
    b: ValueView,
)
    requires
        unnested(store, rank),
        forall|address: usize| address < store.len() ==> #[trigger] rank(address) < store.len(),
    ensures
        equal_values(store, a, b, store.len()) is Some,
{
    lemma_compared(store, rank, a, b, store.len());
}

/// The sum and the product of two integers do not depend on their order.
pub proof fn law_integer_commutative(a: i32, b: i32)
    ensures
        integer_result(Operator::Add, a, b) == integer_result(Operator::Add, b, a),
        integer_result(Operator::Mul, a, b) == integer_result(Operator::Mul, b, a),
{
    assert(a * b == b * a) by (nonlinear_arith);
}

/// What two operations in a row come to: the second is done on the result
/// of the first, and a failure of the first is the failure of both.
pub open spec fn grouped_left(operator: Operator, a: i32, b: i32, c: i32) -> Result<i32, Trouble> {
    match integer_result(operator, a, b) {
        Ok(first) => integer_result(operator, first, c),
        Err(trouble) => Err(trouble),
    }
}

/// What two operations in a row come to where the right one is done first.
pub open spec fn grouped_right(operator: Operator, a: i32, b: i32, c: i32) -> Result<i32, Trouble> {
    match integer_result(operator, b, c) {
        Ok(second) => integer_result(operator, a, second),
        Err(trouble) => Err(trouble),
    }
}

/// Sums and products of three integers can be grouped either way: the
/// result, or the failure, is the same, unless one grouping fails on the
/// way and the other does not.
pub proof fn law_integer_associative(operator: Operator, a: i32, b: i32, c: i32)
    requires
        operator == Operator::Add || operator == Operator::Mul,
        (integer_result(operator, a, b) is Ok) == (integer_result(operator, b, c) is Ok),
    ensures
        grouped_left(operator, a, b, c) == grouped_right(operator, a, b, c),
{
    assert((a * b) * c == a * (b * c)) by (nonlinear_arith);
}

/// Arithmetic on an integer and a float is float arithmetic: the machine
/// asks the host for it with both operands as they are, and the answer is
/// pushed as a float. A division by zero is not asked but fails.
pub proof fn law_mixed_arithmetic_is_float(m: MachineView, operator: Operator, bits: u32)
    requires
        m.depth() >= 2,
        (m.peek(1) is Integer && m.peek(0) is Float) || (m.peek(1) is Float && m.peek(0)
            is Integer),
        !(operator == Operator::Div && is_zero(number_of(m.peek(0))->0)),
    ensures
        ({
            let (next, signal) = step_arithmetic(m, operator);
            &&& signal is Waiting
            &&& signal->Waiting_0 is Arithmetic
            &&& resume(next, ReplyView::Bits(bits)) matches Some(after) && after.depth()
                == m.depth() - 1 && after.peek(0) == ValueView::Float(bits)
        }),
{
}

/// Every division of a number by zero fails, whether the numbers are
/// integers or floats: no value comes of it, and the host is not asked.
pub proof fn law_division_by_zero_fails(left: ValueView, right: ValueView)
    requires
        number_of(left) is Some,
        number_of(right) matches Some(divisor) && is_zero(divisor),
    ensures
        operated(Operator::Div, left, right) == OutcomeView::Failed(Fault::DivisionByZero),
{
}

/// The machine stops at a division of a number by zero, and stays as it
/// was.
pub proof fn law_machine_stops_at_division_by_zero(m: MachineView)
    requires
        m.depth() >= 2,
        number_of(m.peek(1)) is Some,
        number_of(m.peek(0)) matches Some(divisor) && is_zero(divisor),
    ensures
        step_arithmetic(m, Operator::Div) == (m, SignalView::Failed(Fault::DivisionByZero)),
{
}

/// The sum and the product of two integer values do not depend on their
/// order: the value, or the failure, is the same.
pub proof fn law_integer_values_commute(a: i32, b: i32)
    ensures
        operated(Operator::Add, ValueView::Integer(a), ValueView::Integer(b)) == operated(
            Operator::Add,
            ValueView::Integer(b),
            ValueView::Integer(a),
        ),
        operated(Operator::Mul, ValueView::Integer(a), ValueView::Integer(b)) == operated(
            Operator::Mul,
            ValueView::Integer(b),
            ValueView::Integer(a),
        ),
{
    law_integer_commutative(a, b);
}

/// The two jumps of an `if` land behind what they guard: the jump that is
/// taken where the condition is false lands on the first instruction after
/// the first branch and its closing jump, and the closing jump lands on the
/// first instruction after the second branch.
pub proof fn law_conditional_jumps(
    condition: Seq<InstructionView>,
    then_body: Seq<InstructionView>,
    else_body: Seq<InstructionView>,
)
    requires
        jumpable(then_body.len() + 2),
        jumpable(else_body.len() + 1),
    ensures
        ({
            let code = conditional(condition, then_body, else_body);
            let over_then = condition.len() as int;
            let over_else = (condition.len() + 1 + then_body.len()) as int;
            &&& code.len() == condition.len() + then_body.len() + else_body.len() + 2
            &&& code[over_then] matches InstructionView::JumpIfFalse(delta) && over_then + delta
                == over_else + 1
            &&& code[over_else] matches InstructionView::Jump(delta) && over_else + delta
                == code.len()
            &&& code.subrange(over_then + 1, over_else) == then_body
            &&& code.subrange(over_else + 1, code.len() as int) == else_body
        }),
{
    let code = conditional(condition, then_body, else_body);
    let over_then = condition.len() as int;
    let over_else = (condition.len() + 1 + then_body.len()) as int;
    assert(code.subrange(over_then + 1, over_else) =~= then_body);
    assert(code.subrange(over_else + 1, code.len() as int) =~= else_body);
}

/// The two jumps of a loop land where the loop says: the jump that is taken
/// where the condition is false lands on the first instruction after the
/// loop, and the jump at the end of the body lands on the first instruction
/// of the condition.
pub proof fn law_loop_jumps(condition: Seq<InstructionView>, body: Seq<InstructionView>)
    requires
        jumpable(condition.len() + body.len() + 2),
    ensures
        ({
            let code = repetition(condition, body);
            let out = condition.len() as int;
            let back = (condition.len() + 1 + body.len()) as int;
            &&& code.len() == condition.len() + body.len() + 2
            &&& code[out] matches InstructionView::JumpIfFalse(delta) && out + delta == code.len()
            &&& code[back] matches InstructionView::Jump(delta) && back + delta == 0
            &&& code.subrange(out + 1, back) == body
        }),
{
    let code = repetition(condition, body);
    let out = condition.len() as int;
    let back = (condition.len() + 1 + body.len()) as int;
    assert(code.subrange(out + 1, back) =~= body);
}

/// The two jumps of a `for` over an array land where the loop says: the
/// jump that is taken once the index has reached the length lands on the
/// first instruction after the loop, and the jump behind it lands on the
/// instruction that loads the array to fetch the next item.
pub proof fn law_iteration_jumps(
    array: usize,
    item: usize,
    length: usize,
    index: usize,
    body: Seq<InstructionView>,
)
    requires
        jumpable(body.len() + 12),
    ensures
        ({
            let code = iteration(array, item, length, index, body);
            let out = (9 + body.len() + 7) as int;
            let back = (9 + body.len() + 8) as int;
            &&& code.len() == body.len() + 18
            &&& code[out] matches InstructionView::JumpIfFalse(delta) && out + delta == code.len()
            &&& code[back] matches InstructionView::Jump(delta) && back + delta == 5
            &&& code[5] == InstructionView::LoadLocalVariable(array)
            &&& code.subrange(9, (9 + body.len()) as int) == body
        }),
{
    let code = iteration(array, item, length, index, body);
    assert(code.subrange(9, (9 + body.len()) as int) =~= body);
}

} // verus!
