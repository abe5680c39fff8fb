//! Numbers: checked integer arithmetic, and the order of floats read from
//! their bit patterns.

use vstd::prelude::*;

verus! {

/// The arithmetic operators.
#[derive(Clone, Copy, Debug, PartialEq, Eq, Structural)]
pub enum Operator {
    Add,
    Sub,
    Mul,
    Div,
    Pow,
}

/// The ordering comparisons.
#[derive(Clone, Copy, Debug, PartialEq, Eq, Structural)]
pub enum Comparison {
    LessThan,
    LessThanOrEqual,
    GreaterThan,
    GreaterThanOrEqual,
}

/// How two numbers stand to each other; a NaN stands in no order to anything.
#[derive(Clone, Copy, Debug, PartialEq, Eq, Structural)]
pub enum Order {
    Less,
    Equal,
    Greater,
    Unordered,
}

/// A numeric operand: an integer, or a float given by its bit pattern.
#[derive(Clone, Copy, Debug, PartialEq, Eq, Structural)]
pub enum Number {
    Integer(i32),
    Float(u32),
}

/// Why an integer operation has no result.
#[derive(Clone, Copy, Debug, PartialEq, Eq, Structural)]
pub enum Trouble {
    Overflow,
    DivisionByZero,
    NegativeExponent,
}

/// Whether `x` is a 32-bit signed integer.
pub open spec fn fits(x: int) -> bool {
    i32::MIN <= x <= i32::MAX
}

/// Division that rounds toward zero.
pub open spec fn truncated_quotient(a: int, b: int) -> int
    recommends
        b != 0,
{
    let q = (if a < 0 { -a } else { a }) / (if b < 0 { -b } else { b });
    if (a < 0) != (b < 0) {
        -q
    } else {
        q
    }
}

/// `a` to the power `n`, as long as every product on the way is a 32-bit
/// signed integer.
pub open spec fn checked_power(a: int, n: nat) -> Option<int>
    decreases n,
{
    if n == 0 {
        Some(1)
    } else {
        match checked_power(a, (n - 1) as nat) {
            Some(p) => if fits(p * a) {
                Some(p * a)
            } else {
                None
            },
            None => None,
        }
    }
}

/// The result of an operator on two integers: the exact result where it is a
/// 32-bit signed integer, and otherwise the reason why there is none.
pub open spec fn integer_result(op: Operator, a: i32, b: i32) -> Result<i32, Trouble> {
    match op {
        Operator::Add => if fits(a + b) {
            Ok((a + b) as i32)
        } else {
            Err(Trouble::Overflow)
        },
        Operator::Sub => if fits(a - b) {
            Ok((a - b) as i32)
        } else {
            Err(Trouble::Overflow)
        },
        Operator::Mul => if fits(a * b) {
            Ok((a * b) as i32)
        } else {
            Err(Trouble::Overflow)
        },
        Operator::Div => if b == 0 {
            Err(Trouble::DivisionByZero)
        } else if fits(truncated_quotient(a as int, b as int)) {
            Ok(truncated_quotient(a as int, b as int) as i32)
        } else {
            Err(Trouble::Overflow)
        },
        Operator::Pow => if b < 0 {
            Err(Trouble::NegativeExponent)
        } else {
            match checked_power(a as int, b as nat) {
                Some(p) => Ok(p as i32),
                None => Err(Trouble::Overflow),
            }
        },
    }
}

proof fn lemma_product_bound(a: int, b: int)
    requires
        fits(a),
        fits(b),
    ensures
        -0x4000_0000_0000_0000 <= a * b <= 0x4000_0000_0000_0000,
{
    assert(-0x4000_0000_0000_0000 <= a * b <= 0x4000_0000_0000_0000) by (nonlinear_arith)
        requires
            -0x8000_0000 <= a <= 0x8000_0000,
            -0x8000_0000 <= b <= 0x8000_0000,
    ;
}

fn multiply(a: i32, b: i32) -> (out: i64)
    ensures
        out == a * b,
{
    proof {
        lemma_product_bound(a as int, b as int);
    }
    (a as i64) * (b as i64)
}

fn narrow(wide: i64) -> (out: Result<i32, Trouble>)
    ensures
        out == (if fits(wide as int) {
            Ok::<i32, Trouble>(wide as i32)
        } else {
            Err(Trouble::Overflow)
        }),
{
    if wide < -2147483648 || wide > 2147483647 {
        Err(Trouble::Overflow)
    } else {
        Ok(wide as i32)
    }
}

fn power(a: i32, n: i32) -> (out: Result<i32, Trouble>)
    requires
        n >= 0,
    ensures
        out == integer_result(Operator::Pow, a, n),
{
    let mut p: i32 = 1;
    let mut k: i32 = 0;
    while k < n
        invariant
            0 <= k <= n,
            checked_power(a as int, k as nat) == Some(p as int),
        decreases n - k,
    {
        let wide: i64 = multiply(p, a);
        assert(checked_power(a as int, (k + 1) as nat) == (if fits(p * a) {
            Some(p * a)
        } else {
            None
        }));
        if wide < -2147483648 || wide > 2147483647 {
            proof {
                lemma_power_stays_none(a as int, (k + 1) as nat, n as nat);
            }
            return Err(Trouble::Overflow);
        }
        p = wide as i32;
        k += 1;
    }
    Ok(p)
}

proof fn lemma_power_stays_none(a: int, k: nat, n: nat)
    requires
        k <= n,
        checked_power(a, k) is None,
    ensures
        checked_power(a, n) is None,
    decreases n - k,
{
    if k < n {
        lemma_power_stays_none(a, k, (n - 1) as nat);
    }
}

/// Computes an operator on two integers.
pub fn integer_operation(op: Operator, a: i32, b: i32) -> (out: Result<i32, Trouble>)
    ensures
        out == integer_result(op, a, b),
{
    match op {
        Operator::Add => narrow(a as i64 + b as i64),
        Operator::Sub => narrow(a as i64 - b as i64),
        Operator::Mul => narrow(multiply(a, b)),
        Operator::Div => {
            if b == 0 {
                Err(Trouble::DivisionByZero)
            } else {
                let x: i64 = if a < 0 { -(a as i64) } else { a as i64 };
                let y: i64 = if b < 0 { -(b as i64) } else { b as i64 };
                let q: i64 = ((x as u64) / (y as u64)) as i64;
                if (a < 0) != (b < 0) {
                    narrow(-q)
                } else {
                    narrow(q)
                }
            }
        },
        Operator::Pow => {
            if b < 0 {
                Err(Trouble::NegativeExponent)
            } else {
                power(a, b)
            }
        },
    }
}

/// The bit pattern without its sign bit.
pub open spec fn magnitude(bits: u32) -> int {
    if bits >= 0x8000_0000 {
        bits - 0x8000_0000
    } else {
        bits as int
    }
}

/// Whether a number is zero: the integer 0, or one of the two float zeros.
pub open spec fn is_zero(number: Number) -> bool {
    match number {
        Number::Integer(i) => i == 0,
        Number::Float(bits) => magnitude(bits) == 0,
    }
}

impl Number {
    /// Whether the number is zero.
    pub fn is_zero(&self) -> (out: bool)
        ensures
            out == is_zero(*self),
    {
        match self {
            Number::Integer(i) => *i == 0,
            Number::Float(bits) => *bits == 0 || *bits == 0x8000_0000,
        }
    }
}

/// Whether the bit pattern is a NaN: all exponent bits set and a fraction
/// that is not zero.
pub open spec fn is_nan(bits: u32) -> bool {
    magnitude(bits) > 0x7f80_0000
}

/// A number that grows with the float: the magnitude, negated under a sign
/// bit. Both zeros give 0.
pub open spec fn rank(bits: u32) -> int {
    if bits >= 0x8000_0000 {
        -magnitude(bits)
    } else {
        magnitude(bits)
    }
}

/// How two floats stand to each other.
pub open spec fn float_order(a: u32, b: u32) -> Order {
    if is_nan(a) || is_nan(b) {
        Order::Unordered
    } else if rank(a) < rank(b) {
        Order::Less
    } else if rank(a) > rank(b) {
        Order::Greater
    } else {
        Order::Equal
    }
}

/// How two integers stand to each other.
pub open spec fn integer_order(a: i32, b: i32) -> Order {
    if a < b {
        Order::Less
    } else if a > b {
        Order::Greater
    } else {
        Order::Equal
    }
}

/// Whether an order answers a comparison. Nothing holds of what is unordered.
pub open spec fn holds(comparison: Comparison, order: Order) -> bool {
    match comparison {
        Comparison::LessThan => order == Order::Less,
        Comparison::LessThanOrEqual => order == Order::Less || order == Order::Equal,
        Comparison::GreaterThan => order == Order::Greater,
        Comparison::GreaterThanOrEqual => order == Order::Greater || order == Order::Equal,
    }
}

fn rank_of(bits: u32) -> (out: i64)
    ensures
        out == rank(bits),
{
    if bits >= 0x8000_0000 {
        -((bits - 0x8000_0000) as i64)
    } else {
        bits as i64
    }
}

fn nan(bits: u32) -> (out: bool)
    ensures
        out == is_nan(bits),
{
    let m: u32 = if bits >= 0x8000_0000 { bits - 0x8000_0000 } else { bits };
    m > 0x7f80_0000
}

/// Orders two floats by their bit patterns.
pub fn order_floats(a: u32, b: u32) -> (out: Order)
    ensures
        out == float_order(a, b),
{
    if nan(a) || nan(b) {
        Order::Unordered
    } else {
        let x = rank_of(a);
        let y = rank_of(b);
        if x < y {
            Order::Less
        } else if x > y {
            Order::Greater
        } else {
            Order::Equal
        }
    }
}

/// Orders two integers.
pub fn order_integers(a: i32, b: i32) -> (out: Order)
    ensures
        out == integer_order(a, b),
{
    if a < b {
        Order::Less
    } else if a > b {
        Order::Greater
    } else {
        Order::Equal
    }
}

/// Answers a comparison from an order.
pub fn decide(comparison: Comparison, order: Order) -> (out: bool)
    ensures
        out == holds(comparison, order),
{
    match comparison {
        Comparison::LessThan => matches!(order, Order::Less),
        Comparison::LessThanOrEqual => matches!(order, Order::Less) || matches!(
            order,
            Order::Equal
        ),
        Comparison::GreaterThan => matches!(order, Order::Greater),
        Comparison::GreaterThanOrEqual => matches!(order, Order::Greater) || matches!(
            order,
            Order::Equal
        ),
    }
}

} // verus!
