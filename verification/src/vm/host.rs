//! What the machine asks of its host, and how a run can end.
//!
//! The machine never computes with floats. Where an instruction needs the
//! sum of two floats, the reading of a decimal literal or the decimal form of
//! a float, the machine stops with a [`Request`]; the host answers with a
//! [`Reply`], and the machine goes on.

use vstd::prelude::*;
use vstd::string::StringExecFns;
use crate::text::{decimal, format_unsigned};
use crate::vm::number::{Number, Operator, Order, Trouble};
use crate::vm::value::{Value, ValueView};

verus! {

/// A question to the host.
#[derive(Debug, PartialEq)]
pub enum Request {
    /// The result of the operator on two numbers, at least one of them a
    /// float; an integer operand is first rounded to a float. A division
    /// by zero is never asked. Answered by `Reply::Bits`.
    Arithmetic(Operator, Number, Number),
    /// How an integer and a float stand to each other, the integer rounded
    /// to a float. Answered by `Reply::Order`.
    Compare(Number, Number),
    /// The decimal form of the float with these bits. Answered by
    /// `Reply::Text`.
    Render(u32),
    /// The float that this decimal text denotes. Answered by `Reply::Bits`.
    Read(String),
}

/// The model of a [`Request`].
pub enum RequestView {
    Arithmetic(Operator, Number, Number),
    Compare(Number, Number),
    Render(u32),
    Read(Seq<char>),
}

impl View for Request {
    type V = RequestView;

    open spec fn view(&self) -> RequestView {
        match self {
            Request::Arithmetic(op, a, b) => RequestView::Arithmetic(*op, *a, *b),
            Request::Compare(a, b) => RequestView::Compare(*a, *b),
            Request::Render(bits) => RequestView::Render(*bits),
            Request::Read(text) => RequestView::Read(text@),
        }
    }
}

impl Clone for Request {
    fn clone(&self) -> (out: Self)
        ensures
            out == *self,
    {
        match self {
            Request::Arithmetic(op, a, b) => Request::Arithmetic(*op, *a, *b),
            Request::Compare(a, b) => Request::Compare(*a, *b),
            Request::Render(bits) => Request::Render(*bits),
            Request::Read(text) => Request::Read(text.clone()),
        }
    }
}

/// An answer of the host.
#[derive(Debug, PartialEq)]
pub enum Reply {
    Bits(u32),
    Text(String),
    Order(Order),
}

/// The model of a [`Reply`].
pub enum ReplyView {
    Bits(u32),
    Text(Seq<char>),
    Order(Order),
}

impl View for Reply {
    type V = ReplyView;

    open spec fn view(&self) -> ReplyView {
        match self {
            Reply::Bits(bits) => ReplyView::Bits(*bits),
            Reply::Text(text) => ReplyView::Text(text@),
            Reply::Order(order) => ReplyView::Order(*order),
        }
    }
}

/// The kinds of error.
#[derive(Clone, Copy, Debug, PartialEq, Eq, Structural)]
pub enum ErrorKind {
    Parse,
    Compile,
    Type,
    Lookup,
    AssertionFailure,
    Bytecode,
}

/// Why the machine stopped.
#[derive(Clone, Copy, Debug, PartialEq, Eq, Structural)]
pub enum Fault {
    /// `Assert` on a value that is no boolean.
    NotABoolean,
    /// An operator on values that it is not defined for.
    BadOperands,
    /// `CreateObject` on a value that is no class.
    NotAClass,
    /// An array instruction on a value that is no array.
    NotAnArray,
    /// `DictionaryAdd` on a value that is no dictionary.
    NotADictionary,
    /// Indexing a value that is no array, dictionary or object.
    NotACollection,
    /// An array indexed by something other than an integer, or a dictionary
    /// or object by something other than a string.
    BadKey,
    /// `Call` on a value that is no function reference.
    NotCallable,
    /// An integer result that is no 32-bit signed integer.
    Overflow,
    /// A division by zero.
    DivisionByZero,
    /// An integer power with a negative exponent.
    NegativeExponent,
    /// Values that are nested in themselves, in an equality test.
    TooDeep,
    /// A float operation in a run without a host.
    HostNeeded,
    /// `Call` of a name that is no symbol of the program.
    UnknownFunction,
    /// A key that the dictionary does not hold.
    MissingKey,
    /// An array index that is negative or not below the length.
    IndexOutOfBounds,
    /// A member that the object does not hold.
    MissingMember,
    /// `Assert` on `false`.
    AssertionFailed,
    /// An instruction that takes more values than the stack holds.
    StackUnderflow,
    /// A position that is not in the program.
    BadJump,
    /// A slot that was never written.
    UnknownSlot,
    /// A global that the program does not have.
    UnknownGlobal,
    /// A return from a frame that was called from nowhere.
    NoCaller,
    /// More steps than the run was given.
    StepLimit,
}

/// The kind of a fault.
pub open spec fn kind_of(fault: Fault) -> ErrorKind {
    match fault {
        Fault::NotABoolean => ErrorKind::Type,
        Fault::BadOperands => ErrorKind::Type,
        Fault::NotAClass => ErrorKind::Type,
        Fault::NotAnArray => ErrorKind::Type,
        Fault::NotADictionary => ErrorKind::Type,
        Fault::NotACollection => ErrorKind::Type,
        Fault::BadKey => ErrorKind::Type,
        Fault::NotCallable => ErrorKind::Type,
        Fault::Overflow => ErrorKind::Type,
        Fault::DivisionByZero => ErrorKind::Type,
        Fault::NegativeExponent => ErrorKind::Type,
        Fault::TooDeep => ErrorKind::Type,
        Fault::HostNeeded => ErrorKind::Type,
        Fault::UnknownFunction => ErrorKind::Lookup,
        Fault::MissingKey => ErrorKind::Lookup,
        Fault::IndexOutOfBounds => ErrorKind::Lookup,
        Fault::MissingMember => ErrorKind::Lookup,
        Fault::AssertionFailed => ErrorKind::AssertionFailure,
        Fault::StackUnderflow => ErrorKind::Bytecode,
        Fault::BadJump => ErrorKind::Bytecode,
        Fault::UnknownSlot => ErrorKind::Bytecode,
        Fault::UnknownGlobal => ErrorKind::Bytecode,
        Fault::NoCaller => ErrorKind::Bytecode,
        Fault::StepLimit => ErrorKind::Bytecode,
    }
}

/// The fault that stands for a failed integer operation.
pub open spec fn fault_of(trouble: Trouble) -> Fault {
    match trouble {
        Trouble::Overflow => Fault::Overflow,
        Trouble::DivisionByZero => Fault::DivisionByZero,
        Trouble::NegativeExponent => Fault::NegativeExponent,
    }
}

impl Fault {
    /// The kind of the fault.
    pub fn kind(&self) -> (out: ErrorKind)
        ensures
            out == kind_of(*self),
    {
        match self {
            Fault::NotABoolean => ErrorKind::Type,
            Fault::BadOperands => ErrorKind::Type,
            Fault::NotAClass => ErrorKind::Type,
            Fault::NotAnArray => ErrorKind::Type,
            Fault::NotADictionary => ErrorKind::Type,
            Fault::NotACollection => ErrorKind::Type,
            Fault::BadKey => ErrorKind::Type,
            Fault::NotCallable => ErrorKind::Type,
            Fault::Overflow => ErrorKind::Type,
            Fault::DivisionByZero => ErrorKind::Type,
            Fault::NegativeExponent => ErrorKind::Type,
            Fault::TooDeep => ErrorKind::Type,
            Fault::HostNeeded => ErrorKind::Type,
            Fault::UnknownFunction => ErrorKind::Lookup,
            Fault::MissingKey => ErrorKind::Lookup,
            Fault::IndexOutOfBounds => ErrorKind::Lookup,
            Fault::MissingMember => ErrorKind::Lookup,
            Fault::AssertionFailed => ErrorKind::AssertionFailure,
            Fault::StackUnderflow => ErrorKind::Bytecode,
            Fault::BadJump => ErrorKind::Bytecode,
            Fault::UnknownSlot => ErrorKind::Bytecode,
            Fault::UnknownGlobal => ErrorKind::Bytecode,
            Fault::NoCaller => ErrorKind::Bytecode,
            Fault::StepLimit => ErrorKind::Bytecode,
        }
    }

    /// The fault that stands for a failed integer operation.
    pub fn from_trouble(trouble: Trouble) -> (out: Fault)
        ensures
            out == fault_of(trouble),
    {
        match trouble {
            Trouble::Overflow => Fault::Overflow,
            Trouble::DivisionByZero => Fault::DivisionByZero,
            Trouble::NegativeExponent => Fault::NegativeExponent,
        }
    }
}

/// A failed run: why it failed, and in which function and at which
/// instruction the machine stood.
#[derive(Debug, PartialEq)]
pub struct Error {
    pub fault: Fault,
    pub function: String,
    pub position: usize,
}

/// The name of a kind of error.
pub open spec fn kind_name(kind: ErrorKind) -> Seq<char> {
    match kind {
        ErrorKind::Parse => "ParseError"@,
        ErrorKind::Compile => "CompileError"@,
        ErrorKind::Type => "TypeError"@,
        ErrorKind::Lookup => "LookupError"@,
        ErrorKind::AssertionFailure => "AssertionFailure"@,
        ErrorKind::Bytecode => "BytecodeError"@,
    }
}

impl ErrorKind {
    /// The name of the kind.
    pub fn name(&self) -> (out: String)
        ensures
            out@ == kind_name(*self),
    {
        match self {
            ErrorKind::Parse => String::from_str("ParseError"),
            ErrorKind::Compile => String::from_str("CompileError"),
            ErrorKind::Type => String::from_str("TypeError"),
            ErrorKind::Lookup => String::from_str("LookupError"),
            ErrorKind::AssertionFailure => String::from_str("AssertionFailure"),
            ErrorKind::Bytecode => String::from_str("BytecodeError"),
        }
    }
}

impl Error {
    /// The kind of the error.
    pub fn kind(&self) -> (out: ErrorKind)
        ensures
            out == kind_of(self.fault),
    {
        self.fault.kind()
    }

    /// The error in one line: its kind, the function and the instruction.
    pub fn message(&self) -> (out: String)
        ensures
            out@ == kind_name(kind_of(self.fault)) + " in "@ + self.function@ + " at instruction "@
                + decimal(self.position as int),
    {
        let mut out = self.kind().name();
        out.append(" in ");
        out.append(self.function.as_str());
        out.append(" at instruction ");
        out.append(format_unsigned(self.position as u64).as_str());
        out
    }
}

/// What one step, or a run of steps, came to.
#[derive(Debug, PartialEq)]
pub enum Signal {
    /// The machine can go on.
    Continue,
    /// The program ended with this result.
    Finished(Value),
    /// The machine waits for the host's answer to this request.
    Waiting(Request),
    /// The program failed.
    Failed(Fault),
}

/// The model of a [`Signal`].
pub enum SignalView {
    Continue,
    Finished(ValueView),
    Waiting(RequestView),
    Failed(Fault),
}

impl View for Signal {
    type V = SignalView;

    open spec fn view(&self) -> SignalView {
        match self {
            Signal::Continue => SignalView::Continue,
            Signal::Finished(value) => SignalView::Finished(value@),
            Signal::Waiting(request) => SignalView::Waiting(request@),
            Signal::Failed(fault) => SignalView::Failed(*fault),
        }
    }
}

} // verus!
