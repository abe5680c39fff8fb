//! The machine: its values, its instructions, and how it runs them.

pub mod frame;
pub mod host;
pub mod instruction;
pub mod machine;
pub mod number;
pub mod operation;
pub mod parse;
pub mod program;
pub mod semantics;
pub mod store;
pub mod value;

pub use machine::VM;
