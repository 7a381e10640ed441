//! Execution core of a stack-based virtual machine whose runtime values are
//! each bound to an allocated circuit wire.

pub mod error;
pub mod value;
pub mod locals;
pub mod stack;
pub mod frame;
pub mod instructions;
pub mod interpreter;
