//! The instructions of the module's head and of a function's frame, as flat
//! structs: one field for each operand, in the order of the operands.

use vstd::prelude::*;
use crate::token::Token;

verus! {

/// A capability that the module declares.
#[derive(Clone, Copy, Debug, PartialEq, Eq, Structural)]
pub struct Capability {
    pub capability: u32,
}

/// The addressing model and the memory model of the module.
#[derive(Clone, Copy, Debug, PartialEq, Eq, Structural)]
pub struct MemoryModel {
    pub addressing_model: u32,
    pub memory_model: u32,
}

/// An entry point of the module.
#[derive(Clone, Debug, PartialEq, Eq)]
pub struct EntryPoint {
    pub execution_model: u32,
    pub entry_point: Token<crate::items::Function>,
    pub name: String,
    pub interface: Vec<Token<crate::items::Variable>>,
}

/// An execution mode of an entry point.
#[derive(Clone, Debug, PartialEq, Eq)]
pub struct ExecutionMode {
    pub entry_point: Token<crate::items::Function>,
    pub mode: u32,
}

/// The instruction that opens a function.
#[derive(Clone, Debug, PartialEq, Eq)]
pub struct Function {
    pub function_control: u32,
    pub function_type: Token<crate::types::Function>,
}

} // verus!
