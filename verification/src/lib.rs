//! Structured representation of SPIR-V modules.
//!
//! A raw module is a flat list of instructions whose operands are tagged
//! words. This crate lifts such a module into typed values: operands are
//! decoded field by field, references become phantom-typed tokens, types are
//! interned, and the module is assembled from its header-area instructions
//! and its functions.

pub mod codegen;
pub mod context;
pub mod decode;
pub mod decoration;
pub mod error;
pub mod field;
pub mod grammar;
pub mod instructions;
pub mod items;
pub mod lift;
pub mod mr;
pub mod opcode;
pub mod storage;
pub mod structs;
pub mod text;
pub mod token;
pub mod types;
