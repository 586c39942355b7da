//! The opcodes of the instructions that this crate lifts by name.

use vstd::prelude::*;

verus! {

pub const OP_MEMORY_MODEL: u32 = 14;

pub const OP_ENTRY_POINT: u32 = 15;

pub const OP_EXECUTION_MODE: u32 = 16;

pub const OP_CAPABILITY: u32 = 17;

pub const OP_TYPE_FUNCTION: u32 = 33;

pub const OP_FUNCTION: u32 = 54;

} // verus!
