//! The instructions that end a basic block.

use vstd::prelude::*;

verus! {

/// The instruction that ends a basic block and says where control goes.
/// Ids are held as raw ids.
#[derive(Clone, Debug, PartialEq, Eq)]
pub enum Terminator {
    /// Go to the block with the label `target_label`.
    Branch { target_label: u32 },
    /// Go to one of two blocks, as `condition` says.
    BranchConditional { condition: u32, true_label: u32, false_label: u32, branch_weights: Vec<u32> },
    /// Go to the block that `target` pairs with the value of `selector`, or
    /// to `default`.
    Switch { selector: u32, default: u32, target: Vec<(u32, u32)> },
    /// End the invocation, and discard what it computed.
    Kill,
    /// Return from a function that returns no value.
    Return,
    /// Return `value` from a function.
    ReturnValue { value: u32 },
    /// Control never gets here.
    Unreachable,
}

} // verus!
