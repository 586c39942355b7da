//! Errors of lifting, from a single operand up to a whole module.

use vstd::prelude::*;

verus! {

/// Why a field could not be decoded from the operands of an instruction.
#[derive(Clone, Copy, Debug, PartialEq, Eq, Structural)]
pub enum OperandError {
    /// A required field was expected, but no operand is left.
    Missing,
    /// The next operand is not of the kind that the field declares.
    Wrong,
}

/// Why an instruction could not be lifted.
#[derive(Clone, Copy, Debug, PartialEq, Eq, Structural)]
pub enum LiftError {
    /// The instruction does not carry the opcode that the lift is for.
    OpCode,
    /// One of the fields could not be decoded.
    Operand(OperandError),
}

/// Why a module could not be converted.
#[derive(Clone, Copy, Debug, PartialEq, Eq, Structural)]
pub enum ConvertionError {
    /// The module has no header, or no memory model.
    MissingHeader,
    /// A function has no defining instruction.
    MissingFunction,
    /// No global instruction defines the type that a function refers to.
    MissingFunctionType,
    /// An instruction could not be lifted.
    Lift(LiftError),
}

impl From<OperandError> for LiftError {
    fn from(error: OperandError) -> (lifted: Self)
        ensures
            lifted == LiftError::Operand(error),
    {
        LiftError::Operand(error)
    }
}

impl vstd::std_specs::convert::FromSpecImpl<OperandError> for LiftError {
    open spec fn obeys_from_spec() -> bool {
        true
    }

    open spec fn from_spec(error: OperandError) -> Self {
        LiftError::Operand(error)
    }
}

impl From<LiftError> for ConvertionError {
    fn from(error: LiftError) -> (converted: Self)
        ensures
            converted == ConvertionError::Lift(error),
    {
        ConvertionError::Lift(error)
    }
}

impl vstd::std_specs::convert::FromSpecImpl<LiftError> for ConvertionError {
    open spec fn obeys_from_spec() -> bool {
        true
    }

    open spec fn from_spec(error: LiftError) -> Self {
        ConvertionError::Lift(error)
    }
}

} // verus!
