//! The raw module: instructions as a parser hands them over.
//!
//! An instruction is an opcode, an optional result type and result id, and a
//! flat list of operands. An operand is a tagged value: its variant is the
//! kind that the grammar gives it.

use vstd::prelude::*;

verus! {

/// The enumerations and bit masks of the grammar.
#[derive(Clone, Copy, Debug, PartialEq, Eq, Structural)]
pub enum EnumKind {
    ImageOperands,
    FPFastMathMode,
    SelectionControl,
    LoopControl,
    FunctionControl,
    MemorySemantics,
    MemoryAccess,
    KernelProfilingInfo,
    SourceLanguage,
    ExecutionModel,
    AddressingModel,
    MemoryModel,
    ExecutionMode,
    StorageClass,
    Dim,
    SamplerAddressingMode,
    SamplerFilterMode,
    ImageFormat,
    ImageChannelOrder,
    ImageChannelDataType,
    FPRoundingMode,
    LinkageType,
    AccessQualifier,
    FunctionParameterAttribute,
    Decoration,
    BuiltIn,
    Scope,
    GroupOperation,
    KernelEnqueueFlags,
    Capability,
}

/// The kind of a single raw operand.
#[derive(Clone, Copy, Debug, PartialEq, Eq, Structural)]
pub enum OperandKind {
    /// A reference to the result of another instruction.
    IdRef,
    /// A reference to a constant that holds a scope.
    IdScope,
    /// A reference to a constant that holds memory semantics.
    IdMemorySemantics,
    /// A literal of one word.
    LiteralInteger,
    /// The number of an instruction in an extended instruction set.
    LiteralExtInstInteger,
    /// The opcode that a specialization constant applies.
    LiteralSpecConstantOpInteger,
    /// A literal number whose width is that of the type of the instruction
    /// that holds it. Nothing in the operand list tells the width, so no
    /// field of this kind can be decoded from the list alone.
    LiteralContextDependentNumber,
    /// A literal string.
    LiteralString,
    /// A value of an enumeration, or a bit mask.
    Enumerant(EnumKind),
}

impl OperandKind {
    /// Whether a field of this kind can be decoded from the operand list
    /// alone.
    pub open spec fn spec_is_decodable(self) -> bool {
        self != OperandKind::LiteralContextDependentNumber
    }

    /// Whether a field of this kind can be decoded from the operand list
    /// alone.
    #[verifier::when_used_as_spec(spec_is_decodable)]
    pub fn is_decodable(self) -> (decodable: bool)
        ensures
            decodable == self.spec_is_decodable(),
    {
        match self {
            OperandKind::LiteralContextDependentNumber => false,
            _ => true,
        }
    }
}

/// A raw operand.
#[derive(Clone, Debug, PartialEq, Eq)]
pub enum Operand {
    IdRef(u32),
    IdScope(u32),
    IdMemorySemantics(u32),
    LiteralInteger(u32),
    LiteralExtInstInteger(u32),
    LiteralSpecConstantOpInteger(u32),
    /// The bits of the number, in the low end of the word pair.
    LiteralContextDependentNumber(u64),
    LiteralString(String),
    Enumerant(EnumKind, u32),
}

impl Operand {
    /// The kind of the operand.
    pub open spec fn spec_kind(&self) -> OperandKind {
        match *self {
            Operand::IdRef(_) => OperandKind::IdRef,
            Operand::IdScope(_) => OperandKind::IdScope,
            Operand::IdMemorySemantics(_) => OperandKind::IdMemorySemantics,
            Operand::LiteralInteger(_) => OperandKind::LiteralInteger,
            Operand::LiteralExtInstInteger(_) => OperandKind::LiteralExtInstInteger,
            Operand::LiteralSpecConstantOpInteger(_) => OperandKind::LiteralSpecConstantOpInteger,
            Operand::LiteralContextDependentNumber(_) => OperandKind::LiteralContextDependentNumber,
            Operand::LiteralString(_) => OperandKind::LiteralString,
            Operand::Enumerant(kind, _) => OperandKind::Enumerant(kind),
        }
    }

    /// The kind of the operand.
    #[verifier::when_used_as_spec(spec_kind)]
    pub fn kind(&self) -> (kind: OperandKind)
        ensures
            kind == self.spec_kind(),
    {
        match self {
            Operand::IdRef(_) => OperandKind::IdRef,
            Operand::IdScope(_) => OperandKind::IdScope,
            Operand::IdMemorySemantics(_) => OperandKind::IdMemorySemantics,
            Operand::LiteralInteger(_) => OperandKind::LiteralInteger,
            Operand::LiteralExtInstInteger(_) => OperandKind::LiteralExtInstInteger,
            Operand::LiteralSpecConstantOpInteger(_) => OperandKind::LiteralSpecConstantOpInteger,
            Operand::LiteralContextDependentNumber(_) => OperandKind::LiteralContextDependentNumber,
            Operand::LiteralString(_) => OperandKind::LiteralString,
            Operand::Enumerant(kind, _) => OperandKind::Enumerant(*kind),
        }
    }

    /// The word that the operand holds, where it holds exactly one.
    pub open spec fn spec_word(&self) -> Option<u32> {
        match *self {
            Operand::IdRef(word) => Some(word),
            Operand::IdScope(word) => Some(word),
            Operand::IdMemorySemantics(word) => Some(word),
            Operand::LiteralInteger(word) => Some(word),
            Operand::LiteralExtInstInteger(word) => Some(word),
            Operand::LiteralSpecConstantOpInteger(word) => Some(word),
            Operand::LiteralContextDependentNumber(_) => None,
            Operand::LiteralString(_) => None,
            Operand::Enumerant(_, word) => Some(word),
        }
    }

    /// The word that the operand holds, where it holds exactly one: an id, a
    /// literal of one word, or the value of an enumerant.
    #[verifier::when_used_as_spec(spec_word)]
    pub fn word(&self) -> (word: Option<u32>)
        ensures
            word == self.spec_word(),
    {
        match self {
            Operand::IdRef(word) => Some(*word),
            Operand::IdScope(word) => Some(*word),
            Operand::IdMemorySemantics(word) => Some(*word),
            Operand::LiteralInteger(word) => Some(*word),
            Operand::LiteralExtInstInteger(word) => Some(*word),
            Operand::LiteralSpecConstantOpInteger(word) => Some(*word),
            Operand::LiteralContextDependentNumber(_) => None,
            Operand::LiteralString(_) => None,
            Operand::Enumerant(_, word) => Some(*word),
        }
    }

    /// The characters of a literal string.
    pub open spec fn spec_text(&self) -> Option<Seq<char>> {
        match *self {
            Operand::LiteralString(text) => Some(text@),
            _ => None,
        }
    }

    /// The string that the operand holds, where it is a literal string.
    pub fn text(&self) -> (text: Option<&str>)
        ensures
            match text {
                Some(text) => self.spec_text() == Some(text@),
                None => self.spec_text() is None,
            },
    {
        match self {
            Operand::LiteralString(text) => Some(text.as_str()),
            _ => None,
        }
    }
}

/// A raw instruction.
#[derive(Clone, Debug, PartialEq, Eq)]
pub struct Instruction {
    /// The opcode, as a number.
    pub opcode: u32,
    /// The id of the type of the result.
    pub result_type: Option<u32>,
    /// The id of the result.
    pub result_id: Option<u32>,
    /// The operands, without the result type and the result id.
    pub operands: Vec<Operand>,
}

/// The five words at the head of a module.
#[derive(Clone, Copy, Debug, PartialEq, Eq, Structural)]
pub struct ModuleHeader {
    pub magic_number: u32,
    pub version: u32,
    pub generator: u32,
    pub bound: u32,
    pub reserved_word: u32,
}

/// A raw basic block.
#[derive(Clone, Debug, PartialEq, Eq)]
pub struct BasicBlock {
    /// The instruction that labels the block.
    pub label: Option<Instruction>,
    /// The instructions of the block, the terminator last.
    pub instructions: Vec<Instruction>,
}

/// A raw function.
#[derive(Clone, Debug, PartialEq, Eq)]
pub struct Function {
    /// The instruction that defines the function.
    pub def: Option<Instruction>,
    /// The instruction that ends the function.
    pub end: Option<Instruction>,
    /// The instructions that declare the parameters.
    pub parameters: Vec<Instruction>,
    /// The body.
    pub basic_blocks: Vec<BasicBlock>,
}

/// A raw module.
#[derive(Clone, Debug, PartialEq, Eq)]
pub struct Module {
    /// The header.
    pub header: Option<ModuleHeader>,
    /// The capability instructions.
    pub capabilities: Vec<Instruction>,
    /// The memory model instruction.
    pub memory_model: Option<Instruction>,
    /// The entry point instructions.
    pub entry_points: Vec<Instruction>,
    /// The execution mode instructions.
    pub execution_modes: Vec<Instruction>,
    /// The instructions that define types, constants and global variables.
    pub types_global_values: Vec<Instruction>,
    /// The functions.
    pub functions: Vec<Function>,
}

} // verus!
