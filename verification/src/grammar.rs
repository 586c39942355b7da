//! The grammar of the instruction set, as its description lists it, and the
//! classes into which it sorts the instructions.

use vstd::prelude::*;
use crate::text::same_text;

verus! {

/// An operand of an instruction, or a parameter of an enumerant.
#[derive(Clone, Debug, PartialEq, Eq)]
pub struct Operand {
    /// The kind of the operand.
    pub kind: String,
    /// The name of the operand; it may be empty.
    pub name: String,
    /// How often the operand may stand: empty for once, `?` for once or not
    /// at all, `*` for any number of times.
    pub quantifier: String,
}

/// An instruction.
#[derive(Clone, Debug, PartialEq, Eq)]
pub struct Instruction {
    /// The class of the instruction.
    pub class: String,
    /// The name of the instruction, which begins with `Op`.
    pub opname: String,
    /// The opcode.
    pub opcode: u32,
    /// The operands, a result type and a result id among them.
    pub operands: Vec<Operand>,
}

/// A value of an enumeration.
#[derive(Clone, Debug, PartialEq, Eq)]
pub struct Enumerant {
    /// The name of the value.
    pub symbol: String,
    /// The parameters that follow the value.
    pub parameters: Vec<Operand>,
}

/// A kind of operand.
#[derive(Clone, Debug, PartialEq, Eq)]
pub struct OperandKind {
    /// The name of the kind.
    pub kind: String,
    /// The values of the kind, where it is an enumeration.
    pub enumerants: Vec<Enumerant>,
}

/// The grammar.
#[derive(Clone, Debug, PartialEq, Eq)]
pub struct Grammar {
    pub instructions: Vec<Instruction>,
    pub operand_kinds: Vec<OperandKind>,
}

/// Where an instruction goes in the structured representation.
#[derive(Clone, Copy, Debug, PartialEq, Eq, Structural)]
pub enum Class {
    /// It forms a type.
    Type,
    /// It ends a basic block.
    Terminator,
    /// It is a plain instruction of a basic block.
    Instruction,
    /// It stands in the head of the module or frames a function, and is
    /// lifted into a struct of its own.
    Struct,
    /// It defines a constant.
    Constant,
}

/// Whether instructions of the class form types.
pub open spec fn is_type_class(class: Seq<char>) -> bool {
    class == "Type"@
}

/// Whether instructions of the class get a struct of their own.
pub open spec fn is_struct_class(class: Seq<char>) -> bool {
    class == "ModeSetting"@ || class == "ExtensionDecl"@ || class == "FunctionStruct"@
}

/// Whether instructions of the class are instructions of a basic block:
/// they neither form a type, nor define a constant, nor get a struct of
/// their own.
pub open spec fn is_block_class(class: Seq<char>) -> bool {
    !(class == "Type"@ || class == "Constant"@ || class == "ModeSetting"@ || class
        == "ExtensionDecl"@ || class == "FunctionStruct"@)
}

/// Whether instructions of the class end a basic block.
pub open spec fn is_terminator_class(class: Seq<char>) -> bool {
    is_block_class(class) && class == "Terminator"@
}

/// Whether instructions of the class are plain instructions of a basic
/// block.
pub open spec fn is_plain_class(class: Seq<char>) -> bool {
    is_block_class(class) && class != "Terminator"@
}

/// Where instructions of the class go.
pub open spec fn class_of(class: Seq<char>) -> Class {
    if is_type_class(class) {
        Class::Type
    } else if is_terminator_class(class) {
        Class::Terminator
    } else if is_plain_class(class) {
        Class::Instruction
    } else if is_struct_class(class) {
        Class::Struct
    } else {
        Class::Constant
    }
}

/// Where instructions of the class go.
pub fn classify(class: &str) -> (sorted: Class)
    ensures
        sorted == class_of(class@),
        (sorted == Class::Type) == is_type_class(class@),
        (sorted == Class::Terminator) == is_terminator_class(class@),
        (sorted == Class::Instruction) == is_plain_class(class@),
        (sorted == Class::Struct) == is_struct_class(class@),
        (sorted == Class::Constant) == (class@ == "Constant"@),
{
    proof {
        lemma_classes_are_disjoint(class@);
    }
    if same_text(class, "Type") {
        Class::Type
    } else if same_text(class, "Constant") {
        Class::Constant
    } else if same_text(class, "ModeSetting") || same_text(class, "ExtensionDecl") || same_text(
        class,
        "FunctionStruct",
    ) {
        Class::Struct
    } else if same_text(class, "Terminator") {
        Class::Terminator
    } else {
        Class::Instruction
    }
}

/// The classes are disjoint. An instruction forms a type, ends a basic
/// block, is a plain instruction or gets a struct of its own, and never two
/// of these. It is one of the first three unless it gets a struct of its own
/// or defines a constant.
pub proof fn lemma_classes_are_disjoint(class: Seq<char>)
    ensures
        !(is_type_class(class) && is_terminator_class(class)),
        !(is_type_class(class) && is_plain_class(class)),
        !(is_terminator_class(class) && is_plain_class(class)),
        !(is_struct_class(class) && is_type_class(class)),
        !(is_struct_class(class) && is_terminator_class(class)),
        !(is_struct_class(class) && is_plain_class(class)),
        !(is_struct_class(class) || class == "Constant"@) <==> (is_type_class(class)
            || is_terminator_class(class) || is_plain_class(class)),
        class == "Constant"@ ==> !is_struct_class(class),
{
    reveal_strlit("Type");
    reveal_strlit("Constant");
    reveal_strlit("ModeSetting");
    reveal_strlit("ExtensionDecl");
    reveal_strlit("FunctionStruct");
    reveal_strlit("Terminator");
    assert("Type"@.len() == 4);
    assert("Constant"@.len() == 8);
    assert("ModeSetting"@.len() == 11);
    assert("ExtensionDecl"@.len() == 13);
    assert("FunctionStruct"@.len() == 14);
    assert("Terminator"@.len() == 10);
}

} // verus!
