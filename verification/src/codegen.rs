//! What is generated from the grammar: for each instruction an item of the
//! structured representation, with a field for each operand.
//!
//! The functions here decide what is generated: which instructions become
//! variants of which enum, which get a struct and a lift, what the items and
//! their fields are called, and what type each field has. How an item is
//! written out as source text is not decided here.

use vstd::prelude::*;
use crate::field::Quantifier;
use crate::grammar::{
    is_block_class, is_struct_class, is_type_class, lemma_classes_are_disjoint, Enumerant,
    Grammar, Instruction, Operand, OperandKind,
};
use crate::text::{
    clean, cleaned, has_tail, lowercase_of, same_text, separated, snake_casify, starts_with, tail,
    tail_of, trim, trimmed,
};

verus! {

/// What the id of a field refers to.
#[derive(Clone, Copy, Debug, PartialEq, Eq, Structural)]
pub enum Referent {
    /// A type.
    Type,
    /// A constant.
    Constant,
    /// A function.
    Function,
    /// A variable.
    Variable,
    /// A function type.
    FunctionType,
}

/// The type of one item of a field.
#[derive(Clone, Copy, Debug, PartialEq, Eq, Structural)]
pub enum SrType {
    /// A raw id.
    Word,
    /// A literal of one word.
    U32,
    /// An opcode.
    Op,
    /// A string.
    Text,
    /// A literal paired with an id.
    PairLiteralIntegerIdRef,
    /// An id paired with a literal.
    PairIdRefLiteralInteger,
    /// Two ids.
    PairIdRefIdRef,
    /// The enumeration that has the name of the operand's kind.
    Spirv,
    /// A token.
    Token(Referent),
    /// A member of a structure.
    StructMember,
}

/// The type of a field: the type of one item, and how many items there are.
#[derive(Clone, Copy, Debug, PartialEq, Eq, Structural)]
pub struct FieldType {
    pub base: SrType,
    pub quantifier: Quantifier,
}

/// The type of one item of a field of kind `kind`, where ids stay raw. The
/// kind `LiteralContextDependentNumber` has none: the width of such a number
/// is not known from its kind.
pub open spec fn operand_type(kind: Seq<char>) -> Option<SrType> {
    if kind == "IdMemorySemantics"@ || kind == "IdScope"@ || kind == "IdRef"@ || kind
        == "IdResult"@ {
        Some(SrType::Word)
    } else if kind == "LiteralInteger"@ || kind == "LiteralExtInstInteger"@ {
        Some(SrType::U32)
    } else if kind == "LiteralSpecConstantOpInteger"@ {
        Some(SrType::Op)
    } else if kind == "LiteralContextDependentNumber"@ {
        None
    } else if kind == "LiteralString"@ {
        Some(SrType::Text)
    } else if kind == "PairLiteralIntegerIdRef"@ {
        Some(SrType::PairLiteralIntegerIdRef)
    } else if kind == "PairIdRefLiteralInteger"@ {
        Some(SrType::PairIdRefLiteralInteger)
    } else if kind == "PairIdRefIdRef"@ {
        Some(SrType::PairIdRefIdRef)
    } else {
        Some(SrType::Spirv)
    }
}

/// The type of one item of a field of kind `kind`, where ids stay raw, and
/// nothing for the kind `LiteralContextDependentNumber`.
pub fn get_operand_type_sr_tokens(kind: &str) -> (ty: Option<SrType>)
    ensures
        ty == operand_type(kind@),
{
    if same_text(kind, "IdMemorySemantics") || same_text(kind, "IdScope") || same_text(
        kind,
        "IdRef",
    ) || same_text(kind, "IdResult") {
        Some(SrType::Word)
    } else if same_text(kind, "LiteralInteger") || same_text(kind, "LiteralExtInstInteger") {
        Some(SrType::U32)
    } else if same_text(kind, "LiteralSpecConstantOpInteger") {
        Some(SrType::Op)
    } else if same_text(kind, "LiteralContextDependentNumber") {
        None
    } else if same_text(kind, "LiteralString") {
        Some(SrType::Text)
    } else if same_text(kind, "PairLiteralIntegerIdRef") {
        Some(SrType::PairLiteralIntegerIdRef)
    } else if same_text(kind, "PairIdRefLiteralInteger") {
        Some(SrType::PairIdRefLiteralInteger)
    } else if same_text(kind, "PairIdRefIdRef") {
        Some(SrType::PairIdRefIdRef)
    } else {
        Some(SrType::Spirv)
    }
}

/// What the quantifier of the grammar says: empty for once, `?` for once or
/// not at all, `*` for any number of times. Any other is none.
pub open spec fn quantifier_of(quantifier: Seq<char>) -> Option<Quantifier> {
    if quantifier == ""@ {
        Some(Quantifier::Required)
    } else if quantifier == "?"@ {
        Some(Quantifier::Optional)
    } else if quantifier == "*"@ {
        Some(Quantifier::Repeated)
    } else {
        None
    }
}

/// The type of a field whose items are of type `ty` and whose quantifier is
/// `quantifier`.
pub open spec fn quantified(ty: Option<SrType>, quantifier: Seq<char>) -> Option<FieldType> {
    match (ty, quantifier_of(quantifier)) {
        (Some(base), Some(quantifier)) => Some(FieldType { base, quantifier }),
        _ => None,
    }
}

/// What the quantifier of the grammar says, and nothing where it is none of
/// the grammar's.
pub fn get_quantifier(text: &str) -> (parsed: Option<Quantifier>)
    ensures
        parsed == quantifier_of(text@),
{
    if same_text(text, "") {
        Some(Quantifier::Required)
    } else if same_text(text, "?") {
        Some(Quantifier::Optional)
    } else if same_text(text, "*") {
        Some(Quantifier::Repeated)
    } else {
        None
    }
}

/// The type of a field whose items are of type `ty` and whose quantifier is
/// `quantifier`, and nothing where `quantifier` is none of the grammar's.
pub fn get_quantified_type_tokens(ty: SrType, quantifier: &str) -> (field: Option<FieldType>)
    ensures
        field == quantified(Some(ty), quantifier@),
{
    match get_quantifier(quantifier) {
        Some(quantifier) => Some(FieldType { base: ty, quantifier }),
        None => None,
    }
}

/// The type of one item of the field of an operand of kind `kind` and name
/// `name`, where ids become tokens. What a token refers to goes by the name
/// of the operand, without the quotes around it; an id of another name
/// refers to a type.
pub open spec fn ident_type(kind: Seq<char>, name: Seq<char>) -> Option<SrType> {
    if kind == "IdRef"@ {
        let name = trimmed(name, '\'');
        if name == "Length"@ {
            Some(SrType::Token(Referent::Constant))
        } else if name == "Entry Point"@ {
            Some(SrType::Token(Referent::Function))
        } else if name == "Interface"@ {
            Some(SrType::Token(Referent::Variable))
        } else if name == "Function Type"@ {
            Some(SrType::Token(Referent::FunctionType))
        } else if name == "Field Types"@ {
            Some(SrType::StructMember)
        } else {
            Some(SrType::Token(Referent::Type))
        }
    } else {
        operand_type(kind)
    }
}

/// The type of the field of an operand, where ids become tokens.
pub open spec fn ident_field_type(operand: &Operand) -> Option<FieldType> {
    quantified(ident_type(operand.kind@, operand.name@), operand.quantifier@)
}

/// The type of the field of an operand, where ids stay raw.
pub open spec fn raw_field_type(operand: &Operand) -> Option<FieldType> {
    quantified(operand_type(operand.kind@), operand.quantifier@)
}

/// The type of the field of an operand, where ids become tokens. There is
/// none where the kind is `LiteralContextDependentNumber`, or the quantifier
/// none of the grammar's.
pub fn get_operand_type_ident(operand: &Operand) -> (field: Option<FieldType>)
    ensures
        field == ident_field_type(operand),
{
    let ty = if same_text(operand.kind.as_str(), "IdRef") {
        let name = trim(operand.name.as_str(), '\'');
        if same_text(name, "Length") {
            SrType::Token(Referent::Constant)
        } else if same_text(name, "Entry Point") {
            SrType::Token(Referent::Function)
        } else if same_text(name, "Interface") {
            SrType::Token(Referent::Variable)
        } else if same_text(name, "Function Type") {
            SrType::Token(Referent::FunctionType)
        } else if same_text(name, "Field Types") {
            SrType::StructMember
        } else {
            SrType::Token(Referent::Type)
        }
    } else {
        match get_operand_type_sr_tokens(operand.kind.as_str()) {
            Some(ty) => ty,
            None => {
                return None;
            },
        }
    };
    get_quantified_type_tokens(ty, operand.quantifier.as_str())
}

/// The type of the field of an operand, where ids stay raw.
pub fn get_operand_type_raw(operand: &Operand) -> (field: Option<FieldType>)
    ensures
        field == raw_field_type(operand),
{
    match get_operand_type_sr_tokens(operand.kind.as_str()) {
        Some(ty) => get_quantified_type_tokens(ty, operand.quantifier.as_str()),
        None => None,
    }
}

/// The name, in snake case, of what belongs to the type called `name`.
/// `Struct` gives `structure`.
pub open spec fn type_fn_name(name: Seq<char>) -> Seq<char> {
    if name == "Struct"@ {
        "structure"@
    } else {
        lowercase_of(separated(name))
    }
}

/// The name, in snake case, of what belongs to the type called `name`.
pub fn get_type_fn_name(name: &str) -> (snake: String)
    ensures
        snake@ == type_fn_name(name@),
{
    if same_text(name, "Struct") {
        String::from_str("structure")
    } else {
        snake_casify(name)
    }
}

/// The name of the field of an operand of kind `kind` and name `name`. An
/// operand without a name is called after its kind. `'Type'` gives `ty`.
/// Any other name is cleaned and put in snake case.
pub open spec fn param_name(kind: Seq<char>, name: Seq<char>) -> Seq<char> {
    if name.len() == 0 {
        if kind == "IdResultType"@ {
            "result_type"@
        } else {
            lowercase_of(separated(kind))
        }
    } else if name == "'Type'"@ {
        "ty"@
    } else {
        lowercase_of(separated(cleaned(name)))
    }
}

/// The name of the field of an operand.
pub fn get_operand_name_sr_tokens(param: &Operand) -> (name: String)
    ensures
        name@ == param_name(param.kind@, param.name@),
{
    if param.name.as_str().unicode_len() == 0 {
        if same_text(param.kind.as_str(), "IdResultType") {
            String::from_str("result_type")
        } else {
            snake_casify(param.kind.as_str())
        }
    } else if same_text(param.name.as_str(), "'Type'") {
        String::from_str("ty")
    } else {
        let clean = clean(param.name.as_str());
        snake_casify(clean.as_str())
    }
}

/// Which operands of an instruction get no field.
#[derive(Clone, Copy, Debug, PartialEq, Eq, Structural)]
pub enum Skip {
    /// The first, which is the result.
    First,
    /// Those whose kind begins with `IdResult`.
    Results,
}

/// What becomes of the ids among the fields.
#[derive(Clone, Copy, Debug, PartialEq, Eq, Structural)]
pub enum Ids {
    /// They become tokens.
    Tokens,
    /// They stay raw.
    Raw,
}

/// A field of a generated item.
#[derive(Clone, Debug, PartialEq, Eq)]
pub struct FieldDecl {
    /// The name of the field.
    pub name: String,
    /// The kind of the operand that the field is decoded from.
    pub kind: String,
    /// The type of the field.
    pub ty: FieldType,
}

/// A generated item: a variant of an enum, or a struct.
#[derive(Clone, Debug, PartialEq, Eq)]
pub struct ItemDecl {
    /// The name of the item.
    pub name: String,
    /// The opcode of the instruction that the item stands for.
    pub opcode: u32,
    /// The fields, in the order of the operands.
    pub fields: Vec<FieldDecl>,
}

/// The type of the field of an operand.
pub open spec fn field_type(operand: &Operand, ids: Ids) -> Option<FieldType> {
    match ids {
        Ids::Tokens => ident_field_type(operand),
        Ids::Raw => raw_field_type(operand),
    }
}

/// Whether the operand at `at` gets a field.
pub open spec fn keeps(operands: Seq<Operand>, skip: Skip, at: int) -> bool {
    match skip {
        Skip::First => at >= 1,
        Skip::Results => !"IdResult"@.is_prefix_of(operands[at].kind@),
    }
}

/// Those of the first `upto` operands that get a field, in order.
pub open spec fn kept_upto(operands: Seq<Operand>, skip: Skip, upto: int) -> Seq<Operand>
    decreases upto,
{
    if upto <= 0 {
        Seq::empty()
    } else if keeps(operands, skip, upto - 1) {
        kept_upto(operands, skip, upto - 1).push(operands[upto - 1])
    } else {
        kept_upto(operands, skip, upto - 1)
    }
}

/// The operands that get a field, in order.
pub open spec fn kept(operands: Seq<Operand>, skip: Skip) -> Seq<Operand> {
    kept_upto(operands, skip, operands.len() as int)
}

/// Whether every one of the operands has a field type.
pub open spec fn all_typed(operands: Seq<Operand>, ids: Ids) -> bool {
    forall|k: int| 0 <= k < operands.len() ==> field_type(#[trigger] &operands[k], ids) is Some
}

/// Whether `field` is the field of `operand`.
pub open spec fn is_field_of(field: FieldDecl, operand: Operand, ids: Ids) -> bool {
    &&& field.name@ == param_name(operand.kind@, operand.name@)
    &&& field.kind@ == operand.kind@
    &&& Some(field.ty) == field_type(&operand, ids)
}

/// Whether `fields` are the fields of `operands`, one for one and in order.
pub open spec fn are_fields_of(fields: Seq<FieldDecl>, operands: Seq<Operand>, ids: Ids) -> bool {
    &&& fields.len() == operands.len()
    &&& forall|k: int| 0 <= k < fields.len() ==> is_field_of(#[trigger] fields[k], operands[k], ids)
}

/// The fields of the operands that get one. There are none where one of
/// those operands has no field type.
pub fn fields_of(operands: &Vec<Operand>, skip: Skip, ids: Ids) -> (fields: Option<Vec<FieldDecl>>)
    ensures
        match fields {
            Some(fields) => {
                &&& all_typed(kept(operands@, skip), ids)
                &&& are_fields_of(fields@, kept(operands@, skip), ids)
            },
            None => !all_typed(kept(operands@, skip), ids),
        },
{
    let mut fields: Vec<FieldDecl> = Vec::new();
    let mut i: usize = 0;
    while i < operands.len()
        invariant
            i <= operands@.len(),
            all_typed(kept_upto(operands@, skip, i as int), ids),
            are_fields_of(fields@, kept_upto(operands@, skip, i as int), ids),
        decreases operands@.len() - i,
    {
        let operand = &operands[i];
        let keep = match skip {
            Skip::First => i >= 1,
            Skip::Results => !starts_with(operand.kind.as_str(), "IdResult"),
        };
        if keep {
            let ty = match ids {
                Ids::Tokens => get_operand_type_ident(operand),
                Ids::Raw => get_operand_type_raw(operand),
            };
            match ty {
                Some(ty) => {
                    fields.push(
                        FieldDecl {
                            name: get_operand_name_sr_tokens(operand),
                            kind: operand.kind.as_str().to_owned(),
                            ty,
                        },
                    );
                },
                None => {
                    proof {
                        lemma_kept_grows(operands@, skip, i + 1, operands@.len() as int);
                        let found = kept_upto(operands@, skip, i + 1);
                        assert(field_type(&found[found.len() - 1], ids) is None);
                        assert(kept(operands@, skip)[found.len() - 1] == found[found.len() - 1]);
                    }
                    return None;
                },
            }
        }
        i = i + 1;
    }
    Some(fields)
}

/// What is kept of a longer head of the operands begins with what is kept
/// of a shorter one.
pub proof fn lemma_kept_grows(operands: Seq<Operand>, skip: Skip, shorter: int, longer: int)
    requires
        0 <= shorter <= longer,
    ensures
        kept_upto(operands, skip, shorter).len() <= kept_upto(operands, skip, longer).len(),
        forall|k: int|
            0 <= k < kept_upto(operands, skip, shorter).len() ==> kept_upto(
                operands,
                skip,
                shorter,
            )[k] == #[trigger] kept_upto(operands, skip, longer)[k],
    decreases longer - shorter,
{
    if shorter < longer {
        lemma_kept_grows(operands, skip, shorter, longer - 1);
    }
}

/// A list of items that is generated from the instructions of the grammar.
#[derive(Clone, Copy, Debug, PartialEq, Eq, Structural)]
pub enum Selection {
    /// The variants of the enum of types: the instructions that form a type,
    /// but for function types.
    TypeVariants,
    /// The types that stand alone as structs: function types.
    TypeStructs,
    /// The types that the context makes on request: those that form a type,
    /// but for structures and function types.
    TypeConstructors,
    /// The instructions that get a struct of their own.
    Structs,
    /// The variants of the enum of terminators.
    Terminators,
    /// The variants of the enum of plain instructions.
    Instructions,
}

impl Selection {
    /// How many bytes at the head of the instruction's name are no part of
    /// the item's name: `OpType` for types, `Op` for the others.
    pub open spec fn offset(self) -> int {
        match self {
            Selection::TypeVariants | Selection::TypeStructs | Selection::TypeConstructors => 6,
            _ => 2,
        }
    }

    /// Which operands get no field.
    pub open spec fn skip(self) -> Skip {
        match self {
            Selection::TypeVariants | Selection::TypeStructs | Selection::TypeConstructors => {
                Skip::First
            },
            _ => Skip::Results,
        }
    }

    /// What becomes of the ids among the fields.
    pub open spec fn ids(self) -> Ids {
        match self {
            Selection::Terminators | Selection::Instructions => Ids::Raw,
            _ => Ids::Tokens,
        }
    }

    /// Whether the instruction must have an operand.
    pub open spec fn needs_result(self) -> bool {
        self == Selection::TypeVariants || self == Selection::TypeStructs
    }

    /// Whether the instruction is looked at: whether it is of the class that
    /// the list is generated from.
    pub open spec fn considers(self, instruction: &Instruction) -> bool {
        match self {
            Selection::TypeVariants | Selection::TypeStructs => is_type_class(instruction.class@),
            Selection::TypeConstructors => is_type_class(instruction.class@) && instruction.opname@
                != "OpTypeStruct"@,
            Selection::Structs => is_struct_class(instruction.class@),
            Selection::Terminators | Selection::Instructions => is_block_class(instruction.class@),
        }
    }

    /// Whether the instruction gets an item in the list.
    pub open spec fn selects(self, instruction: &Instruction) -> bool {
        &&& self.considers(instruction)
        &&& match self {
            Selection::TypeVariants | Selection::TypeConstructors => tail_of(
                instruction.opname@,
                self.offset(),
            ) != "Function"@,
            Selection::TypeStructs => tail_of(instruction.opname@, self.offset()) == "Function"@,
            Selection::Structs => true,
            Selection::Terminators => instruction.class@ == "Terminator"@,
            Selection::Instructions => instruction.class@ != "Terminator"@,
        }
    }

    /// Whether the fields of the instruction can be described: it has the
    /// operand that it needs, and each operand that gets a field has a field
    /// type.
    pub open spec fn describes(self, instruction: &Instruction) -> bool {
        &&& self.needs_result() ==> instruction.operands@.len() >= 1
        &&& all_typed(kept(instruction.operands@, self.skip()), self.ids())
    }

    /// Whether the instruction is in order: if it is looked at, its name
    /// has a tail, and if it gets an item, its fields can be described.
    pub open spec fn accepts(self, instruction: &Instruction) -> bool {
        self.considers(instruction) ==> {
            &&& has_tail(instruction.opname@, self.offset())
            &&& self.selects(instruction) ==> self.describes(instruction)
        }
    }

    /// Whether `item` is the item of `instruction`: called by the tail of
    /// the instruction's name, with its opcode and the fields of its
    /// operands.
    pub open spec fn is_item_of(self, item: ItemDecl, instruction: Instruction) -> bool {
        &&& item.name@ == tail_of(instruction.opname@, self.offset())
        &&& item.opcode == instruction.opcode
        &&& are_fields_of(item.fields@, kept(instruction.operands@, self.skip()), self.ids())
    }

    /// Those of the first `upto` instructions that get an item, in order.
    pub open spec fn selected_upto(self, instructions: Seq<Instruction>, upto: int) -> Seq<
        Instruction,
    >
        decreases upto,
    {
        if upto <= 0 {
            Seq::empty()
        } else if self.selects(&instructions[upto - 1]) {
            self.selected_upto(instructions, upto - 1).push(instructions[upto - 1])
        } else {
            self.selected_upto(instructions, upto - 1)
        }
    }

    /// The instructions that get an item, in order.
    pub open spec fn selected(self, instructions: Seq<Instruction>) -> Seq<Instruction> {
        self.selected_upto(instructions, instructions.len() as int)
    }

    /// Whether every instruction is in order.
    pub open spec fn accepts_all(self, instructions: Seq<Instruction>) -> bool {
        forall|i: int| 0 <= i < instructions.len() ==> self.accepts(#[trigger] &instructions[i])
    }

    /// Whether `items` are the items of the instructions that get one, one
    /// for one and in order.
    pub open spec fn are_items_of(self, items: Seq<ItemDecl>, instructions: Seq<Instruction>) -> bool {
        &&& items.len() == self.selected(instructions).len()
        &&& forall|k: int|
            0 <= k < items.len() ==> self.is_item_of(
                #[trigger] items[k],
                self.selected(instructions)[k],
            )
    }

    /// Whether the instruction is looked at.
    fn is_considered(self, instruction: &Instruction) -> (considered: bool)
        ensures
            considered == self.considers(instruction),
    {
        let class = instruction.class.as_str();
        match self {
            Selection::TypeVariants | Selection::TypeStructs => same_text(class, "Type"),
            Selection::TypeConstructors => same_text(class, "Type") && !same_text(
                instruction.opname.as_str(),
                "OpTypeStruct",
            ),
            Selection::Structs => same_text(class, "ModeSetting") || same_text(
                class,
                "ExtensionDecl",
            ) || same_text(class, "FunctionStruct"),
            Selection::Terminators | Selection::Instructions => !(same_text(class, "Type")
                || same_text(class, "Constant") || same_text(class, "ModeSetting") || same_text(
                class,
                "ExtensionDecl",
            ) || same_text(class, "FunctionStruct")),
        }
    }

    /// The item of the instruction, where it gets one.
    fn item_of(self, instruction: &Instruction) -> (item: Result<Option<ItemDecl>, ()>)
        ensures
            match item {
                Ok(Some(item)) => {
                    &&& self.accepts(instruction)
                    &&& self.selects(instruction)
                    &&& self.is_item_of(item, *instruction)
                },
                Ok(None) => self.accepts(instruction) && !self.selects(instruction),
                Err(_) => !self.accepts(instruction),
            },
    {
        if !self.is_considered(instruction) {
            return Ok(None);
        }
        let (offset, skip, ids, needs_result): (usize, Skip, Ids, bool) = match self {
            Selection::TypeVariants | Selection::TypeStructs => (6, Skip::First, Ids::Tokens, true),
            Selection::TypeConstructors => (6, Skip::First, Ids::Tokens, false),
            Selection::Structs => (2, Skip::Results, Ids::Tokens, false),
            Selection::Terminators | Selection::Instructions => (2, Skip::Results, Ids::Raw, false),
        };
        let name = match tail(instruction.opname.as_str(), offset) {
            Some(name) => name,
            None => {
                return Err(());
            },
        };
        let selected = match self {
            Selection::TypeVariants | Selection::TypeConstructors => !same_text(name, "Function"),
            Selection::TypeStructs => same_text(name, "Function"),
            Selection::Structs => true,
            Selection::Terminators => same_text(instruction.class.as_str(), "Terminator"),
            Selection::Instructions => !same_text(instruction.class.as_str(), "Terminator"),
        };
        if !selected {
            return Ok(None);
        }
        if needs_result && instruction.operands.len() == 0 {
            return Err(());
        }
        match fields_of(&instruction.operands, skip, ids) {
            Some(fields) => Ok(
                Some(ItemDecl { name: name.to_owned(), opcode: instruction.opcode, fields }),
            ),
            None => Err(()),
        }
    }

    /// The items of the list, one for each instruction that gets one, in
    /// the order of the instructions. There are none where an instruction is
    /// not in order.
    pub fn collect(self, instructions: &Vec<Instruction>) -> (items: Option<Vec<ItemDecl>>)
        ensures
            match items {
                Some(items) => {
                    &&& self.accepts_all(instructions@)
                    &&& self.are_items_of(items@, instructions@)
                },
                None => !self.accepts_all(instructions@),
            },
    {
        let mut items: Vec<ItemDecl> = Vec::new();
        let mut i: usize = 0;
        while i < instructions.len()
            invariant
                i <= instructions@.len(),
                forall|j: int| 0 <= j < i ==> self.accepts(#[trigger] &instructions@[j]),
                items@.len() == self.selected_upto(instructions@, i as int).len(),
                forall|k: int|
                    0 <= k < items@.len() ==> self.is_item_of(
                        #[trigger] items@[k],
                        self.selected_upto(instructions@, i as int)[k],
                    ),
            decreases instructions@.len() - i,
        {
            match self.item_of(&instructions[i]) {
                Ok(Some(item)) => {
                    items.push(item);
                },
                Ok(None) => {},
                Err(_) => {
                    return None;
                },
            }
            i = i + 1;
        }
        Some(items)
    }
}

/// No instruction gets an item in two of the lists of types, of structs,
/// of terminators and of plain instructions. An instruction that forms a
/// type is a variant of the enum of types or a type that stands alone, and
/// not both. An instruction of a basic block is a terminator or a plain
/// instruction, and not both.
pub proof fn lemma_selections_are_disjoint(instruction: &Instruction)
    ensures
        !(Selection::TypeVariants.selects(instruction) && Selection::TypeStructs.selects(
            instruction,
        )),
        !(Selection::Terminators.selects(instruction) && Selection::Instructions.selects(
            instruction,
        )),
        (Selection::TypeVariants.selects(instruction) || Selection::TypeStructs.selects(
            instruction,
        )) ==> !Selection::Structs.selects(instruction) && !Selection::Terminators.selects(
            instruction,
        ) && !Selection::Instructions.selects(instruction),
        Selection::Structs.selects(instruction) ==> !Selection::Terminators.selects(instruction)
            && !Selection::Instructions.selects(instruction),
        is_type_class(instruction.class@) <==> (Selection::TypeVariants.selects(instruction)
            || Selection::TypeStructs.selects(instruction)),
        is_block_class(instruction.class@) <==> (Selection::Terminators.selects(instruction)
            || Selection::Instructions.selects(instruction)),
{
    lemma_classes_are_disjoint(instruction.class@);
}

/// The variants of the enum of types, and the types that stand alone as
/// structs, each with the lift that goes with it. There are none where an
/// instruction that forms a type is not in order: its name is shorter than
/// `OpType`, it has no operand, or one of its operands has no field type.
pub fn gen_sr_types_checks_and_lifts(grammar: &Grammar) -> (decls: Option<
    (Vec<ItemDecl>, Vec<ItemDecl>),
>)
    ensures
        match decls {
            Some((variants, structs)) => {
                &&& Selection::TypeVariants.accepts_all(grammar.instructions@)
                &&& Selection::TypeStructs.accepts_all(grammar.instructions@)
                &&& Selection::TypeVariants.are_items_of(variants@, grammar.instructions@)
                &&& Selection::TypeStructs.are_items_of(structs@, grammar.instructions@)
            },
            None => !(Selection::TypeVariants.accepts_all(grammar.instructions@)
                && Selection::TypeStructs.accepts_all(grammar.instructions@)),
        },
{
    let variants = match Selection::TypeVariants.collect(&grammar.instructions) {
        Some(variants) => variants,
        None => {
            return None;
        },
    };
    let structs = match Selection::TypeStructs.collect(&grammar.instructions) {
        Some(structs) => structs,
        None => {
            return None;
        },
    };
    Some((variants, structs))
}

/// The types that the context makes on request, each with the parameters
/// of the function that makes it. There are none where an instruction among
/// them is not in order.
pub fn gen_sr_type_creation(grammar: &Grammar) -> (decls: Option<Vec<ItemDecl>>)
    ensures
        match decls {
            Some(constructors) => {
                &&& Selection::TypeConstructors.accepts_all(grammar.instructions@)
                &&& Selection::TypeConstructors.are_items_of(constructors@, grammar.instructions@)
            },
            None => !Selection::TypeConstructors.accepts_all(grammar.instructions@),
        },
{
    Selection::TypeConstructors.collect(&grammar.instructions)
}

/// The structs of the instructions that get one, each with the lift that
/// goes with it. There are none where an instruction among them is not in
/// order.
pub fn gen_sr_structs_and_lifts(grammar: &Grammar) -> (decls: Option<Vec<ItemDecl>>)
    ensures
        match decls {
            Some(structs) => {
                &&& Selection::Structs.accepts_all(grammar.instructions@)
                &&& Selection::Structs.are_items_of(structs@, grammar.instructions@)
            },
            None => !Selection::Structs.accepts_all(grammar.instructions@),
        },
{
    Selection::Structs.collect(&grammar.instructions)
}

/// The variants of the enum of terminators and those of the enum of plain
/// instructions. There are none where an instruction of a basic block is
/// not in order.
pub fn gen_sr_instruction(grammar: &Grammar) -> (decls: Option<(Vec<ItemDecl>, Vec<ItemDecl>)>)
    ensures
        match decls {
            Some((terminators, instructions)) => {
                &&& Selection::Terminators.accepts_all(grammar.instructions@)
                &&& Selection::Instructions.accepts_all(grammar.instructions@)
                &&& Selection::Terminators.are_items_of(terminators@, grammar.instructions@)
                &&& Selection::Instructions.are_items_of(instructions@, grammar.instructions@)
            },
            None => !(Selection::Terminators.accepts_all(grammar.instructions@)
                && Selection::Instructions.accepts_all(grammar.instructions@)),
        },
{
    let terminators = match Selection::Terminators.collect(&grammar.instructions) {
        Some(terminators) => terminators,
        None => {
            return None;
        },
    };
    let instructions = match Selection::Instructions.collect(&grammar.instructions) {
        Some(instructions) => instructions,
        None => {
            return None;
        },
    };
    Some((terminators, instructions))
}

/// A variant of the enum of decorations.
#[derive(Clone, Debug, PartialEq, Eq)]
pub struct EnumerantDecl {
    /// The name of the variant.
    pub symbol: String,
    /// The types of its parameters, in order.
    pub parameters: Vec<SrType>,
}

/// Whether the operand kind at `at` is the first that is called `name`.
pub open spec fn is_first_kind(kinds: Seq<OperandKind>, name: Seq<char>, at: int) -> bool {
    &&& 0 <= at < kinds.len()
    &&& kinds[at].kind@ == name
    &&& forall|before: int| 0 <= before < at ==> (#[trigger] kinds[before]).kind@ != name
}

/// Whether an operand kind is called `name`.
pub open spec fn has_kind(kinds: Seq<OperandKind>, name: Seq<char>) -> bool {
    exists|at: int| 0 <= at < kinds.len() && (#[trigger] kinds[at]).kind@ == name
}

/// The place of the first operand kind that is called `name`.
pub open spec fn first_kind(kinds: Seq<OperandKind>, name: Seq<char>) -> int {
    choose|at: int| is_first_kind(kinds, name, at)
}

/// Whether every parameter of the enumerant has a type.
pub open spec fn is_typed(enumerant: &Enumerant) -> bool {
    forall|p: int|
        0 <= p < enumerant.parameters@.len() ==> operand_type(
            (#[trigger] enumerant.parameters@[p]).kind@,
        ) is Some
}

/// Whether `decl` is the variant of `enumerant`: called as it is, with the
/// types of its parameters.
pub open spec fn is_variant_of(decl: EnumerantDecl, enumerant: Enumerant) -> bool {
    &&& decl.symbol@ == enumerant.symbol@
    &&& decl.parameters@.len() == enumerant.parameters@.len()
    &&& forall|p: int|
        0 <= p < decl.parameters@.len() ==> Some(#[trigger] decl.parameters@[p]) == operand_type(
            enumerant.parameters@[p].kind@,
        )
}

/// Whether the enum of decorations can be generated: the grammar has the
/// operand kind `Decoration`, and every parameter of its enumerants has a
/// type.
pub open spec fn has_decorations(grammar: &Grammar) -> bool {
    &&& has_kind(grammar.operand_kinds@, "Decoration"@)
    &&& forall|e: int|
        0 <= e < grammar.operand_kinds@[first_kind(
            grammar.operand_kinds@,
            "Decoration"@,
        )].enumerants@.len() ==> is_typed(
            #[trigger] &grammar.operand_kinds@[first_kind(
                grammar.operand_kinds@,
                "Decoration"@,
            )].enumerants@[e],
        )
}

/// The place of the first operand kind that is called `name`.
fn find_kind(kinds: &Vec<OperandKind>, name: &str) -> (place: Option<usize>)
    ensures
        match place {
            Some(at) => {
                &&& has_kind(kinds@, name@)
                &&& at == first_kind(kinds@, name@)
                &&& is_first_kind(kinds@, name@, at as int)
            },
            None => !has_kind(kinds@, name@),
        },
{
    let mut at: usize = 0;
    while at < kinds.len()
        invariant
            at <= kinds@.len(),
            forall|before: int| 0 <= before < at ==> (#[trigger] kinds@[before]).kind@ != name@,
        decreases kinds@.len() - at,
    {
        if same_text(kinds[at].kind.as_str(), name) {
            proof {
                let first = first_kind(kinds@, name@);
                assert(is_first_kind(kinds@, name@, at as int));
                assert(is_first_kind(kinds@, name@, first));
                if first < at {
                    assert(kinds@[first].kind@ != name@);
                }
            }
            return Some(at);
        }
        at = at + 1;
    }
    None
}

/// The variant of an enumerant, where every parameter has a type.
fn variant_of(enumerant: &Enumerant) -> (decl: Option<EnumerantDecl>)
    ensures
        match decl {
            Some(decl) => is_typed(enumerant) && is_variant_of(decl, *enumerant),
            None => !is_typed(enumerant),
        },
{
    let mut parameters: Vec<SrType> = Vec::new();
    let mut p: usize = 0;
    while p < enumerant.parameters.len()
        invariant
            p <= enumerant.parameters@.len(),
            parameters@.len() == p,
            forall|q: int|
                0 <= q < p ==> operand_type((#[trigger] enumerant.parameters@[q]).kind@) is Some,
            forall|q: int|
                0 <= q < p ==> Some(#[trigger] parameters@[q]) == operand_type(
                    enumerant.parameters@[q].kind@,
                ),
        decreases enumerant.parameters@.len() - p,
    {
        match get_operand_type_sr_tokens(enumerant.parameters[p].kind.as_str()) {
            Some(ty) => {
                parameters.push(ty);
            },
            None => {
                return None;
            },
        }
        p = p + 1;
    }
    Some(EnumerantDecl { symbol: enumerant.symbol.as_str().to_owned(), parameters })
}

/// The variants of the enum of decorations: one for each enumerant of the
/// operand kind `Decoration`, in order. There are none where the grammar
/// lacks that kind, or a parameter of an enumerant has no type.
pub fn gen_sr_decoration(grammar: &Grammar) -> (decls: Option<Vec<EnumerantDecl>>)
    ensures
        match decls {
            Some(variants) => {
                &&& has_decorations(grammar)
                &&& variants@.len() == grammar.operand_kinds@[first_kind(
                    grammar.operand_kinds@,
                    "Decoration"@,
                )].enumerants@.len()
                &&& forall|e: int|
                    0 <= e < variants@.len() ==> is_variant_of(
                        #[trigger] variants@[e],
                        grammar.operand_kinds@[first_kind(
                            grammar.operand_kinds@,
                            "Decoration"@,
                        )].enumerants@[e],
                    )
            },
            None => !has_decorations(grammar),
        },
{
    let decoration = match find_kind(&grammar.operand_kinds, "Decoration") {
        Some(at) => &grammar.operand_kinds[at],
        None => {
            return None;
        },
    };
    let mut variants: Vec<EnumerantDecl> = Vec::new();
    let mut e: usize = 0;
    while e < decoration.enumerants.len()
        invariant
            e <= decoration.enumerants@.len(),
            has_kind(grammar.operand_kinds@, "Decoration"@),
            *decoration == grammar.operand_kinds@[first_kind(
                grammar.operand_kinds@,
                "Decoration"@,
            )],
            variants@.len() == e,
            forall|d: int| 0 <= d < e ==> is_typed(#[trigger] &decoration.enumerants@[d]),
            forall|d: int|
                0 <= d < e ==> is_variant_of(#[trigger] variants@[d], decoration.enumerants@[d]),
        decreases decoration.enumerants@.len() - e,
    {
        match variant_of(&decoration.enumerants[e]) {
            Some(variant) => {
                variants.push(variant);
            },
            None => {
                assert(!is_typed(&decoration.enumerants@[e as int]));
                return None;
            },
        }
        e = e + 1;
    }
    Some(variants)
}

} // verus!
