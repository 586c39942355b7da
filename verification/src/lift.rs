//! Lifting single instructions into their structs.
//!
//! Every lift first holds the instruction to its opcode, and then decodes
//! the fields by the rules of the instruction. The first field that fails
//! decides the error. Operands that are left over are not looked at.

use vstd::prelude::*;
use crate::context::Context;
use crate::decode::run_end;
use crate::error::LiftError;
use crate::field::{
    field_start, fields_error_from, lift, lift_error, FieldKind, FieldRule, Quantifier,
};
use crate::mr::{EnumKind, Instruction, Operand, OperandKind};
use crate::opcode::{
    OP_CAPABILITY, OP_ENTRY_POINT, OP_EXECUTION_MODE, OP_FUNCTION, OP_MEMORY_MODEL, OP_TYPE_FUNCTION,
};
use crate::structs::{Capability, EntryPoint, ExecutionMode, Function, MemoryModel};
use crate::token::Token;
use crate::types;

verus! {

/// The word that the operand holds, and zero where it holds none.
pub open spec fn word_of(operand: Operand) -> u32 {
    match operand.spec_word() {
        Some(word) => word,
        None => 0,
    }
}

/// The rule of a required field of one operand of kind `kind`.
pub open spec fn one(kind: OperandKind) -> FieldRule {
    FieldRule { kind: FieldKind::Single(kind), quantifier: Quantifier::Required }
}

/// The rule of a repeated field of operands of kind `kind`.
pub open spec fn many(kind: OperandKind) -> FieldRule {
    FieldRule { kind: FieldKind::Single(kind), quantifier: Quantifier::Repeated }
}

/// The rules of the fields of a capability instruction.
pub open spec fn capability_rules() -> Seq<FieldRule> {
    seq![
        one(OperandKind::Enumerant(EnumKind::Capability)),
    ]
}

/// The rules of the fields of a memory model instruction.
pub open spec fn memory_model_rules() -> Seq<FieldRule> {
    seq![
        one(OperandKind::Enumerant(EnumKind::AddressingModel)),
        one(OperandKind::Enumerant(EnumKind::MemoryModel)),
    ]
}

/// The rules of the fields of an entry point instruction.
pub open spec fn entry_point_rules() -> Seq<FieldRule> {
    seq![
        one(OperandKind::Enumerant(EnumKind::ExecutionModel)),
        one(OperandKind::IdRef),
        one(OperandKind::LiteralString),
        many(OperandKind::IdRef),
    ]
}

/// The rules of the fields of an execution mode instruction.
pub open spec fn execution_mode_rules() -> Seq<FieldRule> {
    seq![
        one(OperandKind::IdRef),
        one(OperandKind::Enumerant(EnumKind::ExecutionMode)),
    ]
}

/// The rules of the fields of the instruction that opens a function.
pub open spec fn function_rules() -> Seq<FieldRule> {
    seq![
        one(OperandKind::Enumerant(EnumKind::FunctionControl)),
        one(OperandKind::IdRef),
    ]
}

/// The rules of the fields of the instruction that defines a function type.
pub open spec fn type_function_rules() -> Seq<FieldRule> {
    seq![
        one(OperandKind::IdRef),
        many(OperandKind::IdRef),
    ]
}

/// Whether `tokens` stand for the ids that `operands` holds from `from` up
/// to `end`, in order.
pub open spec fn tokens_stand_for<T>(
    tokens: Seq<Token<T>>,
    operands: Seq<Operand>,
    from: int,
    end: int,
) -> bool {
    &&& tokens.len() == end - from
    &&& forall|i: int| 0 <= i < tokens.len() ==> (#[trigger] tokens[i])@ == word_of(operands[from + i])
}

/// Whether `lifted` is the capability that `raw` declares.
pub open spec fn is_capability_of(lifted: Capability, raw: &Instruction) -> bool {
    lifted.capability == word_of(raw.operands@[0])
}

/// Whether `lifted` is the memory model that `raw` declares.
pub open spec fn is_memory_model_of(lifted: MemoryModel, raw: &Instruction) -> bool {
    &&& lifted.addressing_model == word_of(raw.operands@[0])
    &&& lifted.memory_model == word_of(raw.operands@[1])
}

/// Whether `lifted` is the entry point that `raw` declares: its execution
/// model, its function, its name, and the ids of its interface, which are
/// the run of ids after the name.
pub open spec fn is_entry_point_of(lifted: EntryPoint, raw: &Instruction) -> bool {
    &&& lifted.execution_model == word_of(raw.operands@[0])
    &&& lifted.entry_point@ == word_of(raw.operands@[1])
    &&& Some(lifted.name@) == raw.operands@[2].spec_text()
    &&& tokens_stand_for(
        lifted.interface@,
        raw.operands@,
        3,
        run_end(raw.operands@, 3, OperandKind::IdRef),
    )
}

/// Whether `lifted` is the execution mode that `raw` declares.
pub open spec fn is_execution_mode_of(lifted: ExecutionMode, raw: &Instruction) -> bool {
    &&& lifted.entry_point@ == word_of(raw.operands@[0])
    &&& lifted.mode == word_of(raw.operands@[1])
}

/// Whether `lifted` is what `raw`, the instruction that opens a function,
/// says of it.
pub open spec fn is_function_of(lifted: Function, raw: &Instruction) -> bool {
    &&& lifted.function_control == word_of(raw.operands@[0])
    &&& lifted.function_type@ == word_of(raw.operands@[1])
}

/// Whether `lifted` is the function type that `raw` defines: the type of
/// the result, and the types of the parameters, which are the run of ids
/// after it. A lifted function type has no decorations.
pub open spec fn is_type_function_of(lifted: types::Function, raw: &Instruction) -> bool {
    &&& lifted.decorations@.len() == 0
    &&& lifted.return_type@ == word_of(raw.operands@[0])
    &&& tokens_stand_for(
        lifted.parameter_types@,
        raw.operands@,
        1,
        run_end(raw.operands@, 1, OperandKind::IdRef),
    )
}

/// The rule of a required field of one operand of kind `kind`.
fn required_one(kind: OperandKind) -> (rule: FieldRule)
    ensures
        rule == one(kind),
{
    FieldRule { kind: FieldKind::Single(kind), quantifier: Quantifier::Required }
}

/// The rule of a repeated field of operands of kind `kind`.
fn repeated_many(kind: OperandKind) -> (rule: FieldRule)
    ensures
        rule == many(kind),
{
    FieldRule { kind: FieldKind::Single(kind), quantifier: Quantifier::Repeated }
}

/// The word of a field of one operand, and zero where the operand holds
/// none.
fn word(field: &[Operand]) -> (word: u32)
    requires
        field@.len() == 1,
    ensures
        word == word_of(field@[0]),
{
    match field[0].word() {
        Some(word) => word,
        None => 0,
    }
}

/// The token of a field of one id.
fn token<T>(field: &[Operand]) -> (token: Token<T>)
    requires
        field@.len() == 1,
    ensures
        token@ == word_of(field@[0]),
{
    Token::new(word(field))
}

/// The characters of a field of one literal string, and none for another
/// operand.
fn text(field: &[Operand]) -> (text: String)
    requires
        field@.len() == 1,
    ensures
        field@[0].spec_text() is Some ==> field@[0].spec_text() == Some(text@),
{
    match field[0].text() {
        Some(text) => text.to_owned(),
        None => String::new(),
    }
}

/// The tokens of a field of ids.
fn tokens<T>(field: &[Operand]) -> (tokens: Vec<Token<T>>)
    ensures
        tokens_stand_for(tokens@, field@, 0, field@.len() as int),
{
    let mut tokens: Vec<Token<T>> = Vec::new();
    let mut i: usize = 0;
    while i < field.len()
        invariant
            i <= field@.len(),
            tokens_stand_for(tokens@, field@, 0, i as int),
        decreases field@.len() - i,
    {
        let word = match field[i].word() {
            Some(word) => word,
            None => 0,
        };
        tokens.push(Token::new(word));
        i = i + 1;
    }
    tokens
}

/// Where the first `count` fields are required fields of one operand each,
/// they and the field after them start one operand after another.
proof fn lemma_fields_in_a_row(operands: Seq<Operand>, rules: Seq<FieldRule>, count: int)
    requires
        0 <= count <= rules.len(),
        forall|i: int|
            0 <= i < count ==> (#[trigger] rules[i]).quantifier == Quantifier::Required
                && rules[i].kind is Single,
    ensures
        forall|i: int| 0 <= i <= count ==> #[trigger] field_start(operands, rules, i) == i,
    decreases count,
{
    if count > 0 {
        lemma_fields_in_a_row(operands, rules, count - 1);
        assert(rules[count - 1].len_at(operands, count - 1) == 1);
        assert(field_start(operands, rules, count - 1) == count - 1);
        assert(field_start(operands, rules, count) == count);
    }
}

impl Context {
    /// Lifts a capability instruction.
    pub fn lift_capability(&mut self, raw: &Instruction) -> (lifted: Result<Capability, LiftError>)
        ensures
            *final(self) == *old(self),
            raw.opcode != OP_CAPABILITY ==> lifted == Err::<Capability, LiftError>(LiftError::OpCode),
            match lifted {
                Ok(capability) => {
                    &&& lift_error(raw, OP_CAPABILITY, capability_rules()) is None
                    &&& is_capability_of(capability, raw)
                },
                Err(error) => lift_error(raw, OP_CAPABILITY, capability_rules()) == Some(error),
            },
    {
        let mut rules: Vec<FieldRule> = Vec::new();
        rules.push(required_one(OperandKind::Enumerant(EnumKind::Capability)));
        assert(rules@ == capability_rules());
        let fields = match lift(raw, OP_CAPABILITY, rules.as_slice()) {
            Ok(fields) => fields,
            Err(error) => {
                return Err(error);
            },
        };
        proof {
            lemma_fields_in_a_row(raw.operands@, rules@, 1);
        }
        let capability = word(fields[0]);
        Ok(Capability { capability })
    }

    /// Lifts a memory model instruction.
    pub fn lift_memory_model(
        &mut self,
        raw: &Instruction,
    ) -> (lifted: Result<MemoryModel, LiftError>)
        ensures
            *final(self) == *old(self),
            raw.opcode != OP_MEMORY_MODEL ==> lifted == Err::<MemoryModel, LiftError>(LiftError::OpCode),
            match lifted {
                Ok(model) => {
                    &&& lift_error(raw, OP_MEMORY_MODEL, memory_model_rules()) is None
                    &&& is_memory_model_of(model, raw)
                },
                Err(error) => lift_error(raw, OP_MEMORY_MODEL, memory_model_rules()) == Some(error),
            },
    {
        let mut rules: Vec<FieldRule> = Vec::new();
        rules.push(required_one(OperandKind::Enumerant(EnumKind::AddressingModel)));
        rules.push(required_one(OperandKind::Enumerant(EnumKind::MemoryModel)));
        assert(rules@ == memory_model_rules());
        let fields = match lift(raw, OP_MEMORY_MODEL, rules.as_slice()) {
            Ok(fields) => fields,
            Err(error) => {
                return Err(error);
            },
        };
        proof {
            lemma_fields_in_a_row(raw.operands@, rules@, 2);
        }
        let addressing_model = word(fields[0]);
        let memory_model = word(fields[1]);
        Ok(MemoryModel { addressing_model, memory_model })
    }

    /// Lifts an entry point instruction.
    pub fn lift_entry_point(&mut self, raw: &Instruction) -> (lifted: Result<EntryPoint, LiftError>)
        ensures
            *final(self) == *old(self),
            raw.opcode != OP_ENTRY_POINT ==> lifted matches Err(LiftError::OpCode),
            match lifted {
                Ok(entry_point) => {
                    &&& lift_error(raw, OP_ENTRY_POINT, entry_point_rules()) is None
                    &&& is_entry_point_of(entry_point, raw)
                },
                Err(error) => lift_error(raw, OP_ENTRY_POINT, entry_point_rules()) == Some(error),
            },
    {
        let mut rules: Vec<FieldRule> = Vec::new();
        rules.push(required_one(OperandKind::Enumerant(EnumKind::ExecutionModel)));
        rules.push(required_one(OperandKind::IdRef));
        rules.push(required_one(OperandKind::LiteralString));
        rules.push(repeated_many(OperandKind::IdRef));
        assert(rules@ == entry_point_rules());
        let fields = match lift(raw, OP_ENTRY_POINT, rules.as_slice()) {
            Ok(fields) => fields,
            Err(error) => {
                return Err(error);
            },
        };
        proof {
            reveal_with_fuel(fields_error_from, 4);
            lemma_fields_in_a_row(raw.operands@, rules@, 3);
        }
        let execution_model = word(fields[0]);
        let entry_point = token(fields[1]);
        let name = text(fields[2]);
        let interface = tokens(fields[3]);
        proof {
            assert forall|i: int| 0 <= i < interface@.len() implies (#[trigger] interface@[i])@ == word_of(
                raw.operands@[3 + i],
            ) by {
                assert(fields@[3]@[0 + i] == raw.operands@[3 + i]);
            }
        }
        Ok(EntryPoint { execution_model, entry_point, name, interface })
    }

    /// Lifts an execution mode instruction.
    pub fn lift_execution_mode(
        &mut self,
        raw: &Instruction,
    ) -> (lifted: Result<ExecutionMode, LiftError>)
        ensures
            *final(self) == *old(self),
            raw.opcode != OP_EXECUTION_MODE ==> lifted matches Err(LiftError::OpCode),
            match lifted {
                Ok(mode) => {
                    &&& lift_error(raw, OP_EXECUTION_MODE, execution_mode_rules()) is None
                    &&& is_execution_mode_of(mode, raw)
                },
                Err(error) => lift_error(raw, OP_EXECUTION_MODE, execution_mode_rules()) == Some(error),
            },
    {
        let mut rules: Vec<FieldRule> = Vec::new();
        rules.push(required_one(OperandKind::IdRef));
        rules.push(required_one(OperandKind::Enumerant(EnumKind::ExecutionMode)));
        assert(rules@ == execution_mode_rules());
        let fields = match lift(raw, OP_EXECUTION_MODE, rules.as_slice()) {
            Ok(fields) => fields,
            Err(error) => {
                return Err(error);
            },
        };
        proof {
            lemma_fields_in_a_row(raw.operands@, rules@, 2);
        }
        let entry_point = token(fields[0]);
        let mode = word(fields[1]);
        Ok(ExecutionMode { entry_point, mode })
    }

    /// Lifts the instruction that opens a function.
    pub fn lift_function(&mut self, raw: &Instruction) -> (lifted: Result<Function, LiftError>)
        ensures
            *final(self) == *old(self),
            raw.opcode != OP_FUNCTION ==> lifted matches Err(LiftError::OpCode),
            match lifted {
                Ok(function) => {
                    &&& lift_error(raw, OP_FUNCTION, function_rules()) is None
                    &&& is_function_of(function, raw)
                },
                Err(error) => lift_error(raw, OP_FUNCTION, function_rules()) == Some(error),
            },
    {
        let mut rules: Vec<FieldRule> = Vec::new();
        rules.push(required_one(OperandKind::Enumerant(EnumKind::FunctionControl)));
        rules.push(required_one(OperandKind::IdRef));
        assert(rules@ == function_rules());
        let fields = match lift(raw, OP_FUNCTION, rules.as_slice()) {
            Ok(fields) => fields,
            Err(error) => {
                return Err(error);
            },
        };
        proof {
            lemma_fields_in_a_row(raw.operands@, rules@, 2);
        }
        let function_control = word(fields[0]);
        let function_type = token(fields[1]);
        Ok(Function { function_control, function_type })
    }

    /// Lifts the instruction that defines a function type.
    pub fn lift_type_function(
        &mut self,
        raw: &Instruction,
    ) -> (lifted: Result<types::Function, LiftError>)
        ensures
            *final(self) == *old(self),
            raw.opcode != OP_TYPE_FUNCTION ==> lifted matches Err(LiftError::OpCode),
            match lifted {
                Ok(function) => {
                    &&& lift_error(raw, OP_TYPE_FUNCTION, type_function_rules()) is None
                    &&& is_type_function_of(function, raw)
                },
                Err(error) => lift_error(raw, OP_TYPE_FUNCTION, type_function_rules()) == Some(error),
            },
    {
        let mut rules: Vec<FieldRule> = Vec::new();
        rules.push(required_one(OperandKind::IdRef));
        rules.push(repeated_many(OperandKind::IdRef));
        assert(rules@ == type_function_rules());
        let fields = match lift(raw, OP_TYPE_FUNCTION, rules.as_slice()) {
            Ok(fields) => fields,
            Err(error) => {
                return Err(error);
            },
        };
        proof {
            lemma_fields_in_a_row(raw.operands@, rules@, 1);
        }
        let return_type = token(fields[0]);
        let parameter_types = tokens(fields[1]);
        proof {
            assert forall|i: int| 0 <= i < parameter_types@.len() implies (#[trigger] parameter_types@[i])@ == word_of(
                raw.operands@[1 + i],
            ) by {
                assert(fields@[1]@[0 + i] == raw.operands@[1 + i]);
            }
        }
        Ok(types::Function { decorations: Vec::new(), return_type, parameter_types })
    }
}

} // verus!
