//! Lifting by table: the fields of an instruction as a list of rules.
//!
//! A rule says of one field what its operands are and how many it takes.
//! With the rules of an instruction in hand, one function lifts every
//! instruction: it takes the operands apart, field by field, and hands each
//! field back as the part of the operand list that it covers.

use vstd::prelude::*;
use crate::decode::{
    clamp, optional, optional_pair, pair_error, pair_matches_at, pair_run_count, matches_at,
    repeated, repeated_pair, required, required_pair, run_end,
};
use crate::error::{LiftError, OperandError};
use crate::mr::{Instruction, Operand, OperandKind};

verus! {

/// How many times a field may stand in the operand list.
#[derive(Clone, Copy, Debug, PartialEq, Eq, Structural)]
pub enum Quantifier {
    /// Exactly once.
    Required,
    /// Once or not at all.
    Optional,
    /// Any number of times.
    Repeated,
}

/// What one item of a field is made of.
#[derive(Clone, Copy, Debug, PartialEq, Eq, Structural)]
pub enum FieldKind {
    /// One operand.
    Single(OperandKind),
    /// Two operands that belong together.
    Pair(OperandKind, OperandKind),
}

impl FieldKind {
    /// Whether a field of this kind can be decoded from the operand list
    /// alone.
    pub open spec fn spec_is_decodable(self) -> bool {
        match self {
            FieldKind::Single(kind) => kind.is_decodable(),
            FieldKind::Pair(first, second) => first.is_decodable() && second.is_decodable(),
        }
    }

    /// Whether a field of this kind can be decoded from the operand list
    /// alone.
    #[verifier::when_used_as_spec(spec_is_decodable)]
    pub fn is_decodable(self) -> (decodable: bool)
        ensures
            decodable == self.spec_is_decodable(),
    {
        match self {
            FieldKind::Single(kind) => kind.is_decodable(),
            FieldKind::Pair(first, second) => first.is_decodable() && second.is_decodable(),
        }
    }

    /// How many operands one item takes.
    pub open spec fn width(self) -> int {
        match self {
            FieldKind::Single(_) => 1,
            FieldKind::Pair(_, _) => 2,
        }
    }

    /// Whether an item of this kind stands at `at`.
    pub open spec fn stands_at(self, operands: Seq<Operand>, at: int) -> bool {
        match self {
            FieldKind::Single(kind) => matches_at(operands, at, kind),
            FieldKind::Pair(first, second) => pair_matches_at(operands, at, first, second),
        }
    }

    /// Why no item of this kind stands at `at`, where none does.
    pub open spec fn error_at(self, operands: Seq<Operand>, at: int) -> OperandError {
        match self {
            FieldKind::Single(_) => if at >= operands.len() {
                OperandError::Missing
            } else {
                OperandError::Wrong
            },
            FieldKind::Pair(first, second) => pair_error(operands, at, first, second),
        }
    }

    /// How many operands the longest run of items of this kind that starts
    /// at `at` takes.
    pub open spec fn run_len(self, operands: Seq<Operand>, at: int) -> int {
        match self {
            FieldKind::Single(kind) => run_end(operands, at, kind) - at,
            FieldKind::Pair(first, second) => 2 * pair_run_count(operands, at, first, second),
        }
    }
}

/// The rule of one field.
#[derive(Clone, Copy, Debug, PartialEq, Eq, Structural)]
pub struct FieldRule {
    pub kind: FieldKind,
    pub quantifier: Quantifier,
}

impl FieldRule {
    /// Why the field cannot be decoded at `at`, and nothing where it can.
    /// Only a required field can fail.
    pub open spec fn error_at(self, operands: Seq<Operand>, at: int) -> Option<OperandError> {
        match self.quantifier {
            Quantifier::Required => if self.kind.stands_at(operands, at) {
                None
            } else {
                Some(self.kind.error_at(operands, at))
            },
            Quantifier::Optional => None,
            Quantifier::Repeated => None,
        }
    }

    /// How many operands the field takes at `at`, where it can be decoded.
    pub open spec fn len_at(self, operands: Seq<Operand>, at: int) -> int {
        match self.quantifier {
            Quantifier::Required => self.kind.width(),
            Quantifier::Optional => if self.kind.stands_at(operands, at) {
                self.kind.width()
            } else {
                0
            },
            Quantifier::Repeated => self.kind.run_len(operands, at),
        }
    }
}

/// Takes one item of kind `kind` from the list if one stands at the cursor,
/// and nothing otherwise.
pub fn lift_operand_simple<'a>(operands: &'a [Operand], cursor: &mut usize, kind: FieldKind) -> (item: Option<
    &'a [Operand],
>)
    requires
        kind.is_decodable(),
    ensures
        match item {
            Some(item) => {
                &&& kind.stands_at(operands@, *old(cursor) as int)
                &&& item@ == operands@.subrange(*old(cursor) as int, *old(cursor) + kind.width())
                &&& *final(cursor) == *old(cursor) + kind.width()
            },
            None => {
                &&& !kind.stands_at(operands@, *old(cursor) as int)
                &&& *final(cursor) == *old(cursor)
            },
        },
{
    let from: usize = *cursor;
    match kind {
        FieldKind::Single(kind) => match optional(operands, cursor, kind) {
            Some(_) => Some(&operands[from..from + 1]),
            None => None,
        },
        FieldKind::Pair(first, second) => match optional_pair(operands, cursor, first, second) {
            Some(_) => Some(&operands[from..from + 2]),
            None => None,
        },
    }
}

/// Decodes the field of the rule `rule` at the cursor. The field comes back
/// as the part of the list that it covers: one item for a required field,
/// one or none for an optional field, the longest run of items for a
/// repeated field.
///
/// Only a required field can fail: `Missing` where the list ends before the
/// item does, `Wrong` where an operand is of another kind.
pub fn lift_operand_complex<'a>(operands: &'a [Operand], cursor: &mut usize, rule: FieldRule) -> (field: Result<
    &'a [Operand],
    OperandError,
>)
    requires
        rule.kind.is_decodable(),
    ensures
        match field {
            Ok(field) => {
                &&& rule.error_at(operands@, clamp(operands@, *old(cursor))) is None
                &&& field@.len() == rule.len_at(operands@, clamp(operands@, *old(cursor)))
                &&& clamp(operands@, *old(cursor)) + field@.len() <= operands@.len()
                &&& field@ == operands@.subrange(
                    clamp(operands@, *old(cursor)),
                    clamp(operands@, *old(cursor)) + field@.len(),
                )
                &&& *final(cursor) == *old(cursor) + field@.len()
            },
            Err(error) => {
                &&& rule.error_at(operands@, clamp(operands@, *old(cursor))) == Some(error)
                &&& *final(cursor) == *old(cursor)
            },
        },
{
    if *cursor > operands.len() {
        let mut end: usize = operands.len();
        decode_field(operands, &mut end, rule)
    } else {
        decode_field(operands, cursor, rule)
    }
}

/// Decodes the field of the rule `rule` at a cursor that stands in the list.
fn decode_field<'a>(operands: &'a [Operand], cursor: &mut usize, rule: FieldRule) -> (field: Result<
    &'a [Operand],
    OperandError,
>)
    requires
        rule.kind.is_decodable(),
        *old(cursor) <= operands@.len(),
    ensures
        match field {
            Ok(field) => {
                &&& rule.error_at(operands@, *old(cursor) as int) is None
                &&& field@.len() == rule.len_at(operands@, *old(cursor) as int)
                &&& *old(cursor) + field@.len() <= operands@.len()
                &&& field@ == operands@.subrange(*old(cursor) as int, *old(cursor) + field@.len())
                &&& *final(cursor) == *old(cursor) + field@.len()
            },
            Err(error) => {
                &&& rule.error_at(operands@, *old(cursor) as int) == Some(error)
                &&& *final(cursor) == *old(cursor)
            },
        },
{
    let from: usize = *cursor;
    match rule.quantifier {
        Quantifier::Required => match rule.kind {
            FieldKind::Single(kind) => match required(operands, cursor, kind) {
                Ok(_) => Ok(&operands[from..from + 1]),
                Err(error) => Err(error),
            },
            FieldKind::Pair(first, second) => match required_pair(operands, cursor, first, second) {
                Ok(_) => Ok(&operands[from..from + 2]),
                Err(error) => Err(error),
            },
        },
        Quantifier::Optional => match lift_operand_simple(operands, cursor, rule.kind) {
            Some(item) => Ok(item),
            None => Ok(&operands[from..from]),
        },
        Quantifier::Repeated => match rule.kind {
            FieldKind::Single(kind) => Ok(repeated(operands, cursor, kind)),
            FieldKind::Pair(first, second) => Ok(repeated_pair(operands, cursor, first, second)),
        },
    }
}

/// Where the field at `index` starts, where the fields before it can be
/// decoded: the first field at the head of the list, each other field where
/// the field before it ends.
pub open spec fn field_start(operands: Seq<Operand>, rules: Seq<FieldRule>, index: int) -> int
    decreases index,
{
    if index <= 0 {
        0
    } else {
        let before = field_start(operands, rules, index - 1);
        before + rules[index - 1].len_at(operands, before)
    }
}

/// Why the fields from the one at `index` on cannot be decoded from `at` on:
/// what the first field that fails says, and nothing where none fails.
pub open spec fn fields_error_from(
    operands: Seq<Operand>,
    rules: Seq<FieldRule>,
    index: int,
    at: int,
) -> Option<OperandError>
    decreases rules.len() - index,
{
    if index < 0 || index >= rules.len() {
        None
    } else {
        match rules[index].error_at(operands, at) {
            Some(error) => Some(error),
            None => fields_error_from(
                operands,
                rules,
                index + 1,
                at + rules[index].len_at(operands, at),
            ),
        }
    }
}

/// Why the lift for `opcode`, whose fields follow the rules `rules`, cannot
/// lift `raw`: the opcode is another; or one of the fields cannot be decoded,
/// of which the first decides.
pub open spec fn lift_error(raw: &Instruction, opcode: u32, rules: Seq<FieldRule>) -> Option<
    LiftError,
> {
    if raw.opcode != opcode {
        Some(LiftError::OpCode)
    } else {
        match fields_error_from(raw.operands@, rules, 0, 0) {
            Some(error) => Some(LiftError::Operand(error)),
            None => None,
        }
    }
}

/// Lifts an instruction by the table: holds it to `opcode`, and decodes its
/// fields by the rules `rules`, in order. Each field comes back as the part
/// of the operand list that it covers. Operands that are left over are not
/// looked at.
pub fn lift<'a>(raw: &'a Instruction, opcode: u32, rules: &[FieldRule]) -> (lifted: Result<
    Vec<&'a [Operand]>,
    LiftError,
>)
    requires
        forall|i: int| 0 <= i < rules@.len() ==> (#[trigger] rules@[i]).kind.is_decodable(),
    ensures
        raw.opcode != opcode ==> lifted matches Err(LiftError::OpCode),
        match lifted {
            Ok(fields) => {
                &&& lift_error(raw, opcode, rules@) is None
                &&& fields@.len() == rules@.len()
                &&& forall|i: int|
                    0 <= i < fields@.len() ==> (#[trigger] fields@[i])@ == raw.operands@.subrange(
                        field_start(raw.operands@, rules@, i),
                        field_start(raw.operands@, rules@, i + 1),
                    )
                &&& forall|i: int|
                    #![trigger field_start(raw.operands@, rules@, i)]
                    0 <= i < fields@.len() ==> 0 <= field_start(raw.operands@, rules@, i)
                        <= field_start(raw.operands@, rules@, i + 1) <= raw.operands@.len()
            },
            Err(error) => lift_error(raw, opcode, rules@) == Some(error),
        },
{
    if raw.opcode != opcode {
        return Err(LiftError::OpCode);
    }
    let operands = raw.operands.as_slice();
    let mut fields: Vec<&'a [Operand]> = Vec::new();
    let mut cursor: usize = 0;
    let mut index: usize = 0;
    while index < rules.len()
        invariant
            index <= rules@.len(),
            raw.opcode == opcode,
            operands@ == raw.operands@,
            cursor <= operands@.len(),
            cursor == field_start(operands@, rules@, index as int),
            fields@.len() == index,
            fields_error_from(operands@, rules@, 0, 0) == fields_error_from(
                operands@,
                rules@,
                index as int,
                cursor as int,
            ),
            forall|i: int| 0 <= i < rules@.len() ==> (#[trigger] rules@[i]).kind.is_decodable(),
            forall|i: int|
                0 <= i < index ==> (#[trigger] fields@[i])@ == operands@.subrange(
                    field_start(operands@, rules@, i),
                    field_start(operands@, rules@, i + 1),
                ),
            forall|i: int|
                #![trigger field_start(operands@, rules@, i)]
                0 <= i < index ==> 0 <= field_start(operands@, rules@, i) <= field_start(
                    operands@,
                    rules@,
                    i + 1,
                ) <= operands@.len(),
        decreases rules@.len() - index,
    {
        match lift_operand_complex(operands, &mut cursor, rules[index]) {
            Ok(field) => {
                fields.push(field);
            },
            Err(error) => {
                return Err(LiftError::Operand(error));
            },
        }
        index = index + 1;
    }
    Ok(fields)
}

} // verus!
