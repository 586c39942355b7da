//! Decoding fields from the operand list of an instruction.
//!
//! The operands of an instruction are one flat list. A field takes its
//! operands from the list at a cursor and moves the cursor past them. How
//! many operands a field takes is a matter of its quantifier: a required
//! field takes one, an optional field one or none, a repeated field as many
//! as match. A field of pairs takes its operands two at a time.
//!
//! A field fails as a whole: where a function here returns an error, the
//! cursor is where it was.

use vstd::prelude::*;
use crate::error::OperandError;
use crate::mr::{Operand, OperandKind};

verus! {

/// Whether the operand at `at` exists and is of kind `kind`.
pub open spec fn matches_at(operands: Seq<Operand>, at: int, kind: OperandKind) -> bool {
    0 <= at < operands.len() && operands[at].spec_kind() == kind
}

/// Whether `from..end` is the longest run of operands of kind `kind` that
/// starts at `from`.
pub open spec fn is_run(operands: Seq<Operand>, from: int, end: int, kind: OperandKind) -> bool {
    &&& from <= end
    &&& forall|i: int| from <= i < end ==> matches_at(operands, i, kind)
    &&& !matches_at(operands, end, kind)
}

/// Where the longest run of operands of kind `kind` that starts at `from`
/// ends.
pub open spec fn run_end(operands: Seq<Operand>, from: int, kind: OperandKind) -> int {
    choose|end: int| is_run(operands, from, end, kind)
}

/// A run has one end.
pub proof fn lemma_run_end(operands: Seq<Operand>, from: int, end: int, kind: OperandKind)
    requires
        is_run(operands, from, end, kind),
    ensures
        run_end(operands, from, kind) == end,
{
    let other = run_end(operands, from, kind);
    assert(is_run(operands, from, other, kind));
    if other < end {
        assert(matches_at(operands, other, kind));
    } else if end < other {
        assert(matches_at(operands, end, kind));
    }
}

/// Where a cursor stands once it is brought into the list.
pub open spec fn clamp(operands: Seq<Operand>, cursor: usize) -> int {
    if cursor <= operands.len() {
        cursor as int
    } else {
        operands.len() as int
    }
}

/// What a required field of kind `kind` yields at `at`: the operand there,
/// or why there is none of that kind.
pub open spec fn required_at(operands: Seq<Operand>, at: int, kind: OperandKind) -> Result<
    Operand,
    OperandError,
> {
    if at >= operands.len() {
        Err(OperandError::Missing)
    } else if operands[at].spec_kind() != kind {
        Err(OperandError::Wrong)
    } else {
        Ok(operands[at])
    }
}

/// Decodes a required field: the operand at the cursor, which must be of
/// kind `kind`. No operand left is `Missing`; an operand of another kind is
/// `Wrong`.
pub fn required<'a>(operands: &'a [Operand], cursor: &mut usize, kind: OperandKind) -> (field: Result<
    &'a Operand,
    OperandError,
>)
    requires
        kind.is_decodable(),
    ensures
        match field {
            Ok(operand) => {
                &&& required_at(operands@, *old(cursor) as int, kind) == Ok::<Operand, OperandError>(
                    *operand,
                )
                &&& *final(cursor) == *old(cursor) + 1
            },
            Err(error) => {
                &&& required_at(operands@, *old(cursor) as int, kind) == Err::<Operand, OperandError>(
                    error,
                )
                &&& *final(cursor) == *old(cursor)
            },
        },
{
    if *cursor >= operands.len() {
        return Err(OperandError::Missing);
    }
    let operand = &operands[*cursor];
    if operand.kind() == kind {
        *cursor = *cursor + 1;
        Ok(operand)
    } else {
        Err(OperandError::Wrong)
    }
}

/// Decodes an optional field: the operand at the cursor if it is of kind
/// `kind`, and nothing otherwise.
pub fn optional<'a>(operands: &'a [Operand], cursor: &mut usize, kind: OperandKind) -> (field: Option<
    &'a Operand,
>)
    requires
        kind.is_decodable(),
    ensures
        match field {
            Some(operand) => {
                &&& matches_at(operands@, *old(cursor) as int, kind)
                &&& *operand == operands@[*old(cursor) as int]
                &&& *final(cursor) == *old(cursor) + 1
            },
            None => {
                &&& !matches_at(operands@, *old(cursor) as int, kind)
                &&& *final(cursor) == *old(cursor)
            },
        },
{
    if *cursor >= operands.len() {
        return None;
    }
    let operand = &operands[*cursor];
    if operand.kind() == kind {
        *cursor = *cursor + 1;
        Some(operand)
    } else {
        None
    }
}

/// Decodes a repeated field: the longest run of operands of kind `kind`
/// that starts at the cursor.
pub fn repeated<'a>(
    operands: &'a [Operand],
    cursor: &mut usize,
    kind: OperandKind,
) -> (field: &'a [Operand])
    requires
        kind.is_decodable(),
    ensures
        clamp(operands@, *old(cursor)) + field@.len() <= operands@.len(),
        clamp(operands@, *old(cursor)) + field@.len() == run_end(
            operands@,
            clamp(operands@, *old(cursor)),
            kind,
        ),
        is_run(
            operands@,
            clamp(operands@, *old(cursor)),
            clamp(operands@, *old(cursor)) + field@.len(),
            kind,
        ),
        field@ == operands@.subrange(
            clamp(operands@, *old(cursor)),
            clamp(operands@, *old(cursor)) + field@.len(),
        ),
        *old(cursor) <= operands@.len() ==> *final(cursor) == *old(cursor) + field@.len(),
        *old(cursor) > operands@.len() ==> *final(cursor) == *old(cursor),
{
    if *cursor >= operands.len() {
        proof {
            lemma_run_end(operands@, operands@.len() as int, operands@.len() as int, kind);
        }
        return &operands[operands.len()..operands.len()];
    }
    let from: usize = *cursor;
    let mut end: usize = from;
    while end < operands.len() && operands[end].kind() == kind
        invariant
            from <= end <= operands@.len(),
            forall|i: int| from <= i < end ==> matches_at(operands@, i, kind),
        decreases operands@.len() - end,
    {
        end = end + 1;
    }
    *cursor = end;
    proof {
        lemma_run_end(operands@, from as int, end as int, kind);
    }
    &operands[from..end]
}

/// Whether the operands at `at` and after it exist and are of the kinds
/// `first` and `second`.
pub open spec fn pair_matches_at(
    operands: Seq<Operand>,
    at: int,
    first: OperandKind,
    second: OperandKind,
) -> bool {
    matches_at(operands, at, first) && matches_at(operands, at + 1, second)
}

/// Why no pair of the kinds `first` and `second` stands at `at`, where none
/// does: the first of the two operands that is absent or of another kind
/// decides.
pub open spec fn pair_error(
    operands: Seq<Operand>,
    at: int,
    first: OperandKind,
    second: OperandKind,
) -> OperandError {
    if at >= operands.len() {
        OperandError::Missing
    } else if operands[at].spec_kind() != first {
        OperandError::Wrong
    } else if at + 1 >= operands.len() {
        OperandError::Missing
    } else {
        OperandError::Wrong
    }
}

/// Whether `count` pairs, and no more, stand in a row from `from` on.
pub open spec fn is_pair_run(
    operands: Seq<Operand>,
    from: int,
    count: int,
    first: OperandKind,
    second: OperandKind,
) -> bool {
    &&& 0 <= count
    &&& forall|i: int|
        0 <= i < count ==> #[trigger] pair_matches_at(operands, from + 2 * i, first, second)
    &&& !pair_matches_at(operands, from + 2 * count, first, second)
}

/// How many pairs stand in a row from `from` on.
pub open spec fn pair_run_count(
    operands: Seq<Operand>,
    from: int,
    first: OperandKind,
    second: OperandKind,
) -> int {
    choose|count: int| is_pair_run(operands, from, count, first, second)
}

/// A run of pairs has one length.
pub proof fn lemma_pair_run_count(
    operands: Seq<Operand>,
    from: int,
    count: int,
    first: OperandKind,
    second: OperandKind,
)
    requires
        is_pair_run(operands, from, count, first, second),
    ensures
        pair_run_count(operands, from, first, second) == count,
{
    let other = pair_run_count(operands, from, first, second);
    assert(is_pair_run(operands, from, other, first, second));
    if other < count {
        assert(pair_matches_at(operands, from + 2 * other, first, second));
    } else if count < other {
        assert(pair_matches_at(operands, from + 2 * count, first, second));
    }
}

/// Decodes a required field of pairs: the two operands at the cursor, which
/// must be of the kinds `first` and `second`.
pub fn required_pair<'a>(
    operands: &'a [Operand],
    cursor: &mut usize,
    first: OperandKind,
    second: OperandKind,
) -> (field: Result<(&'a Operand, &'a Operand), OperandError>)
    requires
        first.is_decodable(),
        second.is_decodable(),
    ensures
        match field {
            Ok(pair) => {
                &&& pair_matches_at(operands@, *old(cursor) as int, first, second)
                &&& *pair.0 == operands@[*old(cursor) as int]
                &&& *pair.1 == operands@[*old(cursor) + 1]
                &&& *final(cursor) == *old(cursor) + 2
            },
            Err(error) => {
                &&& !pair_matches_at(operands@, *old(cursor) as int, first, second)
                &&& error == pair_error(operands@, *old(cursor) as int, first, second)
                &&& *final(cursor) == *old(cursor)
            },
        },
{
    let at: usize = *cursor;
    if at >= operands.len() {
        return Err(OperandError::Missing);
    }
    if operands[at].kind() != first {
        return Err(OperandError::Wrong);
    }
    if at + 1 >= operands.len() {
        return Err(OperandError::Missing);
    }
    if operands[at + 1].kind() != second {
        return Err(OperandError::Wrong);
    }
    *cursor = at + 2;
    Ok((&operands[at], &operands[at + 1]))
}

/// Decodes an optional field of pairs: the two operands at the cursor if
/// they are of the kinds `first` and `second`, and nothing otherwise.
pub fn optional_pair<'a>(
    operands: &'a [Operand],
    cursor: &mut usize,
    first: OperandKind,
    second: OperandKind,
) -> (field: Option<(&'a Operand, &'a Operand)>)
    requires
        first.is_decodable(),
        second.is_decodable(),
    ensures
        match field {
            Some(pair) => {
                &&& pair_matches_at(operands@, *old(cursor) as int, first, second)
                &&& *pair.0 == operands@[*old(cursor) as int]
                &&& *pair.1 == operands@[*old(cursor) + 1]
                &&& *final(cursor) == *old(cursor) + 2
            },
            None => {
                &&& !pair_matches_at(operands@, *old(cursor) as int, first, second)
                &&& *final(cursor) == *old(cursor)
            },
        },
{
    match required_pair(operands, cursor, first, second) {
        Ok(pair) => Some(pair),
        Err(_) => None,
    }
}

/// Decodes a repeated field of pairs: the longest run of whole pairs of the
/// kinds `first` and `second` that starts at the cursor. The pairs come back
/// as they stand in the list: a pair's first operand at an even place, its
/// second after it.
pub fn repeated_pair<'a>(
    operands: &'a [Operand],
    cursor: &mut usize,
    first: OperandKind,
    second: OperandKind,
) -> (field: &'a [Operand])
    requires
        first.is_decodable(),
        second.is_decodable(),
    ensures
        clamp(operands@, *old(cursor)) + field@.len() <= operands@.len(),
        field@.len() == 2 * pair_run_count(
            operands@,
            clamp(operands@, *old(cursor)),
            first,
            second,
        ),
        is_pair_run(
            operands@,
            clamp(operands@, *old(cursor)),
            field@.len() as int / 2,
            first,
            second,
        ),
        field@ == operands@.subrange(
            clamp(operands@, *old(cursor)),
            clamp(operands@, *old(cursor)) + field@.len(),
        ),
        *old(cursor) <= operands@.len() ==> *final(cursor) == *old(cursor) + field@.len(),
        *old(cursor) > operands@.len() ==> *final(cursor) == *old(cursor),
{
    if *cursor >= operands.len() {
        proof {
            lemma_pair_run_count(operands@, operands@.len() as int, 0, first, second);
        }
        return &operands[operands.len()..operands.len()];
    }
    let from: usize = *cursor;
    let mut end: usize = from;
    let ghost mut count: int = 0;
    while end < operands.len() && operands.len() - end >= 2 && operands[end].kind() == first
        && operands[end + 1].kind() == second
        invariant
            from <= end <= operands@.len(),
            0 <= count,
            end == from + 2 * count,
            forall|i: int|
                0 <= i < count ==> #[trigger] pair_matches_at(operands@, from + 2 * i, first, second),
        decreases operands@.len() - end,
    {
        end = end + 2;
        proof {
            count = count + 1;
        }
    }
    *cursor = end;
    proof {
        lemma_pair_run_count(operands@, from as int, count, first, second);
    }
    &operands[from..end]
}

} // verus!
