use spirv_sr::decode::{
    optional, optional_pair, repeated, repeated_pair, required, required_pair,
};
use spirv_sr::error::OperandError;
use spirv_sr::mr::{EnumKind, Operand, OperandKind};

fn ids_then_dim() -> Vec<Operand> {
    vec![
        Operand::IdRef(1),
        Operand::IdRef(2),
        Operand::IdRef(3),
        Operand::Enumerant(EnumKind::Dim, 1),
    ]
}

#[test]
fn required_on_exhausted_list_is_missing() {
    let operands: Vec<Operand> = vec![Operand::IdRef(1)];
    let mut cursor = 1;
    assert_eq!(required(&operands, &mut cursor, OperandKind::IdRef), Err(OperandError::Missing));
    assert_eq!(cursor, 1);
}

#[test]
fn required_on_empty_list_is_missing() {
    let operands: Vec<Operand> = Vec::new();
    let mut cursor = 0;
    assert_eq!(
        required(&operands, &mut cursor, OperandKind::LiteralString),
        Err(OperandError::Missing)
    );
    assert_eq!(cursor, 0);
}

#[test]
fn required_beyond_the_list_is_missing() {
    let operands = vec![Operand::IdRef(1)];
    let mut cursor = 9;
    assert_eq!(required(&operands, &mut cursor, OperandKind::IdRef), Err(OperandError::Missing));
    assert_eq!(cursor, 9);
}

#[test]
fn required_of_wrong_kind_is_wrong() {
    let operands = vec![Operand::LiteralInteger(7)];
    let mut cursor = 0;
    assert_eq!(required(&operands, &mut cursor, OperandKind::IdRef), Err(OperandError::Wrong));
    assert_eq!(cursor, 0);
}

#[test]
fn required_tells_enumerations_apart() {
    let operands = vec![Operand::Enumerant(EnumKind::Dim, 1)];
    let mut cursor = 0;
    assert_eq!(
        required(&operands, &mut cursor, OperandKind::Enumerant(EnumKind::StorageClass)),
        Err(OperandError::Wrong)
    );
    assert_eq!(
        required(&operands, &mut cursor, OperandKind::Enumerant(EnumKind::Dim)),
        Ok(&Operand::Enumerant(EnumKind::Dim, 1))
    );
    assert_eq!(cursor, 1);
}

#[test]
fn required_of_right_kind_yields_the_operand() {
    let operands = vec![Operand::LiteralInteger(7), Operand::IdRef(9)];
    let mut cursor = 1;
    assert_eq!(required(&operands, &mut cursor, OperandKind::IdRef), Ok(&Operand::IdRef(9)));
    assert_eq!(cursor, 2);
}

#[test]
fn required_yields_strings_whole() {
    let operands = vec![Operand::LiteralString(String::from("main"))];
    let mut cursor = 0;
    let field = required(&operands, &mut cursor, OperandKind::LiteralString).unwrap();
    assert_eq!(field.text(), Some("main"));
    assert_eq!(field.word(), None);
    assert_eq!(cursor, 1);
}

#[test]
fn repeated_stops_at_the_first_other_kind() {
    let operands = ids_then_dim();
    let mut cursor = 0;
    let run = repeated(&operands, &mut cursor, OperandKind::IdRef);
    assert_eq!(run, &[Operand::IdRef(1), Operand::IdRef(2), Operand::IdRef(3)][..]);
    assert_eq!(cursor, 3);
    assert_eq!(operands[cursor], Operand::Enumerant(EnumKind::Dim, 1));
}

#[test]
fn repeated_runs_to_the_end_of_the_list() {
    let operands = vec![Operand::LiteralInteger(4), Operand::IdRef(1), Operand::IdRef(2)];
    let mut cursor = 1;
    let run = repeated(&operands, &mut cursor, OperandKind::IdRef);
    assert_eq!(run, &[Operand::IdRef(1), Operand::IdRef(2)][..]);
    assert_eq!(cursor, 3);
}

#[test]
fn repeated_may_be_empty() {
    let operands = ids_then_dim();
    let mut cursor = 0;
    let run = repeated(&operands, &mut cursor, OperandKind::LiteralInteger);
    assert!(run.is_empty());
    assert_eq!(cursor, 0);
    let mut cursor = 4;
    assert!(repeated(&operands, &mut cursor, OperandKind::IdRef).is_empty());
    assert_eq!(cursor, 4);
    let mut cursor = 17;
    assert!(repeated(&operands, &mut cursor, OperandKind::IdRef).is_empty());
    assert_eq!(cursor, 17);
}

#[test]
fn optional_on_exhausted_list_is_absent() {
    let operands: Vec<Operand> = Vec::new();
    let mut cursor = 0;
    assert_eq!(optional(&operands, &mut cursor, OperandKind::LiteralString), None);
    assert_eq!(cursor, 0);
    let operands = ids_then_dim();
    let mut cursor = 4;
    assert_eq!(optional(&operands, &mut cursor, OperandKind::IdRef), None);
    assert_eq!(cursor, 4);
}

#[test]
fn optional_of_another_kind_is_absent() {
    let operands = ids_then_dim();
    let mut cursor = 3;
    assert_eq!(optional(&operands, &mut cursor, OperandKind::IdRef), None);
    assert_eq!(cursor, 3);
}

#[test]
fn optional_takes_a_matching_operand() {
    let operands = ids_then_dim();
    let mut cursor = 3;
    assert_eq!(
        optional(&operands, &mut cursor, OperandKind::Enumerant(EnumKind::Dim)),
        Some(&Operand::Enumerant(EnumKind::Dim, 1))
    );
    assert_eq!(cursor, 4);
}

fn switch_targets() -> Vec<Operand> {
    vec![
        Operand::LiteralInteger(0),
        Operand::IdRef(10),
        Operand::LiteralInteger(1),
        Operand::IdRef(11),
        Operand::LiteralInteger(2),
    ]
}

#[test]
fn required_pair_takes_two_operands() {
    let operands = switch_targets();
    let mut cursor = 2;
    assert_eq!(
        required_pair(&operands, &mut cursor, OperandKind::LiteralInteger, OperandKind::IdRef),
        Ok((&Operand::LiteralInteger(1), &Operand::IdRef(11)))
    );
    assert_eq!(cursor, 4);
}

#[test]
fn required_pair_fails_as_a_whole() {
    let operands = switch_targets();
    let first = OperandKind::LiteralInteger;
    let second = OperandKind::IdRef;
    let mut cursor = 4;
    assert_eq!(
        required_pair(&operands, &mut cursor, first, second),
        Err(OperandError::Missing)
    );
    assert_eq!(cursor, 4);
    let mut cursor = 5;
    assert_eq!(
        required_pair(&operands, &mut cursor, first, second),
        Err(OperandError::Missing)
    );
    assert_eq!(cursor, 5);
    let mut cursor = 1;
    assert_eq!(required_pair(&operands, &mut cursor, first, second), Err(OperandError::Wrong));
    assert_eq!(cursor, 1);
    let mut cursor = 0;
    assert_eq!(required_pair(&operands, &mut cursor, first, first), Err(OperandError::Wrong));
    assert_eq!(cursor, 0);
}

#[test]
fn optional_pair_takes_both_or_none() {
    let operands = switch_targets();
    let first = OperandKind::LiteralInteger;
    let second = OperandKind::IdRef;
    let mut cursor = 0;
    assert_eq!(
        optional_pair(&operands, &mut cursor, first, second),
        Some((&Operand::LiteralInteger(0), &Operand::IdRef(10)))
    );
    assert_eq!(cursor, 2);
    let mut cursor = 4;
    assert_eq!(optional_pair(&operands, &mut cursor, first, second), None);
    assert_eq!(cursor, 4);
}

#[test]
fn repeated_pair_takes_whole_pairs_only() {
    let operands = switch_targets();
    let mut cursor = 0;
    let run =
        repeated_pair(&operands, &mut cursor, OperandKind::LiteralInteger, OperandKind::IdRef);
    assert_eq!(run, &operands[0..4]);
    assert_eq!(cursor, 4);
    assert_eq!(operands[cursor], Operand::LiteralInteger(2));
    let mut cursor = 1;
    let run =
        repeated_pair(&operands, &mut cursor, OperandKind::LiteralInteger, OperandKind::IdRef);
    assert!(run.is_empty());
    assert_eq!(cursor, 1);
}

#[test]
fn kinds_and_words_of_operands() {
    assert_eq!(Operand::IdRef(4).kind(), OperandKind::IdRef);
    assert_eq!(Operand::IdScope(4).kind(), OperandKind::IdScope);
    assert_eq!(Operand::IdMemorySemantics(4).kind(), OperandKind::IdMemorySemantics);
    assert_eq!(Operand::LiteralInteger(4).kind(), OperandKind::LiteralInteger);
    assert_eq!(Operand::LiteralExtInstInteger(4).kind(), OperandKind::LiteralExtInstInteger);
    assert_eq!(
        Operand::LiteralSpecConstantOpInteger(4).kind(),
        OperandKind::LiteralSpecConstantOpInteger
    );
    assert_eq!(
        Operand::LiteralContextDependentNumber(4).kind(),
        OperandKind::LiteralContextDependentNumber
    );
    assert_eq!(Operand::LiteralString(String::new()).kind(), OperandKind::LiteralString);
    assert_eq!(
        Operand::Enumerant(EnumKind::Scope, 4).kind(),
        OperandKind::Enumerant(EnumKind::Scope)
    );
    assert_eq!(Operand::IdRef(4).word(), Some(4));
    assert_eq!(Operand::Enumerant(EnumKind::Scope, 2).word(), Some(2));
    assert_eq!(Operand::LiteralContextDependentNumber(4).word(), None);
    assert_eq!(Operand::IdRef(4).text(), None);
    assert!(OperandKind::IdRef.is_decodable());
    assert!(!OperandKind::LiteralContextDependentNumber.is_decodable());
}
