use spirv_sr::context::Context;
use spirv_sr::error::{ConvertionError, LiftError, OperandError};
use spirv_sr::mr::{EnumKind, Instruction, Operand};
use spirv_sr::structs::{Capability, EntryPoint, ExecutionMode, Function, MemoryModel};
use spirv_sr::token::Token;
use spirv_sr::types;

fn instruction(opcode: u32, operands: Vec<Operand>) -> Instruction {
    Instruction { opcode, result_type: None, result_id: None, operands }
}

#[test]
fn lift_capability_reads_the_capability() {
    let mut context = Context::new();
    let raw = instruction(17, vec![Operand::Enumerant(EnumKind::Capability, 1)]);
    assert_eq!(context.lift_capability(&raw), Ok(Capability { capability: 1 }));
}

#[test]
fn lift_capability_fails_on_its_field() {
    let mut context = Context::new();
    assert_eq!(
        context.lift_capability(&instruction(17, vec![])),
        Err(LiftError::Operand(OperandError::Missing))
    );
    assert_eq!(
        context.lift_capability(&instruction(17, vec![Operand::IdRef(1)])),
        Err(LiftError::Operand(OperandError::Wrong))
    );
    assert_eq!(
        context.lift_capability(&instruction(17, vec![Operand::Enumerant(EnumKind::Dim, 1)])),
        Err(LiftError::Operand(OperandError::Wrong))
    );
}

#[test]
fn every_lift_guards_its_opcode() {
    let mut context = Context::new();
    let good = vec![
        Operand::Enumerant(EnumKind::Capability, 1),
        Operand::Enumerant(EnumKind::AddressingModel, 0),
    ];
    for operands in [Vec::new(), good, vec![Operand::LiteralString(String::from("x"))]] {
        let raw = instruction(0, operands);
        assert_eq!(context.lift_capability(&raw), Err(LiftError::OpCode));
        assert_eq!(context.lift_memory_model(&raw), Err(LiftError::OpCode));
        assert_eq!(context.lift_entry_point(&raw), Err(LiftError::OpCode));
        assert_eq!(context.lift_execution_mode(&raw), Err(LiftError::OpCode));
        assert_eq!(context.lift_function(&raw), Err(LiftError::OpCode));
        assert_eq!(context.lift_type_function(&raw), Err(LiftError::OpCode));
    }
    let capability = instruction(17, vec![Operand::Enumerant(EnumKind::Capability, 1)]);
    assert_eq!(context.lift_memory_model(&capability), Err(LiftError::OpCode));
    assert_eq!(context.lift_function(&capability), Err(LiftError::OpCode));
}

#[test]
fn lift_memory_model_reads_both_models() {
    let mut context = Context::new();
    let raw = instruction(
        14,
        vec![
            Operand::Enumerant(EnumKind::AddressingModel, 0),
            Operand::Enumerant(EnumKind::MemoryModel, 1),
        ],
    );
    assert_eq!(
        context.lift_memory_model(&raw),
        Ok(MemoryModel { addressing_model: 0, memory_model: 1 })
    );
    let swapped = instruction(
        14,
        vec![
            Operand::Enumerant(EnumKind::MemoryModel, 1),
            Operand::Enumerant(EnumKind::AddressingModel, 0),
        ],
    );
    assert_eq!(
        context.lift_memory_model(&swapped),
        Err(LiftError::Operand(OperandError::Wrong))
    );
    let short = instruction(14, vec![Operand::Enumerant(EnumKind::AddressingModel, 0)]);
    assert_eq!(context.lift_memory_model(&short), Err(LiftError::Operand(OperandError::Missing)));
}

#[test]
fn lift_entry_point_reads_the_interface() {
    let mut context = Context::new();
    let raw = instruction(
        15,
        vec![
            Operand::Enumerant(EnumKind::ExecutionModel, 5),
            Operand::IdRef(4),
            Operand::LiteralString(String::from("main")),
            Operand::IdRef(8),
            Operand::IdRef(9),
        ],
    );
    assert_eq!(
        context.lift_entry_point(&raw),
        Ok(EntryPoint {
            execution_model: 5,
            entry_point: Token::new(4),
            name: String::from("main"),
            interface: vec![Token::new(8), Token::new(9)],
        })
    );
    let bare = instruction(
        15,
        vec![
            Operand::Enumerant(EnumKind::ExecutionModel, 5),
            Operand::IdRef(4),
            Operand::LiteralString(String::new()),
        ],
    );
    assert_eq!(
        context.lift_entry_point(&bare),
        Ok(EntryPoint {
            execution_model: 5,
            entry_point: Token::new(4),
            name: String::new(),
            interface: vec![],
        })
    );
    let nameless = instruction(
        15,
        vec![Operand::Enumerant(EnumKind::ExecutionModel, 5), Operand::IdRef(4), Operand::IdRef(8)],
    );
    assert_eq!(
        context.lift_entry_point(&nameless),
        Err(LiftError::Operand(OperandError::Wrong))
    );
}

#[test]
fn lift_execution_mode_leaves_the_parameters_of_the_mode() {
    let mut context = Context::new();
    let raw = instruction(
        16,
        vec![
            Operand::IdRef(4),
            Operand::Enumerant(EnumKind::ExecutionMode, 17),
            Operand::LiteralInteger(8),
            Operand::LiteralInteger(8),
            Operand::LiteralInteger(1),
        ],
    );
    assert_eq!(
        context.lift_execution_mode(&raw),
        Ok(ExecutionMode { entry_point: Token::new(4), mode: 17 })
    );
    assert_eq!(
        context.lift_execution_mode(&instruction(16, vec![Operand::IdRef(4)])),
        Err(LiftError::Operand(OperandError::Missing))
    );
}

#[test]
fn lift_function_reads_control_and_type() {
    let mut context = Context::new();
    let raw = Instruction {
        opcode: 54,
        result_type: Some(2),
        result_id: Some(4),
        operands: vec![Operand::Enumerant(EnumKind::FunctionControl, 2), Operand::IdRef(3)],
    };
    assert_eq!(
        context.lift_function(&raw),
        Ok(Function { function_control: 2, function_type: Token::new(3) })
    );
    let raw = instruction(54, vec![Operand::IdRef(3)]);
    assert_eq!(context.lift_function(&raw), Err(LiftError::Operand(OperandError::Wrong)));
}

#[test]
fn lift_type_function_reads_the_parameter_types() {
    let mut context = Context::new();
    let raw = Instruction {
        opcode: 33,
        result_type: None,
        result_id: Some(3),
        operands: vec![Operand::IdRef(2), Operand::IdRef(6), Operand::IdRef(7)],
    };
    assert_eq!(
        context.lift_type_function(&raw),
        Ok(types::Function {
            decorations: vec![],
            return_type: Token::new(2),
            parameter_types: vec![Token::new(6), Token::new(7)],
        })
    );
    let raw = instruction(33, vec![Operand::IdRef(2)]);
    assert_eq!(
        context.lift_type_function(&raw),
        Ok(types::Function {
            decorations: vec![],
            return_type: Token::new(2),
            parameter_types: vec![],
        })
    );
    assert_eq!(
        context.lift_type_function(&instruction(33, vec![])),
        Err(LiftError::Operand(OperandError::Missing))
    );
}

#[test]
fn lifting_leaves_the_context_as_it_is() {
    let mut context = Context::new();
    let void = context.type_void();
    let raw = instruction(17, vec![Operand::Enumerant(EnumKind::Capability, 1)]);
    assert!(context.lift_capability(&raw).is_ok());
    assert!(context.lift_function(&raw).is_err());
    assert_eq!(context.num_types(), 1);
    assert_eq!(context.type_void(), void);
}

#[test]
fn errors_convert_upwards() {
    assert_eq!(LiftError::from(OperandError::Missing), LiftError::Operand(OperandError::Missing));
    assert_eq!(LiftError::from(OperandError::Wrong), LiftError::Operand(OperandError::Wrong));
    assert_eq!(
        ConvertionError::from(LiftError::OpCode),
        ConvertionError::Lift(LiftError::OpCode)
    );
    assert_eq!(
        ConvertionError::from(LiftError::from(OperandError::Wrong)),
        ConvertionError::Lift(LiftError::Operand(OperandError::Wrong))
    );
}
