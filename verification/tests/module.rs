use spirv_sr::error::{ConvertionError, LiftError, OperandError};
use spirv_sr::instructions::Terminator;
use spirv_sr::items::{BasicBlock, Function, Module};
use spirv_sr::mr;
use spirv_sr::mr::{EnumKind, Instruction, ModuleHeader, Operand};
use spirv_sr::structs::{Capability, MemoryModel};
use spirv_sr::token::Token;

fn header() -> ModuleHeader {
    ModuleHeader { magic_number: 0x0723_0203, version: 0x0001_0000, generator: 0, bound: 20, reserved_word: 0 }
}

fn capability(value: u32) -> Instruction {
    Instruction {
        opcode: 17,
        result_type: None,
        result_id: None,
        operands: vec![Operand::Enumerant(EnumKind::Capability, value)],
    }
}

fn memory_model() -> Instruction {
    Instruction {
        opcode: 14,
        result_type: None,
        result_id: None,
        operands: vec![
            Operand::Enumerant(EnumKind::AddressingModel, 0),
            Operand::Enumerant(EnumKind::MemoryModel, 1),
        ],
    }
}

fn type_void(id: u32) -> Instruction {
    Instruction { opcode: 19, result_type: None, result_id: Some(id), operands: vec![] }
}

fn type_function(id: u32, result: u32, parameters: &[u32]) -> Instruction {
    let mut operands = vec![Operand::IdRef(result)];
    operands.extend(parameters.iter().map(|id| Operand::IdRef(*id)));
    Instruction { opcode: 33, result_type: None, result_id: Some(id), operands }
}

fn function(id: u32, result: u32, control: u32, ty: u32) -> mr::Function {
    mr::Function {
        def: Some(Instruction {
            opcode: 54,
            result_type: Some(result),
            result_id: Some(id),
            operands: vec![Operand::Enumerant(EnumKind::FunctionControl, control), Operand::IdRef(ty)],
        }),
        end: Some(Instruction { opcode: 56, result_type: None, result_id: None, operands: vec![] }),
        parameters: vec![],
        basic_blocks: vec![],
    }
}

fn module() -> mr::Module {
    mr::Module {
        header: Some(header()),
        capabilities: vec![capability(1), capability(4)],
        memory_model: Some(memory_model()),
        entry_points: vec![],
        execution_modes: vec![],
        types_global_values: vec![
            type_void(1),
            type_function(2, 1, &[]),
            type_function(3, 1, &[5, 6]),
        ],
        functions: vec![function(10, 1, 0, 3), function(11, 1, 2, 2), function(12, 1, 1, 3)],
    }
}

fn converted(control: u32, result: u32, parameters: &[u32]) -> Function {
    Function {
        entry_point: None,
        control,
        result: Token::new(result),
        parameters: parameters.iter().map(|id| Token::new(*id)).collect(),
        basic_blocks: vec![],
    }
}

#[test]
fn a_well_formed_module_converts() {
    let module = module();
    let converted = Module::from_data(&module).unwrap();
    assert_eq!(
        converted,
        Module {
            header: header(),
            capabilities: vec![Capability { capability: 1 }, Capability { capability: 4 }],
            memory_model: MemoryModel { addressing_model: 0, memory_model: 1 },
            functions: vec![
                self::converted(0, 1, &[5, 6]),
                self::converted(2, 1, &[]),
                self::converted(1, 1, &[5, 6]),
            ],
        }
    );
    assert_eq!(converted.functions.len(), module.functions.len());
}

#[test]
fn an_empty_module_converts() {
    let mut module = module();
    module.capabilities.clear();
    module.functions.clear();
    module.types_global_values.clear();
    let converted = Module::from_data(&module).unwrap();
    assert!(converted.capabilities.is_empty());
    assert!(converted.functions.is_empty());
    assert_eq!(converted.header, header());
}

#[test]
fn no_header_is_a_missing_header() {
    let mut module = module();
    module.header = None;
    assert_eq!(Module::from_data(&module), Err(ConvertionError::MissingHeader));
}

#[test]
fn no_memory_model_is_a_missing_header() {
    let mut module = module();
    module.memory_model = None;
    assert_eq!(Module::from_data(&module), Err(ConvertionError::MissingHeader));
}

#[test]
fn a_function_without_definition_is_a_missing_function() {
    let mut module = module();
    module.functions[1].def = None;
    assert_eq!(Module::from_data(&module), Err(ConvertionError::MissingFunction));
}

#[test]
fn an_unresolved_function_type_is_a_missing_function_type() {
    let mut module = module();
    module.functions[2] = function(12, 1, 0, 99);
    assert_eq!(Module::from_data(&module), Err(ConvertionError::MissingFunctionType));
    let mut module = self::module();
    module.types_global_values.clear();
    assert_eq!(Module::from_data(&module), Err(ConvertionError::MissingFunctionType));
}

#[test]
fn a_capability_that_cannot_be_lifted_fails_the_module() {
    let mut module = module();
    module.capabilities[1] = memory_model();
    assert_eq!(Module::from_data(&module), Err(ConvertionError::Lift(LiftError::OpCode)));
    let mut module = self::module();
    module.capabilities[0].operands.clear();
    assert_eq!(
        Module::from_data(&module),
        Err(ConvertionError::Lift(LiftError::Operand(OperandError::Missing)))
    );
}

#[test]
fn a_definition_that_cannot_be_lifted_fails_the_module() {
    let mut module = module();
    module.functions[0].def = Some(capability(1));
    assert_eq!(Module::from_data(&module), Err(ConvertionError::Lift(LiftError::OpCode)));
    let mut module = self::module();
    module.functions[0].def.as_mut().unwrap().operands.pop();
    assert_eq!(
        Module::from_data(&module),
        Err(ConvertionError::Lift(LiftError::Operand(OperandError::Missing)))
    );
}

#[test]
fn a_function_type_that_is_no_function_type_fails_the_module() {
    let mut module = module();
    module.functions[0] = function(10, 1, 0, 1);
    assert_eq!(Module::from_data(&module), Err(ConvertionError::Lift(LiftError::OpCode)));
}

#[test]
fn a_memory_model_that_cannot_be_lifted_fails_the_module() {
    let mut module = module();
    module.memory_model = Some(capability(1));
    assert_eq!(Module::from_data(&module), Err(ConvertionError::Lift(LiftError::OpCode)));
}

#[test]
fn the_first_failure_decides() {
    let mut module = module();
    module.header = None;
    module.memory_model = None;
    module.capabilities[0].operands.clear();
    module.functions[0].def = None;
    assert_eq!(Module::from_data(&module), Err(ConvertionError::MissingHeader));
    module.header = Some(header());
    assert_eq!(Module::from_data(&module), Err(ConvertionError::MissingHeader));
    module.memory_model = Some(capability(1));
    assert_eq!(
        Module::from_data(&module),
        Err(ConvertionError::Lift(LiftError::Operand(OperandError::Missing)))
    );
    module.capabilities.remove(0);
    assert_eq!(Module::from_data(&module), Err(ConvertionError::MissingFunction));
    module.functions[0] = function(10, 1, 0, 77);
    module.functions[1].def = None;
    assert_eq!(Module::from_data(&module), Err(ConvertionError::MissingFunctionType));
    module.functions.truncate(1);
    module.functions[0] = function(10, 1, 0, 3);
    assert_eq!(Module::from_data(&module), Err(ConvertionError::Lift(LiftError::OpCode)));
}

#[test]
fn the_first_definition_of_an_id_decides() {
    let mut module = module();
    module.types_global_values = vec![type_function(3, 1, &[8]), type_function(3, 1, &[9])];
    module.functions = vec![function(10, 1, 0, 3)];
    let converted = Module::from_data(&module).unwrap();
    assert_eq!(converted.functions, vec![self::converted(0, 1, &[8])]);
}

#[test]
fn a_basic_block_ends_in_its_terminator() {
    let block = BasicBlock::new(Terminator::ReturnValue { value: 7 });
    assert_eq!(block.terminator(), &Terminator::ReturnValue { value: 7 });
    let switch = Terminator::Switch { selector: 1, default: 2, target: vec![(0, 3), (1, 4)] };
    assert_eq!(BasicBlock::new(switch.clone()).terminator(), &switch);
    assert_ne!(BasicBlock::new(Terminator::Kill), BasicBlock::new(Terminator::Return));
}
