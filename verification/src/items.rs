//! The structured module and its parts.

use vstd::prelude::*;
use crate::context::Context;
use crate::decode::run_end;
use crate::error::{ConvertionError, LiftError};
use crate::instructions::Terminator;
use crate::field::lift_error;
use crate::lift::{
    capability_rules, function_rules, is_capability_of, is_memory_model_of, memory_model_rules,
    tokens_stand_for, type_function_rules, word_of,
};
use crate::mr;
use crate::mr::{Instruction, OperandKind};
use crate::opcode::{OP_CAPABILITY, OP_FUNCTION, OP_MEMORY_MODEL, OP_TYPE_FUNCTION};
use crate::structs;
use crate::token::Token;
use crate::types::Type;

verus! {

/// The category of tokens that stand for variables.
#[derive(Clone, Debug, PartialEq, Eq)]
pub struct Variable {}

/// A straight run of instructions that ends in one terminator.
#[derive(Clone, Debug, PartialEq, Eq)]
pub struct BasicBlock {
    terminator: Terminator,
}

impl BasicBlock {
    /// The terminator of the block.
    pub closed spec fn spec_terminator(&self) -> Terminator {
        self.terminator
    }

    /// The block that ends in `terminator`.
    pub fn new(terminator: Terminator) -> (block: BasicBlock)
        ensures
            block.spec_terminator() == terminator,
    {
        BasicBlock { terminator }
    }

    /// The terminator of the block.
    pub fn terminator(&self) -> (terminator: &Terminator)
        ensures
            *terminator == self.spec_terminator(),
    {
        &self.terminator
    }
}

/// A function.
#[derive(Clone, Debug, PartialEq, Eq)]
pub struct Function {
    /// The entry point that the function is, with its execution mode.
    pub entry_point: Option<(structs::EntryPoint, structs::ExecutionMode)>,
    /// The function control mask.
    pub control: u32,
    /// The type of the result.
    pub result: Token<Type>,
    /// The types of the parameters.
    pub parameters: Vec<Token<Type>>,
    /// The basic blocks.
    pub basic_blocks: Vec<BasicBlock>,
}

/// A module.
#[derive(Clone, Debug, PartialEq, Eq)]
pub struct Module {
    /// The header.
    pub header: mr::ModuleHeader,
    /// The capabilities, in the order of their instructions.
    pub capabilities: Vec<structs::Capability>,
    /// The memory model.
    pub memory_model: structs::MemoryModel,
    /// The functions, in the order in which the raw module holds them.
    pub functions: Vec<Function>,
}

/// Whether the instruction gives its result the id `id`.
pub open spec fn defines(raw: &Instruction, id: u32) -> bool {
    raw.result_id == Some(id)
}

/// Whether one of the global instructions gives its result the id `id`.
pub open spec fn resolves(globals: Seq<Instruction>, id: u32) -> bool {
    exists|at: int| 0 <= at < globals.len() && defines(#[trigger] &globals[at], id)
}

/// Whether the instruction at `at` is the first of the global instructions
/// that gives its result the id `id`.
pub open spec fn is_first_definition(globals: Seq<Instruction>, id: u32, at: int) -> bool {
    &&& 0 <= at < globals.len()
    &&& defines(&globals[at], id)
    &&& forall|before: int| 0 <= before < at ==> !defines(#[trigger] &globals[before], id)
}

/// The place of the first of the global instructions that gives its result
/// the id `id`.
pub open spec fn first_definition(globals: Seq<Instruction>, id: u32) -> int {
    choose|at: int| is_first_definition(globals, id, at)
}

/// The id of the function type that the instruction that opens a function
/// refers to.
pub open spec fn function_type_id(def: &Instruction) -> u32 {
    word_of(def.operands@[1])
}

/// Why the first of the capability instructions from `from` on that cannot
/// be lifted cannot be, and nothing where all can.
pub open spec fn capabilities_error(capabilities: Seq<Instruction>, from: int) -> Option<
    LiftError,
>
    decreases capabilities.len() - from,
{
    if from < 0 || from >= capabilities.len() {
        None
    } else {
        match lift_error(&capabilities[from], OP_CAPABILITY, capability_rules()) {
            Some(error) => Some(error),
            None => capabilities_error(capabilities, from + 1),
        }
    }
}

/// Why the function cannot be converted, and nothing where it can: it has
/// no defining instruction; or that instruction cannot be lifted; or no
/// global instruction defines the function type that it refers to; or the
/// first that does cannot be lifted as a function type.
pub open spec fn function_error(globals: Seq<Instruction>, function: &mr::Function) -> Option<
    ConvertionError,
> {
    match function.def {
        None => Some(ConvertionError::MissingFunction),
        Some(def) => match lift_error(&def, OP_FUNCTION, function_rules()) {
            Some(error) => Some(ConvertionError::Lift(error)),
            None => if !resolves(globals, function_type_id(&def)) {
                Some(ConvertionError::MissingFunctionType)
            } else {
                match lift_error(
                    &globals[first_definition(globals, function_type_id(&def))],
                    OP_TYPE_FUNCTION,
                    type_function_rules(),
                ) {
                    Some(error) => Some(ConvertionError::Lift(error)),
                    None => None,
                }
            },
        },
    }
}

/// Why the first of the functions from `from` on that cannot be converted
/// cannot be, and nothing where all can.
pub open spec fn functions_error(
    globals: Seq<Instruction>,
    functions: Seq<mr::Function>,
    from: int,
) -> Option<ConvertionError>
    decreases functions.len() - from,
{
    if from < 0 || from >= functions.len() {
        None
    } else {
        match function_error(globals, &functions[from]) {
            Some(error) => Some(error),
            None => functions_error(globals, functions, from + 1),
        }
    }
}

/// Why the module cannot be converted, and nothing where it can. The
/// checks are made in this order, and the first that fails decides: the
/// header is there; the memory model is there; the capabilities can be
/// lifted, in order; the functions can be converted, in order; the memory
/// model can be lifted.
pub open spec fn conversion_error(module: &mr::Module) -> Option<ConvertionError> {
    if module.header is None {
        Some(ConvertionError::MissingHeader)
    } else if module.memory_model is None {
        Some(ConvertionError::MissingHeader)
    } else {
        match capabilities_error(module.capabilities@, 0) {
            Some(error) => Some(ConvertionError::Lift(error)),
            None => match functions_error(module.types_global_values@, module.functions@, 0) {
                Some(error) => Some(error),
                None => match lift_error(
                    &module.memory_model->0,
                    OP_MEMORY_MODEL,
                    memory_model_rules(),
                ) {
                    Some(error) => Some(ConvertionError::Lift(error)),
                    None => None,
                },
            },
        }
    }
}

/// Whether `converted` is the function that `function` describes: its
/// control mask is that of the defining instruction, its result type and
/// parameter types are those of the function type that the defining
/// instruction refers to, and it has no entry point and no basic blocks.
pub open spec fn is_conversion_of_function(
    converted: Function,
    globals: Seq<Instruction>,
    function: &mr::Function,
) -> bool {
    &&& function.def matches Some(def)
    &&& resolves(globals, function_type_id(&def))
    &&& {
        let ty = globals[first_definition(globals, function_type_id(&def))];
        &&& converted.entry_point is None
        &&& converted.control == word_of(def.operands@[0])
        &&& converted.result@ == word_of(ty.operands@[0])
        &&& tokens_stand_for(
            converted.parameters@,
            ty.operands@,
            1,
            run_end(ty.operands@, 1, OperandKind::IdRef),
        )
        &&& converted.basic_blocks@.len() == 0
    }
}

/// Whether `converted` is the module that `module` describes: the same
/// header, the capabilities and the functions one for one and in order, and
/// the memory model.
pub open spec fn is_conversion_of(converted: Module, module: &mr::Module) -> bool {
    &&& Some(converted.header) == module.header
    &&& converted.capabilities@.len() == module.capabilities@.len()
    &&& forall|i: int|
        0 <= i < converted.capabilities@.len() ==> is_capability_of(
            #[trigger] converted.capabilities@[i],
            &module.capabilities@[i],
        )
    &&& module.memory_model matches Some(model)
    &&& is_memory_model_of(converted.memory_model, &model)
    &&& converted.functions@.len() == module.functions@.len()
    &&& forall|i: int|
        0 <= i < converted.functions@.len() ==> is_conversion_of_function(
            #[trigger] converted.functions@[i],
            module.types_global_values@,
            &module.functions@[i],
        )
}

/// The place of the first of the global instructions that gives its result
/// the id `id`.
fn find_definition(globals: &Vec<Instruction>, id: u32) -> (place: Option<usize>)
    ensures
        match place {
            Some(at) => {
                &&& resolves(globals@, id)
                &&& at == first_definition(globals@, id)
                &&& is_first_definition(globals@, id, at as int)
            },
            None => !resolves(globals@, id),
        },
{
    let mut at: usize = 0;
    while at < globals.len()
        invariant
            at <= globals@.len(),
            forall|before: int| 0 <= before < at ==> !defines(#[trigger] &globals@[before], id),
        decreases globals@.len() - at,
    {
        let found = match globals[at].result_id {
            Some(result) => result == id,
            None => false,
        };
        if found {
            proof {
                let first = first_definition(globals@, id);
                assert(is_first_definition(globals@, id, at as int));
                assert(is_first_definition(globals@, id, first));
                if first < at {
                    assert(!defines(&globals@[first], id));
                }
            }
            return Some(at);
        }
        at = at + 1;
    }
    None
}

/// Lifts the capability instructions, in order.
fn convert_capabilities(context: &mut Context, capabilities: &Vec<Instruction>) -> (converted: Result<
    Vec<structs::Capability>,
    LiftError,
>)
    ensures
        match converted {
            Ok(lifted) => {
                &&& capabilities_error(capabilities@, 0) is None
                &&& lifted@.len() == capabilities@.len()
                &&& forall|i: int|
                    0 <= i < lifted@.len() ==> is_capability_of(
                        #[trigger] lifted@[i],
                        &capabilities@[i],
                    )
            },
            Err(error) => capabilities_error(capabilities@, 0) == Some(error),
        },
{
    let mut lifted: Vec<structs::Capability> = Vec::new();
    let mut i: usize = 0;
    while i < capabilities.len()
        invariant
            i <= capabilities@.len(),
            lifted@.len() == i,
            capabilities_error(capabilities@, 0) == capabilities_error(capabilities@, i as int),
            forall|j: int|
                0 <= j < i ==> is_capability_of(#[trigger] lifted@[j], &capabilities@[j]),
        decreases capabilities@.len() - i,
    {
        match context.lift_capability(&capabilities[i]) {
            Ok(capability) => {
                lifted.push(capability);
            },
            Err(error) => {
                return Err(error);
            },
        }
        i = i + 1;
    }
    Ok(lifted)
}

/// Converts one function.
fn convert_function(context: &mut Context, globals: &Vec<Instruction>, function: &mr::Function) -> (converted: Result<
    Function,
    ConvertionError,
>)
    ensures
        match converted {
            Ok(converted) => {
                &&& function_error(globals@, function) is None
                &&& is_conversion_of_function(converted, globals@, function)
            },
            Err(error) => function_error(globals@, function) == Some(error),
        },
{
    let def = match &function.def {
        Some(instruction) => match context.lift_function(instruction) {
            Ok(def) => def,
            Err(error) => {
                return Err(ConvertionError::Lift(error));
            },
        },
        None => {
            return Err(ConvertionError::MissingFunction);
        },
    };
    let fty = match find_definition(globals, def.function_type.id_ref()) {
        Some(at) => match context.lift_type_function(&globals[at]) {
            Ok(fty) => fty,
            Err(error) => {
                return Err(ConvertionError::Lift(error));
            },
        },
        None => {
            return Err(ConvertionError::MissingFunctionType);
        },
    };
    Ok(
        Function {
            entry_point: None,
            control: def.function_control,
            result: fty.return_type,
            parameters: fty.parameter_types,
            basic_blocks: Vec::new(),
        },
    )
}

/// Converts the functions, in order.
fn convert_functions(context: &mut Context, globals: &Vec<Instruction>, functions: &Vec<mr::Function>) -> (converted: Result<
    Vec<Function>,
    ConvertionError,
>)
    ensures
        match converted {
            Ok(converted) => {
                &&& functions_error(globals@, functions@, 0) is None
                &&& converted@.len() == functions@.len()
                &&& forall|i: int|
                    0 <= i < converted@.len() ==> is_conversion_of_function(
                        #[trigger] converted@[i],
                        globals@,
                        &functions@[i],
                    )
            },
            Err(error) => functions_error(globals@, functions@, 0) == Some(error),
        },
{
    let mut converted: Vec<Function> = Vec::new();
    let mut i: usize = 0;
    while i < functions.len()
        invariant
            i <= functions@.len(),
            converted@.len() == i,
            functions_error(globals@, functions@, 0) == functions_error(globals@, functions@, i as int),
            forall|j: int|
                0 <= j < i ==> is_conversion_of_function(
                    #[trigger] converted@[j],
                    globals@,
                    &functions@[j],
                ),
        decreases functions@.len() - i,
    {
        match convert_function(context, globals, &functions[i]) {
            Ok(function) => {
                converted.push(function);
            },
            Err(error) => {
                return Err(error);
            },
        }
        i = i + 1;
    }
    Ok(converted)
}

impl Module {
    /// Converts a raw module into a structured one.
    ///
    /// The conversion succeeds as a whole or fails as a whole. It fails with
    /// the first of these that holds: the module has no header, or no memory
    /// model (`MissingHeader` for both); a capability cannot be lifted; a
    /// function has no defining instruction (`MissingFunction`), its defining
    /// instruction cannot be lifted, no global instruction defines the
    /// function type that it refers to (`MissingFunctionType`), or that
    /// instruction cannot be lifted; the memory model cannot be lifted.
    pub fn from_data(module: &mr::Module) -> (converted: Result<Module, ConvertionError>)
        ensures
            match converted {
                Ok(converted) => {
                    &&& conversion_error(module) is None
                    &&& is_conversion_of(converted, module)
                },
                Err(error) => conversion_error(module) == Some(error),
            },
    {
        let header = match module.header {
            Some(header) => header,
            None => {
                return Err(ConvertionError::MissingHeader);
            },
        };
        let model = match &module.memory_model {
            Some(model) => model,
            None => {
                return Err(ConvertionError::MissingHeader);
            },
        };
        let mut context = Context::new();
        let capabilities = match convert_capabilities(&mut context, &module.capabilities) {
            Ok(capabilities) => capabilities,
            Err(error) => {
                return Err(ConvertionError::Lift(error));
            },
        };
        let functions = match convert_functions(
            &mut context,
            &module.types_global_values,
            &module.functions,
        ) {
            Ok(functions) => functions,
            Err(error) => {
                return Err(error);
            },
        };
        let memory_model = match context.lift_memory_model(model) {
            Ok(memory_model) => memory_model,
            Err(error) => {
                return Err(ConvertionError::Lift(error));
            },
        };
        Ok(Module { header, capabilities, memory_model, functions })
    }
}

/// Whether the module is well formed: it has a header and a memory model,
/// and every function has a defining instruction that refers to a function
/// type which one of the global instructions defines.
pub open spec fn is_well_formed(module: &mr::Module) -> bool {
    &&& module.header is Some
    &&& module.memory_model is Some
    &&& forall|i: int|
        0 <= i < module.functions@.len() ==> {
            &&& (#[trigger] module.functions@[i]).def matches Some(def)
            &&& resolves(module.types_global_values@, function_type_id(&def))
        }
}

/// Whether every instruction that the conversion lifts can be lifted: the
/// capabilities, the memory model, the defining instruction of each
/// function, and the instruction that defines its function type.
pub open spec fn can_be_lifted(module: &mr::Module) -> bool {
    &&& forall|i: int|
        0 <= i < module.capabilities@.len() ==> lift_error(
            #[trigger] &module.capabilities@[i],
            OP_CAPABILITY,
            capability_rules(),
        ) is None
    &&& module.memory_model matches Some(model) ==> lift_error(
        &model,
        OP_MEMORY_MODEL,
        memory_model_rules(),
    ) is None
    &&& forall|i: int|
        0 <= i < module.functions@.len() ==> ((#[trigger] module.functions@[i]).def matches Some(
            def,
        ) ==> {
            &&& lift_error(&def, OP_FUNCTION, function_rules()) is None
            &&& resolves(module.types_global_values@, function_type_id(&def)) ==> lift_error(
                &module.types_global_values@[first_definition(
                    module.types_global_values@,
                    function_type_id(&def),
                )],
                OP_TYPE_FUNCTION,
                type_function_rules(),
            ) is None
        })
}

/// A well-formed module whose instructions can be lifted converts. What it
/// converts to holds a function for each function of the module, in the
/// same order.
pub proof fn lemma_well_formed_module_converts(module: &mr::Module)
    requires
        is_well_formed(module),
        can_be_lifted(module),
    ensures
        conversion_error(module) is None,
        forall|converted: Module| #[trigger]
            is_conversion_of(converted, module) ==> {
                &&& converted.functions@.len() == module.functions@.len()
                &&& forall|i: int|
                    0 <= i < converted.functions@.len() ==> is_conversion_of_function(
                        #[trigger] converted.functions@[i],
                        module.types_global_values@,
                        &module.functions@[i],
                    )
            },
{
    lemma_capabilities_lift(module.capabilities@, 0);
    lemma_functions_convert(module.types_global_values@, module.functions@, 0);
}

/// Capabilities that can all be lifted give no error.
proof fn lemma_capabilities_lift(capabilities: Seq<Instruction>, from: int)
    requires
        0 <= from,
        forall|i: int|
            0 <= i < capabilities.len() ==> lift_error(
                #[trigger] &capabilities[i],
                OP_CAPABILITY,
                capability_rules(),
            ) is None,
    ensures
        capabilities_error(capabilities, from) is None,
    decreases capabilities.len() - from,
{
    if from < capabilities.len() {
        lemma_capabilities_lift(capabilities, from + 1);
    }
}

/// Functions that can all be converted give no error.
proof fn lemma_functions_convert(
    globals: Seq<Instruction>,
    functions: Seq<mr::Function>,
    from: int,
)
    requires
        0 <= from,
        forall|i: int|
            0 <= i < functions.len() ==> function_error(globals, #[trigger] &functions[i]) is None,
    ensures
        functions_error(globals, functions, from) is None,
    decreases functions.len() - from,
{
    if from < functions.len() {
        lemma_functions_convert(globals, functions, from + 1);
    }
}

} // verus!
