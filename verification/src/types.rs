//! Types, as the structured representation holds them.
//!
//! A type refers to other types by token, never directly, so types form no
//! cycles. Two types are structurally equal when they are built alike from
//! equal parts.

use vstd::prelude::*;
use crate::decoration::{
    equal_decorations, lemma_same_decorations_is_equivalence, same_decorations, Decoration,
};
use crate::token::Token;

verus! {

/// The category of tokens that stand for constants.
#[derive(Clone, Debug, PartialEq, Eq)]
pub struct Constant {}

/// A member of a structure: its type, and the decorations of the member.
#[derive(Clone, Debug, PartialEq, Eq)]
pub struct StructMember {
    pub token: Token<Type>,
    pub decorations: Vec<Decoration>,
}

impl StructMember {
    /// The member of the type with the raw id `id`, without decorations.
    pub fn new(id: u32) -> (member: StructMember)
        ensures
            member.token@ == id,
            member.decorations@.len() == 0,
    {
        StructMember { token: Token::new(id), decorations: Vec::new() }
    }

    /// Structural equality: the same type with the same decorations.
    pub open spec fn same(&self, other: &StructMember) -> bool {
        self.token == other.token && same_decorations(self.decorations@, other.decorations@)
    }

    /// Whether the two members are structurally equal.
    pub fn equals(&self, other: &StructMember) -> (equal: bool)
        ensures
            equal == self.same(other),
    {
        self.token == other.token && equal_decorations(&self.decorations, &other.decorations)
    }
}

/// Whether two lists of members are structurally equal: as long as each
/// other, with equal members at each place.
pub open spec fn same_members(a: Seq<StructMember>, b: Seq<StructMember>) -> bool {
    &&& a.len() == b.len()
    &&& forall|i: int| 0 <= i < a.len() ==> (#[trigger] a[i]).same(&b[i])
}

/// Whether the two lists of members are structurally equal.
pub fn equal_members(a: &Vec<StructMember>, b: &Vec<StructMember>) -> (equal: bool)
    ensures
        equal == same_members(a@, b@),
{
    if a.len() != b.len() {
        return false;
    }
    let mut i: usize = 0;
    while i < a.len()
        invariant
            i <= a@.len(),
            a@.len() == b@.len(),
            forall|j: int| 0 <= j < i ==> (#[trigger] a@[j]).same(&b@[j]),
        decreases a@.len() - i,
    {
        if !a[i].equals(&b[i]) {
            return false;
        }
        i = i + 1;
    }
    true
}

/// What a type is: one variant for each instruction that forms a type, but
/// for function types, which stand alone as [`Function`].
#[derive(Clone, Debug, PartialEq, Eq)]
pub enum TypeEnum {
    /// No value.
    Void,
    /// True or false.
    Bool,
    /// An integer of `width` bits; `signedness` is 1 where it is signed.
    Int { width: u32, signedness: u32 },
    /// A floating-point number of `width` bits.
    Float { width: u32 },
    /// A vector of `component_count` scalars.
    Vector { component_type: Token<Type>, component_count: u32 },
    /// A matrix of `column_count` column vectors.
    Matrix { column_type: Token<Type>, column_count: u32 },
    /// An image.
    Image {
        sampled_type: Token<Type>,
        dim: u32,
        depth: u32,
        arrayed: u32,
        ms: u32,
        sampled: u32,
        image_format: u32,
        access_qualifier: Option<u32>,
    },
    /// A sampler.
    Sampler,
    /// An image together with a sampler.
    SampledImage { image_type: Token<Type> },
    /// An array whose length is a constant.
    Array { element_type: Token<Type>, length: Token<Constant> },
    /// An array whose length is known when the module runs.
    RuntimeArray { element_type: Token<Type> },
    /// A structure, with its members in order.
    Struct { field_types: Vec<StructMember> },
    /// A type that only its name tells of.
    Opaque { name: String },
    /// A pointer into a storage class.
    Pointer { storage_class: u32, ty: Token<Type> },
    /// An event.
    Event,
    /// A device-side event.
    DeviceEvent,
    /// A reservation of a pipe.
    ReserveId,
    /// A queue.
    Queue,
    /// A pipe.
    Pipe { qualifier: u32 },
    /// The announcement of a pointer type that is defined later.
    ForwardPointer { pointer_type: Token<Type>, storage_class: u32 },
    /// The storage of a pipe.
    PipeStorage,
    /// A named barrier.
    NamedBarrier,
}

impl TypeEnum {
    /// Structural equality: the same variant with equal fields.
    pub open spec fn same(&self, other: &TypeEnum) -> bool {
        match (*self, *other) {
            (TypeEnum::Struct { field_types }, TypeEnum::Struct { field_types: other_types }) => {
                same_members(field_types@, other_types@)
            },
            (TypeEnum::Struct { .. }, _) => false,
            (_, TypeEnum::Struct { .. }) => false,
            (TypeEnum::Opaque { name }, TypeEnum::Opaque { name: other_name }) => {
                name@ == other_name@
            },
            (TypeEnum::Opaque { .. }, _) => false,
            (_, TypeEnum::Opaque { .. }) => false,
            _ => *self == *other,
        }
    }

    /// Whether the two are structurally equal.
    pub fn equals(&self, other: &TypeEnum) -> (equal: bool)
        ensures
            equal == self.same(other),
    {
        match (self, other) {
            (TypeEnum::Void, TypeEnum::Void) => true,
            (TypeEnum::Bool, TypeEnum::Bool) => true,
            (
                TypeEnum::Int { width: a0, signedness: a1 },
                TypeEnum::Int { width: b0, signedness: b1 },
            ) => {
                *a0 == *b0
                    && *a1 == *b1
            },
            (TypeEnum::Float { width: a0 }, TypeEnum::Float { width: b0 }) => {
                *a0 == *b0
            },
            (
                TypeEnum::Vector { component_type: a0, component_count: a1 },
                TypeEnum::Vector { component_type: b0, component_count: b1 },
            ) => {
                *a0 == *b0
                    && *a1 == *b1
            },
            (
                TypeEnum::Matrix { column_type: a0, column_count: a1 },
                TypeEnum::Matrix { column_type: b0, column_count: b1 },
            ) => {
                *a0 == *b0
                    && *a1 == *b1
            },
            (
                TypeEnum::Image {
                    sampled_type: a0,
                    dim: a1,
                    depth: a2,
                    arrayed: a3,
                    ms: a4,
                    sampled: a5,
                    image_format: a6,
                    access_qualifier: a7,
                },
                TypeEnum::Image {
                    sampled_type: b0,
                    dim: b1,
                    depth: b2,
                    arrayed: b3,
                    ms: b4,
                    sampled: b5,
                    image_format: b6,
                    access_qualifier: b7,
                },
            ) => {
                *a0 == *b0
                    && *a1 == *b1
                    && *a2 == *b2
                    && *a3 == *b3
                    && *a4 == *b4
                    && *a5 == *b5
                    && *a6 == *b6
                    && *a7 == *b7
            },
            (TypeEnum::Sampler, TypeEnum::Sampler) => true,
            (
                TypeEnum::SampledImage { image_type: a0 },
                TypeEnum::SampledImage { image_type: b0 },
            ) => {
                *a0 == *b0
            },
            (
                TypeEnum::Array { element_type: a0, length: a1 },
                TypeEnum::Array { element_type: b0, length: b1 },
            ) => {
                *a0 == *b0
                    && *a1 == *b1
            },
            (
                TypeEnum::RuntimeArray { element_type: a0 },
                TypeEnum::RuntimeArray { element_type: b0 },
            ) => {
                *a0 == *b0
            },
            (TypeEnum::Struct { field_types: a0 }, TypeEnum::Struct { field_types: b0 }) => {
                equal_members(a0, b0)
            },
            (TypeEnum::Opaque { name: a0 }, TypeEnum::Opaque { name: b0 }) => {
                *a0 == *b0
            },
            (
                TypeEnum::Pointer { storage_class: a0, ty: a1 },
                TypeEnum::Pointer { storage_class: b0, ty: b1 },
            ) => {
                *a0 == *b0
                    && *a1 == *b1
            },
            (TypeEnum::Event, TypeEnum::Event) => true,
            (TypeEnum::DeviceEvent, TypeEnum::DeviceEvent) => true,
            (TypeEnum::ReserveId, TypeEnum::ReserveId) => true,
            (TypeEnum::Queue, TypeEnum::Queue) => true,
            (TypeEnum::Pipe { qualifier: a0 }, TypeEnum::Pipe { qualifier: b0 }) => {
                *a0 == *b0
            },
            (
                TypeEnum::ForwardPointer { pointer_type: a0, storage_class: a1 },
                TypeEnum::ForwardPointer { pointer_type: b0, storage_class: b1 },
            ) => {
                *a0 == *b0
                    && *a1 == *b1
            },
            (TypeEnum::PipeStorage, TypeEnum::PipeStorage) => true,
            (TypeEnum::NamedBarrier, TypeEnum::NamedBarrier) => true,
            _ => false,
        }
    }
}

/// A type: what it is, and its decorations.
#[derive(Clone, Debug, PartialEq, Eq)]
pub struct Type {
    pub ty: TypeEnum,
    pub decorations: Vec<Decoration>,
}

impl Type {
    /// Structural equality: the same type with the same decorations.
    pub open spec fn same(&self, other: &Type) -> bool {
        self.ty.same(&other.ty) && same_decorations(self.decorations@, other.decorations@)
    }

    /// Whether the two types are structurally equal.
    pub fn equals(&self, other: &Type) -> (equal: bool)
        ensures
            equal == self.same(other),
    {
        self.ty.equals(&other.ty) && equal_decorations(&self.decorations, &other.decorations)
    }

    /// Whether this is the type `ty`, without decorations.
    pub open spec fn is_plain(&self, ty: TypeEnum) -> bool {
        self.ty.same(&ty) && self.decorations@.len() == 0
    }

    /// Whether this is the type `Void`.
    pub fn is_void_type(&self) -> (is: bool)
        ensures
            is == (self.ty is Void),
    {
        match self.ty {
            TypeEnum::Void => true,
            _ => false,
        }
    }

    /// Whether this is the type `Bool`.
    pub fn is_bool_type(&self) -> (is: bool)
        ensures
            is == (self.ty is Bool),
    {
        match self.ty {
            TypeEnum::Bool => true,
            _ => false,
        }
    }

    /// Whether this is the type `Int`.
    pub fn is_int_type(&self) -> (is: bool)
        ensures
            is == (self.ty is Int),
    {
        match self.ty {
            TypeEnum::Int { .. } => true,
            _ => false,
        }
    }

    /// Whether this is the type `Float`.
    pub fn is_float_type(&self) -> (is: bool)
        ensures
            is == (self.ty is Float),
    {
        match self.ty {
            TypeEnum::Float { .. } => true,
            _ => false,
        }
    }

    /// Whether this is the type `Vector`.
    pub fn is_vector_type(&self) -> (is: bool)
        ensures
            is == (self.ty is Vector),
    {
        match self.ty {
            TypeEnum::Vector { .. } => true,
            _ => false,
        }
    }

    /// Whether this is the type `Matrix`.
    pub fn is_matrix_type(&self) -> (is: bool)
        ensures
            is == (self.ty is Matrix),
    {
        match self.ty {
            TypeEnum::Matrix { .. } => true,
            _ => false,
        }
    }

    /// Whether this is the type `Image`.
    pub fn is_image_type(&self) -> (is: bool)
        ensures
            is == (self.ty is Image),
    {
        match self.ty {
            TypeEnum::Image { .. } => true,
            _ => false,
        }
    }

    /// Whether this is the type `Sampler`.
    pub fn is_sampler_type(&self) -> (is: bool)
        ensures
            is == (self.ty is Sampler),
    {
        match self.ty {
            TypeEnum::Sampler => true,
            _ => false,
        }
    }

    /// Whether this is the type `SampledImage`.
    pub fn is_sampled_image_type(&self) -> (is: bool)
        ensures
            is == (self.ty is SampledImage),
    {
        match self.ty {
            TypeEnum::SampledImage { .. } => true,
            _ => false,
        }
    }

    /// Whether this is the type `Array`.
    pub fn is_array_type(&self) -> (is: bool)
        ensures
            is == (self.ty is Array),
    {
        match self.ty {
            TypeEnum::Array { .. } => true,
            _ => false,
        }
    }

    /// Whether this is the type `RuntimeArray`.
    pub fn is_runtime_array_type(&self) -> (is: bool)
        ensures
            is == (self.ty is RuntimeArray),
    {
        match self.ty {
            TypeEnum::RuntimeArray { .. } => true,
            _ => false,
        }
    }

    /// Whether this is the type `Struct`.
    pub fn is_structure_type(&self) -> (is: bool)
        ensures
            is == (self.ty is Struct),
    {
        match self.ty {
            TypeEnum::Struct { .. } => true,
            _ => false,
        }
    }

    /// Whether this is the type `Opaque`.
    pub fn is_opaque_type(&self) -> (is: bool)
        ensures
            is == (self.ty is Opaque),
    {
        match self.ty {
            TypeEnum::Opaque { .. } => true,
            _ => false,
        }
    }

    /// Whether this is the type `Pointer`.
    pub fn is_pointer_type(&self) -> (is: bool)
        ensures
            is == (self.ty is Pointer),
    {
        match self.ty {
            TypeEnum::Pointer { .. } => true,
            _ => false,
        }
    }

    /// Whether this is the type `Event`.
    pub fn is_event_type(&self) -> (is: bool)
        ensures
            is == (self.ty is Event),
    {
        match self.ty {
            TypeEnum::Event => true,
            _ => false,
        }
    }

    /// Whether this is the type `DeviceEvent`.
    pub fn is_device_event_type(&self) -> (is: bool)
        ensures
            is == (self.ty is DeviceEvent),
    {
        match self.ty {
            TypeEnum::DeviceEvent => true,
            _ => false,
        }
    }

    /// Whether this is the type `ReserveId`.
    pub fn is_reserve_id_type(&self) -> (is: bool)
        ensures
            is == (self.ty is ReserveId),
    {
        match self.ty {
            TypeEnum::ReserveId => true,
            _ => false,
        }
    }

    /// Whether this is the type `Queue`.
    pub fn is_queue_type(&self) -> (is: bool)
        ensures
            is == (self.ty is Queue),
    {
        match self.ty {
            TypeEnum::Queue => true,
            _ => false,
        }
    }

    /// Whether this is the type `Pipe`.
    pub fn is_pipe_type(&self) -> (is: bool)
        ensures
            is == (self.ty is Pipe),
    {
        match self.ty {
            TypeEnum::Pipe { .. } => true,
            _ => false,
        }
    }

    /// Whether this is the type `ForwardPointer`.
    pub fn is_forward_pointer_type(&self) -> (is: bool)
        ensures
            is == (self.ty is ForwardPointer),
    {
        match self.ty {
            TypeEnum::ForwardPointer { .. } => true,
            _ => false,
        }
    }

    /// Whether this is the type `PipeStorage`.
    pub fn is_pipe_storage_type(&self) -> (is: bool)
        ensures
            is == (self.ty is PipeStorage),
    {
        match self.ty {
            TypeEnum::PipeStorage => true,
            _ => false,
        }
    }

    /// Whether this is the type `NamedBarrier`.
    pub fn is_named_barrier_type(&self) -> (is: bool)
        ensures
            is == (self.ty is NamedBarrier),
    {
        match self.ty {
            TypeEnum::NamedBarrier => true,
            _ => false,
        }
    }
}

/// A function type. It is lifted from its instruction on demand and is not
/// interned.
#[derive(Clone, Debug, PartialEq, Eq)]
pub struct Function {
    pub decorations: Vec<Decoration>,
    pub return_type: Token<Type>,
    pub parameter_types: Vec<Token<Type>>,
}

/// Structural equality of members is an equivalence.
pub proof fn lemma_same_members_is_equivalence(
    a: Seq<StructMember>,
    b: Seq<StructMember>,
    c: Seq<StructMember>,
)
    ensures
        same_members(a, a),
        same_members(a, b) ==> same_members(b, a),
        same_members(a, b) && same_members(b, c) ==> same_members(a, c),
{
    assert forall|i: int| 0 <= i < a.len() implies (#[trigger] a[i]).same(&a[i]) by {
        lemma_same_decorations_is_equivalence(
            a[i].decorations@,
            a[i].decorations@,
            a[i].decorations@,
        );
    }
    if same_members(a, b) {
        assert forall|i: int| 0 <= i < b.len() implies (#[trigger] b[i]).same(&a[i]) by {
            lemma_same_decorations_is_equivalence(
                a[i].decorations@,
                b[i].decorations@,
                b[i].decorations@,
            );
        }
        if same_members(b, c) {
            assert forall|i: int| 0 <= i < a.len() implies (#[trigger] a[i]).same(&c[i]) by {
                lemma_same_decorations_is_equivalence(
                    a[i].decorations@,
                    b[i].decorations@,
                    c[i].decorations@,
                );
            }
        }
    }
}

/// Structural equality of types is an equivalence.
pub proof fn lemma_same_is_equivalence(a: Type, b: Type, c: Type)
    ensures
        a.same(&a),
        a.same(&b) ==> b.same(&a),
        a.same(&b) && b.same(&c) ==> a.same(&c),
{
    lemma_same_decorations_is_equivalence(a.decorations@, b.decorations@, c.decorations@);
    match (a.ty, b.ty, c.ty) {
        (
            TypeEnum::Struct { field_types: x },
            TypeEnum::Struct { field_types: y },
            TypeEnum::Struct { field_types: z },
        ) => {
            lemma_same_members_is_equivalence(x@, y@, z@);
        },
        (TypeEnum::Struct { field_types: x }, TypeEnum::Struct { field_types: y }, _) => {
            lemma_same_members_is_equivalence(x@, y@, y@);
        },
        (TypeEnum::Struct { field_types: x }, _, _) => {
            lemma_same_members_is_equivalence(x@, x@, x@);
        },
        _ => {},
    }
}

} // verus!
