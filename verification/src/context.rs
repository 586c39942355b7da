//! The context of one conversion: the table of types, and what is lifted
//! against it.

use vstd::prelude::*;
use crate::storage::{holds, interns, Storage};
use crate::token::Token;
use crate::types::{Constant, Type, TypeEnum};

verus! {

/// The context of one conversion. A token that a context gives stands for an
/// entry of that context's table, and of no other.
#[derive(Debug)]
pub struct Context {
    types: Storage,
}

impl Context {
    /// The interned types, in the order in which they came.
    pub closed spec fn types(&self) -> Seq<Type> {
        self.types@
    }

    /// Whether the table of types is canonical and every index fits a token.
    pub closed spec fn wf(&self) -> bool {
        self.types.wf()
    }

    /// Whether the table of types can take one more entry.
    pub open spec fn has_room(&self) -> bool {
        self.types().len() <= u32::MAX
    }

    /// A context that holds no types yet.
    pub fn new() -> (context: Context)
        ensures
            context.wf(),
            context.types().len() == 0,
    {
        Context { types: Storage::new() }
    }

    /// The number of interned types.
    pub fn num_types(&self) -> (count: usize)
        ensures
            count == self.types().len(),
    {
        self.types.len()
    }

    /// The type that the token stands for, where this context has interned
    /// one under it.
    pub fn get_type(&self, token: Token<Type>) -> (entry: Option<&Type>)
        ensures
            match entry {
                Some(entry) => token@ < self.types().len() && *entry == self.types()[token@ as int],
                None => token@ >= self.types().len(),
            },
    {
        self.types.get(token)
    }

    /// The token of `value`: that of the type that is structurally equal to
    /// it, where one is interned already; otherwise that of `value` itself,
    /// which is interned by this call.
    pub fn intern(&mut self, value: Type) -> (token: Token<Type>)
        requires
            old(self).wf(),
            old(self).has_room(),
        ensures
            final(self).wf(),
            interns(
                old(self).types(),
                final(self).types(),
                token@ as int,
                |entry: Type| entry.same(&value),
            ),
            final(self).types() == old(self).types() || final(self).types() == old(self).types().push(
                value,
            ),
    {
        self.types.fetch_or_append(value)
    }

    /// The token of the type `ty` without decorations.
    fn intern_plain(&mut self, ty: TypeEnum) -> (token: Token<Type>)
        requires
            old(self).wf(),
            old(self).has_room(),
        ensures
            final(self).wf(),
            interns(
                old(self).types(),
                final(self).types(),
                token@ as int,
                |entry: Type| entry.is_plain(ty),
            ),
    {
        let value = Type { ty, decorations: Vec::new() };
        let token = self.types.fetch_or_append(value);
        proof {
            assert forall|entry: Type| #[trigger] entry.same(&value) == entry.is_plain(ty) by {
                crate::types::lemma_same_is_equivalence(entry, value, entry);
            }
            assert(holds(old(self).types(), |entry: Type| entry.same(&value)) == holds(
                old(self).types(),
                |entry: Type| entry.is_plain(ty),
            ));
        }
        token
    }

    /// The token of the type `Void`, without decorations.
    pub fn type_void(&mut self) -> (token: Token<Type>)
        requires
            old(self).wf(),
            old(self).has_room(),
        ensures
            final(self).wf(),
            interns(
                old(self).types(),
                final(self).types(),
                token@ as int,
                |entry: Type| entry.is_plain(TypeEnum::Void),
            ),
    {
        self.intern_plain(TypeEnum::Void)
    }

    /// The token of the type `Bool`, without decorations.
    pub fn type_bool(&mut self) -> (token: Token<Type>)
        requires
            old(self).wf(),
            old(self).has_room(),
        ensures
            final(self).wf(),
            interns(
                old(self).types(),
                final(self).types(),
                token@ as int,
                |entry: Type| entry.is_plain(TypeEnum::Bool),
            ),
    {
        self.intern_plain(TypeEnum::Bool)
    }

    /// The token of the type `Int`, without decorations.
    pub fn type_int(&mut self, width: u32, signedness: u32) -> (token: Token<Type>)
        requires
            old(self).wf(),
            old(self).has_room(),
        ensures
            final(self).wf(),
            interns(
                old(self).types(),
                final(self).types(),
                token@ as int,
                |entry: Type| entry.is_plain(TypeEnum::Int { width, signedness }),
            ),
    {
        self.intern_plain(TypeEnum::Int { width, signedness })
    }

    /// The token of the type `Float`, without decorations.
    pub fn type_float(&mut self, width: u32) -> (token: Token<Type>)
        requires
            old(self).wf(),
            old(self).has_room(),
        ensures
            final(self).wf(),
            interns(
                old(self).types(),
                final(self).types(),
                token@ as int,
                |entry: Type| entry.is_plain(TypeEnum::Float { width }),
            ),
    {
        self.intern_plain(TypeEnum::Float { width })
    }

    /// The token of the type `Vector`, without decorations.
    pub fn type_vector(
        &mut self,
        component_type: Token<Type>,
        component_count: u32,
    ) -> (token: Token<Type>)
        requires
            old(self).wf(),
            old(self).has_room(),
        ensures
            final(self).wf(),
            interns(
                old(self).types(),
                final(self).types(),
                token@ as int,
                |entry: Type| entry.is_plain(TypeEnum::Vector { component_type, component_count }),
            ),
    {
        self.intern_plain(TypeEnum::Vector { component_type, component_count })
    }

    /// The token of the type `Matrix`, without decorations.
    pub fn type_matrix(
        &mut self,
        column_type: Token<Type>,
        column_count: u32,
    ) -> (token: Token<Type>)
        requires
            old(self).wf(),
            old(self).has_room(),
        ensures
            final(self).wf(),
            interns(
                old(self).types(),
                final(self).types(),
                token@ as int,
                |entry: Type| entry.is_plain(TypeEnum::Matrix { column_type, column_count }),
            ),
    {
        self.intern_plain(TypeEnum::Matrix { column_type, column_count })
    }

    /// The token of the type `Image`, without decorations.
    pub fn type_image(
        &mut self,
        sampled_type: Token<Type>,
        dim: u32,
        depth: u32,
        arrayed: u32,
        ms: u32,
        sampled: u32,
        image_format: u32,
        access_qualifier: Option<u32>,
    ) -> (token: Token<Type>)
        requires
            old(self).wf(),
            old(self).has_room(),
        ensures
            final(self).wf(),
            interns(
                old(self).types(),
                final(self).types(),
                token@ as int,
                |entry: Type| entry.is_plain(TypeEnum::Image {
                    sampled_type,
                    dim,
                    depth,
                    arrayed,
                    ms,
                    sampled,
                    image_format,
                    access_qualifier,
                }),
            ),
    {
        self.intern_plain(TypeEnum::Image {
            sampled_type,
            dim,
            depth,
            arrayed,
            ms,
            sampled,
            image_format,
            access_qualifier,
        })
    }

    /// The token of the type `Sampler`, without decorations.
    pub fn type_sampler(&mut self) -> (token: Token<Type>)
        requires
            old(self).wf(),
            old(self).has_room(),
        ensures
            final(self).wf(),
            interns(
                old(self).types(),
                final(self).types(),
                token@ as int,
                |entry: Type| entry.is_plain(TypeEnum::Sampler),
            ),
    {
        self.intern_plain(TypeEnum::Sampler)
    }

    /// The token of the type `SampledImage`, without decorations.
    pub fn type_sampled_image(&mut self, image_type: Token<Type>) -> (token: Token<Type>)
        requires
            old(self).wf(),
            old(self).has_room(),
        ensures
            final(self).wf(),
            interns(
                old(self).types(),
                final(self).types(),
                token@ as int,
                |entry: Type| entry.is_plain(TypeEnum::SampledImage { image_type }),
            ),
    {
        self.intern_plain(TypeEnum::SampledImage { image_type })
    }

    /// The token of the type `Array`, without decorations.
    pub fn type_array(
        &mut self,
        element_type: Token<Type>,
        length: Token<Constant>,
    ) -> (token: Token<Type>)
        requires
            old(self).wf(),
            old(self).has_room(),
        ensures
            final(self).wf(),
            interns(
                old(self).types(),
                final(self).types(),
                token@ as int,
                |entry: Type| entry.is_plain(TypeEnum::Array { element_type, length }),
            ),
    {
        self.intern_plain(TypeEnum::Array { element_type, length })
    }

    /// The token of the type `RuntimeArray`, without decorations.
    pub fn type_runtime_array(&mut self, element_type: Token<Type>) -> (token: Token<Type>)
        requires
            old(self).wf(),
            old(self).has_room(),
        ensures
            final(self).wf(),
            interns(
                old(self).types(),
                final(self).types(),
                token@ as int,
                |entry: Type| entry.is_plain(TypeEnum::RuntimeArray { element_type }),
            ),
    {
        self.intern_plain(TypeEnum::RuntimeArray { element_type })
    }

    /// The token of the type `Opaque`, without decorations.
    pub fn type_opaque(&mut self, name: String) -> (token: Token<Type>)
        requires
            old(self).wf(),
            old(self).has_room(),
        ensures
            final(self).wf(),
            interns(
                old(self).types(),
                final(self).types(),
                token@ as int,
                |entry: Type| entry.is_plain(TypeEnum::Opaque { name }),
            ),
    {
        self.intern_plain(TypeEnum::Opaque { name })
    }

    /// The token of the type `Pointer`, without decorations.
    pub fn type_pointer(&mut self, storage_class: u32, ty: Token<Type>) -> (token: Token<Type>)
        requires
            old(self).wf(),
            old(self).has_room(),
        ensures
            final(self).wf(),
            interns(
                old(self).types(),
                final(self).types(),
                token@ as int,
                |entry: Type| entry.is_plain(TypeEnum::Pointer { storage_class, ty }),
            ),
    {
        self.intern_plain(TypeEnum::Pointer { storage_class, ty })
    }

    /// The token of the type `Event`, without decorations.
    pub fn type_event(&mut self) -> (token: Token<Type>)
        requires
            old(self).wf(),
            old(self).has_room(),
        ensures
            final(self).wf(),
            interns(
                old(self).types(),
                final(self).types(),
                token@ as int,
                |entry: Type| entry.is_plain(TypeEnum::Event),
            ),
    {
        self.intern_plain(TypeEnum::Event)
    }

    /// The token of the type `DeviceEvent`, without decorations.
    pub fn type_device_event(&mut self) -> (token: Token<Type>)
        requires
            old(self).wf(),
            old(self).has_room(),
        ensures
            final(self).wf(),
            interns(
                old(self).types(),
                final(self).types(),
                token@ as int,
                |entry: Type| entry.is_plain(TypeEnum::DeviceEvent),
            ),
    {
        self.intern_plain(TypeEnum::DeviceEvent)
    }

    /// The token of the type `ReserveId`, without decorations.
    pub fn type_reserve_id(&mut self) -> (token: Token<Type>)
        requires
            old(self).wf(),
            old(self).has_room(),
        ensures
            final(self).wf(),
            interns(
                old(self).types(),
                final(self).types(),
                token@ as int,
                |entry: Type| entry.is_plain(TypeEnum::ReserveId),
            ),
    {
        self.intern_plain(TypeEnum::ReserveId)
    }

    /// The token of the type `Queue`, without decorations.
    pub fn type_queue(&mut self) -> (token: Token<Type>)
        requires
            old(self).wf(),
            old(self).has_room(),
        ensures
            final(self).wf(),
            interns(
                old(self).types(),
                final(self).types(),
                token@ as int,
                |entry: Type| entry.is_plain(TypeEnum::Queue),
            ),
    {
        self.intern_plain(TypeEnum::Queue)
    }

    /// The token of the type `Pipe`, without decorations.
    pub fn type_pipe(&mut self, qualifier: u32) -> (token: Token<Type>)
        requires
            old(self).wf(),
            old(self).has_room(),
        ensures
            final(self).wf(),
            interns(
                old(self).types(),
                final(self).types(),
                token@ as int,
                |entry: Type| entry.is_plain(TypeEnum::Pipe { qualifier }),
            ),
    {
        self.intern_plain(TypeEnum::Pipe { qualifier })
    }

    /// The token of the type `ForwardPointer`, without decorations.
    pub fn type_forward_pointer(
        &mut self,
        pointer_type: Token<Type>,
        storage_class: u32,
    ) -> (token: Token<Type>)
        requires
            old(self).wf(),
            old(self).has_room(),
        ensures
            final(self).wf(),
            interns(
                old(self).types(),
                final(self).types(),
                token@ as int,
                |entry: Type| entry.is_plain(TypeEnum::ForwardPointer {
                    pointer_type,
                    storage_class,
                }),
            ),
    {
        self.intern_plain(TypeEnum::ForwardPointer { pointer_type, storage_class })
    }

    /// The token of the type `PipeStorage`, without decorations.
    pub fn type_pipe_storage(&mut self) -> (token: Token<Type>)
        requires
            old(self).wf(),
            old(self).has_room(),
        ensures
            final(self).wf(),
            interns(
                old(self).types(),
                final(self).types(),
                token@ as int,
                |entry: Type| entry.is_plain(TypeEnum::PipeStorage),
            ),
    {
        self.intern_plain(TypeEnum::PipeStorage)
    }

    /// The token of the type `NamedBarrier`, without decorations.
    pub fn type_named_barrier(&mut self) -> (token: Token<Type>)
        requires
            old(self).wf(),
            old(self).has_room(),
        ensures
            final(self).wf(),
            interns(
                old(self).types(),
                final(self).types(),
                token@ as int,
                |entry: Type| entry.is_plain(TypeEnum::NamedBarrier),
            ),
    {
        self.intern_plain(TypeEnum::NamedBarrier)
    }
}

} // verus!
