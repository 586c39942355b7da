//! Opaque handles that stand for the ids of a raw module.

use core::cmp::Ordering;
use core::marker::PhantomData;
use vstd::prelude::*;

verus! {

/// A handle to a value of category `T`.
///
/// A token wraps an index and nothing else. The category is a phantom: it
/// keeps a token of one category from being used where another is expected.
/// Two tokens of one category are the same token when their indices agree.
#[derive(Debug)]
pub struct Token<T> {
    index: u32,
    marker: PhantomData<T>,
}

impl<T> View for Token<T> {
    type V = u32;

    /// The index that the token wraps.
    closed spec fn view(&self) -> u32 {
        self.index
    }
}

impl<T> Token<T> {
    /// The token that stands for the raw id `id`.
    pub fn new(id: u32) -> (token: Self)
        ensures
            token@ == id,
    {
        Token { index: id, marker: PhantomData }
    }

    /// The raw id that the token stands for.
    pub fn id_ref(&self) -> (id: u32)
        ensures
            id == self@,
    {
        self.index
    }

    /// Tokens with the same index are equal.
    pub proof fn lemma_view_injective(a: Self, b: Self)
        requires
            a@ == b@,
        ensures
            a == b,
    {
    }
}

impl<T> Clone for Token<T> {
    fn clone(&self) -> (copy: Self)
        ensures
            copy == *self,
    {
        Token { index: self.index, marker: PhantomData }
    }
}

impl<T> Copy for Token<T> {}

impl<T> PartialEq for Token<T> {
    fn eq(&self, other: &Self) -> (same: bool) {
        self.index == other.index
    }
}

impl<T> Eq for Token<T> {}

impl<T> vstd::std_specs::cmp::PartialEqSpecImpl for Token<T> {
    open spec fn obeys_eq_spec() -> bool {
        true
    }

    open spec fn eq_spec(&self, other: &Self) -> bool {
        *self == *other
    }
}

impl<T> PartialOrd for Token<T> {
    fn partial_cmp(&self, other: &Self) -> (order: Option<Ordering>) {
        if self.index < other.index {
            Some(Ordering::Less)
        } else if self.index == other.index {
            Some(Ordering::Equal)
        } else {
            Some(Ordering::Greater)
        }
    }
}

impl<T> vstd::std_specs::cmp::PartialOrdSpecImpl for Token<T> {
    open spec fn obeys_partial_cmp_spec() -> bool {
        true
    }

    open spec fn partial_cmp_spec(&self, other: &Self) -> Option<Ordering> {
        if self@ < other@ {
            Some(Ordering::Less)
        } else if self@ == other@ {
            Some(Ordering::Equal)
        } else {
            Some(Ordering::Greater)
        }
    }
}

} // verus!
