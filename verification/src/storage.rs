//! The table in which types are interned.
//!
//! The table only grows. It holds no two structurally equal types, so a type
//! has one token however often it is asked for.

use vstd::prelude::*;
use crate::token::Token;
use crate::types::{lemma_same_is_equivalence, Type};

verus! {

/// Whether no two entries of the table are structurally equal.
pub open spec fn canonical(table: Seq<Type>) -> bool {
    forall|i: int, j: int|
        #![trigger table[i], table[j]]
        0 <= i < j < table.len() ==> !table[i].same(&table[j])
}

/// Whether the table holds an entry that `wanted` accepts.
pub open spec fn holds(table: Seq<Type>, wanted: spec_fn(Type) -> bool) -> bool {
    exists|i: int| 0 <= i < table.len() && wanted(#[trigger] table[i])
}

/// Whether asking the table `before` for an entry that `wanted` accepts
/// leaves the table `after` and gives the index `index`: the index of such an
/// entry, in a table that is unchanged where it held one, and is one entry
/// longer, the new entry last, where it held none.
pub open spec fn interns(
    before: Seq<Type>,
    after: Seq<Type>,
    index: int,
    wanted: spec_fn(Type) -> bool,
) -> bool {
    &&& 0 <= index < after.len()
    &&& wanted(after[index])
    &&& if holds(before, wanted) {
        after == before
    } else {
        &&& after.len() == before.len() + 1
        &&& after.drop_last() == before
        &&& index == before.len()
    }
}

/// The table of interned types.
#[derive(Debug)]
pub struct Storage {
    data: Vec<Type>,
}

impl View for Storage {
    type V = Seq<Type>;

    /// The entries, in the order in which they came.
    closed spec fn view(&self) -> Seq<Type> {
        self.data@
    }
}

impl Storage {
    /// Whether the table is canonical and every index fits a token.
    pub open spec fn wf(&self) -> bool {
        canonical(self@) && self@.len() <= u32::MAX + 1
    }

    /// Whether the table can take one more entry.
    pub open spec fn has_room(&self) -> bool {
        self@.len() <= u32::MAX
    }

    /// The empty table.
    pub fn new() -> (storage: Storage)
        ensures
            storage.wf(),
            storage@.len() == 0,
    {
        Storage { data: Vec::new() }
    }

    /// The number of entries.
    pub fn len(&self) -> (len: usize)
        ensures
            len == self@.len(),
    {
        self.data.len()
    }

    /// The entry that the token stands for, where the table has one.
    pub fn get(&self, token: Token<Type>) -> (entry: Option<&Type>)
        ensures
            match entry {
                Some(entry) => token@ < self@.len() && *entry == self@[token@ as int],
                None => token@ >= self@.len(),
            },
    {
        let index = token.id_ref() as usize;
        if index < self.data.len() {
            Some(&self.data[index])
        } else {
            None
        }
    }

    /// The token of `value`: that of the entry that is structurally equal to
    /// it, where the table holds one; otherwise that of `value` itself, which
    /// is then the last entry.
    pub fn fetch_or_append(&mut self, value: Type) -> (token: Token<Type>)
        requires
            old(self).wf(),
            old(self).has_room(),
        ensures
            final(self).wf(),
            interns(old(self)@, final(self)@, token@ as int, |entry: Type| entry.same(&value)),
            final(self)@ == old(self)@ || final(self)@ == old(self)@.push(value),
    {
        let mut i: usize = 0;
        while i < self.data.len()
            invariant
                i <= self.data@.len(),
                self.data@ == old(self).data@,
                old(self).wf(),
                old(self).has_room(),
                forall|j: int| 0 <= j < i ==> !(#[trigger] self.data@[j]).same(&value),
            decreases self.data@.len() - i,
        {
            if self.data[i].equals(&value) {
                return Token::new(i as u32);
            }
            i = i + 1;
        }
        let index = self.data.len() as u32;
        self.data.push(value);
        proof {
            assert(self.data@.drop_last() == old(self).data@);
            lemma_same_is_equivalence(value, value, value);
        }
        Token::new(index)
    }
}

/// Interning is canonical. Of two requests in a row to one canonical table,
/// for `a` and then for `b`: where `a` and `b` are structurally equal, the
/// second gives the index of the first and leaves the table as it is; where
/// they are not, it gives another index.
pub proof fn lemma_interning_is_canonical(
    table: Seq<Type>,
    after_a: Seq<Type>,
    after_b: Seq<Type>,
    index_a: int,
    index_b: int,
    a: Type,
    b: Type,
)
    requires
        canonical(table),
        interns(table, after_a, index_a, |entry: Type| entry.same(&a)),
        interns(after_a, after_b, index_b, |entry: Type| entry.same(&b)),
    ensures
        canonical(after_a),
        canonical(after_b),
        a.same(&b) ==> index_b == index_a && after_b == after_a,
        !a.same(&b) ==> index_b != index_a,
{
    lemma_interning_keeps_canonical(table, after_a, index_a, a);
    lemma_interning_keeps_canonical(after_a, after_b, index_b, b);
    let wanted_b = |entry: Type| entry.same(&b);
    lemma_same_is_equivalence(after_a[index_a], a, b);
    lemma_same_is_equivalence(after_b[index_b], b, a);
    lemma_same_is_equivalence(a, b, a);
    if a.same(&b) {
        assert(wanted_b(after_a[index_a]));
        assert(holds(after_a, wanted_b));
        lemma_same_is_equivalence(after_a[index_b], a, after_a[index_a]);
        lemma_same_is_equivalence(after_a[index_a], a, after_a[index_b]);
        lemma_same_is_equivalence(after_a[index_b], b, a);
    } else {
        if index_b == index_a {
            assert(after_b[index_b] == after_a[index_a]);
        }
    }
}

/// The table only grows: a request leaves every entry where it was, so a
/// token that stood for an entry before the request stands for the same
/// entry after it.
pub proof fn lemma_interning_only_appends(
    table: Seq<Type>,
    after: Seq<Type>,
    index: int,
    wanted: spec_fn(Type) -> bool,
)
    requires
        interns(table, after, index, wanted),
    ensures
        table.len() <= after.len() <= table.len() + 1,
        forall|i: int| 0 <= i < table.len() ==> after[i] == #[trigger] table[i],
{
    if !holds(table, wanted) {
        assert forall|i: int| 0 <= i < table.len() implies after[i] == #[trigger] table[i] by {
            assert(after.drop_last()[i] == after[i]);
        }
    }
}

/// A request to a canonical table leaves a canonical table.
pub proof fn lemma_interning_keeps_canonical(
    table: Seq<Type>,
    after: Seq<Type>,
    index: int,
    value: Type,
)
    requires
        canonical(table),
        interns(table, after, index, |entry: Type| entry.same(&value)),
    ensures
        canonical(after),
{
    let wanted = |entry: Type| entry.same(&value);
    if !holds(table, wanted) {
        assert forall|i: int, j: int|
            #![trigger after[i], after[j]]
            0 <= i < j < after.len() implies !after[i].same(&after[j]) by {
            if j < table.len() {
                assert(after[i] == table[i]);
                assert(after[j] == table[j]);
            } else {
                assert(after[i] == after.drop_last()[i]);
                assert(!wanted(table[i]));
                lemma_same_is_equivalence(table[i], after[j], value);
            }
        }
    }
}

} // verus!
