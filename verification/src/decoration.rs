//! Decorations: what an annotation instruction says of its target.

use vstd::prelude::*;

verus! {

/// A decoration, with its parameters. Values of enumerations are held as
/// their numbers.
#[derive(Clone, Debug, PartialEq, Eq)]
pub enum Decoration {
    RelaxedPrecision,
    SpecId(u32),
    Block,
    BufferBlock,
    RowMajor,
    ColMajor,
    ArrayStride(u32),
    MatrixStride(u32),
    GLSLShared,
    GLSLPacked,
    CPacked,
    BuiltIn(u32),
    NoPerspective,
    Flat,
    Patch,
    Centroid,
    Sample,
    Invariant,
    Restrict,
    Aliased,
    Volatile,
    Constant,
    Coherent,
    NonWritable,
    NonReadable,
    Uniform,
    SaturatedConversion,
    Stream(u32),
    Location(u32),
    Component(u32),
    Index(u32),
    Binding(u32),
    DescriptorSet(u32),
    Offset(u32),
    XfbBuffer(u32),
    XfbStride(u32),
    FuncParamAttr(u32),
    FPRoundingMode(u32),
    FPFastMathMode(u32),
    /// The name under which the linker knows the object, and how it is linked.
    LinkageAttributes(String, u32),
    NoContraction,
    InputAttachmentIndex(u32),
    Alignment(u32),
    MaxByteOffset(u32),
}

impl Decoration {
    /// Structural equality: the same decoration with the same parameters.
    pub open spec fn same(&self, other: &Decoration) -> bool {
        match (*self, *other) {
            (
                Decoration::LinkageAttributes(name, linkage),
                Decoration::LinkageAttributes(other_name, other_linkage),
            ) => name@ == other_name@ && linkage == other_linkage,
            (Decoration::LinkageAttributes(_, _), _) => false,
            (_, Decoration::LinkageAttributes(_, _)) => false,
            _ => *self == *other,
        }
    }

    /// Whether the two decorations are structurally equal.
    pub fn equals(&self, other: &Decoration) -> (equal: bool)
        ensures
            equal == self.same(other),
    {
        match (self, other) {
            (Decoration::RelaxedPrecision, Decoration::RelaxedPrecision) => true,
            (Decoration::SpecId(a), Decoration::SpecId(b)) => *a == *b,
            (Decoration::Block, Decoration::Block) => true,
            (Decoration::BufferBlock, Decoration::BufferBlock) => true,
            (Decoration::RowMajor, Decoration::RowMajor) => true,
            (Decoration::ColMajor, Decoration::ColMajor) => true,
            (Decoration::ArrayStride(a), Decoration::ArrayStride(b)) => *a == *b,
            (Decoration::MatrixStride(a), Decoration::MatrixStride(b)) => *a == *b,
            (Decoration::GLSLShared, Decoration::GLSLShared) => true,
            (Decoration::GLSLPacked, Decoration::GLSLPacked) => true,
            (Decoration::CPacked, Decoration::CPacked) => true,
            (Decoration::BuiltIn(a), Decoration::BuiltIn(b)) => *a == *b,
            (Decoration::NoPerspective, Decoration::NoPerspective) => true,
            (Decoration::Flat, Decoration::Flat) => true,
            (Decoration::Patch, Decoration::Patch) => true,
            (Decoration::Centroid, Decoration::Centroid) => true,
            (Decoration::Sample, Decoration::Sample) => true,
            (Decoration::Invariant, Decoration::Invariant) => true,
            (Decoration::Restrict, Decoration::Restrict) => true,
            (Decoration::Aliased, Decoration::Aliased) => true,
            (Decoration::Volatile, Decoration::Volatile) => true,
            (Decoration::Constant, Decoration::Constant) => true,
            (Decoration::Coherent, Decoration::Coherent) => true,
            (Decoration::NonWritable, Decoration::NonWritable) => true,
            (Decoration::NonReadable, Decoration::NonReadable) => true,
            (Decoration::Uniform, Decoration::Uniform) => true,
            (Decoration::SaturatedConversion, Decoration::SaturatedConversion) => true,
            (Decoration::Stream(a), Decoration::Stream(b)) => *a == *b,
            (Decoration::Location(a), Decoration::Location(b)) => *a == *b,
            (Decoration::Component(a), Decoration::Component(b)) => *a == *b,
            (Decoration::Index(a), Decoration::Index(b)) => *a == *b,
            (Decoration::Binding(a), Decoration::Binding(b)) => *a == *b,
            (Decoration::DescriptorSet(a), Decoration::DescriptorSet(b)) => *a == *b,
            (Decoration::Offset(a), Decoration::Offset(b)) => *a == *b,
            (Decoration::XfbBuffer(a), Decoration::XfbBuffer(b)) => *a == *b,
            (Decoration::XfbStride(a), Decoration::XfbStride(b)) => *a == *b,
            (Decoration::FuncParamAttr(a), Decoration::FuncParamAttr(b)) => *a == *b,
            (Decoration::FPRoundingMode(a), Decoration::FPRoundingMode(b)) => *a == *b,
            (Decoration::FPFastMathMode(a), Decoration::FPFastMathMode(b)) => *a == *b,
            (Decoration::LinkageAttributes(name, linkage), Decoration::LinkageAttributes(other_name, other_linkage)) => {
                *name == *other_name && *linkage == *other_linkage
            },
            (Decoration::NoContraction, Decoration::NoContraction) => true,
            (Decoration::InputAttachmentIndex(a), Decoration::InputAttachmentIndex(b)) => *a == *b,
            (Decoration::Alignment(a), Decoration::Alignment(b)) => *a == *b,
            (Decoration::MaxByteOffset(a), Decoration::MaxByteOffset(b)) => *a == *b,
            _ => false,
        }
    }

    /// Structural equality is an equivalence.
    pub proof fn lemma_same_is_equivalence(a: Decoration, b: Decoration, c: Decoration)
        ensures
            a.same(&a),
            a.same(&b) ==> b.same(&a),
            a.same(&b) && b.same(&c) ==> a.same(&c),
    {
    }
}

/// Whether two lists of decorations are structurally equal: as long as each
/// other, with equal decorations at each place.
pub open spec fn same_decorations(a: Seq<Decoration>, b: Seq<Decoration>) -> bool {
    &&& a.len() == b.len()
    &&& forall|i: int| 0 <= i < a.len() ==> (#[trigger] a[i]).same(&b[i])
}

/// Whether the two lists of decorations are structurally equal.
pub fn equal_decorations(a: &Vec<Decoration>, b: &Vec<Decoration>) -> (equal: bool)
    ensures
        equal == same_decorations(a@, b@),
{
    if a.len() != b.len() {
        return false;
    }
    let mut i: usize = 0;
    while i < a.len()
        invariant
            i <= a@.len(),
            a@.len() == b@.len(),
            forall|j: int| 0 <= j < i ==> (#[trigger] a@[j]).same(&b@[j]),
        decreases a@.len() - i,
    {
        if !a[i].equals(&b[i]) {
            return false;
        }
        i = i + 1;
    }
    true
}

/// Structural equality of lists of decorations is an equivalence.
pub proof fn lemma_same_decorations_is_equivalence(
    a: Seq<Decoration>,
    b: Seq<Decoration>,
    c: Seq<Decoration>,
)
    ensures
        same_decorations(a, a),
        same_decorations(a, b) ==> same_decorations(b, a),
        same_decorations(a, b) && same_decorations(b, c) ==> same_decorations(a, c),
{
    assert forall|i: int| 0 <= i < a.len() implies (#[trigger] a[i]).same(&a[i]) by {
        Decoration::lemma_same_is_equivalence(a[i], a[i], a[i]);
    }
    if same_decorations(a, b) {
        assert forall|i: int| 0 <= i < b.len() implies (#[trigger] b[i]).same(&a[i]) by {
            Decoration::lemma_same_is_equivalence(a[i], b[i], b[i]);
        }
        if same_decorations(b, c) {
            assert forall|i: int| 0 <= i < a.len() implies (#[trigger] a[i]).same(&c[i]) by {
                Decoration::lemma_same_is_equivalence(a[i], b[i], c[i]);
            }
        }
    }
}

} // verus!
