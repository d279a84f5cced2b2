//! The registry of kernel modules.
use vstd::prelude::*;

verus! {

/// The kernel modules.
#[derive(Debug, Clone, Copy, PartialEq, Eq, Hash, Structural)]
pub enum Id {
    Affine,
    Binary,
    Cast,
    Conv,
    Fill,
    Indexing,
    Quantized,
    Reduce,
    Sort,
    Ternary,
    Unary,
}

/// All the modules, each at its index.
pub const ALL_IDS: [Id; 11] = [
    Id::Affine,
    Id::Binary,
    Id::Cast,
    Id::Conv,
    Id::Fill,
    Id::Indexing,
    Id::Quantized,
    Id::Reduce,
    Id::Sort,
    Id::Ternary,
    Id::Unary,
];

/// The code of a kernel module and its place among the modules.
pub struct Module {
    index: usize,
    ptx: &'static str,
}

impl Module {
    /// A module has one of the indices of `ALL_IDS`.
    #[verifier::type_invariant]
    spec fn wf(self) -> bool {
        self.index < ALL_IDS@.len()
    }

    /// The place of the module in `ALL_IDS`.
    pub closed spec fn spec_index(self) -> usize {
        self.index
    }

    /// The text of the code.
    pub closed spec fn spec_ptx(self) -> Seq<char> {
        self.ptx@
    }

    /// The module `id`, with `ptx` for its code.
    pub fn new(id: Id, ptx: &'static str) -> (r: Module)
        ensures
            r.spec_index() == index_of(id),
            r.spec_ptx() == ptx@,
    {
        Module { index: module_index(id), ptx }
    }

    /// The place of the module in `ALL_IDS`.
    pub fn index(&self) -> (r: usize)
        ensures
            r == self.spec_index(),
            r < ALL_IDS@.len(),
    {
        proof {
            use_type_invariant(self);
        }
        self.index
    }

    /// The code of the module: PTX that is ready to load, or CUDA source that has to be compiled
    /// first.
    pub fn ptx(&self) -> (r: &'static str)
        ensures
            r@ == self.spec_ptx(),
    {
        self.ptx
    }
}

/// The place of a module: the modules are numbered in the order in which they are declared.
pub open spec fn index_of(id: Id) -> int {
    match id {
        Id::Affine => 0,
        Id::Binary => 1,
        Id::Cast => 2,
        Id::Conv => 3,
        Id::Fill => 4,
        Id::Indexing => 5,
        Id::Quantized => 6,
        Id::Reduce => 7,
        Id::Sort => 8,
        Id::Ternary => 9,
        Id::Unary => 10,
    }
}

/// A module is found at its index.
pub proof fn lemma_id_at_index(id: Id)
    ensures
        0 <= index_of(id) < ALL_IDS@.len(),
        ALL_IDS@[index_of(id)] == id,
{
}

/// Each index is that of the module found there, so no two modules share one.
pub proof fn lemma_index_at(i: int)
    requires
        0 <= i < ALL_IDS@.len(),
    ensures
        index_of(ALL_IDS@[i]) == i,
{
}

/// No two modules share an index.
pub proof fn law_indices_differ(a: Id, b: Id)
    requires
        a != b,
    ensures
        index_of(a) != index_of(b),
{
    lemma_id_at_index(a);
    lemma_id_at_index(b);
}

/// The index of `id` in `ALL_IDS`.
pub fn module_index(id: Id) -> (r: usize)
    ensures
        r == index_of(id),
        ALL_IDS@[r as int] == id,
{
    let ids: [Id; 11] = ALL_IDS;
    let mut i: usize = 0;
    proof {
        lemma_id_at_index(id);
    }
    while ids[i] != id
        invariant
            i <= index_of(id) < ids@.len(),
            ids@ == ALL_IDS@,
        decreases ids@.len() - i,
    {
        i += 1;
    }
    proof {
        lemma_index_at(i as int);
    }
    i
}

/// The modules are numbered in the order of the alphabet, from zero on.
pub proof fn law_indices_follow_the_alphabet()
    ensures
        ALL_IDS@.len() == 11,
        index_of(Id::Affine) == 0 && ALL_IDS@[0] == Id::Affine,
        index_of(Id::Binary) == 1 && ALL_IDS@[1] == Id::Binary,
        index_of(Id::Cast) == 2 && ALL_IDS@[2] == Id::Cast,
        index_of(Id::Conv) == 3 && ALL_IDS@[3] == Id::Conv,
        index_of(Id::Fill) == 4 && ALL_IDS@[4] == Id::Fill,
        index_of(Id::Indexing) == 5 && ALL_IDS@[5] == Id::Indexing,
        index_of(Id::Quantized) == 6 && ALL_IDS@[6] == Id::Quantized,
        index_of(Id::Reduce) == 7 && ALL_IDS@[7] == Id::Reduce,
        index_of(Id::Sort) == 8 && ALL_IDS@[8] == Id::Sort,
        index_of(Id::Ternary) == 9 && ALL_IDS@[9] == Id::Ternary,
        index_of(Id::Unary) == 10 && ALL_IDS@[10] == Id::Unary,
{
}

} // verus!
