use vstd::prelude::*;

verus! {

/// The fixed height of the accumulator's hash tree: a protocol-wide
/// constant, never derived from the leaf count. Fixing the height fixes the
/// length of every membership proof regardless of tree population. The root
/// stands this many hashing levels above the leaves.
pub const TREE_HEIGHT: usize = 21;

/// The greatest number of leaves the fixed-height tree can hold: with 21
/// hashing levels between leaves and root, the leaf level has `2^21` slots;
/// a leaf list any longer than this cannot be placed.
pub open spec fn spec_max_leaf_count() -> int {
    0x200000
}

impl crate::MantaCrypto {
    /// The leaf capacity of the accumulator.
    pub fn max_leaf_count() -> (r: usize)
        ensures
            r == spec_max_leaf_count(),
    {
        0x200000
    }

    /// Decide whether a leaf list of length `n` fits the fixed-height tree.
    ///
    /// Construction must be refused, with a tree-construction error, exactly
    /// when this returns false: above the capacity the underlying tree
    /// builder cannot finish, and nothing in this crate may abort instead of
    /// returning an error.
    pub fn leaf_count_ok(n: usize) -> (r: bool)
        ensures
            r == (n <= spec_max_leaf_count()),
    {
        n <= 0x200000
    }
}

} // verus!
