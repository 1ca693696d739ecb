//! The Merkle root of a short byte string, as the `tree_hash` crate computes it.

use vstd::prelude::*;

verus! {

/// The number of bytes in one leaf of the hash tree.
pub const BYTES_PER_CHUNK: usize = 32;

/// The root that `tree_hash::merkle_root` gives for `bytes` in a tree of at least
/// `minimum_leaf_count` leaves.
pub uninterp spec fn merkle_root_of(bytes: Seq<u8>, minimum_leaf_count: nat) -> Seq<u8>;

/// Calls `tree_hash::merkle_root` on at most two leaves, where it pads `bytes` with
/// zeros and hashes them at most once.
///
/// The contract claims only that the root is determined by the two arguments.
#[verifier::external_body]
pub(crate) fn merkle_root(bytes: &[u8], minimum_leaf_count: usize) -> (root: [u8; 32])
    requires
        bytes@.len() <= 2 * BYTES_PER_CHUNK,
        minimum_leaf_count <= 2,
    ensures
        root@ == merkle_root_of(bytes@, minimum_leaf_count as nat),
{
    tree_hash::merkle_root(bytes, minimum_leaf_count).0
}

} // verus!
