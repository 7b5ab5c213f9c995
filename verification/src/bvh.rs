//! Bounding-volume-hierarchy build plan.
//!
//! The tree builder works on a contiguous run of scene objects and, at
//! each node, either keeps the run as a leaf, pairs two objects, or splits
//! the run and recurses on both parts. Where to split is suggested by a
//! scan of the objects' bounding-box centers against their mean along the
//! widest axis; geometry is not this module's concern, but the structural
//! decision is: the suggestion is clamped so that both parts of a split
//! are non-empty, which guarantees the recursion terminates and every
//! object lands in exactly one leaf.

use vstd::prelude::*;

verus! {

/// What the builder does with a run of objects.
#[derive(Clone, Copy, Debug, PartialEq, Eq, Structural)]
pub enum BuildStep {
    /// A single object: it becomes a leaf of the tree.
    Leaf,
    /// Exactly two objects: they become the two children of one node.
    Pair,
    /// Split the run before this offset and build a node from the two
    /// parts.
    Split(usize),
}

/// Decides the build step for a run of `length` objects, given the split
/// offset suggested by the center scan (or none, if the scan found no
/// center past the mean). A suggested split is clamped to keep at least
/// one object on each side, so both recursive calls shrink the run.
pub fn build_step(length: usize, suggested: Option<usize>) -> (s: BuildStep)
    requires
        1 <= length,
        suggested matches Some(p) ==> p < length,
    ensures
        length == 1 ==> s == BuildStep::Leaf,
        length == 2 ==> s == BuildStep::Pair,
        length > 2 ==> (s matches BuildStep::Split(p) && 1 <= p < length && p == (
        match suggested {
            Some(q) => if q >= 1 {
                q
            } else {
                1
            },
            None => length / 2,
        })),
{
    if length == 1 {
        BuildStep::Leaf
    } else if length == 2 {
        BuildStep::Pair
    } else {
        let p = match suggested {
            Some(q) => if q >= 1 {
                q
            } else {
                1
            },
            None => length / 2,
        };
        BuildStep::Split(p)
    }
}

} // verus!
