use vstd::prelude::*;

verus! {

/// Outcome of one poll of a node (or of one of its inputs) within a
/// recomputation pass.
#[derive(Clone, Copy, Debug, PartialEq, Eq, Structural)]
pub enum Poll {
    /// The node is blocked on an unresolved input; the caller must retry in a
    /// later pass.
    Pending,
    /// A new, different output is now cached.
    Updated,
    /// No new information for dependents.
    Unchanged,
}

} // verus!
