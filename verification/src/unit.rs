//! The quantity in which a statistic is counted.

use vstd::prelude::*;

verus! {

/// Which quantity to count allocations in.
#[derive(Clone, Copy, Debug, PartialEq, Eq, Structural)]
pub enum Unit {
    /// Bytes allocated.
    Bytes,
    /// Blocks allocated, that is the number of allocations.
    Blocks,
    /// Time that the allocated blocks stayed alive, summed over the blocks.
    Lifetimes,
}

impl Unit {
    /// The unit that a request stands for: `Bytes` where none is named.
    pub open spec fn or_default(requested: Option<Unit>) -> Unit {
        match requested {
            Some(unit) => unit,
            None => Unit::Bytes,
        }
    }
}

impl Default for Unit {
    /// Bytes are counted unless another unit is asked for.
    fn default() -> (u: Unit)
        ensures
            u == Unit::Bytes,
    {
        Unit::Bytes
    }
}

} // verus!
