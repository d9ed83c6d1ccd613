//! The backing stores that a table can be built on.

use vstd::prelude::*;

verus! {

/// The closed set of backing stores.
#[derive(Clone, Copy, Debug, PartialEq, Eq)]
pub enum InternerFlavor {
    /// The store that keeps its strings in a growable array.
    Array,
}

} // verus!
