//! The handle on the compiled style rules.

use vstd::prelude::*;

verus! {

/// Stands for the compiled table of style rules against which elements are
/// matched. The table is built and kept elsewhere; the contexts only pass the
/// handle on, and every reader of a pass sees the same one.
#[derive(Clone, Copy, PartialEq, Eq, Hash, Debug, Structural)]
pub struct Stylist {
    /// The number under which the style system knows the table.
    pub id: u64,
}

} // verus!
