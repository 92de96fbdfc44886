//! The time source of a pass.

use vstd::prelude::*;

verus! {

/// The time by which a pass measures transitions and animations. It is read
/// once, when the pass is set up, and stays as it is until the pass ends.
#[derive(Clone, Copy, PartialEq, Eq, Hash, Debug, Structural)]
pub struct Timer {
    /// Milliseconds since the clock of the animation scheduler started.
    pub millis: u64,
}

} // verus!
