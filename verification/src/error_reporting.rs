//! The sink for diagnostics.

use vstd::prelude::*;

verus! {

/// Takes the diagnostics that come up while style sheets are read and styles
/// are computed. The contexts put no lock around it: an implementation has to
/// bear calls from several threads at once.
pub trait ParseErrorReporter: Sync {
    /// Takes note of `message`, which concerns the given place in a style
    /// sheet.
    fn report_error(&self, line: u32, column: u32, message: &str);
}

} // verus!
