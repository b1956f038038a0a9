//! Directory reopen behavior for recursive local walkers.

use vstd::prelude::*;

verus! {

/// Behavior used when a recursive walker must close and later revisit a
/// directory after reaching its open-handle budget.
#[derive(Clone, Copy, Debug, PartialEq, Eq, Structural)]
pub enum LocalDirectoryReopenPolicy {
    /// Fail instead of reopening directories.
    Fail,
    /// Reopen directories and verify that traversal state remains valid.
    Reopen,
}

impl Default for LocalDirectoryReopenPolicy {
    /// Reopening is the default behavior.
    fn default() -> (r: Self)
        ensures
            r == LocalDirectoryReopenPolicy::Reopen,
    {
        LocalDirectoryReopenPolicy::Reopen
    }
}

} // verus!
