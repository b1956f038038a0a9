//! Explicit provider ceilings for one recursive deletion request.

use std::time::Duration;

use vstd::prelude::*;

verus! {

/// Abstract value of [`LocalDeleteResourceLimits`].
pub struct DeleteLimitsModel {
    /// Maximum descendant depth.
    pub max_depth: usize,
    /// Maximum discovered entries, including the requested root.
    pub max_entries: usize,
    /// Maximum encoded bytes held by pending deletion paths.
    pub max_pending_path_bytes: usize,
    /// Maximum cooperative elapsed time.
    pub deadline: Duration,
}

/// Resource ceilings applied to each recursive local deletion request.
///
/// Entries include the requested directory at depth zero. Pending-path bytes
/// count encoded native path lengths, not allocator overhead. The deadline is
/// cooperative and cannot interrupt an in-flight native call.
#[derive(Clone, Copy, Debug, PartialEq, Eq)]
pub struct LocalDeleteResourceLimits {
    max_depth: usize,
    max_entries: usize,
    max_pending_path_bytes: usize,
    deadline: Duration,
}

impl View for LocalDeleteResourceLimits {
    type V = DeleteLimitsModel;

    closed spec fn view(&self) -> DeleteLimitsModel {
        DeleteLimitsModel {
            max_depth: self.max_depth,
            max_entries: self.max_entries,
            max_pending_path_bytes: self.max_pending_path_bytes,
            deadline: self.deadline,
        }
    }
}

impl LocalDeleteResourceLimits {
    /// Creates complete recursive deletion ceilings.
    ///
    /// Zero values are valid. Depth zero permits only the requested root;
    /// zero entries, path bytes, or elapsed time prevent recursive work.
    pub fn new(
        max_depth: usize,
        max_entries: usize,
        max_pending_path_bytes: usize,
        deadline: Duration,
    ) -> (r: Self)
        ensures
            r@ == (DeleteLimitsModel { max_depth, max_entries, max_pending_path_bytes, deadline }),
    {
        LocalDeleteResourceLimits { max_depth, max_entries, max_pending_path_bytes, deadline }
    }

    /// Returns the maximum depth, with the requested root at zero.
    pub fn max_depth(self) -> (r: usize)
        ensures
            r == self@.max_depth,
    {
        self.max_depth
    }

    /// Returns the maximum discovered entries, including the root.
    pub fn max_entries(self) -> (r: usize)
        ensures
            r == self@.max_entries,
    {
        self.max_entries
    }

    /// Returns the maximum encoded bytes held by pending paths.
    pub fn max_pending_path_bytes(self) -> (r: usize)
        ensures
            r == self@.max_pending_path_bytes,
    {
        self.max_pending_path_bytes
    }

    /// Returns the cooperative per-request deadline.
    pub fn deadline(self) -> (r: Duration)
        ensures
            r == self@.deadline,
    {
        self.deadline
    }
}

} // verus!
