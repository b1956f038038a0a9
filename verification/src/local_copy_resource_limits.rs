//! Resource limits for recursive local copies.

use std::time::Duration;

use vstd::prelude::*;

use crate::error::LocalError;
use crate::error::LocalErrorKind;
use crate::error::LocalOperation;

verus! {

/// Abstract value of [`LocalCopyResourceLimits`].
pub struct CopyLimitsModel {
    /// Maximum recursive depth, with the request root at depth zero.
    pub max_depth: usize,
    /// Maximum number of traversed entries.
    pub max_entries: usize,
    /// Maximum copied bytes.
    pub max_bytes: u64,
    /// Maximum concurrently open directories during traversal.
    pub max_open_directories: usize,
    /// Cooperative deadline checked between native operations.
    pub deadline: Duration,
}

/// Resource limits applied to recursive local copies.
#[derive(Clone, Copy, Debug, PartialEq, Eq)]
pub struct LocalCopyResourceLimits {
    max_depth: usize,
    max_entries: usize,
    max_bytes: u64,
    max_open_directories: usize,
    deadline: Duration,
}

impl View for LocalCopyResourceLimits {
    type V = CopyLimitsModel;

    closed spec fn view(&self) -> CopyLimitsModel {
        CopyLimitsModel {
            max_depth: self.max_depth,
            max_entries: self.max_entries,
            max_bytes: self.max_bytes,
            max_open_directories: self.max_open_directories,
            deadline: self.deadline,
        }
    }
}

/// The error returned when a copy may not open any directory handle.
pub open spec fn copy_open_directories_error(e: LocalError) -> bool {
    &&& e.kind == LocalErrorKind::InvalidOptions
    &&& e.operation == LocalOperation::Provider
    &&& e.effect is None
}

impl LocalCopyResourceLimits {
    /// The open-directory budget of every copy limit is positive.
    #[verifier::type_invariant]
    closed spec fn positive_open_directories(self) -> bool {
        self.max_open_directories > 0
    }

    /// Creates complete recursive copy limits.
    ///
    /// A zero open-directory budget is rejected before any native I/O.
    pub fn new(
        max_depth: usize,
        max_entries: usize,
        max_bytes: u64,
        max_open_directories: usize,
        deadline: Duration,
    ) -> (r: Result<Self, LocalError>)
        ensures
            r is Err <==> max_open_directories == 0,
            r matches Err(e) ==> copy_open_directories_error(e),
            r matches Ok(limits) ==> limits@ == (CopyLimitsModel {
                max_depth,
                max_entries,
                max_bytes,
                max_open_directories,
                deadline,
            }),
    {
        if max_open_directories == 0 {
            return Err(
                LocalError::new(
                    LocalErrorKind::InvalidOptions,
                    LocalOperation::Provider,
                    "max_open_directories must be greater than zero",
                ),
            );
        }
        Ok(LocalCopyResourceLimits {
            max_depth,
            max_entries,
            max_bytes,
            max_open_directories,
            deadline,
        })
    }

    /// Returns the maximum recursive depth.
    pub fn max_depth(self) -> (r: usize)
        ensures
            r == self@.max_depth,
    {
        self.max_depth
    }

    /// Returns the maximum number of traversed entries.
    pub fn max_entries(self) -> (r: usize)
        ensures
            r == self@.max_entries,
    {
        self.max_entries
    }

    /// Returns the maximum copied bytes.
    pub fn max_bytes(self) -> (r: u64)
        ensures
            r == self@.max_bytes,
    {
        self.max_bytes
    }

    /// Returns the maximum concurrently open directories.
    pub fn max_open_directories(self) -> (r: usize)
        ensures
            r == self@.max_open_directories,
            r > 0,
    {
        proof {
            use_type_invariant(&self);
        }
        self.max_open_directories
    }

    /// Returns the recursive operation deadline.
    pub fn deadline(self) -> (r: Duration)
        ensures
            r == self@.deadline,
    {
        self.deadline
    }
}

} // verus!
