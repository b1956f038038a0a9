//! Resource limits for recursive local listings.

use std::time::Duration;

use vstd::prelude::*;

use crate::error::LocalError;
use crate::error::LocalErrorKind;
use crate::error::LocalOperation;

verus! {

/// Abstract value of [`LocalListResourceLimits`].
pub struct ListLimitsModel {
    /// Maximum recursive depth, with the request root at depth zero.
    pub max_depth: usize,
    /// Maximum entries yielded before adapter filtering.
    pub max_entries: usize,
    /// Maximum encoded bytes retained for seen entry names.
    pub max_seen_name_bytes: usize,
    /// Maximum concurrently open directories during traversal.
    pub max_open_directories: usize,
    /// Cooperative deadline checked between native operations.
    pub deadline: Duration,
}

/// Resource limits applied to recursive local listings.
#[derive(Clone, Copy, Debug, PartialEq, Eq)]
pub struct LocalListResourceLimits {
    max_depth: usize,
    max_entries: usize,
    max_seen_name_bytes: usize,
    max_open_directories: usize,
    deadline: Duration,
}

impl View for LocalListResourceLimits {
    type V = ListLimitsModel;

    closed spec fn view(&self) -> ListLimitsModel {
        ListLimitsModel {
            max_depth: self.max_depth,
            max_entries: self.max_entries,
            max_seen_name_bytes: self.max_seen_name_bytes,
            max_open_directories: self.max_open_directories,
            deadline: self.deadline,
        }
    }
}

/// The error returned when a listing may not open any directory handle.
pub open spec fn list_open_directories_error(e: LocalError) -> bool {
    &&& e.kind == LocalErrorKind::InvalidOptions
    &&& e.operation == LocalOperation::Provider
    &&& e.effect is None
}

impl LocalListResourceLimits {
    /// The open-directory budget of every listing limit is positive.
    #[verifier::type_invariant]
    closed spec fn positive_open_directories(self) -> bool {
        self.max_open_directories > 0
    }

    /// Creates complete recursive listing limits.
    ///
    /// A zero open-directory budget is rejected before any native I/O.
    pub fn new(
        max_depth: usize,
        max_entries: usize,
        max_seen_name_bytes: usize,
        max_open_directories: usize,
        deadline: Duration,
    ) -> (r: Result<Self, LocalError>)
        ensures
            r is Err <==> max_open_directories == 0,
            r matches Err(e) ==> list_open_directories_error(e),
            r matches Ok(limits) ==> limits@ == (ListLimitsModel {
                max_depth,
                max_entries,
                max_seen_name_bytes,
                max_open_directories,
                deadline,
            }),
    {
        if max_open_directories == 0 {
            return Err(
                LocalError::new(
                    LocalErrorKind::InvalidOptions,
                    LocalOperation::Provider,
                    "max_open_directories must be greater than zero",
                ),
            );
        }
        Ok(LocalListResourceLimits {
            max_depth,
            max_entries,
            max_seen_name_bytes,
            max_open_directories,
            deadline,
        })
    }

    /// Returns the maximum recursive depth.
    pub fn max_depth(self) -> (r: usize)
        ensures
            r == self@.max_depth,
    {
        self.max_depth
    }

    /// Returns the maximum entries yielded by the native walker before
    /// adapter prefix filtering.
    pub fn max_entries(self) -> (r: usize)
        ensures
            r == self@.max_entries,
    {
        self.max_entries
    }

    /// Returns the maximum total bytes retained for seen entry names.
    pub fn max_seen_name_bytes(self) -> (r: usize)
        ensures
            r == self@.max_seen_name_bytes,
    {
        self.max_seen_name_bytes
    }

    /// Returns the maximum concurrently open directories.
    pub fn max_open_directories(self) -> (r: usize)
        ensures
            r == self@.max_open_directories,
            r > 0,
    {
        proof {
            use_type_invariant(&self);
        }
        self.max_open_directories
    }

    /// Returns the recursive operation deadline.
    pub fn deadline(self) -> (r: Duration)
        ensures
            r == self@.deadline,
    {
        self.deadline
    }
}

} // verus!
