//! Explicit recursive resource policy for local filesystem providers.

use std::time::Duration;

use vstd::prelude::*;

use crate::local_copy_resource_limits::LocalCopyResourceLimits;
use crate::local_delete_resource_limits::LocalDeleteResourceLimits;
use crate::local_directory_reopen_policy::LocalDirectoryReopenPolicy;
use crate::local_list_resource_limits::LocalListResourceLimits;

verus! {

/// Abstract value of [`LocalResourcePolicy`].
pub struct ResourcePolicyModel {
    /// Optional native traversal ceilings for recursive listings.
    pub list: Option<LocalListResourceLimits>,
    /// Optional native traversal ceilings for recursive copies.
    pub copy: Option<LocalCopyResourceLimits>,
    /// Ceilings for ordinary recursive deletion requests.
    pub delete: Option<LocalDeleteResourceLimits>,
    /// Retry interval used while opening readers and writers.
    pub open_retry_timeout: Option<Duration>,
    /// Maximum attempts used when generating temporary names; never zero.
    pub temp_max_attempts: Option<usize>,
    /// Whether recursive walkers reopen directories after exhausting handles.
    pub directory_reopen_policy: LocalDirectoryReopenPolicy,
}

/// Per-request provider ceilings for recursive local operations.
///
/// Provider ceilings bound native operation work. A caller's listing limit
/// counts entries returned after adapter filtering; copy limits and other
/// comparable request limits may only tighten provider ceilings. Deletion
/// limits apply only to ordinary recursive deletion and are selected
/// independently. Temporary-resource cleanup, `Drop`, and native publication
/// cleanup have separate lifecycle semantics and do not inherit deletion
/// ceilings. These are not aggregate quotas across concurrent requests.
#[derive(Clone, Copy, Debug, PartialEq, Eq)]
pub struct LocalResourcePolicy {
    list: Option<LocalListResourceLimits>,
    copy: Option<LocalCopyResourceLimits>,
    delete: Option<LocalDeleteResourceLimits>,
    open_retry_timeout: Option<Duration>,
    temp_max_attempts: Option<usize>,
    directory_reopen_policy: LocalDirectoryReopenPolicy,
}

impl View for LocalResourcePolicy {
    type V = ResourcePolicyModel;

    closed spec fn view(&self) -> ResourcePolicyModel {
        ResourcePolicyModel {
            list: self.list,
            copy: self.copy,
            delete: self.delete,
            open_retry_timeout: self.open_retry_timeout,
            temp_max_attempts: self.temp_max_attempts,
            directory_reopen_policy: self.directory_reopen_policy,
        }
    }
}

impl LocalResourcePolicy {
    /// A temporary-name attempt limit, when present, is positive.
    #[verifier::type_invariant]
    closed spec fn positive_temp_attempts(self) -> bool {
        self.temp_max_attempts matches Some(n) ==> n > 0
    }

    /// Sets finite per-request ceilings for listing, copying, and deletion.
    ///
    /// This does not enable recursive operation modes. No open retry
    /// timeout or temporary-name attempt limit is set, and walkers reopen
    /// directories.
    pub fn bounded(
        list: LocalListResourceLimits,
        copy: LocalCopyResourceLimits,
        delete: LocalDeleteResourceLimits,
    ) -> (r: Self)
        ensures
            r@ == (ResourcePolicyModel {
                list: Some(list),
                copy: Some(copy),
                delete: Some(delete),
                open_retry_timeout: None,
                temp_max_attempts: None,
                directory_reopen_policy: LocalDirectoryReopenPolicy::Reopen,
            }),
    {
        LocalResourcePolicy {
            list: Some(list),
            copy: Some(copy),
            delete: Some(delete),
            open_retry_timeout: None,
            temp_max_attempts: None,
            directory_reopen_policy: LocalDirectoryReopenPolicy::Reopen,
        }
    }

    /// Explicitly opts into unbounded recursive resource usage.
    pub fn unbounded() -> (r: Self)
        ensures
            r@ == (ResourcePolicyModel {
                list: None,
                copy: None,
                delete: None,
                open_retry_timeout: None,
                temp_max_attempts: None,
                directory_reopen_policy: LocalDirectoryReopenPolicy::Reopen,
            }),
    {
        LocalResourcePolicy {
            list: None,
            copy: None,
            delete: None,
            open_retry_timeout: None,
            temp_max_attempts: None,
            directory_reopen_policy: LocalDirectoryReopenPolicy::Reopen,
        }
    }

    /// Returns the listing limits, if recursive listing is bounded.
    pub fn list_limits(self) -> (r: Option<LocalListResourceLimits>)
        ensures
            r == self@.list,
    {
        self.list
    }

    /// Returns the copy limits, if recursive copying is bounded.
    pub fn copy_limits(self) -> (r: Option<LocalCopyResourceLimits>)
        ensures
            r == self@.copy,
    {
        self.copy
    }

    /// Returns the optional per-request ordinary recursive deletion ceilings.
    pub fn delete_limits(self) -> (r: Option<LocalDeleteResourceLimits>)
        ensures
            r == self@.delete,
    {
        self.delete
    }

    /// Selects ordinary recursive deletion ceilings; `None` explicitly leaves
    /// ordinary deletion unbounded.
    pub fn with_delete_limits(self, limits: Option<LocalDeleteResourceLimits>) -> (r: Self)
        ensures
            r@ == (ResourcePolicyModel { delete: limits, ..self@ }),
    {
        proof {
            use_type_invariant(&self);
        }
        LocalResourcePolicy { delete: limits, ..self }
    }

    /// Returns the local open retry timeout used for readers and writers.
    pub fn open_retry_timeout(self) -> (r: Option<Duration>)
        ensures
            r == self@.open_retry_timeout,
    {
        self.open_retry_timeout
    }

    /// Returns the maximum number of temporary-name attempts.
    pub fn temp_max_attempts(self) -> (r: Option<usize>)
        ensures
            r == self@.temp_max_attempts,
            r matches Some(n) ==> n > 0,
    {
        proof {
            use_type_invariant(&self);
        }
        self.temp_max_attempts
    }

    /// Returns the directory reopen behavior used by recursive walkers.
    pub fn directory_reopen_policy(self) -> (r: LocalDirectoryReopenPolicy)
        ensures
            r == self@.directory_reopen_policy,
    {
        self.directory_reopen_policy
    }

    /// Sets the local open retry timeout used for readers and writers.
    pub fn with_open_retry_timeout(self, timeout: Option<Duration>) -> (r: Self)
        ensures
            r@ == (ResourcePolicyModel { open_retry_timeout: timeout, ..self@ }),
    {
        proof {
            use_type_invariant(&self);
        }
        LocalResourcePolicy { open_retry_timeout: timeout, ..self }
    }

    /// Sets the maximum number of temporary-name attempts.
    ///
    /// A limit, when given, is a positive count.
    pub fn with_temp_max_attempts(self, max_attempts: Option<usize>) -> (r: Self)
        requires
            max_attempts matches Some(n) ==> n > 0,
        ensures
            r@ == (ResourcePolicyModel { temp_max_attempts: max_attempts, ..self@ }),
    {
        LocalResourcePolicy { temp_max_attempts: max_attempts, ..self }
    }

    /// Sets the directory reopen behavior used by recursive walkers.
    pub fn with_directory_reopen_policy(self, policy: LocalDirectoryReopenPolicy) -> (r: Self)
        ensures
            r@ == (ResourcePolicyModel { directory_reopen_policy: policy, ..self@ }),
    {
        proof {
            use_type_invariant(&self);
        }
        LocalResourcePolicy { directory_reopen_policy: policy, ..self }
    }
}

/// A bounded policy reports back exactly the three ceilings it was built
/// from, and its lifecycle settings are those of the unbounded policy.
pub proof fn lemma_bounded_policy_reports_its_ceilings(
    list: LocalListResourceLimits,
    copy: LocalCopyResourceLimits,
    delete: LocalDeleteResourceLimits,
    bounded: LocalResourcePolicy,
    unbounded: LocalResourcePolicy,
)
    requires
        bounded@ == (ResourcePolicyModel {
            list: Some(list),
            copy: Some(copy),
            delete: Some(delete),
            open_retry_timeout: None,
            temp_max_attempts: None,
            directory_reopen_policy: LocalDirectoryReopenPolicy::Reopen,
        }),
        unbounded@ == (ResourcePolicyModel {
            list: None,
            copy: None,
            delete: None,
            open_retry_timeout: None,
            temp_max_attempts: None,
            directory_reopen_policy: LocalDirectoryReopenPolicy::Reopen,
        }),
    ensures
        bounded@.list == Some(list),
        bounded@.copy == Some(copy),
        bounded@.delete == Some(delete),
        bounded@.open_retry_timeout == unbounded@.open_retry_timeout,
        bounded@.temp_max_attempts == unbounded@.temp_max_attempts,
        bounded@.directory_reopen_policy == unbounded@.directory_reopen_policy,
        unbounded@.list is None && unbounded@.copy is None && unbounded@.delete is None,
{
}

/// Setting one policy field and then another leaves both set, whatever the
/// order: the builder methods touch disjoint fields.
pub proof fn lemma_policy_setters_commute(
    policy: ResourcePolicyModel,
    delete: Option<LocalDeleteResourceLimits>,
    timeout: Option<Duration>,
    attempts: Option<usize>,
    reopen: LocalDirectoryReopenPolicy,
)
    ensures
        (ResourcePolicyModel {
            directory_reopen_policy: reopen,
            ..(ResourcePolicyModel {
                temp_max_attempts: attempts,
                ..(ResourcePolicyModel {
                    open_retry_timeout: timeout,
                    ..(ResourcePolicyModel { delete: delete, ..policy })
                })
            })
        }) == (ResourcePolicyModel {
            delete: delete,
            ..(ResourcePolicyModel {
                open_retry_timeout: timeout,
                ..(ResourcePolicyModel {
                    temp_max_attempts: attempts,
                    ..(ResourcePolicyModel { directory_reopen_policy: reopen, ..policy })
                })
            })
        }),
{
}

} // verus!
