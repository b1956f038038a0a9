//! Failure descriptions produced by the local filesystem adapter.
//!
//! The adapter decides *which* failure a request produces; the facade error
//! type of the portable filesystem crate is assembled from these values at the
//! service boundary.

use vstd::prelude::*;

verus! {

/// Portable failure category chosen by the adapter.
#[derive(Clone, Copy, Debug, PartialEq, Eq, Structural)]
pub enum LocalErrorKind {
    /// The entry does not exist.
    NotFound,
    /// The entry already exists.
    AlreadyExists,
    /// A directory was required.
    NotDirectory,
    /// A non-directory was required.
    IsDirectory,
    /// A path is malformed or not representable.
    InvalidPath,
    /// Options are malformed or not supported.
    InvalidOptions,
    /// The provider broke an internal contract.
    ProviderContractViolation,
    /// Access was denied.
    PermissionDenied,
    /// The provider could not be opened or assembled.
    ProviderUnavailable,
    /// The operation is not supported.
    UnsupportedOperation,
    /// A requested guarantee cannot be met.
    RequirementNotMet,
    /// The resource is not in a state that permits the operation.
    InvalidState,
    /// The outcome of the operation cannot be determined.
    Indeterminate,
    /// Two entries conflict.
    Conflict,
    /// The operation timed out.
    Timeout,
    /// The operation was interrupted.
    Interrupted,
    /// A storage quota was exceeded.
    QuotaExceeded,
    /// A resource ceiling was exceeded.
    ResourceLimitExceeded,
    /// Stored data is corrupt.
    DataCorruption,
    /// A generic input/output failure.
    Io,
    /// Any other failure.
    Other,
}

/// Facade operation during which a failure was detected.
#[derive(Clone, Copy, Debug, PartialEq, Eq, Structural)]
pub enum LocalOperation {
    /// Parsing a logical path.
    ParsePath,
    /// Reading metadata.
    Stat,
    /// Listing a directory.
    List,
    /// Opening a reader.
    OpenReader,
    /// Opening a writer.
    OpenWriter,
    /// Committing a writer.
    CommitWriter,
    /// Aborting a writer.
    AbortWriter,
    /// Creating a directory.
    CreateDir,
    /// Deleting an entry.
    Delete,
    /// Renaming an entry.
    Rename,
    /// Copying an entry.
    Copy,
    /// Creating a temporary resource.
    CreateTemp,
    /// Cleaning up a temporary resource.
    CleanupTemp,
    /// Keeping a temporary resource.
    KeepTemp,
    /// Persisting a temporary resource.
    PersistTemp,
    /// Constructing or configuring the provider.
    Provider,
}

/// External effect known to have happened before a failure was reported.
#[derive(Clone, Copy, Debug, PartialEq, Eq, Structural)]
pub enum LocalEffectState {
    /// Nothing changed.
    Unchanged,
    /// Some but not all of the requested effect happened.
    PartiallyApplied,
    /// The requested effect happened.
    Applied,
    /// It is unknown whether anything changed.
    Indeterminate,
}

/// A failure chosen by the adapter, before facade context is attached.
#[derive(Clone, Copy, Debug, PartialEq, Eq)]
pub struct LocalError {
    /// Failure category.
    pub kind: LocalErrorKind,
    /// Operation that failed.
    pub operation: LocalOperation,
    /// Static diagnostic text.
    pub message: &'static str,
    /// Known external effect, when the adapter can state one.
    pub effect: Option<LocalEffectState>,
}

impl LocalError {
    /// Creates a failure without a stated external effect.
    pub fn new(kind: LocalErrorKind, operation: LocalOperation, message: &'static str) -> (r: Self)
        ensures
            r.kind == kind,
            r.operation == operation,
            r.message@ == message@,
            r.effect is None,
    {
        LocalError { kind, operation, message, effect: None }
    }

    /// Returns the same failure with an explicit external effect.
    pub fn with_effect(self, effect: LocalEffectState) -> (r: Self)
        ensures
            r.kind == self.kind,
            r.operation == self.operation,
            r.message@ == self.message@,
            r.effect == Some(effect),
    {
        LocalError { effect: Some(effect), ..self }
    }

    /// Attributes the failure to a provider.
    pub fn attributed(self, provider: &str) -> (r: AttributedError)
        ensures
            r.error == self,
            r.provider@ == provider@,
    {
        AttributedError { error: self, provider: String::from_str(provider) }
    }
}

/// A failure together with the identity of the provider that reported it.
#[derive(Clone, Debug, PartialEq, Eq)]
pub struct AttributedError {
    /// The failure.
    pub error: LocalError,
    /// Identity of the reporting provider.
    pub provider: String,
}

} // verus!
