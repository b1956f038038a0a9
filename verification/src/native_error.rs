//! Classification of failures reported by the native local-files engine.
//!
//! A native failure is described by the plain values the adapter reads from
//! it: its stable native category, the standard I/O category of an
//! originating I/O error when there is one, and the external effect the
//! native engine claims. The adapter turns those values into a portable
//! failure category and effect.

use vstd::prelude::*;

use crate::error::LocalEffectState;
use crate::error::LocalError;
use crate::error::LocalErrorKind;
use crate::error::LocalOperation;

verus! {

/// Stable failure category of the native local-files engine.
#[derive(Clone, Copy, Debug, PartialEq, Eq, Structural)]
pub enum NativeErrorKind {
    /// A native path is malformed or not representable.
    InvalidPath,
    /// Native options are malformed.
    InvalidOptions,
    /// The native object is not in a usable state.
    InvalidState,
    /// The entry does not exist.
    NotFound,
    /// The entry already exists.
    AlreadyExists,
    /// A directory was required.
    NotDirectory,
    /// A non-directory was required.
    IsDirectory,
    /// Source and destination have conflicting types.
    TypeConflict,
    /// Access was denied.
    PermissionDenied,
    /// The platform does not support the operation.
    Unsupported,
    /// A requested guarantee cannot be met.
    RequirementNotMet,
    /// A native resource ceiling was exceeded.
    ResourceLimit,
    /// Stored data is corrupt.
    DataCorruption,
    /// Publication started but did not complete.
    PublicationIncomplete,
    /// The outcome cannot be determined.
    Indeterminate,
    /// A generic input/output failure.
    Io,
    /// A category this adapter does not know.
    Other,
}

/// Standard I/O failure category of an originating I/O error.
#[derive(Clone, Copy, Debug, PartialEq, Eq, Structural)]
pub enum IoErrorKind {
    /// The entry does not exist.
    NotFound,
    /// The entry already exists.
    AlreadyExists,
    /// A directory was required.
    NotADirectory,
    /// Access was denied.
    PermissionDenied,
    /// An argument was invalid.
    InvalidInput,
    /// Data was invalid.
    InvalidData,
    /// The operation was interrupted.
    Interrupted,
    /// The operation timed out.
    TimedOut,
    /// The operation is unsupported.
    Unsupported,
    /// Memory ran out.
    OutOfMemory,
    /// The storage is full.
    StorageFull,
    /// A storage quota was exceeded.
    QuotaExceeded,
    /// Any other category.
    Other,
}

/// External effect claimed by the native engine for a failure.
#[derive(Clone, Copy, Debug, PartialEq, Eq, Structural)]
pub enum NativeEffectState {
    /// Nothing changed.
    Unchanged,
    /// Some of the effect happened.
    PartiallyApplied,
    /// The effect happened.
    Applied,
    /// The effect cannot be determined.
    Indeterminate,
    /// A claim this adapter does not know.
    Other,
}

/// The plain values of a native failure that the adapter decides on.
#[derive(Clone, Copy, Debug, PartialEq, Eq, Structural)]
pub struct NativeFailure {
    /// Stable native category.
    pub kind: NativeErrorKind,
    /// Category of the originating I/O error, when the failure has one.
    pub io_kind: Option<IoErrorKind>,
    /// Effect claimed by the native engine, when it claims one.
    pub effect: Option<NativeEffectState>,
}

/// Portable category of a native category.
pub open spec fn portable_kind_of_native(kind: NativeErrorKind) -> LocalErrorKind {
    match kind {
        NativeErrorKind::InvalidPath => LocalErrorKind::InvalidPath,
        NativeErrorKind::InvalidOptions => LocalErrorKind::InvalidOptions,
        NativeErrorKind::InvalidState => LocalErrorKind::InvalidState,
        NativeErrorKind::NotFound => LocalErrorKind::NotFound,
        NativeErrorKind::AlreadyExists => LocalErrorKind::AlreadyExists,
        NativeErrorKind::NotDirectory => LocalErrorKind::NotDirectory,
        NativeErrorKind::IsDirectory => LocalErrorKind::IsDirectory,
        NativeErrorKind::TypeConflict => LocalErrorKind::Conflict,
        NativeErrorKind::PermissionDenied => LocalErrorKind::PermissionDenied,
        NativeErrorKind::Unsupported => LocalErrorKind::UnsupportedOperation,
        NativeErrorKind::RequirementNotMet => LocalErrorKind::RequirementNotMet,
        NativeErrorKind::ResourceLimit => LocalErrorKind::ResourceLimitExceeded,
        NativeErrorKind::DataCorruption => LocalErrorKind::DataCorruption,
        NativeErrorKind::PublicationIncomplete => LocalErrorKind::Io,
        NativeErrorKind::Indeterminate => LocalErrorKind::Indeterminate,
        NativeErrorKind::Io => LocalErrorKind::Io,
        NativeErrorKind::Other => LocalErrorKind::Other,
    }
}

/// Portable category of a standard I/O category.
pub open spec fn portable_kind_of_io(kind: IoErrorKind) -> LocalErrorKind {
    match kind {
        IoErrorKind::NotFound => LocalErrorKind::NotFound,
        IoErrorKind::AlreadyExists => LocalErrorKind::AlreadyExists,
        IoErrorKind::NotADirectory => LocalErrorKind::NotDirectory,
        IoErrorKind::PermissionDenied => LocalErrorKind::PermissionDenied,
        IoErrorKind::InvalidInput => LocalErrorKind::InvalidPath,
        IoErrorKind::InvalidData => LocalErrorKind::DataCorruption,
        IoErrorKind::Interrupted => LocalErrorKind::Interrupted,
        IoErrorKind::TimedOut => LocalErrorKind::Timeout,
        IoErrorKind::Unsupported => LocalErrorKind::UnsupportedOperation,
        IoErrorKind::OutOfMemory => LocalErrorKind::ResourceLimitExceeded,
        IoErrorKind::StorageFull => LocalErrorKind::QuotaExceeded,
        IoErrorKind::QuotaExceeded => LocalErrorKind::QuotaExceeded,
        IoErrorKind::Other => LocalErrorKind::Io,
    }
}

/// Whether a native category is authoritative over an originating I/O
/// category: the categories that describe the adapter's own contract rather
/// than an operating-system condition.
pub open spec fn native_kind_is_authoritative(kind: NativeErrorKind) -> bool {
    match kind {
        NativeErrorKind::InvalidPath
        | NativeErrorKind::InvalidOptions
        | NativeErrorKind::InvalidState
        | NativeErrorKind::NotDirectory
        | NativeErrorKind::IsDirectory
        | NativeErrorKind::TypeConflict
        | NativeErrorKind::Indeterminate
        | NativeErrorKind::PublicationIncomplete => true,
        _ => false,
    }
}

/// The most precise portable category available from a native failure: the
/// native category where it is authoritative, else the category of the
/// originating I/O error, else the native category.
pub open spec fn portable_kind_of(failure: NativeFailure) -> LocalErrorKind {
    if native_kind_is_authoritative(failure.kind) {
        portable_kind_of_native(failure.kind)
    } else {
        match failure.io_kind {
            Some(io) => portable_kind_of_io(io),
            None => portable_kind_of_native(failure.kind),
        }
    }
}

/// Portable form of a native effect claim.
pub open spec fn portable_effect_of(effect: NativeEffectState) -> LocalEffectState {
    match effect {
        NativeEffectState::Unchanged => LocalEffectState::Unchanged,
        NativeEffectState::PartiallyApplied => LocalEffectState::PartiallyApplied,
        NativeEffectState::Applied => LocalEffectState::Applied,
        NativeEffectState::Indeterminate => LocalEffectState::Indeterminate,
        NativeEffectState::Other => LocalEffectState::Indeterminate,
    }
}

/// Portable form of an optional native effect claim.
pub open spec fn portable_effect_claim(effect: Option<NativeEffectState>) -> Option<LocalEffectState> {
    match effect {
        Some(e) => Some(portable_effect_of(e)),
        None => None,
    }
}

/// Converts a native category to its portable equivalent; unknown native
/// categories map to `Other`.
pub fn native_kind(kind: NativeErrorKind) -> (r: LocalErrorKind)
    ensures
        r == portable_kind_of_native(kind),
{
    match kind {
        NativeErrorKind::InvalidPath => LocalErrorKind::InvalidPath,
        NativeErrorKind::InvalidOptions => LocalErrorKind::InvalidOptions,
        NativeErrorKind::InvalidState => LocalErrorKind::InvalidState,
        NativeErrorKind::NotFound => LocalErrorKind::NotFound,
        NativeErrorKind::AlreadyExists => LocalErrorKind::AlreadyExists,
        NativeErrorKind::NotDirectory => LocalErrorKind::NotDirectory,
        NativeErrorKind::IsDirectory => LocalErrorKind::IsDirectory,
        NativeErrorKind::TypeConflict => LocalErrorKind::Conflict,
        NativeErrorKind::PermissionDenied => LocalErrorKind::PermissionDenied,
        NativeErrorKind::Unsupported => LocalErrorKind::UnsupportedOperation,
        NativeErrorKind::RequirementNotMet => LocalErrorKind::RequirementNotMet,
        NativeErrorKind::ResourceLimit => LocalErrorKind::ResourceLimitExceeded,
        NativeErrorKind::DataCorruption => LocalErrorKind::DataCorruption,
        NativeErrorKind::PublicationIncomplete => LocalErrorKind::Io,
        NativeErrorKind::Indeterminate => LocalErrorKind::Indeterminate,
        NativeErrorKind::Io => LocalErrorKind::Io,
        NativeErrorKind::Other => LocalErrorKind::Other,
    }
}

/// Converts a standard I/O category to its portable equivalent.
pub fn io_kind(kind: IoErrorKind) -> (r: LocalErrorKind)
    ensures
        r == portable_kind_of_io(kind),
{
    match kind {
        IoErrorKind::NotFound => LocalErrorKind::NotFound,
        IoErrorKind::AlreadyExists => LocalErrorKind::AlreadyExists,
        IoErrorKind::NotADirectory => LocalErrorKind::NotDirectory,
        IoErrorKind::PermissionDenied => LocalErrorKind::PermissionDenied,
        IoErrorKind::InvalidInput => LocalErrorKind::InvalidPath,
        IoErrorKind::InvalidData => LocalErrorKind::DataCorruption,
        IoErrorKind::Interrupted => LocalErrorKind::Interrupted,
        IoErrorKind::TimedOut => LocalErrorKind::Timeout,
        IoErrorKind::Unsupported => LocalErrorKind::UnsupportedOperation,
        IoErrorKind::OutOfMemory => LocalErrorKind::ResourceLimitExceeded,
        IoErrorKind::StorageFull | IoErrorKind::QuotaExceeded => LocalErrorKind::QuotaExceeded,
        IoErrorKind::Other => LocalErrorKind::Io,
    }
}

/// Selects the most precise portable category available from a native
/// failure. An originating I/O category is preferred over the coarser
/// native category, except where the native category is authoritative.
pub fn error_kind(failure: &NativeFailure) -> (r: LocalErrorKind)
    ensures
        r == portable_kind_of(*failure),
{
    match failure.kind {
        NativeErrorKind::InvalidPath => LocalErrorKind::InvalidPath,
        NativeErrorKind::InvalidOptions => LocalErrorKind::InvalidOptions,
        NativeErrorKind::InvalidState => LocalErrorKind::InvalidState,
        NativeErrorKind::NotDirectory => LocalErrorKind::NotDirectory,
        NativeErrorKind::IsDirectory => LocalErrorKind::IsDirectory,
        NativeErrorKind::TypeConflict => LocalErrorKind::Conflict,
        NativeErrorKind::Indeterminate => LocalErrorKind::Indeterminate,
        NativeErrorKind::PublicationIncomplete => LocalErrorKind::Io,
        _ => match failure.io_kind {
            Some(io) => io_kind(io),
            None => native_kind(failure.kind),
        },
    }
}

/// Converts a native effect claim to its portable form; claims this adapter
/// does not know become `Indeterminate`.
pub fn effect_claim(effect: Option<NativeEffectState>) -> (r: Option<LocalEffectState>)
    ensures
        r == portable_effect_claim(effect),
{
    match effect {
        None => None,
        Some(NativeEffectState::Unchanged) => Some(LocalEffectState::Unchanged),
        Some(NativeEffectState::PartiallyApplied) => Some(LocalEffectState::PartiallyApplied),
        Some(NativeEffectState::Applied) => Some(LocalEffectState::Applied),
        Some(NativeEffectState::Indeterminate) => Some(LocalEffectState::Indeterminate),
        Some(NativeEffectState::Other) => Some(LocalEffectState::Indeterminate),
    }
}

/// The portable failure a native failure becomes under a static message.
pub open spec fn mapped_failure(failure: NativeFailure, operation: LocalOperation, message: Seq<char>, r: LocalError) -> bool {
    &&& r.kind == portable_kind_of(failure)
    &&& r.operation == operation
    &&& r.message@ == message
    &&& r.effect == portable_effect_claim(failure.effect)
}

/// Maps a native failure without a logical path, under a static message.
///
/// The portable category is the most precise one available, and a native
/// effect claim carries over in portable form.
pub fn map_without_path(failure: &NativeFailure, operation: LocalOperation, message: &'static str) -> (r: LocalError)
    ensures
        mapped_failure(*failure, operation, message@, r),
{
    let kind = error_kind(failure);
    LocalError { kind, operation, message, effect: effect_claim(failure.effect) }
}

/// Maps a native failure of a request on caller-visible paths.
///
/// The paths themselves are attached where the failure is reported.
pub fn map_request_failure(failure: &NativeFailure, operation: LocalOperation) -> (r: LocalError)
    ensures
        mapped_failure(*failure, operation, "local filesystem operation failed"@, r),
{
    map_without_path(failure, operation, "local filesystem operation failed")
}

/// An originating I/O error is reported under the portable category of the
/// same condition, whenever the native category is one of the engine's
/// generic ones rather than a statement of the adapter's own contract: an
/// existing entry as `AlreadyExists`, a missing one as `NotFound`, and so on,
/// whatever effect the engine claims.
pub proof fn lemma_io_category_names_the_condition(failure: NativeFailure)
    requires
        failure.kind == NativeErrorKind::NotFound || failure.kind == NativeErrorKind::AlreadyExists
            || failure.kind == NativeErrorKind::PermissionDenied || failure.kind == NativeErrorKind::Unsupported
            || failure.kind == NativeErrorKind::RequirementNotMet || failure.kind == NativeErrorKind::ResourceLimit
            || failure.kind == NativeErrorKind::DataCorruption || failure.kind == NativeErrorKind::Io
            || failure.kind == NativeErrorKind::Other,
    ensures
        failure.io_kind == Some(IoErrorKind::NotFound) ==> portable_kind_of(failure) == LocalErrorKind::NotFound,
        failure.io_kind == Some(IoErrorKind::AlreadyExists) ==> portable_kind_of(failure)
            == LocalErrorKind::AlreadyExists,
        failure.io_kind == Some(IoErrorKind::NotADirectory) ==> portable_kind_of(failure)
            == LocalErrorKind::NotDirectory,
        failure.io_kind == Some(IoErrorKind::PermissionDenied) ==> portable_kind_of(failure)
            == LocalErrorKind::PermissionDenied,
        failure.io_kind == Some(IoErrorKind::InvalidInput) ==> portable_kind_of(failure)
            == LocalErrorKind::InvalidPath,
        failure.io_kind == Some(IoErrorKind::InvalidData) ==> portable_kind_of(failure)
            == LocalErrorKind::DataCorruption,
        failure.io_kind == Some(IoErrorKind::Interrupted) ==> portable_kind_of(failure)
            == LocalErrorKind::Interrupted,
        failure.io_kind == Some(IoErrorKind::TimedOut) ==> portable_kind_of(failure) == LocalErrorKind::Timeout,
        failure.io_kind == Some(IoErrorKind::Unsupported) ==> portable_kind_of(failure)
            == LocalErrorKind::UnsupportedOperation,
        failure.io_kind == Some(IoErrorKind::OutOfMemory) ==> portable_kind_of(failure)
            == LocalErrorKind::ResourceLimitExceeded,
        failure.io_kind == Some(IoErrorKind::StorageFull) || failure.io_kind == Some(IoErrorKind::QuotaExceeded)
            ==> portable_kind_of(failure) == LocalErrorKind::QuotaExceeded,
        failure.io_kind == Some(IoErrorKind::Other) ==> portable_kind_of(failure) == LocalErrorKind::Io,
        failure.io_kind is None && failure.kind == NativeErrorKind::NotFound ==> portable_kind_of(failure)
            == LocalErrorKind::NotFound,
        failure.io_kind is None && failure.kind == NativeErrorKind::AlreadyExists ==> portable_kind_of(failure)
            == LocalErrorKind::AlreadyExists,
        failure.io_kind is None && failure.kind == NativeErrorKind::PermissionDenied ==> portable_kind_of(
            failure,
        ) == LocalErrorKind::PermissionDenied,
{
}

/// Each portable category reached from an I/O category comes from the I/O
/// categories of that condition and no other: only an existing entry is
/// reported as `AlreadyExists`, only a missing one as `NotFound`, and only
/// an uncategorized I/O error as a generic `Io` failure.
pub proof fn lemma_io_categories_are_told_apart(io: IoErrorKind)
    ensures
        (portable_kind_of_io(io) == LocalErrorKind::AlreadyExists) == (io == IoErrorKind::AlreadyExists),
        (portable_kind_of_io(io) == LocalErrorKind::NotFound) == (io == IoErrorKind::NotFound),
        (portable_kind_of_io(io) == LocalErrorKind::NotDirectory) == (io == IoErrorKind::NotADirectory),
        (portable_kind_of_io(io) == LocalErrorKind::PermissionDenied) == (io == IoErrorKind::PermissionDenied),
        (portable_kind_of_io(io) == LocalErrorKind::InvalidPath) == (io == IoErrorKind::InvalidInput),
        (portable_kind_of_io(io) == LocalErrorKind::DataCorruption) == (io == IoErrorKind::InvalidData),
        (portable_kind_of_io(io) == LocalErrorKind::Interrupted) == (io == IoErrorKind::Interrupted),
        (portable_kind_of_io(io) == LocalErrorKind::Timeout) == (io == IoErrorKind::TimedOut),
        (portable_kind_of_io(io) == LocalErrorKind::UnsupportedOperation) == (io == IoErrorKind::Unsupported),
        (portable_kind_of_io(io) == LocalErrorKind::ResourceLimitExceeded) == (io == IoErrorKind::OutOfMemory),
        (portable_kind_of_io(io) == LocalErrorKind::QuotaExceeded) == (io == IoErrorKind::StorageFull || io
            == IoErrorKind::QuotaExceeded),
        (portable_kind_of_io(io) == LocalErrorKind::Io) == (io == IoErrorKind::Other),
{
}

/// The native categories that state the adapter's own contract decide the
/// portable category whatever I/O error lies underneath: an entry that is a
/// directory is reported as `IsDirectory`, one that is not as
/// `NotDirectory`, and malformed input, unusable state, type conflicts,
/// unknown outcomes and incomplete publications likewise.
pub proof fn lemma_contract_categories_are_authoritative(failure: NativeFailure)
    ensures
        failure.kind == NativeErrorKind::IsDirectory ==> portable_kind_of(failure) == LocalErrorKind::IsDirectory,
        failure.kind == NativeErrorKind::NotDirectory ==> portable_kind_of(failure)
            == LocalErrorKind::NotDirectory,
        failure.kind == NativeErrorKind::InvalidPath ==> portable_kind_of(failure) == LocalErrorKind::InvalidPath,
        failure.kind == NativeErrorKind::InvalidOptions ==> portable_kind_of(failure)
            == LocalErrorKind::InvalidOptions,
        failure.kind == NativeErrorKind::InvalidState ==> portable_kind_of(failure)
            == LocalErrorKind::InvalidState,
        failure.kind == NativeErrorKind::TypeConflict ==> portable_kind_of(failure) == LocalErrorKind::Conflict,
        failure.kind == NativeErrorKind::Indeterminate ==> portable_kind_of(failure)
            == LocalErrorKind::Indeterminate,
        failure.kind == NativeErrorKind::PublicationIncomplete ==> portable_kind_of(failure) == LocalErrorKind::Io,
{
}

} // verus!
