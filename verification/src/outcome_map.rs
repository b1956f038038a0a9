//! Portable facts of completed and failed copy, rename and metadata
//! operations.

use vstd::prelude::*;

use crate::error::LocalEffectState;
use crate::error::LocalError;
use crate::error::LocalErrorKind;
use crate::error::LocalOperation;
use crate::native_error::map_request_failure;
use crate::native_error::portable_kind_of;
use crate::native_error::NativeFailure;

verus! {

/// Kind of a native filesystem entry.
#[derive(Clone, Copy, Debug, PartialEq, Eq, Structural)]
pub enum NativeFileKind {
    /// A regular file.
    File,
    /// A directory.
    Directory,
    /// A symbolic link.
    Symlink,
    /// A named pipe.
    Fifo,
    /// A socket.
    Socket,
    /// A block device.
    BlockDevice,
    /// A character device.
    CharDevice,
    /// Any other kind.
    Other,
}

/// Portable kind of a filesystem entry.
#[derive(Clone, Copy, Debug, PartialEq, Eq)]
pub enum PortableFileKind {
    /// A regular file.
    File,
    /// A directory.
    Directory,
    /// A symbolic link.
    Symlink,
    /// A provider-specific kind, labelled.
    Other(&'static str),
}

/// The label of a provider-specific entry kind, or `None` for the kinds the
/// portable facade names itself.
pub open spec fn other_kind_label(kind: NativeFileKind) -> Option<Seq<char>> {
    match kind {
        NativeFileKind::File | NativeFileKind::Directory | NativeFileKind::Symlink => None,
        NativeFileKind::Fifo => Some("local-fifo"@),
        NativeFileKind::Socket => Some("local-socket"@),
        NativeFileKind::BlockDevice => Some("local-block-device"@),
        NativeFileKind::CharDevice => Some("local-char-device"@),
        NativeFileKind::Other => Some("local"@),
    }
}

/// Whether a portable kind is the one a native kind maps to.
pub open spec fn is_portable_kind_of(kind: NativeFileKind, r: PortableFileKind) -> bool {
    match kind {
        NativeFileKind::File => r == PortableFileKind::File,
        NativeFileKind::Directory => r == PortableFileKind::Directory,
        NativeFileKind::Symlink => r == PortableFileKind::Symlink,
        _ => r matches PortableFileKind::Other(label) && Some(label@) == other_kind_label(kind),
    }
}

/// Converts a native entry kind to its portable form; kinds the facade does
/// not name are labelled.
pub fn output_kind(kind: NativeFileKind) -> (r: PortableFileKind)
    ensures
        is_portable_kind_of(kind, r),
{
    match kind {
        NativeFileKind::File => PortableFileKind::File,
        NativeFileKind::Directory => PortableFileKind::Directory,
        NativeFileKind::Symlink => PortableFileKind::Symlink,
        NativeFileKind::Fifo => PortableFileKind::Other("local-fifo"),
        NativeFileKind::Socket => PortableFileKind::Other("local-socket"),
        NativeFileKind::BlockDevice => PortableFileKind::Other("local-block-device"),
        NativeFileKind::CharDevice => PortableFileKind::Other("local-char-device"),
        NativeFileKind::Other => PortableFileKind::Other("local"),
    }
}

/// Namespace state after a failed copy.
#[derive(Clone, Copy, Debug, PartialEq, Eq, Structural)]
pub enum CopyFailureState {
    /// Nothing was published.
    Unchanged,
    /// Part of the copy was published.
    PartiallyPublished,
    /// The copy was published before a later failure.
    Published,
    /// The state cannot be determined.
    Indeterminate,
}

/// Namespace state after a failed rename.
#[derive(Clone, Copy, Debug, PartialEq, Eq, Structural)]
pub enum RenameFailureState {
    /// Nothing was renamed.
    Unchanged,
    /// The entry was renamed before a later failure.
    Renamed,
    /// The state cannot be determined.
    Indeterminate,
}

/// The external effect a copy failure state confirms.
pub open spec fn copy_effect_of(state: CopyFailureState) -> LocalEffectState {
    match state {
        CopyFailureState::Unchanged => LocalEffectState::Unchanged,
        CopyFailureState::PartiallyPublished => LocalEffectState::PartiallyApplied,
        CopyFailureState::Published => LocalEffectState::Applied,
        CopyFailureState::Indeterminate => LocalEffectState::Indeterminate,
    }
}

/// The external effect a rename failure state confirms.
pub open spec fn rename_effect_of(state: RenameFailureState) -> LocalEffectState {
    match state {
        RenameFailureState::Unchanged => LocalEffectState::Unchanged,
        RenameFailureState::Renamed => LocalEffectState::Applied,
        RenameFailureState::Indeterminate => LocalEffectState::Indeterminate,
    }
}

/// Maps a copy failure state to the external effect it confirms.
pub fn copy_effect_state(state: CopyFailureState) -> (r: LocalEffectState)
    ensures
        r == copy_effect_of(state),
{
    match state {
        CopyFailureState::Unchanged => LocalEffectState::Unchanged,
        CopyFailureState::PartiallyPublished => LocalEffectState::PartiallyApplied,
        CopyFailureState::Published => LocalEffectState::Applied,
        CopyFailureState::Indeterminate => LocalEffectState::Indeterminate,
    }
}

/// Maps a rename failure state to the external effect it confirms.
pub fn rename_effect_state(state: RenameFailureState) -> (r: LocalEffectState)
    ensures
        r == rename_effect_of(state),
{
    match state {
        RenameFailureState::Unchanged => LocalEffectState::Unchanged,
        RenameFailureState::Renamed => LocalEffectState::Applied,
        RenameFailureState::Indeterminate => LocalEffectState::Indeterminate,
    }
}

/// Entries and bytes a copy handled before it ended.
#[derive(Clone, Copy, Debug, PartialEq, Eq, Structural)]
pub struct CopyCounts {
    /// Files copied.
    pub files: u64,
    /// Directories copied.
    pub directories: u64,
    /// Bytes copied.
    pub bytes: u64,
    /// Entries skipped.
    pub skipped: u64,
    /// Entries overwritten.
    pub overwritten: u64,
}

/// Counts of a copy that handled nothing.
pub open spec fn empty_counts() -> CopyCounts {
    CopyCounts { files: 0, directories: 0, bytes: 0, skipped: 0, overwritten: 0 }
}

impl CopyCounts {
    /// Counts of a copy that handled nothing.
    pub fn zero() -> (r: Self)
        ensures
            r == empty_counts(),
    {
        CopyCounts { files: 0, directories: 0, bytes: 0, skipped: 0, overwritten: 0 }
    }
}

/// A failed copy request: the failure, the namespace state and what was
/// handled before it.
#[derive(Clone, Copy, Debug, PartialEq, Eq)]
pub struct CopyFailure {
    /// The portable failure.
    pub error: LocalError,
    /// Namespace state after the failure.
    pub state: CopyFailureState,
    /// Entries and bytes handled before the failure.
    pub partial: CopyCounts,
}

/// A failed rename request.
#[derive(Clone, Copy, Debug, PartialEq, Eq)]
pub struct RenameFailure {
    /// The portable failure.
    pub error: LocalError,
    /// Namespace state after the failure.
    pub state: RenameFailureState,
}

/// Wraps a path conversion failure raised before the native copy starts:
/// nothing changed and nothing was handled.
pub fn copy_path_error(error: LocalError) -> (r: CopyFailure)
    ensures
        r.error == error,
        r.state == CopyFailureState::Unchanged,
        r.partial == empty_counts(),
{
    CopyFailure { error, state: CopyFailureState::Unchanged, partial: CopyCounts::zero() }
}

/// Wraps a path conversion failure raised before the native rename starts:
/// nothing changed.
pub fn rename_path_error(error: LocalError) -> (r: RenameFailure)
    ensures
        r.error == error,
        r.state == RenameFailureState::Unchanged,
{
    RenameFailure { error, state: RenameFailureState::Unchanged }
}

/// Wraps a copy option the adapter cannot express, refused before any
/// native work: the failure is reported as a copy failure with nothing
/// changed.
pub fn copy_options_error(error: LocalError) -> (r: CopyFailure)
    ensures
        r.error.kind == error.kind,
        r.error.operation == LocalOperation::Copy,
        r.error.message@ == error.message@,
        r.error.effect == error.effect,
        r.state == CopyFailureState::Unchanged,
        r.partial == empty_counts(),
{
    CopyFailure {
        error: LocalError { operation: LocalOperation::Copy, ..error },
        state: CopyFailureState::Unchanged,
        partial: CopyCounts::zero(),
    }
}

/// Maps a failed native copy.
///
/// `paths_representable` tells whether the native paths at which the copy
/// failed could be given logical names; when they cannot, the native engine
/// broke its contract. Either way the effect is the one the failure state
/// confirms.
pub fn copy_native_failure(
    failure: &NativeFailure,
    state: CopyFailureState,
    partial: CopyCounts,
    paths_representable: bool,
) -> (r: CopyFailure)
    ensures
        r.state == state,
        r.partial == partial,
        r.error.operation == LocalOperation::Copy,
        r.error.effect == Some(copy_effect_of(state)),
        paths_representable ==> r.error.kind == portable_kind_of(*failure) && r.error.message@
            == "local copy failed"@,
        !paths_representable ==> r.error.kind == LocalErrorKind::ProviderContractViolation
            && r.error.message@ == "local copy failure contained an unrepresentable native failure path"@,
{
    let effect = copy_effect_state(state);
    let error = if paths_representable {
        crate::native_error::map_without_path(failure, LocalOperation::Copy, "local copy failed")
    } else {
        LocalError::new(
            LocalErrorKind::ProviderContractViolation,
            LocalOperation::Copy,
            "local copy failure contained an unrepresentable native failure path",
        )
    };
    CopyFailure { error: error.with_effect(effect), state, partial }
}

/// Maps a failed native rename; the effect is the one the failure state
/// confirms.
pub fn rename_native_failure(failure: &NativeFailure, state: RenameFailureState) -> (r: RenameFailure)
    ensures
        r.state == state,
        r.error.kind == portable_kind_of(*failure),
        r.error.operation == LocalOperation::Rename,
        r.error.message@ == "local filesystem operation failed"@,
        r.error.effect == Some(rename_effect_of(state)),
{
    let error = map_request_failure(failure, LocalOperation::Rename).with_effect(rename_effect_state(state));
    RenameFailure { error, state }
}

/// Metadata a completed native copy preserved.
#[derive(Clone, Copy, Debug, PartialEq, Eq, Structural)]
pub enum NativeMetadataPreservation {
    /// Nothing beyond content.
    ContentOnly,
    /// Permissions.
    Permissions,
}

/// Portable metadata preservation policy.
#[derive(Clone, Copy, Debug, PartialEq, Eq, Structural)]
pub enum MetadataPreservePolicy {
    /// Preserve nothing beyond content.
    ContentOnly,
    /// Preserve portable metadata.
    Portable,
    /// Preserve user metadata.
    UserMetadata,
    /// Preserve provider-native metadata.
    ProviderNative,
    /// Preserve everything.
    All,
}

/// Portable facts of a completed copy.
#[derive(Clone, Copy, Debug, PartialEq, Eq, Structural)]
pub struct CopyFacts {
    /// Whether the copy was atomic.
    pub atomic: bool,
    /// Whether the copy was made durable.
    pub durable: bool,
    /// Metadata that was preserved.
    pub metadata: MetadataPreservePolicy,
}

/// Maps the facts of a completed native copy: permissions are the portable
/// metadata a local copy preserves.
pub fn copy_outcome(atomic: bool, durable: bool, metadata: NativeMetadataPreservation) -> (r: CopyFacts)
    ensures
        r.atomic == atomic,
        r.durable == durable,
        r.metadata == (match metadata {
            NativeMetadataPreservation::ContentOnly => MetadataPreservePolicy::ContentOnly,
            NativeMetadataPreservation::Permissions => MetadataPreservePolicy::Portable,
        }),
{
    CopyFacts {
        atomic,
        durable,
        metadata: match metadata {
            NativeMetadataPreservation::ContentOnly => MetadataPreservePolicy::ContentOnly,
            NativeMetadataPreservation::Permissions => MetadataPreservePolicy::Portable,
        },
    }
}

/// A failed copy or rename never reports less certainty about its effect
/// than its namespace state: an unchanged state confirms no effect, and any
/// other state confirms that something may have changed.
pub proof fn lemma_failure_effect_matches_state(copy: CopyFailureState, rename: RenameFailureState)
    ensures
        (copy_effect_of(copy) == LocalEffectState::Unchanged) <==> (copy == CopyFailureState::Unchanged),
        (rename_effect_of(rename) == LocalEffectState::Unchanged) <==> (rename
            == RenameFailureState::Unchanged),
{
}

} // verus!
