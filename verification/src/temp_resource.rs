//! Lifecycle decisions for temporary files and directories.
//!
//! A temporary resource is published (persisted to a caller target, or kept
//! under a generated sibling name) or cleaned up through the native engine
//! that created it. After a failed attempt the adapter reports two separate
//! facts: whether this attempt published a target, and what authority it
//! still holds over the source. The decisions here keep those facts apart.

use vstd::prelude::*;

use crate::error::AttributedError;
use crate::error::LocalEffectState;
use crate::error::LocalError;
use crate::error::LocalErrorKind;
use crate::error::LocalOperation;
use crate::native_error::map_request_failure;
use crate::native_error::map_without_path;
use crate::native_error::mapped_failure;
use crate::native_error::portable_effect_claim;
use crate::native_error::NativeEffectState;
use crate::native_error::NativeErrorKind;
use crate::native_error::NativeFailure;

verus! {

/// Authority the native engine retains over a temporary source.
#[derive(Clone, Copy, Debug, PartialEq, Eq, Structural)]
pub enum NativeSourceState {
    /// The source is owned and may be published or cleaned up.
    Owned,
    /// A residual container must still be cleaned up.
    CleanupRequired,
    /// The source has been released.
    Released,
    /// The source identity cannot be established.
    Indeterminate,
    /// A state this adapter does not know.
    Other,
}

/// Whether a failed native publication published its target.
#[derive(Clone, Copy, Debug, PartialEq, Eq, Structural)]
pub enum NativePublication {
    /// The target was proven unpublished.
    NotPublished,
    /// The target was published.
    Published,
    /// Publication cannot be determined.
    Indeterminate,
    /// A state this adapter does not know.
    Other,
}

/// Portable state of a failed persistence attempt: the publication fact of
/// this attempt together with the retained source authority.
#[derive(Clone, Copy, Debug, PartialEq, Eq, Structural)]
pub enum PersistFailureState {
    /// Nothing was published and the source is still owned.
    NotPublished,
    /// Nothing was published and the source identity is uncertain.
    NotPublishedSourceIndeterminate,
    /// Nothing was published and residual cleanup is required.
    NotPublishedSourceCleanupRequired,
    /// Nothing was published and the source was released.
    NotPublishedSourceReleased,
    /// The target was published and residual cleanup is required.
    PublishedSourceRetained,
    /// The target was published and the source identity is uncertain.
    PublishedSourceIndeterminate,
    /// The target was published and the source was released.
    PublishedSourceReleased,
    /// Neither fact can be established.
    Indeterminate,
}

/// A rejected or failed persistence attempt.
#[derive(Clone, Copy, Debug, PartialEq, Eq)]
pub struct PersistFailure {
    /// The portable failure.
    pub error: LocalError,
    /// Publication and source facts after the attempt.
    pub state: PersistFailureState,
}

/// Portable state of a publication fact combined with a source authority.
///
/// A published target whose source is still owned is contradictory, and an
/// unknown fact or authority cannot be qualified: both are `Indeterminate`.
pub open spec fn persist_state_of(publication: NativePublication, source: NativeSourceState) -> PersistFailureState {
    match (publication, source) {
        (NativePublication::NotPublished, NativeSourceState::Owned) => PersistFailureState::NotPublished,
        (NativePublication::NotPublished, NativeSourceState::Released) => PersistFailureState::NotPublishedSourceReleased,
        (NativePublication::NotPublished, NativeSourceState::Indeterminate) => PersistFailureState::NotPublishedSourceIndeterminate,
        (NativePublication::NotPublished, NativeSourceState::CleanupRequired) => PersistFailureState::NotPublishedSourceCleanupRequired,
        (NativePublication::Published, NativeSourceState::CleanupRequired) => PersistFailureState::PublishedSourceRetained,
        (NativePublication::Published, NativeSourceState::Released) => PersistFailureState::PublishedSourceReleased,
        (NativePublication::Published, NativeSourceState::Indeterminate) => PersistFailureState::PublishedSourceIndeterminate,
        _ => PersistFailureState::Indeterminate,
    }
}

/// External effect confirmed by a persistence failure state: unchanged when
/// no target was published, applied when publication is confirmed.
pub open spec fn persist_effect_of(state: PersistFailureState) -> LocalEffectState {
    match state {
        PersistFailureState::NotPublished
        | PersistFailureState::NotPublishedSourceReleased
        | PersistFailureState::NotPublishedSourceIndeterminate
        | PersistFailureState::NotPublishedSourceCleanupRequired => LocalEffectState::Unchanged,
        PersistFailureState::PublishedSourceRetained
        | PersistFailureState::PublishedSourceReleased
        | PersistFailureState::PublishedSourceIndeterminate => LocalEffectState::Applied,
        PersistFailureState::Indeterminate => LocalEffectState::Indeterminate,
    }
}

/// The effect a publication fact confirms on its own.
pub open spec fn publication_effect(publication: NativePublication) -> LocalEffectState {
    match publication {
        NativePublication::NotPublished => LocalEffectState::Unchanged,
        NativePublication::Published => LocalEffectState::Applied,
        _ => LocalEffectState::Indeterminate,
    }
}

/// The source authority a failure state retains, when it names one.
pub open spec fn retained_source_of(state: PersistFailureState) -> Option<NativeSourceState> {
    match state {
        PersistFailureState::NotPublished => Some(NativeSourceState::Owned),
        PersistFailureState::NotPublishedSourceIndeterminate => Some(NativeSourceState::Indeterminate),
        PersistFailureState::NotPublishedSourceCleanupRequired => Some(NativeSourceState::CleanupRequired),
        PersistFailureState::NotPublishedSourceReleased => Some(NativeSourceState::Released),
        PersistFailureState::PublishedSourceRetained => Some(NativeSourceState::CleanupRequired),
        PersistFailureState::PublishedSourceIndeterminate => Some(NativeSourceState::Indeterminate),
        PersistFailureState::PublishedSourceReleased => Some(NativeSourceState::Released),
        PersistFailureState::Indeterminate => None,
    }
}

/// Converts the publication fact and retained source authority of a failed
/// attempt to portable state.
pub fn persist_failure_state(publication: NativePublication, source: NativeSourceState) -> (r: PersistFailureState)
    ensures
        r == persist_state_of(publication, source),
{
    match (publication, source) {
        (NativePublication::NotPublished, NativeSourceState::Owned) => PersistFailureState::NotPublished,
        (NativePublication::NotPublished, NativeSourceState::Released) => PersistFailureState::NotPublishedSourceReleased,
        (NativePublication::NotPublished, NativeSourceState::Indeterminate) => PersistFailureState::NotPublishedSourceIndeterminate,
        (NativePublication::NotPublished, NativeSourceState::CleanupRequired) => PersistFailureState::NotPublishedSourceCleanupRequired,
        (NativePublication::Published, NativeSourceState::CleanupRequired) => PersistFailureState::PublishedSourceRetained,
        (NativePublication::Published, NativeSourceState::Released) => PersistFailureState::PublishedSourceReleased,
        (NativePublication::Published, NativeSourceState::Indeterminate) => PersistFailureState::PublishedSourceIndeterminate,
        _ => PersistFailureState::Indeterminate,
    }
}

/// Maps a persistence failure state to the external effect it confirms.
pub fn persist_effect_state(state: PersistFailureState) -> (r: LocalEffectState)
    ensures
        r == persist_effect_of(state),
{
    match state {
        PersistFailureState::NotPublished
        | PersistFailureState::NotPublishedSourceReleased
        | PersistFailureState::NotPublishedSourceIndeterminate
        | PersistFailureState::NotPublishedSourceCleanupRequired => LocalEffectState::Unchanged,
        PersistFailureState::PublishedSourceRetained
        | PersistFailureState::PublishedSourceReleased
        | PersistFailureState::PublishedSourceIndeterminate => LocalEffectState::Applied,
        PersistFailureState::Indeterminate => LocalEffectState::Indeterminate,
    }
}

/// Source authority of a retained native resource; a resource that is no
/// longer held counts as released.
pub open spec fn held_source(held: Option<NativeSourceState>) -> NativeSourceState {
    match held {
        Some(s) => s,
        None => NativeSourceState::Released,
    }
}

/// Rejects publication unless the retained native resource still owns its
/// source. `held` is the source authority of the retained resource, or
/// `None` when the adapter no longer holds one.
///
/// The rejection preserves the current source authority and reports that
/// this call published nothing.
pub fn require_owned(held: Option<NativeSourceState>, operation: LocalOperation) -> (r: Result<(), PersistFailure>)
    ensures
        r is Ok <==> held == Some(NativeSourceState::Owned),
        r matches Err(f) ==> {
            &&& f.state == persist_state_of(NativePublication::NotPublished, held_source(held))
            &&& f.error.kind == LocalErrorKind::InvalidState
            &&& f.error.operation == operation
            &&& f.error.message@ == "temporary resource no longer owns its source"@
            &&& f.error.effect == Some(persist_effect_of(f.state))
        },
{
    let source = match held {
        Some(s) => s,
        None => NativeSourceState::Released,
    };
    if source == NativeSourceState::Owned {
        return Ok(());
    }
    let state = persist_failure_state(NativePublication::NotPublished, source);
    Err(
        PersistFailure {
            error: LocalError::new(
                LocalErrorKind::InvalidState,
                operation,
                "temporary resource no longer owns its source",
            ).with_effect(persist_effect_state(state)),
            state,
        },
    )
}

/// The failure returned for a temporary resource the adapter no longer
/// holds: nothing was published and the source is released.
pub fn terminal_persist_error() -> (r: PersistFailure)
    ensures
        r.state == PersistFailureState::NotPublishedSourceReleased,
        r.error.kind == LocalErrorKind::InvalidState,
        r.error.operation == LocalOperation::PersistTemp,
        r.error.message@ == "temporary resource is terminal"@,
        r.error.effect is None,
{
    PersistFailure {
        error: LocalError::new(
            LocalErrorKind::InvalidState,
            LocalOperation::PersistTemp,
            "temporary resource is terminal",
        ),
        state: PersistFailureState::NotPublishedSourceReleased,
    }
}

/// Wraps a target conversion failure raised before native publication
/// starts: nothing was published and the source is still owned.
pub fn persist_path_error(error: LocalError) -> (r: PersistFailure)
    ensures
        r.error == error,
        r.state == PersistFailureState::NotPublished,
{
    PersistFailure { error, state: PersistFailureState::NotPublished }
}

/// Wraps a failure to represent the published path, raised after native
/// publication: the target was published and the source released, so the
/// effect is applied even though the target cannot be named.
pub fn logical_persist_error(error: LocalError) -> (r: PersistFailure)
    ensures
        r.error.kind == error.kind,
        r.error.operation == error.operation,
        r.error.message@ == error.message@,
        r.error.effect == Some(LocalEffectState::Applied),
        r.state == PersistFailureState::PublishedSourceReleased,
{
    PersistFailure {
        error: error.with_effect(LocalEffectState::Applied),
        state: PersistFailureState::PublishedSourceReleased,
    }
}

/// Maps a failed native publication. The native resource is returned to the
/// adapter; the portable state combines the publication fact with the
/// retained source authority, and the effect is the one that state confirms.
pub fn native_persist_failure(
    failure: &NativeFailure,
    publication: NativePublication,
    source: NativeSourceState,
    operation: LocalOperation,
    message: &'static str,
) -> (r: PersistFailure)
    ensures
        r.state == persist_state_of(publication, source),
        r.error.kind == crate::native_error::portable_kind_of(*failure),
        r.error.operation == operation,
        r.error.message@ == message@,
        r.error.effect == Some(persist_effect_of(r.state)),
{
    let state = persist_failure_state(publication, source);
    let error = map_without_path(failure, operation, message).with_effect(persist_effect_state(state));
    PersistFailure { error, state }
}

/// Maps a failed native persistence to a caller target.
pub fn persist_native_failure(failure: &NativeFailure, publication: NativePublication, source: NativeSourceState) -> (r: PersistFailure)
    ensures
        r.state == persist_state_of(publication, source),
        r.error.kind == crate::native_error::portable_kind_of(*failure),
        r.error.operation == LocalOperation::PersistTemp,
        r.error.message@ == "local filesystem operation failed"@,
        r.error.effect == Some(persist_effect_of(r.state)),
{
    let state = persist_failure_state(publication, source);
    let error = map_request_failure(failure, LocalOperation::PersistTemp).with_effect(persist_effect_state(state));
    PersistFailure { error, state }
}

/// Kind of temporary resource.
#[derive(Clone, Copy, Debug, PartialEq, Eq, Structural)]
pub enum TempResourceKind {
    /// A temporary file.
    File,
    /// A temporary directory.
    Directory,
}

/// Maps a failed native keep of a temporary resource.
pub fn keep_native_failure(
    kind: TempResourceKind,
    failure: &NativeFailure,
    publication: NativePublication,
    source: NativeSourceState,
) -> (r: PersistFailure)
    ensures
        r.state == persist_state_of(publication, source),
        r.error.kind == crate::native_error::portable_kind_of(*failure),
        r.error.operation == LocalOperation::KeepTemp,
        r.error.message@ == (match kind {
            TempResourceKind::File => "temporary file keep failed"@,
            TempResourceKind::Directory => "temporary directory keep failed"@,
        }),
        r.error.effect == Some(persist_effect_of(r.state)),
{
    match kind {
        TempResourceKind::File => native_persist_failure(
            failure,
            publication,
            source,
            LocalOperation::KeepTemp,
            "temporary file keep failed",
        ),
        TempResourceKind::Directory => native_persist_failure(
            failure,
            publication,
            source,
            LocalOperation::KeepTemp,
            "temporary directory keep failed",
        ),
    }
}

/// Maps a failed native creation of a temporary resource. A failure under a
/// caller-named parent is reported on that parent; otherwise the message
/// names the kind of resource.
pub fn temp_creation_error(kind: TempResourceKind, failure: &NativeFailure, has_parent: bool) -> (r: LocalError)
    ensures
        has_parent ==> mapped_failure(
            *failure,
            LocalOperation::CreateTemp,
            "local filesystem operation failed"@,
            r,
        ),
        !has_parent ==> mapped_failure(
            *failure,
            LocalOperation::CreateTemp,
            match kind {
                TempResourceKind::File => "native temporary file creation failed"@,
                TempResourceKind::Directory => "native temporary directory creation failed"@,
            },
            r,
        ),
{
    if has_parent {
        return map_request_failure(failure, LocalOperation::CreateTemp);
    }
    match kind {
        TempResourceKind::File => map_without_path(
            failure,
            LocalOperation::CreateTemp,
            "native temporary file creation failed",
        ),
        TempResourceKind::Directory => map_without_path(
            failure,
            LocalOperation::CreateTemp,
            "native temporary directory creation failed",
        ),
    }
}

/// The effect reported when cleanup fails with uncertain source identity: a
/// native claim of partial or applied effect survives, no claim means
/// unchanged, and anything else is indeterminate.
pub open spec fn uncertain_cleanup_effect(effect: Option<NativeEffectState>) -> LocalEffectState {
    match effect {
        None => LocalEffectState::Unchanged,
        Some(NativeEffectState::Unchanged) => LocalEffectState::Unchanged,
        Some(NativeEffectState::PartiallyApplied) => LocalEffectState::PartiallyApplied,
        Some(NativeEffectState::Applied) => LocalEffectState::Applied,
        Some(_) => LocalEffectState::Indeterminate,
    }
}

/// The failure a native cleanup failure becomes, given the source authority
/// retained after it.
pub open spec fn cleanup_failure(failure: NativeFailure, source: NativeSourceState, message: Seq<char>, r: LocalError) -> bool {
    if source == NativeSourceState::Indeterminate {
        &&& r.kind == LocalErrorKind::Indeterminate
        &&& r.operation == LocalOperation::CleanupTemp
        &&& r.message@ == "temporary resource source authority cannot be established; cleanup failed"@
        &&& r.effect == Some(uncertain_cleanup_effect(failure.effect))
    } else {
        mapped_failure(failure, LocalOperation::CleanupTemp, message, r)
    }
}

/// Maps a failed native cleanup with provider context.
///
/// When the source identity is lost, deletion cannot be retried, and the
/// failure is `Indeterminate`; any stronger native effect claim is kept
/// independently of the uncertain authority.
pub fn cleanup_error(failure: &NativeFailure, source: NativeSourceState, message: &'static str, provider: &str) -> (r: AttributedError)
    ensures
        cleanup_failure(*failure, source, message@, r.error),
        r.provider@ == provider@,
{
    if source == NativeSourceState::Indeterminate {
        let effect = match failure.effect {
            None | Some(NativeEffectState::Unchanged) => LocalEffectState::Unchanged,
            Some(NativeEffectState::PartiallyApplied) => LocalEffectState::PartiallyApplied,
            Some(NativeEffectState::Applied) => LocalEffectState::Applied,
            Some(_) => LocalEffectState::Indeterminate,
        };
        return LocalError::new(
            LocalErrorKind::Indeterminate,
            LocalOperation::CleanupTemp,
            "temporary resource source authority cannot be established; cleanup failed",
        ).with_effect(effect).attributed(provider);
    }
    map_without_path(failure, LocalOperation::CleanupTemp, message).attributed(provider)
}

/// Whether a cleanup may reach the native resource: a resource the adapter
/// no longer holds is terminal and refuses cleanup before any native work.
pub fn require_cleanup_target(held: bool) -> (r: Result<(), LocalError>)
    ensures
        r is Ok <==> held,
        r matches Err(e) ==> is_terminal_cleanup_error(e),
{
    if held {
        Ok(())
    } else {
        Err(terminal_cleanup_error())
    }
}

/// The failure of a cleanup of a terminal resource.
pub open spec fn is_terminal_cleanup_error(e: LocalError) -> bool {
    &&& e.kind == LocalErrorKind::InvalidState
    &&& e.operation == LocalOperation::CleanupTemp
    &&& e.message@ == "temporary resource is terminal"@
    &&& e.effect is None
}

/// Rejects cleanup of a resource the adapter no longer holds.
pub fn terminal_cleanup_error() -> (r: LocalError)
    ensures
        r.kind == LocalErrorKind::InvalidState,
        r.operation == LocalOperation::CleanupTemp,
        r.message@ == "temporary resource is terminal"@,
        r.effect is None,
{
    LocalError::new(LocalErrorKind::InvalidState, LocalOperation::CleanupTemp, "temporary resource is terminal")
}

/// Maps a failed native cleanup of a temporary file.
pub fn file_cleanup_error(failure: &NativeFailure, source: NativeSourceState, provider: &str) -> (r: AttributedError)
    ensures
        cleanup_failure(*failure, source, "temporary file cleanup failed"@, r.error),
        r.provider@ == provider@,
{
    cleanup_error(failure, source, "temporary file cleanup failed", provider)
}

/// Whether a directory cleanup failure means the retained identity no longer
/// names a directory.
pub open spec fn lost_directory_identity(failure: NativeFailure, source: NativeSourceState) -> bool {
    source != NativeSourceState::Indeterminate && failure.kind == NativeErrorKind::InvalidPath
}

/// Maps a failed native cleanup of a temporary directory. A path refusal
/// with known source authority means the retained identity no longer names
/// a directory.
pub fn directory_cleanup_error(failure: &NativeFailure, source: NativeSourceState, provider: &str) -> (r: AttributedError)
    ensures
        lost_directory_identity(*failure, source) ==> {
            &&& r.error.kind == LocalErrorKind::NotDirectory
            &&& r.error.operation == LocalOperation::CleanupTemp
            &&& r.error.message@ == "temporary directory identity no longer names a directory"@
            &&& r.error.effect == portable_effect_claim(failure.effect)
        },
        !lost_directory_identity(*failure, source) ==> cleanup_failure(
            *failure,
            source,
            "temporary directory cleanup failed"@,
            r.error,
        ),
        r.provider@ == provider@,
{
    if source != NativeSourceState::Indeterminate && failure.kind == NativeErrorKind::InvalidPath {
        let error = LocalError {
            kind: LocalErrorKind::NotDirectory,
            operation: LocalOperation::CleanupTemp,
            message: "temporary directory identity no longer names a directory",
            effect: crate::native_error::effect_claim(failure.effect),
        };
        return error.attributed(provider);
    }
    cleanup_error(failure, source, "temporary directory cleanup failed", provider)
}

/// Publication method a native persistence used.
#[derive(Clone, Copy, Debug, PartialEq, Eq, Structural)]
pub enum NativePersistMethod {
    /// An atomic rename.
    AtomicRename,
    /// Any other method.
    Other,
}

/// Residual cleanup state after a native persistence.
#[derive(Clone, Copy, Debug, PartialEq, Eq, Structural)]
pub enum NativeCleanupState {
    /// Nothing remains to clean up.
    Complete,
    /// A residual sandbox remains.
    ResidualSandbox,
    /// A state this adapter does not know.
    Other,
}

/// Portable publication method.
#[derive(Clone, Copy, Debug, PartialEq, Eq, Structural)]
pub enum PublicationMethod {
    /// Bytes were written in place.
    Direct,
    /// A staged object was atomically renamed into place.
    AtomicRename,
}

/// Portable residual cleanup state.
#[derive(Clone, Copy, Debug, PartialEq, Eq, Structural)]
pub enum PersistCleanupState {
    /// Nothing remains to clean up.
    Complete,
    /// A temporary container remains.
    ResidualTemporaryContainer,
}

/// Portable facts of a completed publication.
#[derive(Clone, Copy, Debug, PartialEq, Eq, Structural)]
pub struct PersistFacts {
    /// Whether the publication was atomic.
    pub atomic: bool,
    /// Publication method.
    pub method: PublicationMethod,
    /// Residual cleanup state.
    pub cleanup: PersistCleanupState,
}

/// Maps the facts of a completed native persistence: only an atomic rename
/// is reported as such, and only a complete cleanup as complete.
pub fn persist_outcome(atomic: bool, method: NativePersistMethod, cleanup: NativeCleanupState) -> (r: PersistFacts)
    ensures
        r.atomic == atomic,
        r.method == (if method == NativePersistMethod::AtomicRename {
            PublicationMethod::AtomicRename
        } else {
            PublicationMethod::Direct
        }),
        r.cleanup == (if cleanup == NativeCleanupState::Complete {
            PersistCleanupState::Complete
        } else {
            PersistCleanupState::ResidualTemporaryContainer
        }),
{
    PersistFacts {
        atomic,
        method: match method {
            NativePersistMethod::AtomicRename => PublicationMethod::AtomicRename,
            NativePersistMethod::Other => PublicationMethod::Direct,
        },
        cleanup: match cleanup {
            NativeCleanupState::Complete => PersistCleanupState::Complete,
            _ => PersistCleanupState::ResidualTemporaryContainer,
        },
    }
}

/// A failed persistence reports the publication fact of the attempt on its
/// own: for every consistent combination of publication fact and known
/// source authority, the confirmed effect depends on the publication fact
/// alone, and the state names the retained source authority.
pub proof fn lemma_publication_fact_is_independent_of_source(publication: NativePublication, source: NativeSourceState)
    requires
        publication != NativePublication::Other,
        source != NativeSourceState::Other,
        !(publication == NativePublication::Published && source == NativeSourceState::Owned),
    ensures
        persist_effect_of(persist_state_of(publication, source)) == publication_effect(publication),
        publication != NativePublication::Indeterminate ==> retained_source_of(
            persist_state_of(publication, source),
        ) == Some(source),
{
}

/// A rejected publication attempt never claims to have published anything
/// and never changes the recorded source authority, whatever the adapter
/// still holds.
pub proof fn lemma_rejection_keeps_source_authority(held: Option<NativeSourceState>)
    requires
        held != Some(NativeSourceState::Owned),
        held != Some(NativeSourceState::Other),
    ensures
        persist_effect_of(persist_state_of(NativePublication::NotPublished, held_source(held)))
            == LocalEffectState::Unchanged,
        retained_source_of(persist_state_of(NativePublication::NotPublished, held_source(held)))
            == Some(held_source(held)),
{
}

/// A cleanup failure never erases a native claim of partial or applied
/// effect, whatever source authority remains and whichever kind of resource
/// failed.
pub proof fn lemma_cleanup_keeps_known_effect(
    failure: NativeFailure,
    source: NativeSourceState,
    message: Seq<char>,
    r: LocalError,
)
    requires
        failure.effect == Some(NativeEffectState::PartiallyApplied) || failure.effect == Some(
            NativeEffectState::Applied,
        ),
        cleanup_failure(failure, source, message, r),
    ensures
        r.effect == portable_effect_claim(failure.effect),
{
}

} // verus!
