//! Lifecycle of one native file writer behind the portable writer interface.
//!
//! The adapter holds the native writer until it reaches a terminal state. A
//! commit either publishes and ends the session, or fails; a failed commit
//! may hand the native writer back for a retry. An abort ends the session
//! and is a no-op once the session is terminal.

use vstd::prelude::*;

use crate::error::LocalError;
use crate::error::LocalErrorKind;
use crate::error::LocalOperation;
use crate::native_error::map_without_path;
use crate::native_error::mapped_failure;
use crate::native_error::NativeFailure;
use crate::temp_resource::PublicationMethod;

verus! {

/// Whether the adapter still holds its native writer.
#[derive(Clone, Copy, Debug, PartialEq, Eq, Structural)]
pub enum WriterSlot {
    /// The native writer is held and may be written, committed or aborted.
    Active,
    /// The session has ended.
    Terminal,
}

/// Destination state reported by a failed native commit.
#[derive(Clone, Copy, Debug, PartialEq, Eq, Structural)]
pub enum NativeWriteFailureState {
    /// The destination was proven unchanged.
    NotPublished,
    /// The destination changed before a later failure.
    Published,
    /// The destination state cannot be determined.
    Indeterminate,
    /// A state this adapter does not know.
    Other,
}

/// Portable state of a failed commit.
#[derive(Clone, Copy, Debug, PartialEq, Eq, Structural)]
pub enum WriteFailureState {
    /// Nothing was published and the commit may be retried.
    RetryableNotPublished,
    /// Nothing was published and the session ended.
    NotPublished,
    /// The destination was published before a later failure.
    Published,
    /// The destination state cannot be determined.
    Indeterminate,
}

/// A failed commit: the portable failure and the destination state.
#[derive(Clone, Copy, Debug, PartialEq, Eq)]
pub struct WriteFailure {
    /// The portable failure.
    pub error: LocalError,
    /// Destination state after the failure.
    pub state: WriteFailureState,
}

/// Portable facts of a completed commit.
#[derive(Clone, Copy, Debug, PartialEq, Eq, Structural)]
pub struct WriteFacts {
    /// Whether the publication was atomic.
    pub atomic: bool,
    /// Publication method.
    pub method: PublicationMethod,
    /// Bytes written.
    pub bytes_written: u64,
}

/// Portable state of a failed commit: an unpublished destination is
/// retryable exactly when the native writer was handed back.
pub open spec fn write_state_of(state: NativeWriteFailureState, retained: bool) -> WriteFailureState {
    match state {
        NativeWriteFailureState::NotPublished => if retained {
            WriteFailureState::RetryableNotPublished
        } else {
            WriteFailureState::NotPublished
        },
        NativeWriteFailureState::Published => WriteFailureState::Published,
        _ => WriteFailureState::Indeterminate,
    }
}

/// Converts the destination state of a failed native commit.
pub fn write_failure_state(state: NativeWriteFailureState, retained: bool) -> (r: WriteFailureState)
    ensures
        r == write_state_of(state, retained),
{
    match state {
        NativeWriteFailureState::NotPublished => if retained {
            WriteFailureState::RetryableNotPublished
        } else {
            WriteFailureState::NotPublished
        },
        NativeWriteFailureState::Published => WriteFailureState::Published,
        _ => WriteFailureState::Indeterminate,
    }
}

/// The failure reported for a commit on an ended session.
pub open spec fn is_terminal_commit_failure(f: WriteFailure) -> bool {
    &&& f.error.kind == LocalErrorKind::InvalidState
    &&& f.error.operation == LocalOperation::CommitWriter
    &&& f.error.message@ == "writer session is terminal"@
    &&& f.error.effect is None
    &&& f.state == WriteFailureState::NotPublished
}

/// Decides whether a commit may reach the native writer. On an ended
/// session the commit is refused without effect.
pub fn commit_precheck(slot: WriterSlot) -> (r: Result<(), WriteFailure>)
    ensures
        r is Ok <==> slot == WriterSlot::Active,
        r matches Err(f) ==> is_terminal_commit_failure(f),
{
    match slot {
        WriterSlot::Active => Ok(()),
        WriterSlot::Terminal => Err(
            WriteFailure {
                error: LocalError::new(
                    LocalErrorKind::InvalidState,
                    LocalOperation::CommitWriter,
                    "writer session is terminal",
                ),
                state: WriteFailureState::NotPublished,
            },
        ),
    }
}

/// Facts of a completed native commit; the session ends. Only an atomic
/// commit was published by rename.
pub fn commit_succeeded(atomic: bool, bytes_written: u64) -> (r: (WriterSlot, WriteFacts))
    ensures
        r.0 == WriterSlot::Terminal,
        r.1.atomic == atomic,
        r.1.method == (if atomic {
            PublicationMethod::AtomicRename
        } else {
            PublicationMethod::Direct
        }),
        r.1.bytes_written == bytes_written,
{
    let method = if atomic {
        PublicationMethod::AtomicRename
    } else {
        PublicationMethod::Direct
    };
    (WriterSlot::Terminal, WriteFacts { atomic, method, bytes_written })
}

/// Outcome of a failed native commit; the session stays active exactly when
/// the native writer was handed back.
pub fn commit_failed(failure: &NativeFailure, state: NativeWriteFailureState, retained: bool) -> (r: (WriterSlot, WriteFailure))
    ensures
        r.0 == (if retained {
            WriterSlot::Active
        } else {
            WriterSlot::Terminal
        }),
        r.1.state == write_state_of(state, retained),
        mapped_failure(*failure, LocalOperation::CommitWriter, "native writer commit failed"@, r.1.error),
{
    let slot = if retained {
        WriterSlot::Active
    } else {
        WriterSlot::Terminal
    };
    let error = map_without_path(failure, LocalOperation::CommitWriter, "native writer commit failed");
    (slot, WriteFailure { error, state: write_failure_state(state, retained) })
}

/// Decides whether an abort must reach the native writer; either way the
/// session ends. Aborting an ended session succeeds without effect.
pub fn abort_plan(slot: WriterSlot) -> (r: (WriterSlot, bool))
    ensures
        r.0 == WriterSlot::Terminal,
        r.1 == (slot == WriterSlot::Active),
{
    (WriterSlot::Terminal, slot == WriterSlot::Active)
}

/// What a successful abort reports of the session's target.
#[derive(Clone, Copy, Debug, PartialEq, Eq, Structural)]
pub enum AbortOutcome {
    /// The native writer was aborted: nothing was published.
    NotPublished,
    /// The session had already ended: what it published is not known here.
    Indeterminate,
}

/// What a successful abort reports: a native abort confirms that nothing
/// was published, while an abort of an ended session confirms nothing.
pub fn abort_outcome(reached_native: bool) -> (r: AbortOutcome)
    ensures
        r == (if reached_native {
            AbortOutcome::NotPublished
        } else {
            AbortOutcome::Indeterminate
        }),
{
    if reached_native {
        AbortOutcome::NotPublished
    } else {
        AbortOutcome::Indeterminate
    }
}

/// Maps a failed native abort.
pub fn abort_error(failure: &NativeFailure) -> (r: LocalError)
    ensures
        mapped_failure(*failure, LocalOperation::AbortWriter, "native writer abort failed"@, r),
{
    map_without_path(failure, LocalOperation::AbortWriter, "native writer abort failed")
}

/// Whether a write or flush may reach the native writer; on an ended session
/// it fails with the text `"writer session is terminal"`.
pub fn writer_usable(slot: WriterSlot) -> (r: Result<(), &'static str>)
    ensures
        r is Ok <==> slot == WriterSlot::Active,
        r matches Err(m) ==> m@ == "writer session is terminal"@,
{
    match slot {
        WriterSlot::Active => Ok(()),
        WriterSlot::Terminal => Err("writer session is terminal"),
    }
}

/// A failed commit is reported as retryable exactly when nothing was
/// published and the native writer was handed back, that is, exactly when
/// the session stays active; a published destination is never reported as
/// unpublished.
pub proof fn lemma_retry_requires_retained_writer(state: NativeWriteFailureState, retained: bool)
    ensures
        (write_state_of(state, retained) == WriteFailureState::RetryableNotPublished) <==> (state
            == NativeWriteFailureState::NotPublished && retained),
        state == NativeWriteFailureState::Published ==> write_state_of(state, retained)
            == WriteFailureState::Published,
{
}

} // verus!
