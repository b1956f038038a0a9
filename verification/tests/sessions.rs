use qubit_fs_local::native_error::NativeEffectState;
use qubit_fs_local::native_error::NativeErrorKind;
use qubit_fs_local::native_error::NativeFailure;
use qubit_fs_local::range_window::range_plan;
use qubit_fs_local::range_window::range_seek_error;
use qubit_fs_local::range_window::RangePlan;
use qubit_fs_local::temp_resource::PublicationMethod;
use qubit_fs_local::writer_session::abort_error;
use qubit_fs_local::writer_session::abort_plan;
use qubit_fs_local::writer_session::commit_failed;
use qubit_fs_local::writer_session::commit_precheck;
use qubit_fs_local::writer_session::commit_succeeded;
use qubit_fs_local::writer_session::write_failure_state;
use qubit_fs_local::writer_session::writer_usable;
use qubit_fs_local::writer_session::NativeWriteFailureState;
use qubit_fs_local::writer_session::WriteFailureState;
use qubit_fs_local::writer_session::WriterSlot;
use qubit_fs_local::LocalEffectState;
use qubit_fs_local::LocalErrorKind;
use qubit_fs_local::LocalOperation;

#[test]
fn test_commit_on_an_ended_session_is_refused() {
    assert_eq!(Ok(()), commit_precheck(WriterSlot::Active));
    let failure = commit_precheck(WriterSlot::Terminal).expect_err("ended session");
    assert_eq!(LocalErrorKind::InvalidState, failure.error.kind);
    assert_eq!(LocalOperation::CommitWriter, failure.error.operation);
    assert_eq!("writer session is terminal", failure.error.message);
    assert_eq!(WriteFailureState::NotPublished, failure.state);
}

#[test]
fn test_completed_commit_ends_the_session() {
    let (slot, facts) = commit_succeeded(true, 12);
    assert_eq!(WriterSlot::Terminal, slot);
    assert!(facts.atomic);
    assert_eq!(PublicationMethod::AtomicRename, facts.method);
    assert_eq!(12, facts.bytes_written);
    let (_, direct) = commit_succeeded(false, 0);
    assert_eq!(PublicationMethod::Direct, direct.method);
}

#[test]
fn test_failed_commit_is_retryable_only_with_the_writer_back() {
    let failure = NativeFailure {
        kind: NativeErrorKind::Io,
        io_kind: None,
        effect: Some(NativeEffectState::Unchanged),
    };
    let (slot, retry) = commit_failed(&failure, NativeWriteFailureState::NotPublished, true);
    assert_eq!(WriterSlot::Active, slot);
    assert_eq!(WriteFailureState::RetryableNotPublished, retry.state);
    assert_eq!("native writer commit failed", retry.error.message);
    assert_eq!(Some(LocalEffectState::Unchanged), retry.error.effect);
    let (slot, ended) = commit_failed(&failure, NativeWriteFailureState::NotPublished, false);
    assert_eq!(WriterSlot::Terminal, slot);
    assert_eq!(WriteFailureState::NotPublished, ended.state);
    assert_eq!(WriteFailureState::Published, write_failure_state(NativeWriteFailureState::Published, true));
    assert_eq!(WriteFailureState::Indeterminate, write_failure_state(NativeWriteFailureState::Indeterminate, true));
    assert_eq!(WriteFailureState::Indeterminate, write_failure_state(NativeWriteFailureState::Other, false));
}

#[test]
fn test_abort_is_idempotent() {
    assert_eq!((WriterSlot::Terminal, true), abort_plan(WriterSlot::Active));
    assert_eq!((WriterSlot::Terminal, false), abort_plan(WriterSlot::Terminal));
    let error = abort_error(&NativeFailure { kind: NativeErrorKind::PermissionDenied, io_kind: None, effect: None });
    assert_eq!(LocalOperation::AbortWriter, error.operation);
    assert_eq!(LocalErrorKind::PermissionDenied, error.kind);
    assert_eq!(Ok(()), writer_usable(WriterSlot::Active));
    assert_eq!(Err("writer session is terminal"), writer_usable(WriterSlot::Terminal));
}

#[test]
fn test_range_windows_position_and_bound_the_reader() {
    assert_eq!(RangePlan { seek: None, limit: u64::MAX }, range_plan(0, None, 100));
    assert_eq!(RangePlan { seek: Some(10), limit: 5 }, range_plan(10, Some(5), 100));
    assert_eq!(RangePlan { seek: None, limit: 0 }, range_plan(10, Some(0), 100));
    assert_eq!(RangePlan { seek: Some(200), limit: 3 }, range_plan(200, Some(3), 100));
    assert_eq!(RangePlan { seek: None, limit: 0 }, range_plan(u64::MAX, None, 100));
    let error = range_seek_error();
    assert_eq!(LocalErrorKind::Io, error.kind);
    assert_eq!(LocalOperation::OpenReader, error.operation);
}
