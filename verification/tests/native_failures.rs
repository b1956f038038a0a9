use qubit_fs_local::native_error::effect_claim;
use qubit_fs_local::native_error::error_kind;
use qubit_fs_local::native_error::io_kind;
use qubit_fs_local::native_error::map_request_failure;
use qubit_fs_local::native_error::map_without_path;
use qubit_fs_local::native_error::native_kind;
use qubit_fs_local::native_error::IoErrorKind;
use qubit_fs_local::native_error::NativeEffectState;
use qubit_fs_local::native_error::NativeErrorKind;
use qubit_fs_local::native_error::NativeFailure;
use qubit_fs_local::LocalEffectState;
use qubit_fs_local::LocalErrorKind;
use qubit_fs_local::LocalOperation;

#[test]
fn test_native_kinds_map_to_portable_kinds() {
    assert_eq!(LocalErrorKind::Conflict, native_kind(NativeErrorKind::TypeConflict));
    assert_eq!(LocalErrorKind::UnsupportedOperation, native_kind(NativeErrorKind::Unsupported));
    assert_eq!(LocalErrorKind::ResourceLimitExceeded, native_kind(NativeErrorKind::ResourceLimit));
    assert_eq!(LocalErrorKind::Io, native_kind(NativeErrorKind::PublicationIncomplete));
    assert_eq!(LocalErrorKind::NotFound, native_kind(NativeErrorKind::NotFound));
    assert_eq!(LocalErrorKind::Other, native_kind(NativeErrorKind::Other));
}

#[test]
fn test_io_kinds_map_to_portable_kinds() {
    assert_eq!(LocalErrorKind::NotDirectory, io_kind(IoErrorKind::NotADirectory));
    assert_eq!(LocalErrorKind::InvalidPath, io_kind(IoErrorKind::InvalidInput));
    assert_eq!(LocalErrorKind::DataCorruption, io_kind(IoErrorKind::InvalidData));
    assert_eq!(LocalErrorKind::Timeout, io_kind(IoErrorKind::TimedOut));
    assert_eq!(LocalErrorKind::QuotaExceeded, io_kind(IoErrorKind::StorageFull));
    assert_eq!(LocalErrorKind::QuotaExceeded, io_kind(IoErrorKind::QuotaExceeded));
    assert_eq!(LocalErrorKind::ResourceLimitExceeded, io_kind(IoErrorKind::OutOfMemory));
    assert_eq!(LocalErrorKind::Io, io_kind(IoErrorKind::Other));
}

#[test]
fn test_io_category_is_preferred_unless_native_category_is_authoritative() {
    let io_backed = NativeFailure {
        kind: NativeErrorKind::Io,
        io_kind: Some(IoErrorKind::NotFound),
        effect: None,
    };
    assert_eq!(LocalErrorKind::NotFound, error_kind(&io_backed));
    let authoritative = NativeFailure {
        kind: NativeErrorKind::InvalidPath,
        io_kind: Some(IoErrorKind::NotFound),
        effect: None,
    };
    assert_eq!(LocalErrorKind::InvalidPath, error_kind(&authoritative));
    let without_io = NativeFailure {
        kind: NativeErrorKind::PermissionDenied,
        io_kind: None,
        effect: None,
    };
    assert_eq!(LocalErrorKind::PermissionDenied, error_kind(&without_io));
}

#[test]
fn test_native_effect_claims_carry_over() {
    assert_eq!(None, effect_claim(None));
    assert_eq!(Some(LocalEffectState::PartiallyApplied), effect_claim(Some(NativeEffectState::PartiallyApplied)));
    assert_eq!(Some(LocalEffectState::Indeterminate), effect_claim(Some(NativeEffectState::Other)));
    let failure = NativeFailure {
        kind: NativeErrorKind::Indeterminate,
        io_kind: None,
        effect: Some(NativeEffectState::Indeterminate),
    };
    let error = map_without_path(&failure, LocalOperation::Stat, "stat failed");
    assert_eq!(LocalErrorKind::Indeterminate, error.kind);
    assert_eq!(LocalOperation::Stat, error.operation);
    assert_eq!("stat failed", error.message);
    assert_eq!(Some(LocalEffectState::Indeterminate), error.effect);
    let request = map_request_failure(&failure, LocalOperation::Delete);
    assert_eq!("local filesystem operation failed", request.message);
    assert_eq!(LocalOperation::Delete, request.operation);
}
