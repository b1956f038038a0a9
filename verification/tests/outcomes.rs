use qubit_fs_local::outcome_map::copy_effect_state;
use qubit_fs_local::outcome_map::copy_native_failure;
use qubit_fs_local::outcome_map::copy_options_error;
use qubit_fs_local::outcome_map::copy_outcome;
use qubit_fs_local::outcome_map::copy_path_error;
use qubit_fs_local::outcome_map::output_kind;
use qubit_fs_local::outcome_map::rename_effect_state;
use qubit_fs_local::outcome_map::rename_native_failure;
use qubit_fs_local::outcome_map::rename_path_error;
use qubit_fs_local::outcome_map::CopyCounts;
use qubit_fs_local::outcome_map::CopyFailureState;
use qubit_fs_local::outcome_map::MetadataPreservePolicy;
use qubit_fs_local::outcome_map::NativeFileKind;
use qubit_fs_local::outcome_map::NativeMetadataPreservation;
use qubit_fs_local::outcome_map::PortableFileKind;
use qubit_fs_local::outcome_map::RenameFailureState;
use qubit_fs_local::native_error::IoErrorKind;
use qubit_fs_local::native_error::NativeErrorKind;
use qubit_fs_local::native_error::NativeFailure;
use qubit_fs_local::options_plan::unsupported;
use qubit_fs_local::LocalEffectState;
use qubit_fs_local::LocalError;
use qubit_fs_local::LocalErrorKind;
use qubit_fs_local::LocalOperation;

#[test]
fn test_entry_kinds_keep_portable_names_and_label_the_rest() {
    assert_eq!(PortableFileKind::File, output_kind(NativeFileKind::File));
    assert_eq!(PortableFileKind::Directory, output_kind(NativeFileKind::Directory));
    assert_eq!(PortableFileKind::Symlink, output_kind(NativeFileKind::Symlink));
    assert_eq!(PortableFileKind::Other("local-fifo"), output_kind(NativeFileKind::Fifo));
    assert_eq!(PortableFileKind::Other("local-socket"), output_kind(NativeFileKind::Socket));
    assert_eq!(PortableFileKind::Other("local-block-device"), output_kind(NativeFileKind::BlockDevice));
    assert_eq!(PortableFileKind::Other("local-char-device"), output_kind(NativeFileKind::CharDevice));
    assert_eq!(PortableFileKind::Other("local"), output_kind(NativeFileKind::Other));
}

#[test]
fn test_failure_states_confirm_matching_effects() {
    assert_eq!(LocalEffectState::Unchanged, copy_effect_state(CopyFailureState::Unchanged));
    assert_eq!(LocalEffectState::PartiallyApplied, copy_effect_state(CopyFailureState::PartiallyPublished));
    assert_eq!(LocalEffectState::Applied, copy_effect_state(CopyFailureState::Published));
    assert_eq!(LocalEffectState::Indeterminate, copy_effect_state(CopyFailureState::Indeterminate));
    assert_eq!(LocalEffectState::Unchanged, rename_effect_state(RenameFailureState::Unchanged));
    assert_eq!(LocalEffectState::Applied, rename_effect_state(RenameFailureState::Renamed));
    assert_eq!(LocalEffectState::Indeterminate, rename_effect_state(RenameFailureState::Indeterminate));
}

#[test]
fn test_path_errors_before_native_work_change_nothing() {
    let error = LocalError::new(LocalErrorKind::InvalidPath, LocalOperation::ParsePath, "bad path");
    let copy = copy_path_error(error);
    assert_eq!(error, copy.error);
    assert_eq!(CopyFailureState::Unchanged, copy.state);
    assert_eq!(CopyCounts::zero(), copy.partial);
    let rename = rename_path_error(error);
    assert_eq!(RenameFailureState::Unchanged, rename.state);
    let options = copy_options_error(unsupported(LocalOperation::OpenWriter));
    assert_eq!(LocalOperation::Copy, options.error.operation);
    assert_eq!(LocalErrorKind::RequirementNotMet, options.error.kind);
    assert_eq!(CopyFailureState::Unchanged, options.state);
}

#[test]
fn test_native_copy_failures_keep_state_and_counts() {
    let failure = NativeFailure {
        kind: NativeErrorKind::Io,
        io_kind: Some(IoErrorKind::StorageFull),
        effect: None,
    };
    let counts = CopyCounts { files: 2, directories: 1, bytes: 10, skipped: 0, overwritten: 1 };
    let mapped = copy_native_failure(&failure, CopyFailureState::PartiallyPublished, counts, true);
    assert_eq!(LocalErrorKind::QuotaExceeded, mapped.error.kind);
    assert_eq!("local copy failed", mapped.error.message);
    assert_eq!(Some(LocalEffectState::PartiallyApplied), mapped.error.effect);
    assert_eq!(counts, mapped.partial);
    let contract = copy_native_failure(&failure, CopyFailureState::Unchanged, counts, false);
    assert_eq!(LocalErrorKind::ProviderContractViolation, contract.error.kind);
    assert_eq!(Some(LocalEffectState::Unchanged), contract.error.effect);

    let rename = rename_native_failure(&failure, RenameFailureState::Renamed);
    assert_eq!(LocalOperation::Rename, rename.error.operation);
    assert_eq!(Some(LocalEffectState::Applied), rename.error.effect);
}

#[test]
fn test_copy_outcome_reports_preserved_permissions() {
    let facts = copy_outcome(true, false, NativeMetadataPreservation::Permissions);
    assert!(facts.atomic);
    assert!(!facts.durable);
    assert_eq!(MetadataPreservePolicy::Portable, facts.metadata);
    assert_eq!(MetadataPreservePolicy::ContentOnly, copy_outcome(false, true, NativeMetadataPreservation::ContentOnly).metadata);
}
