use qubit_fs_local::native_error::NativeEffectState;
use qubit_fs_local::native_error::NativeErrorKind;
use qubit_fs_local::native_error::NativeFailure;
use qubit_fs_local::path_projection::LocalTempPathProjection;
use qubit_fs_local::path_projection::NativeComponent;
use qubit_fs_local::path_projection::NativePathParts;
use qubit_fs_local::temp_resource::directory_cleanup_error;
use qubit_fs_local::temp_resource::file_cleanup_error;
use qubit_fs_local::temp_resource::keep_native_failure;
use qubit_fs_local::temp_resource::logical_persist_error;
use qubit_fs_local::temp_resource::persist_effect_state;
use qubit_fs_local::temp_resource::persist_failure_state;
use qubit_fs_local::temp_resource::persist_native_failure;
use qubit_fs_local::temp_resource::persist_outcome;
use qubit_fs_local::temp_resource::persist_path_error;
use qubit_fs_local::temp_resource::require_owned;
use qubit_fs_local::temp_resource::temp_creation_error;
use qubit_fs_local::temp_resource::require_cleanup_target;
use qubit_fs_local::temp_resource::terminal_cleanup_error;
use qubit_fs_local::temp_resource::terminal_persist_error;
use qubit_fs_local::temp_resource::NativeCleanupState;
use qubit_fs_local::temp_resource::NativePersistMethod;
use qubit_fs_local::temp_resource::NativePublication;
use qubit_fs_local::temp_resource::NativeSourceState;
use qubit_fs_local::temp_resource::PersistCleanupState;
use qubit_fs_local::temp_resource::PersistFailureState;
use qubit_fs_local::temp_resource::PublicationMethod;
use qubit_fs_local::temp_resource::TempResourceKind;
use qubit_fs_local::AttributedError;
use qubit_fs_local::LocalEffectState;
use qubit_fs_local::LocalError;
use qubit_fs_local::LocalErrorKind;
use qubit_fs_local::LocalOperation;
use qubit_local_files::error::LocalFileEffectState;
use qubit_local_files::error::LocalFileErrorKind;
use qubit_local_files::error::LocalFileOperation;
use qubit_local_files::LocalFileError;

/// Reads the plain values of a native failure the way the adapter does.
fn native_failure(error: &LocalFileError) -> NativeFailure {
    let kind = match error.kind() {
        LocalFileErrorKind::InvalidPath => NativeErrorKind::InvalidPath,
        LocalFileErrorKind::PermissionDenied => NativeErrorKind::PermissionDenied,
        LocalFileErrorKind::PublicationIncomplete => NativeErrorKind::PublicationIncomplete,
        LocalFileErrorKind::Indeterminate => NativeErrorKind::Indeterminate,
        _ => NativeErrorKind::Other,
    };
    let effect = error.effect_state().map(|effect| match effect {
        LocalFileEffectState::Unchanged => NativeEffectState::Unchanged,
        LocalFileEffectState::PartiallyApplied => NativeEffectState::PartiallyApplied,
        LocalFileEffectState::Applied => NativeEffectState::Applied,
        _ => NativeEffectState::Indeterminate,
    });
    NativeFailure { kind, io_kind: None, effect }
}

fn parts(text: &str) -> NativePathParts {
    let mut components = Vec::new();
    if text.starts_with('/') {
        components.push(NativeComponent::RootDir);
    }
    for part in text.split('/').filter(|part| !part.is_empty()) {
        components.push(NativeComponent::Normal(part.as_bytes().to_vec()));
    }
    NativePathParts { components }
}

fn names(path: &NativePathParts) -> Vec<String> {
    path.components
        .iter()
        .map(|c| match c {
            NativeComponent::RootDir => "/".to_owned(),
            NativeComponent::CurDir => ".".to_owned(),
            NativeComponent::ParentDir => "..".to_owned(),
            NativeComponent::Normal(name) => String::from_utf8(name.clone()).unwrap(),
        })
        .collect()
}

#[test]
fn test_projection_rejects_missing_sandbox() {
    let error = LocalTempPathProjection::new(parts("alias"), &parts("real/file"))
        .expect_err("a native sandbox is required");
    assert_eq!(error.kind, LocalErrorKind::ProviderContractViolation);
}

#[test]
fn test_projection_rejects_foreign_keep_parent() {
    let projection = LocalTempPathProjection::new(parts("alias"), &parts("real/sandbox-test/file"))
        .expect("native sandbox layout");
    let error = projection
        .project(&parts("foreign/kept"), LocalOperation::KeepTemp)
        .expect_err("foreign output must be rejected");
    assert_eq!(error.kind, LocalErrorKind::ProviderContractViolation);
    assert_eq!(error.operation, LocalOperation::KeepTemp);
}

#[test]
fn test_projection_reports_generated_paths_under_the_alias() {
    let projection = LocalTempPathProjection::new(parts("/alias/dir"), &parts("/real/dir/sandbox-1a/tmp.txt"))
        .expect("native sandbox layout");
    let created = projection
        .project(&parts("/real/dir/sandbox-1a/tmp.txt"), LocalOperation::CreateTemp)
        .expect("created path lies under the native parent");
    assert_eq!(vec!["/", "alias", "dir", "sandbox-1a", "tmp.txt"], names(&created));
    let kept = projection
        .project(&parts("/real/dir/tmp.txt"), LocalOperation::KeepTemp)
        .expect("kept sibling lies under the native parent");
    assert_eq!(vec!["/", "alias", "dir", "tmp.txt"], names(&kept));
}

#[test]
fn test_projection_requires_the_exact_sandbox_marker() {
    let error = LocalTempPathProjection::new(parts("alias"), &parts("real/sandbox/file"))
        .expect_err("a sandbox name needs the marker and a suffix separator");
    assert_eq!("native temporary resource has no private creation sandbox", error.message);
    assert!(LocalTempPathProjection::new(parts("alias"), &parts("sandbox-x/file")).is_ok());
}

#[test]
fn test_path_failure_wrappers_preserve_publication_certainty() {
    let before_publication = persist_path_error(LocalError::new(
        LocalErrorKind::InvalidPath,
        LocalOperation::PersistTemp,
        "invalid publication target",
    ));
    assert_eq!(PersistFailureState::NotPublished, before_publication.state);
    assert_eq!(LocalErrorKind::InvalidPath, before_publication.error.kind);

    let after_publication = logical_persist_error(LocalError::new(
        LocalErrorKind::InvalidPath,
        LocalOperation::PersistTemp,
        "published path is not representable",
    ));
    assert_eq!(PersistFailureState::PublishedSourceReleased, after_publication.state);
    assert_eq!(Some(LocalEffectState::Applied), after_publication.error.effect);
    assert_eq!(LocalErrorKind::InvalidPath, after_publication.error.kind);
}

#[test]
fn test_terminal_resources_reject_lifecycle_operations() {
    let failure = terminal_persist_error();
    assert_eq!(PersistFailureState::NotPublishedSourceReleased, failure.state);
    assert_eq!(LocalErrorKind::InvalidState, failure.error.kind);

    for _resource in ["terminal-file", "terminal-directory"] {
        let error = require_cleanup_target(false).expect_err("terminal resource must reject cleanup");
        assert_eq!(LocalErrorKind::InvalidState, error.kind);
        assert_eq!(LocalOperation::CleanupTemp, error.operation);
        assert_eq!(None, error.effect);
    }
}

#[test]
fn test_cleanup_mapping_preserves_effect_independently_from_source() {
    for source in [
        NativeSourceState::Owned,
        NativeSourceState::CleanupRequired,
        NativeSourceState::Indeterminate,
    ] {
        let mappers: [fn(&NativeFailure, NativeSourceState, &str) -> AttributedError; 2] =
            [file_cleanup_error, directory_cleanup_error];
        for map_error in mappers {
            let partial = map_error(
                &native_failure(&LocalFileError::new(
                    LocalFileErrorKind::PublicationIncomplete,
                    LocalFileOperation::Cleanup,
                )),
                source,
                "cleanup-test",
            );
            assert_eq!(Some(LocalEffectState::PartiallyApplied), partial.error.effect);
            let indeterminate = partial.error.kind == LocalErrorKind::Indeterminate
                || partial.error.effect == Some(LocalEffectState::Indeterminate);
            assert_eq!(source == NativeSourceState::Indeterminate, indeterminate);
            let ordinary = map_error(
                &native_failure(&LocalFileError::new(
                    LocalFileErrorKind::PermissionDenied,
                    LocalFileOperation::Cleanup,
                )),
                source,
                "cleanup-test",
            );
            if source == NativeSourceState::Indeterminate {
                assert_eq!(LocalErrorKind::Indeterminate, ordinary.error.kind);
                assert_eq!(Some(LocalEffectState::Unchanged), ordinary.error.effect);
            } else {
                assert_eq!(LocalErrorKind::PermissionDenied, ordinary.error.kind);
                assert_eq!(None, ordinary.error.effect);
            }
            assert_eq!("cleanup-test", ordinary.provider);
        }
    }
}

#[test]
fn test_native_failure_helpers_preserve_state_and_provider() {
    for (publication, source, expected, effect) in [
        (NativePublication::NotPublished, NativeSourceState::Owned, PersistFailureState::NotPublished, LocalEffectState::Unchanged),
        (
            NativePublication::NotPublished,
            NativeSourceState::Released,
            PersistFailureState::NotPublishedSourceReleased,
            LocalEffectState::Unchanged,
        ),
        (
            NativePublication::NotPublished,
            NativeSourceState::Indeterminate,
            PersistFailureState::NotPublishedSourceIndeterminate,
            LocalEffectState::Unchanged,
        ),
        (
            NativePublication::NotPublished,
            NativeSourceState::CleanupRequired,
            PersistFailureState::NotPublishedSourceCleanupRequired,
            LocalEffectState::Unchanged,
        ),
        (
            NativePublication::Published,
            NativeSourceState::CleanupRequired,
            PersistFailureState::PublishedSourceRetained,
            LocalEffectState::Applied,
        ),
        (
            NativePublication::Published,
            NativeSourceState::Released,
            PersistFailureState::PublishedSourceReleased,
            LocalEffectState::Applied,
        ),
        (
            NativePublication::Published,
            NativeSourceState::Indeterminate,
            PersistFailureState::PublishedSourceIndeterminate,
            LocalEffectState::Applied,
        ),
        (NativePublication::Published, NativeSourceState::Owned, PersistFailureState::Indeterminate, LocalEffectState::Indeterminate),
    ] {
        let state = persist_failure_state(publication, source);
        assert_eq!(expected, state);
        assert_eq!(effect, persist_effect_state(state));
    }
    for source in [NativeSourceState::Owned, NativeSourceState::Released, NativeSourceState::CleanupRequired, NativeSourceState::Indeterminate] {
        let state = persist_failure_state(NativePublication::Indeterminate, source);
        assert_eq!(PersistFailureState::Indeterminate, state);
        assert_eq!(LocalEffectState::Indeterminate, persist_effect_state(state));
    }

    let error = file_cleanup_error(
        &native_failure(&LocalFileError::new(LocalFileErrorKind::PermissionDenied, LocalFileOperation::Cleanup)),
        NativeSourceState::Owned,
        "local-test-provider",
    );
    assert_eq!(LocalErrorKind::PermissionDenied, error.error.kind);
    assert_eq!(LocalOperation::CleanupTemp, error.error.operation);
    assert_eq!("local-test-provider", error.provider);
}

#[test]
fn test_require_owned_rejects_every_non_owned_source_without_effect() {
    assert_eq!(Ok(()), require_owned(Some(NativeSourceState::Owned), LocalOperation::PersistTemp));
    for (held, expected) in [
        (None, PersistFailureState::NotPublishedSourceReleased),
        (Some(NativeSourceState::Released), PersistFailureState::NotPublishedSourceReleased),
        (Some(NativeSourceState::CleanupRequired), PersistFailureState::NotPublishedSourceCleanupRequired),
        (Some(NativeSourceState::Indeterminate), PersistFailureState::NotPublishedSourceIndeterminate),
    ] {
        let failure = require_owned(held, LocalOperation::KeepTemp).expect_err("non-owned source is rejected");
        assert_eq!(expected, failure.state);
        assert_eq!(LocalErrorKind::InvalidState, failure.error.kind);
        assert_eq!(LocalOperation::KeepTemp, failure.error.operation);
        assert_eq!(Some(LocalEffectState::Unchanged), failure.error.effect);
        assert_eq!("temporary resource no longer owns its source", failure.error.message);
    }
}

#[test]
fn test_native_publication_failures_report_state_effect() {
    let failure = NativeFailure {
        kind: NativeErrorKind::PermissionDenied,
        io_kind: None,
        effect: None,
    };
    let persisted = persist_native_failure(&failure, NativePublication::Published, NativeSourceState::CleanupRequired);
    assert_eq!(PersistFailureState::PublishedSourceRetained, persisted.state);
    assert_eq!(Some(LocalEffectState::Applied), persisted.error.effect);
    assert_eq!(LocalOperation::PersistTemp, persisted.error.operation);
    assert_eq!(LocalErrorKind::PermissionDenied, persisted.error.kind);

    let kept = keep_native_failure(
        TempResourceKind::Directory,
        &failure,
        NativePublication::NotPublished,
        NativeSourceState::Owned,
    );
    assert_eq!(PersistFailureState::NotPublished, kept.state);
    assert_eq!(Some(LocalEffectState::Unchanged), kept.error.effect);
    assert_eq!("temporary directory keep failed", kept.error.message);
    assert_eq!(LocalOperation::KeepTemp, kept.error.operation);
}

#[test]
fn test_directory_cleanup_reports_lost_identity() {
    let failure = NativeFailure { kind: NativeErrorKind::InvalidPath, io_kind: None, effect: None };
    let error = directory_cleanup_error(&failure, NativeSourceState::Owned, "p");
    assert_eq!(LocalErrorKind::NotDirectory, error.error.kind);
    assert_eq!("temporary directory identity no longer names a directory", error.error.message);
    let uncertain = directory_cleanup_error(&failure, NativeSourceState::Indeterminate, "p");
    assert_eq!(LocalErrorKind::Indeterminate, uncertain.error.kind);
    let file = file_cleanup_error(&failure, NativeSourceState::Owned, "p");
    assert_eq!(LocalErrorKind::InvalidPath, file.error.kind);
    assert_eq!("temporary file cleanup failed", file.error.message);
}

#[test]
fn test_temp_creation_failures_name_parent_or_kind() {
    let failure = NativeFailure { kind: NativeErrorKind::NotFound, io_kind: None, effect: None };
    let with_parent = temp_creation_error(TempResourceKind::File, &failure, true);
    assert_eq!("local filesystem operation failed", with_parent.message);
    assert_eq!(LocalErrorKind::NotFound, with_parent.kind);
    let file = temp_creation_error(TempResourceKind::File, &failure, false);
    assert_eq!("native temporary file creation failed", file.message);
    let directory = temp_creation_error(TempResourceKind::Directory, &failure, false);
    assert_eq!("native temporary directory creation failed", directory.message);
    assert_eq!(LocalOperation::CreateTemp, directory.operation);
}

#[test]
fn test_persist_outcome_reports_only_confirmed_facts() {
    let atomic = persist_outcome(true, NativePersistMethod::AtomicRename, NativeCleanupState::Complete);
    assert!(atomic.atomic);
    assert_eq!(PublicationMethod::AtomicRename, atomic.method);
    assert_eq!(PersistCleanupState::Complete, atomic.cleanup);
    let direct = persist_outcome(false, NativePersistMethod::Other, NativeCleanupState::ResidualSandbox);
    assert!(!direct.atomic);
    assert_eq!(PublicationMethod::Direct, direct.method);
    assert_eq!(PersistCleanupState::ResidualTemporaryContainer, direct.cleanup);
    let unknown = persist_outcome(false, NativePersistMethod::Other, NativeCleanupState::Other);
    assert_eq!(PersistCleanupState::ResidualTemporaryContainer, unknown.cleanup);
}

#[test]
fn test_held_resources_may_be_cleaned_up() {
    assert_eq!(Ok(()), require_cleanup_target(true));
    let error = terminal_cleanup_error();
    assert_eq!("temporary resource is terminal", error.message);
}
