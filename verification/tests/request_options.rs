use qubit_fs_local::options_plan::copy;
use qubit_fs_local::options_plan::create_directory;
use qubit_fs_local::options_plan::list;
use qubit_fs_local::options_plan::metadata_preservation;
use qubit_fs_local::options_plan::native_symlink_policy;
use qubit_fs_local::options_plan::open_writer;
use qubit_fs_local::options_plan::AuthorityScope;
use qubit_fs_local::options_plan::CopyConflictPolicy;
use qubit_fs_local::options_plan::CopyMode;
use qubit_fs_local::options_plan::CopyRequestOptions;
use qubit_fs_local::options_plan::CreateDirectoryRequestOptions;
use qubit_fs_local::options_plan::ListRequestOptions;
use qubit_fs_local::options_plan::NativeSymlinkPolicy;
use qubit_fs_local::options_plan::Requirement;
use qubit_fs_local::options_plan::SymlinkPolicy;
use qubit_fs_local::options_plan::TypeConflictPolicy;
use qubit_fs_local::options_plan::WriteDisposition;
use qubit_fs_local::options_plan::WriteRequestOptions;
use qubit_fs_local::outcome_map::MetadataPreservePolicy;
use qubit_fs_local::outcome_map::NativeMetadataPreservation;
use qubit_fs_local::LocalEffectState;
use qubit_fs_local::LocalErrorKind;
use qubit_fs_local::LocalOperation;

fn plain_write() -> WriteRequestOptions {
    WriteRequestOptions {
        disposition: WriteDisposition::CreateOrReplace,
        atomicity: Requirement::Preferred,
        create_parent: true,
        has_precondition: false,
        has_content_type: false,
        has_user_metadata: false,
        has_checksum: false,
    }
}

fn plain_copy() -> CopyRequestOptions {
    CopyRequestOptions {
        continue_on_error: false,
        server_side_required: false,
        conflict: CopyConflictPolicy::Fail,
        preserve: MetadataPreservePolicy::Portable,
        atomicity: Requirement::NotRequired,
        durability: Requirement::Required,
        symlink_override: false,
        symlink_policy: SymlinkPolicy::Reject,
        mode: CopyMode::Tree,
        create_parent: false,
    }
}

#[test]
fn test_symlink_following_depends_on_the_authority() {
    assert_eq!(
        Ok(NativeSymlinkPolicy::FollowAcrossScope),
        native_symlink_policy(SymlinkPolicy::FollowWithinFileSystem, AuthorityScope::Host, LocalOperation::List)
    );
    assert_eq!(
        Ok(NativeSymlinkPolicy::FollowWithinScope),
        native_symlink_policy(SymlinkPolicy::FollowWithinFileSystem, AuthorityScope::Rooted, LocalOperation::List)
    );
    assert_eq!(
        Ok(NativeSymlinkPolicy::Reject),
        native_symlink_policy(SymlinkPolicy::Reject, AuthorityScope::Host, LocalOperation::Copy)
    );
    let error = native_symlink_policy(SymlinkPolicy::Other, AuthorityScope::Host, LocalOperation::Copy)
        .expect_err("inexpressible policy");
    assert_eq!(LocalErrorKind::RequirementNotMet, error.kind);
    assert_eq!(LocalOperation::Copy, error.operation);
    assert_eq!("local adapter cannot express requested option", error.message);
}

#[test]
fn test_prefix_filters_need_a_recursive_walk() {
    let plan = list(
        &ListRequestOptions { recursive: false, has_prefix: true, symlink_override: None },
        AuthorityScope::Rooted,
    )
    .expect("listing options are expressible");
    assert!(plan.recursive);
    assert_eq!(None, plan.symlink);
    let plan = list(
        &ListRequestOptions { recursive: false, has_prefix: false, symlink_override: Some(SymlinkPolicy::Reject) },
        AuthorityScope::Host,
    )
    .expect("listing options are expressible");
    assert!(!plan.recursive);
    assert_eq!(Some(NativeSymlinkPolicy::Reject), plan.symlink);
    assert!(list(
        &ListRequestOptions { recursive: true, has_prefix: false, symlink_override: Some(SymlinkPolicy::Other) },
        AuthorityScope::Host,
    )
    .is_err());
}

#[test]
fn test_writes_refuse_what_a_local_file_cannot_carry() {
    let plan = qubit_fs_local::options_plan::write(&plain_write()).expect("plain write");
    assert_eq!(WriteDisposition::CreateOrReplace, plan.disposition);
    assert_eq!(Requirement::Preferred, plan.atomicity);
    assert!(plan.create_parent);
    for options in [
        WriteRequestOptions { has_precondition: true, ..plain_write() },
        WriteRequestOptions { has_content_type: true, ..plain_write() },
        WriteRequestOptions { has_user_metadata: true, ..plain_write() },
        WriteRequestOptions { has_checksum: true, ..plain_write() },
    ] {
        let error = qubit_fs_local::options_plan::write(&options).expect_err("inexpressible write option");
        assert_eq!(LocalErrorKind::RequirementNotMet, error.kind);
        assert_eq!(LocalOperation::OpenWriter, error.operation);
        assert_eq!(None, error.effect);
        let opened = open_writer(&options).expect_err("inexpressible write option");
        assert_eq!(Some(LocalEffectState::Unchanged), opened.effect);
    }
}

#[test]
fn test_directory_creation_refuses_user_metadata() {
    let plan = create_directory(&CreateDirectoryRequestOptions {
        has_user_metadata: false,
        recursive: true,
        exists_ok: false,
    })
    .expect("plain directory creation");
    assert!(plan.recursive);
    assert!(!plan.exists_ok);
    let error = create_directory(&CreateDirectoryRequestOptions {
        has_user_metadata: true,
        recursive: false,
        exists_ok: true,
    })
    .expect_err("user metadata");
    assert_eq!(LocalOperation::CreateDir, error.operation);
}

#[test]
fn test_copy_plans_follow_the_request() {
    let plan = copy(&plain_copy(), AuthorityScope::Host).expect("plain copy");
    assert_eq!(CopyConflictPolicy::Fail, plan.conflict);
    assert_eq!(NativeMetadataPreservation::Permissions, plan.metadata);
    assert_eq!(Requirement::NotRequired, plan.atomicity);
    assert_eq!(Requirement::Required, plan.durability);
    assert_eq!(None, plan.symlink);
    assert_eq!(CopyMode::Tree, plan.mode);
    assert_eq!(None, plan.type_conflict);
    assert!(!plan.create_parent);

    let overwrite = copy(
        &CopyRequestOptions {
            conflict: CopyConflictPolicy::Overwrite,
            symlink_override: true,
            symlink_policy: SymlinkPolicy::FollowWithinFileSystem,
            ..plain_copy()
        },
        AuthorityScope::Rooted,
    )
    .expect("overwriting copy");
    assert_eq!(Some(TypeConflictPolicy::Replace), overwrite.type_conflict);
    assert_eq!(Some(NativeSymlinkPolicy::FollowWithinScope), overwrite.symlink);
    let skip = copy(&CopyRequestOptions { conflict: CopyConflictPolicy::Skip, ..plain_copy() }, AuthorityScope::Host)
        .expect("skipping copy");
    assert_eq!(Some(TypeConflictPolicy::Skip), skip.type_conflict);
}

#[test]
fn test_copy_refuses_inexpressible_options() {
    for options in [
        CopyRequestOptions { continue_on_error: true, ..plain_copy() },
        CopyRequestOptions { server_side_required: true, ..plain_copy() },
        CopyRequestOptions { preserve: MetadataPreservePolicy::All, ..plain_copy() },
        CopyRequestOptions { symlink_override: true, symlink_policy: SymlinkPolicy::Other, ..plain_copy() },
    ] {
        let error = copy(&options, AuthorityScope::Host).expect_err("inexpressible copy option");
        assert_eq!(LocalErrorKind::RequirementNotMet, error.kind);
        assert_eq!(LocalOperation::Copy, error.operation);
    }
    assert!(copy(
        &CopyRequestOptions { symlink_override: false, symlink_policy: SymlinkPolicy::Other, ..plain_copy() },
        AuthorityScope::Host
    )
    .is_ok());
}

#[test]
fn test_metadata_preservation_keeps_only_content_and_permissions() {
    assert_eq!(Ok(NativeMetadataPreservation::ContentOnly), metadata_preservation(MetadataPreservePolicy::ContentOnly));
    assert_eq!(Ok(NativeMetadataPreservation::Permissions), metadata_preservation(MetadataPreservePolicy::Portable));
    assert!(metadata_preservation(MetadataPreservePolicy::UserMetadata).is_err());
    assert!(metadata_preservation(MetadataPreservePolicy::ProviderNative).is_err());
}
