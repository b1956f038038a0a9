use qubit_fs_local::native_uri_component::is_native_uri_component;
use qubit_fs_local::native_uri_component::is_windows_drive_component;
use qubit_fs_local::native_uri_component::native_uri_path;
use qubit_fs_local::options_plan::NativeSymlinkPolicy;
use qubit_fs_local::options_plan::SymlinkPolicy;
use qubit_fs_local::properties::capability_support;
use qubit_fs_local::properties::portable_symlink_policy;
use qubit_fs_local::properties::Capability;
use qubit_fs_local::properties::NativeCapabilities;
use qubit_fs_local::properties::supported_operations;
use qubit_fs_local::properties::ProviderOperation;
use qubit_fs_local::properties::Support;

#[test]
fn test_single_normal_components_are_accepted() {
    assert!(is_native_uri_component("file.txt", false));
    assert!(is_native_uri_component("a/", true));
    assert!(is_native_uri_component("a/./.", false));
    assert!(is_native_uri_component("...", false));
    assert!(is_native_uri_component(".hidden", false));
}

#[test]
fn test_components_that_change_path_structure_are_refused() {
    for component in ["", "/", "/a", ".", "..", "./a", "a/b", "a/..", "a//b", "../a", "a/.b"] {
        assert!(!is_native_uri_component(component, false), "{component:?} must be refused");
    }
}

#[test]
fn test_drive_components_are_a_letter_and_colon() {
    assert!(is_windows_drive_component("C:"));
    assert!(is_windows_drive_component("z:"));
    assert!(!is_windows_drive_component("1:"));
    assert!(!is_windows_drive_component("C"));
    assert!(!is_windows_drive_component("C:/"));
    assert_eq!("/tmp/x", native_uri_path("/tmp/x"));
}

#[test]
fn test_capabilities_follow_the_native_report() {
    let none = NativeCapabilities {
        atomic_rename: false,
        atomic_replace: false,
        atomic_temp_persist: false,
        durable_rename: false,
        durable_file_copy: false,
        durable_write: false,
    };
    let all = NativeCapabilities {
        atomic_rename: true,
        atomic_replace: true,
        atomic_temp_persist: true,
        durable_rename: true,
        durable_file_copy: true,
        durable_write: true,
    };
    for capability in [Capability::List, Capability::Read, Capability::Write, Capability::Copy, Capability::TempDirectory] {
        assert_eq!(Support::Guaranteed, capability_support(&none, capability));
    }
    assert_eq!(Support::Conditional, capability_support(&none, Capability::RangeRead));
    for capability in [
        Capability::AtomicRename,
        Capability::AtomicReplace,
        Capability::AtomicFileCopy,
        Capability::AtomicTempPersist,
        Capability::DurableRename,
        Capability::DurableFileCopy,
        Capability::DurableWrite,
    ] {
        assert_eq!(Support::Unsupported, capability_support(&none, capability));
        assert_eq!(Support::Conditional, capability_support(&all, capability));
    }
    assert_eq!(Support::Unsupported, capability_support(&all, Capability::ConditionalWrite));
    assert_eq!(Support::Unsupported, capability_support(&all, Capability::UserMetadata));
}

#[test]
fn test_native_symlink_policies_map_to_portable_ones() {
    assert_eq!(SymlinkPolicy::Reject, portable_symlink_policy(NativeSymlinkPolicy::Reject));
    assert_eq!(SymlinkPolicy::FollowWithinFileSystem, portable_symlink_policy(NativeSymlinkPolicy::FollowWithinScope));
    assert_eq!(SymlinkPolicy::FollowWithinFileSystem, portable_symlink_policy(NativeSymlinkPolicy::FollowAcrossScope));
}

#[test]
fn test_every_provider_operation_is_supported() {
    let operations = supported_operations();
    assert_eq!(11, operations.len());
    assert!(operations.contains(&ProviderOperation::OpenReader));
    assert_eq!(ProviderOperation::Stat, operations[0]);
    assert_eq!(ProviderOperation::CreateTempDirectory, operations[10]);
    let reported = NativeCapabilities {
        atomic_rename: false,
        atomic_replace: false,
        atomic_temp_persist: false,
        durable_rename: false,
        durable_file_copy: false,
        durable_write: false,
    };
    assert_eq!(Support::Conditional, capability_support(&reported, Capability::RangeRead));
}
