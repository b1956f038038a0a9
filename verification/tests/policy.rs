use std::time::Duration;

use qubit_fs_local::LocalCopyResourceLimits;
use qubit_fs_local::LocalDeleteResourceLimits;
use qubit_fs_local::LocalDirectoryReopenPolicy;
use qubit_fs_local::LocalErrorKind;
use qubit_fs_local::LocalFileSystems;
use qubit_fs_local::LocalListResourceLimits;
use qubit_fs_local::LocalOperation;
use qubit_fs_local::LocalResourcePolicy;

fn limits() -> (LocalListResourceLimits, LocalCopyResourceLimits, LocalDeleteResourceLimits) {
    (
        LocalListResourceLimits::new(4, 100, 4096, 8, Duration::from_secs(5)).expect("valid list limits"),
        LocalCopyResourceLimits::new(3, 50, 1 << 20, 2, Duration::from_secs(7)).expect("valid copy limits"),
        LocalDeleteResourceLimits::new(2, 10, 512, Duration::from_secs(1)),
    )
}

#[test]
fn test_list_limits_report_their_values() {
    let (list, _, _) = limits();
    assert_eq!(4, list.max_depth());
    assert_eq!(100, list.max_entries());
    assert_eq!(4096, list.max_seen_name_bytes());
    assert_eq!(8, list.max_open_directories());
    assert_eq!(Duration::from_secs(5), list.deadline());
}

#[test]
fn test_copy_limits_report_their_values() {
    let (_, copy, _) = limits();
    assert_eq!(3, copy.max_depth());
    assert_eq!(50, copy.max_entries());
    assert_eq!(1 << 20, copy.max_bytes());
    assert_eq!(2, copy.max_open_directories());
    assert_eq!(Duration::from_secs(7), copy.deadline());
}

#[test]
fn test_delete_limits_accept_zero_values() {
    let delete = LocalDeleteResourceLimits::new(0, 0, 0, Duration::ZERO);
    assert_eq!(0, delete.max_depth());
    assert_eq!(0, delete.max_entries());
    assert_eq!(0, delete.max_pending_path_bytes());
    assert_eq!(Duration::ZERO, delete.deadline());
}

#[test]
fn test_zero_open_directories_are_rejected() {
    let list = LocalListResourceLimits::new(1, 1, 1, 0, Duration::from_secs(1)).expect_err("zero open directories");
    assert_eq!(LocalErrorKind::InvalidOptions, list.kind);
    assert_eq!(LocalOperation::Provider, list.operation);
    let copy = LocalCopyResourceLimits::new(1, 1, 1, 0, Duration::from_secs(1)).expect_err("zero open directories");
    assert_eq!(LocalErrorKind::InvalidOptions, copy.kind);
    assert_eq!("max_open_directories must be greater than zero", copy.message);
}

#[test]
fn test_bounded_policy_reports_its_ceilings() {
    let (list, copy, delete) = limits();
    let policy = LocalResourcePolicy::bounded(list, copy, delete);
    assert_eq!(Some(list), policy.list_limits());
    assert_eq!(Some(copy), policy.copy_limits());
    assert_eq!(Some(delete), policy.delete_limits());
    assert_eq!(None, policy.open_retry_timeout());
    assert_eq!(None, policy.temp_max_attempts());
    assert_eq!(LocalDirectoryReopenPolicy::Reopen, policy.directory_reopen_policy());
}

#[test]
fn test_unbounded_policy_has_no_ceilings() {
    let policy = LocalResourcePolicy::unbounded();
    assert_eq!(None, policy.list_limits());
    assert_eq!(None, policy.copy_limits());
    assert_eq!(None, policy.delete_limits());
}

#[test]
fn test_policy_setters_change_only_their_field() {
    let (list, copy, delete) = limits();
    let policy = LocalResourcePolicy::bounded(list, copy, delete)
        .with_open_retry_timeout(Some(Duration::from_millis(250)))
        .with_temp_max_attempts(Some(9))
        .with_directory_reopen_policy(LocalDirectoryReopenPolicy::Fail)
        .with_delete_limits(None);
    assert_eq!(Some(Duration::from_millis(250)), policy.open_retry_timeout());
    assert_eq!(Some(9), policy.temp_max_attempts());
    assert_eq!(LocalDirectoryReopenPolicy::Fail, policy.directory_reopen_policy());
    assert_eq!(None, policy.delete_limits());
    assert_eq!(Some(list), policy.list_limits());
    assert_eq!(Some(copy), policy.copy_limits());

    let a = LocalResourcePolicy::unbounded()
        .with_temp_max_attempts(Some(3))
        .with_open_retry_timeout(Some(Duration::from_secs(1)));
    let b = LocalResourcePolicy::unbounded()
        .with_open_retry_timeout(Some(Duration::from_secs(1)))
        .with_temp_max_attempts(Some(3));
    assert_eq!(a, b);
}

#[test]
fn test_reopen_policy_defaults_to_reopen() {
    assert_eq!(LocalDirectoryReopenPolicy::Reopen, LocalDirectoryReopenPolicy::default());
}

#[test]
fn test_rooted_identity_joins_process_and_sequence() {
    assert_eq!("local-rooted-4242-0", LocalFileSystems::rooted_identity(4242, 0));
    assert_eq!("local-rooted-0-18446744073709551615", LocalFileSystems::rooted_identity(0, u64::MAX));
    assert_ne!(LocalFileSystems::rooted_identity(1, 23), LocalFileSystems::rooted_identity(12, 3));
}
