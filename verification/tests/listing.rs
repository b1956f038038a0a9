use qubit_fs::path::Path;
use qubit_fs_local::listing_options::entry_error;
use qubit_fs_local::listing_options::list_scope_error;
use qubit_fs_local::listing_options::require_list_path;
use qubit_fs_local::listing_options::ListingFilter;
use qubit_fs_local::listing_options::ListingOptions;
use qubit_fs_local::native_error::IoErrorKind;
use qubit_fs_local::native_error::NativeErrorKind;
use qubit_fs_local::native_error::NativeFailure;
use qubit_fs_local::LocalErrorKind;
use qubit_fs_local::LocalOperation;

#[test]
fn test_literal_prefix_matches_partial_components() {
    let options = ListingOptions::new(false, Some(ListingFilter::LiteralPrefix("report".to_owned())));

    assert!(options.matches(&Path::parse("/reports/annual.txt").expect("matching relative logical path")));
    assert!(!options.matches(&Path::parse("/archive/report.txt").expect("non-matching relative logical path")));
}

#[test]
fn test_subtree_matches_only_at_component_boundaries() {
    let options = ListingOptions::new(true, Some(ListingFilter::Subtree("docs".to_owned())));
    assert!(options.include_metadata());
    assert!(options.matches_text("/docs"));
    assert!(options.matches_text("/docs/a.txt"));
    assert!(!options.matches_text("/docs2/a.txt"));
    assert!(!options.matches_text("/other/docs"));
    assert!(!options.matches_text("docs"));
}

#[test]
fn test_no_filter_selects_every_entry() {
    let options = ListingOptions::new(false, None);
    assert!(!options.include_metadata());
    assert!(options.matches_text("/anything"));
    assert!(options.matches_text(""));
}

#[test]
fn test_literal_prefix_on_text_without_root_has_empty_key() {
    let options = ListingOptions::new(false, Some(ListingFilter::LiteralPrefix(String::new())));
    assert!(options.matches_text("relative"));
    let options = ListingOptions::new(false, Some(ListingFilter::LiteralPrefix("r".to_owned())));
    assert!(!options.matches_text("relative"));
}

#[test]
fn test_walk_failures_are_reported_as_listing_failures() {
    let failure = NativeFailure {
        kind: NativeErrorKind::Io,
        io_kind: Some(IoErrorKind::PermissionDenied),
        effect: None,
    };
    let error = entry_error(&failure);
    assert_eq!(LocalErrorKind::PermissionDenied, error.kind);
    assert_eq!(LocalOperation::List, error.operation);
    assert_eq!("native directory walk failed", error.message);

    let scope = list_scope_error();
    assert_eq!(LocalErrorKind::InvalidOptions, scope.kind);
    assert_eq!("local listing requires a directory path", scope.message);
}

#[test]
fn test_subtree_selection_refines_literal_prefix() {
    let subtree = ListingOptions::new(false, Some(ListingFilter::Subtree("docs".to_owned())));
    let literal = ListingOptions::new(false, Some(ListingFilter::LiteralPrefix("docs".to_owned())));
    for key in ["/docs", "/docs/a", "/docs/a/b", "/docs2", "/doc", "/other"] {
        if subtree.matches_text(key) {
            assert!(literal.matches_text(key), "{key} selected by the subtree filter");
        }
    }
    assert!(literal.matches_text("/docs2"));
    assert!(!subtree.matches_text("/docs2"));
}

#[test]
fn test_namespace_listing_is_refused_before_native_work() {
    let root = Path::parse("/data").expect("logical path");
    assert_eq!(Some(&root), require_list_path(Some(&root)).ok());
    let error = require_list_path(None).err().expect("a namespace scope is refused");
    assert_eq!(LocalErrorKind::InvalidOptions, error.kind);
    assert_eq!(LocalOperation::List, error.operation);
    assert_eq!("local listing requires a directory path", error.message);
}
