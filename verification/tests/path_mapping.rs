use std::path::PathBuf;

use qubit_fs::path::Path;
use qubit_fs_local::options_plan::AuthorityScope;
use qubit_fs_local::path_mapper::host_path_to_logical;
use qubit_fs_local::path_mapper::logical;
use qubit_fs_local::path_mapper::logical_components;
use qubit_fs_local::path_mapper::native;
use qubit_fs_local::path_mapper::require_absolute;
use qubit_fs_local::path_mapper::LogicalPathFailure;
use qubit_fs_local::registry::decode;
use qubit_fs_local::LocalErrorKind;
use qubit_fs_local::LocalOperation;

#[test]
fn test_logical_components_join_under_the_root() {
    let path = logical_components(&vec!["srv".to_owned(), "a b".to_owned()]).expect("joined components");
    assert_eq!("/srv/a b", path.as_str());
    let root = logical_components(&Vec::new()).expect("no components name the root");
    assert_eq!("/", root.as_str());
}

#[test]
fn test_relative_logical_paths_are_refused() {
    let relative = Path::parse("relative/file").expect("relative logical path");
    let error = require_absolute(&relative).expect_err("relative paths are refused");
    assert_eq!(LocalErrorKind::InvalidPath, error.kind);
    assert_eq!(LocalOperation::ParsePath, error.operation);
    assert_eq!("local filesystem paths must be absolute", error.message);
    assert!(native(AuthorityScope::Host, &relative).is_err());
    assert!(require_absolute(&Path::parse("/tmp").expect("absolute path")).is_ok());
}

#[test]
fn test_host_paths_round_trip_through_the_codec() {
    let logical_path = Path::parse("/tmp/a b/c").expect("absolute path");
    let native_path = native(AuthorityScope::Host, &logical_path).expect("host path");
    assert_eq!(PathBuf::from("/tmp/a b/c"), native_path);
    let back = logical(AuthorityScope::Host, &native_path, LocalOperation::Stat).ok().expect("logical name");
    assert_eq!(logical_path, back);
    let converted = host_path_to_logical(&PathBuf::from("/tmp/a b/c")).ok().expect("host path name");
    assert_eq!(logical_path, converted);
}

#[test]
fn test_paths_the_codec_refuses_are_invalid_paths() {
    match logical(AuthorityScope::Host, &PathBuf::from("relative"), LocalOperation::List) {
        Err(LogicalPathFailure::Codec(error)) => {
            assert_eq!(LocalErrorKind::InvalidPath, error.kind);
            assert_eq!(LocalOperation::List, error.operation);
            assert_eq!("local native path conversion failed", error.message);
        }
        Err(LogicalPathFailure::Parse(_)) => panic!("the codec refuses a relative host path"),
        Ok(_) => panic!("a relative host path has no logical name"),
    }
}

#[test]
fn test_decoded_text_the_path_parser_refuses_is_invalid() {
    let failure = decode("/..").expect_err("a root escape is not a logical path");
    assert_eq!(LocalErrorKind::InvalidPath, failure.error.kind);
    assert_eq!("local file URI path is invalid", failure.error.message);
}
