use qubit_fs::path::Path;
use qubit_fs::path::Uri;
use qubit_fs_local::registry::canonical_uri;
use qubit_fs_local::registry::check_config_parts;
use qubit_fs_local::registry::decode_config;
use qubit_fs_local::registry::invalid_options;
use qubit_fs_local::registry::invalid_path;
use qubit_fs_local::registry::uri_parts;
use qubit_fs_local::registry::ConfigFailure;
use qubit_fs_local::registry::ConfigShape;
use qubit_fs_local::registry::ProviderFailureKind;
use qubit_fs_local::registry::UriParts;
use qubit_fs_local::LocalErrorKind;
use qubit_fs_local::LocalOperation;

const EMPTY: ConfigShape = ConfigShape { has_options: false, has_metadata: false, has_credential: false };

fn parts(scheme: &str, authority: Option<&str>, query: Option<&str>, path: &str) -> UriParts {
    UriParts {
        scheme: scheme.to_owned(),
        authority: authority.map(str::to_owned),
        query: query.map(str::to_owned),
        path: path.to_owned(),
    }
}

fn refused_message(result: Result<(), qubit_fs_local::registry::ProviderFailureInfo>) -> &'static str {
    let failure = result.expect_err("configuration must be refused");
    assert_eq!(ProviderFailureKind::InvalidConfiguration, failure.kind);
    assert_eq!(LocalErrorKind::InvalidOptions, failure.error.kind);
    failure.error.message
}

#[test]
fn test_config_parts_are_checked_in_order() {
    assert_eq!(Ok(()), check_config_parts(EMPTY, &parts("file", None, None, "/tmp")));
    assert_eq!(Ok(()), check_config_parts(EMPTY, &parts("file", Some(""), None, "/tmp")));
    let with_options = ConfigShape { has_options: true, ..EMPTY };
    assert_eq!(
        "local filesystem provider does not support provider options, metadata, or credentials",
        refused_message(check_config_parts(with_options, &parts("http", Some("h"), Some("q"), "x")))
    );
    assert_eq!(
        "local filesystem provider requires the file URI scheme",
        refused_message(check_config_parts(EMPTY, &parts("files", Some("h"), None, "/")))
    );
    assert_eq!(
        "local filesystem provider does not support remote URI authorities",
        refused_message(check_config_parts(EMPTY, &parts("file", Some("host"), Some("q"), "/")))
    );
    assert_eq!(
        "local filesystem provider does not support URI queries",
        refused_message(check_config_parts(EMPTY, &parts("file", None, Some(""), "/")))
    );
    let with_credential = ConfigShape { has_credential: true, ..EMPTY };
    assert!(check_config_parts(with_credential, &parts("file", None, None, "/")).is_err());
}

#[test]
fn test_decode_config_resolves_absolute_file_uris() {
    let uri = Uri::parse("file:///srv/app%20data").expect("file URI");
    let (path, returned) = decode_config(EMPTY, Ok(uri.clone())).ok().expect("resolvable configuration");
    assert_eq!("/srv/app data", path.as_str());
    assert_eq!(uri, returned);
}

#[test]
fn test_decode_config_refuses_before_reading_the_uri() {
    let shape = ConfigShape { has_metadata: true, ..EMPTY };
    let uri = Uri::parse("file:///tmp").expect("file URI");
    match decode_config(shape, Ok(uri)) {
        Err(ConfigFailure::Refused(failure)) => assert_eq!(LocalErrorKind::InvalidOptions, failure.error.kind),
        _ => panic!("options, metadata and credentials are refused first"),
    }
    let invalid = Uri::parse("not a uri");
    if let Err(error) = invalid {
        match decode_config(EMPTY, Err(error)) {
            Err(ConfigFailure::InvalidUri(_)) => {}
            _ => panic!("an unconvertible URI is reported as such"),
        }
    }
}

#[test]
fn test_decode_config_refuses_remote_and_malformed_paths() {
    let remote = Uri::parse("file://host/tmp").expect("file URI with authority");
    assert!(matches!(decode_config(EMPTY, Ok(remote)), Err(ConfigFailure::Refused(_))));
    let malformed = Uri::parse("file:///tmp/%00").expect("URI text");
    match decode_config(EMPTY, Ok(malformed)) {
        Err(ConfigFailure::Refused(failure)) => assert_eq!(LocalErrorKind::InvalidPath, failure.error.kind),
        _ => panic!("encoded NUL bytes are refused"),
    }
}

#[test]
fn test_failure_builders_carry_their_kind() {
    let options = invalid_options("o");
    assert_eq!(LocalErrorKind::InvalidOptions, options.error.kind);
    assert_eq!(LocalOperation::Provider, options.error.operation);
    let path = invalid_path("p");
    assert_eq!(LocalErrorKind::InvalidPath, path.error.kind);
    assert_eq!(ProviderFailureKind::InvalidConfiguration, path.kind);
}

#[test]
fn test_canonical_uri_resolves_back_to_its_path() {
    let path = Path::parse("/srv/app data/%25x/\u{e9}").expect("logical path");
    let uri = canonical_uri(&path).expect("canonical URI");
    let read = uri_parts(&uri);
    assert_eq!("file", read.scheme);
    assert_eq!(Some(String::new()), read.authority);
    assert_eq!(None, read.query);
    assert_eq!("/srv/app%20data/%25x/%C3%A9", read.path);
    let (resolved, same) = decode_config(EMPTY, Ok(uri.clone())).ok().expect("canonical URIs resolve");
    assert_eq!(path, resolved);
    assert_eq!(uri, same);
}
