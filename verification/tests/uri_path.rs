use qubit_fs::path::Path;
use qubit_fs_local::file_uri_path::canonical_uri_text;
use qubit_fs_local::file_uri_path::canonicalize_uri_bytes;
use qubit_fs_local::file_uri_path::decode_canonical_text;
use qubit_fs_local::file_uri_path::decode_component;
use qubit_fs_local::file_uri_path::decode_uri_bytes;
use qubit_fs_local::file_uri_path::hex_value;
use qubit_fs_local::file_uri_path::is_uri_pchar;
use qubit_fs_local::file_uri_path::push_uri_escaped_byte;
use qubit_fs_local::file_uri_path::UriPathError;
use qubit_fs_local::registry::canonical_uri;
use qubit_fs_local::registry::canonical_uri_of_text;
use qubit_fs_local::registry::decode;
use qubit_fs_local::registry::decode_uri_path;
use qubit_fs_local::registry::ProviderFailureKind;
use qubit_fs_local::LocalErrorKind;
use qubit_fs_local::LocalOperation;

#[test]
fn test_decode_rejects_malformed_and_unsafe_encoded_components() {
    let raw_paths = ["/%", "/%0", "/%GG", "/%00", "/%2F"];
    for raw in raw_paths {
        let failure = decode(raw).expect_err("malformed or unsafe URI path must be rejected");
        assert_eq!(
            ProviderFailureKind::InvalidConfiguration,
            failure.kind,
            "unexpected provider failure kind for {raw}",
        );
        assert_eq!(
            LocalErrorKind::InvalidPath,
            failure.error.kind,
            "unexpected filesystem error kind for {raw}",
        );
    }
}

#[test]
fn test_decode_reports_the_reason_for_each_refusal() {
    assert_eq!(
        "local file URI path contains an invalid encoded component",
        decode("/%GG").unwrap_err().error.message
    );
    assert_eq!(
        "local file URI path must not encode a path separator",
        decode("/a%2Fb").unwrap_err().error.message
    );
    assert_eq!(LocalOperation::Provider, decode("/%").unwrap_err().error.operation);
    assert_eq!(None, decode("/%").unwrap_err().error.effect);
}

#[test]
fn test_decode_writes_native_bytes_as_canonical_text() {
    let path = decode("/srv/app%20data/r%C3%A9sum%C3%A9.txt").expect("valid URI path");
    assert_eq!("/srv/app data/résumé.txt", path.as_str());
    let escaped = decode("/bin/%FF").expect("non-UTF-8 byte");
    assert_eq!("/bin/%FF", escaped.as_str());
    let percent = decode("/a%25b").expect("encoded percent sign");
    assert_eq!("/a%25b", percent.as_str());
}

#[test]
fn test_decode_uri_path_requires_an_absolute_path() {
    let failure = decode_uri_path("relative/path").expect_err("relative paths are refused");
    assert_eq!(LocalErrorKind::InvalidPath, failure.error.kind);
    assert_eq!("local file URI path must be absolute", failure.error.message);
    let path = decode_uri_path("/tmp/x").expect("absolute path");
    assert_eq!("/tmp/x", path.as_str());
}

#[test]
fn test_canonical_uri_round_trips_through_decode() {
    for text in ["/", "/tmp/a b", "/data/résumé/中/🦀", "/a%25b", "/srv/x~y-z_w.q"] {
        let path = Path::parse(text).expect("canonical logical path");
        let uri = canonical_uri(&path).expect("canonical URI");
        assert_eq!("file", uri.scheme());
        let decoded = decode(uri.path()).expect("canonical URI path must decode");
        assert_eq!(path, decoded, "round trip of {text}");
        let again = canonical_uri(&decoded).expect("decoded path has a canonical URI");
        assert_eq!(uri, again, "canonical URI of {text} is stable");
    }
}

#[test]
fn test_canonical_uri_text_escapes_reserved_bytes() {
    assert_eq!("file:///tmp/a%20b", canonical_uri_text("/tmp/a b"));
    assert_eq!("file:///a%25b", canonical_uri_text("/a%25b"));
    assert_eq!("file:///r%C3%A9", canonical_uri_text("/ré"));
}

#[test]
fn test_decode_canonical_text_reports_each_error() {
    assert_eq!(Err(UriPathError::InvalidEncodedComponent), decode_canonical_text("/%G1"));
    assert_eq!(Err(UriPathError::EncodedSeparator), decode_canonical_text("/%2f"));
    assert_eq!(Err(UriPathError::InvalidEncodedComponent), decode_canonical_text("/%00"));
    assert_eq!(Ok("/a/b".to_owned()), decode_canonical_text("/a/b"));
}

#[test]
fn test_hex_value_reads_both_cases() {
    assert_eq!(Some(0), hex_value(b'0'));
    assert_eq!(Some(9), hex_value(b'9'));
    assert_eq!(Some(10), hex_value(b'a'));
    assert_eq!(Some(15), hex_value(b'F'));
    assert_eq!(None, hex_value(b'g'));
    assert_eq!(None, hex_value(b'/'));
}

#[test]
fn test_uri_pchar_excludes_reserved_characters() {
    assert!(is_uri_pchar(b'a'));
    assert!(is_uri_pchar(b'Z'));
    assert!(is_uri_pchar(b'7'));
    assert!(is_uri_pchar(b'~'));
    assert!(!is_uri_pchar(b' '));
    assert!(!is_uri_pchar(b'%'));
    assert!(!is_uri_pchar(b'/'));
    assert!(!is_uri_pchar(b'?'));
}

#[test]
fn test_push_uri_escaped_byte_uses_uppercase_hex() {
    let mut out = Vec::new();
    push_uri_escaped_byte(&mut out, 0xAB);
    push_uri_escaped_byte(&mut out, 0x05);
    assert_eq!(b"%AB%05".to_vec(), out);
}

#[test]
fn test_decode_uri_bytes_decodes_a_component_window() {
    let raw = b"/x%41y/z";
    assert_eq!(Ok(b"xAy".to_vec()), decode_uri_bytes(raw, 1, 6));
    assert_eq!(Err(UriPathError::InvalidEncodedComponent), decode_uri_bytes(b"%4", 0, 2));
}

#[test]
fn test_canonicalize_uri_bytes_escapes_percent_and_invalid_utf8() {
    assert_eq!(b"a%25b".to_vec(), canonicalize_uri_bytes(b"a%b"));
    assert_eq!(b"%FF".to_vec(), canonicalize_uri_bytes(&[0xFF]));
    assert_eq!("é".as_bytes().to_vec(), canonicalize_uri_bytes("é".as_bytes()));
}

#[test]
fn test_decode_component_refuses_separators_and_nul() {
    assert_eq!(Err(UriPathError::EncodedSeparator), decode_component(b"a%2Fb", 0, 5));
    assert_eq!(Err(UriPathError::InvalidEncodedComponent), decode_component(b"%00", 0, 3));
    assert_eq!(Ok(b"a%2520b".to_vec()), decode_component(b"a%2520b", 0, 7));
    assert_eq!(Ok(b"a b".to_vec()), decode_component(b"a%20b", 0, 5));
}

#[test]
fn test_canonical_uri_of_text_parses_the_canonical_spelling() {
    let uri = canonical_uri_of_text("/srv/a b/%25").expect("canonical spelling parses");
    assert_eq!("file", uri.scheme());
    assert_eq!("/srv/a%20b/%25", uri.path());
    assert_eq!(None, uri.query());
}

#[test]
fn test_canonical_text_escapes_every_control_character() {
    let bytes: &[u8] = &[b'a', 0x01, 0x7f, 0xc2, 0x85, b'%', 0xc2, 0xa9];
    let canonical = canonicalize_uri_bytes(bytes);
    assert_eq!(b"a%01%7F%C2%85%25\xc2\xa9".to_vec(), canonical);
    let text = String::from_utf8(canonical).expect("canonical text is UTF-8");
    assert!(!text.chars().any(char::is_control));
    for (index, byte) in text.bytes().enumerate() {
        if byte == b'%' {
            let digits = &text.as_bytes()[index + 1..index + 3];
            assert!(digits.iter().all(|d| d.is_ascii_digit() || (b'A'..=b'F').contains(d)));
        }
    }
}
