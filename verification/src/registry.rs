//! Validation of `file:` registry configurations and the URI spellings of
//! local logical paths.

use qubit_fs::path::Path;
use qubit_fs::path::Uri;
use qubit_fs::FsError;

use vstd::prelude::*;
use vstd::utf8::*;

use crate::error::LocalError;
use crate::error::LocalErrorKind;
use crate::error::LocalOperation;
use crate::file_uri_path::canonical_component;
use crate::file_uri_path::canonical_uri_text;
use crate::file_uri_path::canonicalize;
use crate::file_uri_path::component_bytes;
use crate::file_uri_path::escape_bytes;
use crate::file_uri_path::percent_decode;
use crate::file_uri_path::scalar_needs_escape;
use crate::file_uri_path::slash_index;
use crate::file_uri_path::decode_canonical_text;
use crate::file_uri_path::decode_text;
use crate::file_uri_path::file_uri_prefix;
use crate::file_uri_path::lemma_decode_canonical_uri_round_trip;
use crate::file_uri_path::uri_encode;
use crate::file_uri_path::is_uri_path_bytes;
use crate::file_uri_path::lemma_uri_encode_is_uri_path;
use crate::file_uri_path::UriPathError;
use crate::file_uri_path::SLASH;
use crate::path_mapper::starts_with_slash;
use crate::path_mapper::joined;

verus! {

/// Declares the portable facade's logical path type; it is carried through
/// verified code without being inspected.
#[verifier::external_type_specification]
#[verifier::external_body]
pub struct ExPath(Path);

/// Declares the portable facade's URI type; it is carried through verified
/// code without being inspected.
#[verifier::external_type_specification]
#[verifier::external_body]
pub struct ExUri(Uri);

/// Declares the portable facade's error type; it is carried through verified
/// code without being inspected.
#[verifier::external_type_specification]
#[verifier::external_body]
pub struct ExFsError(FsError);

/// The `/`-separated pieces of text, empty pieces included: text without a
/// `/` is one piece.
pub open spec fn slash_pieces(text: Seq<char>) -> Seq<Seq<char>>
    decreases text.len(),
{
    if text.len() == 0 {
        seq![seq![]]
    } else {
        let front = slash_pieces(text.drop_last());
        if text.last() == '/' {
            front.push(seq![])
        } else {
            front.update(front.len() - 1, front.last().push(text.last()))
        }
    }
}

/// Hierarchical normalization of pieces: empty and `.` pieces are dropped,
/// and `..` removes the last piece kept; `None` where `..` finds none.
pub open spec fn normalized_pieces(pieces: Seq<Seq<char>>) -> Option<Seq<Seq<char>>>
    decreases pieces.len(),
{
    if pieces.len() == 0 {
        Some(seq![])
    } else {
        match normalized_pieces(pieces.drop_last()) {
            None => None,
            Some(kept) => {
                let piece = pieces.last();
                if piece == Seq::<char>::empty() || piece == seq!['.'] {
                    Some(kept)
                } else if piece == seq!['.', '.'] {
                    if kept.len() == 0 {
                        None
                    } else {
                        Some(kept.drop_last())
                    }
                } else {
                    Some(kept.push(piece))
                }
            },
        }
    }
}

/// The canonical text of hierarchical logical path text: its normalized
/// pieces joined by `/`, after a leading `/` where the text is absolute.
pub open spec fn parsed_path_text(text: Seq<char>) -> Seq<char> {
    let kept = normalized_pieces(slash_pieces(text))->Some_0;
    if text.len() > 0 && text[0] == '/' {
        seq!['/'] + joined(kept)
    } else {
        joined(kept)
    }
}

/// Whether the logical path parser accepts `text`: it is not empty, holds
/// no NUL, does not climb above its root, and has non-empty canonical text.
pub open spec fn logical_path_accepts(text: Seq<char>) -> bool {
    &&& text.len() > 0
    &&& !text.contains('\0')
    &&& normalized_pieces(slash_pieces(text)) is Some
    &&& parsed_path_text(text).len() > 0
}

/// The logical path the parser builds from accepted `text`.
pub uninterp spec fn parsed_logical_path(text: Seq<char>) -> Path;

/// Whether the URI parser accepts `text`.
pub uninterp spec fn uri_accepts(text: Seq<char>) -> bool;

/// The URI the parser builds from accepted `text`.
pub uninterp spec fn parsed_uri(text: Seq<char>) -> Uri;

/// Parses hierarchical logical path text with `qubit_fs::Path::parse`.
///
/// The parser is a pure function of the text. It refuses empty text, text
/// holding NUL, text whose `..` pieces climb above the root, and relative
/// text with no piece left after normalization; otherwise the path it builds
/// is named.
#[verifier::external_body]
pub(crate) fn parse_logical_path(text: &str) -> (r: Result<Path, FsError>)
    ensures
        r is Ok <==> logical_path_accepts(text@),
        r matches Ok(p) ==> p == parsed_logical_path(text@),
{
    Path::parse(text)
}

/// Parses URI text with `qubit_fs::path::Uri::parse`.
///
/// The parser is a pure function of the text; which spellings it accepts is
/// named rather than stated. It keeps the components as they are spelled:
/// of `file://` followed by URI path text that starts with `/`, the scheme
/// is `file`, the authority is present and empty, there is no query, and
/// the path is that text.
#[verifier::external_body]
fn parse_uri(text: &str) -> (r: Result<Uri, FsError>)
    ensures
        r is Ok <==> uri_accepts(text@),
        r matches Ok(u) ==> u == parsed_uri(text@),
        r matches Ok(u) ==> forall|p: Seq<u8>|
            #[trigger] is_file_uri_with_path(encode_utf8(text@), p) ==> is_local_file_uri(u, p),
{
    Uri::parse(text)
}

/// Reads the canonical text of a logical path with `qubit_fs::Path::as_str`.
///
/// The text is a function of the path alone: of a path that the parser
/// built from accepted text, it is that text's canonical form; the parser
/// accepts the canonical form again and builds the same path from it. Of a path built otherwise nothing is
/// stated.
#[verifier::external_body]
pub(crate) fn path_text(path: &Path) -> (r: &str)
    ensures
        forall|t: Seq<char>|
            #[trigger] parsed_logical_path(t) == *path && logical_path_accepts(t) ==> {
                &&& r@ == parsed_path_text(t)
                &&& logical_path_accepts(r@)
                &&& parsed_logical_path(r@) == *path
            },
{
    path.as_str()
}

/// Whether `bytes` spell `file://` followed by the URI path text `p`, which
/// starts with `/`.
pub open spec fn is_file_uri_with_path(bytes: Seq<u8>, p: Seq<u8>) -> bool {
    &&& bytes == file_uri_prefix() + p
    &&& p.len() > 0
    &&& p[0] == SLASH
    &&& is_uri_path_bytes(p)
}

/// Whether `uri` has the `file` scheme, an empty authority, no query, and
/// the path `p`.
pub open spec fn is_local_file_uri(uri: Uri, p: Seq<u8>) -> bool {
    &&& encode_utf8(uri_scheme_of(uri)) == file_scheme_bytes()
    &&& uri_authority_of(uri) == Some(Seq::<char>::empty())
    &&& uri_query_of(uri) is None
    &&& encode_utf8(uri_path_of(uri)) == p
}

/// The normalized scheme of a URI.
pub uninterp spec fn uri_scheme_of(uri: Uri) -> Seq<char>;

/// The authority of a URI, when it has one.
pub uninterp spec fn uri_authority_of(uri: Uri) -> Option<Seq<char>>;

/// The query of a URI, when it has one.
pub uninterp spec fn uri_query_of(uri: Uri) -> Option<Seq<char>>;

/// The raw path of a URI.
pub uninterp spec fn uri_path_of(uri: Uri) -> Seq<char>;

/// Reads the normalized scheme of a URI with `qubit_fs::path::Uri::scheme`;
/// the scheme is a function of the URI alone.
#[verifier::external_body]
fn uri_scheme(uri: &Uri) -> (r: String)
    ensures
        r@ == uri_scheme_of(*uri),
{
    uri.scheme().to_owned()
}

/// Reads the authority of a URI with `qubit_fs::path::Uri::authority`; the
/// authority is a function of the URI alone.
#[verifier::external_body]
fn uri_authority(uri: &Uri) -> (r: Option<String>)
    ensures
        optional_text(r) == uri_authority_of(*uri),
{
    uri.authority().map(str::to_owned)
}

/// Reads the query of a URI with `qubit_fs::path::Uri::query`; the query is
/// a function of the URI alone.
#[verifier::external_body]
fn uri_query(uri: &Uri) -> (r: Option<String>)
    ensures
        optional_text(r) == uri_query_of(*uri),
{
    uri.query().map(str::to_owned)
}

/// Reads the raw path of a URI with `qubit_fs::path::Uri::path`; the path is
/// a function of the URI alone.
#[verifier::external_body]
fn uri_path(uri: &Uri) -> (r: String)
    ensures
        r@ == uri_path_of(*uri),
{
    uri.path().to_owned()
}

/// Reads the components of a URI.
pub fn uri_parts(uri: &Uri) -> (r: UriParts)
    ensures
        r.scheme@ == uri_scheme_of(*uri),
        optional_text(r.authority) == uri_authority_of(*uri),
        optional_text(r.query) == uri_query_of(*uri),
        r.path@ == uri_path_of(*uri),
{
    UriParts { scheme: uri_scheme(uri), authority: uri_authority(uri), query: uri_query(uri), path: uri_path(uri) }
}

/// Provider-level failure category of a refused configuration.
#[derive(Clone, Copy, Debug, PartialEq, Eq, Structural)]
pub enum ProviderFailureKind {
    /// The configuration cannot be served by this provider.
    InvalidConfiguration,
    /// The configuration was accepted but the filesystem could not be built.
    InitializationFailed,
}

/// A refused provider request: its category and the filesystem failure.
#[derive(Clone, Copy, Debug, PartialEq, Eq)]
pub struct ProviderFailureInfo {
    /// Provider-level category.
    pub kind: ProviderFailureKind,
    /// Filesystem-level failure.
    pub error: LocalError,
}

/// Builds an invalid-configuration failure carrying an `InvalidOptions`
/// filesystem error.
pub fn invalid_options(message: &'static str) -> (r: ProviderFailureInfo)
    ensures
        r.kind == ProviderFailureKind::InvalidConfiguration,
        r.error.kind == LocalErrorKind::InvalidOptions,
        r.error.operation == LocalOperation::Provider,
        r.error.message@ == message@,
        r.error.effect is None,
{
    ProviderFailureInfo {
        kind: ProviderFailureKind::InvalidConfiguration,
        error: LocalError::new(LocalErrorKind::InvalidOptions, LocalOperation::Provider, message),
    }
}

/// Builds an invalid-configuration failure carrying an `InvalidPath`
/// filesystem error.
pub fn invalid_path(message: &'static str) -> (r: ProviderFailureInfo)
    ensures
        r.kind == ProviderFailureKind::InvalidConfiguration,
        r.error.kind == LocalErrorKind::InvalidPath,
        r.error.operation == LocalOperation::Provider,
        r.error.message@ == message@,
        r.error.effect is None,
{
    ProviderFailureInfo {
        kind: ProviderFailureKind::InvalidConfiguration,
        error: LocalError::new(LocalErrorKind::InvalidPath, LocalOperation::Provider, message),
    }
}

/// Whether a failure is the invalid-path configuration failure that every
/// refused URI path produces.
pub open spec fn is_invalid_path_failure(f: ProviderFailureInfo) -> bool {
    &&& f.kind == ProviderFailureKind::InvalidConfiguration
    &&& f.error.kind == LocalErrorKind::InvalidPath
    &&& f.error.operation == LocalOperation::Provider
    &&& f.error.effect is None
}

/// Translates a URI path refusal into the provider failure reported for it.
pub fn uri_path_failure(error: UriPathError) -> (r: ProviderFailureInfo)
    ensures
        is_invalid_path_failure(r),
{
    match error {
        UriPathError::InvalidEncodedComponent => invalid_path(
            "local file URI path contains an invalid encoded component",
        ),
        UriPathError::EncodedSeparator => invalid_path(
            "local file URI path must not encode a path separator",
        ),
        UriPathError::InvalidPath => invalid_path("local file URI path is invalid"),
        UriPathError::NotCanonicalizable => invalid_path(
            "local file URI path cannot be canonicalized",
        ),
    }
}

/// Decodes a raw URI path into a canonical local logical path.
///
/// URI percent escapes represent native path bytes, whereas local logical
/// path components use canonical escaped-byte text. Decoding each URI
/// component independently prevents an encoded separator from changing the
/// path structure. Fails with an invalid-path configuration failure for
/// malformed escapes, NUL bytes, encoded separators, or canonical text that
/// the logical path parser rejects.
pub fn decode(raw: &str) -> (r: Result<Path, ProviderFailureInfo>)
    ensures
        r is Ok <==> (decode_text(encode_utf8(raw@)) matches Ok(t) && logical_path_accepts(
            decode_utf8(t),
        )),
        r matches Ok(p) ==> p == parsed_logical_path(decode_utf8(decode_text(encode_utf8(raw@))->Ok_0)),
        r matches Err(f) ==> is_invalid_path_failure(f),
{
    let text = match decode_canonical_text(raw) {
        Ok(text) => text,
        Err(error) => return Err(uri_path_failure(error)),
    };
    proof {
        broadcast use encode_utf8_decode_utf8;
    }
    match parse_logical_path(text.as_str()) {
        Ok(path) => Ok(path),
        Err(_) => Err(uri_path_failure(UriPathError::InvalidPath)),
    }
}

/// Whether bytes start with `/`.
pub open spec fn starts_with_slash_byte(bytes: Seq<u8>) -> bool {
    bytes.len() > 0 && bytes[0] == SLASH
}

/// The text of the canonical `file:` URI of canonical path text.
pub open spec fn canonical_uri_spelling(path_text: Seq<char>) -> Seq<char> {
    decode_utf8(file_uri_prefix() + uri_encode(encode_utf8(path_text)))
}

/// Parses the canonical `file:` URI of canonical logical path text.
///
/// Fails with an invalid-path configuration failure when the URI parser
/// rejects the spelling.
pub fn canonical_uri_of_text(path_text: &str) -> (r: Result<Uri, ProviderFailureInfo>)
    ensures
        r is Ok <==> uri_accepts(canonical_uri_spelling(path_text@)),
        r matches Ok(u) ==> u == parsed_uri(canonical_uri_spelling(path_text@)),
        starts_with_slash_byte(encode_utf8(path_text@)) ==> (r matches Ok(u) ==> is_local_file_uri(
            u,
            uri_encode(encode_utf8(path_text@)),
        )),
        r matches Err(f) ==> is_invalid_path_failure(f),
{
    let text = canonical_uri_text(path_text);
    proof {
        broadcast use encode_utf8_decode_utf8;
        assert(text@ == decode_utf8(encode_utf8(text@)));
        let p = uri_encode(encode_utf8(path_text@));
        lemma_uri_encode_is_uri_path(encode_utf8(path_text@));
        if starts_with_slash_byte(encode_utf8(path_text@)) {
            assert(is_file_uri_with_path(encode_utf8(text@), p));
        }
    }
    match parse_uri(text.as_str()) {
        Ok(uri) => Ok(uri),
        Err(_) => Err(uri_path_failure(UriPathError::NotCanonicalizable)),
    }
}

/// Re-encodes a canonical logical path as the unique absolute `file:` URI
/// spelling used by registry resolutions.
///
/// Fails with an invalid-path configuration failure when the URI parser
/// rejects the spelling.
pub fn canonical_uri(path: &Path) -> (r: Result<Uri, ProviderFailureInfo>)
    ensures
        r matches Err(f) ==> is_invalid_path_failure(f),
        forall|t: Seq<char>|
            #[trigger] parsed_logical_path(t) == *path && logical_path_accepts(t) ==> {
                &&& (r is Ok <==> uri_accepts(canonical_uri_spelling(parsed_path_text(t))))
                &&& (r matches Ok(u) ==> u == parsed_uri(canonical_uri_spelling(parsed_path_text(t))))
                &&& (is_canonical_text(parsed_path_text(t)) ==> decodes_to_path(
                    uri_encode(encode_utf8(parsed_path_text(t))),
                    *path,
                ))
                &&& (starts_with_slash(t) && is_canonical_text(parsed_path_text(t)) ==> (r matches Ok(u)
                    ==> resolves_to(u, *path)))
            },
{
    let text = path_text(path);
    let r = canonical_uri_of_text(text);
    proof {
        assert forall|t: Seq<char>|
            #[trigger] parsed_logical_path(t) == *path && logical_path_accepts(t) implies {
                &&& (r is Ok <==> uri_accepts(canonical_uri_spelling(parsed_path_text(t))))
                &&& (r matches Ok(u) ==> u == parsed_uri(canonical_uri_spelling(parsed_path_text(t))))
                &&& (is_canonical_text(parsed_path_text(t)) ==> decodes_to_path(
                    uri_encode(encode_utf8(parsed_path_text(t))),
                    *path,
                ))
                &&& (starts_with_slash(t) && is_canonical_text(parsed_path_text(t)) ==> (r matches Ok(u)
                    ==> resolves_to(u, *path)))
            } by {
            assert(text@ == parsed_path_text(t));
            if is_canonical_text(text@) {
                lemma_decode_canonical_uri_round_trip(encode_utf8(text@));
                broadcast use encode_utf8_decode_utf8;
                if starts_with_slash(t) {
                    assert(text@[0] == '/');
                    lemma_slash_first_byte(text@);
                    if r is Ok {
                        let u = r->Ok_0;
                        assert(is_local_file_uri(u, uri_encode(encode_utf8(text@))));
                        assert(encode_utf8(uri_path_of(u)) == uri_encode(encode_utf8(text@)));
                    }
                }
            }
        }
    }
    r
}

/// Whether a configuration with no options, metadata or credential whose
/// URI is `uri` resolves to `path`: [`decode_config`] accepts it and gives
/// `path` back with the URI.
pub open spec fn resolves_to(uri: Uri, path: Path) -> bool {
    &&& uri_refusal(ConfigShape { has_options: false, has_metadata: false, has_credential: false }, uri) is None
    &&& uri_path_accepted(uri_path_of(uri))
    &&& decoded_path(uri_path_of(uri)) == path
}

/// Text that starts with `/` encodes to bytes that start with `/`.
proof fn lemma_slash_first_byte(text: Seq<char>)
    requires
        text.len() > 0,
        text[0] == '/',
    ensures
        starts_with_slash_byte(encode_utf8(text)),
{
    let c: u32 = text[0] as u32;
    assert(c == 0x2f);
    assert((c & 0x7f) as u8 == 0x2fu8) by (bit_vector)
        requires
            c == 0x2f,
    ;
    assert(encode_scalar(c) == seq![0x2fu8]);
}

/// Whether logical path text is already in canonical escaped-byte form:
/// decoding it as a raw URI path gives it back unchanged.
pub open spec fn is_canonical_text(text: Seq<char>) -> bool {
    decode_text(encode_utf8(text)) == Ok::<Seq<u8>, UriPathError>(encode_utf8(text))
}

/// Whether [`decode`] of the raw URI path `raw` returns `path`.
pub open spec fn decodes_to_path(raw: Seq<u8>, path: Path) -> bool {
    &&& decode_text(raw) matches Ok(t)
    &&& logical_path_accepts(decode_utf8(t))
    &&& parsed_logical_path(decode_utf8(t)) == path
}

/// The configuration fields that a `file:` provider must find empty.
#[derive(Clone, Copy, Debug, PartialEq, Eq)]
pub struct ConfigShape {
    /// Whether provider options were supplied.
    pub has_options: bool,
    /// Whether metadata was supplied.
    pub has_metadata: bool,
    /// Whether a credential reference was supplied.
    pub has_credential: bool,
}

/// The components of a parsed configuration URI.
pub struct UriParts {
    /// Normalized scheme.
    pub scheme: String,
    /// Authority, when present.
    pub authority: Option<String>,
    /// Query, when present.
    pub query: Option<String>,
    /// Raw path text, including slash separators.
    pub path: String,
}

/// The texts of an optional string.
pub open spec fn optional_text(o: Option<String>) -> Option<Seq<char>> {
    match o {
        Some(s) => Some(s@),
        None => None,
    }
}

/// The bytes of the `file` scheme name.
pub open spec fn file_scheme_bytes() -> Seq<u8> {
    seq![0x66u8, 0x69u8, 0x6cu8, 0x65u8]
}

/// The message with which a configuration of this shape and URI is refused
/// before its path is decoded, if it is: unsupported options, metadata or
/// credentials first, then a scheme other than `file`, a non-empty
/// authority, and a query.
pub open spec fn config_refusal(shape: ConfigShape, scheme: Seq<char>, authority: Option<Seq<char>>, query: Option<Seq<char>>) -> Option<Seq<char>> {
    if shape.has_options || shape.has_metadata || shape.has_credential {
        Some("local filesystem provider does not support provider options, metadata, or credentials"@)
    } else if encode_utf8(scheme) != file_scheme_bytes() {
        Some("local filesystem provider requires the file URI scheme"@)
    } else if authority matches Some(a) && a.len() > 0 {
        Some("local filesystem provider does not support remote URI authorities"@)
    } else if query is Some {
        Some("local filesystem provider does not support URI queries"@)
    } else {
        None
    }
}

/// Whether `text` is the `file` scheme name.
fn is_file_scheme(text: &str) -> (r: bool)
    ensures
        r == (encode_utf8(text@) == file_scheme_bytes()),
{
    let bytes = text.as_bytes();
    let r = bytes.len() == 4 && bytes[0] == 0x66 && bytes[1] == 0x69 && bytes[2] == 0x6c && bytes[3]
        == 0x65;
    proof {
        if r {
            assert(bytes@ =~= file_scheme_bytes());
        }
    }
    r
}

/// Validates the configuration shape and URI components, in the order in
/// which the provider reports problems.
pub fn check_config_parts(shape: ConfigShape, parts: &UriParts) -> (r: Result<(), ProviderFailureInfo>)
    ensures
        r is Ok <==> config_refusal(
            shape,
            parts.scheme@,
            match parts.authority {
                Some(a) => Some(a@),
                None => None,
            },
            match parts.query {
                Some(q) => Some(q@),
                None => None,
            },
        ) is None,
        r matches Err(f) ==> f.kind == ProviderFailureKind::InvalidConfiguration && f.error.kind
            == LocalErrorKind::InvalidOptions && f.error.operation == LocalOperation::Provider
            && f.error.effect is None && Some(f.error.message@) == config_refusal(
            shape,
            parts.scheme@,
            match parts.authority {
                Some(a) => Some(a@),
                None => None,
            },
            match parts.query {
                Some(q) => Some(q@),
                None => None,
            },
        ),
{
    if shape.has_options || shape.has_metadata || shape.has_credential {
        return Err(
            invalid_options(
                "local filesystem provider does not support provider options, metadata, or credentials",
            ),
        );
    }
    if !is_file_scheme(parts.scheme.as_str()) {
        return Err(invalid_options("local filesystem provider requires the file URI scheme"));
    }
    match &parts.authority {
        Some(authority) => {
            if !authority.as_str().is_empty() {
                return Err(
                    invalid_options(
                        "local filesystem provider does not support remote URI authorities",
                    ),
                );
            }
        },
        None => {},
    }
    if parts.query.is_some() {
        return Err(invalid_options("local filesystem provider does not support URI queries"));
    }
    Ok(())
}

/// Whether canonical path text is absolute.
pub open spec fn is_absolute_text(text: Seq<char>) -> bool {
    encode_utf8(text).len() > 0 && encode_utf8(text)[0] == SLASH
}

/// Why a configuration is refused by this provider.
pub enum ConfigFailure {
    /// The configuration URI itself could not be converted to a URI.
    InvalidUri(FsError),
    /// The configuration was refused by this provider.
    Refused(ProviderFailureInfo),
}

/// Whether the configuration carries options, metadata, or a credential.
pub open spec fn shape_refused(shape: ConfigShape) -> bool {
    shape.has_options || shape.has_metadata || shape.has_credential
}

/// Whether `f` refuses a configuration as unsupported, with `message`.
pub open spec fn is_invalid_options_failure(f: ProviderFailureInfo, message: Seq<char>) -> bool {
    &&& f.kind == ProviderFailureKind::InvalidConfiguration
    &&& f.error.kind == LocalErrorKind::InvalidOptions
    &&& f.error.operation == LocalOperation::Provider
    &&& f.error.effect is None
    &&& f.error.message@ == message
}

/// The refusal message of a configuration URI's components, if any.
pub open spec fn uri_refusal(shape: ConfigShape, uri: Uri) -> Option<Seq<char>> {
    config_refusal(shape, uri_scheme_of(uri), uri_authority_of(uri), uri_query_of(uri))
}

/// The logical path that [`decode`] returns for an accepted raw URI path.
pub open spec fn decoded_path(raw: Seq<char>) -> Path {
    parsed_logical_path(decode_utf8(decode_text(encode_utf8(raw))->Ok_0))
}

/// Validates and decodes a registry configuration into a logical path and
/// URI.
///
/// The configuration is refused when it carries options, metadata, or a
/// credential, when its URI cannot be converted, uses a non-`file` scheme, a
/// remote authority, or a query, or when its path is malformed or not
/// absolute; the checks run in that order and the first that fails is
/// reported. Otherwise the result is the decoded path and the URI itself.
pub fn decode_config(shape: ConfigShape, uri: Result<Uri, FsError>) -> (r: Result<(Path, Uri), ConfigFailure>)
    ensures
        shape_refused(shape) ==> (r matches Err(ConfigFailure::Refused(f)) && is_invalid_options_failure(
            f,
            "local filesystem provider does not support provider options, metadata, or credentials"@,
        )),
        !shape_refused(shape) ==> match uri {
            Err(e) => r == Err::<(Path, Uri), ConfigFailure>(ConfigFailure::InvalidUri(e)),
            Ok(u) => match uri_refusal(shape, u) {
                Some(m) => (r matches Err(ConfigFailure::Refused(f)) && is_invalid_options_failure(f, m)),
                None => if uri_path_accepted(uri_path_of(u)) {
                    r == Ok::<(Path, Uri), ConfigFailure>((decoded_path(uri_path_of(u)), u))
                } else {
                    (r matches Err(ConfigFailure::Refused(f)) && is_invalid_path_failure(f))
                },
            },
        },
{
    if shape.has_options || shape.has_metadata || shape.has_credential {
        return Err(
            ConfigFailure::Refused(
                invalid_options(
                    "local filesystem provider does not support provider options, metadata, or credentials",
                ),
            ),
        );
    }
    let uri = match uri {
        Ok(uri) => uri,
        Err(error) => return Err(ConfigFailure::InvalidUri(error)),
    };
    let parts = uri_parts(&uri);
    if let Err(failure) = check_config_parts(shape, &parts) {
        return Err(ConfigFailure::Refused(failure));
    }
    let path = match decode_uri_path(parts.path.as_str()) {
        Ok(path) => path,
        Err(failure) => return Err(ConfigFailure::Refused(failure)),
    };
    Ok((path, uri))
}

/// Whether the raw path of a configuration URI decodes to absolute logical
/// path text that the parser accepts.
pub open spec fn uri_path_accepted(raw: Seq<char>) -> bool {
    &&& decode_text(encode_utf8(raw)) matches Ok(t)
    &&& logical_path_accepts(decode_utf8(t))
    &&& t.len() > 0
    &&& t[0] == SLASH
}

/// Decodes the path of an accepted configuration and requires it to be
/// absolute.
pub fn decode_uri_path(raw: &str) -> (r: Result<Path, ProviderFailureInfo>)
    ensures
        r is Ok <==> uri_path_accepted(raw@),
        r matches Ok(p) ==> p == parsed_logical_path(decode_utf8(decode_text(encode_utf8(raw@))->Ok_0)),
        r matches Err(f) ==> is_invalid_path_failure(f),
{
    let path = decode(raw)?;
    let bytes = raw.as_bytes();
    // The decoded text starts with `/` exactly when the raw path does: the
    // first component of an absolute raw path is empty.
    let absolute = bytes.len() > 0 && bytes[0] == SLASH;
    proof {
        lemma_decoded_text_starts_with_slash(encode_utf8(raw@));
    }
    if !absolute {
        return Err(invalid_path("local file URI path must be absolute"));
    }
    Ok(path)
}

/// Decoded text starts with `/` exactly when the raw path does.
pub proof fn lemma_decoded_text_starts_with_slash(raw: Seq<u8>)
    requires
        decode_text(raw) is Ok,
    ensures
        (decode_text(raw)->Ok_0.len() > 0 && decode_text(raw)->Ok_0[0] == SLASH) <==> (raw.len() > 0
            && raw[0] == SLASH),
{
    let k = slash_index(raw);
    if raw.len() > 0 && raw[0] == SLASH {
        assert(k == 0);
        let c = canonical_component(raw.subrange(0, 0))->Ok_0;
        assert(raw.subrange(0, 0) =~= Seq::<u8>::empty());
        assert(c =~= Seq::<u8>::empty());
    } else if raw.len() > 0 {
        assert(k >= 1);
        let component = raw.subrange(0, k as int);
        let decoded = component_bytes(component)->Ok_0;
        assert(component[0] == raw[0]);
        lemma_percent_decode_nonempty(component);
        lemma_canonicalize_nonempty(decoded);
        let c = canonical_component(component)->Ok_0;
        assert(c[0] != SLASH) by {
            if c[0] == SLASH {
                assert(c.contains(SLASH));
            }
        }
    }
}

/// Decoding a non-empty component yields at least one byte.
proof fn lemma_percent_decode_nonempty(s: Seq<u8>)
    requires
        s.len() > 0,
        percent_decode(s) is Some,
    ensures
        percent_decode(s)->Some_0.len() > 0,
{
}

/// Canonical text of non-empty bytes is non-empty.
proof fn lemma_canonicalize_nonempty(bytes: Seq<u8>)
    requires
        bytes.len() > 0,
    ensures
        canonicalize(bytes).len() > 0,
{
    if valid_first_scalar(bytes) {
        let n = length_of_first_scalar(bytes);
        let head = bytes.subrange(0, n);
        if scalar_needs_escape(decode_first_scalar(bytes)) {
            assert(head.len() > 0);
            assert(escape_bytes(head).len() >= 3);
        }
    }
}

} // verus!
