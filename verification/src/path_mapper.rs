//! Conversion between logical paths and native paths of one authority.
//!
//! Logical paths are absolute, `/`-separated canonical text. The native
//! codec of the local-files engine turns their components into native paths
//! of the host namespace or of a rooted authority, and native paths back
//! into canonical components; the codec performs no I/O.

use std::path::PathBuf;

use qubit_fs::path::Path;
use qubit_fs::FsError;
use qubit_local_files::path::LocalPaths;
use qubit_local_files::LocalFileError;

use vstd::prelude::*;

use crate::error::LocalError;
use crate::error::LocalErrorKind;
use crate::error::LocalOperation;
use crate::options_plan::AuthorityScope;
use crate::registry::logical_path_accepts;
use crate::registry::parsed_logical_path;
use crate::registry::parsed_path_text;
use crate::registry::parse_logical_path;

verus! {

/// Declares the standard owned native path type; it is carried through
/// verified code without being inspected.
#[verifier::external_type_specification]
#[verifier::external_body]
pub struct ExPathBuf(PathBuf);

/// Declares the native engine's error type; it is carried through verified
/// code without being inspected.
#[verifier::external_type_specification]
#[verifier::external_body]
pub struct ExLocalFileError(LocalFileError);

/// Whether a logical path is absolute, with `qubit_fs::Path::is_absolute`.
///
/// Of a path that the parser built from accepted text, the answer is
/// whether that text starts with `/`. Of a path built otherwise nothing is
/// stated.
#[verifier::external_body]
fn path_is_absolute(path: &Path) -> (r: bool)
    ensures
        forall|t: Seq<char>|
            #[trigger] parsed_logical_path(t) == *path && logical_path_accepts(t) ==> (r <==> starts_with_slash(t)),
{
    path.is_absolute()
}

/// The native path into which the native codec decodes the components of
/// canonical logical path text, in the host namespace (`host`) or in a
/// rooted authority; `None` where the codec refuses them.
pub uninterp spec fn native_path_of(host: bool, path_text: Seq<char>) -> Option<PathBuf>;

/// Decodes the canonical components of a logical path into a native path of
/// the authority, with `qubit_local_files::path::LocalPaths::from_canonical_components`.
///
/// The codec performs no I/O and reads nothing but the components and the
/// scope; its rules are those of the platform the library is built for. Of
/// a path that the parser built from accepted text, the outcome is named by
/// that text's canonical form: which component texts the codec accepts, and
/// the native path it builds, are not stated. Of a path built otherwise
/// nothing is stated.
#[verifier::external_body]
fn native_from_components(scope: AuthorityScope, path: &Path) -> (r: Result<PathBuf, LocalFileError>)
    ensures
        forall|t: Seq<char>|
            #[trigger] parsed_logical_path(t) == *path && logical_path_accepts(t) ==> {
                &&& (r is Ok <==> native_path_of(scope is Host, parsed_path_text(t)) is Some)
                &&& (r matches Ok(n) ==> native_path_of(scope is Host, parsed_path_text(t)) == Some(n))
            },
{
    let paths = match scope {
        AuthorityScope::Host => LocalPaths::host(),
        AuthorityScope::Rooted => LocalPaths::rooted(),
    };
    paths.from_canonical_components(path.components())
}

/// The canonical component texts into which the native codec encodes a
/// native path, in the host namespace (`host`) or in a rooted authority;
/// `None` where the codec refuses the path.
pub uninterp spec fn native_components_of(host: bool, path: PathBuf) -> Option<Seq<Seq<char>>>;

/// Encodes a native path of the authority as canonical components, with
/// `qubit_local_files::path::LocalPaths::to_canonical_components`.
///
/// The codec performs no I/O and reads nothing but the native path and the
/// scope; its rules are those of the platform the library is built for.
/// Which native paths it accepts, and the components it returns, are named.
#[verifier::external_body]
fn components_from_native(scope: AuthorityScope, path: &PathBuf) -> (r: Result<Vec<String>, LocalFileError>)
    ensures
        r is Ok <==> native_components_of(scope is Host, *path) is Some,
        r matches Ok(cs) ==> native_components_of(scope is Host, *path) == Some(component_texts(cs@)),
{
    let paths = match scope {
        AuthorityScope::Host => LocalPaths::host(),
        AuthorityScope::Rooted => LocalPaths::rooted(),
    };
    paths.to_canonical_components(path)
}

/// Whether text starts with `/`.
pub open spec fn starts_with_slash(text: Seq<char>) -> bool {
    text.len() > 0 && text[0] == '/'
}

/// The components joined by `/`.
pub open spec fn joined(components: Seq<Seq<char>>) -> Seq<char>
    decreases components.len(),
{
    if components.len() == 0 {
        seq![]
    } else if components.len() == 1 {
        components[0]
    } else {
        joined(components.drop_last()) + seq!['/'] + components.last()
    }
}

/// The absolute logical path text of canonical components.
pub open spec fn absolute_text(components: Seq<Seq<char>>) -> Seq<char> {
    seq!['/'] + joined(components)
}

/// The texts of a list of components.
pub open spec fn component_texts(components: Seq<String>) -> Seq<Seq<char>> {
    components.map_values(|c: String| c@)
}

/// Builds the logical path of canonical components.
pub fn logical_components(components: &Vec<String>) -> (r: Result<Path, FsError>)
    ensures
        r is Ok <==> logical_path_accepts(absolute_text(component_texts(components@))),
        r matches Ok(p) ==> p == parsed_logical_path(absolute_text(component_texts(components@))),
{
    let ghost cs = component_texts(components@);
    let mut text = String::from_str("/");
    proof {
        reveal_strlit("/");
        assert(cs.subrange(0, 0) =~= Seq::<Seq<char>>::empty());
    }
    let mut i: usize = 0;
    while i < components.len()
        invariant
            i <= components.len(),
            cs == component_texts(components@),
            cs.len() == components.len(),
            text@ == seq!['/'] + joined(cs.subrange(0, i as int)),
        decreases components.len() - i,
    {
        let ghost before = cs.subrange(0, i as int);
        if i > 0 {
            text.append("/");
            proof {
                reveal_strlit("/");
            }
        }
        text.append(components[i].as_str());
        proof {
            let after = cs.subrange(0, i + 1);
            assert(after.drop_last() =~= before);
            assert(after.last() == components@[i as int]@);
            if i == 0 {
                assert(after.len() == 1);
            }
            assert(text@ =~= seq!['/'] + joined(after));
        }
        i = i + 1;
    }
    proof {
        assert(cs.subrange(0, cs.len() as int) =~= cs);
    }
    parse_logical_path(text.as_str())
}

/// The failure for a logical path that is not absolute.
pub open spec fn is_relative_path_failure(e: LocalError) -> bool {
    &&& e.kind == LocalErrorKind::InvalidPath
    &&& e.operation == LocalOperation::ParsePath
    &&& e.message@ == "local filesystem paths must be absolute"@
    &&& e.effect is None
}

/// The failure for a path the native codec refuses.
pub open spec fn is_codec_failure(operation: LocalOperation, e: LocalError) -> bool {
    &&& e.kind == LocalErrorKind::InvalidPath
    &&& e.operation == operation
    &&& e.message@ == "local native path conversion failed"@
    &&& e.effect is None
}

/// Requires a logical path to be absolute.
pub fn require_absolute(path: &Path) -> (r: Result<(), LocalError>)
    ensures
        r matches Err(e) ==> is_relative_path_failure(e),
        forall|t: Seq<char>|
            #[trigger] parsed_logical_path(t) == *path && logical_path_accepts(t) ==> (r is Ok <==> starts_with_slash(t)),
{
    if path_is_absolute(path) {
        Ok(())
    } else {
        Err(
            LocalError::new(
                LocalErrorKind::InvalidPath,
                LocalOperation::ParsePath,
                "local filesystem paths must be absolute",
            ),
        )
    }
}

/// Maps an absolute logical path to a native path of the authority.
///
/// A relative path is refused before the codec is consulted; a path the
/// codec refuses is reported as an invalid path.
pub fn native(scope: AuthorityScope, path: &Path) -> (r: Result<PathBuf, LocalError>)
    ensures
        r matches Err(e) ==> is_relative_path_failure(e) || is_codec_failure(LocalOperation::ParsePath, e),
        forall|t: Seq<char>|
            #[trigger] parsed_logical_path(t) == *path && logical_path_accepts(t) ==> (if starts_with_slash(t) {
                &&& (r is Ok <==> native_path_of(scope is Host, parsed_path_text(t)) is Some)
                &&& (r matches Ok(n) ==> native_path_of(scope is Host, parsed_path_text(t)) == Some(n))
                &&& (r matches Err(e) ==> is_codec_failure(LocalOperation::ParsePath, e))
            } else {
                r matches Err(e) && is_relative_path_failure(e)
            }),
{
    require_absolute(path)?;
    match native_from_components(scope, path) {
        Ok(native) => Ok(native),
        Err(_) => Err(
            LocalError::new(
                LocalErrorKind::InvalidPath,
                LocalOperation::ParsePath,
                "local native path conversion failed",
            ),
        ),
    }
}

/// Why a native path has no logical name.
pub enum LogicalPathFailure {
    /// The native codec refused the path.
    Codec(LocalError),
    /// The canonical text is not a logical path.
    Parse(FsError),
}

/// What mapping a native path to its logical path gives, where the codec
/// encodes it as `components` (`None`: the codec refuses it): the codec
/// failure, or the logical path of the components' absolute text, or the
/// parser's refusal of that text.
pub open spec fn logical_outcome(
    components: Option<Seq<Seq<char>>>,
    operation: LocalOperation,
    r: Result<Path, LogicalPathFailure>,
) -> bool {
    match components {
        None => (r matches Err(LogicalPathFailure::Codec(e)) && is_codec_failure(operation, e)),
        Some(cs) => if logical_path_accepts(absolute_text(cs)) {
            r == Ok::<Path, LogicalPathFailure>(parsed_logical_path(absolute_text(cs)))
        } else {
            r matches Err(LogicalPathFailure::Parse(_))
        },
    }
}

/// Maps a native path of the authority to its logical path.
pub fn logical(scope: AuthorityScope, path: &PathBuf, operation: LocalOperation) -> (r: Result<Path, LogicalPathFailure>)
    ensures
        logical_outcome(native_components_of(scope is Host, *path), operation, r),
{
    let components = match components_from_native(scope, path) {
        Ok(components) => components,
        Err(_) => {
            return Err(
                LogicalPathFailure::Codec(
                    LocalError::new(
                        LocalErrorKind::InvalidPath,
                        operation,
                        "local native path conversion failed",
                    ),
                ),
            );
        },
    };
    match logical_components(&components) {
        Ok(path) => Ok(path),
        Err(error) => Err(LogicalPathFailure::Parse(error)),
    }
}

/// Converts a native host path, such as the current directory, to the
/// logical path that names it in the host namespace.
pub fn host_path_to_logical(path: &PathBuf) -> (r: Result<Path, LogicalPathFailure>)
    ensures
        logical_outcome(native_components_of(true, *path), LocalOperation::ParsePath, r),
{
    logical(AuthorityScope::Host, path, LocalOperation::ParsePath)
}

} // verus!
