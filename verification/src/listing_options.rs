//! Facade listing semantics applied to entries yielded by native I/O.

use qubit_fs::path::Path;

use vstd::prelude::*;
use vstd::string::StrSliceExecFns;

use crate::error::LocalError;
use crate::error::LocalErrorKind;
use crate::error::LocalOperation;
use crate::native_error::map_without_path;
use crate::native_error::mapped_failure;
use crate::native_error::NativeFailure;
use crate::registry::logical_path_accepts;
use crate::registry::parsed_logical_path;
use crate::registry::parsed_path_text;
use crate::registry::path_text;

verus! {

/// Post-walk filter selecting which listed entries are reported.
pub enum ListingFilter {
    /// Select a path and its descendants using component boundaries.
    Subtree(String),
    /// Select entries whose relative path text starts with the raw prefix.
    LiteralPrefix(String),
}

/// Whether `prefix` is a prefix of `s`.
pub open spec fn is_prefix_of(prefix: Seq<char>, s: Seq<char>) -> bool {
    prefix.len() <= s.len() && s.subrange(0, prefix.len() as int) == prefix
}

/// The text of a canonical path relative to the listing root, without its
/// leading `/`; text that does not start with `/` has no relative part.
pub open spec fn relative_key(relative: Seq<char>) -> Seq<char> {
    if relative.len() > 0 && relative[0] == '/' {
        relative.drop_first()
    } else {
        seq![]
    }
}

/// Whether a relative key is selected by a filter.
pub open spec fn filter_selects(filter: Option<ListingFilter>, key: Seq<char>) -> bool {
    match filter {
        None => true,
        Some(ListingFilter::Subtree(prefix)) => key == prefix@ || (is_prefix_of(prefix@, key)
            && key.len() > prefix@.len() && key[prefix@.len() as int] == '/'),
        Some(ListingFilter::LiteralPrefix(prefix)) => is_prefix_of(prefix@, key),
    }
}

/// Resolved listing behavior retained for one directory stream.
pub struct ListingOptions {
    include_metadata: bool,
    filter: Option<ListingFilter>,
}

/// Whether `prefix` is a character prefix of `text` from position `start`.
fn has_prefix_at(text: &str, start: usize, prefix: &str) -> (r: bool)
    requires
        start <= text@.len(),
    ensures
        r == is_prefix_of(prefix@, text@.subrange(start as int, text@.len() as int)),
{
    let text_len = text.unicode_len();
    let prefix_len = prefix.unicode_len();
    if prefix_len > text_len - start {
        return false;
    }
    let mut i: usize = 0;
    while i < prefix_len
        invariant
            text_len == text@.len(),
            prefix_len == prefix@.len(),
            start + prefix_len <= text_len,
            0 <= i <= prefix_len,
            forall|m: int| 0 <= m < i ==> text@[start + m] == prefix@[m],
        decreases prefix_len - i,
    {
        if text.get_char(start + i) != prefix.get_char(i) {
            assert(text@.subrange(start as int, text@.len() as int)[i as int] == text@[start + i]);
            return false;
        }
        i = i + 1;
    }
    assert(text@.subrange(start as int, text@.len() as int).subrange(0, prefix_len as int) =~= prefix@);
    true
}

impl ListingOptions {
    /// Captures the facade options retained by one stream.
    pub fn new(include_metadata: bool, filter: Option<ListingFilter>) -> (r: Self)
        ensures
            r.include_metadata_spec() == include_metadata,
            r.filter_spec() == filter,
    {
        ListingOptions { include_metadata, filter }
    }

    /// Whether each entry exposes its observed metadata.
    pub closed spec fn include_metadata_spec(&self) -> bool {
        self.include_metadata
    }

    /// The retained post-walk filter.
    pub closed spec fn filter_spec(&self) -> Option<ListingFilter> {
        self.filter
    }

    /// Reports whether entry metadata should be included in stream output.
    pub fn include_metadata(&self) -> (r: bool)
        ensures
            r == self.include_metadata_spec(),
    {
        self.include_metadata
    }

    /// Tests canonical relative path text against the configured filter.
    ///
    /// A subtree filter selects the prefix itself and paths below it at a
    /// component boundary; a literal prefix matches raw key text, so it may
    /// end inside a component.
    pub fn matches_text(&self, relative: &str) -> (r: bool)
        ensures
            r == filter_selects(self.filter_spec(), relative_key(relative@)),
    {
        let len = relative.unicode_len();
        let starts_with_root = len > 0 && relative.get_char(0) == '/';
        match &self.filter {
            None => true,
            Some(ListingFilter::Subtree(prefix)) => {
                if !starts_with_root {
                    let r = prefix.as_str().unicode_len() == 0;
                    assert(r ==> Seq::<char>::empty() =~= prefix@);
                    return r;
                }
                let prefix_len = prefix.as_str().unicode_len();
                let ghost key = relative@.drop_first();
                assert(relative@.subrange(1, relative@.len() as int) =~= key);
                if !has_prefix_at(relative, 1, prefix.as_str()) {
                    proof {
                        if key == prefix@ {
                            assert(key.subrange(0, prefix@.len() as int) =~= key);
                        }
                    }
                    return false;
                }
                if len - 1 == prefix_len {
                    assert(key =~= prefix@) by {
                        assert(key.subrange(0, prefix@.len() as int) =~= key);
                    }
                    return true;
                }
                assert(key != prefix@);
                assert(key[prefix_len as int] == relative@[1 + prefix_len]);
                relative.get_char(1 + prefix_len) == '/'
            },
            Some(ListingFilter::LiteralPrefix(prefix)) => {
                if !starts_with_root {
                    let r = prefix.as_str().unicode_len() == 0;
                    assert(r ==> Seq::<char>::empty().subrange(0, 0) =~= prefix@);
                    return r;
                }
                assert(relative@.subrange(1, relative@.len() as int) =~= relative@.drop_first());
                has_prefix_at(relative, 1, prefix.as_str())
            },
        }
    }

    /// Tests a canonical relative logical path against the configured filter.
    pub fn matches(&self, relative: &Path) -> (r: bool)
        ensures
            forall|t: Seq<char>|
                #[trigger] parsed_logical_path(t) == *relative && logical_path_accepts(t) ==> r
                    == filter_selects(self.filter_spec(), relative_key(parsed_path_text(t))),
    {
        self.matches_text(path_text(relative))
    }
}

/// A subtree filter selects its prefix and every descendant of it, at any
/// depth, and nothing else: exactly the keys that equal the prefix or extend
/// it past a `/` boundary.
pub proof fn lemma_subtree_selects_the_whole_subtree(prefix: String, rest: Seq<char>, key: Seq<char>)
    ensures
        filter_selects(Some(ListingFilter::Subtree(prefix)), prefix@),
        filter_selects(Some(ListingFilter::Subtree(prefix)), prefix@ + seq!['/'] + rest),
        filter_selects(Some(ListingFilter::Subtree(prefix)), key) ==> key == prefix@ || is_prefix_of(
            prefix@ + seq!['/'],
            key,
        ),
{
    let k = prefix@ + seq!['/'] + rest;
    assert(k.subrange(0, prefix@.len() as int) =~= prefix@);
    assert(k[prefix@.len() as int] == '/');
    if filter_selects(Some(ListingFilter::Subtree(prefix)), key) && key != prefix@ {
        assert(key.subrange(0, prefix@.len() as int + 1) =~= prefix@ + seq!['/']) by {
            assert forall|i: int| 0 <= i < prefix@.len() + 1 implies key.subrange(0, prefix@.len() as int + 1)[i]
                == (prefix@ + seq!['/'])[i] by {
                if i < prefix@.len() {
                    assert(key.subrange(0, prefix@.len() as int)[i] == prefix@[i]);
                }
            }
        }
    }
}

/// A literal prefix filter selects exactly the keys whose text starts with
/// the prefix, wherever a component boundary falls; with no filter every
/// key is selected.
pub proof fn lemma_literal_prefix_selects_extensions(prefix: String, rest: Seq<char>, key: Seq<char>)
    ensures
        filter_selects(Some(ListingFilter::LiteralPrefix(prefix)), prefix@ + rest),
        filter_selects(Some(ListingFilter::LiteralPrefix(prefix)), key) ==> key.subrange(
            0,
            prefix@.len() as int,
        ) == prefix@,
        filter_selects(None, key),
{
    assert((prefix@ + rest).subrange(0, prefix@.len() as int) =~= prefix@);
}

/// A listed path is matched by its text below the listing root: the key of
/// `/` followed by `k` is `k`.
pub proof fn lemma_relative_key_drops_the_root(k: Seq<char>)
    ensures
        relative_key(seq!['/'] + k) == k,
{
    assert((seq!['/'] + k).drop_first() =~= k);
}

/// A subtree filter selects only keys that the literal prefix filter with
/// the same text also selects: component-boundary matching refines raw
/// prefix matching.
pub proof fn lemma_subtree_selection_refines_literal_prefix(prefix: String, key: Seq<char>)
    requires
        filter_selects(Some(ListingFilter::Subtree(prefix)), key),
    ensures
        filter_selects(Some(ListingFilter::LiteralPrefix(prefix)), key),
{
    if key == prefix@ {
        assert(key.subrange(0, prefix@.len() as int) =~= key);
    }
}

/// Maps a native failure of the directory walk behind a stream.
pub fn entry_error(failure: &NativeFailure) -> (r: LocalError)
    ensures
        mapped_failure(*failure, LocalOperation::List, "native directory walk failed"@, r),
{
    map_without_path(failure, LocalOperation::List, "native directory walk failed")
}

/// The directory a listing request names, or the failure for a request
/// whose scope names no directory path; a namespace listing is refused
/// before any native work.
pub fn require_list_path(scope_path: Option<&Path>) -> (r: Result<&Path, LocalError>)
    ensures
        match scope_path {
            Some(path) => r == Ok::<&Path, LocalError>(path),
            None => (r matches Err(e) && is_list_scope_error(e)),
        },
{
    match scope_path {
        Some(path) => Ok(path),
        None => Err(list_scope_error()),
    }
}

/// The failure for a listing request whose scope names no directory path.
pub open spec fn is_list_scope_error(e: LocalError) -> bool {
    &&& e.kind == LocalErrorKind::InvalidOptions
    &&& e.operation == LocalOperation::List
    &&& e.message@ == "local listing requires a directory path"@
    &&& e.effect is None
}

/// The failure for a listing request whose scope names no directory path.
pub fn list_scope_error() -> (r: LocalError)
    ensures
        r.kind == LocalErrorKind::InvalidOptions,
        r.operation == LocalOperation::List,
        r.message@ == "local listing requires a directory path"@,
        r.effect is None,
{
    LocalError::new(
        LocalErrorKind::InvalidOptions,
        LocalOperation::List,
        "local listing requires a directory path",
    )
}

} // verus!
