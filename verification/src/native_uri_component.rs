//! Checks that decoded `file:` URI components stay single native
//! components on a host with `/`-separated paths.
//!
//! A host path is read as components the usual way: repeated separators
//! and `.` components after the first are ignored, a leading `/` is the
//! root, a leading `.` is the current directory, and `..` is the parent.

use vstd::prelude::*;

verus! {

/// Index of the first `/` in `s`, or its length when there is none.
pub open spec fn first_separator(s: Seq<char>) -> nat
    decreases s.len(),
{
    if s.len() == 0 {
        0
    } else if s[0] == '/' {
        0
    } else {
        1 + first_separator(s.subrange(1, s.len() as int))
    }
}

/// Whether every `/`-separated part of `rest` is empty or `.`, so that the
/// parts add no component after a first one. `rest` starts at a separator
/// or is empty.
pub open spec fn adds_no_component(rest: Seq<char>) -> bool {
    forall|i: int|
        0 <= i < rest.len() ==> (#[trigger] rest[i] == '/' || (rest[i] == '.' && i > 0 && rest[i - 1] == '/' && (
        i + 1 == rest.len() || rest[i + 1] == '/')))
}

/// Whether `s` reads as exactly one normal native component: it is not
/// rooted, its first part is neither `.` nor `..`, and nothing after the
/// first part forms another component.
pub open spec fn is_single_normal_component(s: Seq<char>) -> bool {
    let k = first_separator(s) as int;
    &&& s.len() > 0
    &&& s[0] != '/'
    &&& s.subrange(0, k) != seq!['.']
    &&& s.subrange(0, k) != seq!['.', '.']
    &&& adds_no_component(s.subrange(k, s.len() as int))
}

/// Facts about [`first_separator`].
proof fn lemma_first_separator(s: Seq<char>)
    ensures
        first_separator(s) <= s.len(),
        forall|j: int| 0 <= j < first_separator(s) ==> s[j] != '/',
        first_separator(s) < s.len() ==> s[first_separator(s) as int] == '/',
    decreases s.len(),
{
    if s.len() > 0 && s[0] != '/' {
        let t = s.subrange(1, s.len() as int);
        lemma_first_separator(t);
        assert forall|j: int| 0 <= j < first_separator(s) implies s[j] != '/' by {
            if j > 0 {
                assert(s[j] == t[j - 1]);
            }
        }
        if first_separator(s) < s.len() {
            assert(s[first_separator(s) as int] == t[first_separator(t) as int]);
        }
    }
}

/// The index of the first `/` is the only index with no `/` before it and a
/// `/` or the end at it.
proof fn lemma_first_separator_unique(s: Seq<char>, k: int)
    requires
        0 <= k <= s.len(),
        forall|j: int| 0 <= j < k ==> s[j] != '/',
        k < s.len() ==> s[k] == '/',
    ensures
        first_separator(s) == k,
{
    lemma_first_separator(s);
    let f = first_separator(s) as int;
    if f < k {
        assert(s[f] == '/');
    } else if k < f {
        assert(s[k] != '/');
    }
}

/// Reports whether one decoded URI component remains one native component.
///
/// On this host no drive prefix is special, so the position of the
/// component does not matter.
pub fn is_native_uri_component(component: &str, is_first: bool) -> (r: bool)
    ensures
        r == is_single_normal_component(component@),
{
    let _ = is_first;
    let n = component.unicode_len();
    let ghost s = component@;
    if n == 0 {
        return false;
    }
    if component.get_char(0) == '/' {
        return false;
    }
    let mut k: usize = 0;
    while k < n && component.get_char(k) != '/'
        invariant
            k <= n,
            n == s.len(),
            s == component@,
            forall|j: int| 0 <= j < k ==> s[j] != '/',
        decreases n - k,
    {
        k = k + 1;
    }
    proof {
        lemma_first_separator_unique(s, k as int);
    }
    let is_dot = k == 1 && component.get_char(0) == '.';
    let is_dot_dot = k == 2 && component.get_char(0) == '.' && component.get_char(1) == '.';
    proof {
        let first = s.subrange(0, k as int);
        if k == 1 && s[0] == '.' {
            assert(first =~= seq!['.']);
        }
        if k == 2 && s[0] == '.' && s[1] == '.' {
            assert(first =~= seq!['.', '.']);
        }
        if first == seq!['.'] {
            assert(first.len() == 1 && first[0] == '.');
        }
        if first == seq!['.', '.'] {
            assert(first.len() == 2 && first[0] == '.' && first[1] == '.');
        }
    }
    if is_dot || is_dot_dot {
        return false;
    }
    let ghost rest = s.subrange(k as int, n as int);
    let mut i: usize = k;
    while i < n
        invariant
            k <= i <= n,
            n == s.len(),
            s == component@,
            rest == s.subrange(k as int, n as int),
            first_separator(s) == k,
            k < n ==> s[k as int] == '/',
            forall|j: int|
                k <= j < i ==> (#[trigger] s[j] == '/' || (s[j] == '.' && j > k && s[j - 1] == '/' && (j + 1
                    == n || s[j + 1] == '/'))),
        decreases n - i,
    {
        let c = component.get_char(i);
        if c != '/' {
            let lone_dot = c == '.' && i > k && component.get_char(i - 1) == '/' && (i + 1 == n
                || component.get_char(i + 1) == '/');
            if !lone_dot {
                proof {
                    let j = i - k;
                    assert(rest[j] == s[i as int]);
                    if j > 0 {
                        assert(rest[j - 1] == s[i - 1]);
                    }
                    if j + 1 < rest.len() {
                        assert(rest[j + 1] == s[i + 1]);
                    }
                    assert(!adds_no_component(rest));
                }
                return false;
            }
        }
        i = i + 1;
    }
    proof {
        assert forall|j: int|
            0 <= j < rest.len() implies (#[trigger] rest[j] == '/' || (rest[j] == '.' && j > 0 && rest[j - 1]
            == '/' && (j + 1 == rest.len() || rest[j + 1] == '/'))) by {
            assert(rest[j] == s[k + j]);
            if j > 0 {
                assert(rest[j - 1] == s[k + j - 1]);
            }
            if j + 1 < rest.len() {
                assert(rest[j + 1] == s[k + j + 1]);
            }
            if j == 0 {
                assert(s[k as int] == '/');
            }
        }
    }
    true
}

/// Whether `text` names a drive prefix: an ASCII letter followed by `:`.
pub open spec fn is_drive_text(text: Seq<char>) -> bool {
    &&& text.len() == 2
    &&& (('a' <= text[0] && text[0] <= 'z') || ('A' <= text[0] && text[0] <= 'Z'))
    &&& text[1] == ':'
}

/// Reports whether a decoded component names a drive prefix: exactly an
/// ASCII letter followed by a colon.
pub fn is_windows_drive_component(component: &str) -> (r: bool)
    ensures
        r == is_drive_text(component@),
{
    if component.unicode_len() != 2 {
        return false;
    }
    let letter = component.get_char(0);
    let colon = component.get_char(1);
    (('a' <= letter && letter <= 'z') || ('A' <= letter && letter <= 'Z')) && colon == ':'
}

/// Adapts decoded `file:` URI path text to the native spelling of this
/// host, where a decoded URI path is already a native absolute path.
pub fn native_uri_path(decoded: &str) -> (r: &str)
    ensures
        r@ == decoded@,
{
    decoded
}

} // verus!
