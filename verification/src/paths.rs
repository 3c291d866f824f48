//! File-system paths, handled as text. Joining and taking a parent go
//! through `std::path`, whose behaviour depends on the platform's separator.

use vstd::prelude::*;
use crate::text::{is_prefix_of, lacks, opt_view};

verus! {

/// A path separator on some platform: `/` everywhere, `\` on Windows.
pub open spec fn is_separator(c: char) -> bool {
    c == '/' || c == '\\'
}

/// A path that is relative on every platform: it does not start with a
/// separator and holds no `:` (so it has no Windows drive or verbatim prefix).
pub open spec fn is_relative_everywhere(p: Seq<char>) -> bool {
    (p.len() > 0 ==> !is_separator(p[0])) && lacks(p, ':')
}

/// A path with a Windows verbatim prefix (`\\?\`), which `PathBuf::push`
/// treats specially.
pub open spec fn has_verbatim_prefix(p: Seq<char>) -> bool {
    is_prefix_of(seq!['\\', '\\', '?', '\\'], p)
}

/// What joining a relative `child` onto `base` gives on every platform: a
/// separator goes between them exactly when `base` needs one. An empty base
/// gives `child`; a base ending in `/` (a separator everywhere) gives
/// `base` then `child`; a base ending in `\` (a separator on Windows only)
/// gets a `/` elsewhere and nothing on Windows; a two-character base ending
/// in `:` gets nothing where it is a Windows drive and a separator otherwise;
/// any other base gets the platform's separator.
pub open spec fn is_join_of(r: Seq<char>, base: Seq<char>, child: Seq<char>) -> bool {
    if base.len() == 0 {
        r == child
    } else if base[base.len() - 1] == '/' {
        r == base + child
    } else if base[base.len() - 1] == '\\' {
        r == base + child || r == base + seq!['/'] + child
    } else if base.len() == 2 && base[1] == ':' {
        r == base + child || exists|c: char| is_separator(c) && r == base + seq![c] + child
    } else {
        exists|c: char| is_separator(c) && r == base + seq![c] + child
    }
}

/// Calls `Path::join` and renders the result as text. When `child` is
/// relative on every platform and `base` has no verbatim prefix,
/// `PathBuf::push` adjoins `child` to `base`, adding the platform's separator
/// when `base` is non-empty and does not already end in a separator, except
/// after a bare Windows drive (`is_join_of`). For other inputs (an absolute `child` replaces `base`, and Windows
/// prefixes have rules of their own) nothing is stated.
#[verifier::external_body]
pub(crate) fn join_path(base: &str, child: &str) -> (r: String)
    ensures
        is_relative_everywhere(child@) && !has_verbatim_prefix(base@) ==> is_join_of(r@, base@, child@),
{
    std::path::Path::new(base).join(child).to_string_lossy().to_string()
}

/// `s` holds only separators and dots.
pub open spec fn is_only_separators_and_dots(s: Seq<char>) -> bool {
    forall|i: int| 0 <= i < s.len() ==> is_separator(s[i]) || s[i] == '.'
}

/// A path that may end in a root or prefix on some platform, or is empty:
/// the only paths that can lack a parent. It is empty; or it starts with two
/// separators (a Windows UNC, device or verbatim prefix); or, after an
/// optional drive `X:`, it holds only separators and dots (which stand for
/// nothing after a root).
pub open spec fn may_lack_parent(p: Seq<char>) -> bool {
    ||| p.len() == 0
    ||| p.len() >= 2 && is_separator(p[0]) && is_separator(p[1])
    ||| is_only_separators_and_dots(p)
    ||| p.len() >= 2 && p[1] == ':' && is_only_separators_and_dots(p.subrange(2, p.len() as int))
}

/// `p` is `dir`, a `/`, then a final component `name` that the same
/// platform-independent reading gives on every platform: `name` is neither
/// empty nor `.` and holds no separator; `dir` is not empty, does not end in
/// a separator or a dot, is not a bare drive `X:`, and does not start with
/// two separators.
pub open spec fn is_plain_child(p: Seq<char>, dir: Seq<char>, name: Seq<char>) -> bool {
    &&& p == dir + seq!['/'] + name
    &&& name.len() > 0 && name != seq!['.']
    &&& forall|i: int| 0 <= i < name.len() ==> !is_separator(name[i])
    &&& dir.len() > 0
    &&& !is_separator(dir[dir.len() - 1]) && dir[dir.len() - 1] != '.'
    &&& !(dir.len() == 2 && dir[1] == ':')
    &&& !(dir.len() >= 2 && is_separator(dir[0]) && is_separator(dir[1]))
}

/// What `Path::parent` gives for `p`, as far as it is the same on every
/// platform: a parent is a strictly shorter beginning of the path; there is
/// none only for a path that may end in a root or prefix (or is empty); and
/// for `dir/name` with a plain final component the parent is `dir`.
pub open spec fn is_parent_outcome(p: Seq<char>, r: Option<Seq<char>>) -> bool {
    &&& (r matches Some(q) ==> q.len() < p.len() && is_prefix_of(q, p))
    &&& (r is None ==> may_lack_parent(p))
    &&& forall|dir: Seq<char>, name: Seq<char>| is_plain_child(p, dir, name) ==> r == Some(dir)
}

/// Calls `Path::parent` and renders the result as text. The documentation
/// says it returns the path without its final component, `None` when the
/// path terminates in a root or prefix or is empty; that separators repeat
/// and trail freely and that `.` is dropped except at the start. Which part
/// is the final component, and what a root or prefix is, depends on the
/// platform (`\` separates only on Windows, where drives and `\\`
/// prefixes exist); what holds everywhere is stated.
#[verifier::external_body]
pub(crate) fn parent_path(p: &str) -> (r: Option<String>)
    ensures
        is_parent_outcome(p@, opt_view(r)),
{
    match std::path::Path::new(p).parent() {
        Some(q) => Some(q.to_string_lossy().to_string()),
        None => None,
    }
}

} // verus!
