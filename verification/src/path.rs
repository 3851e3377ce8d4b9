//! Paths as text.
//!
//! A path is a sequence of characters in which `/` separates components. The
//! functions here are purely lexical: none of them looks at a filesystem.

use vstd::prelude::*;
use vstd::string::*;

verus! {

/// The character that separates path components.
pub const SEPARATOR: char = '/';

/// `path` ends in the separator.
pub open spec fn has_trailing_separator(path: Seq<char>) -> bool {
    path.len() > 0 && path.last() == SEPARATOR
}

/// `path` begins with the separator, which makes it absolute.
pub open spec fn has_leading_separator(path: Seq<char>) -> bool {
    path.len() > 0 && path.first() == SEPARATOR
}

/// `path` with one leading separator removed, if it has one.
pub open spec fn without_leading_separator(path: Seq<char>) -> Seq<char> {
    if has_leading_separator(path) {
        path.subrange(1, path.len() as int)
    } else {
        path
    }
}

/// `path` with every leading separator removed: what is left names a place
/// relative to wherever it is put.
pub open spec fn without_leading_separators(path: Seq<char>) -> Seq<char>
    decreases path.len(),
{
    if has_leading_separator(path) {
        without_leading_separators(path.subrange(1, path.len() as int))
    } else {
        path
    }
}

/// `rel` adjoined to `base`: an absolute `rel` replaces `base`; otherwise
/// `rel` follows `base`, with one separator between them unless `base` is
/// empty or already ends in one.
pub open spec fn joined(base: Seq<char>, rel: Seq<char>) -> Seq<char> {
    if has_leading_separator(rel) {
        rel
    } else if base.len() > 0 && !has_trailing_separator(base) {
        base.push(SEPARATOR) + rel
    } else {
        base + rel
    }
}

/// `given` placed below `base`: the base, then one separator unless the base
/// is empty or ends in one, then `given` without its leading separators.
/// Unlike [`joined`], nothing that `given` holds can replace the base.
pub open spec fn placed_below(base: Seq<char>, given: Seq<char>) -> Seq<char> {
    joined(base, without_leading_separators(given))
}

/// Whether `path` ends in the separator.
pub fn ends_with_separator(path: &str) -> (r: bool)
    ensures
        r == has_trailing_separator(path@),
{
    let n: usize = path.unicode_len();
    n > 0 && path.get_char(n - 1) == SEPARATOR
}

/// Whether `path` begins with the separator.
pub fn starts_with_separator(path: &str) -> (r: bool)
    ensures
        r == has_leading_separator(path@),
{
    !path.is_empty() && path.get_char(0) == SEPARATOR
}

/// Removes one leading separator from `path`, if it has one.
pub fn strip_leading_separator(path: &str) -> (r: &str)
    ensures
        r@ == without_leading_separator(path@),
{
    if starts_with_separator(path) {
        path.substring_char(1, path.unicode_len())
    } else {
        path
    }
}

/// Removes every leading separator from `path`.
pub fn strip_leading_separators(path: &str) -> (r: &str)
    ensures
        r@ == without_leading_separators(path@),
{
    let n: usize = path.unicode_len();
    let mut k: usize = 0;
    assert(path@.subrange(0, n as int) =~= path@);
    while k < n && path.get_char(k) == SEPARATOR
        invariant
            k <= n,
            n == path@.len(),
            without_leading_separators(path@) == without_leading_separators(
                path@.subrange(k as int, n as int),
            ),
        decreases n - k,
    {
        proof {
            let rest = path@.subrange(k as int, n as int);
            assert(has_leading_separator(rest));
            assert(rest.subrange(1, rest.len() as int) =~= path@.subrange(k + 1, n as int));
        }
        k += 1;
    }
    path.substring_char(k, n)
}

/// Adjoins `rel` to `base`.
pub fn join(base: &str, rel: &str) -> (r: String)
    ensures
        r@ == joined(base@, rel@),
{
    if starts_with_separator(rel) {
        rel.to_owned()
    } else {
        let mut out = base.to_owned();
        if !base.is_empty() && !ends_with_separator(base) {
            proof {
                reveal_strlit("/");
                assert("/"@ =~= seq![SEPARATOR]);
            }
            out.append("/");
            assert(out@ =~= base@.push(SEPARATOR));
        }
        out.append(rel);
        out
    }
}

/// Places `given` below `base`.
pub fn place_below(base: &str, given: &str) -> (r: String)
    ensures
        r@ == placed_below(base@, given@),
{
    join(base, strip_leading_separators(given))
}

/// What is left of a path without its leading separators does not begin with
/// one, and a path that begins with none is left as it is.
pub proof fn lemma_without_leading_separators(path: Seq<char>)
    ensures
        !has_leading_separator(without_leading_separators(path)),
        without_leading_separators(path).is_suffix_of(path),
        without_leading_separators(path).len() <= path.len(),
        !has_leading_separator(path) ==> without_leading_separators(path) == path,
    decreases path.len(),
{
    if has_leading_separator(path) {
        let rest = path.subrange(1, path.len() as int);
        lemma_without_leading_separators(rest);
        let left = without_leading_separators(rest);
        assert(left == rest.subrange(rest.len() - left.len(), rest.len() as int));
        assert(left =~= path.subrange(path.len() - left.len(), path.len() as int));
    } else {
        assert(path =~= path.subrange(0, path.len() as int));
    }
}

/// Whatever is placed below a base begins with the base: no given path can
/// leave it by its text.
pub proof fn lemma_placed_below_begins_with_base(base: Seq<char>, given: Seq<char>)
    ensures
        base.is_prefix_of(placed_below(base, given)),
        without_leading_separators(given).is_suffix_of(placed_below(base, given)),
        placed_below(base, given).len() == base.len() + without_leading_separators(given).len()
            + if base.len() > 0 && !has_trailing_separator(base) {
            1int
        } else {
            0int
        },
{
    lemma_without_leading_separators(given);
    let rel = without_leading_separators(given);
    let full = placed_below(base, given);
    assert(full.subrange(0, base.len() as int) =~= base);
    assert(full.subrange(full.len() - rel.len(), full.len() as int) =~= rel);
}

/// What `std::path::Path::parent` makes of `path`: the path without its final
/// component, or `None` where there is no such component to remove.
pub uninterp spec fn path_parent(path: Seq<char>) -> Option<Seq<char>>;

/// The parent of `path`, as `std::path::Path::parent` computes it from the
/// text alone. The contract only gives that result its name, `path_parent`:
/// the standard library's component rules are not restated here.
#[verifier::external_body]
pub(crate) fn parent(path: &str) -> (r: Option<String>)
    ensures
        r.deep_view() == path_parent(path@),
{
    match std::path::Path::new(path).parent() {
        Some(p) => Some(p.to_string_lossy().into_owned()),
        None => None,
    }
}

/// Whether `a` and `b` hold the same characters.
pub fn same_text(a: &str, b: &str) -> (r: bool)
    ensures
        r == (a@ == b@),
{
    let n: usize = a.unicode_len();
    if n != b.unicode_len() {
        return false;
    }
    let mut i: usize = 0;
    while i < n
        invariant
            i <= n,
            n == a@.len(),
            n == b@.len(),
            forall|k: int| 0 <= k < i ==> a@[k] == b@[k],
        decreases n - i,
    {
        if a.get_char(i) != b.get_char(i) {
            return false;
        }
        i += 1;
    }
    assert(a@ =~= b@);
    true
}

} // verus!
