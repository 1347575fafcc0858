//! Paths as plain text, with `/` between their components.
//!
//! A path is the sequence of its characters. Nothing here touches a disk:
//! these functions only build one text from others.

use vstd::prelude::*;

verus! {

/// Whether `path` starts at the root of the filesystem.
pub open spec fn is_absolute(path: Seq<char>) -> bool {
    path.len() > 0 && path[0] == '/'
}

/// `rel` resolved against `base`.
///
/// An empty `rel` names `base` itself, an absolute `rel` stands for itself,
/// and anything else is put below `base`, one separator between the two.
pub open spec fn joined(base: Seq<char>, rel: Seq<char>) -> Seq<char> {
    if rel.len() == 0 {
        base
    } else if is_absolute(rel) {
        rel
    } else if base.len() == 0 || base.last() == '/' {
        base + rel
    } else {
        base.push('/') + rel
    }
}

/// `path` without the separators at its end.
pub open spec fn trimmed(path: Seq<char>) -> Seq<char>
    decreases path.len(),
{
    if path.len() > 0 && path.last() == '/' {
        trimmed(path.drop_last())
    } else {
        path
    }
}

/// How much of `path` comes before its last component: the length of the
/// text up to and including the last separator, 0 where there is none.
pub open spec fn dir_len(path: Seq<char>) -> nat
    decreases path.len(),
{
    if path.len() == 0 || path.last() == '/' {
        path.len()
    } else {
        dir_len(path.drop_last())
    }
}

/// The directory that holds `path`, if `path` has a last component.
///
/// The empty path and the root have none. A single relative component lies in
/// the empty path, a single component under the root lies in `/`.
pub open spec fn parent_of(path: Seq<char>) -> Option<Seq<char>> {
    let named = trimmed(path);
    if named.len() == 0 {
        None
    } else {
        let head = named.take(dir_len(named) as int);
        let dir = trimmed(head);
        if head.len() > 0 && dir.len() == 0 {
            Some(seq!['/'])
        } else {
            Some(dir)
        }
    }
}

/// What is left of `path` below `prefix`, if `path` lies at or below it.
pub open spec fn relative_to(path: Seq<char>, prefix: Seq<char>) -> Option<Seq<char>> {
    if !prefix.is_prefix_of(path) {
        None
    } else {
        let rest = path.skip(prefix.len() as int);
        if rest.len() == 0 || prefix.len() == 0 || prefix.last() == '/' {
            Some(rest)
        } else if rest[0] == '/' {
            Some(rest.skip(1))
        } else {
            None
        }
    }
}

/// The texts of the paths `paths`, in order.
pub open spec fn texts(paths: Seq<String>) -> Seq<Seq<char>> {
    paths.map_values(|path: String| path@)
}

/// Taking a path relative to the directory it was resolved against gives the
/// path back, unless the path was absolute.
pub proof fn lemma_relative_to_joined(base: Seq<char>, rel: Seq<char>)
    requires
        !is_absolute(rel),
    ensures
        relative_to(joined(base, rel), base) == Some(rel),
{
    let whole = joined(base, rel);
    assert(base.is_prefix_of(whole));
    if rel.len() == 0 {
        assert(whole.skip(base.len() as int) =~= rel);
    } else if base.len() == 0 || base.last() == '/' {
        assert(whole.skip(base.len() as int) =~= rel);
    } else {
        let rest = whole.skip(base.len() as int);
        assert(rest[0] == '/');
        assert(rest.skip(1) =~= rel);
    }
}

/// Resolving the empty path against a directory gives the directory.
pub proof fn lemma_joined_empty(base: Seq<char>)
    ensures
        joined(base, Seq::empty()) == base,
{
}

/// Tells whether `path` starts at the root of the filesystem.
pub fn starts_at_root(path: &str) -> (r: bool)
    ensures
        r == is_absolute(path@),
{
    path.unicode_len() > 0 && path.get_char(0) == '/'
}

/// Resolves `rel` against `base`.
pub fn join(base: &str, rel: &str) -> (r: String)
    ensures
        r@ == joined(base@, rel@),
{
    if rel.unicode_len() == 0 {
        return base.to_owned();
    }
    if starts_at_root(rel) {
        return rel.to_owned();
    }
    let base_len = base.unicode_len();
    let mut out = base.to_owned();
    if base_len > 0 && base.get_char(base_len - 1) != '/' {
        proof {
            reveal_strlit("/");
            assert("/"@ =~= seq!['/']);
            assert(base@ + seq!['/'] =~= base@.push('/'));
        }
        out.append("/");
    }
    out.append(rel);
    out
}

/// The length of `path` once the separators at its end are gone.
fn trimmed_len(path: &str, len: usize) -> (n: usize)
    requires
        len <= path@.len(),
    ensures
        n <= len,
        path@.take(n as int) == trimmed(path@.take(len as int)),
{
    let mut n = len;
    while n > 0 && path.get_char(n - 1) == '/'
        invariant
            n <= len <= path@.len(),
            trimmed(path@.take(n as int)) == trimmed(path@.take(len as int)),
        decreases n,
    {
        proof {
            let whole = path@.take(n as int);
            assert(whole.last() == path@[n - 1]);
            assert(whole.drop_last() =~= path@.take(n - 1));
        }
        n = n - 1;
    }
    proof {
        let whole = path@.take(n as int);
        if n > 0 {
            assert(whole.last() == path@[n - 1]);
        }
        assert(trimmed(whole) == whole);
    }
    n
}

/// The length of the part of `path`, cut at `len`, that comes before its last
/// component.
fn head_len(path: &str, len: usize) -> (n: usize)
    requires
        len <= path@.len(),
    ensures
        n <= len,
        n == dir_len(path@.take(len as int)),
{
    let mut n = len;
    while n > 0 && path.get_char(n - 1) != '/'
        invariant
            n <= len <= path@.len(),
            dir_len(path@.take(n as int)) == dir_len(path@.take(len as int)),
        decreases n,
    {
        proof {
            let whole = path@.take(n as int);
            assert(whole.last() == path@[n - 1]);
            assert(whole.drop_last() =~= path@.take(n - 1));
        }
        n = n - 1;
    }
    proof {
        let whole = path@.take(n as int);
        if n > 0 {
            assert(whole.last() == path@[n - 1]);
        }
        assert(dir_len(whole) == n);
    }
    n
}

/// The directory that holds `path`, or `None` where `path` is empty or the
/// root.
pub fn parent(path: &str) -> (r: Option<String>)
    ensures
        r is Some <==> parent_of(path@) is Some,
        r matches Some(dir) ==> parent_of(path@) == Some(dir@),
{
    let len = path.unicode_len();
    proof {
        assert(path@.take(len as int) =~= path@);
    }
    let named = trimmed_len(path, len);
    if named == 0 {
        return None;
    }
    let head = head_len(path, named);
    let dir = trimmed_len(path, head);
    proof {
        let n = path@.take(named as int);
        assert(n.take(head as int) =~= path@.take(head as int));
    }
    if head > 0 && dir == 0 {
        proof {
            reveal_strlit("/");
            assert("/"@ =~= seq!['/']);
        }
        Some("/".to_owned())
    } else {
        proof {
            assert(path@.subrange(0, dir as int) =~= path@.take(dir as int));
        }
        Some(path.substring_char(0, dir).to_owned())
    }
}

/// What is left of `path` below `prefix`, or `None` where `path` does not lie
/// at or below `prefix`.
pub fn strip_prefix(path: &str, prefix: &str) -> (r: Option<String>)
    ensures
        r is Some <==> relative_to(path@, prefix@) is Some,
        r matches Some(rest) ==> relative_to(path@, prefix@) == Some(rest@),
{
    let path_len = path.unicode_len();
    let prefix_len = prefix.unicode_len();
    if prefix_len > path_len {
        return None;
    }
    let mut k: usize = 0;
    while k < prefix_len
        invariant
            k <= prefix_len <= path_len,
            path_len == path@.len(),
            prefix_len == prefix@.len(),
            forall|i: int| 0 <= i < k ==> path@[i] == prefix@[i],
        decreases prefix_len - k,
    {
        if path.get_char(k) != prefix.get_char(k) {
            return None;
        }
        k = k + 1;
    }
    proof {
        assert(path@.subrange(0, prefix@.len() as int) =~= prefix@);
        assert(path@.skip(prefix_len as int) =~= path@.subrange(
            prefix_len as int,
            path_len as int,
        ));
    }
    let direct = path_len == prefix_len || prefix_len == 0 || prefix.get_char(prefix_len - 1)
        == '/';
    if direct {
        Some(path.substring_char(prefix_len, path_len).to_owned())
    } else if path.get_char(prefix_len) == '/' {
        proof {
            assert(path@.skip(prefix_len as int).skip(1) =~= path@.subrange(
                prefix_len + 1,
                path_len as int,
            ));
        }
        Some(path.substring_char(prefix_len + 1, path_len).to_owned())
    } else {
        None
    }
}

} // verus!
