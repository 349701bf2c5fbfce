//! Relevance filtering of paths before any I/O is spent on them.
//!
//! A path is relevant to the semantic index only if its file name is not
//! hidden (does not begin with `'.'`) and its extension is one of the
//! supported document extensions.  For upserts the file must additionally
//! still exist as a regular file; existence is a fact of the file system,
//! so callers pass it in as a plain value.  Paths are plain strings with
//! `'/'` as the separator.

use crate::classify::IndexOperation;
use vstd::prelude::*;
use vstd::string::*;

verus! {

/// The file-name component of `p`: the suffix after the last `'/'`, empty
/// when `p` ends in a separator.
pub open spec fn file_name_of(p: Seq<char>) -> Seq<char>
    decreases p.len(),
{
    if p.len() == 0 {
        Seq::empty()
    } else if p.last() == '/' {
        Seq::empty()
    } else {
        file_name_of(p.drop_last()).push(p.last())
    }
}

/// The extension of a file name `f`: the suffix after the last `'.'`,
/// provided that dot is not the first character (a leading dot marks a
/// hidden file, not an extension).
pub open spec fn ext_split(f: Seq<char>) -> Option<Seq<char>>
    decreases f.len(),
{
    if f.len() <= 1 {
        Option::None
    } else if f.last() == '.' {
        Option::Some(Seq::empty())
    } else {
        match ext_split(f.drop_last()) {
            Option::Some(e) => Option::Some(e.push(f.last())),
            Option::None => Option::None,
        }
    }
}

/// Whether the file name of `p` begins with the hidden-file marker.
pub open spec fn is_hidden_path(p: Seq<char>) -> bool {
    file_name_of(p).len() > 0 && file_name_of(p)[0] == '.'
}

/// The extension of the file name of `p`, if any.
pub open spec fn extension_of(p: Seq<char>) -> Option<Seq<char>> {
    ext_split(file_name_of(p))
}

/// Case-insensitive match of `c` against an ASCII letter given in both
/// cases.
pub open spec fn ci(c: char, lower: char, upper: char) -> bool {
    c == lower || c == upper
}

/// Whether `e` is one of the supported document extensions (`txt`, `md`,
/// `pdf`, `docx`), compared without regard to ASCII case.
pub open spec fn is_supported_extension(e: Seq<char>) -> bool {
    ||| (e.len() == 3 && ci(e[0], 't', 'T') && ci(e[1], 'x', 'X') && ci(e[2], 't', 'T'))
    ||| (e.len() == 2 && ci(e[0], 'm', 'M') && ci(e[1], 'd', 'D'))
    ||| (e.len() == 3 && ci(e[0], 'p', 'P') && ci(e[1], 'd', 'D') && ci(e[2], 'f', 'F'))
    ||| (e.len() == 4 && ci(e[0], 'd', 'D') && ci(e[1], 'o', 'O') && ci(e[2], 'c', 'C') && ci(
        e[3],
        'x',
        'X',
    ))
}

/// Relevance of a path for the semantic index, on the name alone: not
/// hidden, and carrying a supported extension.
pub open spec fn is_relevant_path(p: Seq<char>) -> bool {
    &&& !is_hidden_path(p)
    &&& match extension_of(p) {
        Option::Some(e) => is_supported_extension(e),
        Option::None => false,
    }
}

/// Relevance of a path for an upsert: the name rules plus the requirement
/// that the path currently exists as a regular file.
pub open spec fn is_relevant_for_upsert_spec(p: Seq<char>, is_existing_file: bool) -> bool {
    is_existing_file && is_relevant_path(p)
}

proof fn lemma_file_name(p: Seq<char>, m: int)
    requires
        0 <= m <= p.len(),
        forall|k: int| m <= k < p.len() ==> p[k] != '/',
        m == 0 || p[m - 1] == '/',
    ensures
        file_name_of(p) == p.subrange(m, p.len() as int),
    decreases p.len(),
{
    if p.len() == 0 {
        assert(file_name_of(p) =~= p.subrange(0, 0));
    } else if m == p.len() {
        assert(p.last() == '/');
        assert(file_name_of(p) =~= p.subrange(m, p.len() as int));
    } else {
        assert(p.last() != '/');
        lemma_file_name(p.drop_last(), m);
        assert(p.drop_last().subrange(m, p.len() - 1) =~= p.subrange(m, p.len() - 1));
        assert(p.subrange(m, p.len() - 1).push(p.last()) =~= p.subrange(m, p.len() as int));
    }
}

proof fn lemma_ext_split(f: Seq<char>, d: int)
    requires
        0 <= d <= f.len(),
        forall|k: int| d <= k < f.len() ==> f[k] != '.',
        d == 0 || f[d - 1] == '.',
    ensures
        ext_split(f) == if d <= 1 {
            Option::<Seq<char>>::None
        } else {
            Option::Some(f.subrange(d, f.len() as int))
        },
    decreases f.len(),
{
    if f.len() <= 1 {
    } else if d == f.len() {
        assert(f.last() == '.');
        assert(f.subrange(d, f.len() as int) =~= Seq::<char>::empty());
    } else {
        assert(f.last() != '.');
        lemma_ext_split(f.drop_last(), d);
        if d > 1 {
            assert(f.drop_last().subrange(d, f.len() - 1) =~= f.subrange(d, f.len() - 1));
            assert(f.subrange(d, f.len() - 1).push(f.last()) =~= f.subrange(d, f.len() as int));
        }
    }
}

/// Checks whether the extension that starts at character `d` of `path`
/// (running to the end) is one of the supported extensions.
fn extension_supported(path: &str, d: usize, n: usize) -> (r: bool)
    requires
        d <= n,
        n == path@.len(),
    ensures
        r == is_supported_extension(path@.subrange(d as int, n as int)),
{
    let len = n - d;
    if len == 3 {
        let c0 = path.get_char(d);
        let c1 = path.get_char(d + 1);
        let c2 = path.get_char(d + 2);
        ((c0 == 't' || c0 == 'T') && (c1 == 'x' || c1 == 'X') && (c2 == 't' || c2 == 'T')) || ((c0
            == 'p' || c0 == 'P') && (c1 == 'd' || c1 == 'D') && (c2 == 'f' || c2 == 'F'))
    } else if len == 2 {
        let c0 = path.get_char(d);
        let c1 = path.get_char(d + 1);
        (c0 == 'm' || c0 == 'M') && (c1 == 'd' || c1 == 'D')
    } else if len == 4 {
        let c0 = path.get_char(d);
        let c1 = path.get_char(d + 1);
        let c2 = path.get_char(d + 2);
        let c3 = path.get_char(d + 3);
        (c0 == 'd' || c0 == 'D') && (c1 == 'o' || c1 == 'O') && (c2 == 'c' || c2 == 'C') && (c3
            == 'x' || c3 == 'X')
    } else {
        false
    }
}

/// Checks whether a path is relevant for the semantic index on its name
/// alone: not a hidden file, and a supported extension.  For delete
/// events existence cannot be checked, so this is the whole test.
pub fn is_relevant_file(path: &str) -> (r: bool)
    ensures
        r == is_relevant_path(path@),
{
    let n = path.unicode_len();
    // Find the start of the file-name component: one past the last '/'.
    let mut m: usize = n;
    while m > 0 && path.get_char(m - 1) != '/'
        invariant
            m <= n,
            n == path@.len(),
            forall|k: int| m <= k < n ==> path@[k] != '/',
        decreases m,
    {
        m = m - 1;
    }
    proof {
        lemma_file_name(path@, m as int);
    }
    if m == n {
        // Empty file name: not hidden, but no extension either.
        proof {
            lemma_ext_split(file_name_of(path@), 0);
        }
        return false;
    }
    if path.get_char(m) == '.' {
        // Hidden file.
        return false;
    }
    // Find the start of the extension: one past the last '.' of the name.
    let mut d: usize = n;
    while d > m && path.get_char(d - 1) != '.'
        invariant
            m <= d <= n,
            n == path@.len(),
            forall|k: int| d <= k < n ==> path@[k] != '.',
        decreases d,
    {
        d = d - 1;
    }
    proof {
        let f = file_name_of(path@);
        assert(f =~= path@.subrange(m as int, n as int));
        assert forall|k: int| (d - m) <= k < f.len() implies f[k] != '.' by {
            assert(f[k] == path@[m + k]);
        }
        if d > m {
            assert(f[d - m - 1] == path@[d - 1]);
        }
        lemma_ext_split(f, d - m as int);
        if d - m > 1 {
            assert(f.subrange(d - m as int, f.len() as int) =~= path@.subrange(
                d as int,
                n as int,
            ));
        }
    }
    if d <= m + 1 {
        // No dot, or only the leading dot of a hidden file: no extension.
        return false;
    }
    extension_supported(path, d, n)
}

/// Checks whether a path is relevant for an upsert: the name rules of
/// [`is_relevant_file`] plus the requirement that the path currently
/// exists as a regular file, which the caller reports.
pub fn is_relevant_file_for_upsert(path: &str, is_existing_file: bool) -> (r: bool)
    ensures
        r == is_relevant_for_upsert_spec(path@, is_existing_file),
{
    is_existing_file && is_relevant_file(path)
}

/// The relevance gate applied before any I/O is spent on a path: upserts
/// require the file to exist, deletes go by the name alone, and ignored
/// operations touch nothing.
pub fn is_relevant_for_operation(op: IndexOperation, path: &str, is_existing_file: bool) -> (r:
    bool)
    ensures
        r == match op {
            IndexOperation::Upsert => is_relevant_for_upsert_spec(path@, is_existing_file),
            IndexOperation::Delete => is_relevant_path(path@),
            IndexOperation::Ignore => false,
        },
{
    match op {
        IndexOperation::Upsert => is_relevant_file_for_upsert(path, is_existing_file),
        IndexOperation::Delete => is_relevant_file(path),
        IndexOperation::Ignore => false,
    }
}

/// Hidden files and unsupported extensions are irrelevant for both the
/// delete-side and the upsert-side relevance check, whether or not the
/// file exists.
pub proof fn lemma_irrelevant_path(p: Seq<char>, is_existing_file: bool)
    requires
        is_hidden_path(p) || !(match extension_of(p) {
            Option::Some(e) => is_supported_extension(e),
            Option::None => false,
        }),
    ensures
        !is_relevant_path(p),
        !is_relevant_for_upsert_spec(p, is_existing_file),
{
}

} // verus!
