//! Path pieces computed on text, with `/` and `\` both taken as separators.

use vstd::prelude::*;
use crate::text::{chars_of, eq_str, slice};

verus! {

/// `c` separates path components.
pub open spec fn is_sep(c: char) -> bool {
    c == '/' || c == '\\'
}

/// The index of the last separator in `p`, or -1.
pub open spec fn last_sep(p: Seq<char>) -> int
    decreases p.len(),
{
    if p.len() == 0 {
        -1
    } else if is_sep(p.last()) {
        p.len() - 1
    } else {
        last_sep(p.drop_last())
    }
}

/// The final component of `p`: trailing separators and `.` components are
/// skipped; none when `p` has no component or ends in `..`.
pub open spec fn file_name_of(p: Seq<char>) -> Option<Seq<char>>
    decreases p.len(),
{
    if p.len() == 0 {
        None
    } else if is_sep(p.last()) {
        file_name_of(p.drop_last())
    } else {
        let k = last_sep(p);
        let seg = p.subrange(k + 1, p.len() as int);
        if seg == "."@ {
            if k < 0 {
                None
            } else {
                proof {
                    lemma_last_sep_bounds(p);
                }
                file_name_of(p.subrange(0, k))
            }
        } else if seg == ".."@ {
            None
        } else {
            Some(seg)
        }
    }
}

pub proof fn lemma_last_sep_bounds(p: Seq<char>)
    ensures
        -1 <= last_sep(p) < p.len(),
        last_sep(p) >= 0 ==> is_sep(p[last_sep(p)]),
        forall|j: int| last_sep(p) < j < p.len() ==> !is_sep(#[trigger] p[j]),
    decreases p.len(),
{
    if p.len() > 0 && !is_sep(p.last()) {
        lemma_last_sep_bounds(p.drop_last());
        assert forall|j: int| last_sep(p) < j < p.len() implies !is_sep(#[trigger] p[j]) by {
            if j < p.len() - 1 {
                assert(p.drop_last()[j] == p[j]);
            }
        }
    }
}

fn find_last_sep(p: &Vec<char>) -> (k: Option<usize>)
    ensures
        match k {
            Some(i) => i == last_sep(p@),
            None => last_sep(p@) == -1,
        },
{
    let mut i: usize = p.len();
    assert(p@.subrange(0, i as int) =~= p@);
    while i > 0 && !(p[i - 1] == '/' || p[i - 1] == '\\')
        invariant
            i <= p.len(),
            last_sep(p@) == last_sep(p@.subrange(0, i as int)),
        decreases i,
    {
        assert(p@.subrange(0, i as int).drop_last() =~= p@.subrange(0, i - 1));
        i -= 1;
    }
    if i == 0 {
        assert(p@.subrange(0, 0) =~= Seq::<char>::empty());
        None
    } else {
        Some(i - 1)
    }
}

/// The final component of `p` (see `file_name_of`).
pub fn file_name(p: &Vec<char>) -> (r: Option<Vec<char>>)
    ensures
        match r {
            Some(v) => file_name_of(p@) == Some(v@),
            None => file_name_of(p@) is None,
        },
    decreases p.len(),
{
    if p.len() == 0 {
        return None;
    }
    let n = p.len();
    if p[n - 1] == '/' || p[n - 1] == '\\' {
        let q = slice(p, 0, n - 1);
        assert(q@ =~= p@.drop_last());
        return file_name(&q);
    }
    let k = find_last_sep(p);
    proof {
        lemma_last_sep_bounds(p@);
    }
    let start: usize = match k {
        Some(i) => i + 1,
        None => 0,
    };
    let seg = slice(p, start, n);
    if eq_str(&seg, ".") {
        match k {
            None => {
                return None;
            },
            Some(i) => {
                let q = slice(p, 0, i);
                return file_name(&q);
            },
        }
    }
    if eq_str(&seg, "..") {
        return None;
    }
    Some(seg)
}

/// The final component of the path `p`, when there is one.
pub fn file_name_str(p: &str) -> (r: Option<Vec<char>>)
    ensures
        match r {
            Some(v) => file_name_of(p@) == Some(v@),
            None => file_name_of(p@) is None,
        },
{
    let v = chars_of(p);
    file_name(&v)
}

/// The index of the last `.` in `s`, or -1.
pub open spec fn last_dot(s: Seq<char>) -> int
    decreases s.len(),
{
    if s.len() == 0 {
        -1
    } else if s.last() == '.' {
        s.len() - 1
    } else {
        last_dot(s.drop_last())
    }
}

/// The extension of a file name: the text after its last `.`, unless that dot
/// begins the name, the name has none, or the name is `..`.
pub open spec fn extension_of(name: Seq<char>) -> Option<Seq<char>> {
    let k = last_dot(name);
    if name == ".."@ || k <= 0 {
        None
    } else {
        Some(name.subrange(k + 1, name.len() as int))
    }
}

/// The stem of a file name: the text before the extension's dot, or the whole
/// name when it has no extension.
pub open spec fn stem_of(name: Seq<char>) -> Seq<char> {
    let k = last_dot(name);
    if name == ".."@ || k <= 0 {
        name
    } else {
        name.subrange(0, k)
    }
}

pub proof fn lemma_last_dot_bounds(s: Seq<char>)
    ensures
        -1 <= last_dot(s) < s.len(),
    decreases s.len(),
{
    if s.len() > 0 && s.last() != '.' {
        lemma_last_dot_bounds(s.drop_last());
    }
}

fn find_last_dot(s: &Vec<char>) -> (k: Option<usize>)
    ensures
        match k {
            Some(i) => i == last_dot(s@),
            None => last_dot(s@) == -1,
        },
{
    let mut i: usize = s.len();
    assert(s@.subrange(0, i as int) =~= s@);
    while i > 0 && s[i - 1] != '.'
        invariant
            i <= s.len(),
            last_dot(s@) == last_dot(s@.subrange(0, i as int)),
        decreases i,
    {
        assert(s@.subrange(0, i as int).drop_last() =~= s@.subrange(0, i - 1));
        i -= 1;
    }
    if i == 0 {
        assert(s@.subrange(0, 0) =~= Seq::<char>::empty());
        None
    } else {
        assert(s@.subrange(0, i as int).last() == '.');
        Some(i - 1)
    }
}

/// Splits a file name into its stem and extension (see `stem_of` and `extension_of`).
pub fn split_extension(name: &Vec<char>) -> (r: (Vec<char>, Option<Vec<char>>))
    ensures
        r.0@ == stem_of(name@),
        match r.1 {
            Some(e) => extension_of(name@) == Some(e@),
            None => extension_of(name@) is None,
        },
{
    let k = find_last_dot(name);
    proof {
        lemma_last_dot_bounds(name@);
    }
    match k {
        Some(i) => {
            if eq_str(name, "..") || i == 0 {
                return (name.clone(), None);
            }
            let stem = slice(name, 0, i);
            let ext = slice(name, i + 1, name.len());
            (stem, Some(ext))
        },
        None => (name.clone(), None),
    }
}


/// `p` has a `..` component: two dots with a separator or an end of the text
/// on each side.
pub open spec fn has_parent_dir(p: Seq<char>) -> bool {
    exists|i: int| #[trigger] parent_dir_at(p, i)
}

/// A `..` component begins at `i` in `p`.
pub open spec fn parent_dir_at(p: Seq<char>, i: int) -> bool {
    &&& 0 <= i
    &&& i + 2 <= p.len()
    &&& p[i] == '.'
    &&& p[i + 1] == '.'
    &&& (i == 0 || is_sep(p[i - 1]))
    &&& (i + 2 == p.len() || is_sep(p[i + 2]))
}

/// Whether the path `p` has a `..` component (see `has_parent_dir`).
pub fn has_parent_component(p: &str) -> (r: bool)
    ensures
        r == has_parent_dir(p@),
{
    let v = chars_of(p);
    let n = v.len();
    let mut i: usize = 0;
    while i < n
        invariant
            n == v.len(),
            v@ == p@,
            i <= n,
            forall|k: int| 0 <= k < i ==> !#[trigger] parent_dir_at(p@, k),
        decreases n - i,
    {
        if n - i >= 2 && v[i] == '.' && v[i + 1] == '.' && (i == 0 || v[i - 1] == '/' || v[i - 1]
            == '\\') && (n - i == 2 || v[i + 2] == '/' || v[i + 2] == '\\') {
            assert(parent_dir_at(p@, i as int));
            return true;
        }
        i += 1;
    }
    false
}

} // verus!
