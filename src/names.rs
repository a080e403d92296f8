//! File names: the final component of a path, and its stem and extension.

use vstd::prelude::*;
use crate::text::{chars_of, slice_chars, split, split_on, string_from_chars, views};

verus! {

/// The view of an optional string.
pub open spec fn opt_view(o: Option<String>) -> Option<Seq<char>> {
    match o {
        Some(s) => Some(s@),
        None => None,
    }
}

/// The last component among the pieces of a path: empty and `.` pieces
/// are skipped, and a final `..` has no name.
pub open spec fn last_component(ps: Seq<Seq<char>>) -> Option<Seq<char>>
    decreases ps.len(),
{
    if ps.len() == 0 {
        None
    } else if ps.last().len() == 0 || ps.last() == "."@ {
        last_component(ps.drop_last())
    } else if ps.last() == ".."@ {
        None
    } else {
        Some(ps.last())
    }
}

/// The file name of a path, as `Path::file_name` gives it on Unix: its
/// final component, or none when the path ends in `..` or is a root or
/// empty.
pub open spec fn file_name_of(path: Seq<char>) -> Option<Seq<char>> {
    last_component(split_on(path, '/'))
}

/// The file name of a path.
pub fn file_name(path: &str) -> (r: Option<String>)
    ensures
        opt_view(r) == file_name_of(path@),
{
    let pieces = split(&chars_of(path), '/');
    let ghost ps = split_on(path@, '/');
    let dot = String::from_str(".");
    let dotdot = String::from_str("..");
    let mut j: usize = pieces.len();
    assert(ps.take(j as int) =~= ps);
    while j > 0
        invariant
            j <= pieces@.len(),
            views(pieces@) == ps,
            ps == split_on(path@, '/'),
            dot@ == "."@,
            dotdot@ == ".."@,
            last_component(ps.take(j as int)) == last_component(ps),
        decreases j,
    {
        assert(ps[j - 1] == pieces@[j - 1]@);
        assert(ps.take(j as int).last() == ps[j - 1]);
        assert(ps.take(j as int).drop_last() =~= ps.take(j - 1));
        let piece = string_from_chars(&pieces[j - 1]);
        if piece == dotdot {
            proof {
                reveal_strlit(".");
                reveal_strlit("..");
                assert(ps[j - 1].len() == 2);
                assert(ps[j - 1] != "."@);
            }
            return None;
        }
        if pieces[j - 1].len() > 0 && !(piece == dot) {
            assert(piece@ != ".."@);
            assert(piece@ != "."@);
            return Some(piece);
        }
        j -= 1;
    }
    None
}

/// The index of the last `.` in `n`, or -1.
pub open spec fn last_dot(n: Seq<char>) -> int
    decreases n.len(),
{
    if n.len() == 0 {
        -1
    } else if n.last() == '.' {
        n.len() - 1
    } else {
        last_dot(n.drop_last())
    }
}

/// The extension of a file name, as `Path::extension` gives it: what
/// follows the last `.`, unless there is none or the only one leads.
pub open spec fn extension_of_name(n: Seq<char>) -> Option<Seq<char>> {
    let i = last_dot(n);
    if i <= 0 {
        None
    } else {
        Some(n.skip(i + 1))
    }
}

/// The stem of a file name, as `Path::file_stem` gives it: what precedes
/// the last `.`, or the whole name when it has no extension.
pub open spec fn stem_of_name(n: Seq<char>) -> Seq<char> {
    let i = last_dot(n);
    if i <= 0 {
        n
    } else {
        n.take(i)
    }
}

pub(crate) proof fn lemma_last_dot_bounds(n: Seq<char>)
    ensures
        -1 <= last_dot(n) < n.len(),
        last_dot(n) >= 0 ==> n[last_dot(n)] == '.',
        forall|j: int| last_dot(n) < j < n.len() ==> n[j] != '.',
    decreases n.len(),
{
    if n.len() > 0 && n.last() != '.' {
        lemma_last_dot_bounds(n.drop_last());
        assert forall|j: int| last_dot(n) < j < n.len() implies n[j] != '.' by {
            if j < n.len() - 1 {
                assert(n[j] == n.drop_last()[j]);
            }
        }
    }
}

/// The position of the last `.` in `n`.
fn find_last_dot(n: &Vec<char>) -> (r: Option<usize>)
    ensures
        match r {
            Some(i) => last_dot(n@) == i,
            None => last_dot(n@) == -1,
        },
{
    let mut j: usize = n.len();
    assert(n@.take(j as int) =~= n@);
    while j > 0
        invariant
            j <= n@.len(),
            last_dot(n@.take(j as int)) == last_dot(n@),
        decreases j,
    {
        if n[j - 1] == '.' {
            return Some(j - 1);
        }
        assert(n@.take(j as int).drop_last() =~= n@.take(j - 1));
        j -= 1;
    }
    None
}

/// The extension of a file name, without its dot.
pub fn name_extension(n: &Vec<char>) -> (r: Option<Vec<char>>)
    ensures
        match r {
            Some(e) => extension_of_name(n@) == Some(e@),
            None => extension_of_name(n@) is None,
        },
{
    proof {
        lemma_last_dot_bounds(n@);
    }
    match find_last_dot(n) {
        Some(i) => {
            if i == 0 {
                None
            } else {
                assert(i < n.len());
                let e = slice_chars(n, i + 1, n.len());
                assert(e@ =~= n@.skip(i + 1));
                Some(e)
            }
        },
        None => None,
    }
}

/// The stem of a file name.
pub fn name_stem(n: &Vec<char>) -> (r: Vec<char>)
    ensures
        r@ == stem_of_name(n@),
{
    proof {
        lemma_last_dot_bounds(n@);
    }
    match find_last_dot(n) {
        Some(i) => {
            if i == 0 {
                slice_chars(n, 0, n.len())
            } else {
                slice_chars(n, 0, i)
            }
        },
        None => slice_chars(n, 0, n.len()),
    }
}

/// The final component of a path, or `unknown` when it has none.
pub fn display_name(path: &str) -> (r: String)
    ensures
        r@ == match file_name_of(path@) {
            Some(n) => n,
            None => "unknown"@,
        },
{
    match file_name(path) {
        Some(n) => n,
        None => String::from_str("unknown"),
    }
}

} // verus!
