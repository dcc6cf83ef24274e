//! Which files of the input directory become photos, and in which order.

use vstd::prelude::*;
use vstd::string::*;
use itertools::Itertools;
use crate::photo::{file_name_of, file_name_spec};
use crate::text::{chars_of, eq_str, slice_chars};

verus! {

/// Index of the last `.` in `s`, or -1 where there is none.
pub open spec fn last_dot(s: Seq<char>) -> int
    decreases s.len(),
{
    if s.len() == 0 {
        -1
    } else if s.last() == '.' {
        s.len() - 1
    } else {
        last_dot(s.drop_last())
    }
}

/// The extension of a path: what follows the last `.` of its file name, where
/// that `.` is not the name's first character.
pub open spec fn extension_spec(s: Seq<char>) -> Option<Seq<char>> {
    match file_name_spec(s) {
        Some(f) => {
            let d = last_dot(f);
            if d > 0 {
                Some(f.subrange(d + 1, f.len() as int))
            } else {
                None
            }
        },
        None => None,
    }
}

/// Whether a path names a photo: its extension is `jpg` or `png`, in lower case.
pub open spec fn is_photo_path(s: Seq<char>) -> bool {
    extension_spec(s) matches Some(e) && (e == "jpg"@ || e == "png"@)
}

/// `a` comes before `b`, or equals it, comparing characters by code point
/// from the first on; a proper prefix comes first.
pub open spec fn lex_le(a: Seq<char>, b: Seq<char>) -> bool
    decreases a.len(),
{
    if a.len() == 0 {
        true
    } else if b.len() == 0 {
        false
    } else if (a[0] as u32) < (b[0] as u32) {
        true
    } else if (a[0] as u32) > (b[0] as u32) {
        false
    } else {
        lex_le(a.drop_first(), b.drop_first())
    }
}

pub open spec fn string_views(v: Seq<String>) -> Seq<Seq<char>> {
    v.map_values(|s: String| s@)
}

/// Relies on `itertools::Itertools::sorted`, which collects and applies
/// `slice::sort`: the same strings, in ascending order of `String`'s `Ord`,
/// which compares the UTF-8 bytes and so orders by code point.
#[verifier::external_body]
fn sorted_strings(v: Vec<String>) -> (r: Vec<String>)
    ensures
        string_views(r@).to_multiset() == string_views(v@).to_multiset(),
        forall|i: int, j: int| 0 <= i < j < r@.len() ==> lex_le(#[trigger] r@[i]@, #[trigger] r@[j]@),
{
    v.into_iter().sorted().collect()
}

proof fn lemma_last_dot_bounds(s: Seq<char>)
    ensures
        -1 <= last_dot(s) < s.len(),
        last_dot(s) >= 0 ==> s[last_dot(s)] == '.',
        forall|j: int| last_dot(s) < j < s.len() ==> s[j] != '.',
    decreases s.len(),
{
    if s.len() > 0 && s.last() != '.' {
        lemma_last_dot_bounds(s.drop_last());
        assert forall|j: int| last_dot(s) < j < s.len() implies s[j] != '.' by {
            if j < s.len() - 1 {
                assert(s.drop_last()[j] == s[j]);
            }
        }
    }
}

/// Whether `path` names a photo file (see `is_photo_path`).
pub fn is_photo_file(path: &str) -> (r: bool)
    ensures
        r == is_photo_path(path@),
{
    let f = match file_name_of(&chars_of(path)) {
        Some(f) => f,
        None => {
            return false;
        },
    };
    proof { lemma_last_dot_bounds(f@); }
    let mut i: usize = f.len();
    while i > 0 && f[i - 1] != '.'
        invariant
            i <= f@.len(),
            last_dot(f@) < i as int,
            last_dot(f@) >= 0 ==> f@[last_dot(f@)] == '.',
        decreases i,
    {
        i -= 1;
    }
    if i <= 1 {
        return false;
    }
    assert(last_dot(f@) == i - 1);
    let e = slice_chars(&f, i, f.len());
    eq_str(&e, "jpg") || eq_str(&e, "png")
}

/// The photo files among `paths`, in ascending order. The paths are the
/// entries of one directory, so this is the order of their file names.
pub fn select_photo_files(paths: Vec<String>) -> (r: Vec<String>)
    ensures
        string_views(r@).to_multiset() == string_views(paths@).filter(|s: Seq<char>| is_photo_path(s)).to_multiset(),
        forall|i: int, j: int| 0 <= i < j < r@.len() ==> lex_le(#[trigger] r@[i]@, #[trigger] r@[j]@),
{
    let ghost pv = string_views(paths@);
    let mut keep: Vec<String> = Vec::new();
    let mut i: usize = 0;
    while i < paths.len()
        invariant
            i <= paths@.len(),
            pv == string_views(paths@),
            string_views(keep@) == pv.subrange(0, i as int).filter(|s: Seq<char>| is_photo_path(s)),
        decreases paths.len() - i,
    {
        proof {
            assert(pv.subrange(0, i + 1).drop_last() =~= pv.subrange(0, i as int));
            reveal(Seq::filter);
        }
        if is_photo_file(paths[i].as_str()) {
            let ghost before = keep@;
            keep.push(paths[i].clone());
            assert(string_views(keep@) =~= string_views(before).push(pv[i as int]));
        }
        i += 1;
    }
    assert(pv.subrange(0, pv.len() as int) =~= pv);
    sorted_strings(keep)
}

} // verus!
