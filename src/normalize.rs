//! Output file names: spaces, `!` and a fixed set of accented letters are
//! replaced; every other character is kept.

use vstd::prelude::*;
use crate::text::{chars_of, string_of};

verus! {

/// The replacement of one character of a file name.
pub open spec fn normalize_char_spec(c: char) -> char {
    if c == ' ' || c == '!' {
        '_'
    } else if c == 'ä' {
        'a'
    } else if c == 'ö' {
        'o'
    } else if c == 'ü' {
        'u'
    } else if c == 'Ä' {
        'A'
    } else if c == 'Ö' {
        'O'
    } else if c == 'Ü' {
        'U'
    } else if c == 'ß' {
        's'
    } else if c == 'é' {
        'e'
    } else if c == 'É' {
        'E'
    } else if c == 'ł' {
        'l'
    } else {
        c
    }
}

/// The normalized form of a file name: each character replaced on its own.
pub open spec fn normalize_spec(s: Seq<char>) -> Seq<char> {
    s.map_values(|c: char| normalize_char_spec(c))
}

pub fn normalize_char(c: char) -> (r: char)
    ensures
        r == normalize_char_spec(c),
{
    match c {
        ' ' | '!' => '_',
        'ä' => 'a',
        'ö' => 'o',
        'ü' => 'u',
        'Ä' => 'A',
        'Ö' => 'O',
        'Ü' => 'U',
        'ß' => 's',
        'é' => 'e',
        'É' => 'E',
        'ł' => 'l',
        x => x,
    }
}

/// The name under which a photo file is stored in the album's image folder.
pub fn normalize_filename(name: &str) -> (r: String)
    ensures
        r@ == normalize_spec(name@),
{
    let cs = chars_of(name);
    let mut out: Vec<char> = Vec::new();
    let mut i: usize = 0;
    while i < cs.len()
        invariant
            cs@ == name@,
            i <= cs@.len(),
            out@ == normalize_spec(cs@.subrange(0, i as int)),
        decreases cs.len() - i,
    {
        out.push(normalize_char(cs[i]));
        i += 1;
        assert(out@ =~= normalize_spec(cs@.subrange(0, i as int)));
    }
    assert(cs@.subrange(0, cs@.len() as int) =~= cs@);
    string_of(&out)
}

/// Normalizing an already normalized file name leaves it unchanged.
pub proof fn lemma_normalize_idempotent(s: Seq<char>)
    ensures
        normalize_spec(normalize_spec(s)) == normalize_spec(s),
{
    assert(normalize_spec(normalize_spec(s)) =~= normalize_spec(s));
}

/// Normalizing keeps the path separator and introduces no other one.
pub proof fn lemma_normalize_keeps_separator(s: Seq<char>)
    ensures
        normalize_spec(s).len() == s.len(),
        forall|i: int| 0 <= i < s.len() ==> (#[trigger] normalize_spec(s)[i] == '/' <==> s[i] == '/'),
{
}

} // verus!
