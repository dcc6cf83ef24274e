//! Character-level text helpers: whitespace, trimming, splitting,
//! lowercasing and conversion between strings and character vectors.

use vstd::prelude::*;
use vstd::string::*;

verus! {

/// The characters that `char::is_whitespace` accepts: Unicode `White_Space`.
pub open spec fn is_white_spec(c: char) -> bool {
    ('\t' <= c && c <= '\r') || c == ' ' || c == '\u{85}' || c == '\u{a0}' || c == '\u{1680}'
        || ('\u{2000}' <= c && c <= '\u{200a}') || c == '\u{2028}' || c == '\u{2029}'
        || c == '\u{202f}' || c == '\u{205f}' || c == '\u{3000}'
}

pub fn is_white(c: char) -> (r: bool)
    ensures
        r == is_white_spec(c),
{
    ('\t' <= c && c <= '\r') || c == ' ' || c == '\u{85}' || c == '\u{a0}' || c == '\u{1680}'
        || ('\u{2000}' <= c && c <= '\u{200a}') || c == '\u{2028}' || c == '\u{2029}'
        || c == '\u{202f}' || c == '\u{205f}' || c == '\u{3000}'
}

/// Number of leading whitespace characters.
pub open spec fn lead_ws(s: Seq<char>) -> nat
    decreases s.len(),
{
    if s.len() > 0 && is_white_spec(s[0]) {
        1 + lead_ws(s.drop_first())
    } else {
        0
    }
}

/// Number of trailing whitespace characters.
pub open spec fn trail_ws(s: Seq<char>) -> nat
    decreases s.len(),
{
    if s.len() > 0 && is_white_spec(s.last()) {
        1 + trail_ws(s.drop_last())
    } else {
        0
    }
}

/// `s` without leading and trailing whitespace.
pub open spec fn trim_spec(s: Seq<char>) -> Seq<char> {
    let a = lead_ws(s) as int;
    if a == s.len() {
        Seq::empty()
    } else {
        s.subrange(a, s.len() - trail_ws(s))
    }
}


proof fn lemma_lead_ws(s: Seq<char>, i: int)
    requires
        0 <= i <= s.len(),
        forall|j: int| 0 <= j < i ==> is_white_spec(#[trigger] s[j]),
        i == s.len() || !is_white_spec(s[i]),
    ensures
        lead_ws(s) == i,
    decreases i,
{
    if i > 0 {
        assert forall|j: int| 0 <= j < i - 1 implies is_white_spec(#[trigger] s.drop_first()[j]) by {
            assert(s.drop_first()[j] == s[j + 1]);
        }
        lemma_lead_ws(s.drop_first(), i - 1);
    }
}

proof fn lemma_trail_ws(s: Seq<char>, i: int)
    requires
        0 <= i <= s.len(),
        forall|j: int| i <= j < s.len() ==> is_white_spec(#[trigger] s[j]),
        i == 0 || !is_white_spec(s[i - 1]),
    ensures
        trail_ws(s) == s.len() - i,
    decreases s.len() - i,
{
    if i < s.len() {
        assert forall|j: int| i <= j < s.len() - 1 implies is_white_spec(#[trigger] s.drop_last()[j]) by {
            assert(s.drop_last()[j] == s[j]);
        }
        lemma_trail_ws(s.drop_last(), i);
    }
}

/// The characters of `s`, in order.
pub fn chars_of(s: &str) -> (r: Vec<char>)
    ensures
        r@ == s@,
{
    let n = s.unicode_len();
    let mut r: Vec<char> = Vec::new();
    let mut i: usize = 0;
    while i < n
        invariant
            n == s@.len(),
            i <= n,
            r@ == s@.subrange(0, i as int),
        decreases n - i,
    {
        r.push(s.get_char(i));
        i += 1;
    }
    assert(r@ =~= s@);
    r
}

/// Relies on `String::push`: appends one character at the end.
#[verifier::external_body]
fn push_char(s: &mut String, c: char)
    ensures
        final(s)@ == old(s)@.push(c),
{
    s.push(c)
}

/// A string made of the characters of `v`, in order.
pub fn string_of(v: &Vec<char>) -> (r: String)
    ensures
        r@ == v@,
{
    let mut r = String::new();
    let mut i: usize = 0;
    while i < v.len()
        invariant
            i <= v@.len(),
            r@ == v@.subrange(0, i as int),
        decreases v.len() - i,
    {
        push_char(&mut r, v[i]);
        i += 1;
    }
    assert(r@ =~= v@);
    r
}

/// The characters of `s` without leading and trailing whitespace.
pub fn trim_chars(s: &Vec<char>) -> (r: Vec<char>)
    ensures
        r@ == trim_spec(s@),
{
    let n = s.len();
    let mut a: usize = 0;
    while a < n && is_white(s[a])
        invariant
            a <= n == s@.len(),
            forall|j: int| 0 <= j < a ==> is_white_spec(#[trigger] s@[j]),
        decreases n - a,
    {
        a += 1;
    }
    proof { lemma_lead_ws(s@, a as int); }
    if a == n {
        return Vec::new();
    }
    let mut b: usize = n;
    while b > a && is_white(s[b - 1])
        invariant
            a < n == s@.len(),
            !is_white_spec(s@[a as int]),
            a <= b <= n,
            forall|j: int| b <= j < n ==> is_white_spec(#[trigger] s@[j]),
        decreases b,
    {
        b -= 1;
    }
    proof { lemma_trail_ws(s@, b as int); }
    let mut r: Vec<char> = Vec::new();
    let mut i: usize = a;
    while i < b
        invariant
            a <= i <= b <= n == s@.len(),
            r@ == s@.subrange(a as int, i as int),
        decreases b - i,
    {
        r.push(s[i]);
        i += 1;
    }
    r
}

/// `s` without leading and trailing whitespace, as a new string.
pub fn trim_str(s: &str) -> (r: String)
    ensures
        r@ == trim_spec(s@),
{
    string_of(&trim_chars(&chars_of(s)))
}


/// Splits `s` at every character equal to `a` or `b`, the separators dropped,
/// as `str::split` does: `k` separators give `k + 1` pieces, empty ones kept.
pub open spec fn split_spec(s: Seq<char>, a: char, b: char) -> Seq<Seq<char>>
    decreases s.len(),
{
    if s.len() == 0 {
        seq![Seq::empty()]
    } else {
        let p = split_spec(s.drop_last(), a, b);
        if s.last() == a || s.last() == b {
            p.push(Seq::empty())
        } else {
            p.update(p.len() - 1, p.last().push(s.last()))
        }
    }
}

/// The characters of `s` before its first whitespace character.
pub open spec fn first_word(s: Seq<char>) -> Seq<char>
    decreases s.len(),
{
    if s.len() == 0 || is_white_spec(s[0]) {
        Seq::empty()
    } else {
        seq![s[0]] + first_word(s.drop_first())
    }
}

proof fn lemma_first_word(s: Seq<char>, i: int)
    requires
        0 <= i <= s.len(),
        forall|j: int| 0 <= j < i ==> !is_white_spec(#[trigger] s[j]),
        i == s.len() || is_white_spec(s[i]),
    ensures
        first_word(s) == s.subrange(0, i),
    decreases i,
{
    if i > 0 {
        assert forall|j: int| 0 <= j < i - 1 implies !is_white_spec(#[trigger] s.drop_first()[j]) by {
            assert(s.drop_first()[j] == s[j + 1]);
        }
        lemma_first_word(s.drop_first(), i - 1);
        assert(seq![s[0]] + s.drop_first().subrange(0, i - 1) =~= s.subrange(0, i));
    } else {
        assert(s.subrange(0, 0) =~= Seq::<char>::empty());
    }
}

/// The characters of `s` before its first whitespace character.
pub fn first_word_chars(s: &Vec<char>) -> (r: Vec<char>)
    ensures
        r@ == first_word(s@),
{
    let mut i: usize = 0;
    while i < s.len() && !is_white(s[i])
        invariant
            i <= s@.len(),
            forall|j: int| 0 <= j < i ==> !is_white_spec(#[trigger] s@[j]),
        decreases s.len() - i,
    {
        i += 1;
    }
    proof { lemma_first_word(s@, i as int); }
    slice_chars(s, 0, i)
}

/// No piece of a split holds a separator.
pub proof fn lemma_split_pieces(s: Seq<char>, a: char, b: char)
    ensures
        forall|i: int, j: int|
            0 <= i < split_spec(s, a, b).len() && 0 <= j < split_spec(s, a, b)[i].len() ==> #[trigger] split_spec(
                s,
                a,
                b,
            )[i][j] != a && split_spec(s, a, b)[i][j] != b,
    decreases s.len(),
{
    if s.len() > 0 {
        lemma_split_pieces(s.drop_last(), a, b);
        lemma_split_len(s.drop_last(), a, b);
        let p = split_spec(s.drop_last(), a, b);
        let r = split_spec(s, a, b);
        assert forall|i: int, j: int| 0 <= i < r.len() && 0 <= j < r[i].len() implies #[trigger] r[i][j]
            != a && r[i][j] != b by {
            if s.last() == a || s.last() == b {
                if i < p.len() {
                    assert(r[i] == p[i]);
                }
            } else {
                if i < p.len() - 1 {
                    assert(r[i] == p[i]);
                } else if j < p.last().len() {
                    assert(r[i][j] == p[i][j]);
                }
            }
        }
    }
}

proof fn lemma_split_len(s: Seq<char>, a: char, b: char)
    ensures
        split_spec(s, a, b).len() >= 1,
    decreases s.len(),
{
    if s.len() > 0 {
        lemma_split_len(s.drop_last(), a, b);
    }
}

/// Splitting `x`, a separator `a`, then `y` free of separators, gives the
/// pieces of `x` followed by `y`.
pub proof fn lemma_split_append(x: Seq<char>, a: char, b: char, y: Seq<char>)
    requires
        forall|j: int| 0 <= j < y.len() ==> y[j] != a && y[j] != b,
    ensures
        split_spec(x + seq![a] + y, a, b) == split_spec(x, a, b).push(y),
    decreases y.len(),
{
    if y.len() == 0 {
        assert(y =~= Seq::<char>::empty());
        assert(x + seq![a] + y =~= x.push(a));
        assert(x.push(a).drop_last() =~= x);
        assert(x.push(a).last() == a);
        assert(split_spec(x.push(a), a, b) == split_spec(x, a, b).push(Seq::empty()));
    } else {
        let s = x + seq![a] + y;
        assert(s.drop_last() =~= x + seq![a] + y.drop_last());
        lemma_split_append(x, a, b, y.drop_last());
        assert(s.last() == y.last());
        assert(y.drop_last().push(y.last()) =~= y);
        assert(split_spec(s, a, b) =~= split_spec(x, a, b).push(y));
    }
}

/// A sequence free of separators splits into itself alone.
pub proof fn lemma_split_plain(y: Seq<char>, a: char, b: char)
    requires
        forall|j: int| 0 <= j < y.len() ==> y[j] != a && y[j] != b,
    ensures
        split_spec(y, a, b) == seq![y],
    decreases y.len(),
{
    if y.len() == 0 {
        assert(y =~= Seq::<char>::empty());
        assert(split_spec(y, a, b) =~= seq![y]);
    } else {
        lemma_split_plain(y.drop_last(), a, b);
        assert(y.drop_last().push(y.last()) =~= y);
        assert(split_spec(y, a, b) =~= seq![y]);
    }
}

/// The pieces of `s` between characters equal to `a` or `b`.
pub fn split_chars(s: &Vec<char>, a: char, b: char) -> (r: Vec<Vec<char>>)
    ensures
        r@.len() >= 1,
        r@.map_values(|v: Vec<char>| v@) == split_spec(s@, a, b),
{
    let mut r: Vec<Vec<char>> = Vec::new();
    let mut cur: Vec<char> = Vec::new();
    let mut i: usize = 0;
    while i < s.len()
        invariant
            i <= s@.len(),
            r@.map_values(|v: Vec<char>| v@).push(cur@) == split_spec(s@.subrange(0, i as int), a, b),
        decreases s.len() - i,
    {
        let c = s[i];
        proof {
            assert(s@.subrange(0, i + 1).drop_last() =~= s@.subrange(0, i as int));
        }
        if c == a || c == b {
            let ghost before = r@;
            r.push(cur);
            cur = Vec::new();
            assert(r@.map_values(|v: Vec<char>| v@) =~= before.map_values(|v: Vec<char>| v@).push(
                r@.last()@,
            ));
            assert(r@.map_values(|v: Vec<char>| v@).push(cur@) =~= split_spec(s@.subrange(0, i + 1), a, b));
        } else {
            cur.push(c);
            assert(r@.map_values(|v: Vec<char>| v@).push(cur@) =~= split_spec(s@.subrange(0, i + 1), a, b));
        }
        i += 1;
    }
    assert(s@.subrange(0, s@.len() as int) =~= s@);
    let ghost before = r@;
    r.push(cur);
    assert(r@.map_values(|v: Vec<char>| v@) =~= before.map_values(|v: Vec<char>| v@).push(r@.last()@));
    r
}

/// What `str::to_lowercase` gives for a string: it depends on the characters alone.
pub uninterp spec fn lower_of(s: Seq<char>) -> Seq<char>;

/// Relies on `str::to_lowercase`: the lowercase form of `s`, a function of its
/// characters alone.
#[verifier::external_body]
fn lowercase_str(s: &str) -> (r: String)
    ensures
        r@ == lower_of(s@),
{
    s.to_lowercase()
}

/// The lowercase form of a character sequence.
pub fn lowercase(s: &Vec<char>) -> (r: Vec<char>)
    ensures
        r@ == lower_of(s@),
{
    let t = string_of(s);
    let l = lowercase_str(t.as_str());
    chars_of(l.as_str())
}

/// Whether `s` holds exactly the characters of `lit`.
pub fn eq_str(s: &Vec<char>, lit: &str) -> (r: bool)
    ensures
        r == (s@ == lit@),
{
    let n = lit.unicode_len();
    if s.len() != n {
        return false;
    }
    let mut i: usize = 0;
    while i < n
        invariant
            n == s@.len() == lit@.len(),
            i <= n,
            forall|j: int| 0 <= j < i ==> s@[j] == lit@[j],
        decreases n - i,
    {
        if s[i] != lit.get_char(i) {
            return false;
        }
        i += 1;
    }
    assert(s@ =~= lit@);
    true
}

/// Whether `s` ends with `u`.
pub open spec fn ends_with_spec(s: Seq<char>, u: Seq<char>) -> bool {
    u.len() <= s.len() && s.subrange(s.len() - u.len(), s.len() as int) == u
}


/// The characters of `s` from index `from` up to `to`.
pub fn slice_chars(s: &Vec<char>, from: usize, to: usize) -> (r: Vec<char>)
    requires
        from <= to <= s@.len(),
    ensures
        r@ == s@.subrange(from as int, to as int),
{
    let mut r: Vec<char> = Vec::new();
    let mut i: usize = from;
    while i < to
        invariant
            from <= i <= to <= s@.len(),
            r@ == s@.subrange(from as int, i as int),
        decreases to - i,
    {
        r.push(s[i]);
        i += 1;
    }
    r
}

/// Whether `s` ends with the characters of `u`.
pub fn ends_with_str(s: &Vec<char>, u: &str) -> (r: bool)
    ensures
        r == ends_with_spec(s@, u@),
{
    let cs = chars_of(u);
    if cs.len() > s.len() {
        return false;
    }
    let off = s.len() - cs.len();
    let mut i: usize = 0;
    while i < cs.len()
        invariant
            cs@ == u@,
            off + cs@.len() == s@.len(),
            s@.len() == s.len(),
            i <= cs@.len(),
            forall|j: int| 0 <= j < i ==> s@[off + j] == cs@[j],
        decreases cs.len() - i,
    {
        if s[off + i] != cs[i] {
            assert(s@.subrange(off as int, s@.len() as int)[i as int] != u@[i as int]);
            return false;
        }
        i += 1;
    }
    assert(s@.subrange(off as int, s@.len() as int) =~= u@);
    true
}

} // verus!
