//! One photo: its heading, caption and file location.
//!
//! A location is a `/`-separated path; its components, file name and folder
//! name follow `std::path::Path`: `.` and empty pieces are no components,
//! and `..` names nothing.

use vstd::prelude::*;
use vstd::string::*;
use crate::normalize::{normalize_filename, normalize_spec, lemma_normalize_keeps_separator};
use crate::text::{
    chars_of, lemma_split_append, lemma_split_pieces, lemma_split_plain, split_chars, split_spec,
    string_of, trim_str, trim_spec,
};

verus! {

/// The data of a photo, as plain sequences.
pub struct PhotoView {
    pub heading: Seq<char>,
    pub caption: Seq<char>,
    pub location: Seq<char>,
}

/// The pieces that name something: empty pieces (from repeated, leading or
/// trailing `/`) and `.` are left out, as `Path::components` does.
pub open spec fn keep_components(ps: Seq<Seq<char>>) -> Seq<Seq<char>>
    decreases ps.len(),
{
    if ps.len() == 0 {
        Seq::empty()
    } else {
        let r = keep_components(ps.drop_last());
        let c = ps.last();
        if c.len() > 0 && c != seq!['.'] {
            r.push(c)
        } else {
            r
        }
    }
}

/// The components of a `/`-separated path.
pub open spec fn components(s: Seq<char>) -> Seq<Seq<char>> {
    keep_components(split_spec(s, '/', '/'))
}

/// A component that names a file or folder: anything but `..`.
pub open spec fn is_name(c: Seq<char>) -> bool {
    c != seq!['.', '.']
}

/// The file name of a path, as `Path::file_name` gives it: its last
/// component, unless there is none or it is `..`.
pub open spec fn file_name_spec(s: Seq<char>) -> Option<Seq<char>> {
    let c = components(s);
    if c.len() > 0 && is_name(c.last()) {
        Some(c.last())
    } else {
        None
    }
}

/// The name of the folder that holds the file: the file name of the path's
/// parent, that is its last component but one, unless there is none or it is
/// `..`.
pub open spec fn folder_name_spec(s: Seq<char>) -> Option<Seq<char>> {
    let c = components(s);
    if c.len() > 1 && is_name(c[c.len() - 2]) {
        Some(c[c.len() - 2])
    } else {
        None
    }
}

/// `dir` joined with `name` by one `/`.
pub open spec fn join_spec(dir: Seq<char>, name: Seq<char>) -> Seq<char> {
    if dir.len() == 0 {
        name
    } else if dir.last() == '/' {
        dir + name
    } else {
        dir + seq!['/'] + name
    }
}

/// The name of the folder that holds the file, then `/`, then the file name;
/// none where either of the two is missing.
pub open spec fn relative_path_spec(s: Seq<char>) -> Option<Seq<char>> {
    match (folder_name_spec(s), file_name_spec(s)) {
        (Some(d), Some(f)) => Some(d + seq!['/'] + f),
        _ => None,
    }
}

/// The folder under an output directory that receives the photos.
pub open spec fn img_dir() -> Seq<char> {
    seq!['i', 'm', 'g']
}

/// Where a photo at `location` is stored under the output directory `target`;
/// none where the location has no file name.
pub open spec fn relocated_location(location: Seq<char>, target: Seq<char>) -> Option<Seq<char>> {
    match file_name_spec(location) {
        Some(f) => Some(join_spec(join_spec(target, img_dir()), normalize_spec(f))),
        None => None,
    }
}

/// The image reference line written for a photo whose relative path is `p`.
pub open spec fn image_line(p: Seq<char>) -> Seq<char> {
    "![Missing Image: "@ + p + "]("@ + p + ")\n"@
}

/// Why a photo could not be rendered.
#[derive(Debug, PartialEq, Eq, Structural)]
pub enum MarkupError {
    /// The location lacks a file name or the name of its folder.
    MissingPathComponent,
}

pub struct Photo {
    heading: String,
    description: String,
    source: String,
}

impl View for Photo {
    type V = PhotoView;

    closed spec fn view(&self) -> PhotoView {
        PhotoView { heading: self.heading@, caption: self.description@, location: self.source@ }
    }
}

impl Clone for Photo {
    fn clone(&self) -> (r: Self)
        ensures
            r@ == self@,
    {
        Photo {
            heading: self.heading.clone(),
            description: self.description.clone(),
            source: self.source.clone(),
        }
    }
}

/// Keeping components commutes with appending a piece.
proof fn lemma_keep_push(ps: Seq<Seq<char>>, c: Seq<char>)
    ensures
        keep_components(ps.push(c)) == if c.len() > 0 && c != seq!['.'] {
            keep_components(ps).push(c)
        } else {
            keep_components(ps)
        },
{
    assert(ps.push(c).drop_last() =~= ps);
}

/// Every component is a non-empty piece without `/`.
proof fn lemma_components_plain(s: Seq<char>)
    ensures
        forall|i: int, j: int|
            0 <= i < components(s).len() && 0 <= j < components(s)[i].len() ==> #[trigger] components(
                s,
            )[i][j] != '/',
{
    lemma_split_pieces(s, '/', '/');
    lemma_keep_plain(split_spec(s, '/', '/'));
}

proof fn lemma_keep_plain(ps: Seq<Seq<char>>)
    requires
        forall|i: int, j: int| 0 <= i < ps.len() && 0 <= j < ps[i].len() ==> #[trigger] ps[i][j] != '/',
    ensures
        forall|i: int, j: int|
            0 <= i < keep_components(ps).len() && 0 <= j < keep_components(ps)[i].len()
                ==> #[trigger] keep_components(ps)[i][j] != '/',
    decreases ps.len(),
{
    if ps.len() > 0 {
        let q = ps.drop_last();
        assert forall|i: int, j: int| 0 <= i < q.len() && 0 <= j < q[i].len() implies #[trigger] q[i][j]
            != '/' by {
            assert(q[i] == ps[i]);
        }
        lemma_keep_plain(q);
        let k = keep_components(ps);
        assert forall|i: int, j: int| 0 <= i < k.len() && 0 <= j < k[i].len() implies #[trigger] k[i][j]
            != '/' by {
            if i < keep_components(q).len() {
                assert(k[i] == keep_components(q)[i]);
            } else {
                assert(k[i] == ps[ps.len() - 1]);
            }
        }
    }
}

/// A piece that names something, free of `/`.
pub open spec fn plain_name(n: Seq<char>) -> bool {
    &&& n.len() > 0
    &&& n != seq!['.']
    &&& is_name(n)
    &&& forall|j: int| 0 <= j < n.len() ==> n[j] != '/'
}

/// Joining a plain name onto a directory adds it as the last component.
proof fn lemma_join_components(dir: Seq<char>, name: Seq<char>)
    requires
        plain_name(name),
    ensures
        components(join_spec(dir, name)) == components(dir).push(name),
{
    if dir.len() == 0 {
        lemma_split_plain(name, '/', '/');
        assert(dir =~= Seq::<char>::empty());
        lemma_split_plain(dir, '/', '/');
        assert(seq![Seq::<char>::empty()] =~= Seq::<Seq<char>>::empty().push(Seq::<char>::empty()));
        lemma_keep_push(Seq::empty(), Seq::<char>::empty());
        assert(seq![name] =~= Seq::<Seq<char>>::empty().push(name));
        lemma_keep_push(Seq::empty(), name);
    } else if dir.last() == '/' {
        let d = dir.drop_last();
        assert(dir =~= d + seq!['/']);
        assert(dir + name =~= d + seq!['/'] + name);
        lemma_split_append(d, '/', '/', name);
        lemma_keep_push(split_spec(d, '/', '/'), name);
        lemma_split_append(d, '/', '/', Seq::empty());
        assert(d + seq!['/'] + Seq::<char>::empty() =~= dir);
        lemma_keep_push(split_spec(d, '/', '/'), Seq::empty());
    } else {
        lemma_split_append(dir, '/', '/', name);
        lemma_keep_push(split_spec(dir, '/', '/'), name);
    }
}

/// Where a photo is relocated, its relative path is the image folder followed
/// by the normalized file name, whatever the output directory.
pub proof fn lemma_relocated_relative_path(location: Seq<char>, target: Seq<char>)
    requires
        relocated_location(location, target) is Some,
    ensures
        relative_path_spec(relocated_location(location, target)->0) == Some(
            img_dir() + seq!['/'] + normalize_spec(file_name_spec(location)->0),
        ),
{
    let f = file_name_spec(location)->0;
    lemma_components_plain(location);
    let c = components(location);
    assert(f == c[c.len() - 1]);
    assert forall|j: int| 0 <= j < f.len() implies f[j] != '/' by {
        assert(c[c.len() - 1][j] != '/');
    }
    assert(f.len() > 0 && f != seq!['.']) by {
        lemma_components_nonempty(split_spec(location, '/', '/'));
        assert(c[c.len() - 1] == c.last());
    }
    lemma_normalize_keeps_separator(f);
    let n = normalize_spec(f);
    assert forall|j: int| 0 <= j < n.len() implies n[j] != '/' by {
        assert(n[j] == '/' <==> f[j] == '/');
    }
    if n == seq!['.'] {
        assert(n[0] == '.');
        assert(f =~= seq!['.']);
    }
    if n == seq!['.', '.'] {
        assert(n[0] == '.' && n[1] == '.');
        assert(f =~= seq!['.', '.']);
    }
    let img = img_dir();
    assert(plain_name(img));
    lemma_join_components(target, img);
    let t = join_spec(target, img);
    lemma_join_components(t, n);
    let k = components(join_spec(t, n));
    assert(k[k.len() - 2] == img);
}

/// Every component is non-empty and not `.`.
proof fn lemma_components_nonempty(ps: Seq<Seq<char>>)
    ensures
        forall|i: int|
            0 <= i < keep_components(ps).len() ==> (#[trigger] keep_components(ps)[i]).len() > 0
                && keep_components(ps)[i] != seq!['.'],
    decreases ps.len(),
{
    if ps.len() > 0 {
        let q = ps.drop_last();
        lemma_components_nonempty(q);
        let k = keep_components(ps);
        assert forall|i: int| 0 <= i < k.len() implies (#[trigger] k[i]).len() > 0 && k[i] != seq!['.'] by {
            if i < keep_components(q).len() {
                assert(k[i] == keep_components(q)[i]);
            }
        }
    }
}

/// The components of a path.
fn components_of(s: &Vec<char>) -> (r: Vec<Vec<char>>)
    ensures
        r@.map_values(|v: Vec<char>| v@) == components(s@),
{
    let ps = split_chars(s, '/', '/');
    let ghost pv = ps@.map_values(|v: Vec<char>| v@);
    let mut r: Vec<Vec<char>> = Vec::new();
    let mut i: usize = 0;
    while i < ps.len()
        invariant
            i <= ps@.len(),
            pv == ps@.map_values(|v: Vec<char>| v@),
            pv == split_spec(s@, '/', '/'),
            r@.map_values(|v: Vec<char>| v@) == keep_components(pv.subrange(0, i as int)),
        decreases ps.len() - i,
    {
        assert(pv.subrange(0, i + 1).drop_last() =~= pv.subrange(0, i as int));
        assert(pv[i as int] == ps@[i as int]@);
        let c = &ps[i];
        let is_dot = c.len() == 1 && c[0] == '.';
        proof {
            if c@ == seq!['.'] {
                assert(c@[0] == '.');
            }
            if c@.len() == 1 && c@[0] == '.' {
                assert(c@ =~= seq!['.']);
            }
        }
        if c.len() > 0 && !is_dot {
            let ghost before = r@;
            r.push(c.clone());
            assert(r@.map_values(|v: Vec<char>| v@) =~= before.map_values(|v: Vec<char>| v@).push(
                r@.last()@,
            ));
        }
        i += 1;
    }
    assert(pv.subrange(0, pv.len() as int) =~= pv);
    r
}

/// Whether a component names something (is not `..`).
fn is_name_chars(c: &Vec<char>) -> (r: bool)
    ensures
        r == is_name(c@),
{
    let dots = c.len() == 2 && c[0] == '.' && c[1] == '.';
    proof {
        if c@ == seq!['.', '.'] {
            assert(c@[0] == '.' && c@[1] == '.');
        }
        if dots {
            assert(c@ =~= seq!['.', '.']);
        }
    }
    !dots
}

/// The file name of a path, as `file_name_spec` says.
pub(crate) fn file_name_of(s: &Vec<char>) -> (r: Option<Vec<char>>)
    ensures
        match r {
            Some(f) => file_name_spec(s@) == Some(f@),
            None => file_name_spec(s@) is None,
        },
{
    let cs = components_of(s);
    let n = cs.len();
    if n == 0 {
        return None;
    }
    assert(cs@.map_values(|v: Vec<char>| v@)[n - 1] == cs@[n - 1]@);
    if !is_name_chars(&cs[n - 1]) {
        return None;
    }
    Some(cs[n - 1].clone())
}

fn join_chars(dir: &Vec<char>, name: &Vec<char>) -> (r: Vec<char>)
    ensures
        r@ == join_spec(dir@, name@),
{
    let mut r: Vec<char> = dir.clone();
    if dir.len() > 0 && dir[dir.len() - 1] != '/' {
        r.push('/');
    }
    let mut i: usize = 0;
    let ghost base = r@;
    while i < name.len()
        invariant
            i <= name@.len(),
            r@ == base + name@.subrange(0, i as int),
        decreases name.len() - i,
    {
        r.push(name[i]);
        i += 1;
    }
    assert(name@.subrange(0, name@.len() as int) =~= name@);
    assert(r@ =~= join_spec(dir@, name@));
    r
}

impl Photo {
    /// A photo with the given heading, caption and location.
    pub fn new(heading: String, caption: String, location: String) -> (r: Photo)
        ensures
            r@ == (PhotoView { heading: heading@, caption: caption@, location: location@ }),
    {
        Photo { heading, description: caption, source: location }
    }

    /// The heading as stored.
    pub fn heading(&self) -> (r: String)
        ensures
            r@ == self@.heading,
    {
        self.heading.clone()
    }

    /// The caption as stored.
    pub fn caption(&self) -> (r: String)
        ensures
            r@ == self@.caption,
    {
        self.description.clone()
    }

    /// The current location of the photo file.
    pub fn location(&self) -> (r: String)
        ensures
            r@ == self@.location,
    {
        self.source.clone()
    }

    /// The caption without surrounding whitespace.
    pub fn get_html_escaped_caption(&self) -> (r: String)
        ensures
            r@ == trim_spec(self@.caption),
    {
        trim_str(self.description.as_str())
    }

    /// The heading without surrounding whitespace.
    pub fn get_html_escaped_title(&self) -> (r: String)
        ensures
            r@ == trim_spec(self@.heading),
    {
        trim_str(self.heading.as_str())
    }

    /// The folder name and file name of the location, joined by `/`.
    pub fn get_relative_path(&self) -> (r: Option<String>)
        ensures
            match r {
                Some(p) => relative_path_spec(self@.location) == Some(p@),
                None => relative_path_spec(self@.location) is None,
            },
    {
        let cs = components_of(&chars_of(self.source.as_str()));
        let n = cs.len();
        if n < 2 {
            return None;
        }
        proof {
            assert(cs@.map_values(|v: Vec<char>| v@)[n - 1] == cs@[n - 1]@);
            assert(cs@.map_values(|v: Vec<char>| v@)[n - 2] == cs@[n - 2]@);
        }
        if !is_name_chars(&cs[n - 1]) || !is_name_chars(&cs[n - 2]) {
            return None;
        }
        let mut r = cs[n - 2].clone();
        r.push('/');
        let j = join_chars(&r, &cs[n - 1]);
        assert(j@ =~= cs@[n - 2]@ + seq!['/'] + cs@[n - 1]@);
        Some(string_of(&j))
    }

    /// The same photo stored under `target`: its location becomes
    /// `target/img/<normalized file name>`. None where the location has no
    /// file name. Copying the file itself is up to the caller.
    pub fn relocated_to(&self, target: &str) -> (r: Option<Photo>)
        ensures
            match r {
                Some(p) => relocated_location(self@.location, target@) == Some(p@.location)
                    && p@.heading == self@.heading && p@.caption == self@.caption,
                None => relocated_location(self@.location, target@) is None,
            },
    {
        let f = match file_name_of(&chars_of(self.source.as_str())) {
            Some(f) => f,
            None => {
                return None;
            },
        };
        let n = chars_of(normalize_filename(string_of(&f).as_str()).as_str());
        let img = chars_of("img");
        proof {
            reveal_strlit("img");
            assert(img@ =~= img_dir());
        }
        let dir = join_chars(&chars_of(target), &img);
        let loc = join_chars(&dir, &n);
        Some(Photo {
            heading: self.heading.clone(),
            description: self.description.clone(),
            source: string_of(&loc),
        })
    }

    /// Appends the photo's image reference line to `out`.
    pub fn print_markdown(&self, out: &mut String) -> (r: Result<(), MarkupError>)
        ensures
            r is Ok <==> relative_path_spec(self@.location) is Some,
            r is Ok ==> final(out)@ == old(out)@ + image_line(relative_path_spec(self@.location)->0),
    {
        match self.get_relative_path() {
            Some(p) => {
                out.append("![Missing Image: ");
                out.append(p.as_str());
                out.append("](");
                out.append(p.as_str());
                out.append(")\n");
                assert(final(out)@ =~= old(out)@ + image_line(p@));
                Ok(())
            },
            None => Err(MarkupError::MissingPathComponent),
        }
    }
}

} // verus!
