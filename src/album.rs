//! The album: the photos in input order, grouped once into layout blocks.

use vstd::prelude::*;
use vstd::string::*;
use crate::block::{block_markup, block_photos, block_renders, BlockView, PhotoContainer};
use crate::container::{FourPhotosTwoByTwo, SinglePhoto, ThreePhotos, TwoPhotos};
use crate::marker::{caption_fields, MarkerView, TagMarker};
use crate::photo::{MarkupError, Photo, PhotoView};
use crate::text::{
    chars_of, eq_str, first_word, first_word_chars, lower_of, lowercase, split_chars, split_spec,
    string_of, trim_chars, trim_spec,
};

verus! {

/// Whether a caption key makes a photo a chapter marker.
pub open spec fn is_marker_key(k: Seq<char>) -> bool {
    k == "gpx"@ || k == "distance"@ || k == "time"@
}

/// Whether the first word of a heading, in lower case, makes a photo a
/// chapter marker.
pub open spec fn is_marker_word(w: Seq<char>) -> bool {
    w == "tag"@ || w == "day"@ || w == "chapter"@
}

/// The key of a caption line: the text before its first `:`, trimmed and
/// lowercased.
pub open spec fn line_key(line: Seq<char>) -> Seq<char> {
    lower_of(trim_spec(split_spec(line, ':', ':')[0]))
}

/// Some line of the trimmed caption, split at `\n`, has a marker key.
pub open spec fn caption_marks(caption: Seq<char>) -> bool {
    let lines = split_spec(trim_spec(caption), '\n', '\n');
    exists|i: int| 0 <= i < lines.len() && is_marker_key(#[trigger] line_key(lines[i]))
}

/// The first word of the trimmed heading (up to the first whitespace
/// character), lowercased, is `tag`, `day` or `chapter`.
pub open spec fn heading_marks(heading: Seq<char>) -> bool {
    is_marker_word(lower_of(first_word(trim_spec(heading))))
}

/// Whether a photo without pending separators is a chapter marker.
pub open spec fn is_marker_spec(p: PhotoView) -> bool {
    caption_marks(p.caption) || heading_marks(p.heading)
}

/// A separator: a photo whose trimmed heading is exactly `/`.
pub open spec fn is_separator(p: PhotoView) -> bool {
    trim_spec(p.heading) == seq!['/']
}

/// The marker that a photo becomes.
pub open spec fn marker_of(p: PhotoView) -> MarkerView {
    MarkerView { photo: Some(p), title: trim_spec(p.heading), fields: caption_fields(p.caption) }
}

/// What grouping reports besides the blocks.
#[derive(Debug, PartialEq, Eq, Structural)]
pub enum GroupingIssue {
    /// A content photo came after this many separators, more than a block
    /// holds; those photos were dropped.
    UnsupportedImageCount(usize),
    /// The photos ended with this many separators and no content photo; they
    /// were dropped.
    LeftoverSeparators(usize),
}

/// The state of grouping after some photos: the pending separators, the
/// blocks made so far and the issues met.
pub struct GroupState {
    pub stack: Seq<PhotoView>,
    pub blocks: Seq<BlockView>,
    pub issues: Seq<GroupingIssue>,
}

/// The block that a content photo `p` closes, with the pending separators
/// `stack`; none where there are more than three of them.
pub open spec fn close_block(stack: Seq<PhotoView>, p: PhotoView) -> Option<BlockView> {
    if stack.len() == 0 {
        if is_marker_spec(p) {
            Some(BlockView::Marker(marker_of(p)))
        } else {
            Some(BlockView::Single(p))
        }
    } else if stack.len() == 1 {
        Some(BlockView::Two(stack[0], p))
    } else if stack.len() == 2 {
        Some(BlockView::Three(stack[0], stack[1], p))
    } else if stack.len() == 3 {
        Some(BlockView::Four(stack[0], stack[1], stack[2], p))
    } else {
        None
    }
}

/// One photo of grouping: a separator is pushed; a content photo closes the
/// pending run into a block, or into an issue where the run is too long, and
/// empties the stack.
pub open spec fn group_step(s: GroupState, p: PhotoView) -> GroupState {
    if is_separator(p) {
        GroupState { stack: s.stack.push(p), ..s }
    } else {
        match close_block(s.stack, p) {
            Some(b) => GroupState { stack: Seq::empty(), blocks: s.blocks.push(b), issues: s.issues },
            None => GroupState {
                stack: Seq::empty(),
                blocks: s.blocks,
                issues: s.issues.push(GroupingIssue::UnsupportedImageCount(s.stack.len() as usize)),
            },
        }
    }
}

/// The state after grouping `ps` from first to last.
pub open spec fn group_state(ps: Seq<PhotoView>) -> GroupState
    decreases ps.len(),
{
    if ps.len() == 0 {
        GroupState { stack: Seq::empty(), blocks: Seq::empty(), issues: Seq::empty() }
    } else {
        group_step(group_state(ps.drop_last()), ps.last())
    }
}

/// The issues of a whole grouping pass, with the separators left at the end.
pub open spec fn group_issues(ps: Seq<PhotoView>) -> Seq<GroupingIssue> {
    let s = group_state(ps);
    if s.stack.len() == 0 {
        s.issues
    } else {
        s.issues.push(GroupingIssue::LeftoverSeparators(s.stack.len() as usize))
    }
}

/// The album as plain values.
pub struct AlbumView {
    pub photos: Seq<PhotoView>,
    pub collected: Option<Seq<BlockView>>,
}

/// The page title line and the markup of each block, in order.
pub open spec fn album_markup(blocks: Seq<BlockView>) -> Seq<char>
    decreases blocks.len(),
{
    if blocks.len() == 0 {
        "# Test-Album\n\n"@
    } else {
        album_markup(blocks.drop_last()) + block_markup(blocks.last())
    }
}

pub struct Album {
    photos: Vec<Photo>,
    collected_photos: Option<Vec<PhotoContainer>>,
}

pub open spec fn photo_views(v: Seq<Photo>) -> Seq<PhotoView> {
    v.map_values(|p: Photo| p@)
}

pub open spec fn block_views(v: Seq<PhotoContainer>) -> Seq<BlockView> {
    v.map_values(|c: PhotoContainer| c@)
}

impl View for Album {
    type V = AlbumView;

    closed spec fn view(&self) -> AlbumView {
        AlbumView {
            photos: photo_views(self.photos@),
            collected: match self.collected_photos {
                Some(v) => Some(block_views(v@)),
                None => None,
            },
        }
    }
}


/// The kind of a block: the number of photos of a photo block, 0 for a marker.
pub open spec fn block_shape(b: BlockView) -> int {
    match b {
        BlockView::Single(..) => 1,
        BlockView::Two(..) => 2,
        BlockView::Three(..) => 3,
        BlockView::Four(..) => 4,
        BlockView::Marker(..) => 0,
    }
}

/// The heading and caption of each photo, in order.
pub open spec fn tags_of(ps: Seq<PhotoView>) -> Seq<(Seq<char>, Seq<char>)> {
    ps.map_values(|p: PhotoView| (p.heading, p.caption))
}

/// Two groupings agree in everything but the photos' locations.
pub open spec fn same_grouping(x: GroupState, y: GroupState) -> bool {
    &&& tags_of(x.stack) == tags_of(y.stack)
    &&& x.stack.len() == y.stack.len()
    &&& x.blocks.len() == y.blocks.len()
    &&& forall|i: int|
        0 <= i < x.blocks.len() ==> block_shape(#[trigger] x.blocks[i]) == block_shape(y.blocks[i])
            && tags_of(block_photos(x.blocks[i])) == tags_of(block_photos(y.blocks[i]))
    &&& x.issues == y.issues
}

proof fn lemma_close_block_tags(sa: Seq<PhotoView>, p: PhotoView, sb: Seq<PhotoView>, q: PhotoView)
    requires
        sa.len() == sb.len(),
        tags_of(sa) == tags_of(sb),
        p.heading == q.heading && p.caption == q.caption,
    ensures
        close_block(sa, p) is Some <==> close_block(sb, q) is Some,
        close_block(sa, p) is Some ==> block_shape(close_block(sa, p)->0) == block_shape(
            close_block(sb, q)->0,
        ) && tags_of(block_photos(close_block(sa, p)->0)) == tags_of(
            block_photos(close_block(sb, q)->0),
        ),
{
    assert forall|i: int| 0 <= i < sa.len() implies sa[i].heading == sb[i].heading && sa[i].caption
        == sb[i].caption by {
        assert(tags_of(sa)[i] == tags_of(sb)[i]);
    }
    if close_block(sa, p) is Some {
        assert(tags_of(block_photos(close_block(sa, p)->0)) =~= tags_of(
            block_photos(close_block(sb, q)->0),
        ));
    }
}

/// Grouping is a function of the photos' headings and captions in their
/// order: two photo sequences that agree in those give blocks of the same
/// kinds, each holding photos with the same headings and captions in the same
/// order, and the same issues. Locations play no part.
pub proof fn lemma_grouping_by_tags(a: Seq<PhotoView>, b: Seq<PhotoView>)
    requires
        tags_of(a) == tags_of(b),
    ensures
        same_grouping(group_state(a), group_state(b)),
        group_issues(a) == group_issues(b),
    decreases a.len(),
{
    assert(a.len() == tags_of(a).len() && b.len() == tags_of(b).len());
    if a.len() > 0 {
        assert(tags_of(a.drop_last()) =~= tags_of(a).drop_last());
        assert(tags_of(b.drop_last()) =~= tags_of(b).drop_last());
        lemma_grouping_by_tags(a.drop_last(), b.drop_last());
        let x = group_state(a.drop_last());
        let y = group_state(b.drop_last());
        let p = a.last();
        let q = b.last();
        assert(tags_of(a)[a.len() - 1] == tags_of(b)[b.len() - 1]);
        if is_separator(p) {
            assert(tags_of(x.stack.push(p)) =~= tags_of(x.stack).push((p.heading, p.caption)));
            assert(tags_of(y.stack.push(q)) =~= tags_of(y.stack).push((q.heading, q.caption)));
        } else {
            lemma_close_block_tags(x.stack, p, y.stack, q);
            assert(tags_of(Seq::<PhotoView>::empty()) =~= Seq::empty());
        }
    } else {
        assert(tags_of(group_state(a).stack) =~= tags_of(group_state(b).stack));
    }
}

/// Whether a caption key, in lower case, makes a photo a chapter marker.
pub fn marks_by_key(key: &str) -> (r: bool)
    ensures
        r == is_marker_key(key@),
{
    let k = chars_of(key);
    eq_str(&k, "gpx") || eq_str(&k, "distance") || eq_str(&k, "time")
}

/// Whether the first word of a heading, in lower case, makes a photo a
/// chapter marker.
pub fn marks_by_word(word: &str) -> (r: bool)
    ensures
        r == is_marker_word(word@),
{
    let w = chars_of(word);
    eq_str(&w, "tag") || eq_str(&w, "day") || eq_str(&w, "chapter")
}

/// The block that a content photo closes, as `close_block` says.
fn close_run(stack: &Vec<Photo>, p: Photo) -> (r: Option<PhotoContainer>)
    ensures
        match r {
            Some(c) => close_block(photo_views(stack@), p@) == Some(c@),
            None => close_block(photo_views(stack@), p@) is None,
        },
{
    let n = stack.len();
    if n == 0 {
        if Album::is_tag_marker(&p) {
            Some(PhotoContainer::Marker(TagMarker::new(p)))
        } else {
            Some(PhotoContainer::Single(SinglePhoto::new(p)))
        }
    } else if n == 1 {
        Some(PhotoContainer::Two(TwoPhotos::new(stack[0].clone(), p)))
    } else if n == 2 {
        Some(PhotoContainer::Three(ThreePhotos::new(stack[0].clone(), stack[1].clone(), p)))
    } else if n == 3 {
        Some(
            PhotoContainer::Four(
                FourPhotosTwoByTwo::new(stack[0].clone(), stack[1].clone(), stack[2].clone(), p),
            ),
        )
    } else {
        None
    }
}

/// Block `k` is the first of `bv` that cannot be rendered.
pub open spec fn first_failing(bv: Seq<BlockView>, k: int) -> bool {
    &&& !block_renders(bv[k])
    &&& forall|j: int| 0 <= j < k ==> block_renders(#[trigger] bv[j])
}

/// Appends the page for `blocks` to `out`: a title line, then every block in
/// order. Fails at the first block that cannot be rendered: `out` then holds
/// the title and the blocks before it, and nothing of that block or later ones.
pub fn print_page(blocks: &Vec<PhotoContainer>, out: &mut String) -> (r: Result<(), MarkupError>)
    ensures
        r is Ok <==> forall|i: int|
            0 <= i < blocks@.len() ==> block_renders(#[trigger] block_views(blocks@)[i]),
        r is Ok ==> final(out)@ == old(out)@ + album_markup(block_views(blocks@)),
        r is Err ==> exists|k: int|
            0 <= k < blocks@.len() && first_failing(block_views(blocks@), k) && final(out)@ == old(out)@
                + album_markup(block_views(blocks@).subrange(0, k)),
{
    let ghost bv = block_views(blocks@);
    out.append("# Test-Album\n\n");
    assert(bv.subrange(0, 0) =~= Seq::<BlockView>::empty());
    let mut i: usize = 0;
    while i < blocks.len()
        invariant
            i <= blocks@.len(),
            bv == block_views(blocks@),
            out@ == old(out)@ + album_markup(bv.subrange(0, i as int)),
            forall|j: int| 0 <= j < i ==> block_renders(#[trigger] bv[j]),
        decreases blocks.len() - i,
    {
        proof {
            assert(bv.subrange(0, i + 1).drop_last() =~= bv.subrange(0, i as int));
            assert(bv[i as int] == blocks@[i as int]@);
        }
        let mut piece = String::new();
        match blocks[i].print_markdown(&mut piece) {
            Ok(()) => {},
            Err(e) => {
                assert(!block_renders(bv[i as int]));
                assert(first_failing(bv, i as int));
                return Err(e);
            },
        }
        out.append(piece.as_str());
        assert(out@ =~= old(out)@ + album_markup(bv.subrange(0, i + 1)));
        i += 1;
    }
    assert(bv.subrange(0, bv.len() as int) =~= bv);
    Ok(())
}

impl Album {
    /// An ungrouped album of `photos`, in the given order.
    pub fn new(photos: Vec<Photo>) -> (r: Album)
        ensures
            r@ == (AlbumView { photos: photo_views(photos@), collected: None }),
    {
        Album { photos, collected_photos: None }
    }

    /// The photos not grouped yet, in order.
    pub fn photos(&self) -> (r: Vec<Photo>)
        ensures
            photo_views(r@) == self@.photos,
    {
        let mut r: Vec<Photo> = Vec::new();
        let mut i: usize = 0;
        while i < self.photos.len()
            invariant
                i <= self.photos@.len(),
                r@.len() == i,
                forall|j: int| 0 <= j < i ==> #[trigger] r@[j]@ == self.photos@[j]@,
            decreases self.photos.len() - i,
        {
            r.push(self.photos[i].clone());
            i += 1;
        }
        assert(photo_views(r@) =~= photo_views(self.photos@));
        r
    }

    /// Replaces the photo at index `i`, as after storing it elsewhere.
    pub fn replace_photo(&mut self, i: usize, p: Photo)
        requires
            i < old(self)@.photos.len(),
        ensures
            final(self)@ == (AlbumView { photos: old(self)@.photos.update(i as int, p@), ..old(self)@ }),
    {
        let ghost pv = p@;
        self.photos.set(i, p);
        assert(photo_views(self.photos@) =~= photo_views(old(self).photos@).update(i as int, pv));
    }

    /// The blocks made so far; none before grouping.
    pub fn collected(&self) -> (r: Option<&Vec<PhotoContainer>>)
        ensures
            match r {
                Some(v) => self@.collected == Some(block_views(v@)),
                None => self@.collected is None,
            },
    {
        match &self.collected_photos {
            Some(v) => Some(v),
            None => None,
        }
    }

    /// Whether a photo that closes no run of separators is a chapter marker:
    /// a line of its caption has the key `gpx`, `distance` or `time`, or the
    /// first word of its heading is `tag`, `day` or `chapter`.
    pub fn is_tag_marker(photo: &Photo) -> (r: bool)
        ensures
            r == is_marker_spec(photo@),
    {
        let caption = chars_of(photo.get_html_escaped_caption().as_str());
        let lines = split_chars(&caption, '\n', '\n');
        let ghost lv = lines@.map_values(|v: Vec<char>| v@);
        let mut i: usize = 0;
        while i < lines.len()
            invariant
                i <= lines@.len(),
                lv == lines@.map_values(|v: Vec<char>| v@),
                lv == split_spec(trim_spec(photo@.caption), '\n', '\n'),
                forall|j: int| 0 <= j < i ==> !is_marker_key(#[trigger] line_key(lv[j])),
            decreases lines.len() - i,
        {
            let parts = split_chars(&lines[i], ':', ':');
            proof {
                assert(lv[i as int] == lines@[i as int]@);
                assert(parts@.map_values(|v: Vec<char>| v@)[0] == parts@[0]@);
            }
            let key = string_of(&lowercase(&trim_chars(&parts[0])));
            if marks_by_key(key.as_str()) {
                assert(is_marker_key(line_key(lv[i as int])));
                return true;
            }
            i += 1;
        }
        let title = chars_of(photo.get_html_escaped_title().as_str());
        let w = string_of(&lowercase(&first_word_chars(&title)));
        marks_by_word(w.as_str())
    }

    /// Groups the photos into blocks, in one pass from first to last (see
    /// `group_step`), and appends the blocks to those made before. The photo
    /// list is emptied. Returns what the pass reports: runs of separators too
    /// long for a block, and separators left at the end.
    pub fn collect_photos(&mut self) -> (issues: Vec<GroupingIssue>)
        ensures
            final(self)@.photos == Seq::<PhotoView>::empty(),
            final(self)@.collected == Some(
                match old(self)@.collected {
                    Some(b) => b,
                    None => Seq::empty(),
                } + group_state(old(self)@.photos).blocks,
            ),
            issues@ == group_issues(old(self)@.photos),
    {
        let mut collected: Vec<PhotoContainer> = match self.collected_photos.take() {
            Some(v) => v,
            None => Vec::new(),
        };
        let ghost base = block_views(collected@);
        assert(base == match old(self)@.collected {
            Some(b) => b,
            None => Seq::<BlockView>::empty(),
        });
        let mut photos: Vec<Photo> = Vec::new();
        core::mem::swap(&mut photos, &mut self.photos);
        let ghost pv = photo_views(photos@);
        let mut stack: Vec<Photo> = Vec::new();
        let mut issues: Vec<GroupingIssue> = Vec::new();
        let mut i: usize = 0;
        while i < photos.len()
            invariant
                i <= photos@.len(),
                pv == photo_views(photos@),
                photo_views(stack@) == group_state(pv.subrange(0, i as int)).stack,
                block_views(collected@) == base + group_state(pv.subrange(0, i as int)).blocks,
                issues@ == group_state(pv.subrange(0, i as int)).issues,
            decreases photos.len() - i,
        {
            proof {
                assert(pv.subrange(0, i + 1).drop_last() =~= pv.subrange(0, i as int));
                assert(pv.subrange(0, i + 1).last() == photos@[i as int]@);
            }
            let p = photos[i].clone();
            let title = chars_of(p.get_html_escaped_title().as_str());
            proof {
                reveal_strlit("/");
                assert("/"@ =~= seq!['/']);
            }
            if eq_str(&title, "/") {
                let ghost before = stack@;
                stack.push(p);
                assert(photo_views(stack@) =~= photo_views(before).push(p@));
            } else {
                let n = stack.len();
                match close_run(&stack, p) {
                    Some(c) => {
                        let ghost before = collected@;
                        collected.push(c);
                        assert(block_views(collected@) =~= block_views(before).push(c@));
                    },
                    None => {
                        issues.push(GroupingIssue::UnsupportedImageCount(n));
                    },
                }
                stack.clear();
                assert(photo_views(stack@) =~= Seq::<PhotoView>::empty());
            }
            i += 1;
        }
        assert(pv.subrange(0, pv.len() as int) =~= pv);
        if stack.len() > 0 {
            issues.push(GroupingIssue::LeftoverSeparators(stack.len()));
        }
        self.collected_photos = Some(collected);
        assert(photo_views(self.photos@) =~= Seq::<PhotoView>::empty());
        issues
    }

    /// Appends the album page to `out`: a title line, then every block in
    /// order. Fails at the first block that cannot be rendered, with `out`
    /// holding the title and the blocks before it. The album must have been
    /// grouped.
    pub fn print_markdown(&self, out: &mut String) -> (r: Result<(), MarkupError>)
        requires
            self@.collected is Some,
        ensures
            r is Ok <==> forall|i: int|
                0 <= i < self@.collected->0.len() ==> block_renders(#[trigger] self@.collected->0[i]),
            r is Ok ==> final(out)@ == old(out)@ + album_markup(self@.collected->0),
            r is Err ==> exists|k: int|
                0 <= k < self@.collected->0.len() && first_failing(self@.collected->0, k) && final(out)@
                    == old(out)@ + album_markup(self@.collected->0.subrange(0, k)),
    {
        match &self.collected_photos {
            Some(v) => {
                assert(self@.collected->0 == block_views(v@));
                print_page(v, out)
            },
            None => Err(MarkupError::MissingPathComponent),
        }
    }
}

} // verus!
