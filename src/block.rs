//! A layout block of the album: one of the five kinds of container.

use vstd::prelude::*;
use crate::container::{
    four_markup, relocatable, relocated_photo, single_markup, three_markup, two_markup,
    FourPhotosTwoByTwo, SinglePhoto, ThreePhotos, TwoPhotos,
};
use crate::marker::{marker_markup, MarkerView, TagMarker};
use crate::markup::renders;
use crate::normalize::normalize_spec;
use crate::photo::{
    file_name_spec, img_dir, lemma_relocated_relative_path, relative_path_spec, MarkupError, Photo,
    PhotoView,
};

verus! {

/// A block as plain values: the photos of a photo block, in order, or a marker.
pub enum BlockView {
    Single(PhotoView),
    Two(PhotoView, PhotoView),
    Three(PhotoView, PhotoView, PhotoView),
    Four(PhotoView, PhotoView, PhotoView, PhotoView),
    Marker(MarkerView),
}

/// The photos that a block holds, in order.
pub open spec fn block_photos(b: BlockView) -> Seq<PhotoView> {
    match b {
        BlockView::Single(p) => seq![p],
        BlockView::Two(q1, q2) => seq![q1, q2],
        BlockView::Three(q1, q2, q3) => seq![q1, q2, q3],
        BlockView::Four(q1, q2, q3, q4) => seq![q1, q2, q3, q4],
        BlockView::Marker(m) => match m.photo {
            Some(p) => seq![p],
            None => Seq::empty(),
        },
    }
}

/// Whether every photo of a block can be rendered.
pub open spec fn block_renders(b: BlockView) -> bool {
    forall|i: int| 0 <= i < block_photos(b).len() ==> renders(#[trigger] block_photos(b)[i])
}

/// The markup of a block.
pub open spec fn block_markup(b: BlockView) -> Seq<char> {
    match b {
        BlockView::Single(p) => single_markup(p),
        BlockView::Two(q1, q2) => two_markup(q1, q2),
        BlockView::Three(q1, q2, q3) => three_markup(q1, q2, q3),
        BlockView::Four(q1, q2, q3, q4) => four_markup(q1, q2, q3, q4),
        BlockView::Marker(m) => marker_markup(m),
    }
}

/// `c` is the block `b` with each of its photos stored under `target`: the
/// same kind, the same photos in the same order, only their locations changed.
pub open spec fn relocated_block(b: BlockView, target: Seq<char>, c: BlockView) -> bool {
    &&& block_photos(c).len() == block_photos(b).len()
    &&& forall|i: int|
        0 <= i < block_photos(b).len() ==> relocated_photo(
            #[trigger] block_photos(b)[i],
            target,
            block_photos(c)[i],
        )
    &&& match (b, c) {
        (BlockView::Single(..), BlockView::Single(..)) => true,
        (BlockView::Two(..), BlockView::Two(..)) => true,
        (BlockView::Three(..), BlockView::Three(..)) => true,
        (BlockView::Four(..), BlockView::Four(..)) => true,
        (BlockView::Marker(m), BlockView::Marker(n)) => m.title == n.title && m.fields == n.fields,
        _ => false,
    }
}

/// A layout block of the album.
pub enum PhotoContainer {
    Single(SinglePhoto),
    Two(TwoPhotos),
    Three(ThreePhotos),
    Four(FourPhotosTwoByTwo),
    Marker(TagMarker),
}

impl View for PhotoContainer {
    type V = BlockView;

    open spec fn view(&self) -> BlockView {
        match self {
            PhotoContainer::Single(c) => BlockView::Single(c@),
            PhotoContainer::Two(c) => BlockView::Two(c@.0, c@.1),
            PhotoContainer::Three(c) => BlockView::Three(c@.0, c@.1, c@.2),
            PhotoContainer::Four(c) => BlockView::Four(c@.0, c@.1, c@.2, c@.3),
            PhotoContainer::Marker(c) => BlockView::Marker(c@),
        }
    }
}

/// After a block is relocated, each of its photos renders as a reference to
/// `img/<normalized file name>`, relative to the album page.
pub proof fn lemma_relocated_block_references(b: BlockView, target: Seq<char>, c: BlockView)
    requires
        relocated_block(b, target, c),
    ensures
        block_renders(c),
        forall|i: int|
            0 <= i < block_photos(c).len() ==> relative_path_spec(
                #[trigger] block_photos(c)[i].location,
            ) == Some(img_dir() + seq!['/'] + normalize_spec(file_name_spec(block_photos(b)[i].location)->0)),
{
    assert forall|i: int| 0 <= i < block_photos(c).len() implies relative_path_spec(
        #[trigger] block_photos(c)[i].location,
    ) == Some(img_dir() + seq!['/'] + normalize_spec(file_name_spec(block_photos(b)[i].location)->0)) by {
        assert(relocated_photo(block_photos(b)[i], target, block_photos(c)[i]));
        lemma_relocated_relative_path(block_photos(b)[i].location, target);
    }
    assert forall|i: int| 0 <= i < block_photos(c).len() implies renders(#[trigger] block_photos(c)[i]) by {
        assert(relative_path_spec(block_photos(c)[i].location) is Some);
    }
}

impl PhotoContainer {
    /// Appends the block's markup to `out`; fails where one of its photos
    /// cannot be rendered.
    pub fn print_markdown(&self, out: &mut String) -> (r: Result<(), MarkupError>)
        ensures
            r is Ok <==> block_renders(self@),
            r is Ok ==> final(out)@ == old(out)@ + block_markup(self@),
    {
        match self {
            PhotoContainer::Single(c) => {
                assert(block_photos(self@)[0] == c@);
                c.print_markdown(out)
            },
            PhotoContainer::Two(c) => {
                assert(block_photos(self@)[0] == c@.0 && block_photos(self@)[1] == c@.1);
                c.print_markdown(out)
            },
            PhotoContainer::Three(c) => {
                assert(block_photos(self@)[0] == c@.0 && block_photos(self@)[1] == c@.1 && block_photos(self@)[2] == c@.2);
                c.print_markdown(out)
            },
            PhotoContainer::Four(c) => {
                assert(block_photos(self@)[0] == c@.0 && block_photos(self@)[1] == c@.1 && block_photos(self@)[2] == c@.2 && block_photos(self@)[3] == c@.3);
                c.print_markdown(out)
            },
            PhotoContainer::Marker(c) => {
                proof {
                    if c@.photo is Some {
                        assert(block_photos(self@)[0] == c@.photo->0);
                    }
                }
                c.print_markdown(out)
            },
        }
    }

    /// The same block with every photo stored under `target`, in order; none
    /// where one of them has no file name. Copying the files is up to the
    /// caller.
    pub fn relocated_to(&self, target: &str) -> (r: Option<PhotoContainer>)
        ensures
            r is Some <==> forall|i: int|
                0 <= i < block_photos(self@).len() ==> relocatable(#[trigger] block_photos(self@)[i]),
            r matches Some(c) ==> relocated_block(self@, target@, c@),
    {
        match self {
            PhotoContainer::Single(c) => {
                assert(block_photos(self@)[0] == c@);
                match c.relocated_to(target) {
                    Some(d) => {
                        Some(PhotoContainer::Single(d))
                    },
                    None => None,
                }
            },
            PhotoContainer::Two(c) => {
                assert(block_photos(self@)[0] == c@.0 && block_photos(self@)[1] == c@.1);
                match c.relocated_to(target) {
                    Some(d) => {
                        Some(PhotoContainer::Two(d))
                    },
                    None => None,
                }
            },
            PhotoContainer::Three(c) => {
                assert(block_photos(self@)[0] == c@.0 && block_photos(self@)[1] == c@.1 && block_photos(self@)[2] == c@.2);
                match c.relocated_to(target) {
                    Some(d) => {
                        Some(PhotoContainer::Three(d))
                    },
                    None => None,
                }
            },
            PhotoContainer::Four(c) => {
                assert(block_photos(self@)[0] == c@.0 && block_photos(self@)[1] == c@.1 && block_photos(self@)[2] == c@.2 && block_photos(self@)[3] == c@.3);
                match c.relocated_to(target) {
                    Some(d) => {
                        Some(PhotoContainer::Four(d))
                    },
                    None => None,
                }
            },
            PhotoContainer::Marker(c) => {
                proof {
                    if c@.photo is Some {
                        assert(block_photos(self@)[0] == c@.photo->0);
                    }
                }
                match c.relocated_to(target) {
                    Some(d) => Some(PhotoContainer::Marker(d)),
                    None => None,
                }
            },
        }
    }

    /// The block's photos, in order.
    pub fn photos(&self) -> (r: Vec<Photo>)
        ensures
            r@.map_values(|p: Photo| p@) == block_photos(self@),
    {
        match self {
            PhotoContainer::Single(c) => c.photos(),
            PhotoContainer::Two(c) => c.photos(),
            PhotoContainer::Three(c) => c.photos(),
            PhotoContainer::Four(c) => c.photos(),
            PhotoContainer::Marker(c) => c.photos(),
        }
    }
}

} // verus!
