//! Blocks of one to four photos that share one heading and caption, those of
//! the last photo.

use vstd::prelude::*;
use vstd::string::*;
use crate::markup::{
    caption_block, image_div, image_text, renders, write_caption_block, write_image_div,
    write_image_text,
};
use crate::photo::{file_name_spec, image_line, relocated_location, MarkupError, Photo, PhotoView};

verus! {

/// The caption opener of a single full-page photo.
pub open spec fn full_caption_open() -> Seq<char> {
    "<div class=\"textblock fullsizetext\">\n"@
}

/// The caption opener of a block of several photos.
pub open spec fn multi_caption_open() -> Seq<char> {
    "<div class=\"textblock fullsizetext forimage\">\n"@
}

/// The end of a block of several photos, captioned by `last`.
pub open spec fn multi_tail(last: PhotoView) -> Seq<char> {
    "</div>\n"@ + image_text(last) + "</div>\n"@ + "\n"@ + caption_block(multi_caption_open(), last)
}

/// The markup of a single full-page photo.
pub open spec fn single_markup(p: PhotoView) -> Seq<char> {
    "<div class=\"imageblock fullsize\">\n"@ + "<div class=\"image\">\n"@ + "\n"@ + image_line(
        crate::markup::rel(p),
    ) + "\n"@ + image_text(p) + "</div>\n"@ + "</div>\n"@ + "\n"@ + caption_block(
        full_caption_open(),
        p,
    )
}

/// The markup of two photos side by side.
pub open spec fn two_markup(q1: PhotoView, q2: PhotoView) -> Seq<char> {
    "<div class=\"imageblock multirow twoimages\">\n"@ + "<div class=\"imagerow\">\n"@ + image_div(q1)
        + image_div(q2) + multi_tail(q2)
}

/// The markup of three photos in one row.
pub open spec fn three_markup(q1: PhotoView, q2: PhotoView, q3: PhotoView) -> Seq<char> {
    "<div class=\"imageblock multirow threeimages\">\n"@ + "<div class=\"imagerow\">\n"@ + image_div(
        q1,
    ) + image_div(q2) + image_div(q3) + multi_tail(q3)
}

/// The markup of four photos in two rows of two.
pub open spec fn four_markup(q1: PhotoView, q2: PhotoView, q3: PhotoView, q4: PhotoView) -> Seq<
    char,
> {
    "<div class=\"imageblock multirow twoimages\">\n"@ + "<div class=\"imagerow\">\n"@ + image_div(q1)
        + image_div(q2) + "</div>\n"@ + "<div class=\"imagerow\">\n"@ + image_div(q3) + image_div(q4)
        + multi_tail(q4)
}

/// `q` is `p` stored under `target`.
pub open spec fn relocated_photo(p: PhotoView, target: Seq<char>, q: PhotoView) -> bool {
    relocated_location(p.location, target) == Some(q.location) && q.heading == p.heading
        && q.caption == p.caption
}

/// Whether `p` can be stored under an output directory.
pub open spec fn relocatable(p: PhotoView) -> bool {
    file_name_spec(p.location) is Some
}

/// Appends the end of a block of several photos.
fn write_multi_tail(out: &mut String, last: &Photo)
    ensures
        final(out)@ == old(out)@ + multi_tail(last@),
{
    let ghost start = out@;
    out.append("</div>\n");
    write_image_text(out, last);
    out.append("</div>\n");
    out.append("\n");
    write_caption_block(out, "<div class=\"textblock fullsizetext forimage\">\n", last);
    assert(final(out)@ =~= start + multi_tail(last@));
}

/// One photo over the full page.
pub struct SinglePhoto {
    photo: Photo,
}

/// Two photos side by side.
pub struct TwoPhotos {
    photo1: Photo,
    photo2: Photo,
}

/// Three photos in one row.
pub struct ThreePhotos {
    photo1: Photo,
    photo2: Photo,
    photo3: Photo,
}

/// Four photos in two rows of two.
pub struct FourPhotosTwoByTwo {
    photo1: Photo,
    photo2: Photo,
    photo3: Photo,
    photo4: Photo,
}

impl View for SinglePhoto {
    type V = PhotoView;

    closed spec fn view(&self) -> PhotoView {
        self.photo@
    }
}

impl View for TwoPhotos {
    type V = (PhotoView, PhotoView);

    closed spec fn view(&self) -> (PhotoView, PhotoView) {
        (self.photo1@, self.photo2@)
    }
}

impl View for ThreePhotos {
    type V = (PhotoView, PhotoView, PhotoView);

    closed spec fn view(&self) -> (PhotoView, PhotoView, PhotoView) {
        (self.photo1@, self.photo2@, self.photo3@)
    }
}

impl View for FourPhotosTwoByTwo {
    type V = (PhotoView, PhotoView, PhotoView, PhotoView);

    closed spec fn view(&self) -> (PhotoView, PhotoView, PhotoView, PhotoView) {
        (self.photo1@, self.photo2@, self.photo3@, self.photo4@)
    }
}


impl SinglePhoto {
    pub fn new(photo: Photo) -> (r: Self)
        ensures
            r@ == photo@,
    {
        Self { photo }
    }

    /// Appends the block's markup to `out`.
    pub fn print_markdown(&self, out: &mut String) -> (r: Result<(), MarkupError>)
        ensures
            r is Ok <==> renders(self@),
            r is Ok ==> final(out)@ == old(out)@ + single_markup(self@),
    {
        let ghost start = out@;
        out.append("<div class=\"imageblock fullsize\">\n");
        out.append("<div class=\"image\">\n");
        out.append("\n");
        match self.photo.print_markdown(out) {
            Ok(()) => {},
            Err(e) => {
                return Err(e);
            },
        }
        out.append("\n");
        write_image_text(out, &self.photo);
        out.append("</div>\n");
        out.append("</div>\n");
        out.append("\n");
        write_caption_block(out, "<div class=\"textblock fullsizetext\">\n", &self.photo);
        assert(final(out)@ =~= start + single_markup(self@));
        Ok(())
    }

    /// The same block with its photo stored under `target`; none where the
    /// photo has no file name.
    pub fn relocated_to(&self, target: &str) -> (r: Option<Self>)
        ensures
            r is Some <==> relocatable(self@),
            r matches Some(c) ==> relocated_photo(self@, target@, c@),
    {
        match self.photo.relocated_to(target) {
            Some(p) => Some(SinglePhoto::new(p)),
            None => None,
        }
    }

    /// The block's photos, in order.
    pub fn photos(&self) -> (r: Vec<Photo>)
        ensures
            r@.map_values(|p: Photo| p@) == seq![self@],
    {
        let r = vec![self.photo.clone()];
        assert(r@.map_values(|p: Photo| p@) =~= seq![self@]);
        r
    }
}

impl TwoPhotos {
    pub fn new(photo1: Photo, photo2: Photo) -> (r: Self)
        ensures
            r@ == (photo1@, photo2@),
    {
        Self { photo1, photo2 }
    }

    /// Appends the block's markup to `out`.
    pub fn print_markdown(&self, out: &mut String) -> (r: Result<(), MarkupError>)
        ensures
            r is Ok <==> renders(self@.0) && renders(self@.1),
            r is Ok ==> final(out)@ == old(out)@ + two_markup(self@.0, self@.1),
    {
        let ghost start = out@;
        out.append("<div class=\"imageblock multirow twoimages\">\n");
        out.append("<div class=\"imagerow\">\n");
        match write_image_div(out, &self.photo1) {
            Ok(()) => {},
            Err(e) => {
                return Err(e);
            },
        }
        match write_image_div(out, &self.photo2) {
            Ok(()) => {},
            Err(e) => {
                return Err(e);
            },
        }
        write_multi_tail(out, &self.photo2);
        assert(final(out)@ =~= start + two_markup(self@.0, self@.1));
        Ok(())
    }

    /// The same block with its photos stored under `target`, in order; none
    /// where a photo has no file name.
    pub fn relocated_to(&self, target: &str) -> (r: Option<Self>)
        ensures
            r is Some <==> relocatable(self@.0) && relocatable(self@.1),
            r matches Some(c) ==> relocated_photo(self@.0, target@, c@.0) && relocated_photo(self@.1, target@, c@.1),
    {
        let q1 = match self.photo1.relocated_to(target) {
            Some(p) => p,
            None => {
                return None;
            },
        };
        let q2 = match self.photo2.relocated_to(target) {
            Some(p) => p,
            None => {
                return None;
            },
        };
        Some(TwoPhotos::new(q1, q2))
    }

    /// The block's photos, in order.
    pub fn photos(&self) -> (r: Vec<Photo>)
        ensures
            r@.map_values(|p: Photo| p@) == seq![self@.0, self@.1],
    {
        let r = vec![self.photo1.clone(), self.photo2.clone()];
        assert(r@.map_values(|p: Photo| p@) =~= seq![self@.0, self@.1]);
        r
    }
}

impl ThreePhotos {
    pub fn new(photo1: Photo, photo2: Photo, photo3: Photo) -> (r: Self)
        ensures
            r@ == (photo1@, photo2@, photo3@),
    {
        Self { photo1, photo2, photo3 }
    }

    /// Appends the block's markup to `out`.
    pub fn print_markdown(&self, out: &mut String) -> (r: Result<(), MarkupError>)
        ensures
            r is Ok <==> renders(self@.0) && renders(self@.1) && renders(self@.2),
            r is Ok ==> final(out)@ == old(out)@ + three_markup(self@.0, self@.1, self@.2),
    {
        let ghost start = out@;
        out.append("<div class=\"imageblock multirow threeimages\">\n");
        out.append("<div class=\"imagerow\">\n");
        match write_image_div(out, &self.photo1) {
            Ok(()) => {},
            Err(e) => {
                return Err(e);
            },
        }
        match write_image_div(out, &self.photo2) {
            Ok(()) => {},
            Err(e) => {
                return Err(e);
            },
        }
        match write_image_div(out, &self.photo3) {
            Ok(()) => {},
            Err(e) => {
                return Err(e);
            },
        }
        write_multi_tail(out, &self.photo3);
        assert(final(out)@ =~= start + three_markup(self@.0, self@.1, self@.2));
        Ok(())
    }

    /// The same block with its photos stored under `target`, in order; none
    /// where a photo has no file name.
    pub fn relocated_to(&self, target: &str) -> (r: Option<Self>)
        ensures
            r is Some <==> relocatable(self@.0) && relocatable(self@.1) && relocatable(self@.2),
            r matches Some(c) ==> relocated_photo(self@.0, target@, c@.0) && relocated_photo(self@.1, target@, c@.1) && relocated_photo(self@.2, target@, c@.2),
    {
        let q1 = match self.photo1.relocated_to(target) {
            Some(p) => p,
            None => {
                return None;
            },
        };
        let q2 = match self.photo2.relocated_to(target) {
            Some(p) => p,
            None => {
                return None;
            },
        };
        let q3 = match self.photo3.relocated_to(target) {
            Some(p) => p,
            None => {
                return None;
            },
        };
        Some(ThreePhotos::new(q1, q2, q3))
    }

    /// The block's photos, in order.
    pub fn photos(&self) -> (r: Vec<Photo>)
        ensures
            r@.map_values(|p: Photo| p@) == seq![self@.0, self@.1, self@.2],
    {
        let r = vec![self.photo1.clone(), self.photo2.clone(), self.photo3.clone()];
        assert(r@.map_values(|p: Photo| p@) =~= seq![self@.0, self@.1, self@.2]);
        r
    }
}

impl FourPhotosTwoByTwo {
    pub fn new(photo1: Photo, photo2: Photo, photo3: Photo, photo4: Photo) -> (r: Self)
        ensures
            r@ == (photo1@, photo2@, photo3@, photo4@),
    {
        Self { photo1, photo2, photo3, photo4 }
    }

    /// Appends the block's markup to `out`.
    pub fn print_markdown(&self, out: &mut String) -> (r: Result<(), MarkupError>)
        ensures
            r is Ok <==> renders(self@.0) && renders(self@.1) && renders(self@.2) && renders(
                self@.3,
            ),
            r is Ok ==> final(out)@ == old(out)@ + four_markup(self@.0, self@.1, self@.2, self@.3),
    {
        let ghost start = out@;
        out.append("<div class=\"imageblock multirow twoimages\">\n");
        out.append("<div class=\"imagerow\">\n");
        match write_image_div(out, &self.photo1) {
            Ok(()) => {},
            Err(e) => {
                return Err(e);
            },
        }
        match write_image_div(out, &self.photo2) {
            Ok(()) => {},
            Err(e) => {
                return Err(e);
            },
        }
        out.append("</div>\n");
        out.append("<div class=\"imagerow\">\n");
        match write_image_div(out, &self.photo3) {
            Ok(()) => {},
            Err(e) => {
                return Err(e);
            },
        }
        match write_image_div(out, &self.photo4) {
            Ok(()) => {},
            Err(e) => {
                return Err(e);
            },
        }
        write_multi_tail(out, &self.photo4);
        assert(final(out)@ =~= start + four_markup(self@.0, self@.1, self@.2, self@.3));
        Ok(())
    }

    /// The same block with its photos stored under `target`, in order; none
    /// where a photo has no file name.
    pub fn relocated_to(&self, target: &str) -> (r: Option<Self>)
        ensures
            r is Some <==> relocatable(self@.0) && relocatable(self@.1) && relocatable(self@.2)
                && relocatable(self@.3),
            r matches Some(c) ==> relocated_photo(self@.0, target@, c@.0) && relocated_photo(self@.1, target@, c@.1) && relocated_photo(self@.2, target@, c@.2) && relocated_photo(self@.3, target@, c@.3),
    {
        let q1 = match self.photo1.relocated_to(target) {
            Some(p) => p,
            None => {
                return None;
            },
        };
        let q2 = match self.photo2.relocated_to(target) {
            Some(p) => p,
            None => {
                return None;
            },
        };
        let q3 = match self.photo3.relocated_to(target) {
            Some(p) => p,
            None => {
                return None;
            },
        };
        let q4 = match self.photo4.relocated_to(target) {
            Some(p) => p,
            None => {
                return None;
            },
        };
        Some(FourPhotosTwoByTwo::new(q1, q2, q3, q4))
    }

    /// The block's photos, in order.
    pub fn photos(&self) -> (r: Vec<Photo>)
        ensures
            r@.map_values(|p: Photo| p@) == seq![self@.0, self@.1, self@.2, self@.3],
    {
        let r = vec![self.photo1.clone(), self.photo2.clone(), self.photo3.clone(), self.photo4.clone()];
        assert(r@.map_values(|p: Photo| p@) =~= seq![self@.0, self@.1, self@.2, self@.3]);
        r
    }
}

} // verus!
