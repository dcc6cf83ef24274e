//! Pieces of the album page that several kinds of block share.

use vstd::prelude::*;
use vstd::string::*;
use crate::photo::{image_line, relative_path_spec, MarkupError, Photo, PhotoView};
use crate::text::trim_spec;

verus! {

/// Whether a photo can be rendered: its location has a folder and a file name.
pub open spec fn renders(p: PhotoView) -> bool {
    relative_path_spec(p.location) is Some
}

/// The relative path that a renderable photo's image reference uses.
pub open spec fn rel(p: PhotoView) -> Seq<char> {
    relative_path_spec(p.location)->0
}

/// One image inside a row.
pub open spec fn image_div(p: PhotoView) -> Seq<char> {
    "<div class=\"image\">\n"@ + "\n"@ + image_line(rel(p)) + "\n"@ + "</div>\n"@
}

/// The heading line under a block's images.
pub open spec fn image_text(p: PhotoView) -> Seq<char> {
    "<div class=\"imagetext\">"@ + trim_spec(p.heading) + "</div>\n"@
}

/// The caption block after a block, opened by `open_line`; nothing where the
/// trimmed caption is empty.
pub open spec fn caption_block(open_line: Seq<char>, p: PhotoView) -> Seq<char> {
    let c = trim_spec(p.caption);
    if c.len() == 0 {
        Seq::empty()
    } else {
        open_line + "\n"@ + c + "\n"@ + "\n"@ + "</div>\n"@ + "\n"@
    }
}

/// Appends the image reference of `p` inside an image element.
pub fn write_image_div(out: &mut String, p: &Photo) -> (r: Result<(), MarkupError>)
    ensures
        r is Ok <==> renders(p@),
        r is Ok ==> final(out)@ == old(out)@ + image_div(p@),
{
    out.append("<div class=\"image\">\n");
    out.append("\n");
    match p.print_markdown(out) {
        Ok(()) => {},
        Err(e) => {
            return Err(e);
        },
    }
    out.append("\n");
    out.append("</div>\n");
    assert(final(out)@ =~= old(out)@ + image_div(p@));
    Ok(())
}

/// Appends the heading line of `p`.
pub fn write_image_text(out: &mut String, p: &Photo)
    ensures
        final(out)@ == old(out)@ + image_text(p@),
{
    out.append("<div class=\"imagetext\">");
    out.append(p.get_html_escaped_title().as_str());
    out.append("</div>\n");
    assert(final(out)@ =~= old(out)@ + image_text(p@));
}

/// Appends the caption block of `p`, opened by `open_line`.
pub fn write_caption_block(out: &mut String, open_line: &str, p: &Photo)
    ensures
        final(out)@ == old(out)@ + caption_block(open_line@, p@),
{
    let caption = p.get_html_escaped_caption();
    if caption.unicode_len() == 0 {
        assert(final(out)@ =~= old(out)@ + caption_block(open_line@, p@));
        return;
    }
    out.append(open_line);
    out.append("\n");
    out.append(caption.as_str());
    out.append("\n");
    out.append("\n");
    out.append("</div>\n");
    out.append("\n");
    assert(final(out)@ =~= old(out)@ + caption_block(open_line@, p@));
}

} // verus!
