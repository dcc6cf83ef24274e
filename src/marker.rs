//! Chapter markers: a photo that opens a day of the trip, with the trip
//! statistics read from its caption.

use vstd::prelude::*;
use vstd::string::*;
use crate::container::{relocatable, relocated_photo};
use crate::markup::{image_div, renders, write_image_div};
use crate::photo::{MarkupError, Photo, PhotoView};
use crate::text::{
    chars_of, ends_with_spec, ends_with_str, eq_str, lower_of, lowercase, slice_chars, split_chars,
    split_spec, string_of, trim_chars, trim_spec,
};

verus! {

/// The statistics of a chapter marker, and what its caption held that fits
/// none of them.
pub struct MarkerFields {
    pub gpx_file: Option<Seq<char>>,
    pub distance: Option<Seq<char>>,
    pub ascent: Option<Seq<char>>,
    pub descent: Option<Seq<char>>,
    pub moving_time: Option<Seq<char>>,
    pub avg_speed: Option<Seq<char>>,
    pub dest_from: Option<Seq<char>>,
    pub dest_to: Option<Seq<char>>,
    pub unmatched: Seq<Seq<char>>,
}

/// A chapter marker as plain values.
pub struct MarkerView {
    pub photo: Option<PhotoView>,
    pub title: Seq<char>,
    pub fields: MarkerFields,
}

pub open spec fn no_fields() -> MarkerFields {
    MarkerFields {
        gpx_file: None,
        distance: None,
        ascent: None,
        descent: None,
        moving_time: None,
        avg_speed: None,
        dest_from: None,
        dest_to: None,
        unmatched: Seq::empty(),
    }
}

/// The pieces, trimmed, that are not empty after trimming, in order.
pub open spec fn nonempty_trimmed(ps: Seq<Seq<char>>) -> Seq<Seq<char>>
    decreases ps.len(),
{
    if ps.len() == 0 {
        Seq::empty()
    } else {
        let r = nonempty_trimmed(ps.drop_last());
        let t = trim_spec(ps.last());
        if t.len() > 0 {
            r.push(t)
        } else {
            r
        }
    }
}

/// A value with the unit `u` taken off its end, given the value `s` and its
/// lowercase form `l`: `l` without the unit where it ends with it, else `s`;
/// trimmed either way.
pub open spec fn strip_lowered_spec(s: Seq<char>, l: Seq<char>, u: Seq<char>) -> Seq<char> {
    if ends_with_spec(l, u) {
        trim_spec(l.subrange(0, l.len() - u.len()))
    } else {
        trim_spec(s)
    }
}

/// A value with the unit `u` taken off its end, compared in lower case.
pub open spec fn strip_unit_spec(s: Seq<char>, u: Seq<char>) -> Seq<char> {
    strip_lowered_spec(s, lower_of(s), u)
}

/// The effect of a `key: value` pair whose key is `k` in lower case: the
/// field that the key selects is set, an unknown key is recorded.
pub open spec fn apply_field(f: MarkerFields, k: Seq<char>, key: Seq<char>, v: Seq<char>) -> MarkerFields {
    if k == "gpx"@ {
        MarkerFields { gpx_file: Some(v), ..f }
    } else if k == "distance"@ {
        MarkerFields { distance: Some(strip_unit_spec(v, "km"@)), ..f }
    } else if k == "ascent"@ {
        MarkerFields { ascent: Some(strip_unit_spec(v, "m"@)), ..f }
    } else if k == "descent"@ {
        MarkerFields { descent: Some(strip_unit_spec(v, "m"@)), ..f }
    } else if k == "moving time"@ {
        MarkerFields { moving_time: Some(v), ..f }
    } else if k == "avg"@ {
        MarkerFields { avg_speed: Some(strip_unit_spec(v, "km/h"@)), ..f }
    } else if k == "from"@ {
        MarkerFields { dest_from: Some(v), ..f }
    } else if k == "to"@ {
        MarkerFields { dest_to: Some(v), ..f }
    } else {
        MarkerFields { unmatched: f.unmatched.push(key), ..f }
    }
}

/// The effect of one caption line on the fields. A line counts where it is
/// `key: value` with both parts non-empty; a later line overrides an earlier
/// one. Lines of another shape, and unknown keys, are recorded as unmatched.
pub open spec fn apply_line(f: MarkerFields, line: Seq<char>) -> MarkerFields {
    let t = trim_spec(line);
    if t.len() == 0 {
        f
    } else {
        let parts = nonempty_trimmed(split_spec(t, ':', ':'));
        if parts.len() != 2 {
            MarkerFields { unmatched: f.unmatched.push(t), ..f }
        } else {
            apply_field(f, lower_of(parts[0]), parts[0], parts[1])
        }
    }
}

/// The fields read from a sequence of lines, first to last.
pub open spec fn parse_lines(lines: Seq<Seq<char>>) -> MarkerFields
    decreases lines.len(),
{
    if lines.len() == 0 {
        no_fields()
    } else {
        apply_line(parse_lines(lines.drop_last()), lines.last())
    }
}

/// The lines of a caption: the trimmed caption split at `\r` and `\n`.
pub open spec fn caption_lines(caption: Seq<char>) -> Seq<Seq<char>> {
    split_spec(trim_spec(caption), '\r', '\n')
}

/// The fields that a chapter marker reads from a caption.
pub open spec fn caption_fields(caption: Seq<char>) -> MarkerFields {
    parse_lines(caption_lines(caption))
}

pub open spec fn opt_view(o: Option<String>) -> Option<Seq<char>> {
    match o {
        Some(s) => Some(s@),
        None => None,
    }
}

/// A chapter (a day of travel) with its statistics.
pub struct TagMarker {
    photo: Option<Photo>,
    gpxfile: Option<String>,
    distance: Option<String>,
    ascent: Option<String>,
    descent: Option<String>,
    moving_time: Option<String>,
    avg_speed: Option<String>,
    dest_from: Option<String>,
    dest_to: Option<String>,
    unmatched: Vec<String>,
    title: String,
}

impl View for TagMarker {
    type V = MarkerView;

    closed spec fn view(&self) -> MarkerView {
        MarkerView {
            photo: match self.photo {
                Some(p) => Some(p@),
                None => None,
            },
            title: self.title@,
            fields: MarkerFields {
                gpx_file: opt_view(self.gpxfile),
                distance: opt_view(self.distance),
                ascent: opt_view(self.ascent),
                descent: opt_view(self.descent),
                moving_time: opt_view(self.moving_time),
                avg_speed: opt_view(self.avg_speed),
                dest_from: opt_view(self.dest_from),
                dest_to: opt_view(self.dest_to),
                unmatched: self.unmatched@.map_values(|s: String| s@),
            },
        }
    }
}

/// The parts of a line split at `:`, trimmed, the empty ones left out.
fn field_parts(t: &Vec<char>) -> (r: Vec<Vec<char>>)
    ensures
        r@.map_values(|v: Vec<char>| v@) == nonempty_trimmed(split_spec(t@, ':', ':')),
{
    let ps = split_chars(t, ':', ':');
    let ghost pv = ps@.map_values(|v: Vec<char>| v@);
    let mut r: Vec<Vec<char>> = Vec::new();
    let mut i: usize = 0;
    while i < ps.len()
        invariant
            i <= ps@.len(),
            pv == ps@.map_values(|v: Vec<char>| v@),
            r@.map_values(|v: Vec<char>| v@) == nonempty_trimmed(pv.subrange(0, i as int)),
        decreases ps.len() - i,
    {
        assert(pv.subrange(0, i + 1).drop_last() =~= pv.subrange(0, i as int));
        let t = trim_chars(&ps[i]);
        if t.len() > 0 {
            let ghost before = r@;
            r.push(t);
            assert(r@.map_values(|v: Vec<char>| v@) =~= before.map_values(|v: Vec<char>| v@).push(
                r@.last()@,
            ));
        }
        i += 1;
    }
    assert(pv.subrange(0, pv.len() as int) =~= pv);
    r
}

impl Clone for TagMarker {
    fn clone(&self) -> (r: Self)
        ensures
            r@ == self@,
    {
        let mut unmatched: Vec<String> = Vec::new();
        let mut i: usize = 0;
        while i < self.unmatched.len()
            invariant
                i <= self.unmatched@.len(),
                unmatched@.len() == i,
                forall|j: int| 0 <= j < i ==> #[trigger] unmatched@[j]@ == self.unmatched@[j]@,
            decreases self.unmatched.len() - i,
        {
            let s = self.unmatched[i].clone();
            unmatched.push(s);
            i += 1;
        }
        assert(unmatched@.map_values(|s: String| s@) =~= self.unmatched@.map_values(|s: String| s@));
        TagMarker {
            photo: match &self.photo {
                Some(p) => Some(p.clone()),
                None => None,
            },
            gpxfile: self.gpxfile.clone(),
            distance: self.distance.clone(),
            ascent: self.ascent.clone(),
            descent: self.descent.clone(),
            moving_time: self.moving_time.clone(),
            avg_speed: self.avg_speed.clone(),
            dest_from: self.dest_from.clone(),
            dest_to: self.dest_to.clone(),
            unmatched,
            title: self.title.clone(),
        }
    }
}


/// One statistic line, where the value is present.
pub open spec fn stat_line(open_tag: Seq<char>, v: Option<Seq<char>>) -> Seq<char> {
    match v {
        Some(x) => open_tag + x + "</div>\n"@,
        None => Seq::empty(),
    }
}

/// The statistics of a marker that are present, in a fixed order.
pub open spec fn stats_markup(f: MarkerFields) -> Seq<char> {
    stat_line("<div class=\"destfrom\">"@, f.dest_from) + stat_line("<div class=\"destto\">"@, f.dest_to)
        + stat_line("<div class=\"ascent\">"@, f.ascent) + stat_line("<div class=\"descent\">"@, f.descent)
        + stat_line("<div class=\"distance\">"@, f.distance) + stat_line("<div class=\"time\">"@, f.moving_time)
        + stat_line("<div class=\"speed\">"@, f.avg_speed)
}

/// The image part of a marker: its photo, if any.
pub open spec fn marker_image(photo: Option<PhotoView>) -> Seq<char> {
    match photo {
        Some(p) => "\n"@ + image_div(p),
        None => Seq::empty(),
    }
}

/// The markup of a chapter marker: its title, the statistics that are present
/// in a fixed order, then its photo, if any.
pub open spec fn marker_markup(m: MarkerView) -> Seq<char> {
    "<div class=\"dayheader\">\n"@ + "\n"@ + "## "@ + m.title + "\n"@ + "\n"@ + stats_markup(m.fields)
        + marker_image(m.photo) + "\n"@ + "</div>\n"@ + "\n"@
}

fn write_stat(out: &mut String, open_tag: &str, v: &Option<String>)
    ensures
        final(out)@ == old(out)@ + stat_line(open_tag@, opt_view(*v)),
{
    match v {
        Some(x) => {
            out.append(open_tag);
            out.append(x.as_str());
            out.append("</div>\n");
            assert(final(out)@ =~= old(out)@ + stat_line(open_tag@, opt_view(*v)));
        },
        None => {
            assert(final(out)@ =~= old(out)@ + stat_line(open_tag@, opt_view(*v)));
        },
    }
}

impl TagMarker {
    #[verifier::rlimit(50)]
    fn write_stats(&self, out: &mut String)
        ensures
            final(out)@ == old(out)@ + stats_markup(self@.fields),
    {
        let ghost f = self@.fields;
        let ghost s0 = out@;
        write_stat(out, "<div class=\"destfrom\">", &self.dest_from);
        write_stat(out, "<div class=\"destto\">", &self.dest_to);
        let ghost s1 = out@;
        assert(s1 =~= s0 + (stat_line("<div class=\"destfrom\">"@, f.dest_from) + stat_line(
            "<div class=\"destto\">"@,
            f.dest_to,
        )));
        write_stat(out, "<div class=\"ascent\">", &self.ascent);
        write_stat(out, "<div class=\"descent\">", &self.descent);
        let ghost s2 = out@;
        assert(s2 =~= s1 + (stat_line("<div class=\"ascent\">"@, f.ascent) + stat_line(
            "<div class=\"descent\">"@,
            f.descent,
        )));
        write_stat(out, "<div class=\"distance\">", &self.distance);
        write_stat(out, "<div class=\"time\">", &self.moving_time);
        write_stat(out, "<div class=\"speed\">", &self.avg_speed);
        assert(out@ =~= s2 + (stat_line("<div class=\"distance\">"@, f.distance) + stat_line(
            "<div class=\"time\">"@,
            f.moving_time,
        ) + stat_line("<div class=\"speed\">"@, f.avg_speed)));
        assert(final(out)@ =~= old(out)@ + stats_markup(self@.fields));
    }

    /// Appends the marker's markup to `out`.
    pub fn print_markdown(&self, out: &mut String) -> (r: Result<(), MarkupError>)
        ensures
            r is Ok <==> (self@.photo matches Some(p) ==> renders(p)),
            r is Ok ==> final(out)@ == old(out)@ + marker_markup(self@),
    {
        let ghost start = out@;
        out.append("<div class=\"dayheader\">\n");
        out.append("\n");
        out.append("## ");
        out.append(self.title.as_str());
        out.append("\n");
        out.append("\n");
        self.write_stats(out);
        let ghost mid = out@;
        match &self.photo {
            Some(p) => {
                out.append("\n");
                match write_image_div(out, p) {
                    Ok(()) => {},
                    Err(e) => {
                        return Err(e);
                    },
                }
            },
            None => {},
        }
        assert(out@ =~= mid + marker_image(self@.photo));
        out.append("\n");
        out.append("</div>\n");
        out.append("\n");
        assert(final(out)@ =~= start + marker_markup(self@));
        Ok(())
    }

    /// The same marker with its photo, if any, stored under `target`; none
    /// where the photo has no file name.
    pub fn relocated_to(&self, target: &str) -> (r: Option<Self>)
        ensures
            r is Some <==> (self@.photo matches Some(p) ==> relocatable(p)),
            r matches Some(c) ==> c@.title == self@.title && c@.fields == self@.fields && match self@.photo {
                Some(p) => c@.photo matches Some(q) && relocated_photo(p, target@, q),
                None => c@.photo is None,
            },
    {
        let mut c = self.clone();
        match &self.photo {
            Some(p) => match p.relocated_to(target) {
                Some(q) => {
                    c.photo = Some(q);
                    Some(c)
                },
                None => None,
            },
            None => Some(c),
        }
    }

    /// The marker's photo, if any.
    pub fn photos(&self) -> (r: Vec<Photo>)
        ensures
            r@.map_values(|p: Photo| p@) == match self@.photo {
                Some(p) => seq![p],
                None => Seq::empty(),
            },
    {
        let mut r: Vec<Photo> = Vec::new();
        match &self.photo {
            Some(p) => {
                r.push(p.clone());
            },
            None => {},
        }
        assert(r@.map_values(|p: Photo| p@) =~= match self@.photo {
            Some(p) => seq![p],
            None => Seq::empty(),
        });
        r
    }

    /// Takes the unit `u` off the end of `s`, given its lowercase form
    /// `lowered` (see `strip_lowered_spec`).
    pub fn strip_lowered_unit(s: &str, lowered: &str, u: &str) -> (r: String)
        ensures
            r@ == strip_lowered_spec(s@, lowered@, u@),
    {
        let l = chars_of(lowered);
        if ends_with_str(&l, u) {
            let n = u.unicode_len();
            string_of(&trim_chars(&slice_chars(&l, 0, l.len() - n)))
        } else {
            string_of(&trim_chars(&chars_of(s)))
        }
    }

    /// Takes the unit `u` off the end of a value (see `strip_unit_spec`).
    pub fn strip_unit(s: &str, u: &str) -> (r: String)
        ensures
            r@ == strip_unit_spec(s@, u@),
    {
        let l = string_of(&lowercase(&chars_of(s)));
        Self::strip_lowered_unit(s, l.as_str(), u)
    }

    /// Records a `key: value` pair whose key is `lowered_key` in lower case
    /// (see `apply_field`).
    pub fn record_field(&mut self, key: &str, lowered_key: &str, value: &str)
        ensures
            final(self)@ == (MarkerView {
                fields: apply_field(old(self)@.fields, lowered_key@, key@, value@),
                ..old(self)@
            }),
    {
        let k = chars_of(lowered_key);
        if eq_str(&k, "gpx") {
            self.gpxfile = Some(string_of(&chars_of(value)));
        } else if eq_str(&k, "distance") {
            self.distance = Some(Self::strip_unit(value, "km"));
        } else if eq_str(&k, "ascent") {
            self.ascent = Some(Self::strip_unit(value, "m"));
        } else if eq_str(&k, "descent") {
            self.descent = Some(Self::strip_unit(value, "m"));
        } else if eq_str(&k, "moving time") {
            self.moving_time = Some(string_of(&chars_of(value)));
        } else if eq_str(&k, "avg") {
            self.avg_speed = Some(Self::strip_unit(value, "km/h"));
        } else if eq_str(&k, "from") {
            self.dest_from = Some(string_of(&chars_of(value)));
        } else if eq_str(&k, "to") {
            self.dest_to = Some(string_of(&chars_of(value)));
        } else {
            let ghost before = self.unmatched@;
            self.unmatched.push(string_of(&chars_of(key)));
            assert(self.unmatched@.map_values(|s: String| s@) =~= before.map_values(|s: String| s@).push(
                key@,
            ));
        }
    }

    /// Reads one caption line into the fields.
    fn read_line(&mut self, line: &Vec<char>)
        ensures
            final(self)@ == (MarkerView { fields: apply_line(old(self)@.fields, line@), ..old(self)@ }),
    {
        let t = trim_chars(line);
        if t.len() == 0 {
            return;
        }
        let parts = field_parts(&t);
        if parts.len() != 2 {
            let ghost before = self.unmatched@;
            self.unmatched.push(string_of(&t));
            assert(self.unmatched@.map_values(|s: String| s@) =~= before.map_values(|s: String| s@).push(t@));
            return;
        }
        proof {
            assert(parts@.map_values(|v: Vec<char>| v@)[0] == parts@[0]@);
            assert(parts@.map_values(|v: Vec<char>| v@)[1] == parts@[1]@);
        }
        let key = string_of(&parts[0]);
        let k = string_of(&lowercase(&parts[0]));
        self.record_field(key.as_str(), k.as_str(), string_of(&parts[1]).as_str());
    }

    /// A chapter marker for `photo`: its title is the trimmed heading, its
    /// statistics are read from the caption.
    pub fn new(photo: Photo) -> (r: TagMarker)
        ensures
            r@ == (MarkerView {
                photo: Some(photo@),
                title: trim_spec(photo@.heading),
                fields: caption_fields(photo@.caption),
            }),
    {
        let mut ret = TagMarker {
            photo: None,
            gpxfile: None,
            distance: None,
            ascent: None,
            descent: None,
            moving_time: None,
            avg_speed: None,
            dest_from: None,
            dest_to: None,
            unmatched: Vec::new(),
            title: photo.get_html_escaped_title(),
        };
        assert(ret@.fields.unmatched =~= Seq::<Seq<char>>::empty());
        let caption = chars_of(photo.get_html_escaped_caption().as_str());
        let lines = split_chars(&caption, '\r', '\n');
        let ghost lv = lines@.map_values(|v: Vec<char>| v@);
        let mut i: usize = 0;
        while i < lines.len()
            invariant
                i <= lines@.len(),
                lv == lines@.map_values(|v: Vec<char>| v@),
                lv == caption_lines(photo@.caption),
                ret@ == (MarkerView {
                    photo: None,
                    title: trim_spec(photo@.heading),
                    fields: parse_lines(lv.subrange(0, i as int)),
                }),
            decreases lines.len() - i,
        {
            assert(lv.subrange(0, i + 1).drop_last() =~= lv.subrange(0, i as int));
            ret.read_line(&lines[i]);
            i += 1;
        }
        assert(lv.subrange(0, lv.len() as int) =~= lv);
        ret.photo = Some(photo);
        ret
    }

    /// The trimmed heading of the marker's photo.
    pub fn title(&self) -> (r: String)
        ensures
            r@ == self@.title,
    {
        self.title.clone()
    }

    /// The track file named in the caption.
    pub fn gpx_file(&self) -> (r: Option<String>)
        ensures
            opt_view(r) == self@.fields.gpx_file,
    {
        self.gpxfile.clone()
    }

    /// The distance, without its unit.
    pub fn distance(&self) -> (r: Option<String>)
        ensures
            opt_view(r) == self@.fields.distance,
    {
        self.distance.clone()
    }

    /// The ascent, without its unit.
    pub fn ascent(&self) -> (r: Option<String>)
        ensures
            opt_view(r) == self@.fields.ascent,
    {
        self.ascent.clone()
    }

    /// The descent, without its unit.
    pub fn descent(&self) -> (r: Option<String>)
        ensures
            opt_view(r) == self@.fields.descent,
    {
        self.descent.clone()
    }

    /// The moving time, as written.
    pub fn moving_time(&self) -> (r: Option<String>)
        ensures
            opt_view(r) == self@.fields.moving_time,
    {
        self.moving_time.clone()
    }

    /// The average speed, without its unit.
    pub fn avg_speed(&self) -> (r: Option<String>)
        ensures
            opt_view(r) == self@.fields.avg_speed,
    {
        self.avg_speed.clone()
    }

    /// Where the day started.
    pub fn dest_from(&self) -> (r: Option<String>)
        ensures
            opt_view(r) == self@.fields.dest_from,
    {
        self.dest_from.clone()
    }

    /// Where the day ended.
    pub fn dest_to(&self) -> (r: Option<String>)
        ensures
            opt_view(r) == self@.fields.dest_to,
    {
        self.dest_to.clone()
    }

    /// The caption lines and keys that matched no field.
    pub fn unmatched(&self) -> (r: Vec<String>)
        ensures
            r@.map_values(|s: String| s@) == self@.fields.unmatched,
    {
        self.clone().unmatched
    }
}

} // verus!
