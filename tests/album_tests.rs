use radalbum::album::{marks_by_key, marks_by_word, print_page, Album, GroupingIssue};
use radalbum::block::PhotoContainer;
use radalbum::container::SinglePhoto;
use radalbum::input::{is_photo_file, select_photo_files};
use radalbum::marker::TagMarker;
use radalbum::normalize::normalize_filename;
use radalbum::photo::{MarkupError, Photo};

fn photo(heading: &str, caption: &str, location: &str) -> Photo {
    Photo::new(heading.to_string(), caption.to_string(), location.to_string())
}

fn locations(photos: &[Photo]) -> Vec<String> {
    photos.iter().map(|p| p.location()).collect()
}

fn group(photos: Vec<Photo>) -> (Vec<PhotoContainer>, Vec<GroupingIssue>) {
    let mut album = Album::new(photos);
    let issues = album.collect_photos();
    assert!(album.photos().is_empty());
    let blocks = album.collected().expect("grouped");
    let copies = blocks
        .iter()
        .map(|b| b.relocated_to("copy").expect("relocatable"))
        .collect();
    (copies, issues)
}

fn kinds(blocks: &[PhotoContainer]) -> Vec<&'static str> {
    blocks
        .iter()
        .map(|b| match b {
            PhotoContainer::Single(_) => "single",
            PhotoContainer::Two(_) => "two",
            PhotoContainer::Three(_) => "three",
            PhotoContainer::Four(_) => "four",
            PhotoContainer::Marker(_) => "marker",
        })
        .collect()
}

#[test]
fn separators_then_content_make_three_up() {
    let mut album = Album::new(vec![
        photo("/", "", "in/first.jpg"),
        photo("/", "", "in/second.jpg"),
        photo("content", "", "in/content.jpg"),
    ]);
    let issues = album.collect_photos();
    assert!(issues.is_empty());
    let blocks = album.collected().unwrap();
    assert_eq!(blocks.len(), 1);
    match &blocks[0] {
        PhotoContainer::Three(c) => {
            assert_eq!(
                locations(&c.photos()),
                vec!["in/first.jpg", "in/second.jpg", "in/content.jpg"]
            );
        },
        _ => panic!("expected three photos in one block"),
    }
}

#[test]
fn day_heading_makes_marker_with_fields() {
    let (blocks, issues) = group(vec![photo(
        "Day 3",
        "From: Linz\nTo: Passau\nDistance: 42km",
        "in/day3.jpg",
    )]);
    assert!(issues.is_empty());
    assert_eq!(kinds(&blocks), vec!["marker"]);
    match &blocks[0] {
        PhotoContainer::Marker(m) => {
            assert_eq!(m.title(), "Day 3");
            assert_eq!(m.dest_from(), Some("Linz".to_string()));
            assert_eq!(m.dest_to(), Some("Passau".to_string()));
            assert_eq!(m.distance(), Some("42".to_string()));
            assert_eq!(m.ascent(), None);
            assert_eq!(m.gpx_file(), None);
        },
        _ => panic!("expected a marker"),
    }
}

#[test]
fn plain_heading_makes_single_photo() {
    let (blocks, issues) = group(vec![photo("Sunset", "", "in/sunset.jpg")]);
    assert!(issues.is_empty());
    assert_eq!(kinds(&blocks), vec!["single"]);
}

#[test]
fn umlaut_and_bang_are_replaced() {
    assert_eq!(normalize_filename("Müller!.jpg"), "Muller_.jpg");
}

#[test]
fn unknown_caption_key_is_not_a_marker() {
    let p = photo("Sunset", "Note: something", "in/sunset.jpg");
    assert!(!Album::is_tag_marker(&p));
    let m = TagMarker::new(p);
    assert_eq!(m.unmatched(), vec!["Note".to_string()]);
    assert_eq!(m.dest_from(), None);
    let (blocks, _) = group(vec![photo("Sunset", "Note: something", "in/sunset.jpg")]);
    assert_eq!(kinds(&blocks), vec!["single"]);
}

#[test]
fn three_separators_and_content_make_four_up() {
    let (blocks, issues) = group(vec![
        photo("/", "", "in/a.jpg"),
        photo("/", "", "in/b.jpg"),
        photo("/", "", "in/c.jpg"),
        photo("four", "", "in/d.jpg"),
    ]);
    assert!(issues.is_empty());
    assert_eq!(kinds(&blocks), vec!["four"]);
}

#[test]
fn four_separators_before_content_are_dropped() {
    let (blocks, issues) = group(vec![
        photo("/", "", "in/a.jpg"),
        photo("/", "", "in/b.jpg"),
        photo("/", "", "in/c.jpg"),
        photo("/", "", "in/d.jpg"),
        photo("five", "", "in/e.jpg"),
        photo("after", "", "in/f.jpg"),
    ]);
    assert_eq!(issues, vec![GroupingIssue::UnsupportedImageCount(4)]);
    assert_eq!(kinds(&blocks), vec!["single"]);
}

#[test]
fn trailing_separators_are_reported() {
    let (blocks, issues) = group(vec![
        photo("first", "", "in/a.jpg"),
        photo(" / ", "", "in/b.jpg"),
        photo("/", "", "in/c.jpg"),
    ]);
    assert_eq!(kinds(&blocks), vec!["single"]);
    assert_eq!(issues, vec![GroupingIssue::LeftoverSeparators(2)]);
}

#[test]
fn mixed_sequence_groups_in_order() {
    let (blocks, issues) = group(vec![
        photo("Chapter One", "", "in/01.jpg"),
        photo("/", "", "in/02.jpg"),
        photo("pair", "caption", "in/03.jpg"),
        photo("alone", "", "in/04.jpg"),
        photo("Stats", "GPX: track.gpx", "in/05.jpg"),
    ]);
    assert!(issues.is_empty());
    assert_eq!(kinds(&blocks), vec!["marker", "two", "single", "marker"]);
}

#[test]
fn grouping_twice_gives_the_same_blocks() {
    let input = || {
        vec![
            photo("/", "", "in/a.jpg"),
            photo("x", "c", "in/b.jpg"),
            photo("Tag 2", "", "in/c.jpg"),
        ]
    };
    let (a, ia) = group(input());
    let (b, ib) = group(input());
    assert_eq!(ia, ib);
    assert_eq!(kinds(&a), kinds(&b));
    let render = |blocks: &[PhotoContainer]| {
        let mut out = String::new();
        for blk in blocks {
            blk.print_markdown(&mut out).unwrap();
        }
        out
    };
    assert_eq!(render(&a), render(&b));
}

#[test]
fn normalizing_twice_changes_nothing() {
    let once = normalize_filename("Straße am Fluß é É ł ä ö ü Ä Ö Ü!.png");
    assert_eq!(once, "Strase_am_Flus_e_E_l_a_o_u_A_O_U_.png");
    assert_eq!(normalize_filename(&once), once);
}

#[test]
fn relocated_photo_renders_img_reference() {
    let p = photo("Lake", "", "/home/me/trip/Müller Foto.jpg");
    let q = p.relocated_to("out").unwrap();
    assert_eq!(q.location(), "out/img/Muller_Foto.jpg");
    assert_eq!(q.heading(), "Lake");
    assert_eq!(q.get_relative_path(), Some("img/Muller_Foto.jpg".to_string()));
    let mut out = String::new();
    q.print_markdown(&mut out).unwrap();
    assert_eq!(
        out,
        "![Missing Image: img/Muller_Foto.jpg](img/Muller_Foto.jpg)\n"
    );
    let r = p.relocated_to("out/").unwrap();
    assert_eq!(r.location(), "out/img/Muller_Foto.jpg");
}

#[test]
fn relocated_block_references_img_folder() {
    let (blocks, _) = group(vec![
        photo("/", "", "src/x/a b.jpg"),
        photo("two", "", "src/y/c!.jpg"),
    ]);
    let moved = blocks[0].relocated_to("site").unwrap();
    let mut out = String::new();
    moved.print_markdown(&mut out).unwrap();
    assert!(out.contains("![Missing Image: img/a_b.jpg](img/a_b.jpg)"));
    assert!(out.contains("![Missing Image: img/c_.jpg](img/c_.jpg)"));
}

#[test]
fn relative_path_needs_folder_and_file_name() {
    assert_eq!(photo("x", "", "dir/a.jpg").get_relative_path(), Some("dir/a.jpg".to_string()));
    assert_eq!(photo("x", "", "a.jpg").get_relative_path(), None);
    assert_eq!(photo("x", "", "dir/").get_relative_path(), None);
    let mut out = String::new();
    assert_eq!(
        photo("x", "", "a.jpg").print_markdown(&mut out),
        Err(MarkupError::MissingPathComponent)
    );
    assert!(photo("x", "", "in/..").relocated_to("out").is_none());
    assert!(photo("x", "", "/").relocated_to("out").is_none());
}

#[test]
fn paths_follow_components() {
    assert_eq!(photo("x", "", "in/a/..").get_relative_path(), None);
    assert_eq!(photo("x", "", "../a.jpg").get_relative_path(), None);
    assert_eq!(photo("x", "", "./a.jpg").get_relative_path(), None);
    assert_eq!(photo("x", "", "/a.jpg").get_relative_path(), None);
    assert_eq!(photo("x", "", "a/./b.jpg").get_relative_path(), Some("a/b.jpg".to_string()));
    assert_eq!(photo("x", "", "a//b.jpg/").get_relative_path(), Some("a/b.jpg".to_string()));
    assert_eq!(photo("x", "", "a/b.jpg/.").get_relative_path(), Some("a/b.jpg".to_string()));
    let moved = photo("x", "", "in/a b.jpg/").relocated_to("out").unwrap();
    assert_eq!(moved.location(), "out/img/a_b.jpg");
    let moved = photo("x", "", "in/..").relocated_to("out");
    assert!(moved.is_none());
    assert!(!is_photo_file("in/.."));
    assert!(is_photo_file("in/a.jpg/"));
}

#[test]
fn heading_word_ends_at_any_whitespace() {
    assert!(Album::is_tag_marker(&photo("Day\t3", "", "d/a.jpg")));
    assert!(Album::is_tag_marker(&photo("Chapter\nTwo", "", "d/a.jpg")));
    assert!(!Album::is_tag_marker(&photo("Daytrip 3", "", "d/a.jpg")));
}

#[test]
fn single_photo_markup_is_exact() {
    let c = SinglePhoto::new(photo(" Sunset ", " Red sky \n", "trip/sunset.jpg"));
    let mut out = String::new();
    c.print_markdown(&mut out).unwrap();
    assert_eq!(
        out,
        "<div class=\"imageblock fullsize\">\n<div class=\"image\">\n\n\
         ![Missing Image: trip/sunset.jpg](trip/sunset.jpg)\n\n\
         <div class=\"imagetext\">Sunset</div>\n</div>\n</div>\n\n\
         <div class=\"textblock fullsizetext\">\n\nRed sky\n\n</div>\n\n"
    );
}

#[test]
fn two_photo_markup_uses_last_caption() {
    let (blocks, _) = group(vec![
        photo("/", "ignored", "d/a.jpg"),
        photo("Both", "Shared", "d/b.jpg"),
    ]);
    let mut out = String::new();
    blocks[0].print_markdown(&mut out).unwrap();
    assert_eq!(
        out,
        "<div class=\"imageblock multirow twoimages\">\n<div class=\"imagerow\">\n\
         <div class=\"image\">\n\n![Missing Image: img/a.jpg](img/a.jpg)\n\n</div>\n\
         <div class=\"image\">\n\n![Missing Image: img/b.jpg](img/b.jpg)\n\n</div>\n\
         </div>\n<div class=\"imagetext\">Both</div>\n</div>\n\n\
         <div class=\"textblock fullsizetext forimage\">\n\nShared\n\n</div>\n\n"
    );
}

#[test]
fn marker_markup_lists_fields_in_order() {
    let m = TagMarker::new(photo(
        "Day 1",
        "Avg: 18.5 km/h\nTo: B\nMoving time: 4h\nDescent: 300m\nAscent: 500 M\nFrom: A\nDistance: 80 km",
        "t/d1.jpg",
    ));
    assert_eq!(m.avg_speed(), Some("18.5".to_string()));
    assert_eq!(m.ascent(), Some("500".to_string()));
    assert_eq!(m.descent(), Some("300".to_string()));
    assert_eq!(m.moving_time(), Some("4h".to_string()));
    let mut out = String::new();
    m.print_markdown(&mut out).unwrap();
    assert_eq!(
        out,
        "<div class=\"dayheader\">\n\n## Day 1\n\n\
         <div class=\"destfrom\">A</div>\n<div class=\"destto\">B</div>\n\
         <div class=\"ascent\">500</div>\n<div class=\"descent\">300</div>\n\
         <div class=\"distance\">80</div>\n<div class=\"time\">4h</div>\n\
         <div class=\"speed\">18.5</div>\n\n\
         <div class=\"image\">\n\n![Missing Image: t/d1.jpg](t/d1.jpg)\n\n</div>\n\n</div>\n\n"
    );
}

#[test]
fn marker_fields_last_wins_and_odd_lines_are_unmatched() {
    let m = TagMarker::new(photo(
        "Chapter 2",
        "Distance: 10km\r\nDistance: 12 KM\nMoving time: 3:20\n\nWeather: fine\nGPX: tracks/day2.gpx",
        "t/c2.jpg",
    ));
    assert_eq!(m.distance(), Some("12".to_string()));
    assert_eq!(m.moving_time(), None);
    assert_eq!(m.gpx_file(), Some("tracks/day2.gpx".to_string()));
    assert_eq!(
        m.unmatched(),
        vec!["Moving time: 3:20".to_string(), "Weather".to_string()]
    );
}

#[test]
fn unit_is_kept_when_absent() {
    let m = TagMarker::new(photo("Day", "Distance: Far Away\nAscent: 12 ft", "t/x.jpg"));
    assert_eq!(m.distance(), Some("Far Away".to_string()));
    assert_eq!(m.ascent(), Some("12 ft".to_string()));
}

#[test]
fn classifier_reads_caption_keys_and_heading_word() {
    assert!(Album::is_tag_marker(&photo("x", "Time: 3h", "d/a.jpg")));
    assert!(Album::is_tag_marker(&photo("x", "intro\n distance ", "d/a.jpg")));
    assert!(Album::is_tag_marker(&photo("DAY 4", "", "d/a.jpg")));
    assert!(Album::is_tag_marker(&photo(" tag 5", "", "d/a.jpg")));
    assert!(!Album::is_tag_marker(&photo("Daylight", "", "d/a.jpg")));
    assert!(!Album::is_tag_marker(&photo("x", "From: A", "d/a.jpg")));
}

#[test]
fn album_page_starts_with_title() {
    let mut album = Album::new(vec![photo("Sunset", "", "d/s.jpg")]);
    album.collect_photos();
    let mut out = String::new();
    album.print_markdown(&mut out).unwrap();
    assert!(out.starts_with("# Test-Album\n\n<div class=\"imageblock fullsize\">\n"));
    let mut empty = Album::new(vec![]);
    assert!(empty.collect_photos().is_empty());
    let mut page = String::new();
    empty.print_markdown(&mut page).unwrap();
    assert_eq!(page, "# Test-Album\n\n");
}

#[test]
fn regrouping_appends_to_existing_blocks() {
    let mut album = Album::new(vec![photo("a", "", "d/a.jpg")]);
    album.collect_photos();
    album.collect_photos();
    assert_eq!(album.collected().unwrap().len(), 1);
}

#[test]
fn replaced_photo_is_grouped() {
    let mut album = Album::new(vec![photo("a", "", "d/a.jpg")]);
    let moved = album.photos()[0].relocated_to("out").unwrap();
    album.replace_photo(0, moved);
    assert_eq!(locations(&album.photos()), vec!["out/img/a.jpg"]);
}

#[test]
fn photo_files_are_filtered_and_sorted() {
    let paths = vec![
        "d/b.png".to_string(),
        "d/a.jpg".to_string(),
        "d/c.txt".to_string(),
        "d/.jpg".to_string(),
        "d/x.JPG".to_string(),
        "d/Z.jpg".to_string(),
        "d/a.tar.jpg".to_string(),
    ];
    assert_eq!(
        select_photo_files(paths),
        vec!["d/Z.jpg", "d/a.jpg", "d/a.tar.jpg", "d/b.png"]
    );
}

#[test]
fn lowered_keys_and_words_decide_markers() {
    assert!(marks_by_key("gpx"));
    assert!(marks_by_key("distance"));
    assert!(marks_by_key("time"));
    assert!(!marks_by_key("Time"));
    assert!(!marks_by_key("from"));
    assert!(marks_by_word("tag"));
    assert!(marks_by_word("day"));
    assert!(marks_by_word("chapter"));
    assert!(!marks_by_word("Day"));
    assert!(!marks_by_word("days"));
}

#[test]
fn units_are_stripped_case_insensitively() {
    assert_eq!(TagMarker::strip_unit("12 KM", "km"), "12");
    assert_eq!(TagMarker::strip_unit("500M", "m"), "500");
    assert_eq!(TagMarker::strip_unit(" 18.5 Km/H ", "km/h"), "18.5 Km/H");
    assert_eq!(TagMarker::strip_unit("Far Away", "km"), "Far Away");
    assert_eq!(TagMarker::strip_lowered_unit("42KM", "42km", "km"), "42");
    assert_eq!(TagMarker::strip_lowered_unit(" Linz ", " linz ", "km"), "Linz");
}

#[test]
fn recorded_fields_follow_lowered_key() {
    let mut m = TagMarker::new(photo("Day 9", "", "t/d9.jpg"));
    m.record_field("Distance", "distance", "7 km");
    m.record_field("FROM", "from", "Wien");
    m.record_field("Mood", "mood", "good");
    assert_eq!(m.distance(), Some("7".to_string()));
    assert_eq!(m.dest_from(), Some("Wien".to_string()));
    assert_eq!(m.unmatched(), vec!["Mood".to_string()]);
}

#[test]
fn photo_file_extension_is_case_sensitive() {
    assert!(is_photo_file("dir/a.jpg"));
    assert!(is_photo_file("b.png"));
    assert!(!is_photo_file("dir/a.JPG"));
    assert!(!is_photo_file("dir/.png"));
    assert!(!is_photo_file("dir/jpg"));
    assert!(!is_photo_file("dir.jpg/readme"));
}

#[test]
fn page_of_blocks_fails_on_bare_file_name() {
    let blocks = vec![PhotoContainer::Single(SinglePhoto::new(photo("x", "", "bare.jpg")))];
    let mut out = String::new();
    assert_eq!(print_page(&blocks, &mut out), Err(MarkupError::MissingPathComponent));
    assert_eq!(out, "# Test-Album\n\n");
    let blocks = vec![
        PhotoContainer::Single(SinglePhoto::new(photo("ok", "", "d/ok.jpg"))),
        PhotoContainer::Single(SinglePhoto::new(photo("bad", "", "bad.jpg"))),
        PhotoContainer::Single(SinglePhoto::new(photo("later", "", "d/later.jpg"))),
    ];
    let mut page = String::from("before\n");
    assert!(print_page(&blocks, &mut page).is_err());
    assert!(page.starts_with("before\n# Test-Album\n\n<div class=\"imageblock fullsize\">"));
    assert!(page.contains("d/ok.jpg"));
    assert!(!page.contains("bad"));
    assert!(!page.contains("later"));
}
