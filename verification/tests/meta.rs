use audiovert::meta::{
    parse_year, pick_year, push_sanitized, sanitize, Parts, TagKey, Tags, TagsErr,
};
use audiovert::path::FilePath;

fn s(text: &str) -> Option<String> {
    Some(text.to_string())
}

fn path(root: &str, parts: &[&str]) -> FilePath {
    FilePath { root: root.to_string(), parts: parts.iter().map(|s| s.to_string()).collect() }
}

fn full_tags() -> Tags {
    Tags {
        release_date: s("1990-05-01"),
        album_title: s(" Greatest Hits: Vol. 1 "),
        album_artist: s("AC/DC"),
        track_artist: s("Somebody Else"),
        track_title: s("T.N.T."),
        track_number: s("7"),
        ..Tags::default()
    }
}

#[test]
fn sanitization() {
    assert_eq!(sanitize("AC/DC"), "AC+DC");
    assert_eq!(sanitize("Greatest Hits: Vol. 1"), "Greatest Hits - Vol. 1");
    for text in ["AC/DC", "Greatest Hits: Vol. 1"] {
        assert!(!sanitize(text).contains('/'));
        assert!(!sanitize(text).contains(':'));
    }
}

#[test]
fn sanitize_replaces_refused_characters() {
    assert_eq!(sanitize("a\\b/c"), "a+b+c");
    assert_eq!(sanitize("<what?>"), "what");
    assert_eq!(sanitize("5 * 5 | \"x\""), "5 - 5 x");
    assert_eq!(sanitize("a:b"), "a-b");
    assert_eq!(sanitize("a:"), "a-");
    assert_eq!(sanitize(":"), "-");
    assert_eq!(sanitize("::"), "--");
    assert_eq!(sanitize("a: b"), "a - b");
    assert_eq!(sanitize("a:\tb"), "a - b");
    assert_eq!(sanitize("plain name.flac"), "plain name.flac");
    assert_eq!(sanitize(""), "");
    assert_eq!(sanitize("?"), "");
}

#[test]
fn sanitize_collapses_whitespace() {
    assert_eq!(sanitize("a  b"), "a b");
    assert_eq!(sanitize("a \t\n b"), "a b");
    assert_eq!(sanitize("a\t\tb"), "a b");
    assert_eq!(sanitize("a\tb"), "a\tb");
    assert_eq!(sanitize("a\n\n\nb\u{a0}\u{a0}c"), "a b c");
    assert_eq!(sanitize("a :  b"), "a - b");
    assert_eq!(sanitize("a : b"), "a - b");
    assert_eq!(sanitize("a ? b"), "a b");
    assert_eq!(sanitize("  "), " ");
    assert_eq!(sanitize(" x "), " x ");
}

#[test]
fn sanitized_text_is_clean() {
    let refused = ['\\', '/', '<', '>', '?', '|', '"', '*', ':'];
    for text in ["a/b\\c:d*e?f\"g<h>i|j", "x:  y:\t:z", ":::", "1 / 2 : 3", "\u{a0} : \u{2003}*"] {
        let out = sanitize(text);
        assert!(!out.chars().any(|c| refused.contains(&c)), "{out:?}");
        let cs: Vec<char> = out.chars().collect();
        assert!(!cs.windows(2).any(|w| w[0].is_whitespace() && w[1].is_whitespace()), "{out:?}");
        assert_eq!(sanitize(&out), out);
    }
}

#[test]
fn push_sanitized_adds_one_component() {
    let mut p = path("/", &["out"]);
    push_sanitized(&mut p, "AC/DC");
    push_sanitized(&mut p, "Who Made Who?");
    push_sanitized(&mut p, "???");
    assert_eq!(p, path("/", &["out", "AC+DC", "Who Made Who"]));
}

#[test]
fn parse_year_reads_dates_and_numbers() {
    assert_eq!(parse_year("2024-03-10"), Some(2024));
    assert_eq!(parse_year(" 1999-12-31 "), Some(1999));
    assert_eq!(parse_year("2001-02-03T04:05:06"), Some(2001));
    assert_eq!(parse_year("1987"), Some(1987));
    assert_eq!(parse_year("  1987\n"), Some(1987));
    assert_eq!(parse_year("-44"), Some(-44));
    assert_eq!(parse_year("2024-13-01"), None);
    assert_eq!(parse_year("next year"), None);
    assert_eq!(parse_year("40000"), None);
    assert_eq!(parse_year(""), None);
}

#[test]
fn pick_year_prefers_the_date() {
    assert_eq!(pick_year(Some(2001), "1987"), Some(2001));
    assert_eq!(pick_year(None, "1987"), Some(1987));
    assert_eq!(pick_year(None, "x"), None);
}

#[test]
fn from_tags_picks_the_parts() {
    let mut errors = vec!["before".to_string()];
    let parts = Parts::from_tags(&full_tags(), &mut errors).unwrap();
    assert_eq!(
        parts,
        Parts {
            year: 1990,
            artist: "AC/DC".to_string(),
            album: "Greatest Hits: Vol. 1".to_string(),
            track: 7,
            title: "T.N.T.".to_string(),
            set: None,
        }
    );
    assert_eq!(errors, vec!["before".to_string()]);
}

#[test]
fn from_tags_year_order() {
    let mut tags = full_tags();
    tags.original_release_date = s("1976");
    tags.year = s("2003");
    tags.recording_date = s("1975-01-01");
    assert_eq!(Parts::from_tags(&tags, &mut Vec::new()).unwrap().year, 1976);
    tags.original_release_date = s("unknown");
    assert_eq!(Parts::from_tags(&tags, &mut Vec::new()).unwrap().year, 1990);
    tags.release_date = None;
    assert_eq!(Parts::from_tags(&tags, &mut Vec::new()).unwrap().year, 2003);
    tags.year = s("");
    assert_eq!(Parts::from_tags(&tags, &mut Vec::new()).unwrap().year, 1975);
}

#[test]
fn from_tags_artist_and_set() {
    let mut tags = full_tags();
    tags.album_artist = None;
    tags.disc_number = s("2");
    tags.disc_total = s("3");
    let parts = Parts::from_tags(&tags, &mut Vec::new()).unwrap();
    assert_eq!(parts.artist, "Somebody Else");
    assert_eq!(parts.set, Some((2, 3)));
    tags.disc_total = None;
    assert_eq!(Parts::from_tags(&tags, &mut Vec::new()).unwrap().set, None);
    tags.disc_total = s("three");
    assert_eq!(Parts::from_tags(&tags, &mut Vec::new()).unwrap().set, None);
    // An album artist that is there wins, even if it is blank.
    tags.album_artist = s("  ");
    assert_eq!(Parts::from_tags(&tags, &mut Vec::new()).unwrap().artist, "");
}

#[test]
fn from_tags_notes_what_is_missing() {
    let mut errors = Vec::new();
    assert_eq!(Parts::from_tags(&Tags::default(), &mut errors), None);
    assert_eq!(errors, vec!["missing year", "missing album", "missing artist", "missing title", "missing track"]);

    let mut tags = full_tags();
    tags.track_number = s(" 7");
    tags.release_date = s("soon");
    let mut errors = Vec::new();
    assert_eq!(Parts::from_tags(&tags, &mut errors), None);
    assert_eq!(errors, vec!["missing year", "missing track"]);

    let mut tags = full_tags();
    tags.track_title = None;
    let mut errors = vec!["kept".to_string()];
    assert_eq!(Parts::from_tags(&tags, &mut errors), None);
    assert_eq!(errors, vec!["kept", "missing title"]);
}

#[test]
fn append_to_builds_the_layout() {
    let parts = Parts {
        year: 1990,
        artist: "AC/DC".to_string(),
        album: "Greatest Hits: Vol. 1".to_string(),
        track: 7,
        title: "T.N.T.".to_string(),
        set: None,
    };
    let mut p = path("/", &["out"]);
    parts.append_to(&mut p);
    assert_eq!(
        p,
        path(
            "/",
            &[
                "out",
                "AC+DC",
                "AC+DC - Greatest Hits - Vol. 1 (1990)",
                "AC+DC - Greatest Hits - Vol. 1 - 07 - T.N.T.",
            ]
        )
    );
}

#[test]
fn append_to_names_the_disc_of_a_set() {
    let mut parts = Parts {
        year: -5,
        artist: "A".to_string(),
        album: "B".to_string(),
        track: 123,
        title: "C".to_string(),
        set: Some((2, 3)),
    };
    let mut p = FilePath::new("");
    parts.append_to(&mut p);
    assert_eq!(p, path("", &["A", "A - B (-5)", "Disc 02 A - B - 123 - C"]));
    for set in [Some((1, 1)), Some((1, 0)), None] {
        parts.set = set;
        let mut p = FilePath::new("");
        parts.append_to(&mut p);
        assert_eq!(p, path("", &["A", "A - B (-5)", "A - B - 123 - C"]));
    }
}

fn flac(comments: &[&str]) -> Vec<u8> {
    let mut out = b"fLaC".to_vec();
    out.extend_from_slice(&[0x00, 0x00, 0x00, 0x22]);
    out.extend_from_slice(&[0x10, 0x00, 0x10, 0x00, 0, 0, 0, 0, 0, 0]);
    out.extend_from_slice(&[0x0a, 0xc4, 0x42, 0xf0, 0, 0, 0, 0]);
    out.extend_from_slice(&[0; 16]);
    let mut block = Vec::new();
    block.extend_from_slice(&4u32.to_le_bytes());
    block.extend_from_slice(b"test");
    block.extend_from_slice(&(comments.len() as u32).to_le_bytes());
    for c in comments {
        block.extend_from_slice(&(c.len() as u32).to_le_bytes());
        block.extend_from_slice(c.as_bytes());
    }
    out.push(0x84);
    out.extend_from_slice(&(block.len() as u32).to_be_bytes()[1..]);
    out.extend_from_slice(&block);
    out
}

#[test]
fn tags_are_read_from_contents() {
    let contents = flac(&[
        "ALBUM=Greatest Hits: Vol. 1",
        "ALBUMARTIST=AC/DC",
        "ARTIST=Somebody",
        "TITLE=T.N.T.",
        "TRACKNUMBER=7",
        "DATE=1990-05-01",
        "DISCNUMBER=1",
        "DISCTOTAL=2",
    ]);
    let tags = Tags::read(contents.clone(), Some("flac")).unwrap();
    assert_eq!(tags.album_title, s("Greatest Hits: Vol. 1"));
    assert_eq!(tags.album_artist, s("AC/DC"));
    assert_eq!(tags.track_artist, s("Somebody"));
    assert_eq!(tags.track_title, s("T.N.T."));
    assert_eq!(tags.track_number, s("7"));
    assert_eq!(tags.disc_number, s("1"));
    assert_eq!(tags.disc_total, s("2"));
    assert_eq!(tags.original_release_date, None);

    let mut errors = Vec::new();
    let parts = Parts::read(contents, Some("flac"), &mut errors).unwrap().unwrap();
    assert_eq!(errors, Vec::<String>::new());
    assert_eq!(parts.year, 1990);
    assert_eq!(parts.artist, "AC/DC");
    assert_eq!(parts.track, 7);
    assert_eq!(parts.set, Some((1, 2)));
    let mut p = FilePath::new("");
    parts.append_to(&mut p);
    assert_eq!(p.parts[0], "AC+DC");
    assert_eq!(p.parts[2], "Disc 01 AC+DC - Greatest Hits - Vol. 1 - 07 - T.N.T.");
}

#[test]
fn tags_of_a_sparse_file() {
    let mut errors = Vec::new();
    let parts = Parts::read(flac(&["TITLE=Only"]), Some("flac"), &mut errors).unwrap();
    assert_eq!(parts, None);
    assert_eq!(errors, vec!["missing year", "missing album", "missing artist", "missing track"]);
}

#[test]
fn tags_cannot_be_read_from_anything() {
    assert_eq!(Tags::read(Vec::new(), None), Err(TagsErr::Unreadable));
    assert_eq!(Tags::read(b"not audio".to_vec(), Some("flac")), Err(TagsErr::Unreadable));
    assert_eq!(Tags::read(flac(&[]), Some("txt")), Err(TagsErr::Unreadable));
    let mut errors = vec!["kept".to_string()];
    assert_eq!(Parts::read(Vec::new(), Some("mp3"), &mut errors), Err(TagsErr::Unreadable));
    assert_eq!(errors, vec!["kept"]);
    assert_eq!(TagsErr::Unreadable.message(), "could not read tags");
    assert_eq!(TagsErr::NoPrimaryTag.message(), "missing primary tag");
}

#[test]
fn tags_set_and_new() {
    let mut tags = Tags::new();
    assert_eq!(tags, Tags::default());
    tags.set(TagKey::Year, s("1999"));
    tags.set(TagKey::DiscTotal, s("2"));
    tags.set(TagKey::Year, None);
    assert_eq!(tags, Tags { disc_total: s("2"), ..Tags::default() });
}

#[test]
fn outcome_of_reading_a_tag() {
    let items = Tags { year: s("1999"), ..Tags::default() };
    assert_eq!(Tags::outcome(None, items.clone()), Err(TagsErr::Unreadable));
    assert_eq!(Tags::outcome(Some(false), items.clone()), Err(TagsErr::NoPrimaryTag));
    assert_eq!(Tags::outcome(Some(true), items.clone()), Ok(items));
}

#[test]
fn parts_of_a_read_tag() {
    let mut errors = vec!["kept".to_string()];
    assert_eq!(Parts::of_read(Err(TagsErr::NoPrimaryTag), &mut errors), Err(TagsErr::NoPrimaryTag));
    assert_eq!(Parts::of_read(Err(TagsErr::Unreadable), &mut errors), Err(TagsErr::Unreadable));
    assert_eq!(errors, vec!["kept"]);
    let parts = Parts::of_read(Ok(full_tags()), &mut errors).unwrap().unwrap();
    assert_eq!(parts.year, 1990);
    assert_eq!(parts.track, 7);
    assert_eq!(errors, vec!["kept"]);
    let mut sparse = full_tags();
    sparse.album_title = None;
    assert_eq!(Parts::of_read(Ok(sparse), &mut errors), Ok(None));
    assert_eq!(errors, vec!["kept", "missing album"]);
}
