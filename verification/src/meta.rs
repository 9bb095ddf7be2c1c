//! Naming by metadata: the tag fields that name a track, and the directory
//! layout that is built from them.

use lofty::file::TaggedFileExt;
use vstd::prelude::*;

use crate::path::{FilePath, PathModel};
use crate::text;
use crate::text::whitespace;

verus! {

/// What stands in place of a character that file systems refuse: `\` and `/`
/// become `+`, `*` becomes `-`, and `<`, `>`, `?`, `|` and `"` are dropped.
pub open spec fn replacement(c: char) -> Option<Seq<char>> {
    if c == '\\' || c == '/' {
        Some(seq!['+'])
    } else if c == '*' {
        Some(seq!['-'])
    } else if c == '<' || c == '>' || c == '?' || c == '|' || c == '"' {
        Some(seq![])
    } else {
        None
    }
}

/// A character that never stands in a sanitized segment.
pub open spec fn refused(c: char) -> bool {
    c == ':' || replacement(c) is Some
}

/// `out` with `c` appended. Where that would put two whitespace characters
/// side by side, one space stands for both.
pub open spec fn put(out: Seq<char>, c: char) -> Seq<char> {
    if whitespace(c) && out.len() > 0 && whitespace(out.last()) {
        out.drop_last().push(' ')
    } else {
        out.push(c)
    }
}

/// `out` with the characters of `cs` put one after another.
pub open spec fn put_all(out: Seq<char>, cs: Seq<char>) -> Seq<char>
    decreases cs.len(),
{
    if cs.len() == 0 {
        out
    } else {
        put(put_all(out, cs.drop_last()), cs.last())
    }
}

/// What a colon becomes before whitespace.
pub open spec fn dash_spaced() -> Seq<char> {
    seq![' ', '-', ' ']
}

/// Sanitizing `s` from index `i` on, `out` being what was produced so far.
/// A colon and one whitespace character after it become ` - `; a colon
/// before anything else becomes `-`.
pub open spec fn sanitize_from(s: Seq<char>, i: int, out: Seq<char>) -> Seq<char>
    decreases s.len() - i,
{
    if i < 0 || i >= s.len() {
        out
    } else if s[i] == ':' {
        if i + 1 < s.len() && whitespace(s[i + 1]) {
            sanitize_from(s, i + 2, put_all(out, dash_spaced()))
        } else {
            sanitize_from(s, i + 1, put(out, '-'))
        }
    } else {
        match replacement(s[i]) {
            Some(r) => sanitize_from(s, i + 1, put_all(out, r)),
            None => sanitize_from(s, i + 1, put(out, s[i])),
        }
    }
}

/// The path segment that stands for the text `s`.
pub open spec fn sanitized(s: Seq<char>) -> Seq<char> {
    sanitize_from(s, 0, Seq::empty())
}

/// No refused character, and no two whitespace characters side by side.
pub open spec fn clean(out: Seq<char>) -> bool {
    &&& forall|i: int| 0 <= i < out.len() ==> !refused(#[trigger] out[i])
    &&& forall|i: int|
        0 <= i < out.len() - 1 ==> !(whitespace(#[trigger] out[i]) && whitespace(out[i + 1]))
}

proof fn lemma_put_clean(out: Seq<char>, c: char)
    requires
        clean(out),
        !refused(c),
    ensures
        clean(put(out, c)),
{
    let r = put(out, c);
    if whitespace(c) && out.len() > 0 && whitespace(out.last()) {
        assert forall|i: int| 0 <= i < r.len() implies !refused(#[trigger] r[i]) by {
            if i < out.len() - 1 {
                assert(r[i] == out[i]);
            }
        }
        assert forall|i: int| 0 <= i < r.len() - 1 implies !(whitespace(#[trigger] r[i])
            && whitespace(r[i + 1])) by {
            assert(r[i] == out[i]);
            if i < out.len() - 2 {
                assert(r[i + 1] == out[i + 1]);
            } else {
                assert(!(whitespace(out[i]) && whitespace(out[i + 1])));
            }
        }
    } else {
        assert forall|i: int| 0 <= i < r.len() implies !refused(#[trigger] r[i]) by {
            if i < out.len() {
                assert(r[i] == out[i]);
            }
        }
        assert forall|i: int| 0 <= i < r.len() - 1 implies !(whitespace(#[trigger] r[i])
            && whitespace(r[i + 1])) by {
            if i < out.len() - 1 {
                assert(r[i] == out[i]);
                assert(r[i + 1] == out[i + 1]);
            }
        }
    }
}

proof fn lemma_put_all_clean(out: Seq<char>, cs: Seq<char>)
    requires
        clean(out),
        forall|i: int| 0 <= i < cs.len() ==> !refused(#[trigger] cs[i]),
    ensures
        clean(put_all(out, cs)),
    decreases cs.len(),
{
    if cs.len() > 0 {
        lemma_put_all_clean(out, cs.drop_last());
        lemma_put_clean(put_all(out, cs.drop_last()), cs.last());
    }
}

proof fn lemma_sanitize_from_clean(s: Seq<char>, i: int, out: Seq<char>)
    requires
        clean(out),
    ensures
        clean(sanitize_from(s, i, out)),
    decreases s.len() - i,
{
    if i < 0 || i >= s.len() {
    } else if s[i] == ':' {
        if i + 1 < s.len() && whitespace(s[i + 1]) {
            lemma_put_all_clean(out, dash_spaced());
            lemma_sanitize_from_clean(s, i + 2, put_all(out, dash_spaced()));
        } else {
            lemma_put_clean(out, '-');
            lemma_sanitize_from_clean(s, i + 1, put(out, '-'));
        }
    } else {
        match replacement(s[i]) {
            Some(r) => {
                lemma_put_all_clean(out, r);
                lemma_sanitize_from_clean(s, i + 1, put_all(out, r));
            },
            None => {
                lemma_put_clean(out, s[i]);
                lemma_sanitize_from_clean(s, i + 1, put(out, s[i]));
            },
        }
    }
}

/// A sanitized segment holds none of `\ / < > ? | " * :` and no two
/// whitespace characters side by side, whatever the text was.
pub proof fn lemma_sanitized_is_clean(s: Seq<char>)
    ensures
        clean(sanitized(s)),
{
    lemma_sanitize_from_clean(s, 0, Seq::empty());
}

proof fn lemma_put_all_keeps(out: Seq<char>, cs: Seq<char>, n: int)
    requires
        0 <= n <= cs.len(),
        clean(out + cs),
    ensures
        put_all(out, cs.take(n)) == out + cs.take(n),
    decreases n,
{
    if n == 0 {
        assert(cs.take(0) == Seq::<char>::empty());
        assert(out + cs.take(0) == out);
    } else {
        lemma_put_all_keeps(out, cs, n - 1);
        assert(cs.take(n).drop_last() == cs.take(n - 1));
        let before = out + cs.take(n - 1);
        let c = cs[n - 1];
        assert(cs.take(n).last() == c);
        if before.len() > 0 {
            let k = before.len() - 1;
            assert((out + cs)[k] == before.last());
            assert((out + cs)[k + 1] == c);
        }
        assert(before.push(c) == out + cs.take(n));
    }
}

proof fn lemma_sanitize_from_keeps(s: Seq<char>, i: int)
    requires
        0 <= i <= s.len(),
        clean(s),
    ensures
        sanitize_from(s, i, s.take(i)) == s,
    decreases s.len() - i,
{
    if i == s.len() {
        assert(s.take(i) == s);
    } else {
        assert(!refused(s[i]));
        let out = s.take(i);
        if out.len() > 0 {
            assert(out.last() == s[i - 1]);
        }
        assert(put(out, s[i]) == s.take(i + 1));
        lemma_sanitize_from_keeps(s, i + 1);
    }
}

/// Sanitizing is idempotent: a sanitized segment is its own sanitized
/// form, so that a name that was planned once is planned the same again.
pub proof fn lemma_sanitize_is_idempotent(s: Seq<char>)
    ensures
        sanitized(sanitized(s)) == sanitized(s),
{
    lemma_sanitized_is_clean(s);
    let t = sanitized(s);
    assert(t.take(0) == Seq::<char>::empty());
    lemma_sanitize_from_keeps(t, 0);
}

/// A text that is clean already is kept as it is.
pub proof fn lemma_clean_text_is_kept(s: Seq<char>)
    requires
        clean(s),
    ensures
        sanitized(s) == s,
{
    assert(s.take(0) == Seq::<char>::empty());
    lemma_sanitize_from_keeps(s, 0);
}

fn put_char(out: &mut Vec<char>, c: char)
    ensures
        final(out)@ == put(old(out)@, c),
{
    let n = out.len();
    if c.is_whitespace() && n > 0 && out[n - 1].is_whitespace() {
        out.pop();
        out.push(' ');
    } else {
        out.push(c);
    }
}

/// Turns a text into a path segment: refused characters are replaced or
/// dropped, and consecutive whitespace collapses to one space.
pub fn sanitize(s: &str) -> (r: String)
    ensures
        r@ == sanitized(s@),
        clean(r@),
{
    let v = text::chars(s);
    let mut out: Vec<char> = Vec::new();
    let mut i: usize = 0;
    while i < v.len()
        invariant
            i <= v.len(),
            sanitized(v@) == sanitize_from(v@, i as int, out@),
        decreases v.len() - i,
    {
        let c = v[i];
        if c == ':' {
            if i + 1 < v.len() && v[i + 1].is_whitespace() {
                let ghost before = out@;
                put_char(&mut out, ' ');
                put_char(&mut out, '-');
                put_char(&mut out, ' ');
                proof {
                    let d = dash_spaced();
                    assert(d.drop_last() == seq![' ', '-']);
                    assert(d.drop_last().drop_last() == seq![' ']);
                    assert(d.drop_last().drop_last().drop_last() == Seq::<char>::empty());
                    reveal_with_fuel(put_all, 4);
                    assert(out@ == put_all(before, d));
                }
                i += 2;
            } else {
                put_char(&mut out, '-');
                i += 1;
            }
        } else if c == '\\' || c == '/' {
            let ghost before = out@;
            put_char(&mut out, '+');
            proof {
                assert(seq!['+'].drop_last() == Seq::<char>::empty());
                reveal_with_fuel(put_all, 2);
                assert(out@ == put_all(before, seq!['+']));
            }
            i += 1;
        } else if c == '*' {
            let ghost before = out@;
            put_char(&mut out, '-');
            proof {
                assert(seq!['-'].drop_last() == Seq::<char>::empty());
                reveal_with_fuel(put_all, 2);
                assert(out@ == put_all(before, seq!['-']));
            }
            i += 1;
        } else if c == '<' || c == '>' || c == '?' || c == '|' || c == '"' {
            assert(put_all(out@, seq![]) == out@);
            i += 1;
        } else {
            put_char(&mut out, c);
            i += 1;
        }
    }
    proof {
        lemma_sanitized_is_clean(s@);
    }
    text::string(&out)
}

/// Appends the sanitized form of `s` to `path` as one component.
pub fn push_sanitized(path: &mut FilePath, s: &str)
    ensures
        final(path)@ == old(path)@.pushed(sanitized(s@)),
{
    let seg = sanitize(s);
    path.push(seg.as_str());
}

/// The year of the civil date that `s` denotes in the ISO 8601 and RFC 3339
/// forms that the `jiff` crate reads (`2024-03-10`, or a date with a time
/// after it), if it denotes one.
pub uninterp spec fn civil_year(s: Seq<char>) -> Option<i16>;

/// `jiff::civil::Date::from_str`, then the year of the date: a function of
/// the text alone.
#[verifier::external_body]
fn date_year(s: &str) -> (r: Option<i16>)
    ensures
        r == civil_year(s@),
{
    s.parse::<jiff::civil::Date>().ok().map(|d| d.year())
}

/// The year that a tag text gives: surrounding whitespace aside, the year of
/// a civil date, or else a bare year number.
pub open spec fn year_of(s: Seq<char>) -> Option<i16> {
    match civil_year(text::trimmed(s)) {
        Some(y) => Some(y),
        None => text::i16_value(text::trimmed(s)),
    }
}

/// Reads the year out of a tag text.
pub fn parse_year(s: &str) -> (r: Option<i16>)
    ensures
        r == year_of(s@),
{
    let t = text::trim_str(s);
    pick_year(date_year(t.as_str()), t.as_str())
}

/// The year of a trimmed tag text, given what reading it as a date gave.
pub fn pick_year(date: Option<i16>, trimmed: &str) -> (r: Option<i16>)
    ensures
        r == match date {
            Some(y) => Some(y),
            None => text::i16_value(trimmed@),
        },
{
    match date {
        Some(y) => Some(y),
        None => text::parse_i16(trimmed),
    }
}

/// The texts of the tag items that naming reads, each as it stands in the
/// file's primary tag, or nothing where the tag has no such item.
#[derive(Clone, Debug, Default, PartialEq, Eq)]
pub struct Tags {
    pub original_release_date: Option<String>,
    pub release_date: Option<String>,
    pub year: Option<String>,
    pub recording_date: Option<String>,
    pub album_title: Option<String>,
    pub album_artist: Option<String>,
    pub track_artist: Option<String>,
    pub track_title: Option<String>,
    pub track_number: Option<String>,
    pub disc_number: Option<String>,
    pub disc_total: Option<String>,
}

/// The tag items that naming reads.
#[derive(Clone, Copy, Debug, PartialEq, Eq, Structural)]
pub enum TagKey {
    OriginalReleaseDate,
    ReleaseDate,
    Year,
    RecordingDate,
    AlbumTitle,
    AlbumArtist,
    TrackArtist,
    TrackTitle,
    TrackNumber,
    DiscNumber,
    DiscTotal,
}

impl TagKey {
    pub open spec fn spec_name(self) -> Seq<char> {
        match self {
            TagKey::OriginalReleaseDate => "OriginalReleaseDate"@,
            TagKey::ReleaseDate => "ReleaseDate"@,
            TagKey::Year => "Year"@,
            TagKey::RecordingDate => "RecordingDate"@,
            TagKey::AlbumTitle => "AlbumTitle"@,
            TagKey::AlbumArtist => "AlbumArtist"@,
            TagKey::TrackArtist => "TrackArtist"@,
            TagKey::TrackTitle => "TrackTitle"@,
            TagKey::TrackNumber => "TrackNumber"@,
            TagKey::DiscNumber => "DiscNumber"@,
            TagKey::DiscTotal => "DiscTotal"@,
        }
    }

    /// The name under which the item is shown.
    pub fn name(&self) -> (r: &'static str)
        ensures
            r@ == self.spec_name(),
    {
        match self {
            TagKey::OriginalReleaseDate => "OriginalReleaseDate",
            TagKey::ReleaseDate => "ReleaseDate",
            TagKey::Year => "Year",
            TagKey::RecordingDate => "RecordingDate",
            TagKey::AlbumTitle => "AlbumTitle",
            TagKey::AlbumArtist => "AlbumArtist",
            TagKey::TrackArtist => "TrackArtist",
            TagKey::TrackTitle => "TrackTitle",
            TagKey::TrackNumber => "TrackNumber",
            TagKey::DiscNumber => "DiscNumber",
            TagKey::DiscTotal => "DiscTotal",
        }
    }

    /// All keys, in the order in which their items are shown.
    pub open spec fn all() -> Seq<TagKey> {
        seq![
            TagKey::OriginalReleaseDate,
            TagKey::ReleaseDate,
            TagKey::Year,
            TagKey::RecordingDate,
            TagKey::AlbumTitle,
            TagKey::AlbumArtist,
            TagKey::TrackArtist,
            TagKey::TrackTitle,
            TagKey::TrackNumber,
            TagKey::DiscNumber,
            TagKey::DiscTotal,
        ]
    }
}

/// Why no tag was read.
#[derive(Clone, Copy, Debug, PartialEq, Eq, Structural)]
pub enum TagsErr {
    /// The contents are not an audio file of a known kind.
    Unreadable,
    /// The file has no tag of the kind that is primary for its format.
    NoPrimaryTag,
}

impl TagsErr {
    pub open spec fn spec_message(self) -> Seq<char> {
        match self {
            TagsErr::Unreadable => "could not read tags"@,
            TagsErr::NoPrimaryTag => "missing primary tag"@,
        }
    }

    /// The message shown for this error.
    pub fn message(&self) -> (r: &'static str)
        ensures
            r@ == self.spec_message(),
    {
        match self {
            TagsErr::Unreadable => "could not read tags",
            TagsErr::NoPrimaryTag => "missing primary tag",
        }
    }
}

/// An audio file as the `lofty` crate has read it.
#[verifier::external_type_specification]
#[verifier::external_body]
pub struct ExTaggedFile(lofty::file::TaggedFile);

/// `lofty::probe::Probe::read` on the contents of a file, the kind of file
/// being told by `lofty::file::FileType::from_ext` where an extension is
/// given. Nothing is claimed of the result: what `lofty` reads also depends
/// on its process-wide options.
#[verifier::external_body]
fn probe(contents: Vec<u8>, ext: Option<&str>) -> (r: Option<lofty::file::TaggedFile>) {
    let mut probe = lofty::probe::Probe::new(std::io::Cursor::new(contents));
    if let Some(file_type) = ext.and_then(lofty::file::FileType::from_ext) {
        probe = probe.set_file_type(file_type);
    }
    probe.read().ok()
}

/// `TaggedFileExt::primary_tag`: whether the file has its primary tag.
#[verifier::external_body]
fn has_primary_tag(file: &lofty::file::TaggedFile) -> (r: bool) {
    file.primary_tag().is_some()
}

/// `Tag::get_string` on the primary tag: the text of the first item under
/// the key, if there is one and it is text.
#[verifier::external_body]
fn tag_text(file: &lofty::file::TaggedFile, key: TagKey) -> (r: Option<String>) {
    let key = match key {
        TagKey::OriginalReleaseDate => lofty::tag::ItemKey::OriginalReleaseDate,
        TagKey::ReleaseDate => lofty::tag::ItemKey::ReleaseDate,
        TagKey::Year => lofty::tag::ItemKey::Year,
        TagKey::RecordingDate => lofty::tag::ItemKey::RecordingDate,
        TagKey::AlbumTitle => lofty::tag::ItemKey::AlbumTitle,
        TagKey::AlbumArtist => lofty::tag::ItemKey::AlbumArtist,
        TagKey::TrackArtist => lofty::tag::ItemKey::TrackArtist,
        TagKey::TrackTitle => lofty::tag::ItemKey::TrackTitle,
        TagKey::TrackNumber => lofty::tag::ItemKey::TrackNumber,
        TagKey::DiscNumber => lofty::tag::ItemKey::DiscNumber,
        TagKey::DiscTotal => lofty::tag::ItemKey::DiscTotal,
    };
    file.primary_tag()?.get_string(key).map(str::to_owned)
}

/// The text of an optional string.
pub open spec fn opt_text(o: Option<String>) -> Option<Seq<char>> {
    match o {
        Some(s) => Some(s@),
        None => None,
    }
}

/// The year of an optional tag text.
pub open spec fn opt_year(o: Option<String>) -> Option<i16> {
    match o {
        Some(s) => year_of(s@),
        None => None,
    }
}

/// The number in an optional tag text.
pub open spec fn opt_number(o: Option<String>) -> Option<u32> {
    match o {
        Some(s) => text::u32_value(s@),
        None => None,
    }
}

/// An optional tag text without surrounding whitespace.
pub open spec fn opt_trimmed(o: Option<String>) -> Option<Seq<char>> {
    match o {
        Some(s) => Some(text::trimmed(s@)),
        None => None,
    }
}

impl Tags {
    /// The text under a key.
    pub open spec fn spec_get(&self, key: TagKey) -> Option<String> {
        match key {
            TagKey::OriginalReleaseDate => self.original_release_date,
            TagKey::ReleaseDate => self.release_date,
            TagKey::Year => self.year,
            TagKey::RecordingDate => self.recording_date,
            TagKey::AlbumTitle => self.album_title,
            TagKey::AlbumArtist => self.album_artist,
            TagKey::TrackArtist => self.track_artist,
            TagKey::TrackTitle => self.track_title,
            TagKey::TrackNumber => self.track_number,
            TagKey::DiscNumber => self.disc_number,
            TagKey::DiscTotal => self.disc_total,
        }
    }

    /// The line that shows the item under `key`: the key's name, `: ` and
    /// the text; nothing where the tag has no such item.
    pub open spec fn shown(&self, key: TagKey) -> Seq<Seq<char>> {
        match self.spec_get(key) {
            Some(t) => seq![key.spec_name() + ": "@ + t@],
            None => seq![],
        }
    }

    /// The lines that show the first `n` keys' items.
    pub open spec fn shown_upto(&self, n: nat) -> Seq<Seq<char>>
        decreases n,
    {
        if n == 0 || n > TagKey::all().len() {
            seq![]
        } else {
            self.shown_upto((n - 1) as nat) + self.shown(TagKey::all()[n - 1])
        }
    }

    /// The lines that show the tag: one for each item that it has.
    pub open spec fn spec_lines(&self) -> Seq<Seq<char>> {
        self.shown_upto(TagKey::all().len())
    }

    fn get(&self, key: TagKey) -> (r: &Option<String>)
        ensures
            *r == self.spec_get(key),
    {
        match key {
            TagKey::OriginalReleaseDate => &self.original_release_date,
            TagKey::ReleaseDate => &self.release_date,
            TagKey::Year => &self.year,
            TagKey::RecordingDate => &self.recording_date,
            TagKey::AlbumTitle => &self.album_title,
            TagKey::AlbumArtist => &self.album_artist,
            TagKey::TrackArtist => &self.track_artist,
            TagKey::TrackTitle => &self.track_title,
            TagKey::TrackNumber => &self.track_number,
            TagKey::DiscNumber => &self.disc_number,
            TagKey::DiscTotal => &self.disc_total,
        }
    }

    /// The tag as lines, one for each item that it has.
    pub fn lines(&self) -> (r: Vec<String>)
        ensures
            crate::path::names(r@) == self.spec_lines(),
    {
        let keys = [
            TagKey::OriginalReleaseDate,
            TagKey::ReleaseDate,
            TagKey::Year,
            TagKey::RecordingDate,
            TagKey::AlbumTitle,
            TagKey::AlbumArtist,
            TagKey::TrackArtist,
            TagKey::TrackTitle,
            TagKey::TrackNumber,
            TagKey::DiscNumber,
            TagKey::DiscTotal,
        ];
        assert(keys@ =~= TagKey::all());
        let mut out: Vec<String> = Vec::new();
        let mut i: usize = 0;
        assert(crate::path::names(out@) =~= self.shown_upto(0));
        while i < 11
            invariant
                i <= 11,
                keys@ == TagKey::all(),
                crate::path::names(out@) == self.shown_upto(i as nat),
            decreases 11 - i,
        {
            let key = keys[i];
            match self.get(key) {
                Some(t) => {
                    let mut line = text::chars(key.name());
                    text::extend_str(&mut line, ": ");
                    text::extend_str(&mut line, t.as_str());
                    let ghost before = crate::path::names(out@);
                    out.push(text::string(&line));
                    assert(crate::path::names(out@) =~= before.push(line@));
                    assert(self.shown(key) =~= seq![line@]);
                },
                None => {},
            }
            assert(crate::path::names(out@) =~= self.shown_upto((i + 1) as nat));
            i += 1;
        }
        out
    }

    /// A tag without any item.
    pub fn new() -> (r: Tags)
        ensures
            forall|k: TagKey| r.spec_get(k) is None,
    {
        Tags {
            original_release_date: None,
            release_date: None,
            year: None,
            recording_date: None,
            album_title: None,
            album_artist: None,
            track_artist: None,
            track_title: None,
            track_number: None,
            disc_number: None,
            disc_total: None,
        }
    }

    /// Puts `text` under `key`; the other items stay.
    pub fn set(&mut self, key: TagKey, text: Option<String>)
        ensures
            forall|k: TagKey|
                final(self).spec_get(k) == if k == key {
                    text
                } else {
                    old(self).spec_get(k)
                },
    {
        match key {
            TagKey::OriginalReleaseDate => self.original_release_date = text,
            TagKey::ReleaseDate => self.release_date = text,
            TagKey::Year => self.year = text,
            TagKey::RecordingDate => self.recording_date = text,
            TagKey::AlbumTitle => self.album_title = text,
            TagKey::AlbumArtist => self.album_artist = text,
            TagKey::TrackArtist => self.track_artist = text,
            TagKey::TrackTitle => self.track_title = text,
            TagKey::TrackNumber => self.track_number = text,
            TagKey::DiscNumber => self.disc_number = text,
            TagKey::DiscTotal => self.disc_total = text,
        }
    }

    /// What reading a tag comes to, given what the file gave. `found` is
    /// nothing where the contents could not be read as an audio file, and
    /// else tells whether the file has its primary tag; `items` holds the
    /// items of that tag. A file that cannot be read is `Unreadable`, a file
    /// without primary tag is `NoPrimaryTag`, and any other file gives its
    /// items.
    pub fn outcome(found: Option<bool>, items: Tags) -> (r: Result<Tags, TagsErr>)
        ensures
            r == match found {
                None => Err::<Tags, TagsErr>(TagsErr::Unreadable),
                Some(false) => Err::<Tags, TagsErr>(TagsErr::NoPrimaryTag),
                Some(true) => Ok::<Tags, TagsErr>(items),
            },
    {
        match found {
            None => Err(TagsErr::Unreadable),
            Some(tagged) => {
                if tagged {
                    Ok(items)
                } else {
                    Err(TagsErr::NoPrimaryTag)
                }
            },
        }
    }

    /// Reads the tag of an audio file from its contents; `ext` is the
    /// file's extension, by which the kind of file is told. The items come
    /// as the `lofty` crate reads them: what they hold is not claimed here.
    /// [`Tags::outcome`] says what the reading comes to, and
    /// [`Parts::from_tags`] what is made of the items.
    pub fn read(contents: Vec<u8>, ext: Option<&str>) -> (r: Result<Tags, TagsErr>) {
        let file = match probe(contents, ext) {
            Some(file) => file,
            None => {
                return Tags::outcome(None, Tags::new());
            },
        };
        let tagged = has_primary_tag(&file);
        let mut tags = Tags::new();
        if tagged {
            tags.set(TagKey::OriginalReleaseDate, tag_text(&file, TagKey::OriginalReleaseDate));
            tags.set(TagKey::ReleaseDate, tag_text(&file, TagKey::ReleaseDate));
            tags.set(TagKey::Year, tag_text(&file, TagKey::Year));
            tags.set(TagKey::RecordingDate, tag_text(&file, TagKey::RecordingDate));
            tags.set(TagKey::AlbumTitle, tag_text(&file, TagKey::AlbumTitle));
            tags.set(TagKey::AlbumArtist, tag_text(&file, TagKey::AlbumArtist));
            tags.set(TagKey::TrackArtist, tag_text(&file, TagKey::TrackArtist));
            tags.set(TagKey::TrackTitle, tag_text(&file, TagKey::TrackTitle));
            tags.set(TagKey::TrackNumber, tag_text(&file, TagKey::TrackNumber));
            tags.set(TagKey::DiscNumber, tag_text(&file, TagKey::DiscNumber));
            tags.set(TagKey::DiscTotal, tag_text(&file, TagKey::DiscTotal));
        }
        Tags::outcome(Some(tagged), tags)
    }

    /// The first year that one of the date items gives: original release
    /// date, release date, year, recording date, in this order.
    pub open spec fn spec_year(&self) -> Option<i16> {
        if opt_year(self.original_release_date) is Some {
            opt_year(self.original_release_date)
        } else if opt_year(self.release_date) is Some {
            opt_year(self.release_date)
        } else if opt_year(self.year) is Some {
            opt_year(self.year)
        } else {
            opt_year(self.recording_date)
        }
    }

    /// The album artist where the tag has one, else the track artist.
    pub open spec fn spec_artist(&self) -> Option<Seq<char>> {
        if self.album_artist is Some {
            opt_trimmed(self.album_artist)
        } else {
            opt_trimmed(self.track_artist)
        }
    }

    /// Disc number and disc total, where the tag gives both as numbers.
    pub open spec fn spec_set(&self) -> Option<(u32, u32)> {
        match (opt_number(self.disc_number), opt_number(self.disc_total)) {
            (Some(n), Some(total)) => Some((n, total)),
            _ => None,
        }
    }

    /// What the tag lacks for naming, in the order year, album, artist,
    /// title, track.
    pub open spec fn missing(&self) -> Seq<Seq<char>> {
        (if self.spec_year() is None {
            seq!["missing year"@]
        } else {
            seq![]
        }) + (if self.album_title is None {
            seq!["missing album"@]
        } else {
            seq![]
        }) + (if self.spec_artist() is None {
            seq!["missing artist"@]
        } else {
            seq![]
        }) + (if self.track_title is None {
            seq!["missing title"@]
        } else {
            seq![]
        }) + (if opt_number(self.track_number) is None {
            seq!["missing track"@]
        } else {
            seq![]
        })
    }

    /// The naming parts that the tag gives, if it lacks none.
    pub open spec fn spec_parts(&self) -> Option<PartsModel> {
        if self.missing().len() == 0 {
            Some(
                PartsModel {
                    year: self.spec_year()->0,
                    artist: self.spec_artist()->0,
                    album: opt_trimmed(self.album_title)->0,
                    track: opt_number(self.track_number)->0,
                    title: opt_trimmed(self.track_title)->0,
                    set: self.spec_set(),
                },
            )
        } else {
            None
        }
    }
}

/// What names a track: year, artist, album, track number and title, and the
/// disc where the album has several.
#[derive(Clone, Debug, PartialEq, Eq)]
pub struct Parts {
    pub year: i16,
    pub artist: String,
    pub album: String,
    pub track: u32,
    pub title: String,
    pub set: Option<(u32, u32)>,
}

/// Mathematical value of [`Parts`].
pub struct PartsModel {
    pub year: i16,
    pub artist: Seq<char>,
    pub album: Seq<char>,
    pub track: u32,
    pub title: Seq<char>,
    pub set: Option<(u32, u32)>,
}

impl View for Parts {
    type V = PartsModel;

    open spec fn view(&self) -> PartsModel {
        PartsModel {
            year: self.year,
            artist: self.artist@,
            album: self.album@,
            track: self.track,
            title: self.title@,
            set: self.set,
        }
    }
}

impl PartsModel {
    /// `Artist - Album`.
    pub open spec fn artist_album(self) -> Seq<char> {
        self.artist + " - "@ + self.album
    }

    /// The album directory: `Artist - Album (Year)`.
    pub open spec fn album_dir(self) -> Seq<char> {
        self.artist_album() + " ("@ + text::signed_decimal(self.year as int) + ")"@
    }

    /// `Disc N ` where the album has more than one disc, else nothing.
    pub open spec fn disc(self) -> Seq<char> {
        match self.set {
            Some((n, total)) => if total > 1 {
                "Disc "@ + text::decimal_pad2(n as nat) + " "@
            } else {
                Seq::empty()
            },
            None => Seq::empty(),
        }
    }

    /// The file name without extension:
    /// `[Disc N ]Artist - Album - Track - Title`.
    pub open spec fn file_name(self) -> Seq<char> {
        self.disc() + self.artist_album() + " - "@ + text::decimal_pad2(self.track as nat) + " - "@
            + self.title
    }

    /// `path` with the three components that name the track, each
    /// sanitized: artist, album directory, file name.
    pub open spec fn appended(self, path: PathModel) -> PathModel {
        path.pushed(sanitized(self.artist)).pushed(sanitized(self.album_dir())).pushed(
            sanitized(self.file_name()),
        )
    }
}

fn trimmed_opt(o: &Option<String>) -> (r: Option<String>)
    ensures
        opt_text(r) == opt_trimmed(*o),
{
    match o {
        Some(s) => Some(text::trim_str(s.as_str())),
        None => None,
    }
}

fn year_opt(o: &Option<String>) -> (r: Option<i16>)
    ensures
        r == opt_year(*o),
{
    match o {
        Some(s) => parse_year(s.as_str()),
        None => None,
    }
}

fn number_opt(o: &Option<String>) -> (r: Option<u32>)
    ensures
        r == opt_number(*o),
{
    match o {
        Some(s) => text::parse_u32(s.as_str()),
        None => None,
    }
}

fn note(errors: &mut Vec<String>, message: &str)
    ensures
        crate::path::names(final(errors)@) == crate::path::names(old(errors)@).push(message@),
{
    errors.push(text::string(&text::chars(message)));
    assert(crate::path::names(errors@) == crate::path::names(old(errors)@).push(message@));
}

impl Parts {
    /// Picks the naming parts out of a tag. Each part that the tag lacks is
    /// noted in `errors`; the parts come back only if none is lacking.
    pub fn from_tags(tags: &Tags, errors: &mut Vec<String>) -> (r: Option<Parts>)
        ensures
            crate::path::names(final(errors)@) == crate::path::names(old(errors)@) + tags.missing(),
            match r {
                Some(p) => tags.spec_parts() == Some(p@),
                None => tags.spec_parts() is None,
            },
    {
        let ghost start = crate::path::names(errors@);
        let mut year = year_opt(&tags.original_release_date);
        if year.is_none() {
            year = year_opt(&tags.release_date);
        }
        if year.is_none() {
            year = year_opt(&tags.year);
        }
        if year.is_none() {
            year = year_opt(&tags.recording_date);
        }
        assert(year == tags.spec_year());
        if year.is_none() {
            note(errors, "missing year");
        }
        let album = trimmed_opt(&tags.album_title);
        if album.is_none() {
            note(errors, "missing album");
        }
        let artist = if tags.album_artist.is_some() {
            trimmed_opt(&tags.album_artist)
        } else {
            trimmed_opt(&tags.track_artist)
        };
        if artist.is_none() {
            note(errors, "missing artist");
        }
        let title = trimmed_opt(&tags.track_title);
        if title.is_none() {
            note(errors, "missing title");
        }
        let track = number_opt(&tags.track_number);
        if track.is_none() {
            note(errors, "missing track");
        }
        assert(crate::path::names(errors@) =~= start + tags.missing());
        let set = match (number_opt(&tags.disc_number), number_opt(&tags.disc_total)) {
            (Some(n), Some(total)) => Some((n, total)),
            _ => None,
        };
        match (year, artist, album, track, title) {
            (Some(year), Some(artist), Some(album), Some(track), Some(title)) => Some(
                Parts { year, artist, album, track, title, set },
            ),
            _ => None,
        }
    }

    /// Reads the naming parts of an audio file from its contents. Whatever
    /// tag is read, the result is what [`Parts::from_tags`] makes of it:
    /// every part that the tag lacks is noted in `errors`, and the parts
    /// come back only if none is lacking. Where no tag can be read, nothing
    /// is noted.
    pub fn read(contents: Vec<u8>, ext: Option<&str>, errors: &mut Vec<String>) -> (r: Result<
        Option<Parts>,
        TagsErr,
    >)
        ensures
            match r {
                Ok(parts) => exists|tags: Tags|
                    {
                        &&& crate::path::names(final(errors)@) == crate::path::names(old(errors)@)
                            + #[trigger] tags.missing()
                        &&& match parts {
                            Some(p) => tags.spec_parts() == Some(p@),
                            None => tags.spec_parts() is None,
                        }
                    },
                Err(_) => final(errors)@ == old(errors)@,
            },
    {
        Parts::of_read(Tags::read(contents, ext), errors)
    }

    /// What is made of a tag that was read, or of the failure to read one.
    /// A failure is handed on and nothing is noted. A tag gives what
    /// [`Parts::from_tags`] makes of it: every part that it lacks is noted
    /// in `errors`, and the parts come back only if none is lacking.
    pub fn of_read(read: Result<Tags, TagsErr>, errors: &mut Vec<String>) -> (r: Result<
        Option<Parts>,
        TagsErr,
    >)
        ensures
            match read {
                Err(e) => r == Err::<Option<Parts>, TagsErr>(e) && final(errors)@ == old(errors)@,
                Ok(tags) => {
                    &&& r is Ok
                    &&& crate::path::names(final(errors)@) == crate::path::names(old(errors)@)
                        + tags.missing()
                    &&& match r->Ok_0 {
                        Some(p) => tags.spec_parts() == Some(p@),
                        None => tags.spec_parts() is None,
                    }
                },
            },
    {
        match read {
            Err(e) => Err(e),
            Ok(tags) => Ok(Parts::from_tags(&tags, errors)),
        }
    }

    /// Appends the directory layout of the track to `path`:
    /// `Artist/Artist - Album (Year)/[Disc N ]Artist - Album - Track - Title`.
    pub fn append_to(&self, path: &mut FilePath)
        ensures
            final(path)@ == self@.appended(old(path)@),
    {
        push_sanitized(path, self.artist.as_str());
        let mut both: Vec<char> = Vec::new();
        text::extend_str(&mut both, self.artist.as_str());
        text::extend_str(&mut both, " - ");
        text::extend_str(&mut both, self.album.as_str());
        assert(both@ == self@.artist_album());
        let mut dir: Vec<char> = Vec::new();
        text::extend(&mut dir, &both);
        text::extend_str(&mut dir, " (");
        text::push_signed_decimal(&mut dir, self.year as i64);
        text::extend_str(&mut dir, ")");
        assert(dir@ == self@.album_dir());
        push_sanitized(path, text::string(&dir).as_str());
        let mut name: Vec<char> = Vec::new();
        match self.set {
            Some((n, total)) => {
                if total > 1 {
                    text::extend_str(&mut name, "Disc ");
                    text::push_decimal_pad2(&mut name, n as u64);
                    text::extend_str(&mut name, " ");
                }
            },
            None => {},
        }
        assert(name@ == self@.disc());
        text::extend(&mut name, &both);
        text::extend_str(&mut name, " - ");
        text::push_decimal_pad2(&mut name, self.track as u64);
        text::extend_str(&mut name, " - ");
        text::extend_str(&mut name, self.title.as_str());
        assert(name@ == self@.file_name());
        push_sanitized(path, text::string(&name).as_str());
    }
}

} // verus!
