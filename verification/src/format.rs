//! The closed set of audio formats and their per-format attributes.

use vstd::prelude::*;

use crate::text;

verus! {

/// Bitrate in kbps used for AAC output unless configured otherwise.
pub const DEFAULT_BITRATE_AAC: u32 = 192;

/// Bitrate in kbps used for MP3 output unless configured otherwise.
pub const DEFAULT_BITRATE_MP3: u32 = 320;

/// Bitrate in kbps used for Ogg output unless configured otherwise.
pub const DEFAULT_BITRATE_OGG: u32 = 192;

/// The text was not the name of a supported format.
#[derive(Copy, Clone, Debug, PartialEq, Eq, Structural)]
pub struct FormatErr;

impl FormatErr {
    /// The message shown for this error.
    pub fn message(&self) -> (r: &'static str)
        ensures
            r@ == "unsupported format"@,
    {
        "unsupported format"
    }
}

/// An audio format. The declaration order is the order in which target
/// formats of one source are planned.
#[derive(Copy, Clone, Debug, PartialEq, Eq, Hash, PartialOrd, Ord, Structural)]
pub enum Format {
    Aac,
    Flac,
    Mp3,
    Ogg,
    Wav,
}

impl Format {
    /// Position of the format in declaration order.
    pub open spec fn rank(self) -> nat {
        match self {
            Format::Aac => 0,
            Format::Flac => 1,
            Format::Mp3 => 2,
            Format::Ogg => 3,
            Format::Wav => 4,
        }
    }

    /// All formats in declaration order.
    pub open spec fn all() -> Seq<Format> {
        seq![Format::Aac, Format::Flac, Format::Mp3, Format::Ogg, Format::Wav]
    }

    pub open spec fn spec_default_bitrate(self) -> Option<u32> {
        match self {
            Format::Aac => Some(DEFAULT_BITRATE_AAC),
            Format::Mp3 => Some(DEFAULT_BITRATE_MP3),
            Format::Ogg => Some(DEFAULT_BITRATE_OGG),
            Format::Flac | Format::Wav => None,
        }
    }

    pub open spec fn spec_is_lossless(self) -> bool {
        self == Format::Flac || self == Format::Wav
    }

    /// File extension of the format.
    pub open spec fn spec_ext(self) -> Seq<char> {
        match self {
            Format::Aac => "aac"@,
            Format::Flac => "flac"@,
            Format::Mp3 => "mp3"@,
            Format::Ogg => "ogg"@,
            Format::Wav => "wav"@,
        }
    }

    /// Container name handed to the encoder with `-f`.
    pub open spec fn spec_ffmpeg_format(self) -> Seq<char> {
        match self {
            Format::Aac => "adts"@,
            Format::Flac => "flac"@,
            Format::Mp3 => "mp3"@,
            Format::Ogg => "ogg"@,
            Format::Wav => "wav"@,
        }
    }

    /// The format named by a file extension, if any. Matching is exact:
    /// no case folding and no trimming.
    pub open spec fn spec_from_ext(ext: Seq<char>) -> Option<Format> {
        if ext == "aac"@ {
            Some(Format::Aac)
        } else if ext == "flac"@ {
            Some(Format::Flac)
        } else if ext == "mp3"@ {
            Some(Format::Mp3)
        } else if ext == "ogg"@ {
            Some(Format::Ogg)
        } else if ext == "wav"@ {
            Some(Format::Wav)
        } else {
            None
        }
    }

    /// The default bitrate of a lossy format; lossless formats have none.
    pub fn default_bitrate(&self) -> (r: Option<u32>)
        ensures
            r == self.spec_default_bitrate(),
    {
        match self {
            Format::Aac => Some(DEFAULT_BITRATE_AAC),
            Format::Mp3 => Some(DEFAULT_BITRATE_MP3),
            Format::Ogg => Some(DEFAULT_BITRATE_OGG),
            _ => None,
        }
    }

    /// Whether the format keeps the audio as it is: true of flac and wav.
    pub fn is_lossless(&self) -> (r: bool)
        ensures
            r == self.spec_is_lossless(),
    {
        matches!(self, Format::Flac | Format::Wav)
    }

    /// The file extension of the format.
    pub fn ext(&self) -> (r: &'static str)
        ensures
            r@ == self.spec_ext(),
    {
        match self {
            Format::Aac => "aac",
            Format::Flac => "flac",
            Format::Mp3 => "mp3",
            Format::Ogg => "ogg",
            Format::Wav => "wav",
        }
    }

    /// The container name that the encoder knows the format by.
    pub fn ffmpeg_format(&self) -> (r: &'static str)
        ensures
            r@ == self.spec_ffmpeg_format(),
    {
        match self {
            Format::Aac => "adts",
            Format::Flac => "flac",
            Format::Mp3 => "mp3",
            Format::Ogg => "ogg",
            Format::Wav => "wav",
        }
    }

    /// The format that a file extension names, if any.
    pub fn from_ext(ext: &str) -> (r: Option<Format>)
        ensures
            r == Format::spec_from_ext(ext@),
    {
        let e = text::chars(ext);
        if text::same_chars(&e, &text::chars("aac")) {
            Some(Format::Aac)
        } else if text::same_chars(&e, &text::chars("flac")) {
            Some(Format::Flac)
        } else if text::same_chars(&e, &text::chars("mp3")) {
            Some(Format::Mp3)
        } else if text::same_chars(&e, &text::chars("ogg")) {
            Some(Format::Ogg)
        } else if text::same_chars(&e, &text::chars("wav")) {
            Some(Format::Wav)
        } else {
            None
        }
    }

    /// Reads a format name: succeeds exactly on the five extensions.
    pub fn parse(s: &str) -> (r: Result<Format, FormatErr>)
        ensures
            r == match Format::spec_from_ext(s@) {
                Some(f) => Ok::<Format, FormatErr>(f),
                None => Err::<Format, FormatErr>(FormatErr),
            },
    {
        match Format::from_ext(s) {
            Some(f) => Ok(f),
            None => Err(FormatErr),
        }
    }

    /// The name under which the format is shown: its extension.
    pub fn name(&self) -> (r: String)
        ensures
            r@ == self.spec_ext(),
    {
        text::string(&text::chars(self.ext()))
    }
}

/// A set of formats.
#[derive(Copy, Clone, Debug, PartialEq, Eq, Structural)]
pub struct FormatSet {
    aac: bool,
    flac: bool,
    mp3: bool,
    ogg: bool,
    wav: bool,
}

/// The formats of `s` in declaration order, each at most once.
pub open spec fn ordered(s: Set<Format>) -> Seq<Format> {
    (if s.contains(Format::Aac) {
        seq![Format::Aac]
    } else {
        seq![]
    }) + (if s.contains(Format::Flac) {
        seq![Format::Flac]
    } else {
        seq![]
    }) + (if s.contains(Format::Mp3) {
        seq![Format::Mp3]
    } else {
        seq![]
    }) + (if s.contains(Format::Ogg) {
        seq![Format::Ogg]
    } else {
        seq![]
    }) + (if s.contains(Format::Wav) {
        seq![Format::Wav]
    } else {
        seq![]
    })
}

impl FormatSet {
    pub closed spec fn has(self, f: Format) -> bool {
        match f {
            Format::Aac => self.aac,
            Format::Flac => self.flac,
            Format::Mp3 => self.mp3,
            Format::Ogg => self.ogg,
            Format::Wav => self.wav,
        }
    }

    /// The empty set.
    pub fn new() -> (r: FormatSet)
        ensures
            r@ == Set::<Format>::empty(),
    {
        let r = FormatSet { aac: false, flac: false, mp3: false, ogg: false, wav: false };
        assert(r@ =~= Set::<Format>::empty());
        r
    }

    /// Whether `f` is a member.
    pub fn contains(&self, f: Format) -> (r: bool)
        ensures
            r == self@.contains(f),
    {
        match f {
            Format::Aac => self.aac,
            Format::Flac => self.flac,
            Format::Mp3 => self.mp3,
            Format::Ogg => self.ogg,
            Format::Wav => self.wav,
        }
    }

    /// Makes `f` a member.
    pub fn insert(&mut self, f: Format)
        ensures
            final(self)@ == old(self)@.insert(f),
    {
        match f {
            Format::Aac => self.aac = true,
            Format::Flac => self.flac = true,
            Format::Mp3 => self.mp3 = true,
            Format::Ogg => self.ogg = true,
            Format::Wav => self.wav = true,
        }
        assert(self@ =~= old(self)@.insert(f));
    }

    /// Whether the set has no member.
    pub fn is_empty(&self) -> (r: bool)
        ensures
            r == (self@ == Set::<Format>::empty()),
    {
        let r = !(self.aac || self.flac || self.mp3 || self.ogg || self.wav);
        proof {
            if r {
                assert(self@ =~= Set::<Format>::empty());
            } else {
                assert(self.has(Format::Aac) || self.has(Format::Flac) || self.has(Format::Mp3)
                    || self.has(Format::Ogg) || self.has(Format::Wav));
                assert(self@.contains(Format::Aac) || self@.contains(Format::Flac)
                    || self@.contains(Format::Mp3) || self@.contains(Format::Ogg)
                    || self@.contains(Format::Wav));
            }
        }
        r
    }

    /// The members in declaration order.
    pub fn to_vec(&self) -> (r: Vec<Format>)
        ensures
            r@ == ordered(self@),
    {
        let mut out: Vec<Format> = Vec::new();
        if self.aac {
            out.push(Format::Aac);
        }
        if self.flac {
            out.push(Format::Flac);
        }
        if self.mp3 {
            out.push(Format::Mp3);
        }
        if self.ogg {
            out.push(Format::Ogg);
        }
        if self.wav {
            out.push(Format::Wav);
        }
        assert(out@ =~= ordered(self@));
        out
    }
}

impl View for FormatSet {
    type V = Set<Format>;

    closed spec fn view(&self) -> Set<Format> {
        Set::new(|f: Format| self.has(f))
    }
}

/// The ordered listing names exactly the members of the set.
#[verifier::rlimit(60)]
pub proof fn lemma_ordered_lists_members(s: Set<Format>, f: Format)
    ensures
        ordered(s).contains(f) <==> s.contains(f),
{
    let o = ordered(s);
    if o.contains(f) {
        let i = choose|i: int| 0 <= i < o.len() && o[i] == f;
        assert(s.contains(o[i]));
    }
    if s.contains(f) {
        let a: int = if s.contains(Format::Aac) { 1 } else { 0 };
        let b: int = a + if s.contains(Format::Flac) { 1int } else { 0 };
        let c: int = b + if s.contains(Format::Mp3) { 1int } else { 0 };
        let d: int = c + if s.contains(Format::Ogg) { 1int } else { 0 };
        let k = match f {
            Format::Aac => 0,
            Format::Flac => a,
            Format::Mp3 => b,
            Format::Ogg => c,
            Format::Wav => d,
        };
        assert(o[k] == f);
    }
}

/// The ordered listing rises in rank: it follows the declaration order of
/// the formats and names none twice.
#[verifier::rlimit(60)]
pub proof fn lemma_ordered_rises(s: Set<Format>, i: int, j: int)
    requires
        0 <= i < j < ordered(s).len(),
    ensures
        ordered(s)[i].rank() < ordered(s)[j].rank(),
{
    let o = ordered(s);
    let a: int = if s.contains(Format::Aac) { 1 } else { 0 };
    let b: int = a + if s.contains(Format::Flac) { 1int } else { 0 };
    let c: int = b + if s.contains(Format::Mp3) { 1int } else { 0 };
    let d: int = c + if s.contains(Format::Ogg) { 1int } else { 0 };
    assert(forall|k: int| 0 <= k < a ==> o[k] == Format::Aac);
    assert(forall|k: int| a <= k < b ==> o[k] == Format::Flac);
    assert(forall|k: int| b <= k < c ==> o[k] == Format::Mp3);
    assert(forall|k: int| c <= k < d ==> o[k] == Format::Ogg);
    assert(forall|k: int| d <= k < o.len() ==> o[k] == Format::Wav);
}

/// Every format is found again from its own extension.
pub proof fn lemma_ext_round_trip(f: Format)
    ensures
        Format::spec_from_ext(f.spec_ext()) == Some(f),
{
    reveal_strlit("aac");
    reveal_strlit("flac");
    reveal_strlit("mp3");
    reveal_strlit("ogg");
    reveal_strlit("wav");
    assert("flac"@[0] == 'f');
    assert("mp3"@[0] == 'm');
    assert("ogg"@[0] == 'o');
    assert("wav"@[0] == 'w');
    assert("aac"@[0] == 'a');
}

/// The extension of a format is not empty and holds no `.`.
pub proof fn lemma_ext_is_plain(f: Format)
    ensures
        f.spec_ext().len() > 0,
        forall|i: int| 0 <= i < f.spec_ext().len() ==> #[trigger] f.spec_ext()[i] != '.',
{
    reveal_strlit("aac");
    reveal_strlit("flac");
    reveal_strlit("mp3");
    reveal_strlit("ogg");
    reveal_strlit("wav");
}

/// Exactly the formats without a default bitrate are lossless.
pub proof fn lemma_lossless_has_no_default_bitrate(f: Format)
    ensures
        f.spec_is_lossless() <==> f.spec_default_bitrate() is None,
{
}

} // verus!
