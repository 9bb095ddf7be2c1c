//! Encoder bitrates per format, and the settings that change them.

use vstd::prelude::*;

use crate::condition::{ConditionErr, FromCondition};
use crate::format::{
    Format, FormatSet, DEFAULT_BITRATE_AAC, DEFAULT_BITRATE_MP3, DEFAULT_BITRATE_OGG,
};
use crate::text;

verus! {

/// The bitrate in kbps of each format that has one.
#[derive(Clone, Copy, Debug, PartialEq, Eq, Structural)]
pub struct Bitrates {
    pub aac: Option<u32>,
    pub flac: Option<u32>,
    pub mp3: Option<u32>,
    pub ogg: Option<u32>,
    pub wav: Option<u32>,
}

impl Bitrates {
    pub open spec fn spec_get(self, format: Format) -> Option<u32> {
        match format {
            Format::Aac => self.aac,
            Format::Flac => self.flac,
            Format::Mp3 => self.mp3,
            Format::Ogg => self.ogg,
            Format::Wav => self.wav,
        }
    }

    /// The bitrate of `format`, if one is set.
    pub fn get(&self, format: &Format) -> (r: Option<u32>)
        ensures
            r == self.spec_get(*format),
    {
        match format {
            Format::Aac => self.aac,
            Format::Flac => self.flac,
            Format::Mp3 => self.mp3,
            Format::Ogg => self.ogg,
            Format::Wav => self.wav,
        }
    }

    /// Sets the bitrate of `format`.
    pub fn set(&mut self, format: Format, bitrate: u32)
        ensures
            forall|f: Format|
                final(self).spec_get(f) == if f == format {
                    Some(bitrate)
                } else {
                    old(self).spec_get(f)
                },
    {
        match format {
            Format::Aac => self.aac = Some(bitrate),
            Format::Flac => self.flac = Some(bitrate),
            Format::Mp3 => self.mp3 = Some(bitrate),
            Format::Ogg => self.ogg = Some(bitrate),
            Format::Wav => self.wav = Some(bitrate),
        }
    }

    /// The bitrates of a run without settings: the default of each lossy
    /// format.
    pub fn new() -> (r: Bitrates)
        ensures
            r == (Bitrates {
                aac: Format::Aac.spec_default_bitrate(),
                flac: None,
                mp3: Format::Mp3.spec_default_bitrate(),
                ogg: Format::Ogg.spec_default_bitrate(),
                wav: None,
            }),
            forall|f: Format| r.spec_get(f) == f.spec_default_bitrate(),
    {
        Bitrates {
            aac: Some(DEFAULT_BITRATE_AAC),
            flac: None,
            mp3: Some(DEFAULT_BITRATE_MP3),
            ogg: Some(DEFAULT_BITRATE_OGG),
            wav: None,
        }
    }

    /// The encoder arguments that set the bitrate of `format`: `-ab` and
    /// the bitrate followed by `k`, where a bitrate above zero is set.
    pub open spec fn spec_args(self, format: Format) -> Seq<Seq<char>> {
        match self.spec_get(format) {
            Some(b) => if b > 0 {
                seq!["-ab"@, text::decimal(b as nat).push('k')]
            } else {
                seq![]
            },
            None => seq![],
        }
    }
}

impl Default for Bitrates {
    fn default() -> (r: Bitrates)
        ensures
            forall|f: Format| r.spec_get(f) == f.spec_default_bitrate(),
    {
        Bitrates::new()
    }
}

/// A bitrate setting could not be read.
#[derive(Clone, Copy, Debug, PartialEq, Eq, Structural)]
pub enum SetBitRateErr {
    MissingSeparator,
    InvalidFromCondition(ConditionErr),
    InvalidBitrate,
}

impl SetBitRateErr {
    pub open spec fn spec_message(self) -> Seq<char> {
        match self {
            SetBitRateErr::MissingSeparator => "missing '=' separator"@,
            SetBitRateErr::InvalidFromCondition(e) => "invalid from condition: "@
                + "unsupported format"@,
            SetBitRateErr::InvalidBitrate => "invalid bitrate"@,
        }
    }

    /// The message shown for this error.
    pub fn message(&self) -> (r: String)
        ensures
            r@ == self.spec_message(),
    {
        let mut out: Vec<char> = Vec::new();
        match self {
            SetBitRateErr::MissingSeparator => text::extend_str(&mut out, "missing '=' separator"),
            SetBitRateErr::InvalidFromCondition(e) => {
                text::extend_str(&mut out, "invalid from condition: ");
                text::extend_str(&mut out, e.message());
            },
            SetBitRateErr::InvalidBitrate => text::extend_str(&mut out, "invalid bitrate"),
        }
        text::string(&out)
    }

    /// The setting error that a rule error amounts to.
    pub fn from(e: ConditionErr) -> (r: SetBitRateErr)
        ensures
            r == SetBitRateErr::InvalidFromCondition(e),
    {
        SetBitRateErr::InvalidFromCondition(e)
    }
}

/// A format was given a bitrate although it is encoded without one.
#[derive(Clone, Copy, Debug, PartialEq, Eq, Structural)]
pub struct NoBitrate {
    pub format: Format,
}

impl NoBitrate {
    /// The message shown for this error.
    pub fn message(&self) -> (r: String)
        ensures
            r@ == "Cannot set custom bitrate for format: "@ + self.format.spec_ext(),
    {
        let mut out: Vec<char> = Vec::new();
        text::extend_str(&mut out, "Cannot set custom bitrate for format: ");
        text::extend_str(&mut out, self.format.ext());
        text::string(&out)
    }
}

/// A bitrate for the formats that `from` names; zero stands for the
/// format's default.
#[derive(Clone, Copy, Debug, PartialEq, Eq, Structural)]
pub struct SetBitRate {
    pub from: FromCondition,
    pub bitrate: u32,
}

impl SetBitRate {
    /// What a setting text denotes: a source rule and a bitrate on either
    /// side of the first `=`.
    pub open spec fn spec_parse(s: Seq<char>) -> Result<SetBitRate, SetBitRateErr> {
        let i = text::first_index(s, '=');
        if i < 0 {
            Err(SetBitRateErr::MissingSeparator)
        } else {
            match FromCondition::spec_parse(s.take(i)) {
                Err(e) => Err(SetBitRateErr::InvalidFromCondition(e)),
                Ok(from) => match text::u32_value(s.skip(i + 1)) {
                    None => Err(SetBitRateErr::InvalidBitrate),
                    Some(bitrate) => Ok(SetBitRate { from, bitrate }),
                },
            }
        }
    }

    /// Reads a setting such as `mp3=256` or `lossy=0`.
    pub fn parse(s: &str) -> (r: Result<SetBitRate, SetBitRateErr>)
        ensures
            r == SetBitRate::spec_parse(s@),
    {
        let v = text::chars(s);
        match text::find(&v, '=') {
            None => Err(SetBitRateErr::MissingSeparator),
            Some(i) => {
                let left = text::string(&text::slice(&v, 0, i));
                let right = text::string(&text::slice(&v, i + 1, v.len()));
                match FromCondition::parse(left.as_str()) {
                    Err(e) => Err(SetBitRateErr::from(e)),
                    Ok(from) => match text::parse_u32(right.as_str()) {
                        None => Err(SetBitRateErr::InvalidBitrate),
                        Some(bitrate) => Ok(SetBitRate { from, bitrate }),
                    },
                }
            },
        }
    }

    /// The text that `parse` reads back.
    pub fn name(&self) -> (r: String)
        ensures
            r@ == self.from.spec_name().push('=') + text::decimal(self.bitrate as nat),
    {
        let mut out: Vec<char> = Vec::new();
        text::extend_str(&mut out, self.from.name().as_str());
        out.push('=');
        text::push_decimal(&mut out, self.bitrate as u64);
        text::string(&out)
    }

    /// Whether the setting changes the bitrate of `f`: `f` has a bitrate
    /// and the source rule names it.
    pub open spec fn picks(self, bitrates: Bitrates, f: Format) -> bool {
        bitrates.spec_get(f) is Some && self.from.spec_matches(f)
    }

    /// The bitrate that the setting gives to `f`.
    pub open spec fn value(self, f: Format) -> u32 {
        if self.bitrate == 0 {
            f.spec_default_bitrate()->0
        } else {
            self.bitrate
        }
    }

    /// The first format in declaration order that the setting picks
    /// although it has no default bitrate.
    pub open spec fn offending(self, bitrates: Bitrates) -> Option<Format> {
        if self.picks(bitrates, Format::Flac) {
            Some(Format::Flac)
        } else if self.picks(bitrates, Format::Wav) {
            Some(Format::Wav)
        } else {
            None
        }
    }

    /// Applies the setting: every picked format gets the bitrate, and is
    /// marked for re-encoding where `force` is set. Where a picked format is
    /// encoded without bitrate, nothing is changed and the format is named.
    pub fn apply(&self, bitrates: &mut Bitrates, forced: &mut FormatSet, force: bool) -> (r: Result<
        (),
        NoBitrate,
    >)
        ensures
            match self.offending(*old(bitrates)) {
                Some(format) => r == Err::<(), NoBitrate>(NoBitrate { format }) && *final(bitrates)
                    == *old(bitrates) && final(forced)@ == old(forced)@,
                None => r is Ok && (forall|f: Format|
                    final(bitrates).spec_get(f) == if self.picks(*old(bitrates), f) {
                        Some(self.value(f))
                    } else {
                        old(bitrates).spec_get(f)
                    }) && (forall|f: Format|
                    final(forced)@.contains(f) == (old(forced)@.contains(f) || (force && self.picks(
                        *old(bitrates),
                        f,
                    )))),
            },
    {
        if bitrates.get(&Format::Flac).is_some() && self.from.matches(Format::Flac) {
            return Err(NoBitrate { format: Format::Flac });
        }
        if bitrates.get(&Format::Wav).is_some() && self.from.matches(Format::Wav) {
            return Err(NoBitrate { format: Format::Wav });
        }
        self.apply_to(Format::Aac, DEFAULT_BITRATE_AAC, bitrates, forced, force);
        self.apply_to(Format::Mp3, DEFAULT_BITRATE_MP3, bitrates, forced, force);
        self.apply_to(Format::Ogg, DEFAULT_BITRATE_OGG, bitrates, forced, force);
        Ok(())
    }

    fn apply_to(
        &self,
        format: Format,
        default: u32,
        bitrates: &mut Bitrates,
        forced: &mut FormatSet,
        force: bool,
    )
        requires
            format.spec_default_bitrate() == Some(default),
        ensures
            forall|f: Format|
                final(bitrates).spec_get(f) == if f == format && self.picks(*old(bitrates), f) {
                    Some(self.value(f))
                } else {
                    old(bitrates).spec_get(f)
                },
            forall|f: Format|
                final(forced)@.contains(f) == (old(forced)@.contains(f) || (f == format && force
                    && self.picks(*old(bitrates), f))),
    {
        if bitrates.get(&format).is_some() && self.from.matches(format) {
            if force {
                forced.insert(format);
            }
            let value = if self.bitrate == 0 {
                default
            } else {
                self.bitrate
            };
            bitrates.set(format, value);
        }
    }
}

impl FromCondition {
    /// The formats that have a bitrate and that the rule names, in
    /// declaration order.
    pub fn pick_bitrates(&self, bitrates: &Bitrates) -> (r: Vec<Format>)
        ensures
            r@ == crate::format::ordered(
                Set::new(|f: Format| bitrates.spec_get(f) is Some && self.spec_matches(f)),
            ),
    {
        let mut set = FormatSet::new();
        if bitrates.aac.is_some() && self.matches(Format::Aac) {
            set.insert(Format::Aac);
        }
        if bitrates.flac.is_some() && self.matches(Format::Flac) {
            set.insert(Format::Flac);
        }
        if bitrates.mp3.is_some() && self.matches(Format::Mp3) {
            set.insert(Format::Mp3);
        }
        if bitrates.ogg.is_some() && self.matches(Format::Ogg) {
            set.insert(Format::Ogg);
        }
        if bitrates.wav.is_some() && self.matches(Format::Wav) {
            set.insert(Format::Wav);
        }
        assert(set@ =~= Set::new(|f: Format| bitrates.spec_get(f) is Some && self.spec_matches(f)));
        set.to_vec()
    }
}

} // verus!
