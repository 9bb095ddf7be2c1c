use audiovert::archive::{Archive, ArchiveErr};
use audiovert::bitrates::{Bitrates, NoBitrate, SetBitRate, SetBitRateErr};
use audiovert::condition::{targets, Condition, ConditionErr, FromCondition, ToCondition};
use audiovert::format::{Format, FormatErr, FormatSet};

fn rule(text: &str) -> Condition {
    Condition::parse(text).unwrap()
}

#[test]
fn rule_union_is_order_independent() {
    let a = vec![rule("lossless=mp3"), rule("flac=ogg")];
    let b = vec![rule("flac=ogg"), rule("lossless=mp3")];
    assert_eq!(targets(&a, Format::Flac).to_vec(), vec![Format::Mp3, Format::Ogg]);
    assert_eq!(targets(&b, Format::Flac).to_vec(), vec![Format::Mp3, Format::Ogg]);
}

#[test]
fn duplicate_targets_collapse() {
    let rules = vec![rule("flac=mp3"), rule("lossless=mp3"), rule("mp3")];
    assert_eq!(targets(&rules, Format::Flac).to_vec(), vec![Format::Mp3]);
}

#[test]
fn targets_come_in_declaration_order() {
    let rules = vec![rule("wav"), rule("ogg"), rule("aac"), rule("same"), rule("mp3")];
    assert_eq!(
        targets(&rules, Format::Flac).to_vec(),
        vec![Format::Aac, Format::Flac, Format::Mp3, Format::Ogg, Format::Wav]
    );
}

#[test]
fn no_matching_rule_gives_no_target() {
    let rules = vec![rule("lossless=mp3")];
    assert!(targets(&rules, Format::Ogg).is_empty());
    assert_eq!(targets(&rules, Format::Ogg).to_vec(), Vec::<Format>::new());
    assert!(targets(&Vec::new(), Format::Flac).is_empty());
}

#[test]
fn default_rules_convert_lossless_and_keep_lossy() {
    let rules = vec![rule("lossless=mp3"), rule("lossy=same")];
    assert_eq!(targets(&rules, Format::Flac).to_vec(), vec![Format::Mp3]);
    assert_eq!(targets(&rules, Format::Wav).to_vec(), vec![Format::Mp3]);
    assert_eq!(targets(&rules, Format::Mp3).to_vec(), vec![Format::Mp3]);
    assert_eq!(targets(&rules, Format::Ogg).to_vec(), vec![Format::Ogg]);
    assert_eq!(targets(&rules, Format::Aac).to_vec(), vec![Format::Aac]);
}

#[test]
fn condition_to_format() {
    assert_eq!(Condition::Same.to_format(Format::Ogg), Some(Format::Ogg));
    assert_eq!(rule("mp3").to_format(Format::Ogg), Some(Format::Mp3));
    assert_eq!(rule("lossy=flac").to_format(Format::Ogg), Some(Format::Flac));
    assert_eq!(rule("lossy=flac").to_format(Format::Wav), None);
    assert_eq!(rule("ogg=same").to_format(Format::Ogg), Some(Format::Ogg));
    assert_eq!(rule("ogg=same").to_format(Format::Mp3), None);
}

#[test]
fn condition_parse_forms() {
    assert_eq!(Condition::parse("same"), Ok(Condition::Same));
    assert_eq!(Condition::parse("mp3"), Ok(Condition::To { to: ToCondition::Exact(Format::Mp3) }));
    assert_eq!(
        Condition::parse("lossless=mp3"),
        Ok(Condition::FromTo { from: FromCondition::Lossless, to: ToCondition::Exact(Format::Mp3) })
    );
    assert_eq!(
        Condition::parse("flac=same"),
        Ok(Condition::FromTo { from: FromCondition::Exact(Format::Flac), to: ToCondition::Same })
    );
}

#[test]
fn condition_parse_errors() {
    let err = Err(ConditionErr::Format(FormatErr));
    assert_eq!(Condition::parse(""), err);
    assert_eq!(Condition::parse("mp4"), err);
    assert_eq!(Condition::parse("flac="), err);
    assert_eq!(Condition::parse("=mp3"), err);
    assert_eq!(Condition::parse("flac=mp3=ogg"), err);
    assert_eq!(Condition::parse("lossless"), err);
    assert_eq!(Condition::parse("Same"), err);
    assert_eq!(ConditionErr::Format(FormatErr).message(), "unsupported format");
    assert_eq!(FormatErr.message(), "unsupported format");
}

#[test]
fn from_condition_matches_and_names() {
    assert!(FromCondition::Lossless.matches(Format::Flac));
    assert!(FromCondition::Lossless.matches(Format::Wav));
    assert!(!FromCondition::Lossless.matches(Format::Mp3));
    assert!(FromCondition::Lossy.matches(Format::Aac));
    assert!(!FromCondition::Lossy.matches(Format::Wav));
    assert!(FromCondition::Exact(Format::Ogg).matches(Format::Ogg));
    assert!(!FromCondition::Exact(Format::Ogg).matches(Format::Mp3));
    assert_eq!(FromCondition::parse("lossy"), Ok(FromCondition::Lossy));
    assert_eq!(FromCondition::parse("wav"), Ok(FromCondition::Exact(Format::Wav)));
    assert_eq!(FromCondition::parse("same"), Err(ConditionErr::Format(FormatErr)));
    assert_eq!(FromCondition::Lossless.name(), "lossless");
    assert_eq!(FromCondition::Lossy.name(), "lossy");
    assert_eq!(FromCondition::Exact(Format::Aac).name(), "aac");
}

#[test]
fn to_condition() {
    assert_eq!(ToCondition::Same.to_format(Format::Wav), Format::Wav);
    assert_eq!(ToCondition::Exact(Format::Mp3).to_format(Format::Wav), Format::Mp3);
    assert_eq!(ToCondition::parse("same"), Ok(ToCondition::Same));
    assert_eq!(ToCondition::parse("ogg"), Ok(ToCondition::Exact(Format::Ogg)));
    assert_eq!(ToCondition::parse("lossy"), Err(ConditionErr::Format(FormatErr)));
}

#[test]
fn format_attributes() {
    assert_eq!(Format::Aac.default_bitrate(), Some(192));
    assert_eq!(Format::Mp3.default_bitrate(), Some(320));
    assert_eq!(Format::Ogg.default_bitrate(), Some(192));
    assert_eq!(Format::Flac.default_bitrate(), None);
    assert_eq!(Format::Wav.default_bitrate(), None);
    assert!(Format::Flac.is_lossless());
    assert!(Format::Wav.is_lossless());
    assert!(!Format::Aac.is_lossless());
    assert!(!Format::Mp3.is_lossless());
    assert!(!Format::Ogg.is_lossless());
    assert_eq!(Format::Aac.ext(), "aac");
    assert_eq!(Format::Flac.ext(), "flac");
    assert_eq!(Format::Mp3.ext(), "mp3");
    assert_eq!(Format::Ogg.ext(), "ogg");
    assert_eq!(Format::Wav.ext(), "wav");
    assert_eq!(Format::Aac.ffmpeg_format(), "adts");
    assert_eq!(Format::Flac.ffmpeg_format(), "flac");
    assert_eq!(Format::Mp3.ffmpeg_format(), "mp3");
    assert_eq!(Format::Ogg.ffmpeg_format(), "ogg");
    assert_eq!(Format::Wav.ffmpeg_format(), "wav");
    assert_eq!(Format::Ogg.name(), "ogg");
}

#[test]
fn format_from_ext_round_trip() {
    for f in [Format::Aac, Format::Flac, Format::Mp3, Format::Ogg, Format::Wav] {
        assert_eq!(Format::from_ext(f.ext()), Some(f));
        assert_eq!(Format::parse(f.ext()), Ok(f));
    }
    assert_eq!(Format::from_ext("MP3"), None);
    assert_eq!(Format::from_ext(" mp3"), None);
    assert_eq!(Format::from_ext("adts"), None);
    assert_eq!(Format::from_ext(""), None);
    assert_eq!(Format::parse("opus"), Err(FormatErr));
}

#[test]
fn format_set_operations() {
    let mut set = FormatSet::new();
    assert!(set.is_empty());
    assert!(!set.contains(Format::Mp3));
    set.insert(Format::Wav);
    set.insert(Format::Aac);
    set.insert(Format::Wav);
    assert!(!set.is_empty());
    assert!(set.contains(Format::Wav));
    assert!(set.contains(Format::Aac));
    assert!(!set.contains(Format::Mp3));
    assert_eq!(set.to_vec(), vec![Format::Aac, Format::Wav]);
}

#[test]
fn archive_kinds() {
    assert_eq!(Archive::from_ext("zip"), Some(Archive::Zip));
    assert_eq!(Archive::from_ext("rar"), Some(Archive::Rar));
    assert_eq!(Archive::from_ext("7z"), Some(Archive::_7z));
    assert_eq!(Archive::from_ext("tar"), None);
    assert_eq!(Archive::from_ext("ZIP"), None);
    assert_eq!(Archive::parse("7z"), Ok(Archive::_7z));
    assert_eq!(Archive::parse("gz"), Err(ArchiveErr));
    assert_eq!(Archive::Zip.name(), "zip");
    assert_eq!(Archive::Rar.name(), "rar");
    assert_eq!(Archive::_7z.name(), "7z");
}

#[test]
fn default_bitrates() {
    let b = Bitrates::new();
    assert_eq!(b.get(&Format::Aac), Some(192));
    assert_eq!(b.get(&Format::Mp3), Some(320));
    assert_eq!(b.get(&Format::Ogg), Some(192));
    assert_eq!(b.get(&Format::Flac), None);
    assert_eq!(b.get(&Format::Wav), None);
    assert_eq!(Bitrates::default(), b);
}

#[test]
fn set_bit_rate_parse() {
    assert_eq!(
        SetBitRate::parse("mp3=256"),
        Ok(SetBitRate { from: FromCondition::Exact(Format::Mp3), bitrate: 256 })
    );
    assert_eq!(SetBitRate::parse("lossy=0"), Ok(SetBitRate { from: FromCondition::Lossy, bitrate: 0 }));
    assert_eq!(SetBitRate::parse("ogg=+128"), Ok(SetBitRate { from: FromCondition::Exact(Format::Ogg), bitrate: 128 }));
    assert_eq!(SetBitRate::parse("mp3"), Err(SetBitRateErr::MissingSeparator));
    assert_eq!(
        SetBitRate::parse("mp4=256"),
        Err(SetBitRateErr::InvalidFromCondition(ConditionErr::Format(FormatErr)))
    );
    assert_eq!(
        SetBitRate::parse("mp4=x"),
        Err(SetBitRateErr::InvalidFromCondition(ConditionErr::Format(FormatErr)))
    );
    assert_eq!(SetBitRate::parse("mp3=fast"), Err(SetBitRateErr::InvalidBitrate));
    assert_eq!(SetBitRate::parse("mp3="), Err(SetBitRateErr::InvalidBitrate));
    assert_eq!(SetBitRate::parse("mp3=-1"), Err(SetBitRateErr::InvalidBitrate));
    assert_eq!(SetBitRate::parse("mp3=4294967296"), Err(SetBitRateErr::InvalidBitrate));
    assert_eq!(SetBitRate::parse("mp3=4294967295"), Ok(SetBitRate { from: FromCondition::Exact(Format::Mp3), bitrate: 4294967295 }));
    assert_eq!(SetBitRate::parse("mp3=1=2"), Err(SetBitRateErr::InvalidBitrate));
}

#[test]
fn set_bit_rate_messages() {
    assert_eq!(SetBitRateErr::MissingSeparator.message(), "missing '=' separator");
    assert_eq!(SetBitRateErr::InvalidBitrate.message(), "invalid bitrate");
    assert_eq!(
        SetBitRateErr::InvalidFromCondition(ConditionErr::Format(FormatErr)).message(),
        "invalid from condition: unsupported format"
    );
    assert_eq!(SetBitRate { from: FromCondition::Lossy, bitrate: 96 }.name(), "lossy=96");
    assert_eq!(
        NoBitrate { format: Format::Flac }.message(),
        "Cannot set custom bitrate for format: flac"
    );
}

#[test]
fn set_bit_rate_apply() {
    let mut b = Bitrates::new();
    let mut forced = FormatSet::new();
    let s = SetBitRate { from: FromCondition::Lossy, bitrate: 128 };
    assert_eq!(s.apply(&mut b, &mut forced, false), Ok(()));
    assert_eq!(b.get(&Format::Aac), Some(128));
    assert_eq!(b.get(&Format::Mp3), Some(128));
    assert_eq!(b.get(&Format::Ogg), Some(128));
    assert_eq!(b.get(&Format::Flac), None);
    assert!(forced.is_empty());

    let s = SetBitRate { from: FromCondition::Exact(Format::Mp3), bitrate: 0 };
    assert_eq!(s.apply(&mut b, &mut forced, true), Ok(()));
    assert_eq!(b.get(&Format::Mp3), Some(320));
    assert_eq!(b.get(&Format::Aac), Some(128));
    assert_eq!(forced.to_vec(), vec![Format::Mp3]);

    // A lossless format has no bitrate to change: nothing is picked.
    let s = SetBitRate { from: FromCondition::Lossless, bitrate: 64 };
    let before = b;
    assert_eq!(s.apply(&mut b, &mut forced, true), Ok(()));
    assert_eq!(b, before);
    assert_eq!(forced.to_vec(), vec![Format::Mp3]);
}

#[test]
fn set_bit_rate_refuses_format_without_bitrate() {
    let mut b = Bitrates::new();
    b.set(Format::Wav, 1000);
    let mut forced = FormatSet::new();
    let before = b;
    let s = SetBitRate { from: FromCondition::Lossless, bitrate: 64 };
    assert_eq!(s.apply(&mut b, &mut forced, true), Err(NoBitrate { format: Format::Wav }));
    assert_eq!(b, before);
    assert!(forced.is_empty());
}

#[test]
fn pick_bitrates_lists_formats_with_bitrate() {
    let b = Bitrates::new();
    assert_eq!(FromCondition::Lossy.pick_bitrates(&b), vec![Format::Aac, Format::Mp3, Format::Ogg]);
    assert_eq!(FromCondition::Lossless.pick_bitrates(&b), Vec::<Format>::new());
    assert_eq!(FromCondition::Exact(Format::Ogg).pick_bitrates(&b), vec![Format::Ogg]);
}
