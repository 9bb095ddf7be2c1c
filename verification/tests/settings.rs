use audiovert::bitrates::{NoBitrate, SetBitRate};
use audiovert::cli::{default_ffmpeg, default_part_ext, default_trash, Audiovert, EntryErr, Opts};
use audiovert::condition::{Condition, FromCondition, ToCondition};
use audiovert::format::Format;
use audiovert::path::FilePath;

fn path(root: &str, parts: &[&str]) -> FilePath {
    FilePath { root: root.to_string(), parts: parts.iter().map(|s| s.to_string()).collect() }
}

fn options() -> Audiovert {
    Audiovert {
        force: false,
        verbose: false,
        trash: None,
        trash_source: false,
        conversion: Vec::new(),
        dry_run: false,
        keep_going: false,
        to: None,
        meta: false,
        meta_dump: false,
        meta_dump_error: false,
        move_source: false,
        bitrates: Vec::new(),
        force_bitrates: false,
        ffmpeg_bin: default_ffmpeg().to_string(),
        part_ext: default_part_ext().to_string(),
        paths: Vec::new(),
    }
}

#[test]
fn defaults() {
    let home_trash = path("/", &["home", "me", "trash"]);
    let c = options().config(Some(home_trash.clone())).unwrap();
    assert_eq!(
        c.conversion,
        vec![
            Condition::FromTo { from: FromCondition::Lossless, to: ToCondition::Exact(Format::Mp3) },
            Condition::FromTo { from: FromCondition::Lossy, to: ToCondition::Same },
        ]
    );
    assert_eq!(c.paths, vec![path("", &["."])]);
    assert_eq!(c.trash, home_trash);
    assert_eq!(c.part_ext, "part");
    assert_eq!(c.ffmpeg, "ffmpeg");
    assert_eq!(c.to_dir, None);
    assert_eq!(c.bitrates.get(&Format::Mp3), Some(320));
    assert!(c.forced_bitrates.is_empty());
    assert!(!c.force && !c.dry_run && !c.keep_going && !c.meta && !c.move_source && !c.trash_source && !c.verbose);
}

#[test]
fn options_are_carried_over() {
    let opts = Opts {
        inner: Audiovert {
            force: true,
            verbose: true,
            trash: Some(path("/", &["t"])),
            trash_source: true,
            conversion: vec![Condition::Same],
            dry_run: true,
            keep_going: true,
            to: Some(path("/", &["out"])),
            meta: true,
            meta_dump: true,
            meta_dump_error: true,
            move_source: true,
            ffmpeg_bin: "/opt/ffmpeg".to_string(),
            part_ext: "tmp".to_string(),
            paths: vec![path("", &["a"]), path("/", &["b"])],
            ..options()
        },
    };
    let c = opts.inner.config(None).unwrap();
    assert_eq!(c.conversion, vec![Condition::Same]);
    assert_eq!(c.paths, vec![path("", &["a"]), path("/", &["b"])]);
    assert_eq!(c.trash, path("/", &["t"]));
    assert_eq!(c.to_dir, Some(path("/", &["out"])));
    assert_eq!(c.ffmpeg, "/opt/ffmpeg");
    assert_eq!(c.part_ext, "tmp");
    assert!(c.force && c.dry_run && c.keep_going && c.meta && c.meta_dump && c.meta_dump_error);
    assert!(c.move_source && c.trash_source && c.verbose);
    assert_eq!(opts.inner.config(Some(path("/", &["h"]))).unwrap().trash, path("/", &["t"]));
}

#[test]
fn bitrate_settings_apply_in_order() {
    let mut o = options();
    o.bitrates = vec![
        SetBitRate::parse("lossy=128").unwrap(),
        SetBitRate::parse("mp3=0").unwrap(),
        SetBitRate::parse("ogg=96").unwrap(),
    ];
    o.trash = Some(path("/", &["t"]));
    let c = o.config(None).unwrap();
    assert_eq!(c.bitrates.get(&Format::Aac), Some(128));
    assert_eq!(c.bitrates.get(&Format::Mp3), Some(320));
    assert_eq!(c.bitrates.get(&Format::Ogg), Some(96));
    assert!(c.forced_bitrates.is_empty());
    o.force_bitrates = true;
    o.bitrates.truncate(2);
    let c = o.config(None).unwrap();
    assert_eq!(c.forced_bitrates.to_vec(), vec![Format::Aac, Format::Mp3, Format::Ogg]);
    o.bitrates = vec![SetBitRate::parse("ogg=1").unwrap()];
    assert_eq!(o.config(None).unwrap().forced_bitrates.to_vec(), vec![Format::Ogg]);
    // Lossless formats have no bitrate: such a setting changes nothing.
    o.bitrates = vec![SetBitRate::parse("flac=1").unwrap()];
    let c = o.config(None).unwrap();
    assert_eq!(c.bitrates.get(&Format::Flac), None);
    assert!(c.forced_bitrates.is_empty());
}

#[test]
fn entry_errors() {
    assert_eq!(options().config(None), Err(EntryErr::NoHome));
    assert_eq!(EntryErr::NoBitrate(NoBitrate { format: Format::Wav }), EntryErr::NoBitrate(NoBitrate { format: Format::Wav }));
}

#[test]
fn default_trash_prefers_what_exists() {
    let home = path("/", &["home", "me"]);
    assert_eq!(default_trash(&home, false, false), path("/", &["home", "me", "trash"]));
    assert_eq!(default_trash(&home, true, false), path("/", &["home", "me", "trash"]));
    assert_eq!(default_trash(&home, true, true), path("/", &["home", "me", "trash"]));
    assert_eq!(default_trash(&home, false, true), path("/", &["home", "me", "Trash"]));
}
