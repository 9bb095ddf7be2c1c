use audiovert::archive::Archive;
use audiovert::format::Format;
use audiovert::out::{Level, Out};
use audiovert::path::FilePath;
use audiovert::bitrates::Bitrates;
use audiovert::exec::{DirFor, Op};
use audiovert::tasks::Reason;
use audiovert::format::FormatSet;
use audiovert::meta::{TagKey, Tags};
use audiovert::plan::Config;
use audiovert::report::{
    abort_message, report, report_dump, report_error, report_exists, report_matching, report_task,
    report_unsupported, shown_path,
};
use audiovert::source::{ArchiveId, Db, DbErr, FileId, Link, MaybeLink, Source, SourceArchive};
use audiovert::tasks::{
    Dump, Exists, MatchingConversion, PathError, Task, TaskKind, Tasks, TransferKind, Trash,
    TrashWhat, Unsupported,
};

fn path(root: &str, parts: &[&str]) -> FilePath {
    FilePath { root: root.to_string(), parts: parts.iter().map(|s| s.to_string()).collect() }
}

fn link(parts: &[&str]) -> Link {
    Link::new(path("", parts), path("/", parts))
}

fn db() -> (Db, Source, Source) {
    let mut db = Db::new();
    let file = db.push_file(link(&["in", "my song.flac"]));
    let archive = db.push_archive(SourceArchive { kind: Archive::Rar, path: link(&["in", "pack.rar"]) });
    (db, Source::File { file }, Source::Archive { archive, path: "cd 1/a.mp3".to_string() })
}

fn lines(o: &Out) -> Vec<(usize, Level, &str)> {
    o.lines.iter().map(|l| (l.indent, l.level, l.text.as_str())).collect()
}

#[test]
fn paths_are_shown_with_slashes() {
    assert_eq!(path("/", &["a", "b.mp3"]).display(), "/a/b.mp3");
    assert_eq!(path("", &["a", "b.mp3"]).display(), "a/b.mp3");
    assert_eq!(path("", &[".", "a"]).display(), "./a");
    assert_eq!(path("/", &[]).display(), "/");
    assert_eq!(path("", &[]).display(), "");
    assert_eq!(path("", &["x"]).display(), "x");
    assert_eq!(shown_path(&path("/", &["my music", "a (1).mp3"])), "/my\\ music/a\\ \\(1\\).mp3");
}

#[test]
fn describe_and_dump_sources() {
    let (db, file, entry) = db();
    assert_eq!(db.describe(&file), Ok(vec!["from : in/my\\ song.flac".to_string()]));
    assert_eq!(
        db.describe(&entry),
        Ok(vec!["from : in/pack.rar".to_string(), "path : /cd 1/a.mp3".to_string()])
    );
    assert_eq!(db.describe(&Source::File { file: FileId(5) }), Err(DbErr::InvalidFile(FileId(5))));
    let mut o = Out::new();
    o.indent(2);
    assert_eq!(db.dump(&mut o, &entry), Ok(()));
    assert_eq!(
        lines(&o),
        vec![(2, Level::Blank, "from : in/pack.rar"), (2, Level::Blank, "path : /cd 1/a.mp3")]
    );
    assert_eq!(
        db.dump(&mut o, &Source::Archive { archive: ArchiveId(3), path: "x".to_string() }),
        Err(DbErr::InvalidArchive(ArchiveId(3)))
    );
    assert_eq!(o.lines.len(), 2);
    assert_eq!(o.indent, 2);
}

#[test]
fn errors_name_their_source() {
    let (db, _, entry) = db();
    let mut o = Out::new();
    let error = PathError {
        source: entry,
        messages: vec!["missing year".to_string(), "missing title".to_string()],
    };
    assert_eq!(report_error(&db, &mut o, &error), Ok(()));
    assert_eq!(
        lines(&o),
        vec![
            (0, Level::Error, "Error:"),
            (1, Level::Blank, "from : in/pack.rar"),
            (1, Level::Blank, "path : /cd 1/a.mp3"),
            (1, Level::Error, "missing year"),
            (1, Level::Error, "missing title"),
        ]
    );
    assert_eq!(o.indent, 0);
    let unknown = PathError { source: Source::File { file: FileId(9) }, messages: Vec::new() };
    assert_eq!(report_error(&db, &mut o, &unknown), Err(DbErr::InvalidFile(FileId(9))));
    assert_eq!(o.lines.len(), 5);
    assert_eq!(abort_message(), "Aborting due to previous errors, use --keep-going to ignore.");
}

#[test]
fn findings_are_reported_under_headings() {
    let (db, file, _) = db();
    let mut o = Out::new();
    let found = MatchingConversion { source: file.clone(), from: Format::Flac, to_formats: vec![Format::Mp3, Format::Ogg, Format::Wav] };
    assert_eq!(report_matching(&db, &mut o, &found), Ok(()));
    let single = MatchingConversion { source: file.clone(), from: Format::Mp3, to_formats: vec![Format::Mp3] };
    assert_eq!(report_matching(&db, &mut o, &single), Ok(()));
    let unsupported = Unsupported { source: file.clone(), ext: "jpg".to_string() };
    assert_eq!(report_unsupported(&db, &mut o, &unsupported), Ok(()));
    let exists = Exists { source: file.clone(), path: link(&["out", "my song.mp3"]) };
    assert_eq!(report_exists(&db, &mut o, &exists), Ok(()));
    assert_eq!(
        lines(&o),
        vec![
            (0, Level::Info, "Found matching conversions: flac -> mp3, ogg, wav"),
            (1, Level::Blank, "from : in/my\\ song.flac"),
            (0, Level::Info, "Found matching conversions: mp3 -> mp3"),
            (1, Level::Blank, "from : in/my\\ song.flac"),
            (0, Level::Warn, "Unsupported extension: jpg"),
            (1, Level::Blank, "from : in/my\\ song.flac"),
            (0, Level::Warn, "already exists (--force to remove):"),
            (1, Level::Blank, "from : in/my\\ song.flac"),
            (1, Level::Blank, "to   : out/my\\ song.mp3"),
        ]
    );
}

#[test]
fn task_heading() {
    let (db, file, _) = db();
    let task = Task {
        index: 3,
        kind: TaskKind::Transfer { kind: TransferKind::Link },
        source: file.clone(),
        to_path: MaybeLink::new(path("/", &["out", "a.mp3"]), None),
        moved: false,
        pre_remove: Vec::new(),
    };
    let mut o = Out::new();
    o.indent(1);
    assert_eq!(report_task(&db, &mut o, &task, 12), Ok(()));
    assert_eq!(
        lines(&o),
        vec![
            (1, Level::Info, "Task #3/#12: link"),
            (2, Level::Blank, "from : in/my\\ song.flac"),
            (2, Level::Blank, "to   : /out/a.mp3"),
        ]
    );
    assert_eq!(o.indent, 1);
    let notes = vec![(Level::Warn, "careful".to_string())];
    assert_eq!(report(&db, &mut o, Level::Error, "Head", &file, &notes), Ok(()));
    assert_eq!(lines(&o)[3..], [(1, Level::Error, "Head"), (2, Level::Blank, "from : in/my\\ song.flac"), (2, Level::Warn, "careful")]);
}

#[test]
fn tags_are_shown_item_by_item() {
    let (db, file, _) = db();
    let tags = Tags {
        album_title: Some("Hits".to_string()),
        year: Some("1990".to_string()),
        disc_total: Some("".to_string()),
        ..Tags::default()
    };
    assert_eq!(tags.lines(), vec!["Year: 1990", "AlbumTitle: Hits", "DiscTotal: "]);
    assert_eq!(Tags::new().lines(), Vec::<String>::new());
    assert_eq!(TagKey::OriginalReleaseDate.name(), "OriginalReleaseDate");
    assert_eq!(TagKey::TrackNumber.name(), "TrackNumber");
    let mut o = Out::new();
    assert_eq!(report_dump(&db, &mut o, &Dump { source: file, tags }), Ok(()));
    assert_eq!(
        lines(&o),
        vec![
            (0, Level::Info, "Tags:"),
            (1, Level::Blank, "from : in/my\\ song.flac"),
            (1, Level::Blank, "Year: 1990"),
            (1, Level::Blank, "AlbumTitle: Hits"),
            (1, Level::Blank, "DiscTotal: "),
        ]
    );
}

fn quiet() -> Config {
    Config {
        bitrates: Bitrates::new(),
        conversion: Vec::new(),
        dry_run: false,
        ffmpeg: "/usr/bin/ffmpeg".to_string(),
        force: false,
        keep_going: false,
        meta_dump_error: false,
        meta_dump: false,
        meta: false,
        part_ext: "part".to_string(),
        paths: Vec::new(),
        move_source: false,
        forced_bitrates: FormatSet::new(),
        to_dir: None,
        trash_source: false,
        trash: path("", &[]),
        verbose: false,
    }
}

fn converting() -> Task {
    Task {
        index: 0,
        kind: TaskKind::Convert {
            part_path: MaybeLink::new(path("", &["out dir", "a.mp3.part"]), None),
            from: Format::Flac,
            to: Format::Mp3,
            converted: false,
        },
        source: Source::File { file: FileId(0) },
        to_path: MaybeLink::new(path("", &["out dir", "a.mp3"]), None),
        moved: false,
        pre_remove: vec![(Reason::Partial, MaybeLink::new(path("", &["out dir", "a.mp3.part"]), None))],
    }
}

#[test]
fn operations_are_reported_quietly() {
    let config = quiet();
    let task = converting();
    let mut o = Out::new();
    config.report_op(&mut o, &task, Op::Remove);
    config.report_op(&mut o, &task, Op::ProbeDir(DirFor::Partial));
    config.report_op(&mut o, &task, Op::CreateDir(DirFor::Partial));
    config.report_op(&mut o, &task, Op::Encode);
    config.report_op(&mut o, &task, Op::CreateDir(DirFor::Rename));
    config.report_op(&mut o, &task, Op::Rename);
    config.report_op(&mut o, &task, Op::Transfer(TransferKind::Link));
    assert_eq!(
        lines(&o),
        vec![
            (0, Level::Info, "removing partial conversion file"),
            (1, Level::Blank, "rm <to>.part"),
            (0, Level::Info, "making partial dir"),
            (1, Level::Blank, "mkdir -p out\\ dir"),
            (0, Level::Info, "making rename dir"),
            (1, Level::Blank, "mkdir -p out\\ dir"),
            (0, Level::Blank, "mv <to>.part <to>"),
            (0, Level::Blank, "ln <from> <to>"),
        ]
    );
    assert_eq!(o.indent, 0);
    let mut done = converting();
    done.pre_remove.clear();
    let mut o = Out::new();
    config.report_op(&mut o, &done, Op::Remove);
    assert!(o.lines.is_empty());
}

#[test]
fn operations_are_reported_verbosely() {
    let mut config = quiet();
    config.verbose = true;
    config.part_ext = "tmp".to_string();
    let task = converting();
    let mut o = Out::new();
    o.indent(1);
    config.report_op(&mut o, &task, Op::Remove);
    config.report_op(&mut o, &task, Op::Rename);
    let mut moving = converting();
    moving.kind = TaskKind::Transfer { kind: TransferKind::Move };
    config.report_op(&mut o, &moving, Op::CreateDir(DirFor::Transfer));
    config.report_op(&mut o, &moving, Op::Transfer(TransferKind::Move));
    assert_eq!(
        lines(&o),
        vec![
            (1, Level::Info, "removing partial conversion file"),
            (2, Level::Blank, "rm out\\ dir/a.mp3.part"),
            (1, Level::Blank, "mv <to>.tmp <to>"),
            (2, Level::Blank, "from : out\\ dir/a.mp3.part"),
            (2, Level::Blank, "to   : out\\ dir/a.mp3"),
            (1, Level::Info, "making move dir"),
            (2, Level::Blank, "mkdir -p out\\ dir"),
            (1, Level::Blank, "mv <from> <to>"),
            (2, Level::Blank, "to   : out\\ dir/a.mp3"),
        ]
    );
    assert_eq!(o.indent, 1);
}

#[test]
fn encoder_command_is_shown_with_placeholders() {
    let mut config = quiet();
    assert_eq!(
        config.shown_command("in/a b.flac", Format::Mp3, "out/a b.mp3.part"),
        "<ffmpeg> -hide_banner -loglevel error -i <from> -ab 320k -map_metadata 0 -id3v2_version 3 -f mp3 <to>.part"
    );
    config.verbose = true;
    assert_eq!(
        config.shown_command("in/a b.flac", Format::Flac, "out/a b.flac.part"),
        "/usr/bin/ffmpeg -hide_banner -loglevel error -i in/a\\ b.flac -map_metadata 0 -id3v2_version 3 -f flac out/a\\ b.flac.part"
    );
}

#[test]
fn dumps_are_kept_when_asked_for() {
    let (_, file, _) = db();
    let mut config = Config {
        bitrates: Bitrates::new(),
        conversion: Vec::new(),
        dry_run: false,
        ffmpeg: String::new(),
        force: false,
        keep_going: false,
        meta_dump_error: false,
        meta_dump: false,
        meta: true,
        part_ext: String::new(),
        paths: Vec::new(),
        move_source: false,
        forced_bitrates: FormatSet::new(),
        to_dir: None,
        trash_source: false,
        trash: path("", &[]),
        verbose: false,
    };
    let mut tasks = Tasks::new();
    tasks.keep_dump(&config, &file, Tags::new(), true);
    assert!(tasks.meta_dumps.is_empty());
    config.meta_dump_error = true;
    tasks.keep_dump(&config, &file, Tags::new(), false);
    assert!(tasks.meta_dumps.is_empty());
    tasks.keep_dump(&config, &file, Tags::new(), true);
    assert_eq!(tasks.meta_dumps.len(), 1);
    config.meta_dump_error = false;
    config.meta_dump = true;
    tasks.keep_dump(&config, &file, Tags::new(), false);
    assert_eq!(tasks.meta_dumps.len(), 2);
    assert_eq!(tasks.meta_dumps[1], Dump { source: file, tags: Tags::new() });
}

#[test]
fn trashing_is_reported() {
    let t = Trash { what: TrashWhat::SourceFile, path: path("", &["in", "a b.flac"]), name: "a b.flac".to_string() };
    let trash = path("/", &["home", "trash"]);
    assert_eq!(t.target(&trash), path("/", &["home", "trash", "a b.flac"]));
    let mut o = Out::new();
    t.report(&mut o, &trash);
    assert_eq!(
        lines(&o),
        vec![
            (0, Level::Info, "Trashing source file"),
            (1, Level::Blank, "from : in/a\\ b.flac"),
            (1, Level::Blank, "to   : /home/trash/a\\ b.flac"),
        ]
    );
}
