use audiovert::bitrates::Bitrates;
use audiovert::exec::{pipe_input, sweep, trash_plan, DirFor, Event, Op, Stage, Sweep};
use audiovert::format::{Format, FormatSet};
use audiovert::path::FilePath;
use audiovert::plan::{build, Candidate, Config, Facts, Planned};
use audiovert::source::{ArchiveId, Db, DbErr, FileId, Link, MaybeLink, Source};
use audiovert::tasks::{Reason, Task, TaskKind, TransferKind, Trash, TrashWhat};

fn path(root: &str, parts: &[&str]) -> FilePath {
    FilePath { root: root.to_string(), parts: parts.iter().map(|s| s.to_string()).collect() }
}

fn config() -> Config {
    Config {
        bitrates: Bitrates::new(),
        conversion: Vec::new(),
        dry_run: false,
        ffmpeg: "ffmpeg".to_string(),
        force: false,
        keep_going: false,
        meta_dump_error: false,
        meta_dump: false,
        meta: false,
        part_ext: "part".to_string(),
        paths: Vec::new(),
        move_source: false,
        forced_bitrates: FormatSet::new(),
        to_dir: None,
        trash_source: false,
        trash: path("/", &["trash"]),
        verbose: false,
    }
}

fn convert(to: &[&str], facts: &Facts, force: bool) -> Task {
    let mut part: Vec<&str> = to.to_vec();
    let name = format!("{}.part", to[to.len() - 1]);
    *part.last_mut().unwrap() = &name;
    let candidate = Candidate {
        from: Format::Flac,
        to: Format::Mp3,
        to_path: path("", to),
        planned: Planned::Convert { part_path: path("", &part) },
    };
    build(force, 0, &Source::File { file: FileId(0) }, candidate, facts)
}

fn transfer(kind: TransferKind, to: &[&str]) -> Task {
    let candidate = Candidate {
        from: Format::Mp3,
        to: Format::Mp3,
        to_path: path("", to),
        planned: Planned::Transfer { kind },
    };
    build(false, 0, &Source::File { file: FileId(0) }, candidate, &Facts { dest: None, part: None })
}

/// Runs a task to its end, every operation succeeding and every probed
/// directory missing; gives the operations in order.
fn run(task: &mut Task) -> Vec<Op> {
    let mut ops = Vec::new();
    let mut stage = Stage::Idle;
    let mut event = Event::Start;
    loop {
        let (next, op) = task.step(stage, event);
        stage = next;
        let Some(op) = op else {
            assert_eq!(stage, Stage::Finished);
            return ops;
        };
        ops.push(op);
        event = match op {
            Op::ProbeDir(_) => Event::Present(false),
            _ => Event::Done,
        };
        assert!(ops.len() < 100);
    }
}

#[test]
fn convert_runs_through_all_stages() {
    let mut task = convert(&["out", "a.mp3"], &Facts { dest: None, part: None }, false);
    assert_eq!(
        run(&mut task),
        vec![
            Op::ProbeDir(DirFor::Partial),
            Op::CreateDir(DirFor::Partial),
            Op::Encode,
            Op::ProbeDir(DirFor::Rename),
            Op::CreateDir(DirFor::Rename),
            Op::Rename,
        ]
    );
    assert!(task.is_completed());
    assert!(task.moved);
    assert!(matches!(task.kind, TaskKind::Convert { converted: true, .. }));
}

#[test]
fn completion_stability() {
    // A finished task asks for nothing more.
    let mut task = convert(&["out", "a.mp3"], &Facts { dest: None, part: None }, false);
    run(&mut task);
    let done = task.clone();
    assert_eq!(run(&mut task), Vec::new());
    assert_eq!(task, done);
    // Planned again, the destination is found and kept: nothing is asked for.
    let found = Facts { dest: Some(path("/", &["abs", "out", "a.mp3"])), part: None };
    let mut again = convert(&["out", "a.mp3"], &found, false);
    assert!(again.is_completed());
    let before = again.clone();
    for stage in [Stage::Idle, Stage::Removing, Stage::Encoding, Stage::Renaming, Stage::Transferring, Stage::Finished] {
        for event in [Event::Start, Event::Done, Event::Failed, Event::Present(true)] {
            assert_eq!(again.step(stage, event), (Stage::Finished, None));
            assert_eq!(again, before);
        }
    }
    let mut linked = transfer(TransferKind::Link, &["out", "b.mp3"]);
    run(&mut linked);
    assert_eq!(run(&mut linked), Vec::new());
}

#[test]
fn removals_come_before_the_encoder() {
    let facts = Facts { dest: Some(path("/", &["d"])), part: Some(path("/", &["p"])) };
    let mut task = convert(&["a.mp3"], &facts, true);
    assert_eq!(task.removal().map(|r| r.0), Some(Reason::Destination));
    assert_eq!(task.step(Stage::Idle, Event::Start), (Stage::Removing, Some(Op::Remove)));
    assert_eq!(task.pre_remove.len(), 2);
    // A removal that failed is not tried again in this run.
    assert_eq!(task.step(Stage::Removing, Event::Failed), (Stage::Removing, Some(Op::Remove)));
    assert_eq!(task.removal().map(|r| r.0), Some(Reason::Partial));
    assert_eq!(task.step(Stage::Removing, Event::Done), (Stage::Encoding, Some(Op::Encode)));
    assert_eq!(task.removal(), None);
    // The encoder cannot be reached while something is queued.
    let mut task = convert(&["a.mp3"], &facts, true);
    assert_eq!(task.step(Stage::Encoding, Event::Done), (Stage::Finished, None));
    assert!(matches!(task.kind, TaskKind::Convert { converted: false, .. }));
    assert_eq!(task.pre_remove.len(), 2);
}

#[test]
fn stale_partial_file_of_a_kept_destination_is_removed_only() {
    let facts = Facts { dest: Some(path("/", &["d"])), part: Some(path("/", &["p"])) };
    let mut task = convert(&["out", "a.mp3"], &facts, false);
    assert_eq!(run(&mut task), vec![Op::Remove]);
    assert!(task.is_completed());
}

#[test]
fn failures_leave_the_task_incomplete() {
    let fresh = Facts { dest: None, part: None };
    let mut task = convert(&["a.mp3"], &fresh, false);
    assert_eq!(task.step(Stage::Idle, Event::Start), (Stage::Encoding, Some(Op::Encode)));
    assert_eq!(task.step(Stage::Encoding, Event::Failed), (Stage::Finished, None));
    assert!(!task.is_completed());
    assert!(matches!(task.kind, TaskKind::Convert { converted: false, .. }));
    // The next run encodes again.
    assert_eq!(task.step(Stage::Idle, Event::Start), (Stage::Encoding, Some(Op::Encode)));
    assert_eq!(task.step(Stage::Encoding, Event::Done), (Stage::Renaming, Some(Op::Rename)));
    assert_eq!(task.step(Stage::Renaming, Event::Failed), (Stage::Finished, None));
    assert!(matches!(task.kind, TaskKind::Convert { converted: true, .. }));
    assert!(!task.moved);
    assert!(!task.is_completed());

    let mut task = convert(&["out", "a.mp3"], &fresh, false);
    assert_eq!(task.step(Stage::Idle, Event::Start), (Stage::ProbingDir(DirFor::Partial), Some(Op::ProbeDir(DirFor::Partial))));
    assert_eq!(
        task.step(Stage::ProbingDir(DirFor::Partial), Event::Present(false)),
        (Stage::CreatingDir(DirFor::Partial), Some(Op::CreateDir(DirFor::Partial)))
    );
    assert_eq!(task.step(Stage::CreatingDir(DirFor::Partial), Event::Failed), (Stage::Finished, None));
    assert!(!task.is_completed());
    assert_eq!(
        task.step(Stage::ProbingDir(DirFor::Partial), Event::Present(true)),
        (Stage::Encoding, Some(Op::Encode))
    );
}

#[test]
fn transfers_carry_their_kind() {
    for kind in [TransferKind::Copy, TransferKind::Link, TransferKind::Move] {
        let mut task = transfer(kind, &["out", "b.mp3"]);
        assert_eq!(
            run(&mut task),
            vec![Op::ProbeDir(DirFor::Transfer), Op::CreateDir(DirFor::Transfer), Op::Transfer(kind)]
        );
        assert!(task.is_completed());
        let mut task = transfer(kind, &["b.mp3"]);
        assert_eq!(run(&mut task), vec![Op::Transfer(kind)]);
        let mut task = transfer(kind, &["b.mp3"]);
        assert_eq!(task.step(Stage::Idle, Event::Start), (Stage::Transferring, Some(Op::Transfer(kind))));
        assert_eq!(task.step(Stage::Transferring, Event::Failed), (Stage::Finished, None));
        assert!(!task.moved);
        assert_eq!(task.step(Stage::Encoding, Event::Done), (Stage::Finished, None));
        assert!(!task.moved);
    }
}

#[test]
fn directories_to_make() {
    let task = convert(&["out", "deep", "a.mp3"], &Facts { dest: None, part: None }, false);
    assert_eq!(task.dir_for(DirFor::Partial), Some(path("", &["out", "deep"])));
    assert_eq!(task.dir_for(DirFor::Rename), Some(path("", &["out", "deep"])));
    let task = convert(&["a.mp3"], &Facts { dest: None, part: None }, false);
    assert_eq!(task.dir_for(DirFor::Partial), None);
    assert_eq!(task.dir_for(DirFor::Transfer), None);
    let mut task = transfer(TransferKind::Link, &["a.mp3"]);
    task.to_path = MaybeLink::new(path("/", &["a.mp3"]), None);
    assert_eq!(task.dir_for(DirFor::Transfer), Some(path("/", &[])));
}

#[test]
fn dry_run_performs_nothing_that_mutates() {
    let mut c = config();
    for op in [Op::Remove, Op::CreateDir(DirFor::Rename), Op::Encode, Op::Rename, Op::Transfer(TransferKind::Link)] {
        assert!(op.mutates());
        c.dry_run = false;
        assert!(c.performs(&op));
        c.dry_run = true;
        assert!(!c.performs(&op));
    }
    assert!(!Op::ProbeDir(DirFor::Partial).mutates());
    assert!(c.performs(&Op::ProbeDir(DirFor::Partial)));
}

#[test]
fn encoder_arguments() {
    let mut c = config();
    assert_eq!(
        c.encoder_args("in/a.flac", Format::Mp3, "out/a.mp3.part"),
        vec![
            "-hide_banner", "-loglevel", "error", "-i", "in/a.flac", "-ab", "320k", "-map_metadata", "0",
            "-id3v2_version", "3", "-f", "mp3", "out/a.mp3.part",
        ]
    );
    assert_eq!(
        c.encoder_args(pipe_input(), Format::Aac, "x.aac.part"),
        vec![
            "-hide_banner", "-loglevel", "error", "-i", "pipe:0", "-ab", "192k", "-map_metadata", "0",
            "-id3v2_version", "3", "-f", "adts", "x.aac.part",
        ]
    );
    let plain = vec![
        "-hide_banner", "-loglevel", "error", "-i", "a", "-map_metadata", "0", "-id3v2_version", "3", "-f", "flac", "b",
    ];
    assert_eq!(c.encoder_args("a", Format::Flac, "b"), plain);
    c.bitrates.set(Format::Flac, 0);
    assert_eq!(c.encoder_args("a", Format::Flac, "b"), plain);
    c.bitrates.set(Format::Ogg, 96);
    assert_eq!(c.encoder_args("a", Format::Ogg, "b")[5..7], ["-ab", "96k"]);
}

fn done(index: usize, source: Source, kind: TaskKind) -> Task {
    Task {
        index,
        kind,
        source,
        to_path: MaybeLink::new(path("", &["out", "x"]), None),
        moved: true,
        pre_remove: Vec::new(),
    }
}

#[test]
fn trash_plan_lists_finished_file_sources() {
    let mut db = Db::new();
    let a = db.push_file(Link::new(path("", &["in", "a.flac"]), path("/", &["in", "a.flac"])));
    let up = db.push_file(Link::new(path("", &["in", ".."]), path("/", &[])));
    let b = db.push_file(Link::new(path("", &["in", "b.mp3"]), path("/", &["in", "b.mp3"])));
    let root = db.push_file(Link::new(path("/", &[]), path("/", &[])));
    let convert = |converted| TaskKind::Convert {
        part_path: MaybeLink::new(path("", &["out", "x.part"]), None),
        from: Format::Flac,
        to: Format::Mp3,
        converted,
    };
    let link = TaskKind::Transfer { kind: TransferKind::Link };
    let moved_away = TaskKind::Transfer { kind: TransferKind::Move };
    let mut unfinished = done(6, Source::File { file: b }, link.clone());
    unfinished.moved = false;
    let tasks = vec![
        done(0, Source::File { file: a }, convert(true)),
        done(1, Source::File { file: up }, link.clone()),
        done(2, Source::File { file: b }, moved_away),
        done(3, Source::Archive { archive: ArchiveId(0), path: "x.mp3".to_string() }, TaskKind::Transfer { kind: TransferKind::Copy }),
        done(4, Source::File { file: a }, convert(false)),
        done(5, Source::File { file: root }, link.clone()),
        unfinished,
        done(7, Source::File { file: b }, link),
    ];
    let mut db_with_archive = db.clone();
    db_with_archive.push_archive(audiovert::source::SourceArchive {
        kind: audiovert::archive::Archive::Zip,
        path: Link::new(path("", &["z.zip"]), path("/", &["z.zip"])),
    });
    assert_eq!(trash_plan(&tasks, &db_with_archive, false), Ok(Vec::new()));
    assert_eq!(
        trash_plan(&tasks, &db_with_archive, true),
        Ok(vec![
            Trash { what: TrashWhat::SourceFile, path: path("", &["in", "a.flac"]), name: "a.flac".to_string() },
            Trash { what: TrashWhat::SourceFile, path: path("", &["in", ".."]), name: "file0".to_string() },
            Trash { what: TrashWhat::SourceFile, path: path("/", &[]), name: "file1".to_string() },
            Trash { what: TrashWhat::SourceFile, path: path("", &["in", "b.mp3"]), name: "b.mp3".to_string() },
        ])
    );
    // The archive of task 3 is unknown to the bare registry.
    assert_eq!(trash_plan(&tasks, &db, true), Err(DbErr::InvalidArchive(ArchiveId(0))));
    assert_eq!(trash_plan(&tasks, &db, false), Ok(Vec::new()));
    assert_eq!(TrashWhat::SourceFile.name(), "source file");
}

#[test]
fn names_for_reports() {
    assert_eq!(TransferKind::Copy.symbolic_command(), "cp");
    assert_eq!(TransferKind::Link.symbolic_command(), "ln");
    assert_eq!(TransferKind::Move.symbolic_command(), "mv");
    assert_eq!(TransferKind::Copy.name(), "copying");
    assert_eq!(TransferKind::Link.name(), "link");
    assert_eq!(TransferKind::Move.name(), "move");
    assert_eq!(Reason::Destination.name(), "destination path (--force)");
    assert_eq!(Reason::Partial.name(), "partial conversion file");
    let kind = TaskKind::Convert {
        part_path: MaybeLink::new(path("", &["x"]), None),
        from: Format::Flac,
        to: Format::Mp3,
        converted: false,
    };
    assert_eq!(kind.name(), "converting flac to mp3");
    assert!(!kind.is_completed());
    assert_eq!(TaskKind::Transfer { kind: TransferKind::Link }.name(), "link");
    assert!(TaskKind::Transfer { kind: TransferKind::Move }.is_completed());
}

#[test]
fn sweep_climbs_while_directories_are_empty() {
    assert_eq!(sweep(&path("", &["a", "b"]), false), Sweep::Stop);
    assert_eq!(sweep(&path("", &["a", "b"]), true), Sweep::Remove { next: Some(path("", &["a"])) });
    assert_eq!(sweep(&path("", &["a"]), true), Sweep::Remove { next: Some(path("", &[])) });
    assert_eq!(sweep(&path("/", &[]), true), Sweep::Remove { next: None });
}

#[test]
fn encoder_exit_codes() {
    assert_eq!(Event::of_exit(Some(0)), Event::Done);
    assert_eq!(Event::of_exit(Some(1)), Event::Failed);
    assert_eq!(Event::of_exit(Some(-1)), Event::Failed);
    assert_eq!(Event::of_exit(None), Event::Failed);
}
