//! What a run reports: every finding under a heading, with the source that
//! it is about.

use vstd::prelude::*;

use crate::exec::{DirFor, Op};
use crate::format::Format;
use crate::out::{entered, left, Level, LineModel, Out};
use crate::path::{names, FilePath};
use crate::plan::Config;
use crate::shell::{escape_str, replacement_texts, shown, shown_args, spec_escape_str, FormatCommand};
use crate::source::{Db, DbErr, Source};
use crate::tasks::{
    Dump, Exists, MatchingConversion, PathError, Task, TaskKind, Trash, Unsupported,
};
use crate::text;

verus! {

/// The message of a run that stops before any task is executed.
pub fn abort_message() -> (r: &'static str)
    ensures
        r@ == "Aborting due to previous errors, use --keep-going to ignore."@,
{
    "Aborting due to previous errors, use --keep-going to ignore."
}

/// A path as it is reported: shown, and escaped for the shell.
pub fn shown_path(path: &FilePath) -> (r: String)
    ensures
        r@ == spec_escape_str(path@.text()),
{
    escape_str(path.display().as_str())
}

impl Db {
    /// The lines that identify a source: the path of a plain file; for an
    /// archive entry the path of the archive, then the entry's name.
    pub open spec fn spec_describe(&self, source: &Source) -> Result<Seq<Seq<char>>, DbErr> {
        if !self.knows(source) {
            Err(Db::unknown(source))
        } else {
            match source {
                Source::File { file } => Ok(
                    seq!["from : "@ + spec_escape_str(self.files@[file.0 as int].path@.text())],
                ),
                Source::Archive { archive, path } => Ok(
                    seq![
                        "from : "@ + spec_escape_str(
                            self.archives@[archive.0 as int].path.path@.text(),
                        ),
                        "path : /"@ + path@,
                    ],
                ),
            }
        }
    }

    /// The lines that identify a source in a report.
    pub fn describe(&self, source: &Source) -> (r: Result<Vec<String>, DbErr>)
        ensures
            match r {
                Ok(lines) => self.spec_describe(source) == Ok::<Seq<Seq<char>>, DbErr>(
                    names(lines@),
                ),
                Err(e) => self.spec_describe(source) == Err::<Seq<Seq<char>>, DbErr>(e),
            },
    {
        let mut out: Vec<String> = Vec::new();
        match source {
            Source::File { file } => {
                match self.file(*file) {
                    Err(e) => {
                        return Err(e);
                    },
                    Ok(link) => {
                        let mut line = text::chars("from : ");
                        text::extend_str(&mut line, shown_path(&link.path).as_str());
                        out.push(text::string(&line));
                        assert(names(out@) =~= seq![line@]);
                    },
                }
            },
            Source::Archive { archive, path } => {
                match self.archive(*archive) {
                    Err(e) => {
                        return Err(e);
                    },
                    Ok(a) => {
                        let mut line = text::chars("from : ");
                        text::extend_str(&mut line, shown_path(&a.path.path).as_str());
                        out.push(text::string(&line));
                        let mut entry = text::chars("path : /");
                        text::extend_str(&mut entry, path.as_str());
                        out.push(text::string(&entry));
                        assert(names(out@) =~= seq![line@, entry@]);
                    },
                }
            },
        }
        Ok(out)
    }

    /// Reports the lines that identify a source, at the current
    /// indentation. An unknown source reports nothing.
    pub fn dump(&self, o: &mut Out, source: &Source) -> (r: Result<(), DbErr>)
        ensures
            final(o).indent == old(o).indent,
            match self.spec_describe(source) {
                Ok(lines) => r is Ok && final(o)@ == old(o)@ + plain(lines, old(o).indent),
                Err(e) => r == Err::<(), DbErr>(e) && final(o)@ == old(o)@,
            },
    {
        match self.describe(source) {
            Err(e) => Err(e),
            Ok(lines) => {
                put_plain(o, &lines);
                Ok(())
            },
        }
    }
}

/// `texts` as plain lines at one indentation.
pub open spec fn plain(texts: Seq<Seq<char>>, indent: usize) -> Seq<LineModel> {
    texts.map_values(|t: Seq<char>| LineModel { indent, level: Level::Blank, text: t })
}

/// `notes` as lines at one indentation, each at its level.
pub open spec fn noted(notes: Seq<(Level, String)>, indent: usize) -> Seq<LineModel> {
    notes.map_values(|n: (Level, String)| LineModel { indent, level: n.0, text: n.1@ })
}

fn put_plain(o: &mut Out, texts: &Vec<String>)
    ensures
        final(o).indent == old(o).indent,
        final(o)@ == old(o)@ + plain(names(texts@), old(o).indent),
{
    let mut i: usize = 0;
    assert(o@ =~= old(o)@ + plain(names(texts@).take(0), old(o).indent));
    while i < texts.len()
        invariant
            i <= texts.len(),
            o.indent == old(o).indent,
            o@ == old(o)@ + plain(names(texts@).take(i as int), old(o).indent),
        decreases texts.len() - i,
    {
        o.blank(texts[i].as_str());
        assert(o@ =~= old(o)@ + plain(names(texts@).take(i + 1), old(o).indent));
        i += 1;
    }
    assert(names(texts@).take(i as int) == names(texts@));
}

fn put_noted(o: &mut Out, notes: &Vec<(Level, String)>)
    ensures
        final(o).indent == old(o).indent,
        final(o)@ == old(o)@ + noted(notes@, old(o).indent),
{
    let mut i: usize = 0;
    assert(o@ =~= old(o)@ + noted(notes@.take(0), old(o).indent));
    while i < notes.len()
        invariant
            i <= notes.len(),
            o.indent == old(o).indent,
            o@ == old(o)@ + noted(notes@.take(i as int), old(o).indent),
        decreases notes.len() - i,
    {
        o.line(notes[i].0, notes[i].1.as_str());
        assert(o@ =~= old(o)@ + noted(notes@.take(i + 1), old(o).indent));
        i += 1;
    }
    assert(notes@.take(i as int) == notes@);
}

/// A finding as it is reported: the heading, and one step deeper the lines
/// that identify the source and the notes.
pub open spec fn section(
    indent: usize,
    level: Level,
    head: Seq<char>,
    source: Seq<Seq<char>>,
    notes: Seq<(Level, String)>,
) -> Seq<LineModel> {
    seq![LineModel { indent, level, text: head }] + plain(source, entered(indent, 1)) + noted(
        notes,
        entered(indent, 1),
    )
}

/// Reports a finding about `source`. The indentation is one step deeper for
/// what follows the heading and is left again at the end. An unknown source
/// reports nothing.
pub fn report(
    db: &Db,
    o: &mut Out,
    level: Level,
    head: &str,
    source: &Source,
    notes: &Vec<(Level, String)>,
) -> (r: Result<(), DbErr>)
    ensures
        match db.spec_describe(source) {
            Ok(lines) => r is Ok && final(o)@ == old(o)@ + section(
                old(o).indent,
                level,
                head@,
                lines,
                notes@,
            ) && final(o).indent == left(entered(old(o).indent, 1), 1),
            Err(e) => r == Err::<(), DbErr>(e) && final(o)@ == old(o)@ && final(o).indent == old(
                o,
            ).indent,
        },
{
    let lines = match db.describe(source) {
        Err(e) => {
            return Err(e);
        },
        Ok(lines) => lines,
    };
    o.line(level, head);
    o.indent(1);
    put_plain(o, &lines);
    put_noted(o, notes);
    o.leave(1);
    assert(o@ =~= old(o)@ + section(old(o).indent, level, head@, names(lines@), notes@));
    Ok(())
}

/// The notes that stand for the messages of an error.
pub open spec fn error_notes(messages: Seq<String>, notes: Seq<(Level, String)>) -> bool {
    &&& notes.len() == messages.len()
    &&& forall|i: int|
        0 <= i < notes.len() ==> (#[trigger] notes[i]).0 == Level::Error && notes[i].1@
            == messages[i]@
}

/// Reports the errors of one source: the source, then every message.
pub fn report_error(db: &Db, o: &mut Out, error: &PathError) -> (r: Result<(), DbErr>)
    ensures
        match db.spec_describe(&error.source) {
            Ok(lines) => r is Ok && final(o).indent == left(entered(old(o).indent, 1), 1)
                && exists|notes: Seq<(Level, String)>|
                error_notes(error.messages@, notes) && final(o)@ == old(o)@ + #[trigger] section(
                    old(o).indent,
                    Level::Error,
                    "Error:"@,
                    lines,
                    notes,
                ),
            Err(e) => r == Err::<(), DbErr>(e) && final(o)@ == old(o)@,
        },
{
    let mut notes: Vec<(Level, String)> = Vec::new();
    let mut i: usize = 0;
    while i < error.messages.len()
        invariant
            i <= error.messages.len(),
            error_notes(error.messages@.take(i as int), notes@),
        decreases error.messages.len() - i,
    {
        notes.push((Level::Error, error.messages[i].clone()));
        i += 1;
    }
    assert(error.messages@.take(i as int) == error.messages@);
    report(db, o, Level::Error, "Error:", &error.source, &notes)
}

/// The notes that stand for the lines of a tag.
pub open spec fn plain_notes(lines: Seq<Seq<char>>, notes: Seq<(Level, String)>) -> bool {
    &&& notes.len() == lines.len()
    &&& forall|i: int|
        0 <= i < notes.len() ==> (#[trigger] notes[i]).0 == Level::Blank && notes[i].1@
            == lines[i]
}

/// Reports the tag of a source: the source, then every item of the tag.
pub fn report_dump(db: &Db, o: &mut Out, dump: &Dump) -> (r: Result<(), DbErr>)
    ensures
        match db.spec_describe(&dump.source) {
            Ok(lines) => r is Ok && final(o).indent == left(entered(old(o).indent, 1), 1)
                && exists|notes: Seq<(Level, String)>|
                plain_notes(dump.tags.spec_lines(), notes) && final(o)@ == old(o)@
                    + #[trigger] section(
                    old(o).indent,
                    Level::Info,
                    "Tags:"@,
                    lines,
                    notes,
                ),
            Err(e) => r == Err::<(), DbErr>(e) && final(o)@ == old(o)@,
        },
{
    let shown = dump.tags.lines();
    let mut notes: Vec<(Level, String)> = Vec::new();
    let mut i: usize = 0;
    while i < shown.len()
        invariant
            i <= shown.len(),
            plain_notes(names(shown@).take(i as int), notes@),
        decreases shown.len() - i,
    {
        notes.push((Level::Blank, shown[i].clone()));
        i += 1;
    }
    assert(names(shown@).take(i as int) == names(shown@));
    report(db, o, Level::Info, "Tags:", &dump.source, &notes)
}

/// `formats` by name with `, ` between them.
pub open spec fn format_list(formats: Seq<Format>) -> Seq<char>
    decreases formats.len(),
{
    if formats.len() == 0 {
        Seq::empty()
    } else if formats.len() == 1 {
        formats[0].spec_ext()
    } else {
        format_list(formats.drop_last()) + ", "@ + formats.last().spec_ext()
    }
}

/// The heading for the targets of a source.
pub open spec fn matching_head(from: Format, to_formats: Seq<Format>) -> Seq<char> {
    "Found matching conversions: "@ + from.spec_ext() + " -> "@ + format_list(to_formats)
}

/// Reports the targets that the rules yield for a source.
pub fn report_matching(db: &Db, o: &mut Out, found: &MatchingConversion) -> (r: Result<(), DbErr>)
    ensures
        match db.spec_describe(&found.source) {
            Ok(lines) => r is Ok && final(o)@ == old(o)@ + section(
                old(o).indent,
                Level::Info,
                matching_head(found.from, found.to_formats@),
                lines,
                Seq::empty(),
            ) && final(o).indent == left(entered(old(o).indent, 1), 1),
            Err(e) => r == Err::<(), DbErr>(e) && final(o)@ == old(o)@,
        },
{
    let mut head = text::chars("Found matching conversions: ");
    text::extend_str(&mut head, found.from.ext());
    text::extend_str(&mut head, " -> ");
    let ghost start = head@;
    let mut i: usize = 0;
    assert(found.to_formats@.take(0) =~= Seq::<Format>::empty());
    while i < found.to_formats.len()
        invariant
            i <= found.to_formats.len(),
            head@ == start + format_list(found.to_formats@.take(i as int)),
        decreases found.to_formats.len() - i,
    {
        assert(found.to_formats@.take(i + 1).drop_last() == found.to_formats@.take(i as int));
        if i > 0 {
            text::extend_str(&mut head, ", ");
        }
        text::extend_str(&mut head, found.to_formats[i].ext());
        assert(head@ =~= start + format_list(found.to_formats@.take(i + 1)));
        i += 1;
    }
    assert(found.to_formats@.take(i as int) == found.to_formats@);
    let notes: Vec<(Level, String)> = Vec::new();
    assert(notes@ =~= Seq::<(Level, String)>::empty());
    report(db, o, Level::Info, text::string(&head).as_str(), &found.source, &notes)
}

/// Reports a source whose extension names no format.
pub fn report_unsupported(db: &Db, o: &mut Out, found: &Unsupported) -> (r: Result<(), DbErr>)
    ensures
        match db.spec_describe(&found.source) {
            Ok(lines) => r is Ok && final(o)@ == old(o)@ + section(
                old(o).indent,
                Level::Warn,
                "Unsupported extension: "@ + found.ext@,
                lines,
                Seq::empty(),
            ) && final(o).indent == left(entered(old(o).indent, 1), 1),
            Err(e) => r == Err::<(), DbErr>(e) && final(o)@ == old(o)@,
        },
{
    let mut head = text::chars("Unsupported extension: ");
    text::extend_str(&mut head, found.ext.as_str());
    let notes: Vec<(Level, String)> = Vec::new();
    assert(notes@ =~= Seq::<(Level, String)>::empty());
    report(db, o, Level::Warn, text::string(&head).as_str(), &found.source, &notes)
}

/// The line that names a destination.
pub open spec fn to_line(path: crate::path::PathModel) -> Seq<char> {
    "to   : "@ + spec_escape_str(path.text())
}

fn to_note(path: &FilePath) -> (r: Vec<(Level, String)>)
    ensures
        r@.len() == 1,
        r@[0].0 == Level::Blank,
        r@[0].1@ == to_line(path@),
{
    let mut line = text::chars("to   : ");
    text::extend_str(&mut line, shown_path(path).as_str());
    let mut notes: Vec<(Level, String)> = Vec::new();
    notes.push((Level::Blank, text::string(&line)));
    notes
}

/// Reports a destination that exists and is kept.
pub fn report_exists(db: &Db, o: &mut Out, found: &Exists) -> (r: Result<(), DbErr>)
    ensures
        match db.spec_describe(&found.source) {
            Ok(lines) => r is Ok && final(o).indent == left(entered(old(o).indent, 1), 1)
                && final(o)@ == old(o)@ + section(
                old(o).indent,
                Level::Warn,
                "already exists (--force to remove):"@,
                lines,
                Seq::empty(),
            ).push(
                LineModel {
                    indent: entered(old(o).indent, 1),
                    level: Level::Blank,
                    text: to_line(found.path.path@),
                },
            ),
            Err(e) => r == Err::<(), DbErr>(e) && final(o)@ == old(o)@,
        },
{
    let notes = to_note(&found.path.path);
    let r = report(db, o, Level::Warn, "already exists (--force to remove):", &found.source, &notes);
    proof {
        if r is Ok {
            let ind = entered(old(o).indent, 1);
            assert(noted(notes@, ind) =~= seq![
                LineModel { indent: ind, level: Level::Blank, text: to_line(found.path.path@) },
            ]);
            assert(noted(Seq::<(Level, String)>::empty(), ind) =~= Seq::<LineModel>::empty());
            assert(o@ =~= old(o)@ + section(
                old(o).indent,
                Level::Warn,
                "already exists (--force to remove):"@,
                db.spec_describe(&found.source)->Ok_0,
                Seq::empty(),
            ).push(LineModel { indent: ind, level: Level::Blank, text: to_line(found.path.path@) }));
        }
    }
    r
}

/// The heading of a task: its number, the number of tasks, and what it
/// does.
pub open spec fn task_head(task: &Task, total: usize) -> Seq<char> {
    "Task #"@ + text::decimal(task.index as nat) + "/#"@ + text::decimal(total as nat) + ": "@
        + task.kind.spec_name()
}

/// Reports the heading of a task, its source and its destination.
pub fn report_task(db: &Db, o: &mut Out, task: &Task, total: usize) -> (r: Result<(), DbErr>)
    ensures
        match db.spec_describe(&task.source) {
            Ok(lines) => r is Ok && final(o).indent == left(entered(old(o).indent, 1), 1)
                && final(o)@ == old(o)@ + section(
                old(o).indent,
                Level::Info,
                task_head(task, total),
                lines,
                Seq::empty(),
            ).push(
                LineModel {
                    indent: entered(old(o).indent, 1),
                    level: Level::Blank,
                    text: to_line(task.to_path.path@),
                },
            ),
            Err(e) => r == Err::<(), DbErr>(e) && final(o)@ == old(o)@,
        },
{
    let mut head = text::chars("Task #");
    text::push_decimal(&mut head, task.index as u64);
    text::extend_str(&mut head, "/#");
    text::push_decimal(&mut head, total as u64);
    text::extend_str(&mut head, ": ");
    text::extend_str(&mut head, task.kind.name().as_str());
    let notes = to_note(&task.to_path.path);
    let r = report(db, o, Level::Info, text::string(&head).as_str(), &task.source, &notes);
    proof {
        if r is Ok {
            let ind = entered(old(o).indent, 1);
            assert(noted(notes@, ind) =~= seq![
                LineModel { indent: ind, level: Level::Blank, text: to_line(task.to_path.path@) },
            ]);
            assert(noted(Seq::<(Level, String)>::empty(), ind) =~= Seq::<LineModel>::empty());
            assert(o@ =~= old(o)@ + section(
                old(o).indent,
                Level::Info,
                task_head(task, total),
                db.spec_describe(&task.source)->Ok_0,
                Seq::empty(),
            ).push(LineModel { indent: ind, level: Level::Blank, text: to_line(task.to_path.path@) }));
        }
    }
    r
}

impl Trash {
    /// Where the file goes: the trash directory, then the name that the
    /// file has there.
    pub fn target(&self, trash_dir: &FilePath) -> (r: FilePath)
        ensures
            r@ == trash_dir@.pushed(self.name@),
    {
        let mut to = trash_dir.copy();
        to.push(self.name.as_str());
        to
    }

    /// The lines that report the trashing of the file.
    pub open spec fn spec_lines(&self, trash_dir: crate::path::PathModel, indent: usize) -> Seq<
        LineModel,
    > {
        seq![
            LineModel { indent, level: Level::Info, text: "Trashing source file"@ },
            LineModel {
                indent: entered(indent, 1),
                level: Level::Blank,
                text: "from : "@ + spec_escape_str(self.path@.text()),
            },
            LineModel {
                indent: entered(indent, 1),
                level: Level::Blank,
                text: to_line(trash_dir.pushed(self.name@)),
            },
        ]
    }

    /// Reports that the file is moved to the trash.
    pub fn report(&self, o: &mut Out, trash_dir: &FilePath)
        ensures
            final(o)@ == old(o)@ + self.spec_lines(trash_dir@, old(o).indent),
            final(o).indent == left(entered(old(o).indent, 1), 1),
    {
        let mut head = text::chars("Trashing ");
        text::extend_str(&mut head, self.what.name());
        assert(head@ =~= "Trashing source file"@) by {
            reveal_strlit("Trashing ");
            reveal_strlit("source file");
            reveal_strlit("Trashing source file");
        }
        let mut from = text::chars("from : ");
        text::extend_str(&mut from, shown_path(&self.path).as_str());
        let mut to = text::chars("to   : ");
        text::extend_str(&mut to, shown_path(&self.target(trash_dir)).as_str());
        o.info(text::string(&head).as_str());
        o.indent(1);
        o.blank(text::string(&from).as_str());
        o.blank(text::string(&to).as_str());
        o.leave(1);
        assert(o@ =~= old(o)@ + self.spec_lines(trash_dir@, old(o).indent));
    }
}

/// The texts of a list of notes.
pub open spec fn note_texts(notes: Seq<(Level, String)>) -> Seq<(Level, Seq<char>)> {
    notes.map_values(|n: (Level, String)| (n.0, n.1@))
}

/// Notes as lines at one indentation.
pub open spec fn note_lines(notes: Seq<(Level, Seq<char>)>, indent: usize) -> Seq<LineModel> {
    notes.map_values(|n: (Level, Seq<char>)| LineModel { indent, level: n.0, text: n.1 })
}

fn push_note(notes: &mut Vec<(Level, String)>, text: &Vec<char>)
    ensures
        note_texts(final(notes)@) == note_texts(old(notes)@).push((Level::Blank, text@)),
{
    notes.push((Level::Blank, text::string(text)));
    assert(note_texts(notes@) =~= note_texts(old(notes)@).push((Level::Blank, text@)));
}

impl Task {
    /// The path that a directory is made for, as it stands in the task.
    pub open spec fn spec_dir_text(&self, what: DirFor) -> Seq<char> {
        match self.spec_target(what).parent() {
            Some(d) => spec_escape_str(d.text()),
            None => Seq::empty(),
        }
    }

    /// What a directory is made for, in words: `partial` for the partial
    /// file, `rename` for the destination of a conversion, and the name of
    /// the transfer for the destination of a transfer.
    pub open spec fn spec_dir_name(&self, what: DirFor) -> Seq<char> {
        match what {
            DirFor::Partial => "partial"@,
            DirFor::Rename => "rename"@,
            DirFor::Transfer => match self.kind {
                TaskKind::Transfer { kind } => kind.spec_name(),
                TaskKind::Convert { .. } => "transfer"@,
            },
        }
    }
}

impl Config {
    /// The partial file as it is shown in a quiet run.
    pub open spec fn part_placeholder(&self) -> Seq<char> {
        "<to>."@ + self.part_ext@
    }

    /// The heading under which an operation is reported, if it is reported
    /// at all: probing a directory and running the encoder have none.
    pub open spec fn op_head(&self, task: &Task, op: Op) -> Option<(Level, Seq<char>)> {
        match op {
            Op::Remove => if task.pre_remove@.len() > 0 {
                Some((Level::Info, "removing "@ + task.pre_remove@[0].0.spec_name()))
            } else {
                None
            },
            Op::CreateDir(what) => Some(
                (Level::Info, "making "@ + task.spec_dir_name(what) + " dir"@),
            ),
            Op::Rename => Some((Level::Blank, "mv "@ + self.part_placeholder() + " <to>"@)),
            Op::Transfer(kind) => Some((Level::Blank, kind.spec_symbolic_command() + " <from> <to>"@)),
            Op::ProbeDir(_) | Op::Encode => None,
        }
    }

    /// What is reported below the heading of an operation. A verbose run
    /// names the paths; a quiet run shows placeholders.
    pub open spec fn op_notes(&self, task: &Task, op: Op) -> Seq<(Level, Seq<char>)> {
        match op {
            Op::Remove => if task.pre_remove@.len() > 0 {
                seq![
                    (
                        Level::Blank,
                        if self.verbose {
                            "rm "@ + spec_escape_str(task.pre_remove@[0].1.path@.text())
                        } else {
                            "rm "@ + self.part_placeholder()
                        },
                    ),
                ]
            } else {
                seq![]
            },
            Op::CreateDir(what) => seq![(Level::Blank, "mkdir -p "@ + task.spec_dir_text(what))],
            Op::Rename => if self.verbose {
                seq![
                    (Level::Blank, "from : "@ + spec_escape_str(task.spec_target(DirFor::Partial).text())),
                    (Level::Blank, to_line(task.to_path.path@)),
                ]
            } else {
                seq![]
            },
            Op::Transfer(_) => if self.verbose {
                seq![(Level::Blank, to_line(task.to_path.path@))]
            } else {
                seq![]
            },
            Op::ProbeDir(_) | Op::Encode => seq![],
        }
    }

    /// The lines that report an operation, at indentation `indent`.
    pub open spec fn op_lines(&self, task: &Task, op: Op, indent: usize) -> Seq<LineModel> {
        match self.op_head(task, op) {
            Some((level, head)) => seq![LineModel { indent, level, text: head }] + note_lines(
                self.op_notes(task, op),
                entered(indent, 1),
            ),
            None => Seq::empty(),
        }
    }

    /// Reports the operation that is about to be performed on a task.
    pub fn report_op(&self, o: &mut Out, task: &Task, op: Op)
        ensures
            final(o)@ == old(o)@ + self.op_lines(task, op, old(o).indent),
            final(o).indent == if self.op_head(task, op) is Some {
                left(entered(old(o).indent, 1), 1)
            } else {
                old(o).indent
            },
    {
        let mut head: Vec<char> = Vec::new();
        let mut level = Level::Blank;
        let mut notes: Vec<(Level, String)> = Vec::new();
        assert(note_texts(notes@) =~= Seq::<(Level, Seq<char>)>::empty());
        match op {
            Op::Remove => {
                match task.removal() {
                    None => {
                        assert(o@ =~= old(o)@ + self.op_lines(task, op, old(o).indent));
                        return ;
                    },
                    Some(first) => {
                        level = Level::Info;
                        text::extend_str(&mut head, "removing ");
                        text::extend_str(&mut head, first.0.name());
                        assert(head@ =~= "removing "@ + task.pre_remove@[0].0.spec_name());
                        let mut line = text::chars("rm ");
                        if self.verbose {
                            text::extend_str(&mut line, shown_path(&first.1.path).as_str());
                        } else {
                            text::extend_str(&mut line, "<to>.");
                            text::extend_str(&mut line, self.part_ext.as_str());
                            assert(line@ =~= "rm "@ + self.part_placeholder());
                        }
                        push_note(&mut notes, &line);
                        assert(note_texts(notes@) =~= self.op_notes(task, op));
                    },
                }
            },
            Op::CreateDir(what) => {
                level = Level::Info;
                text::extend_str(&mut head, "making ");
                match what {
                    DirFor::Partial => text::extend_str(&mut head, "partial"),
                    DirFor::Rename => text::extend_str(&mut head, "rename"),
                    DirFor::Transfer => match &task.kind {
                        TaskKind::Transfer { kind } => text::extend_str(&mut head, kind.name()),
                        TaskKind::Convert { .. } => text::extend_str(&mut head, "transfer"),
                    },
                }
                text::extend_str(&mut head, " dir");
                assert(head@ =~= "making "@ + task.spec_dir_name(what) + " dir"@);
                let mut line = text::chars("mkdir -p ");
                let target = match what {
                    DirFor::Partial => match &task.kind {
                        TaskKind::Convert { part_path, .. } => &part_path.path,
                        TaskKind::Transfer { .. } => &task.to_path.path,
                    },
                    _ => &task.to_path.path,
                };
                assert(target@ == task.spec_target(what));
                match target.parent() {
                    Some(d) => text::extend_str(&mut line, shown_path(&d).as_str()),
                    None => {},
                }
                assert(line@ =~= "mkdir -p "@ + task.spec_dir_text(what));
                push_note(&mut notes, &line);
                assert(note_texts(notes@) =~= self.op_notes(task, op));
            },
            Op::Rename => {
                text::extend_str(&mut head, "mv <to>.");
                text::extend_str(&mut head, self.part_ext.as_str());
                text::extend_str(&mut head, " <to>");
                assert(head@ =~= "mv "@ + self.part_placeholder() + " <to>"@) by {
                    reveal_strlit("mv <to>.");
                    reveal_strlit("mv ");
                    reveal_strlit("<to>.");
                    assert("mv <to>."@ =~= "mv "@ + "<to>."@);
                }
                if self.verbose {
                    let part = match &task.kind {
                        TaskKind::Convert { part_path, .. } => &part_path.path,
                        TaskKind::Transfer { .. } => &task.to_path.path,
                    };
                    let mut from = text::chars("from : ");
                    text::extend_str(&mut from, shown_path(part).as_str());
                    push_note(&mut notes, &from);
                    let mut to = text::chars("to   : ");
                    text::extend_str(&mut to, shown_path(&task.to_path.path).as_str());
                    push_note(&mut notes, &to);
                    assert(part@ == task.spec_target(DirFor::Partial));
                }
                assert(note_texts(notes@) =~= self.op_notes(task, op));
            },
            Op::Transfer(kind) => {
                text::extend_str(&mut head, kind.symbolic_command());
                text::extend_str(&mut head, " <from> <to>");
                assert(head@ =~= kind.spec_symbolic_command() + " <from> <to>"@);
                if self.verbose {
                    let mut to = text::chars("to   : ");
                    text::extend_str(&mut to, shown_path(&task.to_path.path).as_str());
                    push_note(&mut notes, &to);
                }
                assert(note_texts(notes@) =~= self.op_notes(task, op));
            },
            Op::ProbeDir(_) | Op::Encode => {
                assert(o@ =~= old(o)@ + self.op_lines(task, op, old(o).indent));
                return ;
            },
        }
        assert(self.op_head(task, op) == Some((level, head@)));
        assert(note_texts(notes@) =~= self.op_notes(task, op));
        o.line(level, text::string(&head).as_str());
        o.indent(1);
        put_noted(o, &notes);
        o.leave(1);
        assert(noted(notes@, entered(old(o).indent, 1)) =~= note_lines(
            note_texts(notes@),
            entered(old(o).indent, 1),
        ));
        assert(o@ =~= old(o)@ + self.op_lines(task, op, old(o).indent));
    }

    /// The words that are shown in place of others in a quiet run: the
    /// encoder, the input and the partial file appear as placeholders. A
    /// verbose run shows every word as it is.
    pub open spec fn placeholders(&self, input: Seq<char>, output: Seq<char>) -> Seq<
        (Seq<char>, Seq<char>),
    > {
        if self.verbose {
            seq![]
        } else {
            seq![
                (self.ffmpeg@, "<ffmpeg>"@),
                (input, "<from>"@),
                (output, self.part_placeholder()),
            ]
        }
    }

    /// The encoder's command line as it is reported.
    pub fn shown_command(&self, input: &str, to: Format, output: &str) -> (r: String)
        ensures
            r@ == shown(self.placeholders(input@, output@), self.ffmpeg@) + shown_args(
                self.placeholders(input@, output@),
                self.spec_encoder_args(input@, to, output@),
            ),
    {
        let args = self.encoder_args(input, to, output);
        let mut cmd = FormatCommand::new(self.ffmpeg.as_str(), args);
        assert(replacement_texts(cmd.replacements@) =~= Seq::<(Seq<char>, Seq<char>)>::empty());
        if !self.verbose {
            cmd.replace(self.ffmpeg.as_str(), "<ffmpeg>");
            cmd.replace(input, "<from>");
            let mut part = text::chars("<to>.");
            text::extend_str(&mut part, self.part_ext.as_str());
            cmd.replace(output, text::string(&part).as_str());
            assert(replacement_texts(cmd.replacements@) =~= self.placeholders(input@, output@));
        }
        cmd.render()
    }
}

} // verus!
