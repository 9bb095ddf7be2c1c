//! Execution: the steps by which one task is carried out, the encoder's
//! arguments, and what goes to the trash afterwards.
//!
//! The library decides, the caller acts: [`Task::step`] names the next
//! operation, the caller performs it and reports how it went. A task can be
//! taken up again at any time from [`Stage::Idle`]; what it has already
//! achieved is never done twice.

use vstd::prelude::*;

use crate::format::Format;
use crate::path::{names, FilePath, PathModel};
use crate::plan::Config;
use crate::source::{Db, DbErr, MaybeLink, Source};
use crate::tasks::{Reason, Task, TaskKind, TransferKind, Trash, TrashWhat};
use crate::text;

verus! {

/// What a directory is needed for.
#[derive(Clone, Copy, Debug, PartialEq, Eq, Structural)]
pub enum DirFor {
    /// For the partial file that the encoder writes.
    Partial,
    /// For the destination that the partial file is renamed to.
    Rename,
    /// For the destination of a transfer.
    Transfer,
}

/// Where the execution of a task stands: which operation is under way.
#[derive(Clone, Copy, Debug, PartialEq, Eq, Structural)]
pub enum Stage {
    /// Nothing was asked for yet.
    Idle,
    Removing,
    ProbingDir(DirFor),
    CreatingDir(DirFor),
    Encoding,
    Renaming,
    Transferring,
    /// Nothing more is asked for in this run.
    Finished,
}

/// How the operation that was asked for went.
#[derive(Clone, Copy, Debug, PartialEq, Eq, Structural)]
pub enum Event {
    /// Nothing was asked for yet.
    Start,
    /// The operation succeeded, or was left out in a dry run.
    Done,
    /// The operation failed.
    Failed,
    /// Whether the probed directory exists.
    Present(bool),
}

impl Event {
    /// How a run of the encoder went, told by its exit code: zero is
    /// success; any other code, or no code at all because the encoder could
    /// not be started or was killed, is failure.
    pub fn of_exit(code: Option<i32>) -> (r: Event)
        ensures
            r == if code == Some(0i32) {
                Event::Done
            } else {
                Event::Failed
            },
    {
        match code {
            Some(c) => if c == 0 {
                Event::Done
            } else {
                Event::Failed
            },
            None => Event::Failed,
        }
    }
}

/// An operation for the caller to perform on the task at hand.
#[derive(Clone, Copy, Debug, PartialEq, Eq, Structural)]
pub enum Op {
    /// Remove the first of the task's queued files.
    Remove,
    /// Tell whether the directory exists.
    ProbeDir(DirFor),
    /// Create the directory and what is missing above it.
    CreateDir(DirFor),
    /// Run the encoder on the source, writing to the partial path.
    Encode,
    /// Rename the partial file to the destination.
    Rename,
    /// Link, move or copy the source to the destination.
    Transfer(TransferKind),
}

impl Op {
    /// Whether the operation changes anything on disk.
    pub open spec fn spec_mutates(self) -> bool {
        !(self is ProbeDir)
    }

    /// Whether the operation changes anything on disk.
    pub fn mutates(&self) -> (r: bool)
        ensures
            r == self.spec_mutates(),
    {
        match self {
            Op::ProbeDir(_) => false,
            _ => true,
        }
    }
}

impl Config {
    /// Whether the caller performs `op`: in a dry run nothing that changes
    /// the disk is performed, and the caller reports `Done` in its place.
    pub fn performs(&self, op: &Op) -> (r: bool)
        ensures
            r == (!self.dry_run || !op.spec_mutates()),
    {
        !self.dry_run || !op.mutates()
    }
}

/// What the steps of a task depend on.
pub struct Progress {
    /// Number of files still queued for removal.
    pub pending: nat,
    /// Whether the task is a conversion.
    pub convert: bool,
    /// Whether the encoder has succeeded; true of a transfer.
    pub converted: bool,
    /// Whether the destination holds the result.
    pub moved: bool,
    /// The kind of a transfer.
    pub kind: TransferKind,
    /// Whether the partial path lies in a directory that may have to be
    /// made.
    pub part_dir: bool,
    /// Whether the destination lies in a directory that may have to be made.
    pub dest_dir: bool,
}

/// Whether a path lies in a directory that is named: a path without parent,
/// or directly in the working directory, needs none to be made.
pub open spec fn needs_dir(p: PathModel) -> bool {
    match p.parent() {
        Some(d) => !d.is_empty(),
        None => false,
    }
}

impl Progress {
    pub open spec fn completed(self) -> bool {
        self.converted && self.moved && self.pending == 0
    }

    /// Whether the progress allows for `stage`.
    pub open spec fn admits(self, stage: Stage) -> bool {
        match stage {
            Stage::Idle | Stage::Finished => true,
            Stage::Removing => self.pending > 0,
            Stage::ProbingDir(what) | Stage::CreatingDir(what) => self.pending == 0 && match what {
                DirFor::Partial => self.convert && !self.converted,
                DirFor::Rename => self.convert && self.converted && !self.moved,
                DirFor::Transfer => !self.convert && !self.moved,
            },
            Stage::Encoding => self.pending == 0 && self.convert && !self.converted,
            Stage::Renaming => self.pending == 0 && self.convert && self.converted && !self.moved,
            Stage::Transferring => self.pending == 0 && !self.convert && !self.moved,
        }
    }

    pub open spec fn stop(self) -> (Progress, Stage, Option<Op>) {
        (self, Stage::Finished, None)
    }

    /// The main action that a directory was needed for.
    pub open spec fn act(self, what: DirFor) -> (Progress, Stage, Option<Op>) {
        match what {
            DirFor::Partial => (self, Stage::Encoding, Some(Op::Encode)),
            DirFor::Rename => (self, Stage::Renaming, Some(Op::Rename)),
            DirFor::Transfer => (self, Stage::Transferring, Some(Op::Transfer(self.kind))),
        }
    }

    /// Before a main action its directory is probed, where it has one.
    pub open spec fn ensure(self, what: DirFor) -> (Progress, Stage, Option<Op>) {
        let named = match what {
            DirFor::Partial => self.part_dir,
            DirFor::Rename | DirFor::Transfer => self.dest_dir,
        };
        if named {
            (self, Stage::ProbingDir(what), Some(Op::ProbeDir(what)))
        } else {
            self.act(what)
        }
    }

    /// After the removals: a conversion that has not succeeded is encoded,
    /// a transfer that has not arrived is transferred.
    pub open spec fn enter_main(self) -> (Progress, Stage, Option<Op>) {
        if self.convert {
            if !self.converted {
                self.ensure(DirFor::Partial)
            } else {
                self.stop()
            }
        } else {
            if !self.moved {
                self.ensure(DirFor::Transfer)
            } else {
                self.stop()
            }
        }
    }

    /// Queued files are removed first, one by one.
    pub open spec fn removal(self) -> (Progress, Stage, Option<Op>) {
        if self.pending > 0 {
            (self, Stage::Removing, Some(Op::Remove))
        } else {
            self.enter_main()
        }
    }

    /// The step that follows `event` in `stage`: the new progress, the new
    /// stage, and the operation to perform, if any. A failed removal is not
    /// tried again in this run; any other failure ends the run of the task
    /// and leaves it incomplete.
    pub open spec fn step(self, stage: Stage, event: Event) -> (Progress, Stage, Option<Op>) {
        if !self.admits(stage) {
            self.stop()
        } else {
            match stage {
                Stage::Idle => if self.completed() {
                    self.stop()
                } else {
                    self.removal()
                },
                Stage::Removing => (Progress { pending: (self.pending - 1) as nat, ..self }).removal(),
                Stage::ProbingDir(what) => match event {
                    Event::Present(true) => self.act(what),
                    Event::Present(false) => (self, Stage::CreatingDir(what), Some(Op::CreateDir(what))),
                    _ => self.stop(),
                },
                Stage::CreatingDir(what) => if event == Event::Done {
                    self.act(what)
                } else {
                    self.stop()
                },
                Stage::Encoding => if event == Event::Done {
                    let p = Progress { converted: true, ..self };
                    if !p.moved {
                        p.ensure(DirFor::Rename)
                    } else {
                        p.stop()
                    }
                } else {
                    self.stop()
                },
                Stage::Renaming | Stage::Transferring => if event == Event::Done {
                    (Progress { moved: true, ..self }).stop()
                } else {
                    self.stop()
                },
                Stage::Finished => self.stop(),
            }
        }
    }
}

impl Task {
    /// What the steps of the task depend on.
    pub open spec fn progress(&self) -> Progress {
        Progress {
            pending: self.pre_remove@.len(),
            convert: self.kind is Convert,
            converted: self.kind.spec_is_completed(),
            moved: self.moved,
            kind: match self.kind {
                TaskKind::Transfer { kind } => kind,
                TaskKind::Convert { .. } => TransferKind::Copy,
            },
            part_dir: match self.kind {
                TaskKind::Convert { part_path, .. } => needs_dir(part_path.path@),
                TaskKind::Transfer { .. } => false,
            },
            dest_dir: needs_dir(self.to_path.path@),
        }
    }

    /// The path that a directory is needed for.
    pub open spec fn spec_target(&self, what: DirFor) -> PathModel {
        match what {
            DirFor::Partial => match self.kind {
                TaskKind::Convert { part_path, .. } => part_path.path@,
                TaskKind::Transfer { .. } => self.to_path.path@,
            },
            DirFor::Rename | DirFor::Transfer => self.to_path.path@,
        }
    }

    /// The directory to probe or to make for `what`, if it is named.
    pub fn dir_for(&self, what: DirFor) -> (r: Option<FilePath>)
        ensures
            match r {
                Some(d) => needs_dir(self.spec_target(what)) && self.spec_target(what).parent()
                    == Some(d@),
                None => !needs_dir(self.spec_target(what)),
            },
    {
        let target = match what {
            DirFor::Partial => match &self.kind {
                TaskKind::Convert { part_path, .. } => &part_path.path,
                TaskKind::Transfer { .. } => &self.to_path.path,
            },
            _ => &self.to_path.path,
        };
        match target.parent() {
            Some(d) => if d.is_empty() {
                None
            } else {
                Some(d)
            },
            None => None,
        }
    }

    /// The file that `Op::Remove` is about: the first that is queued.
    pub fn removal(&self) -> (r: Option<&(Reason, MaybeLink)>)
        ensures
            match r {
                Some(x) => self.pre_remove@.len() > 0 && *x == self.pre_remove@[0],
                None => self.pre_remove@.len() == 0,
            },
    {
        if self.pre_remove.len() > 0 {
            Some(&self.pre_remove[0])
        } else {
            None
        }
    }

    fn has_dir(&self, what: DirFor) -> (r: bool)
        ensures
            r == match what {
                DirFor::Partial => self.progress().part_dir,
                DirFor::Rename | DirFor::Transfer => self.progress().dest_dir,
            },
    {
        match what {
            DirFor::Partial => match &self.kind {
                TaskKind::Convert { .. } => self.dir_for(what).is_some(),
                TaskKind::Transfer { .. } => false,
            },
            _ => self.dir_for(what).is_some(),
        }
    }

    fn act(&self, what: DirFor) -> (r: (Stage, Option<Op>))
        ensures
            (self.progress(), r.0, r.1) == self.progress().act(what),
    {
        match what {
            DirFor::Partial => (Stage::Encoding, Some(Op::Encode)),
            DirFor::Rename => (Stage::Renaming, Some(Op::Rename)),
            DirFor::Transfer => {
                let kind = match &self.kind {
                    TaskKind::Transfer { kind } => *kind,
                    TaskKind::Convert { .. } => TransferKind::Copy,
                };
                (Stage::Transferring, Some(Op::Transfer(kind)))
            },
        }
    }

    fn ensure(&self, what: DirFor) -> (r: (Stage, Option<Op>))
        ensures
            (self.progress(), r.0, r.1) == self.progress().ensure(what),
    {
        if self.has_dir(what) {
            (Stage::ProbingDir(what), Some(Op::ProbeDir(what)))
        } else {
            self.act(what)
        }
    }

    fn enter_main(&self) -> (r: (Stage, Option<Op>))
        ensures
            (self.progress(), r.0, r.1) == self.progress().enter_main(),
    {
        match &self.kind {
            TaskKind::Convert { converted, .. } => {
                if !*converted {
                    self.ensure(DirFor::Partial)
                } else {
                    (Stage::Finished, None)
                }
            },
            TaskKind::Transfer { .. } => {
                if !self.moved {
                    self.ensure(DirFor::Transfer)
                } else {
                    (Stage::Finished, None)
                }
            },
        }
    }

    fn next_removal(&self) -> (r: (Stage, Option<Op>))
        ensures
            (self.progress(), r.0, r.1) == self.progress().removal(),
    {
        if self.pre_remove.len() > 0 {
            (Stage::Removing, Some(Op::Remove))
        } else {
            self.enter_main()
        }
    }

    fn admits(&self, stage: Stage) -> (r: bool)
        ensures
            r == self.progress().admits(stage),
    {
        let pending = self.pre_remove.len();
        let convert = match &self.kind {
            TaskKind::Convert { .. } => true,
            TaskKind::Transfer { .. } => false,
        };
        let converted = self.kind.is_completed();
        match stage {
            Stage::Idle | Stage::Finished => true,
            Stage::Removing => pending > 0,
            Stage::ProbingDir(what) | Stage::CreatingDir(what) => pending == 0 && match what {
                DirFor::Partial => convert && !converted,
                DirFor::Rename => convert && converted && !self.moved,
                DirFor::Transfer => !convert && !self.moved,
            },
            Stage::Encoding => pending == 0 && convert && !converted,
            Stage::Renaming => pending == 0 && convert && converted && !self.moved,
            Stage::Transferring => pending == 0 && !convert && !self.moved,
        }
    }

    fn set_converted(&mut self)
        requires
            old(self).kind is Convert,
        ensures
            final(self).progress() == (Progress { converted: true, ..old(self).progress() }),
            final(self).index == old(self).index,
            final(self).source == old(self).source,
            final(self).to_path == old(self).to_path,
            final(self).moved == old(self).moved,
            final(self).pre_remove == old(self).pre_remove,
            final(self).kind is Convert,
            final(self).kind->part_path == old(self).kind->part_path,
            final(self).kind->from == old(self).kind->from,
            final(self).kind->to == old(self).kind->to,
    {
        match &mut self.kind {
            TaskKind::Convert { converted, .. } => {
                *converted = true;
            },
            TaskKind::Transfer { .. } => {},
        }
    }

    /// Takes the task one step further. `stage` and `event` say what was
    /// asked for last and how it went; the result is the new stage and the
    /// operation to perform next, if any. The task records what was
    /// achieved: a removal that was tried leaves the queue, a successful
    /// encoding sets `converted`, a successful rename or transfer sets
    /// `moved`. Nothing else of the task changes.
    pub fn step(&mut self, stage: Stage, event: Event) -> (r: (Stage, Option<Op>))
        ensures
            (final(self).progress(), r.0, r.1) == old(self).progress().step(stage, event),
            final(self).index == old(self).index,
            final(self).source == old(self).source,
            final(self).to_path == old(self).to_path,
            final(self).pre_remove@ == old(self).pre_remove@.skip(
                old(self).pre_remove@.len() - final(self).pre_remove@.len(),
            ),
            match old(self).kind {
                TaskKind::Convert { part_path, from, to, .. } => final(self).kind is Convert
                    && final(self).kind->part_path == part_path && final(self).kind->from == from
                    && final(self).kind->to == to,
                TaskKind::Transfer { kind } => final(self).kind == old(self).kind,
            },
    {
        assert(self.pre_remove@.skip(0) == self.pre_remove@);
        if !self.admits(stage) {
            return (Stage::Finished, None);
        }
        match stage {
            Stage::Idle => {
                if self.is_completed() {
                    (Stage::Finished, None)
                } else {
                    self.next_removal()
                }
            },
            Stage::Removing => {
                self.pre_remove.remove(0);
                assert(self.pre_remove@ == old(self).pre_remove@.skip(1));
                self.next_removal()
            },
            Stage::ProbingDir(what) => {
                match event {
                    Event::Present(true) => self.act(what),
                    Event::Present(false) => (Stage::CreatingDir(what), Some(Op::CreateDir(what))),
                    _ => (Stage::Finished, None),
                }
            },
            Stage::CreatingDir(what) => {
                if event == Event::Done {
                    self.act(what)
                } else {
                    (Stage::Finished, None)
                }
            },
            Stage::Encoding => {
                if event == Event::Done {
                    self.set_converted();
                    if !self.moved {
                        self.ensure(DirFor::Rename)
                    } else {
                        (Stage::Finished, None)
                    }
                } else {
                    (Stage::Finished, None)
                }
            },
            Stage::Renaming | Stage::Transferring => {
                if event == Event::Done {
                    self.moved = true;
                }
                (Stage::Finished, None)
            },
            Stage::Finished => (Stage::Finished, None),
        }
    }
}

/// A task that is done asks for nothing: whatever stage and event it is
/// given, no operation comes back and the task stays as it is.
pub proof fn lemma_completed_task_rests(p: Progress, stage: Stage, event: Event)
    requires
        p.completed(),
    ensures
        p.step(stage, event) == (p, Stage::Finished, None::<Op>),
{
}

/// The encoder is run only when nothing is left to remove: a leftover
/// partial file is gone before the conversion that would write it anew.
pub proof fn lemma_removals_come_first(p: Progress, stage: Stage, event: Event)
    ensures
        p.step(stage, event).2 == Some(Op::Encode) ==> p.step(stage, event).0.pending == 0,
        p.pending > 0 && !p.completed() ==> p.step(Stage::Idle, event).2 == Some(Op::Remove),
{
}

/// What a task has achieved is never lost, and only success achieves it:
/// `converted` is set by nothing but a successful encoding, `moved` by
/// nothing but a successful rename or transfer.
pub proof fn lemma_progress_is_earned(p: Progress, stage: Stage, event: Event)
    ensures
        p.converted ==> p.step(stage, event).0.converted,
        p.moved ==> p.step(stage, event).0.moved,
        p.step(stage, event).0.pending <= p.pending,
        !p.converted && p.step(stage, event).0.converted ==> stage == Stage::Encoding && event
            == Event::Done,
        !p.moved && p.step(stage, event).0.moved ==> (stage == Stage::Renaming || stage
            == Stage::Transferring) && event == Event::Done,
{
}

/// A transfer is asked for with the kind that was planned, and never for a
/// conversion.
pub proof fn lemma_transfer_as_planned(p: Progress, stage: Stage, event: Event, kind: TransferKind)
    requires
        p.step(stage, event).2 == Some(Op::Transfer(kind)),
    ensures
        !p.convert,
        kind == p.kind,
{
}

/// A destination that was found and kept is not worked on again: the task
/// that planning builds for it, where no partial file is left over, asks
/// for no operation at all.
pub proof fn lemma_finished_work_is_not_redone(
    t: Task,
    index: usize,
    c: crate::plan::CandidateModel,
    facts: &crate::plan::Facts,
    stage: Stage,
    event: Event,
)
    requires
        t@ == crate::plan::spec_task(false, index, t.source@, c, facts),
        facts.dest is Some,
        facts.part is None,
    ensures
        t.spec_is_completed(),
        t.progress().step(stage, event) == (t.progress(), Stage::Finished, None::<Op>),
{
    assert(t@.pre_remove.len() == t.pre_remove@.len());
}

impl Config {
    /// The arguments of one encoder run: quiet logging, the input, the
    /// bitrate where the target format has one, metadata kept, the
    /// container of the target format, and the output.
    pub open spec fn spec_encoder_args(&self, input: Seq<char>, to: Format, output: Seq<char>) -> Seq<
        Seq<char>,
    > {
        seq!["-hide_banner"@, "-loglevel"@, "error"@, "-i"@, input] + self.bitrates.spec_args(to)
            + seq![
            "-map_metadata"@,
            "0"@,
            "-id3v2_version"@,
            "3"@,
            "-f"@,
            to.spec_ffmpeg_format(),
            output,
        ]
    }

    /// The arguments to run the encoder with.
    pub fn encoder_args(&self, input: &str, to: Format, output: &str) -> (r: Vec<String>)
        ensures
            names(r@) == self.spec_encoder_args(input@, to, output@),
    {
        let mut out: Vec<String> = Vec::new();
        let ghost mut acc: Seq<Seq<char>> = Seq::empty();
        assert(names(out@) =~= acc);
        push_arg(&mut out, "-hide_banner");
        push_arg(&mut out, "-loglevel");
        push_arg(&mut out, "error");
        push_arg(&mut out, "-i");
        push_arg(&mut out, input);
        match self.bitrates.get(&to) {
            Some(b) => {
                if b > 0 {
                    push_arg(&mut out, "-ab");
                    let mut rate: Vec<char> = Vec::new();
                    text::push_decimal(&mut rate, b as u64);
                    rate.push('k');
                    push_arg(&mut out, text::string(&rate).as_str());
                }
            },
            None => {},
        }
        push_arg(&mut out, "-map_metadata");
        push_arg(&mut out, "0");
        push_arg(&mut out, "-id3v2_version");
        push_arg(&mut out, "3");
        push_arg(&mut out, "-f");
        push_arg(&mut out, to.ffmpeg_format());
        push_arg(&mut out, output);
        assert(names(out@) =~= self.spec_encoder_args(input@, to, output@));
        out
    }
}

fn push_arg(out: &mut Vec<String>, arg: &str)
    ensures
        names(final(out)@) == names(old(out)@).push(arg@),
{
    out.push(text::string(&text::chars(arg)));
    assert(names(out@) =~= names(old(out)@).push(arg@));
}

/// The input argument that stands for the encoder's standard input, by
/// which the bytes of an archive entry reach it.
pub fn pipe_input() -> (r: &'static str)
    ensures
        r@ == "pipe:0"@,
{
    "pipe:0"
}

/// What is done about a directory that a file could not be moved out of.
#[derive(Clone, Debug, PartialEq, Eq)]
pub enum Sweep {
    /// The directory is left as it is, and so is everything above it.
    Stop,
    /// The directory is removed; `next`, the directory above it, is looked
    /// at in turn, if there is one.
    Remove { next: Option<FilePath> },
}

/// One step of clearing away empty directories: a directory that is empty
/// is removed and the directory above it comes next; the first directory
/// that is not empty, or does not exist, ends the clearing.
pub fn sweep(dir: &FilePath, is_empty_dir: bool) -> (r: Sweep)
    ensures
        !is_empty_dir ==> r == Sweep::Stop,
        is_empty_dir ==> r is Remove && match r->next {
            Some(p) => dir@.parent() == Some(p@),
            None => dir@.parent() is None,
        },
{
    if is_empty_dir {
        Sweep::Remove { next: dir.parent() }
    } else {
        Sweep::Stop
    }
}

/// Whether the source of a finished task goes to the trash: the task is
/// done, its source is a plain file, and the file was not moved away.
pub open spec fn trashed(t: &Task) -> bool {
    t.spec_is_completed() && t.source is File && t.kind != (TaskKind::Transfer {
        kind: TransferKind::Move,
    })
}

/// The name under which a file goes to the trash: its own file name, or
/// `file` and a running number where it has none.
pub open spec fn trash_name(path: PathModel, nameless: nat) -> Seq<char> {
    match path.file_name() {
        Some(n) => n,
        None => "file"@ + text::decimal(nameless),
    }
}

/// Number of the tasks among `tasks` whose source goes to the trash without
/// a file name of its own.
pub open spec fn nameless(tasks: Seq<Task>, db: &Db) -> nat
    decreases tasks.len(),
{
    if tasks.len() == 0 {
        0
    } else {
        let t = tasks.last();
        let unnamed = trashed(&t) && db.knows(&t.source) && db.files@[t.source->file.0 as int].path@.file_name()
            is None;
        nameless(tasks.drop_last(), db) + if unnamed {
            1nat
        } else {
            0nat
        }
    }
}

/// Whether `r` lists what goes to the trash after `tasks`, in their order.
pub open spec fn trash_of(tasks: Seq<Task>, db: &Db, r: Seq<Trash>) -> bool
    decreases tasks.len(),
{
    if tasks.len() == 0 {
        r.len() == 0
    } else {
        let t = tasks.last();
        if trashed(&t) {
            let path = db.files@[t.source->file.0 as int].path@;
            &&& r.len() > 0
            &&& trash_of(tasks.drop_last(), db, r.drop_last())
            &&& r.last().what == TrashWhat::SourceFile
            &&& r.last().path@ == path
            &&& r.last().name@ == trash_name(path, nameless(tasks.drop_last(), db))
        } else {
            trash_of(tasks.drop_last(), db, r)
        }
    }
}

/// Whether every file source among `tasks` is known to `db`.
pub open spec fn sources_known(tasks: Seq<Task>, db: &Db) -> bool {
    forall|i: int| 0 <= i < tasks.len() ==> db.knows(&(#[trigger] tasks[i]).source)
}

/// Lists the source files to move to the trash once all tasks were
/// attempted. Without trashing nothing is listed. A task whose source is
/// unknown to the registry ends the listing with an error.
pub fn trash_plan(tasks: &Vec<Task>, db: &Db, trash_source: bool) -> (r: Result<Vec<Trash>, DbErr>)
    ensures
        !trash_source ==> r is Ok && r->Ok_0@.len() == 0,
        trash_source && sources_known(tasks@, db) ==> r is Ok && trash_of(tasks@, db, r->Ok_0@),
        trash_source && !sources_known(tasks@, db) ==> r is Err,
        r matches Err(e) ==> exists|k: int|
            0 <= k < tasks@.len() && sources_known(tasks@.take(k), db) && !db.knows(
                &(#[trigger] tasks@[k]).source,
            ) && e == Db::unknown(&tasks@[k].source),
{
    let mut out: Vec<Trash> = Vec::new();
    if !trash_source {
        return Ok(out);
    }
    let mut n: u64 = 0;
    let mut i: usize = 0;
    while i < tasks.len()
        invariant
            i <= tasks.len(),
            trash_source,
            sources_known(tasks@.take(i as int), db),
            trash_of(tasks@.take(i as int), db, out@),
            n == nameless(tasks@.take(i as int), db),
            n <= i,
        decreases tasks.len() - i,
    {
        let t = &tasks[i];
        assert(tasks@.take(i + 1).drop_last() == tasks@.take(i as int));
        assert(tasks@.take(i + 1).last() == tasks@[i as int]);
        let known = match &t.source {
            Source::File { file } => match db.file(*file) {
                Ok(_) => true,
                Err(_) => false,
            },
            Source::Archive { archive, .. } => match db.archive(*archive) {
                Ok(_) => true,
                Err(_) => false,
            },
        };
        if !known {
            assert(!db.knows(&tasks@[i as int].source));
            return Err(Db::unknown_of(&t.source));
        }
        let moved_away = match &t.kind {
            TaskKind::Transfer { kind } => match kind {
                TransferKind::Move => true,
                _ => false,
            },
            TaskKind::Convert { .. } => false,
        };
        if t.is_completed() && !moved_away {
            match &t.source {
                Source::File { file } => {
                    match db.file(*file) {
                        Ok(link) => {
                            let name = match link.path.file_name() {
                                Some(name) => name,
                                None => {
                                    let mut v: Vec<char> = Vec::new();
                                    text::extend_str(&mut v, "file");
                                    text::push_decimal(&mut v, n);
                                    n = n + 1;
                                    text::string(&v)
                                },
                            };
                            let ghost before = out@;
                            out.push(
                                Trash { what: TrashWhat::SourceFile, path: link.path.copy(), name },
                            );
                            assert(out@.drop_last() == before);
                        },
                        Err(_) => {},
                    }
                },
                Source::Archive { .. } => {},
            }
        }
        assert(sources_known(tasks@.take(i + 1), db)) by {
            assert forall|k: int| 0 <= k < i + 1 implies db.knows(
                &(#[trigger] tasks@.take(i + 1)[k]).source,
            ) by {
                if k < i {
                    assert(tasks@.take(i as int)[k] == tasks@.take(i + 1)[k]);
                }
            }
        }
        i += 1;
    }
    assert(tasks@.take(i as int) == tasks@);
    Ok(out)
}

/// What goes to the trash is told by the tasks and the registry alone: any
/// two listings of the same tasks agree in paths and names.
pub proof fn lemma_trash_is_determined(tasks: Seq<Task>, db: &Db, a: Seq<Trash>, b: Seq<Trash>)
    requires
        trash_of(tasks, db, a),
        trash_of(tasks, db, b),
    ensures
        a.len() == b.len(),
        forall|i: int|
            0 <= i < a.len() ==> (#[trigger] a[i]).path@ == b[i].path@ && a[i].name@ == b[i].name@
                && a[i].what == b[i].what,
    decreases tasks.len(),
{
    if tasks.len() > 0 {
        if trashed(&tasks.last()) {
            lemma_trash_is_determined(tasks.drop_last(), db, a.drop_last(), b.drop_last());
            assert forall|i: int| 0 <= i < a.len() implies (#[trigger] a[i]).path@ == b[i].path@
                && a[i].name@ == b[i].name@ && a[i].what == b[i].what by {
                if i < a.len() - 1 {
                    assert(a.drop_last()[i] == a[i]);
                    assert(b.drop_last()[i] == b[i]);
                }
            }
        } else {
            lemma_trash_is_determined(tasks.drop_last(), db, a, b);
        }
    }
}

} // verus!
