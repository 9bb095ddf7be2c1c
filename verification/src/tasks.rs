//! Planned operations and their completion state.

use vstd::prelude::*;

use crate::format::Format;
use crate::path::FilePath;
use crate::source::{Db, Link, LinkModel, MaybeLink, Source, SourceModel};
use crate::text;

verus! {

/// How a source that needs no encoding is brought to its destination.
#[derive(Clone, Copy, Debug, PartialEq, Eq, Structural)]
pub enum TransferKind {
    Copy,
    Link,
    Move,
}

impl TransferKind {
    pub open spec fn spec_symbolic_command(self) -> Seq<char> {
        match self {
            TransferKind::Copy => "cp"@,
            TransferKind::Link => "ln"@,
            TransferKind::Move => "mv"@,
        }
    }

    /// The shell command that the transfer resembles.
    pub fn symbolic_command(&self) -> (r: &'static str)
        ensures
            r@ == self.spec_symbolic_command(),
    {
        match self {
            TransferKind::Copy => "cp",
            TransferKind::Link => "ln",
            TransferKind::Move => "mv",
        }
    }

    pub open spec fn spec_name(self) -> Seq<char> {
        match self {
            TransferKind::Copy => "copying"@,
            TransferKind::Link => "link"@,
            TransferKind::Move => "move"@,
        }
    }

    /// The word under which the transfer is reported.
    pub fn name(&self) -> (r: &'static str)
        ensures
            r@ == self.spec_name(),
    {
        match self {
            TransferKind::Copy => "copying",
            TransferKind::Link => "link",
            TransferKind::Move => "move",
        }
    }
}

/// Why a file is removed before a task's main action.
#[derive(Clone, Copy, Debug, PartialEq, Eq, Structural)]
pub enum Reason {
    /// The destination exists and overwriting was asked for.
    Destination,
    /// A partial file was left behind by an interrupted run.
    Partial,
}

impl Reason {
    pub open spec fn spec_name(self) -> Seq<char> {
        match self {
            Reason::Destination => "destination path (--force)"@,
            Reason::Partial => "partial conversion file"@,
        }
    }

    /// The words under which the removal is reported.
    pub fn name(&self) -> (r: &'static str)
        ensures
            r@ == self.spec_name(),
    {
        match self {
            Reason::Destination => "destination path (--force)",
            Reason::Partial => "partial conversion file",
        }
    }
}

/// The kind of a task.
#[derive(Clone, Debug, PartialEq, Eq)]
pub enum TaskKind {
    /// Encode the source in another format. The encoder writes to
    /// `part_path`; `converted` says that it has done so with success.
    Convert { part_path: MaybeLink, from: Format, to: Format, converted: bool },
    /// Bring the source to the destination as it is.
    Transfer { kind: TransferKind },
}

/// Mathematical value of a [`TaskKind`].
pub enum TaskKindModel {
    Convert { part_path: LinkModel, from: Format, to: Format, converted: bool },
    Transfer { kind: TransferKind },
}

impl View for TaskKind {
    type V = TaskKindModel;

    open spec fn view(&self) -> TaskKindModel {
        match self {
            TaskKind::Convert { part_path, from, to, converted } => TaskKindModel::Convert {
                part_path: part_path@,
                from: *from,
                to: *to,
                converted: *converted,
            },
            TaskKind::Transfer { kind } => TaskKindModel::Transfer { kind: *kind },
        }
    }
}

impl TaskKind {
    /// A conversion is complete once the encoder has succeeded; a transfer
    /// has no state of its own.
    pub open spec fn spec_is_completed(&self) -> bool {
        match self {
            TaskKind::Convert { converted, .. } => *converted,
            TaskKind::Transfer { .. } => true,
        }
    }

    /// Whether nothing is left to do.
    pub fn is_completed(&self) -> (r: bool)
        ensures
            r == self.spec_is_completed(),
    {
        match self {
            TaskKind::Convert { converted, .. } => *converted,
            TaskKind::Transfer { .. } => true,
        }
    }

    pub open spec fn spec_name(&self) -> Seq<char> {
        match self {
            TaskKind::Convert { from, to, .. } => "converting "@ + from.spec_ext() + " to "@
                + to.spec_ext(),
            TaskKind::Transfer { kind } => kind.spec_name(),
        }
    }

    /// The words under which the task is reported.
    pub fn name(&self) -> (r: String)
        ensures
            r@ == self.spec_name(),
    {
        let mut out: Vec<char> = Vec::new();
        match self {
            TaskKind::Convert { from, to, .. } => {
                text::extend_str(&mut out, "converting ");
                text::extend_str(&mut out, from.ext());
                text::extend_str(&mut out, " to ");
                text::extend_str(&mut out, to.ext());
            },
            TaskKind::Transfer { kind } => {
                text::extend_str(&mut out, kind.name());
            },
        }
        text::string(&out)
    }
}

/// The values of a list of queued removals.
pub open spec fn removals(v: Seq<(Reason, MaybeLink)>) -> Seq<(Reason, LinkModel)> {
    v.map_values(|r: (Reason, MaybeLink)| (r.0, r.1@))
}

/// A planned unit of work.
#[derive(Clone, Debug, PartialEq, Eq)]
pub struct Task {
    /// Position of the task in the plan.
    pub index: usize,
    pub kind: TaskKind,
    pub source: Source,
    /// The destination.
    pub to_path: MaybeLink,
    /// Whether the destination holds the result.
    pub moved: bool,
    /// Files to remove before the main action, first to last.
    pub pre_remove: Vec<(Reason, MaybeLink)>,
}

/// Mathematical value of a [`Task`].
pub struct TaskModel {
    pub index: usize,
    pub kind: TaskKindModel,
    pub source: SourceModel,
    pub to_path: LinkModel,
    pub moved: bool,
    pub pre_remove: Seq<(Reason, LinkModel)>,
}

impl View for Task {
    type V = TaskModel;

    open spec fn view(&self) -> TaskModel {
        TaskModel {
            index: self.index,
            kind: self.kind@,
            source: self.source@,
            to_path: self.to_path@,
            moved: self.moved,
            pre_remove: removals(self.pre_remove@),
        }
    }
}

impl TaskModel {
    /// A task is done when its kind is complete, the destination holds the
    /// result and no removal is left to do.
    pub open spec fn is_completed(self) -> bool {
        &&& match self.kind {
            TaskKindModel::Convert { converted, .. } => converted,
            TaskKindModel::Transfer { .. } => true,
        }
        &&& self.moved
        &&& self.pre_remove.len() == 0
    }
}

impl Task {
    /// A task is done when its kind is complete, the destination holds the
    /// result and no removal is left to do.
    pub open spec fn spec_is_completed(&self) -> bool {
        self.kind.spec_is_completed() && self.moved && self.pre_remove@.len() == 0
    }

    /// Whether nothing is left to do.
    pub fn is_completed(&self) -> (r: bool)
        ensures
            r == self.spec_is_completed(),
            r == self@.is_completed(),
    {
        self.kind.is_completed() && self.moved && self.pre_remove.len() == 0
    }
}

/// Messages about one source.
#[derive(Clone, Debug, PartialEq, Eq)]
pub struct PathError {
    pub source: Source,
    pub messages: Vec<String>,
}

/// The targets that the rules yield for one source.
#[derive(Clone, Debug, PartialEq, Eq)]
pub struct MatchingConversion {
    pub source: Source,
    pub from: Format,
    pub to_formats: Vec<Format>,
}

/// What is moved to the trash.
#[derive(Clone, Copy, Debug, PartialEq, Eq, Structural)]
pub enum TrashWhat {
    SourceFile,
}

impl TrashWhat {
    /// The words under which the trashing is reported.
    pub fn name(&self) -> (r: &'static str)
        ensures
            r@ == "source file"@,
    {
        "source file"
    }
}

/// A file to move to the trash directory under the name `name`.
#[derive(Clone, Debug, PartialEq, Eq)]
pub struct Trash {
    pub what: TrashWhat,
    pub path: FilePath,
    pub name: String,
}

/// A destination that exists and is kept.
#[derive(Clone, Debug, PartialEq, Eq)]
pub struct Exists {
    pub source: Source,
    pub path: Link,
}

/// The tag of a source, kept to be shown.
#[derive(Clone, Debug, PartialEq, Eq)]
pub struct Dump {
    pub source: Source,
    pub tags: crate::meta::Tags,
}

/// A source whose extension names no format.
#[derive(Clone, Debug, PartialEq, Eq)]
pub struct Unsupported {
    pub source: Source,
    pub ext: String,
}

/// Everything that planning collects.
#[derive(Clone, Debug, PartialEq, Eq)]
pub struct Tasks {
    pub meta_dumps: Vec<Dump>,
    pub errors: Vec<PathError>,
    pub matching_conversions: Vec<MatchingConversion>,
    pub tasks: Vec<Task>,
    pub to_trash: Vec<Trash>,
    pub already_exists: Vec<Exists>,
    pub unsupported: Vec<Unsupported>,
    pub db: Db,
}

impl Tasks {
    /// An empty plan with an empty registry.
    pub fn new() -> (r: Tasks)
        ensures
            r.meta_dumps@.len() == 0,
            r.errors@.len() == 0,
            r.matching_conversions@.len() == 0,
            r.tasks@.len() == 0,
            r.to_trash@.len() == 0,
            r.already_exists@.len() == 0,
            r.unsupported@.len() == 0,
            r.db.files@.len() == 0,
            r.db.archives@.len() == 0,
    {
        Tasks {
            meta_dumps: Vec::new(),
            errors: Vec::new(),
            matching_conversions: Vec::new(),
            tasks: Vec::new(),
            to_trash: Vec::new(),
            already_exists: Vec::new(),
            unsupported: Vec::new(),
            db: Db::new(),
        }
    }

    /// Whether the run stops before any task is executed: some source had
    /// an error and going on regardless was not asked for.
    pub fn must_abort(&self, keep_going: bool) -> (r: bool)
        ensures
            r == (self.errors@.len() > 0 && !keep_going),
    {
        self.errors.len() > 0 && !keep_going
    }
}

} // verus!
