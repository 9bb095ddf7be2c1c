//! Planning: from a source and the rules to the tasks that bring it to its
//! destinations.
//!
//! Planning never touches the file system. Where a decision rests on what
//! is on disk (does the destination exist, is a partial file left over), the
//! caller looks and hands the answer in as [`Facts`].

use vstd::prelude::*;

use crate::bitrates::Bitrates;
use crate::condition::{target_set, targets, Condition};
use crate::format::{ordered, Format, FormatSet};
use crate::meta::{Parts, PartsModel};
use crate::path::{names, FilePath, PathModel};
use crate::source::{Db, DbErr, Link, LinkModel, MaybeLink, Source, SourceModel};
use crate::tasks::{
    removals, Dump, Exists, MatchingConversion, PathError, Reason, Task, TaskKind, TaskKindModel,
    TaskModel, Tasks, TransferKind, Unsupported,
};
use crate::text;

verus! {

/// What a run is asked to do.
#[derive(Clone, Debug, PartialEq, Eq)]
pub struct Config {
    pub bitrates: Bitrates,
    /// The rules, in the order in which they were given.
    pub conversion: Vec<Condition>,
    pub dry_run: bool,
    /// The encoder program.
    pub ffmpeg: String,
    pub force: bool,
    pub keep_going: bool,
    pub meta_dump_error: bool,
    pub meta_dump: bool,
    /// Whether destinations are named by metadata.
    pub meta: bool,
    /// The extension that marks a partial file.
    pub part_ext: String,
    pub paths: Vec<FilePath>,
    /// Whether a file that needs no encoding is moved instead of linked.
    pub move_source: bool,
    /// The formats that are encoded again even into themselves.
    pub forced_bitrates: FormatSet,
    /// The output directory, if there is one.
    pub to_dir: Option<FilePath>,
    pub trash_source: bool,
    pub trash: FilePath,
    pub verbose: bool,
}

/// How a source is brought to one destination.
#[derive(Clone, Debug, PartialEq, Eq)]
pub enum Planned {
    /// As it is.
    Transfer { kind: TransferKind },
    /// Through the encoder, which writes to `part_path`.
    Convert { part_path: FilePath },
}

/// One destination of a source, before the file system was asked about it.
#[derive(Clone, Debug, PartialEq, Eq)]
pub struct Candidate {
    pub from: Format,
    pub to: Format,
    pub to_path: FilePath,
    pub planned: Planned,
}

/// Mathematical value of [`Planned`].
pub enum PlannedModel {
    Transfer { kind: TransferKind },
    Convert { part_path: PathModel },
}

/// Mathematical value of a [`Candidate`].
pub struct CandidateModel {
    pub from: Format,
    pub to: Format,
    pub to_path: PathModel,
    pub planned: PlannedModel,
}

impl View for Candidate {
    type V = CandidateModel;

    open spec fn view(&self) -> CandidateModel {
        CandidateModel {
            from: self.from,
            to: self.to,
            to_path: self.to_path@,
            planned: match self.planned {
                Planned::Transfer { kind } => PlannedModel::Transfer { kind },
                Planned::Convert { part_path } => PlannedModel::Convert { part_path: part_path@ },
            },
        }
    }
}

/// The values of a list of candidates.
pub open spec fn candidate_models(v: Seq<Candidate>) -> Seq<CandidateModel> {
    v.map_values(|c: Candidate| c@)
}

/// What the file system holds at a candidate's paths: the canonical form of
/// the destination if it exists, and that of the partial file if one exists.
#[derive(Clone, Debug, PartialEq, Eq)]
pub struct Facts {
    pub dest: Option<FilePath>,
    pub part: Option<FilePath>,
}

/// The value of an optional path.
pub open spec fn opt_path(o: Option<FilePath>) -> Option<PathModel> {
    match o {
        Some(p) => Some(p@),
        None => None,
    }
}

/// The value of optional naming parts.
pub open spec fn opt_parts(o: Option<&Parts>) -> Option<PartsModel> {
    match o {
        Some(p) => Some(p@),
        None => None,
    }
}

impl Config {
    /// The transfer that brings a source to a destination of its own
    /// format, unless that format is encoded again: a plain file is linked,
    /// or moved where moving was asked for; an archive entry is copied.
    pub open spec fn spec_transfer(&self, source: &Source, from: Format, to: Format) -> Option<
        TransferKind,
    > {
        if from == to && !self.forced_bitrates@.contains(from) {
            Some(
                match source {
                    Source::File { .. } => if self.move_source {
                        TransferKind::Move
                    } else {
                        TransferKind::Link
                    },
                    Source::Archive { .. } => TransferKind::Copy,
                },
            )
        } else {
            None
        }
    }

    /// The destination of `source` in format `to`. With naming parts, the
    /// metadata layout below the output directory, or below the scanned
    /// directory `dir` where there is none, with the extension added. Else
    /// the source's own path, below the output directory where there is
    /// one, with its extension replaced.
    pub open spec fn spec_destination(
        &self,
        db: &Db,
        source: &Source,
        dir: PathModel,
        parts: Option<PartsModel>,
        to: Format,
    ) -> Result<PathModel, DbErr> {
        match parts {
            Some(m) => {
                let base = match self.to_dir {
                    Some(d) => d@,
                    None => dir,
                };
                Ok(m.appended(base).with_added_extension(to.spec_ext()))
            },
            None => {
                let at = match self.to_dir {
                    Some(d) => db.spec_to_dir_path(source, dir, d@),
                    None => db.spec_to_path(source),
                };
                match at {
                    Ok(p) => Ok(p.with_extension(to.spec_ext())),
                    Err(e) => Err(e),
                }
            },
        }
    }

    /// Computes the destination of `source` in format `to`.
    pub fn destination(
        &self,
        db: &Db,
        source: &Source,
        dir: &FilePath,
        parts: Option<&Parts>,
        to: Format,
    ) -> (r: Result<FilePath, DbErr>)
        ensures
            match r {
                Ok(p) => self.spec_destination(db, source, dir@, opt_parts(parts), to) == Ok::<
                    PathModel,
                    DbErr,
                >(p@),
                Err(e) => self.spec_destination(db, source, dir@, opt_parts(parts), to) == Err::<
                    PathModel,
                    DbErr,
                >(e),
            },
    {
        match parts {
            Some(m) => {
                let mut to_path = match &self.to_dir {
                    Some(d) => d.copy(),
                    None => dir.copy(),
                };
                m.append_to(&mut to_path);
                to_path.add_extension(to.ext());
                Ok(to_path)
            },
            None => {
                match &self.to_dir {
                    Some(d) => {
                        let mut to_path = d.copy();
                        match db.to_dir_path(source, dir, &mut to_path) {
                            Err(e) => Err(e),
                            Ok(()) => {
                                to_path.set_extension(to.ext());
                                Ok(to_path)
                            },
                        }
                    },
                    None => {
                        match db.to_path(source) {
                            Err(e) => Err(e),
                            Ok(p) => {
                                let mut to_path = p;
                                to_path.set_extension(to.ext());
                                Ok(to_path)
                            },
                        }
                    },
                }
            },
        }
    }

    /// The candidate for bringing `source` to format `to`, or none where
    /// the destination is the source file itself.
    #[verifier::opaque]
    pub open spec fn spec_candidate(
        &self,
        db: &Db,
        source: &Source,
        dir: PathModel,
        from: Format,
        parts: Option<PartsModel>,
        to: Format,
    ) -> Result<Option<CandidateModel>, DbErr> {
        match self.spec_destination(db, source, dir, parts, to) {
            Err(e) => Err(e),
            Ok(p) => {
                let c = CandidateModel {
                    from,
                    to,
                    to_path: p,
                    planned: match self.spec_transfer(source, from, to) {
                        Some(kind) => PlannedModel::Transfer { kind },
                        None => PlannedModel::Convert {
                            part_path: p.with_added_extension(self.part_ext@),
                        },
                    },
                };
                match source {
                    Source::File { file } => if file.0 >= db.files@.len() {
                        Err(DbErr::InvalidFile(*file))
                    } else if db.files@[file.0 as int].path@ == p {
                        Ok(None)
                    } else {
                        Ok(Some(c))
                    },
                    Source::Archive { .. } => Ok(Some(c)),
                }
            },
        }
    }

    /// Plans bringing `source` to format `to`.
    pub fn candidate(
        &self,
        db: &Db,
        source: &Source,
        dir: &FilePath,
        from: Format,
        parts: Option<&Parts>,
        to: Format,
    ) -> (r: Result<Option<Candidate>, DbErr>)
        ensures
            match r {
                Ok(Some(c)) => self.spec_candidate(db, source, dir@, from, opt_parts(parts), to)
                    == Ok::<Option<CandidateModel>, DbErr>(Some(c@)),
                Ok(None) => self.spec_candidate(db, source, dir@, from, opt_parts(parts), to)
                    == Ok::<Option<CandidateModel>, DbErr>(None),
                Err(e) => self.spec_candidate(db, source, dir@, from, opt_parts(parts), to)
                    == Err::<Option<CandidateModel>, DbErr>(e),
            },
    {
        reveal(Config::spec_candidate);
        let to_path = match self.destination(db, source, dir, parts, to) {
            Err(e) => {
                return Err(e);
            },
            Ok(p) => p,
        };
        match db.as_file(source) {
            Err(e) => {
                return Err(e);
            },
            Ok(Some(p)) => {
                if p.same(&to_path) {
                    return Ok(None);
                }
            },
            Ok(None) => {},
        }
        let planned = if from == to && !self.forced_bitrates.contains(from) {
            Planned::Transfer {
                kind: match source {
                    Source::File { .. } => {
                        if self.move_source {
                            TransferKind::Move
                        } else {
                            TransferKind::Link
                        }
                    },
                    Source::Archive { .. } => TransferKind::Copy,
                },
            }
        } else {
            Planned::Convert { part_path: to_path.with_added_extension(self.part_ext.as_str()) }
        };
        Ok(Some(Candidate { from, to, to_path, planned }))
    }

    /// The candidates of `source` for the formats `to_formats`, in their
    /// order; the first error ends the planning of the source.
    pub open spec fn spec_candidates_for(
        &self,
        db: &Db,
        source: &Source,
        dir: PathModel,
        from: Format,
        parts: Option<PartsModel>,
        to_formats: Seq<Format>,
    ) -> Result<Seq<CandidateModel>, DbErr>
        decreases to_formats.len(),
    {
        if to_formats.len() == 0 {
            Ok(Seq::empty())
        } else {
            match self.spec_candidates_for(db, source, dir, from, parts, to_formats.drop_last()) {
                Err(e) => Err(e),
                Ok(list) => match self.spec_candidate(db, source, dir, from, parts, to_formats.last()) {
                    Err(e) => Err(e),
                    Ok(None) => Ok(list),
                    Ok(Some(c)) => Ok(list.push(c)),
                },
            }
        }
    }

    /// The candidates of `source`: one for each target that the rules
    /// yield, in the declaration order of the formats.
    pub open spec fn spec_candidates(
        &self,
        db: &Db,
        source: &Source,
        dir: PathModel,
        from: Format,
        parts: Option<PartsModel>,
    ) -> Result<Seq<CandidateModel>, DbErr> {
        self.spec_candidates_for(
            db,
            source,
            dir,
            from,
            parts,
            ordered(target_set(self.conversion@, from)),
        )
    }

    /// Lists the candidates of a source.
    pub fn candidates(
        &self,
        db: &Db,
        source: &Source,
        dir: &FilePath,
        from: Format,
        parts: Option<&Parts>,
    ) -> (r: Result<Vec<Candidate>, DbErr>)
        ensures
            match r {
                Ok(list) => self.spec_candidates(db, source, dir@, from, opt_parts(parts)) == Ok::<
                    Seq<CandidateModel>,
                    DbErr,
                >(candidate_models(list@)),
                Err(e) => self.spec_candidates(db, source, dir@, from, opt_parts(parts)) == Err::<
                    Seq<CandidateModel>,
                    DbErr,
                >(e),
            },
    {
        let to_formats = targets(&self.conversion, from).to_vec();
        let mut out: Vec<Candidate> = Vec::new();
        let mut i: usize = 0;
        assert(candidate_models(out@) =~= Seq::<CandidateModel>::empty());
        while i < to_formats.len()
            invariant
                i <= to_formats.len(),
                to_formats@ == ordered(target_set(self.conversion@, from)),
                self.spec_candidates_for(
                    db,
                    source,
                    dir@,
                    from,
                    opt_parts(parts),
                    to_formats@.take(i as int),
                ) == Ok::<Seq<CandidateModel>, DbErr>(candidate_models(out@)),
            decreases to_formats.len() - i,
        {
            assert(to_formats@.take(i + 1).drop_last() == to_formats@.take(i as int));
            proof {
                lemma_candidates_error_stays(
                    self,
                    db,
                    source,
                    dir@,
                    from,
                    opt_parts(parts),
                    to_formats@,
                    i + 1,
                );
            }
            match self.candidate(db, source, dir, from, parts, to_formats[i]) {
                Err(e) => {
                    return Err(e);
                },
                Ok(None) => {},
                Ok(Some(c)) => {
                    let ghost before = candidate_models(out@);
                    let ghost cm = c@;
                    out.push(c);
                    assert(candidate_models(out@) =~= before.push(cm));
                },
            }
            i += 1;
        }
        assert(to_formats@.take(i as int) == to_formats@);
        Ok(out)
    }
}

/// Once planning a source has failed for some of its targets, it fails the
/// same way for all of them.
proof fn lemma_candidates_error_stays(
    config: &Config,
    db: &Db,
    source: &Source,
    dir: PathModel,
    from: Format,
    parts: Option<PartsModel>,
    to_formats: Seq<Format>,
    n: int,
)
    requires
        0 <= n <= to_formats.len(),
    ensures
        config.spec_candidates_for(db, source, dir, from, parts, to_formats.take(n)) matches Err(e)
            ==> config.spec_candidates_for(db, source, dir, from, parts, to_formats) == Err::<
            Seq<CandidateModel>,
            DbErr,
        >(e),
    decreases to_formats.len() - n,
{
    if n == to_formats.len() {
        assert(to_formats.take(n) == to_formats);
    } else {
        assert(to_formats.take(n + 1).drop_last() == to_formats.take(n));
        lemma_candidates_error_stays(config, db, source, dir, from, parts, to_formats, n + 1);
    }
}

/// The task for a candidate, given what the file system holds. An existing
/// destination is kept, and the task counts as done, unless overwriting was
/// asked for: then its removal is queued. A leftover partial file is always
/// queued for removal.
pub open spec fn spec_task(
    force: bool,
    index: usize,
    source: SourceModel,
    c: CandidateModel,
    facts: &Facts,
) -> TaskModel {
    let kept = facts.dest is Some && !force;
    let dest = LinkModel { path: c.to_path, abs: opt_path(facts.dest) };
    let rm_dest = if facts.dest is Some && force {
        seq![(Reason::Destination, dest)]
    } else {
        seq![]
    };
    match c.planned {
        PlannedModel::Transfer { kind } => TaskModel {
            index,
            kind: TaskKindModel::Transfer { kind },
            source,
            to_path: dest,
            moved: kept,
            pre_remove: rm_dest,
        },
        PlannedModel::Convert { part_path } => {
            let part = LinkModel { path: part_path, abs: opt_path(facts.part) };
            TaskModel {
                index,
                kind: TaskKindModel::Convert { part_path: part, from: c.from, to: c.to, converted: kept },
                source,
                to_path: dest,
                moved: kept,
                pre_remove: if facts.part is Some {
                    rm_dest.push((Reason::Partial, part))
                } else {
                    rm_dest
                },
            }
        },
    }
}

/// Planning is a function of what it is given: two plans of the same source
/// under the same configuration and registry list the same candidates in
/// the same order, and the same facts make the same tasks of them.
pub proof fn lemma_planning_is_repeatable(
    config: &Config,
    db: &Db,
    source: &Source,
    dir: PathModel,
    from: Format,
    parts: Option<PartsModel>,
    first: Seq<Candidate>,
    second: Seq<Candidate>,
    force: bool,
    index: usize,
    facts: &Facts,
)
    requires
        config.spec_candidates(db, source, dir, from, parts) == Ok::<Seq<CandidateModel>, DbErr>(
            candidate_models(first),
        ),
        config.spec_candidates(db, source, dir, from, parts) == Ok::<Seq<CandidateModel>, DbErr>(
            candidate_models(second),
        ),
    ensures
        first.len() == second.len(),
        forall|i: int| 0 <= i < first.len() ==> (#[trigger] first[i])@ == second[i]@,
        forall|i: int|
            0 <= i < first.len() ==> spec_task(force, index, source@, (#[trigger] first[i])@, facts)
                == spec_task(force, index, source@, second[i]@, facts),
{
    assert(candidate_models(first) == candidate_models(second));
    assert(candidate_models(first).len() == first.len());
    assert(candidate_models(second).len() == second.len());
    assert forall|i: int| 0 <= i < first.len() implies (#[trigger] first[i])@ == second[i]@ by {
        assert(candidate_models(first)[i] == first[i]@);
        assert(candidate_models(second)[i] == second[i]@);
    }
}

/// A source that is already in the target format, and whose format is not
/// encoded again, is never converted: a plain file is linked, or moved
/// where moving was asked for, and an archive entry is copied.
pub proof fn lemma_same_format_is_transferred(
    config: &Config,
    db: &Db,
    source: &Source,
    dir: PathModel,
    from: Format,
    parts: Option<PartsModel>,
    to: Format,
    c: CandidateModel,
)
    requires
        config.spec_candidate(db, source, dir, from, parts, to) == Ok::<
            Option<CandidateModel>,
            DbErr,
        >(Some(c)),
        from == to,
        !config.forced_bitrates@.contains(from),
    ensures
        c.planned is Transfer,
        source is File && !config.move_source ==> c.planned == (PlannedModel::Transfer {
            kind: TransferKind::Link,
        }),
        source is File && config.move_source ==> c.planned == (PlannedModel::Transfer {
            kind: TransferKind::Move,
        }),
        source is Archive ==> c.planned == (PlannedModel::Transfer { kind: TransferKind::Copy }),
{
    reveal(Config::spec_candidate);
}

/// Whatever the rules and settings are, an archive entry is transferred by
/// copying only, and so is the task that is built for it.
pub proof fn lemma_archive_entries_are_copied(
    config: &Config,
    db: &Db,
    source: &Source,
    dir: PathModel,
    from: Format,
    parts: Option<PartsModel>,
    to: Format,
    c: CandidateModel,
    force: bool,
    index: usize,
    facts: &Facts,
)
    requires
        config.spec_candidate(db, source, dir, from, parts, to) == Ok::<
            Option<CandidateModel>,
            DbErr,
        >(Some(c)),
        source is Archive,
    ensures
        c.planned matches PlannedModel::Transfer { kind } ==> kind == TransferKind::Copy,
        spec_task(force, index, source@, c, facts).kind matches TaskKindModel::Transfer { kind }
            ==> kind == TransferKind::Copy,
{
    reveal(Config::spec_candidate);
}

/// A destination that follows the source's own path has the target
/// format's extension and otherwise the name and place that the path would
/// have without it: the extension is swapped and nothing else.
pub proof fn lemma_destination_swaps_extension(
    config: &Config,
    db: &Db,
    source: &Source,
    dir: PathModel,
    to: Format,
    p: PathModel,
)
    requires
        config.spec_destination(db, source, dir, None, to) == Ok::<PathModel, DbErr>(p),
    ensures
        ({
            let at = match config.to_dir {
                Some(d) => db.spec_to_dir_path(source, dir, d@),
                None => db.spec_to_path(source),
            };
            &&& at is Ok
            &&& at->Ok_0.file_name() is Some && at->Ok_0.file_name()->0.len() > 0 ==> {
                &&& p.extension() == Some(to.spec_ext())
                &&& p.file_stem() == at->Ok_0.file_stem()
                &&& p.parent() == at->Ok_0.parent()
            }
        }),
{
    crate::format::lemma_ext_is_plain(to);
    let at = match config.to_dir {
        Some(d) => db.spec_to_dir_path(source, dir, d@),
        None => db.spec_to_path(source),
    };
    if at is Ok {
        let q = at->Ok_0;
        if q.file_name() is Some && q.file_name()->0.len() > 0 {
            crate::path::lemma_extension_is_set(q, to.spec_ext());
        }
    }
}

/// A destination that is named by metadata lies below the output
/// directory, or below the scanned directory where there is none, at the
/// place that the naming parts give, and has the target format's extension
/// added to the whole file name.
pub proof fn lemma_destination_by_metadata(
    config: &Config,
    db: &Db,
    source: &Source,
    dir: PathModel,
    parts: PartsModel,
    to: Format,
)
    ensures
        ({
            let base = match config.to_dir {
                Some(d) => d@,
                None => dir,
            };
            let q = parts.appended(base);
            &&& config.spec_destination(db, source, dir, Some(parts), to) == Ok::<PathModel, DbErr>(
                q.with_added_extension(to.spec_ext()),
            )
            &&& q.file_name() is Some && q.file_name()->0.len() > 0 ==> {
                &&& q.with_added_extension(to.spec_ext()).extension() == Some(to.spec_ext())
                &&& q.with_added_extension(to.spec_ext()).file_stem() == q.file_name()
            }
        }),
{
    crate::format::lemma_ext_is_plain(to);
    let base = match config.to_dir {
        Some(d) => d@,
        None => dir,
    };
    let q = parts.appended(base);
    if q.file_name() is Some && q.file_name()->0.len() > 0 {
        crate::path::lemma_extension_is_set(q, to.spec_ext());
    }
}

/// A plain file is never planned onto itself: no candidate has the source
/// file's own path as its destination.
pub proof fn lemma_no_task_onto_itself(
    config: &Config,
    db: &Db,
    source: &Source,
    dir: PathModel,
    from: Format,
    parts: Option<PartsModel>,
    to: Format,
    c: CandidateModel,
)
    requires
        config.spec_candidate(db, source, dir, from, parts, to) == Ok::<
            Option<CandidateModel>,
            DbErr,
        >(Some(c)),
        source is File,
    ensures
        c.to_path != db.files@[source->file.0 as int].path@,
{
    reveal(Config::spec_candidate);
}

/// An existing destination is kept unless overwriting was asked for: the
/// task counts as moved and converted and the destination is not queued for
/// removal, so that the task is done as it stands where no partial file is
/// left over. With overwriting the destination is the first file queued for
/// removal, and the task is neither moved nor converted.
pub proof fn lemma_exists_and_force(
    force: bool,
    index: usize,
    source: SourceModel,
    c: CandidateModel,
    facts: &Facts,
)
    requires
        facts.dest is Some,
    ensures
        ({
            let t = spec_task(force, index, source, c, facts);
            &&& !force ==> t.moved && (t.kind matches TaskKindModel::Convert { converted, .. }
                ==> converted) && (forall|i: int|
                0 <= i < t.pre_remove.len() ==> (#[trigger] t.pre_remove[i]).0
                    != Reason::Destination) && (facts.part is None || c.planned is Transfer
                ==> t.is_completed())
            &&& force ==> !t.moved && !t.is_completed() && t.pre_remove.len() > 0 && t.pre_remove[0]
                == (Reason::Destination, t.to_path) && (t.kind matches TaskKindModel::Convert {
                converted,
                ..
            } ==> !converted)
        }),
{
}

/// A partial file that is found where a conversion will write is queued for
/// removal, whatever else holds; and nothing is queued for a task that finds
/// neither a partial file nor a destination to overwrite.
pub proof fn lemma_partial_file_is_removed(
    force: bool,
    index: usize,
    source: SourceModel,
    c: CandidateModel,
    facts: &Facts,
)
    ensures
        ({
            let t = spec_task(force, index, source, c, facts);
            &&& (facts.part is Some && c.planned matches PlannedModel::Convert { part_path }) ==> {
                &&& t.pre_remove.len() > 0
                &&& t.pre_remove.last() == (
                    Reason::Partial,
                    LinkModel { path: c.planned->part_path, abs: opt_path(facts.part) },
                )
                &&& !t.is_completed()
            }
            &&& (facts.part is None || c.planned is Transfer) && !(facts.dest is Some && force)
                ==> t.pre_remove.len() == 0
        }),
{
}

fn copy_opt(o: &Option<FilePath>) -> (r: Option<FilePath>)
    ensures
        opt_path(r) == opt_path(*o),
{
    match o {
        Some(p) => Some(p.copy()),
        None => None,
    }
}

/// Builds the task for a candidate.
pub fn build(force: bool, index: usize, source: &Source, candidate: Candidate, facts: &Facts) -> (r:
    Task)
    ensures
        r@ == spec_task(force, index, source@, candidate@, facts),
{
    let ghost cm = candidate@;
    let kept = facts.dest.is_some() && !force;
    let to_path = MaybeLink::new(candidate.to_path, copy_opt(&facts.dest));
    let mut pre_remove: Vec<(Reason, MaybeLink)> = Vec::new();
    assert(removals(pre_remove@) =~= Seq::<(Reason, LinkModel)>::empty());
    if facts.dest.is_some() && force {
        let link = to_path.copy();
        pre_remove.push((Reason::Destination, link));
        assert(removals(pre_remove@) =~= seq![(Reason::Destination, to_path@)]);
    }
    let kind = match candidate.planned {
        Planned::Transfer { kind } => TaskKind::Transfer { kind },
        Planned::Convert { part_path } => {
            let part = MaybeLink::new(part_path, copy_opt(&facts.part));
            if facts.part.is_some() {
                let ghost before = removals(pre_remove@);
                let link = part.copy();
                pre_remove.push((Reason::Partial, link));
                assert(removals(pre_remove@) =~= before.push((Reason::Partial, part@)));
            }
            TaskKind::Convert { part_path: part, from: candidate.from, to: candidate.to, converted: kept }
        },
    };
    Task { index, kind, source: source.copy(), to_path, moved: kept, pre_remove }
}

/// What naming by metadata comes to for one source.
#[derive(Clone, Debug, PartialEq, Eq)]
pub enum MetaOutcome {
    /// Metadata is not used: the destination follows the source's path.
    Plain,
    /// The destination is named by these parts.
    Named(Parts),
    /// The tag lacks a part: the source is not planned.
    Skip,
}

/// The message that closes the errors of a source whose tag lacks a part.
pub open spec fn tags_required() -> Seq<char> {
    "could not extract required tags (see --meta-dump-error)"@
}

impl Tasks {
    /// Adds the task for a candidate at the end of the plan. Where the
    /// destination exists and is kept, that is recorded too.
    pub fn add(&mut self, force: bool, source: &Source, candidate: Candidate, facts: &Facts)
        ensures
            final(self).tasks@.len() == old(self).tasks@.len() + 1,
            final(self).tasks@.drop_last() == old(self).tasks@,
            final(self).tasks@.last()@ == spec_task(
                force,
                old(self).tasks@.len() as usize,
                source@,
                candidate@,
                facts,
            ),
            match facts.dest {
                Some(abs) => if force {
                    final(self).already_exists@ == old(self).already_exists@
                } else {
                    &&& final(self).already_exists@.len() == old(self).already_exists@.len() + 1
                    &&& final(self).already_exists@.drop_last() == old(self).already_exists@
                    &&& final(self).already_exists@.last().source@ == source@
                    &&& final(self).already_exists@.last().path.path@ == candidate.to_path@
                    &&& final(self).already_exists@.last().path.abs@ == abs@
                },
                None => final(self).already_exists@ == old(self).already_exists@,
            },
            final(self).errors@ == old(self).errors@,
            final(self).unsupported@ == old(self).unsupported@,
            final(self).matching_conversions@ == old(self).matching_conversions@,
            final(self).to_trash@ == old(self).to_trash@,
            final(self).meta_dumps@ == old(self).meta_dumps@,
            final(self).db == old(self).db,
    {
        match &facts.dest {
            Some(abs) => {
                if !force {
                    self.already_exists.push(
                        Exists {
                            source: source.copy(),
                            path: Link::new(candidate.to_path.copy(), abs.copy()),
                        },
                    );
                }
            },
            None => {},
        }
        let index = self.tasks.len();
        let task = build(force, index, source, candidate, facts);
        self.tasks.push(task);
    }

    /// Tells the format of a source by its extension. A source whose
    /// extension names no format is recorded as unsupported, under the
    /// extension `walked_ext` of the file that was found. In a verbose run
    /// the targets of a source that has any are recorded too.
    pub fn begin_source(&mut self, config: &Config, source: &Source, walked_ext: &str) -> (r: Result<
        Option<Format>,
        DbErr,
    >)
        ensures
            final(self).tasks@ == old(self).tasks@,
            final(self).errors@ == old(self).errors@,
            final(self).already_exists@ == old(self).already_exists@,
            final(self).to_trash@ == old(self).to_trash@,
            final(self).meta_dumps@ == old(self).meta_dumps@,
            final(self).db == old(self).db,
            match old(self).db.spec_ext(source) {
                Err(e) => r == Err::<Option<Format>, DbErr>(e) && final(self).unsupported@ == old(
                    self,
                ).unsupported@ && final(self).matching_conversions@ == old(
                    self,
                ).matching_conversions@,
                Ok(ext) => {
                    let from = match ext {
                        Some(e) => Format::spec_from_ext(e),
                        None => None,
                    };
                    &&& r == Ok::<Option<Format>, DbErr>(from)
                    &&& match from {
                        None => {
                            &&& final(self).unsupported@.len() == old(self).unsupported@.len() + 1
                            &&& final(self).unsupported@.drop_last() == old(self).unsupported@
                            &&& final(self).unsupported@.last().source@ == source@
                            &&& final(self).unsupported@.last().ext@ == walked_ext@
                            &&& final(self).matching_conversions@ == old(self).matching_conversions@
                        },
                        Some(f) => {
                            &&& final(self).unsupported@ == old(self).unsupported@
                            &&& if config.verbose && target_set(config.conversion@, f)
                                != Set::<Format>::empty() {
                                &&& final(self).matching_conversions@.len() == old(
                                    self,
                                ).matching_conversions@.len() + 1
                                &&& final(self).matching_conversions@.drop_last() == old(
                                    self,
                                ).matching_conversions@
                                &&& final(self).matching_conversions@.last().source@ == source@
                                &&& final(self).matching_conversions@.last().from == f
                                &&& final(self).matching_conversions@.last().to_formats@ == ordered(
                                    target_set(config.conversion@, f),
                                )
                            } else {
                                final(self).matching_conversions@ == old(self).matching_conversions@
                            }
                        },
                    }
                },
            },
    {
        let ext = match self.db.ext(source) {
            Err(e) => {
                return Err(e);
            },
            Ok(ext) => ext,
        };
        let from = match ext {
            Some(e) => Format::from_ext(e.as_str()),
            None => None,
        };
        match from {
            None => {
                self.unsupported.push(
                    Unsupported { source: source.copy(), ext: text::string(&text::chars(walked_ext)) },
                );
            },
            Some(f) => {
                let to_formats = targets(&config.conversion, f);
                if !to_formats.is_empty() && config.verbose {
                    self.matching_conversions.push(
                        MatchingConversion {
                            source: source.copy(),
                            from: f,
                            to_formats: to_formats.to_vec(),
                        },
                    );
                }
            },
        }
        Ok(from)
    }

    /// Lists the candidates of a source. A source that cannot be planned,
    /// such as one that does not lie below the scanned directory, is
    /// recorded with the reason and has no candidates; the planning of other
    /// sources goes on.
    pub fn plan(
        &mut self,
        config: &Config,
        source: &Source,
        dir: &FilePath,
        from: Format,
        parts: Option<&Parts>,
    ) -> (r: Vec<Candidate>)
        ensures
            final(self).tasks@ == old(self).tasks@,
            final(self).unsupported@ == old(self).unsupported@,
            final(self).matching_conversions@ == old(self).matching_conversions@,
            final(self).already_exists@ == old(self).already_exists@,
            final(self).to_trash@ == old(self).to_trash@,
            final(self).meta_dumps@ == old(self).meta_dumps@,
            final(self).db == old(self).db,
            match config.spec_candidates(&old(self).db, source, dir@, from, opt_parts(parts)) {
                Ok(list) => candidate_models(r@) == list && final(self).errors@ == old(
                    self,
                ).errors@,
                Err(e) => {
                    &&& r@.len() == 0
                    &&& final(self).errors@.len() == old(self).errors@.len() + 1
                    &&& final(self).errors@.drop_last() == old(self).errors@
                    &&& final(self).errors@.last().source@ == source@
                    &&& names(final(self).errors@.last().messages@) == seq![e.spec_message()]
                },
            },
    {
        match config.candidates(&self.db, source, dir, from, parts) {
            Ok(list) => list,
            Err(e) => {
                let mut messages: Vec<String> = Vec::new();
                messages.push(e.message());
                assert(names(messages@) =~= seq![e.spec_message()]);
                self.errors.push(PathError { source: source.copy(), messages });
                Vec::new()
            },
        }
    }

    /// Keeps the tag of a source to be shown: always where showing tags was
    /// asked for, and for a source with errors where showing the tags of
    /// such sources was asked for.
    pub fn keep_dump(&mut self, config: &Config, source: &Source, tags: crate::meta::Tags, has_errors: bool)
        ensures
            final(self).tasks@ == old(self).tasks@,
            final(self).errors@ == old(self).errors@,
            final(self).unsupported@ == old(self).unsupported@,
            final(self).matching_conversions@ == old(self).matching_conversions@,
            final(self).already_exists@ == old(self).already_exists@,
            final(self).to_trash@ == old(self).to_trash@,
            final(self).db == old(self).db,
            if config.meta_dump || (config.meta_dump_error && has_errors) {
                &&& final(self).meta_dumps@.len() == old(self).meta_dumps@.len() + 1
                &&& final(self).meta_dumps@.drop_last() == old(self).meta_dumps@
                &&& final(self).meta_dumps@.last().source@ == source@
                &&& final(self).meta_dumps@.last().tags == tags
            } else {
                final(self).meta_dumps@ == old(self).meta_dumps@
            },
    {
        if config.meta_dump || (config.meta_dump_error && has_errors) {
            self.meta_dumps.push(Dump { source: source.copy(), tags });
        }
    }

    /// Settles how a source is named. Without naming by metadata the tag is
    /// not used. With it, a source whose tag lacks a part is recorded with
    /// what it lacks and is not planned; a source whose tag gave its parts
    /// is named by them, and what was noted while reading is recorded.
    pub fn settle_meta(
        &mut self,
        meta: bool,
        source: &Source,
        parts: Option<Parts>,
        tag_errors: Vec<String>,
    ) -> (r: MetaOutcome)
        ensures
            final(self).tasks@ == old(self).tasks@,
            final(self).unsupported@ == old(self).unsupported@,
            final(self).matching_conversions@ == old(self).matching_conversions@,
            final(self).already_exists@ == old(self).already_exists@,
            final(self).to_trash@ == old(self).to_trash@,
            final(self).meta_dumps@ == old(self).meta_dumps@,
            final(self).db == old(self).db,
            !meta ==> r is Plain && final(self).errors@ == old(self).errors@,
            meta ==> match parts {
                None => {
                    &&& r is Skip
                    &&& final(self).errors@.len() == old(self).errors@.len() + 1
                    &&& final(self).errors@.drop_last() == old(self).errors@
                    &&& final(self).errors@.last().source@ == source@
                    &&& names(final(self).errors@.last().messages@) == names(tag_errors@).push(
                        tags_required(),
                    )
                },
                Some(p) => {
                    &&& r == MetaOutcome::Named(p)
                    &&& if tag_errors@.len() > 0 {
                        &&& final(self).errors@.len() == old(self).errors@.len() + 1
                        &&& final(self).errors@.drop_last() == old(self).errors@
                        &&& final(self).errors@.last().source@ == source@
                        &&& final(self).errors@.last().messages == tag_errors
                    } else {
                        final(self).errors@ == old(self).errors@
                    }
                },
            },
    {
        if !meta {
            return MetaOutcome::Plain;
        }
        match parts {
            None => {
                let mut messages = tag_errors;
                messages.push(
                    text::string(
                        &text::chars("could not extract required tags (see --meta-dump-error)"),
                    ),
                );
                assert(names(messages@) =~= names(tag_errors@).push(tags_required()));
                self.errors.push(PathError { source: source.copy(), messages });
                MetaOutcome::Skip
            },
            Some(p) => {
                if tag_errors.len() > 0 {
                    self.errors.push(PathError { source: source.copy(), messages: tag_errors });
                }
                MetaOutcome::Named(p)
            },
        }
    }
}

} // verus!
