//! The source registry: files and archives found on disk, each under a small
//! integer handle, and the sources that refer to them.

use vstd::prelude::*;

use crate::archive::{entry_ext, entry_extension, entry_parts, escapes, normal_parts, Archive};
use crate::path::{names, FilePath, PathModel};
use crate::tasks::TransferKind;
use crate::text;

verus! {

/// Handle of a plain file in a [`Db`].
#[derive(Clone, Copy, Debug, PartialEq, Eq, Hash, Structural)]
pub struct FileId(pub usize);

/// Handle of an archive in a [`Db`].
#[derive(Clone, Copy, Debug, PartialEq, Eq, Hash, Structural)]
pub struct ArchiveId(pub usize);

impl FileId {
    /// The handle in decimal, as it is shown in messages.
    pub fn name(&self) -> (r: String)
        ensures
            r@ == text::decimal(self.0 as nat),
    {
        text::decimal_string(self.0 as u64)
    }
}

impl ArchiveId {
    /// The handle in decimal, as it is shown in messages.
    pub fn name(&self) -> (r: String)
        ensures
            r@ == text::decimal(self.0 as nat),
    {
        text::decimal_string(self.0 as u64)
    }
}

/// A path together with its canonical absolute form, by which it can be
/// hard-linked whatever the working directory is.
#[derive(Clone, Debug, PartialEq, Eq)]
pub struct Link {
    pub path: FilePath,
    pub abs: FilePath,
}

impl Link {
    /// `abs` is the canonical form of `path`, as the file system gave it.
    pub fn new(path: FilePath, abs: FilePath) -> (r: Link)
        ensures
            r.path == path,
            r.abs == abs,
    {
        Link { path, abs }
    }

    /// The path as it was found.
    pub fn path(&self) -> (r: &FilePath)
        ensures
            *r == self.path,
    {
        &self.path
    }

    /// The path to link to.
    pub fn link(&self) -> (r: Option<&FilePath>)
        ensures
            r == Some(&self.abs),
    {
        Some(&self.abs)
    }

    /// A copy of the link.
    pub fn copy(&self) -> (r: Link)
        ensures
            r.path@ == self.path@,
            r.abs@ == self.abs@,
    {
        Link { path: self.path.copy(), abs: self.abs.copy() }
    }
}

/// A path whose canonical form is known only if it exists.
#[derive(Clone, Debug, PartialEq, Eq)]
pub struct MaybeLink {
    pub path: FilePath,
    pub abs: Option<FilePath>,
}

impl MaybeLink {
    /// `abs` is the canonical form of `path` where the file system has one.
    pub fn new(path: FilePath, abs: Option<FilePath>) -> (r: MaybeLink)
        ensures
            r.path == path,
            r.abs == abs,
    {
        MaybeLink { path, abs }
    }

    /// The path as it was computed.
    pub fn path(&self) -> (r: &FilePath)
        ensures
            *r == self.path,
    {
        &self.path
    }

    /// The path to link to, if there is one.
    pub fn link(&self) -> (r: Option<&FilePath>)
        ensures
            match r {
                Some(p) => self.abs == Some(*p),
                None => self.abs is None,
            },
    {
        match &self.abs {
            Some(p) => Some(p),
            None => None,
        }
    }

    /// A copy of the link.
    pub fn copy(&self) -> (r: MaybeLink)
        ensures
            r@ == self@,
    {
        let abs = match &self.abs {
            Some(p) => Some(p.copy()),
            None => None,
        };
        MaybeLink { path: self.path.copy(), abs }
    }
}

/// Mathematical value of a [`MaybeLink`].
pub struct LinkModel {
    pub path: PathModel,
    pub abs: Option<PathModel>,
}

impl View for MaybeLink {
    type V = LinkModel;

    open spec fn view(&self) -> LinkModel {
        LinkModel {
            path: self.path@,
            abs: match self.abs {
                Some(p) => Some(p@),
                None => None,
            },
        }
    }
}

/// Where an archive lies and of what kind it is.
#[derive(Clone, Debug, PartialEq, Eq)]
pub struct SourceArchive {
    pub kind: Archive,
    pub path: Link,
}

/// What the registry or an archive refused.
#[derive(Clone, Copy, Debug, PartialEq, Eq, Structural)]
pub enum DbErr {
    /// The file handle was not given out by this registry.
    InvalidFile(FileId),
    /// The archive handle was not given out by this registry.
    InvalidArchive(ArchiveId),
    /// The source does not lie below the directory that was scanned.
    InvalidBasePath,
    /// The entry name climbs out of the archive with `..`.
    InvalidEntryPath,
    /// The archive holds no entry of that name.
    NotFound,
    /// An archive entry cannot be hard-linked.
    LinkFromArchive,
    /// An archive entry cannot be moved.
    MoveFromArchive,
}

impl DbErr {
    pub open spec fn spec_message(self) -> Seq<char> {
        match self {
            DbErr::InvalidFile(id) => "invalid file id: "@ + text::decimal(id.0 as nat),
            DbErr::InvalidArchive(id) => "invalid archive id: "@ + text::decimal(id.0 as nat),
            DbErr::InvalidBasePath => "invalid base path"@,
            DbErr::InvalidEntryPath => "invalid path in archive"@,
            DbErr::NotFound => "not found in archive"@,
            DbErr::LinkFromArchive => "cannot link from archive"@,
            DbErr::MoveFromArchive => "cannot move from archive"@,
        }
    }

    /// The message shown for this error.
    pub fn message(&self) -> (r: String)
        ensures
            r@ == self.spec_message(),
    {
        let mut out: Vec<char> = Vec::new();
        match self {
            DbErr::InvalidFile(id) => {
                text::extend_str(&mut out, "invalid file id: ");
                text::push_decimal(&mut out, id.0 as u64);
            },
            DbErr::InvalidArchive(id) => {
                text::extend_str(&mut out, "invalid archive id: ");
                text::push_decimal(&mut out, id.0 as u64);
            },
            DbErr::InvalidBasePath => text::extend_str(&mut out, "invalid base path"),
            DbErr::InvalidEntryPath => text::extend_str(&mut out, "invalid path in archive"),
            DbErr::NotFound => text::extend_str(&mut out, "not found in archive"),
            DbErr::LinkFromArchive => text::extend_str(&mut out, "cannot link from archive"),
            DbErr::MoveFromArchive => text::extend_str(&mut out, "cannot move from archive"),
        }
        text::string(&out)
    }
}

impl SourceArchive {
    /// What reading the entry amounts to: its bytes, or `NotFound` where the
    /// archive held no entry of that name.
    pub fn contents(&self, found: Option<Vec<u8>>) -> (r: Result<Vec<u8>, DbErr>)
        ensures
            r == match found {
                Some(bytes) => Ok::<Vec<u8>, DbErr>(bytes),
                None => Err::<Vec<u8>, DbErr>(DbErr::NotFound),
            },
    {
        match found {
            Some(bytes) => Ok(bytes),
            None => Err(DbErr::NotFound),
        }
    }
}

/// One input: a plain file, or an entry of an archive.
#[derive(Clone, Debug, PartialEq, Eq, Hash)]
pub enum Source {
    /// A regular file in the file system.
    File { file: FileId },
    /// A file inside an archive, under its name in the archive.
    Archive { archive: ArchiveId, path: String },
}

/// Mathematical value of a [`Source`].
pub enum SourceModel {
    File { file: FileId },
    Archive { archive: ArchiveId, path: Seq<char> },
}

impl View for Source {
    type V = SourceModel;

    open spec fn view(&self) -> SourceModel {
        match self {
            Source::File { file } => SourceModel::File { file: *file },
            Source::Archive { archive, path } => SourceModel::Archive {
                archive: *archive,
                path: path@,
            },
        }
    }
}

impl Source {
    /// A copy of the source.
    pub fn copy(&self) -> (r: Source)
        ensures
            r@ == self@,
    {
        match self {
            Source::File { file } => Source::File { file: *file },
            Source::Archive { archive, path } => Source::Archive {
                archive: *archive,
                path: path.clone(),
            },
        }
    }

    /// Whether two sources are the same input: the same file handle, or the
    /// same archive handle and entry name.
    pub fn same(&self, other: &Source) -> (r: bool)
        ensures
            r == (self@ == other@),
    {
        match self {
            Source::File { file } => match other {
                Source::File { file: o } => file.0 == o.0,
                Source::Archive { .. } => false,
            },
            Source::Archive { archive, path } => match other {
                Source::File { .. } => false,
                Source::Archive { archive: a, path: p } => archive.0 == a.0 && text::eq(
                    path.as_str(),
                    p.as_str(),
                ),
            },
        }
    }

    /// The source for an archive entry, unless its name climbs out of the
    /// archive with a `..` component.
    pub fn entry(archive: ArchiveId, path: &str) -> (r: Option<Source>)
        ensures
            match r {
                Some(s) => !escapes(path@) && s@ == (SourceModel::Archive { archive, path: path@ }),
                None => escapes(path@),
            },
    {
        match entry_parts(path) {
            Some(_) => Some(Source::Archive { archive, path: text::string(&text::chars(path)) }),
            None => None,
        }
    }
}

/// The names among `names` that are planned: those that do not climb out of
/// the archive.
pub open spec fn kept_entries(names: Seq<Seq<char>>) -> Seq<Seq<char>> {
    names.filter(|n: Seq<char>| !escapes(n))
}

/// The entry names of a list of archive sources.
pub open spec fn entry_names(v: Seq<Source>) -> Seq<Seq<char>> {
    v.map_values(|s: Source| s->path@)
}

/// The sources of an archive, given the names of its entries in the order
/// in which the archive lists them. An entry whose name holds a `..` is
/// left out; every other entry becomes a source under its name.
pub fn archive_sources(archive: ArchiveId, entries: &Vec<String>) -> (r: Vec<Source>)
    ensures
        forall|i: int| 0 <= i < r@.len() ==> (#[trigger] r@[i]) is Archive && r@[i]->archive == archive,
        entry_names(r@) == kept_entries(names(entries@)),
{
    let ghost all = names(entries@);
    let ghost keep = |n: Seq<char>| !escapes(n);
    let mut out: Vec<Source> = Vec::new();
    let mut i: usize = 0;
    proof {
        reveal(Seq::filter);
        assert(entry_names(out@) =~= all.take(0).filter(keep));
    }
    while i < entries.len()
        invariant
            i <= entries.len(),
            all == names(entries@),
            keep == |n: Seq<char>| !escapes(n),
            forall|k: int|
                0 <= k < out@.len() ==> (#[trigger] out@[k]) is Archive && out@[k]->archive == archive,
            entry_names(out@) == all.take(i as int).filter(keep),
        decreases entries.len() - i,
    {
        proof {
            reveal(Seq::filter);
            assert(all.take(i + 1).drop_last() == all.take(i as int));
            assert(all.take(i + 1).last() == entries@[i as int]@);
        }
        match Source::entry(archive, entries[i].as_str()) {
            Some(s) => {
                let ghost before = entry_names(out@);
                out.push(s);
                assert(entry_names(out@) =~= before.push(entries@[i as int]@));
            },
            None => {},
        }
        i += 1;
    }
    assert(all.take(i as int) == all);
    out
}

/// What the file system is asked to do for a transfer.
#[derive(Clone, Copy, Debug, PartialEq, Eq, Structural)]
pub enum TransferOp {
    /// Write the bytes of the archive entry to the destination.
    WriteEntry,
    /// Hard-link the source file at the destination.
    HardLink,
    /// Rename the source file to the destination.
    Rename,
    /// Copy the source file to the destination.
    CopyFile,
}

impl TransferOp {
    pub open spec fn spec_context(self) -> Seq<char> {
        match self {
            TransferOp::WriteEntry => "writing file"@,
            TransferOp::HardLink => "creating hard link"@,
            TransferOp::Rename => "moving file"@,
            TransferOp::CopyFile => "copying file"@,
        }
    }

    /// What is said of the operation where it fails.
    pub fn context(&self) -> (r: &'static str)
        ensures
            r@ == self.spec_context(),
    {
        match self {
            TransferOp::WriteEntry => "writing file",
            TransferOp::HardLink => "creating hard link",
            TransferOp::Rename => "moving file",
            TransferOp::CopyFile => "copying file",
        }
    }
}

/// The files and archives of one run. Handles are indices: they are given
/// out in rising order and stay valid, since nothing is ever removed.
#[derive(Clone, Debug, PartialEq, Eq)]
pub struct Db {
    pub archives: Vec<SourceArchive>,
    pub files: Vec<Link>,
}

impl Db {
    /// A registry without files and archives.
    pub fn new() -> (r: Db)
        ensures
            r.files@.len() == 0,
            r.archives@.len() == 0,
    {
        Db { archives: Vec::new(), files: Vec::new() }
    }

    /// Whether the source names a file or archive of this registry.
    pub open spec fn knows(&self, source: &Source) -> bool {
        match source {
            Source::File { file } => file.0 < self.files@.len(),
            Source::Archive { archive, .. } => archive.0 < self.archives@.len(),
        }
    }

    /// The error for a source that this registry does not know.
    pub open spec fn unknown(source: &Source) -> DbErr {
        match source {
            Source::File { file } => DbErr::InvalidFile(*file),
            Source::Archive { archive, .. } => DbErr::InvalidArchive(*archive),
        }
    }

    /// The error for a source that this registry does not know.
    pub fn unknown_of(source: &Source) -> (r: DbErr)
        ensures
            r == Db::unknown(source),
    {
        match source {
            Source::File { file } => DbErr::InvalidFile(*file),
            Source::Archive { archive, .. } => DbErr::InvalidArchive(*archive),
        }
    }

    /// The file under a handle, or `InvalidFile` where this registry has
    /// not given the handle out.
    pub fn file(&self, id: FileId) -> (r: Result<&Link, DbErr>)
        ensures
            id.0 < self.files@.len() ==> r == Ok::<&Link, DbErr>(&self.files@[id.0 as int]),
            id.0 >= self.files@.len() ==> r == Err::<&Link, DbErr>(DbErr::InvalidFile(id)),
    {
        if id.0 < self.files.len() {
            Ok(&self.files[id.0])
        } else {
            Err(DbErr::InvalidFile(id))
        }
    }

    /// The archive under a handle, or `InvalidArchive` where this
    /// registry has not given the handle out.
    pub fn archive(&self, id: ArchiveId) -> (r: Result<&SourceArchive, DbErr>)
        ensures
            id.0 < self.archives@.len() ==> r == Ok::<&SourceArchive, DbErr>(
                &self.archives@[id.0 as int],
            ),
            id.0 >= self.archives@.len() ==> r == Err::<&SourceArchive, DbErr>(
                DbErr::InvalidArchive(id),
            ),
    {
        if id.0 < self.archives.len() {
            Ok(&self.archives[id.0])
        } else {
            Err(DbErr::InvalidArchive(id))
        }
    }

    /// Registers a file; its handle is the number of files registered before.
    pub fn push_file(&mut self, file: Link) -> (id: FileId)
        ensures
            id.0 == old(self).files@.len(),
            final(self).files@ == old(self).files@.push(file),
            final(self).archives@ == old(self).archives@,
    {
        let id = FileId(self.files.len());
        self.files.push(file);
        id
    }

    /// Registers an archive; its handle is the number of archives registered
    /// before.
    pub fn push_archive(&mut self, archive: SourceArchive) -> (id: ArchiveId)
        ensures
            id.0 == old(self).archives@.len(),
            final(self).archives@ == old(self).archives@.push(archive),
            final(self).files@ == old(self).files@,
    {
        let id = ArchiveId(self.archives.len());
        self.archives.push(archive);
        id
    }

    /// What reading an entry of the archive amounts to, given what the
    /// archive held under that name.
    pub fn archive_contents(&self, archive: ArchiveId, found: Option<Vec<u8>>) -> (r: Result<
        Vec<u8>,
        DbErr,
    >)
        ensures
            r == if archive.0 >= self.archives@.len() {
                Err::<Vec<u8>, DbErr>(DbErr::InvalidArchive(archive))
            } else {
                match found {
                    Some(bytes) => Ok::<Vec<u8>, DbErr>(bytes),
                    None => Err::<Vec<u8>, DbErr>(DbErr::NotFound),
                }
            },
    {
        match self.archive(archive) {
            Err(e) => Err(e),
            Ok(a) => a.contents(found),
        }
    }

    /// The directory that stands for an archive: the archive's path without
    /// its last component, then the archive's file stem.
    pub open spec fn archive_dir(path: PathModel) -> PathModel {
        let dir = match path.parent() {
            Some(p) => p,
            None => path,
        };
        match path.file_stem() {
            Some(stem) => dir.pushed(stem),
            None => dir,
        }
    }

    /// The path at which a source stands, an archive entry as if the archive
    /// were a directory named by the archive's file stem.
    pub open spec fn spec_to_path(&self, source: &Source) -> Result<PathModel, DbErr> {
        if !self.knows(source) {
            Err(Db::unknown(source))
        } else {
            match source {
                Source::File { file } => Ok(self.files@[file.0 as int].path@),
                Source::Archive { archive, path } => if escapes(path@) {
                    Err(DbErr::InvalidEntryPath)
                } else {
                    Ok(
                        Db::archive_dir(self.archives@[archive.0 as int].path.path@).pushed_all(
                            normal_parts(path@),
                        ),
                    )
                },
            }
        }
    }

    /// The path at which a source stands.
    pub fn to_path(&self, source: &Source) -> (r: Result<FilePath, DbErr>)
        ensures
            match r {
                Ok(p) => self.spec_to_path(source) == Ok::<PathModel, DbErr>(p@),
                Err(e) => self.spec_to_path(source) == Err::<PathModel, DbErr>(e),
            },
    {
        match source {
            Source::File { file } => {
                match self.file(*file) {
                    Err(e) => Err(e),
                    Ok(link) => Ok(link.path.copy()),
                }
            },
            Source::Archive { archive, path } => {
                match self.archive(*archive) {
                    Err(e) => Err(e),
                    Ok(a) => {
                        match entry_parts(path.as_str()) {
                            None => Err(DbErr::InvalidEntryPath),
                            Some(parts) => {
                                let mut to_path = a.path.path.copy();
                                to_path.pop();
                                match a.path.path.file_stem() {
                                    Some(stem) => to_path.push(stem.as_str()),
                                    None => {},
                                }
                                to_path.push_all(&parts);
                                Ok(to_path)
                            },
                        }
                    },
                }
            },
        }
    }

    /// The path of a source below the output directory `to`: what stands
    /// after `base` in the source's own path, an archive being entered as a
    /// directory named by its file stem.
    pub open spec fn spec_to_dir_path(&self, source: &Source, base: PathModel, to: PathModel) -> Result<
        PathModel,
        DbErr,
    > {
        if !self.knows(source) {
            Err(Db::unknown(source))
        } else {
            match source {
                Source::File { file } => match self.files@[file.0 as int].path@.strip_prefix(base) {
                    None => Err(DbErr::InvalidBasePath),
                    Some(suffix) => Ok(to.pushed_all(suffix)),
                },
                Source::Archive { archive, path } => {
                    let a = self.archives@[archive.0 as int].path.path@;
                    match a.strip_prefix(base) {
                        None => Err(DbErr::InvalidBasePath),
                        Some(suffix) => if escapes(path@) {
                            Err(DbErr::InvalidEntryPath)
                        } else {
                            let below = if suffix.len() > 0 {
                                to.pushed_all(suffix.drop_last())
                            } else {
                                to
                            };
                            let dir = match a.file_stem() {
                                Some(stem) => below.pushed(stem),
                                None => below,
                            };
                            Ok(dir.pushed_all(normal_parts(path@)))
                        },
                    }
                },
            }
        }
    }

    /// Appends the source's path below `base` to `to_path`. On an error
    /// `to_path` is left as it was.
    pub fn to_dir_path(&self, source: &Source, base: &FilePath, to_path: &mut FilePath) -> (r:
        Result<(), DbErr>)
        ensures
            match r {
                Ok(()) => self.spec_to_dir_path(source, base@, old(to_path)@) == Ok::<
                    PathModel,
                    DbErr,
                >(final(to_path)@),
                Err(e) => self.spec_to_dir_path(source, base@, old(to_path)@) == Err::<
                    PathModel,
                    DbErr,
                >(e) && final(to_path)@ == old(to_path)@,
            },
    {
        match source {
            Source::File { file } => {
                match self.file(*file) {
                    Err(e) => Err(e),
                    Ok(link) => match link.path.strip_prefix(base) {
                        None => Err(DbErr::InvalidBasePath),
                        Some(suffix) => {
                            to_path.push_all(&suffix);
                            Ok(())
                        },
                    },
                }
            },
            Source::Archive { archive, path } => {
                match self.archive(*archive) {
                    Err(e) => Err(e),
                    Ok(a) => match a.path.path.strip_prefix(base) {
                        None => Err(DbErr::InvalidBasePath),
                        Some(suffix) => match entry_parts(path.as_str()) {
                            None => Err(DbErr::InvalidEntryPath),
                            Some(parts) => {
                                let mut suffix = suffix;
                                if suffix.len() > 0 {
                                    let ghost before = names(suffix@);
                                    suffix.pop();
                                    assert(names(suffix@) == before.drop_last());
                                    to_path.push_all(&suffix);
                                }
                                match a.path.path.file_stem() {
                                    Some(stem) => to_path.push(stem.as_str()),
                                    None => {},
                                }
                                to_path.push_all(&parts);
                                Ok(())
                            },
                        },
                    },
                }
            },
        }
    }

    /// The extension by which the format of a source is told.
    pub open spec fn spec_ext(&self, source: &Source) -> Result<Option<Seq<char>>, DbErr> {
        match source {
            Source::File { file } => if file.0 < self.files@.len() {
                Ok(self.files@[file.0 as int].path@.extension())
            } else {
                Err(DbErr::InvalidFile(*file))
            },
            Source::Archive { archive, path } => Ok(entry_extension(path@)),
        }
    }

    /// The extension of a source.
    pub fn ext(&self, source: &Source) -> (r: Result<Option<String>, DbErr>)
        ensures
            match r {
                Ok(Some(e)) => self.spec_ext(source) == Ok::<Option<Seq<char>>, DbErr>(Some(e@)),
                Ok(None) => self.spec_ext(source) == Ok::<Option<Seq<char>>, DbErr>(None),
                Err(e) => self.spec_ext(source) == Err::<Option<Seq<char>>, DbErr>(e),
            },
    {
        match source {
            Source::File { file } => match self.file(*file) {
                Err(e) => Err(e),
                Ok(link) => Ok(link.path.extension()),
            },
            Source::Archive { path, .. } => Ok(entry_ext(path.as_str())),
        }
    }

    /// The path of the source if it is a plain file.
    pub fn as_file(&self, source: &Source) -> (r: Result<Option<&FilePath>, DbErr>)
        ensures
            r == match source {
                Source::File { file } => if file.0 < self.files@.len() {
                    Ok::<Option<&FilePath>, DbErr>(Some(&self.files@[file.0 as int].path))
                } else {
                    Err::<Option<&FilePath>, DbErr>(DbErr::InvalidFile(*file))
                },
                Source::Archive { .. } => Ok::<Option<&FilePath>, DbErr>(None),
            },
    {
        match source {
            Source::File { file } => match self.file(*file) {
                Err(e) => Err(e),
                Ok(link) => Ok(Some(&link.path)),
            },
            Source::Archive { .. } => Ok(None),
        }
    }

    /// How a source is brought to its destination: an archive entry can only
    /// be written out, a plain file is linked, renamed or copied.
    pub open spec fn spec_move_to(&self, source: &Source, kind: TransferKind) -> Result<
        TransferOp,
        DbErr,
    > {
        match source {
            Source::Archive { archive, .. } => match kind {
                TransferKind::Link => Err(DbErr::LinkFromArchive),
                TransferKind::Move => Err(DbErr::MoveFromArchive),
                TransferKind::Copy => if archive.0 < self.archives@.len() {
                    Ok(TransferOp::WriteEntry)
                } else {
                    Err(DbErr::InvalidArchive(*archive))
                },
            },
            Source::File { file } => if file.0 < self.files@.len() {
                Ok(
                    match kind {
                        TransferKind::Link => TransferOp::HardLink,
                        TransferKind::Move => TransferOp::Rename,
                        TransferKind::Copy => TransferOp::CopyFile,
                    },
                )
            } else {
                Err(DbErr::InvalidFile(*file))
            },
        }
    }

    /// Picks the operation that transfers a source.
    pub fn move_to(&self, source: &Source, kind: TransferKind) -> (r: Result<TransferOp, DbErr>)
        ensures
            r == self.spec_move_to(source, kind),
    {
        match source {
            Source::Archive { archive, .. } => match kind {
                TransferKind::Link => Err(DbErr::LinkFromArchive),
                TransferKind::Move => Err(DbErr::MoveFromArchive),
                TransferKind::Copy => match self.archive(*archive) {
                    Err(e) => Err(e),
                    Ok(_) => Ok(TransferOp::WriteEntry),
                },
            },
            Source::File { file } => match self.file(*file) {
                Err(e) => Err(e),
                Ok(_) => Ok(
                    match kind {
                        TransferKind::Link => TransferOp::HardLink,
                        TransferKind::Move => TransferOp::Rename,
                        TransferKind::Copy => TransferOp::CopyFile,
                    },
                ),
            },
        }
    }
}

/// A handle stays good: what was registered is found again under its handle
/// after any later registration.
pub proof fn lemma_handles_stay_valid(before: Db, after: Db, id: FileId)
    requires
        before.files@.is_prefix_of(after.files@),
        id.0 < before.files@.len(),
    ensures
        after.files@[id.0 as int] == before.files@[id.0 as int],
{
}

/// An archive entry is never linked or moved: archives are only read.
pub proof fn lemma_archive_only_copies(db: Db, source: Source, kind: TransferKind)
    requires
        source is Archive,
    ensures
        db.spec_move_to(&source, kind) is Ok ==> kind == TransferKind::Copy,
{
}

} // verus!
