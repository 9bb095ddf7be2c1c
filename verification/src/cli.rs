//! The options of a run and the configuration that they come to.

use vstd::prelude::*;

use crate::bitrates::{Bitrates, NoBitrate, SetBitRate};
use crate::condition::{Condition, FromCondition, ToCondition};
use crate::format::{Format, FormatSet};
use crate::path::{cur_dir, FilePath, PathModel};
use crate::plan::{opt_path, Config};
use crate::text;

verus! {

/// The options of the batch converter, as they are given on the command
/// line.
#[derive(Clone, Debug, PartialEq, Eq)]
pub struct Audiovert {
    /// Overwrite destinations that exist.
    pub force: bool,
    pub verbose: bool,
    /// Where removed files go, if given.
    pub trash: Option<FilePath>,
    /// Move source files to the trash once they were converted.
    pub trash_source: bool,
    /// The rules; without any, lossless formats are converted to mp3 and
    /// lossy formats are kept.
    pub conversion: Vec<Condition>,
    pub dry_run: bool,
    pub keep_going: bool,
    /// The output directory, if given.
    pub to: Option<FilePath>,
    pub meta: bool,
    pub meta_dump: bool,
    pub meta_dump_error: bool,
    /// Move files instead of linking them.
    pub move_source: bool,
    /// The bitrate settings, in the order in which they were given.
    pub bitrates: Vec<SetBitRate>,
    /// Encode the formats of the bitrate settings again.
    pub force_bitrates: bool,
    pub ffmpeg_bin: String,
    pub part_ext: String,
    /// The paths to scan; without any, the working directory.
    pub paths: Vec<FilePath>,
}

/// The options of the program.
#[derive(Clone, Debug, PartialEq, Eq)]
pub struct Opts {
    pub inner: Audiovert,
}

/// The options cannot be carried out.
#[derive(Clone, Copy, Debug, PartialEq, Eq, Structural)]
pub enum EntryErr {
    /// A bitrate was set for a format that is encoded without one.
    NoBitrate(NoBitrate),
    /// No trash directory was given and the home directory is not known.
    NoHome,
}

/// The rules of a run that was given none: lossless formats become mp3,
/// lossy formats stay what they are.
pub open spec fn default_conversion() -> Seq<Condition> {
    seq![
        Condition::FromTo { from: FromCondition::Lossless, to: ToCondition::Exact(Format::Mp3) },
        Condition::FromTo { from: FromCondition::Lossy, to: ToCondition::Same },
    ]
}

/// The working directory as a path.
pub open spec fn here() -> PathModel {
    PathModel { root: Seq::empty(), parts: seq![cur_dir()] }
}

/// The default trash directory: `trash` in the home directory, or `Trash`
/// where only that exists.
pub open spec fn spec_default_trash(home: PathModel, lower_exists: bool, upper_exists: bool) -> PathModel {
    if !lower_exists && upper_exists {
        home.pushed("Trash"@)
    } else {
        home.pushed("trash"@)
    }
}

/// Picks the default trash directory, given which of the two candidates
/// exist as directories.
pub fn default_trash(home: &FilePath, lower_exists: bool, upper_exists: bool) -> (r: FilePath)
    ensures
        r@ == spec_default_trash(home@, lower_exists, upper_exists),
{
    let mut trash = home.copy();
    if !lower_exists && upper_exists {
        trash.push("Trash");
    } else {
        trash.push("trash");
    }
    trash
}

/// Bitrates and formats to encode again after the settings `settings` were
/// applied in order to the default bitrates; the first setting that names a
/// format without bitrate ends it.
pub open spec fn settled(settings: Seq<SetBitRate>, force: bool) -> Result<
    (Bitrates, Set<Format>),
    NoBitrate,
>
    decreases settings.len(),
{
    if settings.len() == 0 {
        Ok(
            (
                Bitrates {
                    aac: Format::Aac.spec_default_bitrate(),
                    flac: None,
                    mp3: Format::Mp3.spec_default_bitrate(),
                    ogg: Format::Ogg.spec_default_bitrate(),
                    wav: None,
                },
                Set::empty(),
            ),
        )
    } else {
        match settled(settings.drop_last(), force) {
            Err(e) => Err(e),
            Ok((b, forced)) => {
                let s = settings.last();
                match s.offending(b) {
                    Some(format) => Err(NoBitrate { format }),
                    None => Ok(
                        (
                            Bitrates {
                                aac: if s.picks(b, Format::Aac) {
                                    Some(s.value(Format::Aac))
                                } else {
                                    b.aac
                                },
                                flac: b.flac,
                                mp3: if s.picks(b, Format::Mp3) {
                                    Some(s.value(Format::Mp3))
                                } else {
                                    b.mp3
                                },
                                ogg: if s.picks(b, Format::Ogg) {
                                    Some(s.value(Format::Ogg))
                                } else {
                                    b.ogg
                                },
                                wav: b.wav,
                            },
                            Set::new(|f: Format| forced.contains(f) || (force && s.picks(b, f))),
                        ),
                    ),
                }
            },
        }
    }
}

/// The values of a list of paths.
pub open spec fn path_models(v: Seq<FilePath>) -> Seq<PathModel> {
    v.map_values(|p: FilePath| p@)
}

fn copy_paths(v: &Vec<FilePath>) -> (r: Vec<FilePath>)
    ensures
        path_models(r@) == path_models(v@),
{
    let mut out: Vec<FilePath> = Vec::new();
    let mut i: usize = 0;
    assert(path_models(out@) =~= path_models(v@).take(0));
    while i < v.len()
        invariant
            i <= v.len(),
            path_models(out@) == path_models(v@).take(i as int),
        decreases v.len() - i,
    {
        out.push(v[i].copy());
        assert(path_models(out@) =~= path_models(v@).take(i as int).push(v@[i as int]@));
        assert(path_models(v@).take(i + 1) =~= path_models(v@).take(i as int).push(v@[i as int]@));
        i += 1;
    }
    assert(path_models(v@).take(i as int) =~= path_models(v@));
    out
}

fn copy_rules(v: &Vec<Condition>) -> (r: Vec<Condition>)
    ensures
        r@ == v@,
{
    let mut out: Vec<Condition> = Vec::new();
    let mut i: usize = 0;
    while i < v.len()
        invariant
            i <= v.len(),
            out@ == v@.take(i as int),
        decreases v.len() - i,
    {
        out.push(v[i]);
        i += 1;
    }
    assert(v@.take(i as int) == v@);
    out
}

impl Audiovert {
    /// The configuration that the options come to. `home_trash` is the
    /// default trash directory, if the home directory is known; it is used
    /// where the options name none.
    pub fn config(&self, home_trash: Option<FilePath>) -> (r: Result<Config, EntryErr>)
        ensures
            match settled(self.bitrates@, self.force_bitrates) {
                Err(e) => r == Err::<Config, EntryErr>(EntryErr::NoBitrate(e)),
                Ok((bitrates, forced)) => if self.trash is None && home_trash is None {
                    r == Err::<Config, EntryErr>(EntryErr::NoHome)
                } else {
                    &&& r matches Ok(c)
                    &&& c.bitrates == bitrates
                    &&& c.forced_bitrates@ == forced
                    &&& c.conversion@ == if self.conversion@.len() == 0 {
                        default_conversion()
                    } else {
                        self.conversion@
                    }
                    &&& path_models(c.paths@) == if self.paths@.len() == 0 {
                        seq![here()]
                    } else {
                        path_models(self.paths@)
                    }
                    &&& c.trash@ == match self.trash {
                        Some(t) => t@,
                        None => home_trash->0@,
                    }
                    &&& opt_path(c.to_dir) == opt_path(self.to)
                    &&& c.ffmpeg@ == self.ffmpeg_bin@
                    &&& c.part_ext@ == self.part_ext@
                    &&& c.dry_run == self.dry_run
                    &&& c.force == self.force
                    &&& c.keep_going == self.keep_going
                    &&& c.meta == self.meta
                    &&& c.meta_dump == self.meta_dump
                    &&& c.meta_dump_error == self.meta_dump_error
                    &&& c.move_source == self.move_source
                    &&& c.trash_source == self.trash_source
                    &&& c.verbose == self.verbose
                },
            },
    {
        let mut bitrates = Bitrates::new();
        let mut forced = FormatSet::new();
        let mut i: usize = 0;
        assert(self.bitrates@.take(0) =~= Seq::<SetBitRate>::empty());
        assert(forced@ =~= Set::<Format>::empty());
        while i < self.bitrates.len()
            invariant
                i <= self.bitrates.len(),
                settled(self.bitrates@.take(i as int), self.force_bitrates) == Ok::<
                    (Bitrates, Set<Format>),
                    NoBitrate,
                >((bitrates, forced@)),
            decreases self.bitrates.len() - i,
        {
            let ghost before = bitrates;
            let ghost forced_before = forced@;
            assert(self.bitrates@.take(i + 1).drop_last() == self.bitrates@.take(i as int));
            proof {
                lemma_settled_error_stays(self.bitrates@, self.force_bitrates, i + 1);
            }
            match self.bitrates[i].apply(&mut bitrates, &mut forced, self.force_bitrates) {
                Err(e) => {
                    return Err(EntryErr::NoBitrate(e));
                },
                Ok(()) => {
                    let ghost s = self.bitrates@[i as int];
                    assert(bitrates.flac == before.flac && bitrates.wav == before.wav) by {
                        assert(bitrates.spec_get(Format::Flac) == before.spec_get(Format::Flac));
                        assert(bitrates.spec_get(Format::Wav) == before.spec_get(Format::Wav));
                    }
                    assert(bitrates.aac == bitrates.spec_get(Format::Aac));
                    assert(bitrates.mp3 == bitrates.spec_get(Format::Mp3));
                    assert(bitrates.ogg == bitrates.spec_get(Format::Ogg));
                    assert(forced@ =~= Set::new(
                        |f: Format|
                            forced_before.contains(f) || (self.force_bitrates && s.picks(before, f)),
                    ));
                },
            }
            i += 1;
        }
        assert(self.bitrates@.take(i as int) == self.bitrates@);
        let trash = match &self.trash {
            Some(t) => t.copy(),
            None => match home_trash {
                Some(t) => t,
                None => {
                    return Err(EntryErr::NoHome);
                },
            },
        };
        let mut paths = copy_paths(&self.paths);
        if paths.len() == 0 {
            let mut here = FilePath::new("");
            here.push(".");
            assert(here@ =~= self::here()) by {
                reveal_strlit("");
                reveal_strlit(".");
                assert("."@ =~= cur_dir());
                assert(""@ =~= Seq::<char>::empty());
            }
            paths.push(here);
            assert(path_models(paths@) =~= seq![self::here()]);
        }
        let mut conversion = copy_rules(&self.conversion);
        if conversion.len() == 0 {
            conversion.push(
                Condition::FromTo {
                    from: FromCondition::Lossless,
                    to: ToCondition::Exact(Format::Mp3),
                },
            );
            conversion.push(Condition::FromTo { from: FromCondition::Lossy, to: ToCondition::Same });
            assert(conversion@ =~= default_conversion());
        }
        let to_dir = match &self.to {
            Some(p) => Some(p.copy()),
            None => None,
        };
        Ok(
            Config {
                bitrates,
                conversion,
                dry_run: self.dry_run,
                ffmpeg: self.ffmpeg_bin.clone(),
                force: self.force,
                keep_going: self.keep_going,
                meta_dump_error: self.meta_dump_error,
                meta_dump: self.meta_dump,
                meta: self.meta,
                part_ext: self.part_ext.clone(),
                paths,
                move_source: self.move_source,
                forced_bitrates: forced,
                to_dir,
                trash_source: self.trash_source,
                trash,
                verbose: self.verbose,
            },
        )
    }
}

proof fn lemma_settled_error_stays(settings: Seq<SetBitRate>, force: bool, n: int)
    requires
        0 <= n <= settings.len(),
    ensures
        settled(settings.take(n), force) matches Err(e) ==> settled(settings, force) == Err::<
            (Bitrates, Set<Format>),
            NoBitrate,
        >(e),
    decreases settings.len() - n,
{
    if n == settings.len() {
        assert(settings.take(n) == settings);
    } else {
        assert(settings.take(n + 1).drop_last() == settings.take(n));
        lemma_settled_error_stays(settings, force, n + 1);
    }
}

/// The extension that marks a partial file unless another is given.
pub fn default_part_ext() -> (r: &'static str)
    ensures
        r@ == "part"@,
{
    "part"
}

/// The encoder program unless another is given.
pub fn default_ffmpeg() -> (r: &'static str)
    ensures
        r@ == "ffmpeg"@,
{
    "ffmpeg"
}

} // verus!
