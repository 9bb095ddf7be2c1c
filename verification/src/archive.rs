//! Archive kinds and the names of archive entries.
//!
//! An entry name is a relative path with `/` between its components. The
//! components are taken apart by the `relative_path` crate; what is done with
//! them is decided here.

use vstd::prelude::*;

use crate::path::{cur_dir, name_ext, names, parent_dir};
use crate::text;

verus! {

/// The text was not the name of a supported archive kind.
#[derive(Copy, Clone, Debug, PartialEq, Eq, Structural)]
pub struct ArchiveErr;

/// The kind of an archive, told by its file extension.
#[derive(Copy, Clone, Debug, PartialEq, Eq, Structural)]
pub enum Archive {
    Zip,
    Rar,
    _7z,
}

impl Archive {
    pub open spec fn spec_from_ext(ext: Seq<char>) -> Option<Archive> {
        if ext == "zip"@ {
            Some(Archive::Zip)
        } else if ext == "rar"@ {
            Some(Archive::Rar)
        } else if ext == "7z"@ {
            Some(Archive::_7z)
        } else {
            None
        }
    }

    /// The archive kind that a file extension names, if any.
    pub fn from_ext(ext: &str) -> (r: Option<Archive>)
        ensures
            r == Archive::spec_from_ext(ext@),
    {
        if text::eq(ext, "zip") {
            Some(Archive::Zip)
        } else if text::eq(ext, "rar") {
            Some(Archive::Rar)
        } else if text::eq(ext, "7z") {
            Some(Archive::_7z)
        } else {
            None
        }
    }

    /// Reads an archive kind: succeeds exactly on `zip`, `rar` and `7z`.
    pub fn parse(s: &str) -> (r: Result<Archive, ArchiveErr>)
        ensures
            r == match Archive::spec_from_ext(s@) {
                Some(a) => Ok::<Archive, ArchiveErr>(a),
                None => Err::<Archive, ArchiveErr>(ArchiveErr),
            },
    {
        match Archive::from_ext(s) {
            Some(a) => Ok(a),
            None => Err(ArchiveErr),
        }
    }

    pub open spec fn spec_name(self) -> Seq<char> {
        match self {
            Archive::Zip => "zip"@,
            Archive::Rar => "rar"@,
            Archive::_7z => "7z"@,
        }
    }

    /// The name under which the kind is shown: its extension.
    pub fn name(&self) -> (r: &'static str)
        ensures
            r@ == self.spec_name(),
    {
        match self {
            Archive::Zip => "zip",
            Archive::Rar => "rar",
            Archive::_7z => "7z",
        }
    }
}

/// Splitting at `/`: `cur` is the run of characters read since the last `/`.
pub open spec fn split_from(s: Seq<char>, cur: Seq<char>) -> Seq<Seq<char>>
    decreases s.len(),
{
    let done = if cur.len() > 0 {
        seq![cur]
    } else {
        seq![]
    };
    if s.len() == 0 {
        done
    } else if s[0] == '/' {
        done + split_from(s.skip(1), seq![])
    } else {
        split_from(s.skip(1), cur.push(s[0]))
    }
}

/// The non-empty runs of characters that stand between the `/` of `s`.
pub open spec fn segments(s: Seq<char>) -> Seq<Seq<char>> {
    split_from(s, seq![])
}

/// Whether an entry name climbs out of its directory with a `..` component.
pub open spec fn escapes(s: Seq<char>) -> bool {
    segments(s).contains(parent_dir())
}

/// The components of an entry name that name something: all but `.`.
pub open spec fn normal_parts(s: Seq<char>) -> Seq<Seq<char>> {
    segments(s).filter(|x: Seq<char>| x != cur_dir())
}

/// The file name of an entry: its last component that is not `.`, unless
/// that is `..`.
pub open spec fn entry_file_name(s: Seq<char>) -> Option<Seq<char>> {
    let parts = normal_parts(s);
    if parts.len() > 0 && parts.last() != parent_dir() {
        Some(parts.last())
    } else {
        None
    }
}

/// The extension of an entry's file name.
pub open spec fn entry_extension(s: Seq<char>) -> Option<Seq<char>> {
    match entry_file_name(s) {
        Some(n) => name_ext(n),
        None => None,
    }
}

/// `RelativePath::components`, each component as its text: the iterator
/// yields the non-empty runs between `/`, in order, `.` and `..` included.
#[verifier::external_body]
fn rel_components(path: &str) -> (r: Vec<String>)
    ensures
        names(r@) == segments(path@),
{
    relative_path::RelativePath::new(path).components().map(|c| c.as_str().to_owned()).collect()
}

/// `RelativePath::extension`: what follows the last `.` of the file name,
/// where the file name has a `.` that is not its first character.
#[verifier::external_body]
fn rel_extension(path: &str) -> (r: Option<String>)
    ensures
        match r {
            Some(e) => entry_extension(path@) == Some(e@),
            None => entry_extension(path@) is None,
        },
{
    relative_path::RelativePath::new(path).extension().map(|e| e.to_owned())
}

/// The extension of an archive entry's name.
pub fn entry_ext(path: &str) -> (r: Option<String>)
    ensures
        match r {
            Some(e) => entry_extension(path@) == Some(e@),
            None => entry_extension(path@) is None,
        },
{
    rel_extension(path)
}

/// The components of an entry name below the archive's own directory, or
/// nothing where the name holds a `..`: such an entry is never planned.
pub fn entry_parts(path: &str) -> (r: Option<Vec<String>>)
    ensures
        match r {
            Some(parts) => !escapes(path@) && names(parts@) == normal_parts(path@),
            None => escapes(path@),
        },
{
    let all = rel_components(path);
    let ghost segs = segments(path@);
    let ghost keep = |x: Seq<char>| x != cur_dir();
    let mut out: Vec<String> = Vec::new();
    let mut i: usize = 0;
    proof {
        reveal(Seq::filter);
    }
    while i < all.len()
        invariant
            i <= all.len(),
            names(all@) == segs,
            segs == segments(path@),
            keep == |x: Seq<char>| x != cur_dir(),
            names(out@) == segs.take(i as int).filter(keep),
            !segs.take(i as int).contains(parent_dir()),
        decreases all.len() - i,
    {
        let c = text::chars(all[i].as_str());
        assert(c@ == segs[i as int]);
        assert(segs.take(i + 1) == segs.take(i as int).push(segs[i as int]));
        proof {
            reveal(Seq::filter);
            assert(segs.take(i + 1).drop_last() == segs.take(i as int));
        }
        if c.len() == 2 && c[0] == '.' && c[1] == '.' {
            assert(c@ == parent_dir());
            assert(segs[i as int] == parent_dir());
            assert(segs.contains(parent_dir()));
            return None;
        }
        if c.len() == 1 && c[0] == '.' {
            assert(c@ == cur_dir());
        } else {
            assert(c@ != cur_dir()) by {
                if c@ == cur_dir() {
                    assert(c@.len() == 1 && c@[0] == '.');
                }
            }
            out.push(all[i].clone());
            assert(names(out@) == segs.take(i as int).filter(keep).push(segs[i as int]));
        }
        assert(!segs.take(i + 1).contains(parent_dir())) by {
            if segs.take(i + 1).contains(parent_dir()) {
                let k = choose|k: int| 0 <= k < i + 1 && (#[trigger] segs.take(i + 1)[k]) == parent_dir();
                if k < i {
                    assert(segs.take(i as int)[k] == parent_dir());
                }
            }
        }
        i += 1;
    }
    assert(segs.take(i as int) == segs);
    Some(out)
}

} // verus!
