//! A portable model of file-system paths.
//!
//! A path is an anchor (empty for a relative path, otherwise the text of the
//! root or drive prefix) followed by components. Components are kept as they
//! would be listed by the platform: an empty component and an inner `.` never
//! occur, `..` is kept. The planner computes on this model; turning a model
//! path into a platform path is pushing its components one after another.

use vstd::prelude::*;

use crate::text;

verus! {

/// Mathematical value of a [`FilePath`].
#[verifier::ext_equal]
pub struct PathModel {
    pub root: Seq<char>,
    pub parts: Seq<Seq<char>>,
}

/// The texts of a sequence of strings.
pub open spec fn names(v: Seq<String>) -> Seq<Seq<char>> {
    v.map_values(|s: String| s@)
}

/// The component `.`.
pub open spec fn cur_dir() -> Seq<char> {
    seq!['.']
}

/// The component `..`.
pub open spec fn parent_dir() -> Seq<char> {
    seq!['.', '.']
}

/// Index of the last `.` in `name`, or `-1` if there is none.
pub open spec fn last_dot(name: Seq<char>) -> int
    decreases name.len(),
{
    if name.len() == 0 {
        -1
    } else if name.last() == '.' {
        name.len() - 1
    } else {
        last_dot(name.drop_last())
    }
}

/// The stem of a file name: the whole name if it holds no `.` or only a
/// leading one, otherwise what stands before the last `.`.
pub open spec fn name_stem(name: Seq<char>) -> Seq<char> {
    if last_dot(name) <= 0 {
        name
    } else {
        name.take(last_dot(name))
    }
}

/// The extension of a file name: nothing if it holds no `.` or only a leading
/// one, otherwise what stands after the last `.`.
pub open spec fn name_ext(name: Seq<char>) -> Option<Seq<char>> {
    if last_dot(name) <= 0 {
        None
    } else {
        Some(name.skip(last_dot(name) + 1))
    }
}

/// A file name followed by `.` and an extension.
pub open spec fn dotted(name: Seq<char>, ext: Seq<char>) -> Seq<char> {
    name.push('.') + ext
}

impl PathModel {
    /// The path without anchor and without components.
    pub open spec fn is_empty(self) -> bool {
        self.root.len() == 0 && self.parts.len() == 0
    }

    /// The last component, unless it is `.` or `..`.
    pub open spec fn file_name(self) -> Option<Seq<char>> {
        if self.parts.len() > 0 && self.parts.last() != cur_dir() && self.parts.last()
            != parent_dir() {
            Some(self.parts.last())
        } else {
            None
        }
    }

    pub open spec fn file_stem(self) -> Option<Seq<char>> {
        match self.file_name() {
            Some(n) => Some(name_stem(n)),
            None => None,
        }
    }

    pub open spec fn extension(self) -> Option<Seq<char>> {
        match self.file_name() {
            Some(n) => name_ext(n),
            None => None,
        }
    }

    /// The path with its last component replaced.
    pub open spec fn with_name(self, name: Seq<char>) -> PathModel {
        PathModel { root: self.root, parts: self.parts.drop_last().push(name) }
    }

    /// The path with the extension of its file name replaced by `ext`; an
    /// empty `ext` removes the extension. A path without file name is kept.
    pub open spec fn with_extension(self, ext: Seq<char>) -> PathModel {
        match self.file_name() {
            None => self,
            Some(n) => if ext.len() == 0 {
                self.with_name(name_stem(n))
            } else {
                self.with_name(dotted(name_stem(n), ext))
            },
        }
    }

    /// The path with `.` and `ext` appended to its file name. A path without
    /// file name, or an empty `ext`, leaves the path as it is.
    pub open spec fn with_added_extension(self, ext: Seq<char>) -> PathModel {
        match self.file_name() {
            None => self,
            Some(n) => if ext.len() == 0 {
                self
            } else {
                self.with_name(dotted(n, ext))
            },
        }
    }

    /// The path with one more component. An empty component is dropped, and
    /// so is `.` unless the path was empty.
    pub open spec fn pushed(self, seg: Seq<char>) -> PathModel {
        if seg.len() == 0 || (seg == cur_dir() && !self.is_empty()) {
            self
        } else {
            PathModel { root: self.root, parts: self.parts.push(seg) }
        }
    }

    /// The path with the components `segs` pushed one after another.
    pub open spec fn pushed_all(self, segs: Seq<Seq<char>>) -> PathModel
        decreases segs.len(),
    {
        if segs.len() == 0 {
            self
        } else {
            self.pushed_all(segs.drop_last()).pushed(segs.last())
        }
    }

    /// The path without its last component; a path without components has
    /// no parent.
    pub open spec fn parent(self) -> Option<PathModel> {
        if self.parts.len() == 0 {
            None
        } else {
            Some(PathModel { root: self.root, parts: self.parts.drop_last() })
        }
    }

    /// The components of the path below `base`, if `base` has the same
    /// anchor and its components are a prefix of the path's.
    pub open spec fn strip_prefix(self, base: PathModel) -> Option<Seq<Seq<char>>> {
        if base.root == self.root && base.parts.is_prefix_of(self.parts) {
            Some(self.parts.skip(base.parts.len() as int))
        } else {
            None
        }
    }
}

/// `parts` with `/` between them.
pub open spec fn joined(parts: Seq<Seq<char>>) -> Seq<char>
    decreases parts.len(),
{
    if parts.len() == 0 {
        Seq::empty()
    } else if parts.len() == 1 {
        parts[0]
    } else {
        joined(parts.drop_last()).push('/') + parts.last()
    }
}

impl PathModel {
    /// The path as it is shown: the anchor, then the components with `/`
    /// between them.
    pub open spec fn text(self) -> Seq<char> {
        self.root + joined(self.parts)
    }
}

/// A file-system path held as anchor and components.
#[derive(Clone, Debug, PartialEq, Eq)]
pub struct FilePath {
    pub root: String,
    pub parts: Vec<String>,
}

impl View for FilePath {
    type V = PathModel;

    open spec fn view(&self) -> PathModel {
        PathModel { root: self.root@, parts: names(self.parts@) }
    }
}

/// Index of the last `.` in `v`, if there is one.
pub fn find_last_dot(v: &Vec<char>) -> (r: Option<usize>)
    ensures
        match r {
            Some(i) => i == last_dot(v@),
            None => last_dot(v@) == -1,
        },
        r matches Some(i) ==> i < v.len(),
{
    let mut i: usize = v.len();
    assert(v@.take(i as int) == v@);
    while i > 0
        invariant
            i <= v.len(),
            last_dot(v@) == last_dot(v@.take(i as int)),
        decreases i,
    {
        assert(v@.take(i as int).drop_last() == v@.take(i - 1));
        if v[i - 1] == '.' {
            return Some(i - 1);
        }
        i -= 1;
    }
    None
}

/// A copy of a list of strings.
pub fn copy_names(v: &Vec<String>) -> (r: Vec<String>)
    ensures
        names(r@) == names(v@),
{
    let mut out: Vec<String> = Vec::new();
    let mut i: usize = 0;
    while i < v.len()
        invariant
            i <= v.len(),
            names(out@) == names(v@).take(i as int),
        decreases v.len() - i,
    {
        out.push(v[i].clone());
        assert(names(out@) == names(v@).take(i as int).push(v@[i as int]@));
        i += 1;
    }
    out
}

impl FilePath {
    /// The path that holds only the anchor `root`.
    pub fn new(root: &str) -> (r: FilePath)
        ensures
            r@ == (PathModel { root: root@, parts: Seq::empty() }),
    {
        FilePath { root: text::string(&text::chars(root)), parts: Vec::new() }
    }

    /// The path with anchor `root` and the components `parts`, pushed one
    /// after another.
    pub fn from_parts(root: &str, parts: &Vec<String>) -> (r: FilePath)
        ensures
            r@ == (PathModel { root: root@, parts: Seq::empty() }).pushed_all(names(parts@)),
    {
        let mut p = FilePath::new(root);
        p.push_all(parts);
        p
    }

    /// A copy of the path.
    pub fn copy(&self) -> (r: FilePath)
        ensures
            r@ == self@,
    {
        FilePath { root: self.root.clone(), parts: copy_names(&self.parts) }
    }

    /// The path as it is shown.
    pub fn display(&self) -> (r: String)
        ensures
            r@ == self@.text(),
    {
        let mut out = text::chars(self.root.as_str());
        let ghost parts = names(self.parts@);
        let mut i: usize = 0;
        assert(parts.take(0) =~= Seq::<Seq<char>>::empty());
        while i < self.parts.len()
            invariant
                i <= self.parts.len(),
                parts == names(self.parts@),
                out@ == self.root@ + joined(parts.take(i as int)),
            decreases self.parts.len() - i,
        {
            assert(parts.take(i + 1).drop_last() == parts.take(i as int));
            assert(parts.take(i + 1).last() == self.parts@[i as int]@);
            if i > 0 {
                out.push('/');
            }
            text::extend_str(&mut out, self.parts[i].as_str());
            assert(out@ =~= self.root@ + joined(parts.take(i + 1))) by {
                if i == 0 {
                    assert(parts.take(1)[0] == self.parts@[0]@);
                }
            }
            i += 1;
        }
        assert(parts.take(i as int) == parts);
        text::string(&out)
    }

    /// Whether the path has neither anchor nor components.
    pub fn is_empty(&self) -> (r: bool)
        ensures
            r == self@.is_empty(),
    {
        let root = text::chars(self.root.as_str());
        root.len() == 0 && self.parts.len() == 0
    }

    /// Whether two paths have the same anchor and the same components.
    pub fn same(&self, other: &FilePath) -> (r: bool)
        ensures
            r == (self@ == other@),
    {
        if !text::eq(self.root.as_str(), other.root.as_str()) {
            return false;
        }
        if self.parts.len() != other.parts.len() {
            assert(names(self.parts@).len() != names(other.parts@).len());
            return false;
        }
        let mut i: usize = 0;
        while i < self.parts.len()
            invariant
                i <= self.parts.len(),
                self.parts.len() == other.parts.len(),
                names(self.parts@).take(i as int) == names(other.parts@).take(i as int),
            decreases self.parts.len() - i,
        {
            if !text::eq(self.parts[i].as_str(), other.parts[i].as_str()) {
                assert(names(self.parts@)[i as int] != names(other.parts@)[i as int]);
                return false;
            }
            assert(names(self.parts@).take(i + 1) == names(self.parts@).take(i as int).push(
                self.parts@[i as int]@,
            ));
            assert(names(other.parts@).take(i + 1) == names(other.parts@).take(i as int).push(
                other.parts@[i as int]@,
            ));
            i += 1;
        }
        assert(names(self.parts@).take(i as int) == names(self.parts@));
        assert(names(other.parts@).take(i as int) == names(other.parts@));
        assert(self@ =~= other@);
        true
    }

    /// Appends one component. An empty component is dropped, and so is
    /// `.` unless the path was empty.
    pub fn push(&mut self, seg: &str)
        ensures
            final(self)@ == old(self)@.pushed(seg@),
    {
        let s = text::chars(seg);
        if s.len() == 0 {
            return ;
        }
        if s.len() == 1 && s[0] == '.' {
            assert(s@ == cur_dir());
            if !self.is_empty() {
                return ;
            }
        }
        self.parts.push(text::string(&s));
        assert(names(self.parts@) == names(old(self).parts@).push(seg@));
    }

    /// Appends components one after another.
    pub fn push_all(&mut self, segs: &Vec<String>)
        ensures
            final(self)@ == old(self)@.pushed_all(names(segs@)),
    {
        let mut i: usize = 0;
        while i < segs.len()
            invariant
                i <= segs.len(),
                self@ == old(self)@.pushed_all(names(segs@).take(i as int)),
            decreases segs.len() - i,
        {
            self.push(segs[i].as_str());
            assert(names(segs@).take(i + 1).drop_last() == names(segs@).take(i as int));
            i += 1;
        }
        assert(names(segs@).take(i as int) == names(segs@));
    }

    /// The last component, unless it is `.` or `..`.
    pub fn file_name(&self) -> (r: Option<String>)
        ensures
            match r {
                Some(n) => self@.file_name() == Some(n@),
                None => self@.file_name() is None,
            },
    {
        let n = self.parts.len();
        if n == 0 {
            return None;
        }
        let last = text::chars(self.parts[n - 1].as_str());
        assert(names(self.parts@).last() == last@);
        if last.len() == 1 && last[0] == '.' {
            assert(last@ == cur_dir());
            return None;
        }
        if last.len() == 2 && last[0] == '.' && last[1] == '.' {
            assert(last@ == parent_dir());
            return None;
        }
        Some(text::string(&last))
    }

    /// The file name without its extension.
    pub fn file_stem(&self) -> (r: Option<String>)
        ensures
            match r {
                Some(n) => self@.file_stem() == Some(n@),
                None => self@.file_stem() is None,
            },
    {
        match self.file_name() {
            None => None,
            Some(name) => Some(stem_of(name.as_str())),
        }
    }

    /// What follows the last `.` of the file name, where the file name
    /// has a `.` that is not its first character.
    pub fn extension(&self) -> (r: Option<String>)
        ensures
            match r {
                Some(n) => self@.extension() == Some(n@),
                None => self@.extension() is None,
            },
    {
        match self.file_name() {
            None => None,
            Some(name) => ext_of(name.as_str()),
        }
    }

    fn set_name(&mut self, name: String)
        requires
            old(self).parts.len() > 0,
        ensures
            final(self)@ == old(self)@.with_name(name@),
    {
        self.parts.pop();
        self.parts.push(name);
        assert(names(self.parts@) == names(old(self).parts@).drop_last().push(name@));
    }

    /// Replaces the extension of the file name by `ext`; an empty `ext`
    /// removes it. A path without file name is left as it is.
    pub fn set_extension(&mut self, ext: &str)
        ensures
            final(self)@ == old(self)@.with_extension(ext@),
    {
        match self.file_name() {
            None => {},
            Some(name) => {
                let mut n = text::chars(stem_of(name.as_str()).as_str());
                let e = text::chars(ext);
                if e.len() > 0 {
                    n.push('.');
                    text::extend(&mut n, &e);
                }
                self.set_name(text::string(&n));
            },
        }
    }

    /// Appends `.` and `ext` to the file name. A path without file name,
    /// or an empty `ext`, leaves the path as it is.
    pub fn add_extension(&mut self, ext: &str)
        ensures
            final(self)@ == old(self)@.with_added_extension(ext@),
    {
        match self.file_name() {
            None => {},
            Some(name) => {
                let e = text::chars(ext);
                if e.len() > 0 {
                    let mut n = text::chars(name.as_str());
                    n.push('.');
                    text::extend(&mut n, &e);
                    self.set_name(text::string(&n));
                }
            },
        }
    }

    /// A copy of the path with `.` and `ext` appended to its file name.
    pub fn with_added_extension(&self, ext: &str) -> (r: FilePath)
        ensures
            r@ == self@.with_added_extension(ext@),
    {
        let mut p = self.copy();
        p.add_extension(ext);
        p
    }

    /// The path without its last component, if it has one.
    pub fn parent(&self) -> (r: Option<FilePath>)
        ensures
            match r {
                Some(p) => self@.parent() == Some(p@),
                None => self@.parent() is None,
            },
    {
        if self.parts.len() == 0 {
            return None;
        }
        let mut p = self.copy();
        p.parts.pop();
        assert(names(p.parts@) == names(self.parts@).drop_last());
        Some(p)
    }

    /// Drops the last component; tells whether there was one.
    pub fn pop(&mut self) -> (r: bool)
        ensures
            match old(self)@.parent() {
                Some(p) => r && final(self)@ == p,
                None => !r && final(self)@ == old(self)@,
            },
    {
        if self.parts.len() == 0 {
            return false;
        }
        self.parts.pop();
        assert(names(self.parts@) == names(old(self).parts@).drop_last());
        true
    }

    /// The components of the path below `base`, if the path lies there.
    pub fn strip_prefix(&self, base: &FilePath) -> (r: Option<Vec<String>>)
        ensures
            match r {
                Some(rest) => self@.strip_prefix(base@) == Some(names(rest@)),
                None => self@.strip_prefix(base@) is None,
            },
    {
        if !text::eq(self.root.as_str(), base.root.as_str()) {
            return None;
        }
        let n = base.parts.len();
        if n > self.parts.len() {
            return None;
        }
        let mut i: usize = 0;
        while i < n
            invariant
                i <= n,
                n == base.parts.len(),
                n <= self.parts.len(),
                forall|j: int| 0 <= j < i ==> names(base.parts@)[j] == names(self.parts@)[j],
            decreases n - i,
        {
            if !text::eq(self.parts[i].as_str(), base.parts[i].as_str()) {
                assert(names(base.parts@)[i as int] != names(self.parts@)[i as int]);
                return None;
            }
            i += 1;
        }
        assert(names(base.parts@).is_prefix_of(names(self.parts@))) by {
            assert(names(base.parts@) =~= names(self.parts@).subrange(0, n as int));
        }
        let mut rest: Vec<String> = Vec::new();
        let mut k: usize = n;
        while k < self.parts.len()
            invariant
                n <= k <= self.parts.len(),
                names(rest@) == names(self.parts@).subrange(n as int, k as int),
            decreases self.parts.len() - k,
        {
            rest.push(self.parts[k].clone());
            assert(names(rest@) == names(self.parts@).subrange(n as int, k as int).push(
                self.parts@[k as int]@,
            ));
            k += 1;
        }
        assert(names(self.parts@).subrange(n as int, k as int) == names(self.parts@).skip(
            n as int,
        ));
        Some(rest)
    }
}

proof fn lemma_last_dot_bound(name: Seq<char>)
    ensures
        -1 <= last_dot(name) < name.len(),
    decreases name.len(),
{
    if name.len() > 0 && name.last() != '.' {
        lemma_last_dot_bound(name.drop_last());
    }
}

proof fn lemma_last_dot_of_dotted(name: Seq<char>, ext: Seq<char>)
    requires
        forall|i: int| 0 <= i < ext.len() ==> #[trigger] ext[i] != '.',
    ensures
        last_dot(dotted(name, ext)) == name.len(),
    decreases ext.len(),
{
    if ext.len() == 0 {
        assert(dotted(name, ext) == name.push('.'));
    } else {
        lemma_last_dot_of_dotted(name, ext.drop_last());
        assert(dotted(name, ext).drop_last() == dotted(name, ext.drop_last()));
    }
}

/// After its extension was set to `ext`, a path has the extension `ext` and
/// the stem that it had; after `ext` was added, it has the extension `ext`
/// and its former file name as stem. This holds of a path with a file name
/// and of an extension that is not empty and holds no `.`.
pub proof fn lemma_extension_is_set(p: PathModel, ext: Seq<char>)
    requires
        p.file_name() is Some,
        p.file_name()->0.len() > 0,
        ext.len() > 0,
        forall|i: int| 0 <= i < ext.len() ==> #[trigger] ext[i] != '.',
    ensures
        p.with_extension(ext).extension() == Some(ext),
        p.with_extension(ext).file_stem() == p.file_stem(),
        p.with_extension(ext).parent() == p.parent(),
        p.with_added_extension(ext).extension() == Some(ext),
        p.with_added_extension(ext).file_stem() == p.file_name(),
        p.with_added_extension(ext).parent() == p.parent(),
{
    let n = p.file_name()->0;
    let stem = name_stem(n);
    lemma_last_dot_bound(n);
    assert(stem.len() > 0);
    lemma_last_dot_of_dotted(stem, ext);
    lemma_last_dot_of_dotted(n, ext);
    let a = dotted(stem, ext);
    let b = dotted(n, ext);
    assert(a.len() >= 3 && b.len() >= 3);
    assert(a.take(stem.len() as int) == stem);
    assert(a.skip(stem.len() as int + 1) == ext);
    assert(b.take(n.len() as int) == n);
    assert(b.skip(n.len() as int + 1) == ext);
    assert(p.with_name(a).parts.last() == a);
    assert(p.with_name(b).parts.last() == b);
    assert(p.with_name(a).parts.drop_last() == p.parts.drop_last());
    assert(p.with_name(b).parts.drop_last() == p.parts.drop_last());
}

/// The stem of a file name.
pub fn stem_of(name: &str) -> (r: String)
    ensures
        r@ == name_stem(name@),
{
    let v = text::chars(name);
    match find_last_dot(&v) {
        None => text::string(&v),
        Some(d) => if d == 0 {
            text::string(&v)
        } else {
            text::string(&text::slice(&v, 0, d))
        },
    }
}

/// The extension of a file name.
pub fn ext_of(name: &str) -> (r: Option<String>)
    ensures
        match r {
            Some(e) => name_ext(name@) == Some(e@),
            None => name_ext(name@) is None,
        },
{
    let v = text::chars(name);
    match find_last_dot(&v) {
        None => None,
        Some(d) => if d == 0 {
            None
        } else {
            Some(text::string(&text::slice(&v, d + 1, v.len())))
        },
    }
}

} // verus!
