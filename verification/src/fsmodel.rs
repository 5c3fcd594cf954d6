//! An in-memory model of the slice of the filesystem the installer touches:
//! files with byte contents, directories, and paths the platform refuses to
//! modify. The install operation is verified against this model; a host
//! performs the matching real filesystem calls and reports their outcomes.
//!
//! The model keeps files and directories as flat paths: it does not tie a
//! file to the existence of its parent directory, since the installer always
//! creates the directory before writing.

use vstd::prelude::*;

verus! {

/// The message a refused mutation carries, standing for whatever cause the
/// platform reports.
pub open spec fn denied_message() -> Seq<char> {
    "permission denied"@
}

/// A filesystem model: file contents by path, the set of directories, and
/// the paths on which mutation fails.
pub struct FsState {
    files: Vec<(String, Vec<u8>)>,
    dirs: Vec<String>,
    denied: Vec<String>,
}

impl FsState {
    /// The files, as a sequence of (path, contents) pairs.
    pub closed spec fn files_model(self) -> Seq<(Seq<char>, Seq<u8>)> {
        self.files@.map_values(|e: (String, Vec<u8>)| (e.0@, e.1@))
    }

    /// The directories that exist.
    pub closed spec fn dirs_model(self) -> Seq<Seq<char>> {
        self.dirs@.map_values(|d: String| d@)
    }

    /// The paths on which mutation is refused.
    pub closed spec fn denied_model(self) -> Seq<Seq<char>> {
        self.denied@.map_values(|d: String| d@)
    }

    /// Well-formed: each file path occurs once.
    pub open spec fn wf(self) -> bool {
        forall|i: int, j: int|
            0 <= i < j < self.files_model().len() ==> (#[trigger] self.files_model()[i]).0 != (
            #[trigger] self.files_model()[j]).0
    }

    /// A file exists at `p`.
    pub open spec fn has_file(self, p: Seq<char>) -> bool {
        exists|i: int| 0 <= i < self.files_model().len() && (#[trigger] self.files_model()[i]).0 == p
    }

    /// The contents of the file at `p` (meaningful when `has_file(p)`).
    pub open spec fn file_at(self, p: Seq<char>) -> Seq<u8> {
        let i = choose|i: int|
            0 <= i < self.files_model().len() && (#[trigger] self.files_model()[i]).0 == p;
        self.files_model()[i].1
    }

    /// A directory exists at `p`.
    pub open spec fn has_dir(self, p: Seq<char>) -> bool {
        exists|i: int| 0 <= i < self.dirs_model().len() && self.dirs_model()[i] == p
    }

    /// Mutation at `p` is refused.
    pub open spec fn is_denied_at(self, p: Seq<char>) -> bool {
        exists|i: int| 0 <= i < self.denied_model().len() && self.denied_model()[i] == p
    }

    /// An empty filesystem: no files, no directories, nothing denied.
    pub fn new() -> (r: FsState)
        ensures
            r.wf(),
            r.files_model() == Seq::<(Seq<char>, Seq<u8>)>::empty(),
            r.dirs_model() == Seq::<Seq<char>>::empty(),
            r.denied_model() == Seq::<Seq<char>>::empty(),
    {
        let r = FsState { files: Vec::new(), dirs: Vec::new(), denied: Vec::new() };
        proof {
            assert(r.files_model() =~= Seq::<(Seq<char>, Seq<u8>)>::empty());
            assert(r.dirs_model() =~= Seq::<Seq<char>>::empty());
            assert(r.denied_model() =~= Seq::<Seq<char>>::empty());
        }
        r
    }

    /// Whether a file exists at `path`.
    pub fn file_exists(&self, path: &String) -> (r: bool)
        ensures
            r == self.has_file(path@),
    {
        let n = self.files.len();
        let mut i: usize = 0;
        while i < n
            invariant
                n == self.files.len(),
                i <= n,
                forall|j: int| 0 <= j < i ==> (#[trigger] self.files_model()[j]).0 != path@,
            decreases n - i,
        {
            if self.files[i].0 == *path {
                proof {
                    assert(self.files_model()[i as int].0 == path@);
                }
                return true;
            }
            i += 1;
        }
        false
    }

    /// The contents at `path`, when a file is there.
    pub fn read(&self, path: &String) -> (r: Option<&Vec<u8>>)
        requires
            self.wf(),
        ensures
            r is Some <==> self.has_file(path@),
            r matches Some(v) ==> v@ == self.file_at(path@),
    {
        let n = self.files.len();
        let mut i: usize = 0;
        while i < n
            invariant
                n == self.files.len(),
                i <= n,
                self.wf(),
                forall|j: int| 0 <= j < i ==> (#[trigger] self.files_model()[j]).0 != path@,
            decreases n - i,
        {
            if self.files[i].0 == *path {
                proof {
                    assert(self.files_model()[i as int].0 == path@);
                    let k = choose|k: int|
                        0 <= k < self.files_model().len() && (#[trigger] self.files_model()[k]).0
                            == path@;
                    assert(k == i as int);
                }
                return Some(&self.files[i].1);
            }
            i += 1;
        }
        None
    }

    /// Mark `path` as refusing mutation, to model a platform failure.
    pub fn deny(&mut self, path: &String)
        ensures
            final(self).wf() == old(self).wf(),
            final(self).denied_model() == old(self).denied_model().push(path@),
            final(self).files_model() == old(self).files_model(),
            final(self).dirs_model() == old(self).dirs_model(),
            final(self).is_denied_at(path@),
    {
        self.denied.push(path.clone());
        proof {
            assert(self.denied_model() =~= old(self).denied_model().push(path@));
            assert(self.files_model() =~= old(self).files_model());
            assert(self.dirs_model() =~= old(self).dirs_model());
            assert(self.denied_model()[self.denied_model().len() - 1] == path@);
        }
    }

    fn denied_contains(&self, path: &String) -> (r: bool)
        ensures
            r == self.is_denied_at(path@),
    {
        let n = self.denied.len();
        let mut i: usize = 0;
        while i < n
            invariant
                n == self.denied.len(),
                i <= n,
                forall|j: int| 0 <= j < i ==> #[trigger] self.denied_model()[j] != path@,
            decreases n - i,
        {
            if self.denied[i] == *path {
                proof {
                    assert(self.denied_model()[i as int] == path@);
                }
                return true;
            }
            i += 1;
        }
        false
    }

    /// Create the directory `dir` (with any missing parents, which the model
    /// does not track separately). Fails exactly on a denied path, changing
    /// nothing.
    pub fn create_dir_all(&mut self, dir: &String) -> (r: Result<(), String>)
        ensures
            final(self).wf() == old(self).wf(),
            old(self).is_denied_at(dir@) ==> (r matches Err(m) && m@ == denied_message())
                && *final(self) == *old(self),
            !old(self).is_denied_at(dir@) ==> r is Ok
                && final(self).dirs_model() == old(self).dirs_model().push(dir@)
                && final(self).has_dir(dir@)
                && final(self).files_model() == old(self).files_model()
                && final(self).denied_model() == old(self).denied_model(),
    {
        if self.denied_contains(dir) {
            return Err("permission denied".to_owned());
        }
        self.dirs.push(dir.clone());
        proof {
            assert(self.dirs_model() =~= old(self).dirs_model().push(dir@));
            assert(self.files_model() =~= old(self).files_model());
            assert(self.denied_model() =~= old(self).denied_model());
            assert(self.dirs_model()[self.dirs_model().len() - 1] == dir@);
        }
        Ok(())
    }

    /// Write `bytes` to the file at `path`, creating or replacing it. Fails
    /// exactly on a denied path, changing nothing. Every other file keeps
    /// its contents.
    pub fn write(&mut self, path: &String, bytes: Vec<u8>) -> (r: Result<(), String>)
        requires
            old(self).wf(),
        ensures
            final(self).wf(),
            old(self).is_denied_at(path@) ==> (r matches Err(m) && m@ == denied_message())
                && *final(self) == *old(self),
            !old(self).is_denied_at(path@) ==> r is Ok
                && final(self).has_file(path@)
                && final(self).file_at(path@) == bytes@
                && (forall|q: Seq<char>|
                    q != path@ ==> final(self).has_file(q) == old(self).has_file(q))
                && (forall|q: Seq<char>|
                    q != path@ && old(self).has_file(q)
                        ==> final(self).file_at(q) == old(self).file_at(q))
                && final(self).dirs_model() == old(self).dirs_model()
                && final(self).denied_model() == old(self).denied_model(),
    {
        if self.denied_contains(path) {
            return Err("permission denied".to_owned());
        }
        let n = self.files.len();
        let mut i: usize = 0;
        let mut found: usize = n;
        while i < n
            invariant
                n == self.files.len(),
                i <= n,
                found <= n,
                found == n ==> forall|j: int|
                    0 <= j < i ==> (#[trigger] self.files_model()[j]).0 != path@,
                found < n ==> i == n && self.files_model()[found as int].0 == path@,
            decreases n - i,
        {
            if self.files[i].0 == *path {
                proof {
                    assert(self.files_model()[i as int].0 == path@);
                }
                found = i;
                i = n;
            } else {
                i += 1;
            }
        }
        if found < n {
            proof {
                assert(old(self).files_model()[found as int].0 == path@);
            }
            self.files.remove(found);
            proof {
                assert(self.files_model() =~= old(self).files_model().remove(found as int));
                lemma_model_remove(*old(self), *self, found as int);
                assert(!self.has_file(path@));
            }
        } else {
            proof {
                assert(self.files_model().len() == n);
                if self.has_file(path@) {
                    let k = choose|k: int|
                        0 <= k < self.files_model().len() && (#[trigger] self.files_model()[k]).0
                            == path@;
                    assert(self.files_model()[k].0 != path@);
                    assert(false);
                }
            }
        }
        let ghost mid = *self;
        self.files.push((path.clone(), bytes));
        proof {
            assert(self.files_model() =~= mid.files_model().push((path@, bytes@)));
            assert(self.dirs_model() =~= old(self).dirs_model());
            assert(self.denied_model() =~= old(self).denied_model());
            lemma_model_insert(mid, *self, path@, bytes@);
        }
        Ok(())
    }
}

/// After removing the entry at `idx`, the model sequence is the old one with
/// that index removed.
proof fn lemma_model_remove(pre: FsState, post: FsState, idx: int)
    requires
        0 <= idx < pre.files_model().len(),
        post.files_model() =~= pre.files_model().remove(idx),
        pre.wf(),
    ensures
        post.wf(),
        forall|q: Seq<char>|
            q != pre.files_model()[idx].0 ==> #[trigger] post.has_file(q) == pre.has_file(q),
        forall|q: Seq<char>|
            q != pre.files_model()[idx].0 && pre.has_file(q) ==> #[trigger] post.file_at(q)
                == pre.file_at(q),
        !post.has_file(pre.files_model()[idx].0),
{
    let s = pre.files_model();
    let t = post.files_model();
    let p = s[idx].0;
    assert forall|q: Seq<char>| q != p implies #[trigger] post.has_file(q) == pre.has_file(q) by {
        if pre.has_file(q) {
            let i = choose|i: int| 0 <= i < s.len() && (#[trigger] s[i]).0 == q;
            if i < idx {
                assert(t[i].0 == q);
            } else {
                assert(t[i - 1].0 == q);
            }
        }
        if post.has_file(q) {
            let i = choose|i: int| 0 <= i < t.len() && (#[trigger] t[i]).0 == q;
            if i < idx {
                assert(s[i].0 == q);
            } else {
                assert(s[i + 1].0 == q);
            }
        }
    }
    assert forall|q: Seq<char>| q != p && pre.has_file(q) implies #[trigger] post.file_at(q)
        == pre.file_at(q) by {
        let i = choose|i: int| 0 <= i < s.len() && (#[trigger] s[i]).0 == q;
        if i < idx {
            assert(t[i].0 == q);
        } else {
            assert(t[i - 1].0 == q);
        }
        assert(post.has_file(q));
        let j = choose|j: int| 0 <= j < t.len() && (#[trigger] t[j]).0 == q;
        if j < idx {
            assert(s[j].0 == q);
            assert(j == i);
        } else {
            assert(s[j + 1].0 == q);
            assert(j + 1 == i);
        }
    }
    if post.has_file(p) {
        let j = choose|j: int| 0 <= j < t.len() && (#[trigger] t[j]).0 == p;
        if j < idx {
            assert(s[j].0 == p);
        } else {
            assert(s[j + 1].0 == p);
        }
        assert(false);
    }
}

/// After pushing a fresh entry `(p, v)` onto a model without a file at `p`,
/// the new model has exactly that file in addition.
proof fn lemma_model_insert(pre: FsState, post: FsState, p: Seq<char>, v: Seq<u8>)
    requires
        pre.wf(),
        !pre.has_file(p),
        post.files_model() =~= pre.files_model().push((p, v)),
    ensures
        post.wf(),
        post.has_file(p),
        post.file_at(p) == v,
        forall|q: Seq<char>| q != p ==> #[trigger] post.has_file(q) == pre.has_file(q),
        forall|q: Seq<char>|
            q != p && pre.has_file(q) ==> #[trigger] post.file_at(q) == pre.file_at(q),
{
    let s = pre.files_model();
    let t = post.files_model();
    let last = s.len() as int;
    assert(t[last].0 == p);
    assert(post.has_file(p));
    assert forall|i: int, j: int| 0 <= i < j < t.len() implies (#[trigger] t[i]).0 != (
    #[trigger] t[j]).0 by {
        if j < last {
            assert(t[i] == s[i] && t[j] == s[j]);
        } else {
            assert(t[i] == s[i]);
            if s[i].0 == p {
                assert(pre.has_file(p));
            }
        }
    }
    let k = choose|k: int| 0 <= k < t.len() && (#[trigger] t[k]).0 == p;
    if k < last {
        assert(s[k].0 == p);
        assert(pre.has_file(p));
    }
    assert(post.file_at(p) == v);
    assert forall|q: Seq<char>| q != p implies #[trigger] post.has_file(q) == pre.has_file(q) by {
        if pre.has_file(q) {
            let i = choose|i: int| 0 <= i < s.len() && (#[trigger] s[i]).0 == q;
            assert(t[i].0 == q);
        }
        if post.has_file(q) {
            let i = choose|i: int| 0 <= i < t.len() && (#[trigger] t[i]).0 == q;
            assert(i < last);
            assert(s[i].0 == q);
        }
    }
    assert forall|q: Seq<char>| q != p && pre.has_file(q) implies #[trigger] post.file_at(q)
        == pre.file_at(q) by {
        let i = choose|i: int| 0 <= i < s.len() && (#[trigger] s[i]).0 == q;
        assert(t[i].0 == q);
        assert(post.has_file(q));
        let j = choose|j: int| 0 <= j < t.len() && (#[trigger] t[j]).0 == q;
        assert(j < last);
        assert(s[j].0 == q);
        assert(i == j);
    }
}

} // verus!
