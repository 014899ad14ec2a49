//! The directory to scan and the selection of the files found in it.
//!
//! Walking the tree is the caller's part: it hands over one [`WalkEntry`]
//! per entry found, and the selection below is made on them.

use vstd::prelude::*;
use crate::errors::DirDoesNotExist;

verus! {

/// A directory that was found to exist.
#[derive(Debug, Clone, PartialEq, Eq)]
pub struct Dir {
    dir: String,
}

/// One entry found while walking a directory tree.
#[derive(Debug, Clone, PartialEq, Eq)]
pub struct WalkEntry {
    /// The entry's full path.
    pub path: String,
    /// The last component of the path.
    pub file_name: String,
    /// The entry is a regular file.
    pub is_file: bool,
    /// The entry is a symlink.
    pub is_symlink: bool,
}

/// Files and symlinks are kept; directories are not.
pub open spec fn is_file_like(e: WalkEntry) -> bool {
    e.is_file || e.is_symlink
}

/// The paths of the entries of `s` that satisfy `keep`, in order.
pub open spec fn paths_where(s: Seq<WalkEntry>, keep: spec_fn(WalkEntry) -> bool) -> Seq<Seq<char>>
    decreases s.len(),
{
    if s.len() == 0 {
        Seq::empty()
    } else {
        let rest = paths_where(s.drop_last(), keep);
        if keep(s.last()) {
            rest.push(s.last().path@)
        } else {
            rest
        }
    }
}

/// Entries that are files or symlinks named `name`.
pub open spec fn is_sls_file(e: WalkEntry, name: Seq<char>) -> bool {
    is_file_like(e) && e.file_name@ == name
}

pub open spec fn views(v: Seq<String>) -> Seq<Seq<char>> {
    v.map_values(|s: String| s@)
}

/// Paths handed out one at a time.
#[derive(Debug)]
pub struct DirFilesIter {
    files: Vec<String>,
    pos: usize,
}

/// Paths of symlink-specification files handed out one at a time.
#[derive(Debug)]
pub struct DirSlsFilesIter {
    files: Vec<String>,
    pos: usize,
}

impl DirFilesIter {
    /// The paths not handed out yet.
    pub closed spec fn remaining(&self) -> Seq<Seq<char>> {
        views(self.files@).subrange(self.pos as int, self.files@.len() as int)
    }

    pub closed spec fn wf(&self) -> bool {
        self.pos <= self.files@.len()
    }

    /// The next path, if any is left.
    pub fn next(&mut self) -> (r: Option<String>)
        requires
            old(self).wf(),
        ensures
            final(self).wf(),
            old(self).remaining().len() == 0 ==> r is None && final(self).remaining() == old(self).remaining(),
            old(self).remaining().len() > 0 ==> r is Some && r->Some_0@ == old(self).remaining()[0]
                && final(self).remaining() == old(self).remaining().drop_first(),
    {
        if self.pos < self.files.len() {
            let s = self.files[self.pos].clone();
            self.pos = self.pos + 1;
            proof {
                assert(final(self).remaining() =~= old(self).remaining().drop_first());
            }
            Some(s)
        } else {
            None
        }
    }
}

impl DirSlsFilesIter {
    /// The paths not handed out yet.
    pub closed spec fn remaining(&self) -> Seq<Seq<char>> {
        views(self.files@).subrange(self.pos as int, self.files@.len() as int)
    }

    pub closed spec fn wf(&self) -> bool {
        self.pos <= self.files@.len()
    }

    /// The next path, if any is left.
    pub fn next(&mut self) -> (r: Option<String>)
        requires
            old(self).wf(),
        ensures
            final(self).wf(),
            old(self).remaining().len() == 0 ==> r is None && final(self).remaining() == old(self).remaining(),
            old(self).remaining().len() > 0 ==> r is Some && r->Some_0@ == old(self).remaining()[0]
                && final(self).remaining() == old(self).remaining().drop_first(),
    {
        if self.pos < self.files.len() {
            let s = self.files[self.pos].clone();
            self.pos = self.pos + 1;
            proof {
                assert(final(self).remaining() =~= old(self).remaining().drop_first());
            }
            Some(s)
        } else {
            None
        }
    }
}

/// The paths of the entries that are files or symlinks and, when `name` is
/// given, whose file name is `name`.
fn select(entries: &Vec<WalkEntry>, name: Option<&str>) -> (r: Vec<String>)
    ensures
        views(r@) == match name {
            None => paths_where(entries@, |e: WalkEntry| is_file_like(e)),
            Some(n) => paths_where(entries@, |e: WalkEntry| is_sls_file(e, n@)),
        },
{
    let ghost keep = match name {
        None => |e: WalkEntry| is_file_like(e),
        Some(n) => |e: WalkEntry| is_sls_file(e, n@),
    };
    let mut r: Vec<String> = Vec::new();
    let mut i: usize = 0;
    while i < entries.len()
        invariant
            i <= entries@.len(),
            keep == match name {
                None => |e: WalkEntry| is_file_like(e),
                Some(n) => |e: WalkEntry| is_sls_file(e, n@),
            },
            views(r@) == paths_where(entries@.subrange(0, i as int), keep),
        decreases entries@.len() - i,
    {
        let e = &entries[i];
        let named = match name {
            None => true,
            Some(n) => {
                let n_owned = n.to_string();
                e.file_name == n_owned
            },
        };
        proof {
            let s = entries@.subrange(0, i + 1);
            assert(s.drop_last() =~= entries@.subrange(0, i as int));
            assert(s.last() == entries@[i as int]);
            match name {
                None => assert(keep(entries@[i as int]) == is_file_like(entries@[i as int])),
                Some(n) => assert(keep(entries@[i as int]) == is_sls_file(entries@[i as int], n@)),
            }
            assert(keep(entries@[i as int]) == ((e.is_file || e.is_symlink) && named));
        }
        if (e.is_file || e.is_symlink) && named {
            let ghost before = r@;
            r.push(e.path.clone());
            assert(r@.drop_last() =~= before);
            assert(views(r@) =~= views(before).push(r@.last()@));
        }
        i = i + 1;
    }
    assert(entries@.subrange(0, entries@.len() as int) =~= entries@);
    r
}

impl Dir {
    pub closed spec fn path(&self) -> Seq<char> {
        self.dir@
    }

    /// A `Dir` for `dir` when the check for a directory at `dir` answered
    /// `is_dir`; else the error that names `dir`.
    pub fn from_check(dir: String, is_dir: bool) -> (r: Result<Dir, DirDoesNotExist>)
        ensures
            is_dir ==> r is Ok && r->Ok_0.path() == dir@,
            !is_dir ==> r is Err && r->Err_0.dir == dir,
    {
        if !is_dir {
            return Err(DirDoesNotExist::new(dir));
        }
        Ok(Dir { dir })
    }

    /// A `Dir` for `dir` if a directory stands there, else the error that
    /// names `dir`.
    pub fn build(dir: String) -> (r: Result<Dir, DirDoesNotExist>)
        ensures
            match r {
                Ok(d) => d.path() == dir@,
                Err(e) => e.dir == dir,
            },
    {
        let is_dir = path_is_dir(dir.as_str());
        Dir::from_check(dir, is_dir)
    }

    pub fn as_str(&self) -> (r: &str)
        ensures
            r@ == self.path(),
    {
        self.dir.as_str()
    }

    /// The files and symlinks among `entries`, found by walking this directory.
    pub fn iter_on_files(&self, entries: &Vec<WalkEntry>) -> (r: DirFilesIter)
        ensures
            r.wf(),
            r.remaining() == paths_where(entries@, |e: WalkEntry| is_file_like(e)),
    {
        let files = select(entries, None);
        let r = DirFilesIter { files, pos: 0 };
        assert(r.remaining() =~= views(r.files@));
        r
    }

    /// The files and symlinks among `entries` whose file name is `sls_filename`.
    pub fn iter_on_sls_files(&self, entries: &Vec<WalkEntry>, sls_filename: &str) -> (r: DirSlsFilesIter)
        ensures
            r.wf(),
            r.remaining() == paths_where(entries@, |e: WalkEntry| is_sls_file(e, sls_filename@)),
    {
        let files = select(entries, Some(sls_filename));
        let r = DirSlsFilesIter { files, pos: 0 };
        assert(r.remaining() =~= views(r.files@));
        r
    }
}

/// Relies on `std::path::Path::is_dir`: whether a directory stands at `p`.
/// The answer depends on the filesystem.
#[verifier::external_body]
fn path_is_dir(p: &str) -> (r: bool) {
    std::path::Path::new(p).is_dir()
}

} // verus!
