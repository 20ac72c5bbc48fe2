//! A snapshot of the filesystem facts the pipeline reasons about.
//!
//! The verified logic never touches the disk.  The caller lists, as plain
//! values, the directories that exist and the file names each one holds;
//! every existence question is answered against that snapshot.  A directory
//! absent from the snapshot does not exist as far as the pipeline is
//! concerned.

use vstd::prelude::*;
use crate::path::DirPath;
use crate::text::contains_string;

verus! {

/// The value of a snapshot: for each directory, its path and its file names.
pub type FsFacts = Seq<(Seq<Seq<char>>, Seq<Seq<char>>)>;

/// One existing directory and the names of the files it holds.
pub struct DirListing {
    pub path: DirPath,
    pub files: Vec<String>,
}

impl View for DirListing {
    type V = (Seq<Seq<char>>, Seq<Seq<char>>);

    open spec fn view(&self) -> (Seq<Seq<char>>, Seq<Seq<char>>) {
        (self.path@, self.files.deep_view())
    }
}

impl DeepView for DirListing {
    type V = (Seq<Seq<char>>, Seq<Seq<char>>);

    open spec fn deep_view(&self) -> (Seq<Seq<char>>, Seq<Seq<char>>) {
        self.view()
    }
}

/// The directories that exist, each with the files it holds.
pub struct FsSnapshot {
    pub dirs: Vec<DirListing>,
}

impl View for FsSnapshot {
    type V = FsFacts;

    open spec fn view(&self) -> FsFacts {
        self.dirs.deep_view()
    }
}

/// Whether the snapshot lists a directory at path `p`.
pub open spec fn spec_dir_exists(fs: FsFacts, p: Seq<Seq<char>>) -> bool {
    exists|i: int| 0 <= i < fs.len() && (#[trigger] fs[i]).0 == p
}

/// Whether the snapshot lists a directory at `p` holding a file `name`.
pub open spec fn spec_dir_has_file(fs: FsFacts, p: Seq<Seq<char>>, name: Seq<char>) -> bool {
    exists|i: int| 0 <= i < fs.len() && (#[trigger] fs[i]).0 == p && fs[i].1.contains(name)
}

impl FsSnapshot {
    /// A snapshot with no directories at all.
    pub fn empty() -> (r: FsSnapshot)
        ensures
            r@ == Seq::<(Seq<Seq<char>>, Seq<Seq<char>>)>::empty(),
    {
        let s = FsSnapshot { dirs: Vec::new() };
        proof {
            assert(s@ =~= Seq::<(Seq<Seq<char>>, Seq<Seq<char>>)>::empty());
        }
        s
    }

    /// Record one existing directory and the file names it holds.
    pub fn add_dir(&mut self, path: DirPath, files: Vec<String>)
        ensures
            final(self)@ == old(self)@.push((path@, files.deep_view())),
    {
        let ghost expected = self@.push((path@, files.deep_view()));
        self.dirs.push(DirListing { path, files });
        proof {
            assert(self@ =~= expected);
        }
    }

    /// Whether a directory exists at path `p`.
    pub fn dir_exists(&self, p: &DirPath) -> (r: bool)
        ensures
            r == spec_dir_exists(self@, p@),
    {
        let mut i: usize = 0;
        while i < self.dirs.len()
            invariant
                i <= self.dirs.len(),
                self@.len() == self.dirs.len(),
                forall|k: int| 0 <= k < i ==> (#[trigger] self@[k]).0 != p@,
            decreases self.dirs.len() - i,
        {
            proof {
                assert(self@[i as int] == self.dirs@[i as int].deep_view());
            }
            if self.dirs[i].path.path_eq(p) {
                return true;
            }
            i = i + 1;
        }
        false
    }

    /// Whether a directory at `p` holds a file named `name`.
    pub fn dir_has_file(&self, p: &DirPath, name: &str) -> (r: bool)
        ensures
            r == spec_dir_has_file(self@, p@, name@),
    {
        let mut i: usize = 0;
        while i < self.dirs.len()
            invariant
                i <= self.dirs.len(),
                self@.len() == self.dirs.len(),
                forall|k: int|
                    0 <= k < i ==> !((#[trigger] self@[k]).0 == p@ && self@[k].1.contains(name@)),
            decreases self.dirs.len() - i,
        {
            proof {
                assert(self@[i as int] == self.dirs@[i as int].deep_view());
            }
            if self.dirs[i].path.path_eq(p) {
                if contains_string(&self.dirs[i].files, name) {
                    return true;
                }
            }
            i = i + 1;
        }
        false
    }
}

} // verus!
