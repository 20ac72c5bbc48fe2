//! A pure model of filesystem paths.
//!
//! A path is its sequence of segments, root first.  An absolute Unix path
//! carries an empty first segment, so that rendering the segments joined by
//! `/` reproduces the textual form (`["", "home", "x"]` renders as
//! `/home/x`); a Windows path starts with its drive segment.  All path
//! computation in the crate happens on this model; only the unverified shell
//! around the crate converts between it and the platform's path type.

use vstd::prelude::*;
use vstd::string::{StrSliceExecFns, StringExecFns};
use crate::text::str_eq;

verus! {

/// A filesystem path, modeled as its sequence of segments.
#[derive(Debug, PartialEq, Eq)]
pub struct DirPath {
    pub segments: Vec<String>,
}

impl View for DirPath {
    type V = Seq<Seq<char>>;

    open spec fn view(&self) -> Seq<Seq<char>> {
        self.segments.deep_view()
    }
}

impl DeepView for DirPath {
    type V = Seq<Seq<char>>;

    open spec fn deep_view(&self) -> Seq<Seq<char>> {
        self.view()
    }
}

/// Copy a vector of strings; the copy has the same character sequences.
pub fn clone_string_vec(v: &Vec<String>) -> (r: Vec<String>)
    ensures
        r@ == v@,
        r.deep_view() == v.deep_view(),
{
    let mut out: Vec<String> = Vec::new();
    let mut i: usize = 0;
    while i < v.len()
        invariant
            i <= v.len(),
            out@ == v@.take(i as int),
        decreases v.len() - i,
    {
        out.push(v[i].clone());
        proof {
            assert(out@ =~= v@.take(i + 1));
        }
        i = i + 1;
    }
    proof {
        assert(v@.take(v@.len() as int) =~= v@);
        assert(out.deep_view() =~= v.deep_view());
    }
    out
}

impl Clone for DirPath {
    /// The copy has the same segments.
    fn clone(&self) -> (r: DirPath)
        ensures
            r@ == self@,
    {
        DirPath { segments: clone_string_vec(&self.segments) }
    }
}

impl DirPath {
    /// The empty path, to be extended segment by segment.
    pub fn empty() -> (r: DirPath)
        ensures
            r@ == Seq::<Seq<char>>::empty(),
    {
        let p = DirPath { segments: Vec::new() };
        proof {
            assert(p@ =~= Seq::<Seq<char>>::empty());
        }
        p
    }

    /// A path made of the given segments.
    pub fn from_segments(segments: Vec<String>) -> (r: DirPath)
        ensures
            r@ == segments.deep_view(),
    {
        DirPath { segments }
    }

    /// The number of segments.
    pub fn depth(&self) -> (r: usize)
        ensures
            r == self@.len(),
    {
        self.segments.len()
    }

    /// Append one segment in place.
    pub fn push_segment(&mut self, segment: &str)
        ensures
            final(self)@ == old(self)@.push(segment@),
    {
        self.segments.push(String::from_str(segment));
        proof {
            assert(self@ =~= old(self)@.push(segment@));
        }
    }

    /// Drop the last segment in place, moving to the parent directory.
    pub fn pop_segment(&mut self)
        requires
            old(self)@.len() > 0,
        ensures
            final(self)@ == old(self)@.drop_last(),
    {
        self.segments.pop();
        proof {
            assert(self@ =~= old(self)@.drop_last());
        }
    }

    /// The path extended by one more segment.
    pub fn join(&self, segment: &str) -> (r: DirPath)
        ensures
            r@ == self@.push(segment@),
    {
        let mut r = self.clone();
        r.push_segment(segment);
        r
    }

    /// This path extended by every segment of a relative path.
    pub fn concat_path(&self, relative: &DirPath) -> (r: DirPath)
        ensures
            r@ == self@ + relative@,
    {
        let mut r = self.clone();
        proof {
            assert(self@ + relative@.take(0) =~= self@);
        }
        let mut i: usize = 0;
        while i < relative.segments.len()
            invariant
                i <= relative.segments.len(),
                relative@.len() == relative.segments.len(),
                r@ == self@ + relative@.take(i as int),
            decreases relative.segments.len() - i,
        {
            proof {
                assert(relative@[i as int] == relative.segments@[i as int].deep_view());
            }
            r.push_segment(relative.segments[i].as_str());
            proof {
                assert(r@ =~= self@ + relative@.take(i + 1));
            }
            i = i + 1;
        }
        proof {
            assert(self@ + relative@.take(relative@.len() as int) =~= self@ + relative@);
        }
        r
    }

    /// The path's last segment, when there is one.
    pub fn last_segment(&self) -> (r: Option<&String>)
        ensures
            match r {
                Some(s) => self@.len() > 0 && s@ == self@.last(),
                None => self@.len() == 0,
            },
    {
        if self.segments.len() == 0 {
            None
        } else {
            let s = &self.segments[self.segments.len() - 1];
            proof {
                assert(self@.last() == self.segments@[self.segments@.len() - 1].deep_view());
            }
            Some(s)
        }
    }

    /// Compare two paths segment by segment.
    pub fn path_eq(&self, other: &DirPath) -> (r: bool)
        ensures
            r == (self@ == other@),
    {
        if self.segments.len() != other.segments.len() {
            return false;
        }
        let mut i: usize = 0;
        while i < self.segments.len()
            invariant
                self.segments.len() == other.segments.len(),
                self@.len() == self.segments.len(),
                other@.len() == other.segments.len(),
                i <= self.segments.len(),
                forall|k: int| 0 <= k < i ==> self@[k] == other@[k],
            decreases self.segments.len() - i,
        {
            if !str_eq(self.segments[i].as_str(), other.segments[i].as_str()) {
                proof {
                    assert(self@[i as int] == self.segments@[i as int].deep_view());
                    assert(other@[i as int] == other.segments@[i as int].deep_view());
                }
                return false;
            }
            i = i + 1;
        }
        proof {
            assert(self@ =~= other@);
        }
        true
    }

    /// The textual form of the path: its segments joined by `/`.
    pub fn render(&self) -> (r: String)
        ensures
            r@ == spec_render(self@),
    {
        let mut out = String::new();
        let mut i: usize = 0;
        while i < self.segments.len()
            invariant
                self@.len() == self.segments.len(),
                i <= self.segments.len(),
                out@ == spec_render(self@.take(i as int)),
            decreases self.segments.len() - i,
        {
            if i > 0 {
                out.append("/");
            }
            out.append(self.segments[i].as_str());
            proof {
                assert(self@[i as int] == self.segments@[i as int].deep_view());
                assert(self@.take(i + 1).drop_last() =~= self@.take(i as int));
                assert(self@.take(i + 1).last() == self@[i as int]);
            }
            i = i + 1;
        }
        proof {
            assert(self@.take(self@.len() as int) =~= self@);
        }
        out
    }
}

/// The textual form of a path: segments joined by `/`.
pub open spec fn spec_render(p: Seq<Seq<char>>) -> Seq<char>
    decreases p.len(),
{
    if p.len() == 0 {
        Seq::empty()
    } else if p.len() == 1 {
        p[0]
    } else {
        spec_render(p.drop_last()) + "/"@ + p.last()
    }
}

} // verus!
