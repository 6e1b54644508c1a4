//! Paths as the resolution rules see them.
//!
//! A resolved path is the directory that the host system answered with,
//! followed by the segments that the rules nested below it. The rules never
//! look inside the host's answer: they only append segments, so a path keeps
//! the two apart and leaves the joining to whoever hands the path to the
//! file system.

use vstd::prelude::*;

verus! {

/// The mathematical value of a path: the host's answer and the segments
/// appended to it, outermost first.
pub struct PathModel {
    pub base: Seq<char>,
    pub segments: Seq<Seq<char>>,
}

impl PathModel {
    /// The path that the host answered with `base`, nothing appended.
    pub open spec fn root(base: Seq<char>) -> PathModel {
        PathModel { base, segments: Seq::empty() }
    }

    /// This path with `segment` nested below it.
    pub open spec fn push(self, segment: Seq<char>) -> PathModel {
        PathModel { base: self.base, segments: self.segments.push(segment) }
    }
}

/// A single filesystem path. Nothing says that it exists.
#[derive(Debug)]
pub struct ResolvedPath {
    base: String,
    segments: Vec<String>,
}

impl View for ResolvedPath {
    type V = PathModel;

    closed spec fn view(&self) -> PathModel {
        PathModel { base: self.base@, segments: self.segments.deep_view() }
    }
}

impl DeepView for ResolvedPath {
    type V = PathModel;

    open spec fn deep_view(&self) -> PathModel {
        self@
    }
}

impl ResolvedPath {
    /// The path that the host answered with `base`.
    pub fn new(base: &str) -> (path: ResolvedPath)
        ensures
            path@ == PathModel::root(base@),
    {
        let path = ResolvedPath { base: base.to_owned(), segments: Vec::new() };
        assert(path.segments.deep_view() =~= Seq::<Seq<char>>::empty());
        path
    }

    /// Nests `segment` below this path.
    pub fn push(&mut self, segment: &str)
        ensures
            final(self)@ == old(self)@.push(segment@),
    {
        let ghost before = self.segments.deep_view();
        self.segments.push(segment.to_owned());
        assert(self.segments.deep_view() =~= before.push(segment@));
    }

    /// The host's answer that this path starts from.
    pub fn base(&self) -> (base: &str)
        ensures
            base@ == self@.base,
    {
        self.base.as_str()
    }

    /// The segments appended to the host's answer, outermost first.
    pub fn segments(&self) -> (segments: &Vec<String>)
        ensures
            segments.deep_view() == self@.segments,
    {
        &self.segments
    }
}

impl Clone for ResolvedPath {
    fn clone(&self) -> (copy: ResolvedPath)
        ensures
            copy@ == self@,
    {
        let mut segments: Vec<String> = Vec::new();
        let mut i: usize = 0;
        while i < self.segments.len()
            invariant
                i <= self.segments.len(),
                segments.len() == i,
                forall|k: int| 0 <= k < i ==> segments[k]@ == self.segments[k]@,
            decreases self.segments.len() - i,
        {
            segments.push(self.segments[i].clone());
            i += 1;
        }
        assert(segments.deep_view() =~= self.segments.deep_view());
        ResolvedPath { base: self.base.clone(), segments }
    }
}

impl PartialEq for ResolvedPath {
    fn eq(&self, other: &ResolvedPath) -> (equal: bool) {
        if self.base != other.base || self.segments.len() != other.segments.len() {
            assert(self@ != other@) by {
                assert(self.segments.deep_view().len() == self.segments.len());
                assert(other.segments.deep_view().len() == other.segments.len());
            }
            return false;
        }
        let mut i: usize = 0;
        while i < self.segments.len()
            invariant
                i <= self.segments.len(),
                self.segments.len() == other.segments.len(),
                forall|k: int| 0 <= k < i ==> self.segments[k]@ == other.segments[k]@,
            decreases self.segments.len() - i,
        {
            if self.segments[i] != other.segments[i] {
                assert(self.segments.deep_view()[i as int] != other.segments.deep_view()[i as int]);
                return false;
            }
            i += 1;
        }
        assert(self.segments.deep_view() =~= other.segments.deep_view());
        true
    }
}

impl vstd::std_specs::cmp::PartialEqSpecImpl for ResolvedPath {
    open spec fn obeys_eq_spec() -> bool {
        true
    }

    open spec fn eq_spec(&self, other: &ResolvedPath) -> bool {
        self@ == other@
    }
}

} // verus!
