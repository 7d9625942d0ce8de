use vstd::prelude::*;

use crate::paths::{ancestor, parent_dir};

verus! {

/// Where an upward search for a repository root stands.
pub struct SearchView {
    /// The path the search started from.
    pub start: Seq<char>,
    /// How many directories the search may look at in all.
    pub depth_max: nat,
    /// How many levels above `start` the current candidate is.
    pub level: nat,
    /// The directory to look at next.
    pub candidate: Seq<char>,
}

/// An upward search for the nearest repository root, starting at a path
/// and looking at no more than a given number of directories. The caller
/// checks each candidate in turn, and moves on with `ascend` when it is not
/// a root or cannot be opened.
pub struct RootSearch {
    candidate: String,
    depth_left: u32,
    start: Ghost<Seq<char>>,
    level: Ghost<nat>,
}

impl View for RootSearch {
    type V = SearchView;

    closed spec fn view(&self) -> SearchView {
        SearchView {
            start: self.start@,
            depth_max: self.level@ + self.depth_left as nat,
            level: self.level@,
            candidate: self.candidate@,
        }
    }
}

impl RootSearch {
    #[verifier::type_invariant]
    spec fn inv(&self) -> bool {
        &&& self.depth_left >= 1
        &&& ancestor(self.start@, self.level@) == Some(self.candidate@)
    }

    /// A search from `path` that may look at up to `depth_max` directories:
    /// `path` itself first. With a budget of zero there is nothing to search.
    pub fn new(path: &str, depth_max: u32) -> (r: Option<RootSearch>)
        ensures
            r is None <==> depth_max == 0,
            r matches Some(s) ==> s@ == (SearchView {
                start: path@,
                depth_max: depth_max as nat,
                level: 0,
                candidate: path@,
            }),
    {
        if depth_max == 0 {
            None
        } else {
            Some(
                RootSearch {
                    candidate: String::from_str(path),
                    depth_left: depth_max,
                    start: Ghost(path@),
                    level: Ghost(0),
                },
            )
        }
    }

    /// The directory to check next.
    pub fn candidate(&self) -> (r: &str)
        ensures
            r@ == self@.candidate,
    {
        self.candidate.as_str()
    }

    /// Moves on to the parent of the current candidate. The search ends when
    /// the budget is spent or the top of the tree is reached.
    pub fn ascend(self) -> (r: Option<RootSearch>)
        ensures
            r is None <==> (self@.level + 1 >= self@.depth_max || ancestor(
                self@.start,
                self@.level + 1,
            ) is None),
            r matches Some(s) ==> s@.start == self@.start && s@.depth_max == self@.depth_max
                && s@.level == self@.level + 1 && ancestor(self@.start, s@.level) == Some(
                s@.candidate,
            ),
    {
        proof {
            use_type_invariant(&self);
        }
        if self.depth_left <= 1 {
            return None;
        }
        match parent_dir(self.candidate.as_str()) {
            Some(parent) => Some(
                RootSearch {
                    candidate: parent,
                    depth_left: self.depth_left - 1,
                    start: self.start,
                    level: Ghost(self.level@ + 1),
                },
            ),
            None => None,
        }
    }
}

} // verus!
