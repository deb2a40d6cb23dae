//! The ignore filter and the breadth-first walk over a directory tree.
//!
//! The caller owns the file system: it takes paths from a [`WorkQueue`],
//! tells [`visit`] what kind of node each one is, and acts on the answer
//! (listing a directory's children into the queue on `Scan`, handing a file
//! to the processor on `Process`).
use vstd::prelude::*;
use std::collections::VecDeque;
use crate::config::strings_view;
use crate::error::SpdxError;
use crate::pattern::{pattern_accepted, pattern_found, regex_search};

verus! {

/// Whether some pattern of `patterns` matches somewhere in `text`.
pub open spec fn matches_any(patterns: Seq<Seq<char>>, text: Seq<char>) -> bool {
    exists|i: int| 0 <= i < patterns.len() && pattern_found(#[trigger] patterns[i], text)
}

/// A compiled set of ignore patterns.
pub struct IgnoreFilter {
    patterns: Vec<String>,
}

impl View for IgnoreFilter {
    type V = Seq<Seq<char>>;

    closed spec fn view(&self) -> Seq<Seq<char>> {
        strings_view(self.patterns@)
    }
}

impl IgnoreFilter {
    /// Every pattern of the filter is one the regex engine accepts.
    pub open spec fn wf(&self) -> bool {
        forall|i: int| 0 <= i < self@.len() ==> pattern_accepted(#[trigger] self@[i])
    }

    /// Compiles the ignore patterns; fails if any of them is not a valid
    /// regular expression.
    pub fn new(patterns: &Vec<String>) -> (r: Result<IgnoreFilter, SpdxError>)
        ensures
            r is Ok <==> forall|i: int|
                0 <= i < patterns@.len() ==> pattern_accepted(#[trigger] patterns@[i]@),
            r matches Ok(f) ==> f.wf() && f@ == strings_view(patterns@),
            r matches Err(e) ==> e is ConfigError,
    {
        let mut kept: Vec<String> = Vec::new();
        let mut i: usize = 0;
        while i < patterns.len()
            invariant
                i <= patterns@.len(),
                kept@.len() == i,
                forall|j: int| 0 <= j < i ==> kept@[j]@ == patterns@[j]@,
                forall|j: int| 0 <= j < i ==> pattern_accepted(#[trigger] patterns@[j]@),
            decreases patterns@.len() - i,
        {
            if regex_search(patterns[i].as_str(), "").is_none() {
                let mut msg = String::from_str("invalid ignore pattern: ");
                msg.append(patterns[i].as_str());
                return Err(SpdxError::ConfigError(msg));
            }
            kept.push(patterns[i].clone());
            i = i + 1;
        }
        let f = IgnoreFilter { patterns: kept };
        assert(f@ =~= strings_view(patterns@));
        Ok(f)
    }

    /// Whether any pattern matches anywhere in `path`.
    pub fn is_match(&self, path: &str) -> (r: bool)
        requires
            self.wf(),
        ensures
            r == matches_any(self@, path@),
    {
        let mut i: usize = 0;
        while i < self.patterns.len()
            invariant
                self.wf(),
                i <= self@.len(),
                self@.len() == self.patterns@.len(),
                forall|j: int| 0 <= j < i ==> !pattern_found(#[trigger] self@[j], path@),
            decreases self@.len() - i,
        {
            assert(self@[i as int] == self.patterns@[i as int]@);
            match regex_search(self.patterns[i].as_str(), path) {
                Some(true) => {
                    return true;
                },
                _ => {},
            }
            i = i + 1;
        }
        false
    }
}

/// What a path turned out to be on disk.
#[derive(Clone, Copy, Debug, PartialEq, Eq, Structural)]
pub enum NodeKind {
    Directory,
    File,
    /// Neither a directory nor a regular file.
    Other,
}

/// What the walk does with a path.
#[derive(Clone, Copy, Debug, PartialEq, Eq, Structural)]
pub enum Visit {
    /// Matched by an ignore pattern: not descended into, not processed.
    Ignore,
    /// A directory whose children join the queue.
    Scan,
    /// A file to stamp.
    Process,
    /// Nothing to do.
    Skip,
}

/// The walk's decision for a node of kind `kind` at `path`.
pub open spec fn visit_of(patterns: Seq<Seq<char>>, kind: NodeKind, path: Seq<char>) -> Visit {
    match kind {
        NodeKind::Other => Visit::Skip,
        NodeKind::Directory => if matches_any(patterns, path) {
            Visit::Ignore
        } else {
            Visit::Scan
        },
        NodeKind::File => if matches_any(patterns, path) {
            Visit::Ignore
        } else {
            Visit::Process
        },
    }
}

/// Decides what to do with a node met during the walk.
pub fn visit(filter: &IgnoreFilter, kind: NodeKind, path: &str) -> (r: Visit)
    requires
        filter.wf(),
    ensures
        r == visit_of(filter@, kind, path@),
{
    match kind {
        NodeKind::Other => Visit::Skip,
        NodeKind::Directory => if filter.is_match(path) {
            Visit::Ignore
        } else {
            Visit::Scan
        },
        NodeKind::File => if filter.is_match(path) {
            Visit::Ignore
        } else {
            Visit::Process
        },
    }
}

/// A path that an ignore pattern matches is never descended into when it is
/// a directory and never processed when it is a file.
pub proof fn lemma_ignored_paths_pruned(patterns: Seq<Seq<char>>, path: Seq<char>)
    requires
        matches_any(patterns, path),
    ensures
        visit_of(patterns, NodeKind::Directory, path) == Visit::Ignore,
        visit_of(patterns, NodeKind::File, path) == Visit::Ignore,
        forall|k: NodeKind| visit_of(patterns, k, path) != Visit::Scan,
        forall|k: NodeKind| visit_of(patterns, k, path) != Visit::Process,
{
}

/// The first-in, first-out queue of paths still to visit.
pub struct WorkQueue {
    items: VecDeque<String>,
}

impl View for WorkQueue {
    type V = Seq<Seq<char>>;

    closed spec fn view(&self) -> Seq<Seq<char>> {
        strings_view(self.items@)
    }
}

impl WorkQueue {
    /// A queue seeded with the starting directory.
    pub fn new(root: String) -> (r: WorkQueue)
        ensures
            r@ == seq![root@],
    {
        let mut items: VecDeque<String> = VecDeque::new();
        items.push_back(root);
        let r = WorkQueue { items };
        assert(r@ =~= seq![root@]);
        r
    }

    /// Whether no path is left.
    pub fn is_empty(&self) -> (r: bool)
        ensures
            r == (self@.len() == 0),
    {
        self.items.len() == 0
    }

    /// Adds a path at the back.
    pub fn push_back(&mut self, path: String)
        ensures
            final(self)@ == old(self)@.push(path@),
    {
        self.items.push_back(path);
        assert(final(self)@ =~= old(self)@.push(path@));
    }

    /// Takes the path at the front, if any.
    pub fn pop_front(&mut self) -> (r: Option<String>)
        ensures
            old(self)@.len() == 0 ==> r is None && final(self)@ == old(self)@,
            old(self)@.len() > 0 ==> (r matches Some(p) && p@ == old(self)@[0]),
            old(self)@.len() > 0 ==> final(self)@ == old(self)@.drop_first(),
    {
        let r = self.items.pop_front();
        assert(final(self)@ =~= if old(self)@.len() == 0 {
            old(self)@
        } else {
            old(self)@.drop_first()
        });
        r
    }
}

} // verus!
