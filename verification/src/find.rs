//! The upward search for a named file.
//!
//! The search alternates between asking the file system about a candidate
//! path and deciding what to do with the answer. The decisions live here:
//! [`find`] takes the answer for one directory and says whether the search
//! has found its file, must ascend to the parent, or has failed. The caller
//! asks the file system and repeats.
//!
//! Which path is the candidate and which the parent is the standard
//! library's to say. [`decide`] is the decision itself, on paths given.

use crate::errors::{Error, ErrorView, IoError, IoErrorView, OsError, OsErrorKind, OsErrorView};
use crate::path::{join, joined, parent, parent_of};
use vstd::prelude::*;

verus! {

/// What a metadata query on a candidate path gave.
#[derive(Debug)]
pub enum Probe {
    /// Something exists at the path; `is_file` tells whether it is a regular
    /// file.
    Metadata { is_file: bool },
    /// The query failed.
    Failed(OsError),
}

/// The mathematical value of a [`Probe`].
pub enum ProbeView {
    Metadata { is_file: bool },
    Failed(OsErrorView),
}

impl View for Probe {
    type V = ProbeView;

    open spec fn view(&self) -> ProbeView {
        match self {
            Probe::Metadata { is_file } => ProbeView::Metadata { is_file: *is_file },
            Probe::Failed(source) => ProbeView::Failed(source@),
        }
    }
}

impl ProbeView {
    /// A regular file is at the candidate.
    pub open spec fn is_match(self) -> bool {
        self == (ProbeView::Metadata { is_file: true })
    }

    /// The query failed for another reason than that nothing is there.
    pub open spec fn is_fatal(self) -> bool {
        self matches ProbeView::Failed(source) && source.kind != OsErrorKind::NotFound
    }

    /// Neither a match nor fatal: something other than a regular file is at
    /// the candidate, or nothing is.
    pub open spec fn is_miss(self) -> bool {
        !self.is_match() && !self.is_fatal()
    }
}

/// What the search does after one probe.
#[derive(Debug)]
pub enum Step {
    /// The file is at this path.
    Found(String),
    /// Nothing here: go on in this directory, the parent.
    Ascend(String),
    /// The search is over without a file.
    Failed(Error),
}

/// The mathematical value of a [`Step`].
pub enum StepView {
    Found(Seq<char>),
    Ascend(Seq<char>),
    Failed(ErrorView),
}

impl View for Step {
    type V = StepView;

    open spec fn view(&self) -> StepView {
        match self {
            Step::Found(path) => StepView::Found(path@),
            Step::Ascend(directory) => StepView::Ascend(directory@),
            Step::Failed(error) => StepView::Failed(error@),
        }
    }
}

/// The error of a search that reached a directory without a parent.
pub open spec fn exhausted(directory: Seq<char>) -> ErrorView {
    ErrorView::Io(
        IoErrorView {
            path: Some(directory),
            source: OsErrorView { kind: OsErrorKind::NotFound, message: "path not found"@ },
        },
    )
}

/// The error of a search whose probe of `candidate` failed with `source`.
pub open spec fn aborted(candidate: Seq<char>, source: OsErrorView) -> ErrorView {
    ErrorView::Io(IoErrorView { path: Some(candidate), source })
}

/// One round of the search, given the paths that it turns on: `candidate`
/// is the path that was probed, and `up` the parent of `directory`, if it
/// has one. A match is found at the candidate, a fatal probe is reported at
/// the candidate, and a miss sends the search up, or ends it at `directory`
/// where there is no way up.
pub open spec fn decision(
    directory: Seq<char>,
    candidate: Seq<char>,
    up: Option<Seq<char>>,
    probe: ProbeView,
) -> StepView {
    if probe.is_match() {
        StepView::Found(candidate)
    } else if probe.is_fatal() {
        StepView::Failed(aborted(candidate, probe->Failed_0))
    } else {
        match up {
            Some(up) => StepView::Ascend(up),
            None => StepView::Failed(exhausted(directory)),
        }
    }
}

/// One round of the search for `filename` in `directory`: the decision on
/// the candidate and the parent that the standard library gives for them.
pub open spec fn step(directory: Seq<char>, filename: Seq<char>, probe: ProbeView) -> StepView {
    decision(directory, joined(directory, filename), parent_of(directory), probe)
}

/// The path that the search probes in `directory`.
pub fn candidate(directory: &str, filename: &str) -> (path: String)
    ensures
        path@ == joined(directory@, filename@),
{
    join(directory, filename)
}

/// Decides one round of the search from the paths that it turns on:
/// `candidate` is the path that was probed, `probe` what the probe gave, and
/// `up` the parent of `directory`, if it has one.
///
/// A regular file ends the search with the candidate. A failure other than
/// "not found" ends it with that failure, at the candidate. Otherwise the
/// search ascends to `up`, and where there is none it ends with a "not
/// found" failure at `directory`.
pub fn decide(directory: &str, candidate: String, up: Option<String>, probe: Probe) -> (next: Step)
    ensures
        next@ == decision(directory@, candidate@, up.deep_view(), probe@),
{
    match probe {
        Probe::Metadata { is_file } => {
            if is_file {
                return Step::Found(candidate);
            }
        },
        Probe::Failed(source) => {
            if source.kind != OsErrorKind::NotFound {
                return Step::Failed(Error::from(IoError::from_parts(Some(candidate), source)));
            }
        },
    }
    match up {
        Some(up) => Step::Ascend(up),
        None => {
            let source = OsError::new(OsErrorKind::NotFound, "path not found".to_owned());
            Step::Failed(Error::from(IoError::from_parts(Some(directory.to_owned()), source)))
        },
    }
}

/// Decides one round of the search for `filename` in `directory`: `probe` is
/// what the metadata query on `candidate(directory, filename)` gave. The
/// candidate and the parent are those that the standard library gives; the
/// decision on them is that of [`decide`].
pub fn find(directory: &str, filename: &str, probe: Probe) -> (next: Step)
    ensures
        next@ == step(directory@, filename@, probe@),
{
    decide(directory, join(directory, filename), parent(directory), probe)
}

/// The failure of a search that could not start, because the working
/// directory could not be resolved: `source`, with no path.
pub fn unresolved(source: OsError) -> (error: Error)
    ensures
        error == Error::Io(IoError { path: None, source }),
{
    Error::from(IoError::without_path(source))
}

/// The failure of a search that found its file at `path` and could not open
/// it: `source`, at `path`.
pub fn unopened(path: String, source: OsError) -> (error: Error)
    ensures
        error == Error::Io(IoError { path: Some(path), source }),
{
    Error::from(IoError::from_parts(Some(path), source))
}

/// Which file to search for: `.env`, unless another name is set.
pub struct Finder<'a> {
    filename: &'a str,
}

impl<'a> Finder<'a> {
    /// The name of the file that this finder searches for.
    pub closed spec fn target(&self) -> Seq<char> {
        self.filename@
    }

    /// A finder for `.env`.
    pub fn new() -> (finder: Self)
        ensures
            finder.target() == ".env"@,
    {
        Finder { filename: ".env" }
    }

    /// The same finder, for `filename` instead.
    pub fn filename(self, filename: &'a str) -> (finder: Self)
        ensures
            finder.target() == filename@,
    {
        Finder { filename }
    }

    /// The path that this finder probes in `directory`.
    pub fn candidate(&self, directory: &str) -> (path: String)
        ensures
            path@ == joined(directory@, self.target()),
    {
        candidate(directory, self.filename)
    }

    /// Decides one round of this finder's search: see the function [`find`].
    pub fn find(&self, directory: &str, probe: Probe) -> (next: Step)
        ensures
            next@ == step(directory@, self.target(), probe@),
    {
        find(directory, self.filename, probe)
    }
}

} // verus!
