//! Finding the workspace root: the nearest directory, from the starting one
//! upwards, whose manifest declares a workspace.
//!
//! Directories are named by their level: the starting directory is level 0,
//! its parent level 1, and so on up to the file system's root. The caller
//! looks at the manifest of the level it is asked for and reports a `Probe`.

use crate::error::Error;
use crate::text::{contains, occurs};
use vstd::prelude::*;

verus! {

/// The file that is looked for in each directory.
pub const MANIFEST_NAME: &'static str = "Cargo.toml";

/// The text that a manifest holds if and only if it declares a workspace.
pub const WORKSPACE_MARKER: &'static str = "[workspace]";

/// What was found where a directory's manifest would be.
#[derive(Debug, Clone, PartialEq, Eq)]
pub enum Probe {
    /// The directory has no manifest.
    Missing,
    /// The directory has a manifest with this content.
    Content(String),
    /// The directory has a manifest, and reading it failed.
    Unreadable,
}

/// A `Probe` as plain values.
pub enum ProbeView {
    Missing,
    Content(Seq<char>),
    Unreadable,
}

impl View for Probe {
    type V = ProbeView;

    open spec fn view(&self) -> ProbeView {
        match *self {
            Probe::Missing => ProbeView::Missing,
            Probe::Content(content) => ProbeView::Content(content@),
            Probe::Unreadable => ProbeView::Unreadable,
        }
    }
}

impl DeepView for Probe {
    type V = ProbeView;

    open spec fn deep_view(&self) -> ProbeView {
        self@
    }
}

impl ProbeView {
    /// The directory is a workspace root: its manifest holds the marker.
    pub open spec fn is_root(self) -> bool {
        self matches ProbeView::Content(content) && occurs(content, WORKSPACE_MARKER@)
    }

    /// The search passes over the directory: it is no workspace root, and
    /// nothing went wrong in looking at it.
    pub open spec fn is_passed(self) -> bool {
        !self.is_root() && !(self is Unreadable)
    }
}

/// The result of the search over `probes`, the probe of each level from the
/// starting directory to the file system's root, when it starts at `level`:
/// the first level from there that is a workspace root, unless an unreadable
/// manifest comes before it or no level is one.
pub open spec fn resolve_from(probes: Seq<ProbeView>, level: int) -> Result<int, Error>
    decreases probes.len() - level,
{
    if level < 0 || level >= probes.len() {
        Err(Error::WorkspaceNotFound)
    } else if probes[level] is Unreadable {
        Err(Error::ManifestReadError)
    } else if probes[level].is_root() {
        Ok(level)
    } else {
        resolve_from(probes, level + 1)
    }
}

/// The level of the workspace root for a search that starts in the directory
/// whose probe is `probes[0]`.
pub open spec fn resolve_spec(probes: Seq<ProbeView>) -> Result<int, Error> {
    resolve_from(probes, 0)
}

/// One step of the search.
#[derive(Debug, Clone, Copy, PartialEq, Eq)]
pub enum Step {
    /// Look at the manifest of the directory at `level` and report its probe.
    Inspect { level: usize },
    /// The directory at `level` is the workspace root.
    Found { level: usize },
    /// The search is over without a root.
    Fail { error: Error },
}

/// The first step of a search over `depth` directories.
pub open spec fn search_begin_spec(depth: usize) -> Step {
    if depth == 0 {
        Step::Fail { error: Error::WorkspaceNotFound }
    } else {
        Step::Inspect { level: 0 }
    }
}

/// The step after the directory at `level`, of `depth` directories in all,
/// was found to hold `probe`.
pub open spec fn search_next_spec(level: usize, depth: usize, probe: ProbeView) -> Step {
    if probe is Unreadable {
        Step::Fail { error: Error::ManifestReadError }
    } else if probe.is_root() {
        Step::Found { level }
    } else if level + 1 < depth {
        Step::Inspect { level: (level + 1) as usize }
    } else {
        Step::Fail { error: Error::WorkspaceNotFound }
    }
}

/// Where a workspace root lies `n` levels up, with no root and no unreadable
/// manifest below it, the search finds it, however large `n` is.
pub proof fn law_nearest_root_is_found(probes: Seq<ProbeView>, n: int)
    requires
        0 <= n < probes.len(),
        probes[n].is_root(),
        forall|j: int| 0 <= j < n ==> (#[trigger] probes[j]).is_passed(),
    ensures
        resolve_spec(probes) == Ok::<int, Error>(n),
{
    lemma_passed_levels_are_skipped(probes, 0, n);
}

/// Where no directory up to the file system's root is a workspace root, and
/// every manifest on the way can be read, the search fails with
/// `WorkspaceNotFound`.
pub proof fn law_no_root_is_not_found(probes: Seq<ProbeView>)
    requires
        forall|j: int| 0 <= j < probes.len() ==> (#[trigger] probes[j]).is_passed(),
    ensures
        resolve_spec(probes) == Err::<int, Error>(Error::WorkspaceNotFound),
{
    lemma_passed_levels_are_skipped(probes, 0, probes.len() as int);
}

/// A search started in a descendant directory finds the same root as one
/// started further up, if it passes over every directory in between.
pub proof fn law_same_root_from_any_descendant(below: Seq<ProbeView>, chain: Seq<ProbeView>)
    requires
        forall|j: int| 0 <= j < below.len() ==> (#[trigger] below[j]).is_passed(),
    ensures
        resolve_spec(below + chain) == match resolve_spec(chain) {
            Ok(level) => Ok::<int, Error>(below.len() + level),
            Err(error) => Err(error),
        },
{
    let all = below + chain;
    assert forall|j: int| 0 <= j < below.len() implies (#[trigger] all[j]).is_passed() by {
        assert(all[j] == below[j]);
    }
    lemma_passed_levels_are_skipped(all, 0, below.len() as int);
    lemma_resolution_shifts(below, chain, 0);
}

/// The search has exactly three ends. It finds a level only if that level is
/// a workspace root and every level below it was passed over; it fails with
/// `ManifestReadError` only if an unreadable manifest stands above levels
/// that were all passed over; it fails with `WorkspaceNotFound` only if every
/// level was passed over.
pub proof fn law_resolution_stops_at_the_first_obstacle(probes: Seq<ProbeView>)
    ensures
        match resolve_spec(probes) {
            Ok(n) => {
                &&& 0 <= n < probes.len()
                &&& probes[n].is_root()
                &&& forall|j: int| 0 <= j < n ==> (#[trigger] probes[j]).is_passed()
            },
            Err(Error::ManifestReadError) => exists|n: int|
                {
                    &&& 0 <= n < probes.len()
                    &&& #[trigger] probes[n] is Unreadable
                    &&& forall|j: int| 0 <= j < n ==> (#[trigger] probes[j]).is_passed()
                },
            Err(Error::WorkspaceNotFound) => forall|j: int|
                0 <= j < probes.len() ==> (#[trigger] probes[j]).is_passed(),
            Err(_) => false,
        },
{
    lemma_resolution_stops(probes, 0);
}

proof fn lemma_passed_levels_are_skipped(probes: Seq<ProbeView>, from: int, to: int)
    requires
        0 <= from <= to <= probes.len(),
        forall|j: int| from <= j < to ==> (#[trigger] probes[j]).is_passed(),
    ensures
        resolve_from(probes, from) == resolve_from(probes, to),
    decreases to - from,
{
    if from < to {
        assert(probes[from].is_passed());
        lemma_passed_levels_are_skipped(probes, from + 1, to);
    }
}

proof fn lemma_resolution_shifts(below: Seq<ProbeView>, chain: Seq<ProbeView>, level: int)
    requires
        0 <= level <= chain.len(),
    ensures
        resolve_from(below + chain, below.len() + level) == match resolve_from(chain, level) {
            Ok(found) => Ok::<int, Error>(below.len() + found),
            Err(error) => Err(error),
        },
    decreases chain.len() - level,
{
    if level < chain.len() {
        assert((below + chain)[below.len() + level] == chain[level]);
        lemma_resolution_shifts(below, chain, level + 1);
    }
}

proof fn lemma_resolution_stops(probes: Seq<ProbeView>, level: int)
    requires
        0 <= level <= probes.len(),
        forall|j: int| 0 <= j < level ==> (#[trigger] probes[j]).is_passed(),
    ensures
        match resolve_from(probes, level) {
            Ok(n) => {
                &&& level <= n < probes.len()
                &&& probes[n].is_root()
                &&& forall|j: int| 0 <= j < n ==> (#[trigger] probes[j]).is_passed()
            },
            Err(Error::ManifestReadError) => exists|n: int|
                {
                    &&& 0 <= n < probes.len()
                    &&& #[trigger] probes[n] is Unreadable
                    &&& forall|j: int| 0 <= j < n ==> (#[trigger] probes[j]).is_passed()
                },
            Err(Error::WorkspaceNotFound) => forall|j: int|
                0 <= j < probes.len() ==> (#[trigger] probes[j]).is_passed(),
            Err(_) => false,
        },
    decreases probes.len() - level,
{
    if level < probes.len() {
        if probes[level].is_passed() {
            lemma_resolution_stops(probes, level + 1);
        }
    }
}

/// Whether a manifest with this content declares a workspace.
pub fn has_workspace_marker(content: &str) -> (b: bool)
    ensures
        b == occurs(content@, WORKSPACE_MARKER@),
{
    contains(content, WORKSPACE_MARKER)
}

impl Probe {
    /// Whether the probed directory is a workspace root.
    pub fn is_root(&self) -> (b: bool)
        ensures
            b == self@.is_root(),
    {
        match self {
            Probe::Content(content) => has_workspace_marker(content.as_str()),
            _ => false,
        }
    }
}

/// Starts a search over `depth` directories: the starting directory and all
/// its ancestors.
pub fn search_begin(depth: usize) -> (step: Step)
    ensures
        step == search_begin_spec(depth),
{
    if depth == 0 {
        Step::Fail { error: Error::WorkspaceNotFound }
    } else {
        Step::Inspect { level: 0 }
    }
}

/// Goes on after the directory at `level`, of `depth` directories in all, was
/// found to hold `probe`. The search only moves upwards, and never beyond the
/// last directory.
pub fn search_next(level: usize, depth: usize, probe: &Probe) -> (step: Step)
    ensures
        step == search_next_spec(level, depth, probe@),
        step matches Step::Inspect { level: next } ==> next == level + 1 && next < depth,
{
    match probe {
        Probe::Unreadable => Step::Fail { error: Error::ManifestReadError },
        _ => {
            if probe.is_root() {
                Step::Found { level }
            } else if level < depth && level + 1 < depth {
                Step::Inspect { level: level + 1 }
            } else {
                Step::Fail { error: Error::WorkspaceNotFound }
            }
        },
    }
}

/// The level of the workspace root, given the probe of every directory from
/// the starting one, `probes[0]`, up to the file system's root.
pub fn find_workspace_root(probes: &Vec<Probe>) -> (result: Result<usize, Error>)
    ensures
        match result {
            Ok(level) => resolve_spec(probes.deep_view()) == Ok::<int, Error>(level as int),
            Err(error) => resolve_spec(probes.deep_view()) == Err::<int, Error>(error),
        },
{
    let depth = probes.len();
    let mut step = search_begin(depth);
    loop
        invariant
            depth == probes.len(),
            step matches Step::Inspect { level } ==> level < depth && resolve_from(
                probes.deep_view(),
                level as int,
            ) == resolve_spec(probes.deep_view()),
            step matches Step::Found { level } ==> resolve_spec(probes.deep_view()) == Ok::<
                int,
                Error,
            >(level as int),
            step matches Step::Fail { error } ==> resolve_spec(probes.deep_view()) == Err::<
                int,
                Error,
            >(error),
        decreases
            match step {
                Step::Inspect { level } => depth - level + 1,
                _ => 0,
            },
    {
        match step {
            Step::Inspect { level } => {
                assert(probes.deep_view()[level as int] == probes[level as int]@);
                assert(level + 1 >= depth ==> resolve_from(probes.deep_view(), level + 1) == Err::<
                    int,
                    Error,
                >(Error::WorkspaceNotFound));
                step = search_next(level, depth, &probes[level]);
            },
            Step::Found { level } => {
                return Ok(level);
            },
            Step::Fail { error } => {
                return Err(error);
            },
        }
    }
}

} // verus!
