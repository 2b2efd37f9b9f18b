//! What resolving a specifier means: the plan that a specifier calls for, the
//! files that are probed for it and in which order, and the outcome on a given
//! disk.

use vstd::prelude::*;
use crate::path::{directory, joined};
use crate::text::without_last;

verus! {

/// Why the package resolver gave no path.
#[derive(Clone, Copy, Debug, PartialEq, Eq)]
pub enum PackageErrorKind {
    /// The package's conditional exports exclude the target.
    PathNotExported,
    /// Any other failure.
    Other,
}

/// A failure of the package resolver, with its own message.
#[derive(Clone, Debug, PartialEq, Eq)]
pub struct PackageError {
    pub kind: PackageErrorKind,
    pub message: String,
}

/// Why a specifier did not resolve.
#[derive(Clone, Debug, PartialEq, Eq)]
pub enum ResolutionError {
    /// Nothing can be looked up for this specifier.
    NotFound(String),
    /// The package resolver failed; its error is handed on as it came.
    Package(PackageError),
    /// A probe of `path` could not be carried out.
    Io { path: String, message: String },
}

/// A `PackageError` with its message as a sequence of characters.
pub struct PackageErrorView {
    pub kind: PackageErrorKind,
    pub message: Seq<char>,
}

/// A `ResolutionError` with its texts as sequences of characters.
pub enum ResolutionErrorView {
    NotFound(Seq<char>),
    Package(PackageErrorView),
    Io { path: Seq<char>, message: Seq<char> },
}

impl View for PackageError {
    type V = PackageErrorView;

    open spec fn view(&self) -> PackageErrorView {
        PackageErrorView { kind: self.kind, message: self.message@ }
    }
}

impl View for ResolutionError {
    type V = ResolutionErrorView;

    open spec fn view(&self) -> ResolutionErrorView {
        match *self {
            ResolutionError::NotFound(s) => ResolutionErrorView::NotFound(s@),
            ResolutionError::Package(e) => ResolutionErrorView::Package(e@),
            ResolutionError::Io { path, message } => ResolutionErrorView::Io {
                path: path@,
                message: message@,
            },
        }
    }
}

/// What a resolution ends in: a path, or the reason why there is none.
pub type Outcome = Result<Seq<char>, ResolutionErrorView>;

/// What the package resolver answers: a path, or its error.
pub type PackageOutcome = Result<Seq<char>, PackageErrorView>;

/// What a probe answers: whether a regular file is there, or why that could
/// not be told.
pub type ProbeOutcome = Result<bool, Seq<char>>;

/// The conditions under which the package resolver reads a package's exports.
pub open spec fn conditions() -> Seq<Seq<char>> {
    seq!["node"@, "require"@]
}

/// Whether `specifier` is an absolute path or a file URL.
pub open spec fn is_absolute(specifier: Seq<char>) -> bool {
    "/"@.is_prefix_of(specifier) || "file://"@.is_prefix_of(specifier)
}

/// `specifier`, with a bare `.` or `..` turned into the index file of that
/// directory.
pub open spec fn normalized(specifier: Seq<char>) -> Seq<char> {
    if specifier == "."@ {
        "./index.js"@
    } else if specifier == ".."@ {
        "../index.js"@
    } else {
        specifier
    }
}

/// Whether `specifier` is relative to the file that names it.
pub open spec fn is_relative(specifier: Seq<char>) -> bool {
    "./"@.is_prefix_of(specifier) || "../"@.is_prefix_of(specifier)
}

/// What is to be looked for: the path that the candidates are built on, and the
/// specifier that goes to the package resolver where no candidate is a file.
pub struct Search {
    pub base_dir: Seq<char>,
    pub specifier: Seq<char>,
    pub computed: Seq<char>,
}

/// What a specifier calls for, before anything is probed.
pub enum Plan {
    /// The specifier is the path.
    Verbatim(Seq<char>),
    /// Nothing can be looked up: the resolution fails with `NotFound` of this
    /// specifier.
    Unresolvable(Seq<char>),
    /// Files are probed, and the package resolver asked if none is there.
    Search(Search),
}

/// The plan for a specifier that is no longer relative to a file: one that still
/// begins with a dot cannot be looked up, a path is probed as it is, anything
/// else under `base_dir/node_modules`.
pub open spec fn located(base_dir: Seq<char>, specifier: Seq<char>) -> Plan {
    if "."@.is_prefix_of(specifier) {
        Plan::Unresolvable(specifier)
    } else if "/"@.is_prefix_of(specifier) {
        Plan::Search(Search { base_dir, specifier, computed: specifier })
    } else {
        Plan::Search(
            Search { base_dir, specifier, computed: joined(base_dir, "node_modules/"@ + specifier) },
        )
    }
}

/// The plan for `specifier`, named in `containing_file` if there is one.
pub open spec fn plan(
    base_dir: Seq<char>,
    specifier: Seq<char>,
    containing_file: Option<Seq<char>>,
) -> Plan {
    if is_absolute(specifier) {
        Plan::Verbatim(specifier)
    } else if is_relative(normalized(specifier)) {
        match containing_file {
            Some(file) => located(base_dir, joined(directory(file), normalized(specifier))),
            None => Plan::Unresolvable(normalized(specifier)),
        }
    } else {
        located(base_dir, normalized(specifier))
    }
}

/// The same file under the other script extension, for a path that ends in
/// `.js` or `.cjs`.
pub open spec fn sibling(computed: Seq<char>) -> Seq<Seq<char>> {
    if ".js"@.is_suffix_of(computed) {
        seq![without_last(computed, 3) + ".cjs"@]
    } else if ".cjs"@.is_suffix_of(computed) {
        seq![without_last(computed, 4) + ".js"@]
    } else {
        seq![]
    }
}

/// The files probed for `computed`, in the order in which they are probed.
pub open spec fn candidates(computed: Seq<char>) -> Seq<Seq<char>> {
    seq![
        computed,
        computed + ".js"@,
        computed + ".cjs"@,
        computed + "/index.cjs"@,
        computed + "/index.js"@,
    ] + sibling(computed)
}

/// The files probed once more after the package resolver has said that the
/// package does not export the target.
pub open spec fn retry_candidates(computed: Seq<char>) -> Seq<Seq<char>> {
    seq![computed + ".cjs"@, computed + ".js"@]
}

/// A resolution under way.
pub enum Step {
    /// `remaining[0]` is to be probed. `refusal` holds the package resolver's
    /// error where it has been asked already.
    Probe { search: Search, remaining: Seq<Seq<char>>, refusal: Option<PackageErrorView> },
    /// The package resolver is to be asked for `search.specifier` from
    /// `search.base_dir`, under `conditions()`.
    Delegate { search: Search },
    /// The resolution is over.
    Done(Outcome),
}

/// The step that follows when `remaining` is left to probe.
pub open spec fn probe_next(
    search: Search,
    remaining: Seq<Seq<char>>,
    refusal: Option<PackageErrorView>,
) -> Step {
    if remaining.len() > 0 {
        Step::Probe { search, remaining, refusal }
    } else {
        match refusal {
            None => Step::Delegate { search },
            Some(error) => Step::Done(Err(ResolutionErrorView::Package(error))),
        }
    }
}

/// The first step of resolving `specifier`.
pub open spec fn begin(
    base_dir: Seq<char>,
    specifier: Seq<char>,
    containing_file: Option<Seq<char>>,
) -> Step {
    match plan(base_dir, specifier, containing_file) {
        Plan::Verbatim(path) => Step::Done(Ok(path)),
        Plan::Unresolvable(s) => Step::Done(Err(ResolutionErrorView::NotFound(s))),
        Plan::Search(search) => probe_next(search, candidates(search.computed), None),
    }
}

/// The step after the probe of `remaining[0]` was answered with `outcome`: a file
/// that is there is the result, one that is not leaves the rest to probe, and a
/// probe that failed ends the resolution.
pub open spec fn probed(
    search: Search,
    remaining: Seq<Seq<char>>,
    refusal: Option<PackageErrorView>,
    outcome: ProbeOutcome,
) -> Step {
    match outcome {
        Ok(true) => Step::Done(Ok(remaining[0])),
        Ok(false) => probe_next(search, remaining.drop_first(), refusal),
        Err(message) => Step::Done(
            Err(ResolutionErrorView::Io { path: remaining[0], message }),
        ),
    }
}

/// The step after the package resolver answered with `outcome`: its path is the
/// result; where it says that the package does not export the target, the
/// computed path is probed once more with the script extensions; any other
/// error is the result.
pub open spec fn delegated(search: Search, outcome: PackageOutcome) -> Step {
    match outcome {
        Ok(path) => Step::Done(Ok(path)),
        Err(error) => match error.kind {
            PackageErrorKind::PathNotExported => probe_next(
                search,
                retry_candidates(search.computed),
                Some(error),
            ),
            PackageErrorKind::Other => Step::Done(Err(ResolutionErrorView::Package(error))),
        },
    }
}

/// A disk as the resolver sees it: the regular files, and what the package
/// resolver answers for a base directory and a specifier.
pub struct Disk {
    pub files: Set<Seq<char>>,
    pub packages: spec_fn(Seq<char>, Seq<char>) -> PackageOutcome,
}

/// The first of `paths` that is a regular file.
pub open spec fn first_file(files: Set<Seq<char>>, paths: Seq<Seq<char>>) -> Option<Seq<char>>
    decreases paths.len(),
{
    if paths.len() == 0 {
        None
    } else if files.contains(paths[0]) {
        Some(paths[0])
    } else {
        first_file(files, paths.drop_first())
    }
}

/// What a search ends in on `disk`.
pub open spec fn found(disk: Disk, search: Search) -> Outcome {
    match first_file(disk.files, candidates(search.computed)) {
        Some(path) => Ok(path),
        None => match (disk.packages)(search.base_dir, search.specifier) {
            Ok(path) => Ok(path),
            Err(error) => match error.kind {
                PackageErrorKind::PathNotExported => match first_file(
                    disk.files,
                    retry_candidates(search.computed),
                ) {
                    Some(path) => Ok(path),
                    None => Err(ResolutionErrorView::Package(error)),
                },
                PackageErrorKind::Other => Err(ResolutionErrorView::Package(error)),
            },
        },
    }
}

/// What resolving `specifier` ends in on `disk`.
pub open spec fn resolution(
    disk: Disk,
    base_dir: Seq<char>,
    specifier: Seq<char>,
    containing_file: Option<Seq<char>>,
) -> Outcome {
    match plan(base_dir, specifier, containing_file) {
        Plan::Verbatim(path) => Ok(path),
        Plan::Unresolvable(s) => Err(ResolutionErrorView::NotFound(s)),
        Plan::Search(search) => found(disk, search),
    }
}

/// The step that follows `step` when `disk` answers what it asks.
pub open spec fn answered(disk: Disk, step: Step) -> Step {
    match step {
        Step::Probe { search, remaining, refusal } => probed(
            search,
            remaining,
            refusal,
            Ok(disk.files.contains(remaining[0])),
        ),
        Step::Delegate { search } => delegated(
            search,
            (disk.packages)(search.base_dir, search.specifier),
        ),
        Step::Done(outcome) => Step::Done(outcome),
    }
}

/// The step reached from `step` after `disk` has answered `n` times.
pub open spec fn run(disk: Disk, step: Step, n: nat) -> Step
    decreases n,
{
    if n == 0 {
        step
    } else {
        run(disk, answered(disk, step), (n - 1) as nat)
    }
}

} // verus!
