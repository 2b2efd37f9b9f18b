//! The resolver: it decides what is probed and asked, and in which order; its
//! caller does the probing and the asking.
//!
//! A resolution is a chain of steps. `resolve` gives the first. A step that asks
//! for something is answered by its `answer`, which gives the next step, until a
//! step is `Done`.

use vstd::prelude::*;
use crate::path::{join, parent};
use crate::resolution::{
    begin, candidates, conditions, delegated, located, probe_next, probed, retry_candidates,
    Outcome, PackageError, PackageErrorKind, PackageErrorView, PackageOutcome, Plan, ProbeOutcome,
    ResolutionError, ResolutionErrorView, Search, Step,
};
use crate::text::{followed, drop_last_chars, ends_with, names, same, starts_with};

verus! {

/// The view of what a resolution ended in.
pub open spec fn outcome_view(outcome: Result<String, ResolutionError>) -> Outcome {
    match outcome {
        Ok(path) => Ok(path@),
        Err(error) => Err(error@),
    }
}

/// The view of what the package resolver answered.
pub open spec fn package_view(outcome: Result<String, PackageError>) -> PackageOutcome {
    match outcome {
        Ok(path) => Ok(path@),
        Err(error) => Err(error@),
    }
}

/// The view of what a probe answered.
pub open spec fn probe_view(outcome: Result<bool, String>) -> ProbeOutcome {
    match outcome {
        Ok(is_file) => Ok(is_file),
        Err(message) => Err(message@),
    }
}

/// The view of the file that names a specifier, if there is one.
pub open spec fn file_view(file: Option<&str>) -> Option<Seq<char>> {
    match file {
        Some(f) => Some(f@),
        None => None,
    }
}

struct Lookup {
    base_dir: String,
    specifier: String,
    computed: String,
}

impl View for Lookup {
    type V = Search;

    closed spec fn view(&self) -> Search {
        Search { base_dir: self.base_dir@, specifier: self.specifier@, computed: self.computed@ }
    }
}

/// A step that asks whether a regular file stands at `path()`.
pub struct ProbeRequest {
    lookup: Lookup,
    paths: Vec<String>,
    next: usize,
    refusal: Option<PackageError>,
}

/// A step that asks the package resolver for `specifier()` from `base_dir()`,
/// under `conditions()`.
pub struct DelegateRequest {
    lookup: Lookup,
}

/// One step of a resolution.
pub enum ResolveStep {
    Probe(ProbeRequest),
    Delegate(DelegateRequest),
    Done(Result<String, ResolutionError>),
}

impl View for ResolveStep {
    type V = Step;

    open spec fn view(&self) -> Step {
        match *self {
            ResolveStep::Probe(request) => request@,
            ResolveStep::Delegate(request) => request@,
            ResolveStep::Done(outcome) => Step::Done(outcome_view(outcome)),
        }
    }
}

impl View for ProbeRequest {
    type V = Step;

    open spec fn view(&self) -> Step {
        Step::Probe { search: self.search(), remaining: self.remaining(), refusal: self.refusal() }
    }
}

impl View for DelegateRequest {
    type V = Step;

    open spec fn view(&self) -> Step {
        Step::Delegate { search: self.search() }
    }
}

impl ProbeRequest {
    #[verifier::type_invariant]
    spec fn well_formed(self) -> bool {
        self.next < self.paths.len()
    }

    /// What is looked for.
    pub closed spec fn search(self) -> Search {
        self.lookup@
    }

    /// The paths that are left to probe, the one asked for first.
    pub closed spec fn remaining(self) -> Seq<Seq<char>> {
        names(self.paths@).skip(self.next as int)
    }

    /// The package resolver's error, where it has been asked already.
    pub closed spec fn refusal(self) -> Option<PackageErrorView> {
        match self.refusal {
            Some(error) => Some(error@),
            None => None,
        }
    }

    /// The path to probe.
    pub fn path(&self) -> (r: &str)
        ensures
            self.remaining().len() > 0,
            r@ == self.remaining()[0],
    {
        proof {
            use_type_invariant(self);
        }
        self.paths[self.next].as_str()
    }

    /// The next step, given whether a regular file stands at `path()`, or why
    /// that could not be told.
    pub fn answer(self, outcome: Result<bool, String>) -> (r: ResolveStep)
        ensures
            r@ == probed(self.search(), self.remaining(), self.refusal(), probe_view(outcome)),
    {
        proof {
            use_type_invariant(&self);
        }
        let ghost before = self.remaining();
        match outcome {
            Ok(true) => ResolveStep::Done(Ok(self.paths[self.next].clone())),
            Ok(false) => {
                assert(names(self.paths@).skip(self.next + 1) =~= before.drop_first());
                next_probe(self.lookup, self.paths, self.next + 1, self.refusal)
            },
            Err(message) => ResolveStep::Done(
                Err(ResolutionError::Io { path: self.paths[self.next].clone(), message }),
            ),
        }
    }
}

impl DelegateRequest {
    /// What is looked for.
    pub closed spec fn search(self) -> Search {
        self.lookup@
    }

    /// The directory from which the package resolver starts.
    pub fn base_dir(&self) -> (r: &str)
        ensures
            r@ == self.search().base_dir,
    {
        self.lookup.base_dir.as_str()
    }

    /// The specifier that the package resolver is asked for.
    pub fn specifier(&self) -> (r: &str)
        ensures
            r@ == self.search().specifier,
    {
        self.lookup.specifier.as_str()
    }

    /// The conditions under which the package resolver reads a package's exports.
    pub fn condition_names(&self) -> (r: Vec<String>)
        ensures
            names(r@) == conditions(),
    {
        let mut r: Vec<String> = Vec::new();
        r.push("node".to_owned());
        r.push("require".to_owned());
        assert(names(r@) =~= conditions());
        r
    }

    /// The next step, given what the package resolver answered.
    pub fn answer(self, outcome: Result<String, PackageError>) -> (r: ResolveStep)
        ensures
            r@ == delegated(self.search(), package_view(outcome)),
    {
        match outcome {
            Ok(path) => ResolveStep::Done(Ok(path)),
            Err(error) => match error.kind {
                PackageErrorKind::PathNotExported => {
                    let with_cjs = followed(self.lookup.computed.as_str(), ".cjs");
                    let with_js = followed(self.lookup.computed.as_str(), ".js");
                    let mut paths: Vec<String> = Vec::new();
                    paths.push(with_cjs);
                    paths.push(with_js);
                    assert(names(paths@).skip(0) =~= retry_candidates(self.lookup.computed@));
                    next_probe(self.lookup, paths, 0, Some(error))
                },
                PackageErrorKind::Other => ResolveStep::Done(Err(ResolutionError::Package(error))),
            },
        }
    }
}

/// The step that follows when the paths from `next` on are left to probe.
fn next_probe(
    lookup: Lookup,
    paths: Vec<String>,
    next: usize,
    refusal: Option<PackageError>,
) -> (r: ResolveStep)
    requires
        next <= paths.len(),
    ensures
        r@ == probe_next(
            lookup@,
            names(paths@).skip(next as int),
            match refusal {
                Some(error) => Some(error@),
                None => None,
            },
        ),
{
    if next < paths.len() {
        ResolveStep::Probe(ProbeRequest { lookup, paths, next, refusal })
    } else {
        match refusal {
            None => ResolveStep::Delegate(DelegateRequest { lookup }),
            Some(error) => ResolveStep::Done(Err(ResolutionError::Package(error))),
        }
    }
}

/// The files probed for `computed`, in the order in which they are probed.
fn candidates_of(computed: &str) -> (r: Vec<String>)
    ensures
        names(r@) == candidates(computed@),
{
    let mut r: Vec<String> = Vec::new();
    r.push(computed.to_owned());
    r.push(followed(computed, ".js"));
    r.push(followed(computed, ".cjs"));
    r.push(followed(computed, "/index.cjs"));
    r.push(followed(computed, "/index.js"));
    if ends_with(computed, ".js") {
        let stem = drop_last_chars(computed, 3);
        r.push(followed(stem.as_str(), ".cjs"));
    } else if ends_with(computed, ".cjs") {
        let stem = drop_last_chars(computed, 4);
        r.push(followed(stem.as_str(), ".js"));
    }
    assert(names(r@) =~= candidates(computed@));
    r
}

/// The first step for a specifier that is no longer relative to a file.
fn locate(base_dir: &str, specifier: String) -> (r: ResolveStep)
    ensures
        r@ == match located(base_dir@, specifier@) {
            Plan::Verbatim(path) => Step::Done(Ok(path)),
            Plan::Unresolvable(s) => Step::Done(Err(ResolutionErrorView::NotFound(s))),
            Plan::Search(search) => probe_next(search, candidates(search.computed), None),
        },
{
    if starts_with(specifier.as_str(), ".") {
        return ResolveStep::Done(Err(ResolutionError::NotFound(specifier)));
    }
    let computed = if starts_with(specifier.as_str(), "/") {
        specifier.clone()
    } else {
        let under = followed("node_modules/", specifier.as_str());
        join(base_dir, under.as_str())
    };
    let paths = candidates_of(computed.as_str());
    assert(names(paths@).skip(0) =~= names(paths@));
    let lookup = Lookup { base_dir: base_dir.to_owned(), specifier, computed };
    next_probe(lookup, paths, 0, None)
}

/// The first step of resolving `specifier` from `base_dir`, named in
/// `containing_file` if there is one.
///
/// An absolute path or a file URL is its own result. A bare `.` or `..` stands for
/// the index file of that directory. A relative specifier is placed in the
/// directory of the file that names it, and cannot be resolved without one.
/// Whatever is then not a path is looked for under `base_dir/node_modules`.
pub fn resolve(base_dir: &str, specifier: &str, containing_file: Option<&str>) -> (r: ResolveStep)
    ensures
        r@ == begin(base_dir@, specifier@, file_view(containing_file)),
{
    if starts_with(specifier, "/") || starts_with(specifier, "file://") {
        return ResolveStep::Done(Ok(specifier.to_owned()));
    }
    let normal = if same(specifier, ".") {
        "./index.js".to_owned()
    } else if same(specifier, "..") {
        "../index.js".to_owned()
    } else {
        specifier.to_owned()
    };
    if starts_with(normal.as_str(), "./") || starts_with(normal.as_str(), "../") {
        match containing_file {
            Some(file) => {
                let dir = parent(file);
                locate(base_dir, join(dir.as_str(), normal.as_str()))
            },
            None => ResolveStep::Done(Err(ResolutionError::NotFound(normal))),
        }
    } else {
        locate(base_dir, normal)
    }
}

} // verus!
