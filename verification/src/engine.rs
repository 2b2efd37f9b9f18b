//! The discovery engine: it decides what is resolved, read and analysed, and in
//! which order; its caller resolves, reads and analyses.
//!
//! A discovery is a chain of steps. `discover` gives the first. A step that asks
//! for something is answered by its `answer`, which gives the next step, until a
//! step is `Done`. The first failure ends the discovery, and nothing that was
//! found before it is handed out.

use vstd::prelude::*;
use crate::analysis::{Output, OutputView};
use crate::builtin::is_node_builtin_module;
use crate::discovery::{
    absorbed, advance, analyzed, eligible, initial, orderly, read,
    ready, resolved, start, without_call_marker, DiscoveryErrorView, DiscoveryView,
    Entry, Progress, State,
};
use crate::discovery_laws::{
    lemma_absorbed_is_ready, lemma_advance_is_orderly, lemma_analyzed_is_orderly,
    lemma_identifiers_are_identifiers, lemma_read_is_orderly, lemma_resolved_is_orderly,
};
use crate::export_set::NamedExportSet;
use crate::json::{analyze_json, json_top_level_keys};
use crate::resolution::{begin, ResolutionError};
use crate::resolver::{file_view, outcome_view, resolve, ResolveStep};
use crate::text::{drop_last_chars, ends_with, names, optional, starts_with};

verus! {

/// A file that waits to be analysed, with the flag of the edge that led to it.
#[derive(Clone, Debug, PartialEq, Eq)]
pub struct WorklistEntry {
    pub path: String,
    pub call_indirection: bool,
}

impl View for WorklistEntry {
    type V = Entry;

    open spec fn view(&self) -> Entry {
        Entry { path: self.path@, call_indirection: self.call_indirection }
    }
}

/// What a discovery has found: the names in the order in which they were first
/// found; the module that the entry file hands on, where it does nothing else;
/// and whether the entry file was JSON.
#[derive(Clone, Debug, PartialEq, Eq)]
pub struct Discovery {
    pub exports: Vec<String>,
    pub passthrough: Option<String>,
    pub json_entry: bool,
}

impl View for Discovery {
    type V = DiscoveryView;

    open spec fn view(&self) -> DiscoveryView {
        DiscoveryView {
            exports: names(self.exports@),
            passthrough: optional(self.passthrough),
            json_entry: self.json_entry,
        }
    }
}

/// Why a discovery has found nothing.
#[derive(Clone, Debug, PartialEq, Eq)]
pub enum DiscoveryError {
    /// `specifier` did not resolve.
    Resolve { specifier: String, cause: ResolutionError },
    /// The file at `path` could not be read.
    Read { path: String, message: String },
    /// The file at `path` could not be analysed.
    Parse { path: String, message: String },
}

impl View for DiscoveryError {
    type V = DiscoveryErrorView;

    open spec fn view(&self) -> DiscoveryErrorView {
        match *self {
            DiscoveryError::Resolve { specifier, cause } => DiscoveryErrorView::Resolve {
                specifier: specifier@,
                cause: cause@,
            },
            DiscoveryError::Read { path, message } => DiscoveryErrorView::Read {
                path: path@,
                message: message@,
            },
            DiscoveryError::Parse { path, message } => DiscoveryErrorView::Parse {
                path: path@,
                message: message@,
            },
        }
    }
}

/// The view of what a discovery ended in.
pub open spec fn end_view(
    end: Result<Discovery, DiscoveryError>,
) -> Result<DiscoveryView, DiscoveryErrorView> {
    match end {
        Ok(found) => Ok(found@),
        Err(error) => Err(error@),
    }
}

/// The view of what reading a file gave.
pub open spec fn text_view(outcome: Result<String, String>) -> Result<Seq<char>, Seq<char>> {
    match outcome {
        Ok(text) => Ok(text@),
        Err(message) => Err(message@),
    }
}

/// The view of what an analysis gave.
pub open spec fn analysis_view(outcome: Result<Output, String>) -> Result<OutputView, Seq<char>> {
    match outcome {
        Ok(output) => Ok(output@),
        Err(message) => Err(message@),
    }
}

/// The views of the files that wait.
pub open spec fn entries(worklist: Seq<WorklistEntry>) -> Seq<Entry> {
    worklist.map_values(|entry: WorklistEntry| entry@)
}

struct Engine {
    base_dir: String,
    env_mode: String,
    worklist: Vec<WorklistEntry>,
    exports: NamedExportSet,
    passthrough: Option<String>,
    analyzed: bool,
    json_entry: bool,
    current: String,
    pending: Vec<String>,
    next: usize,
}

impl View for Engine {
    type V = State;

    closed spec fn view(&self) -> State {
        State {
            base_dir: self.base_dir@,
            env_mode: self.env_mode@,
            worklist: entries(self.worklist@),
            exports: self.exports@,
            passthrough: optional(self.passthrough),
            analyzed: self.analyzed,
            json_entry: self.json_entry,
            current: self.current@,
            pending: names(self.pending@).skip(self.next as int),
        }
    }
}

/// A step that asks for `specifier()` to be resolved from `base_dir()`, as named
/// in `containing_file()`.
pub struct ResolveRequest {
    engine: Engine,
    specifier: String,
    containing_file: Option<String>,
    call_indirection: bool,
}

/// A step that asks for the text of the file at `path()`.
pub struct ReadRequest {
    engine: Engine,
    entry: WorklistEntry,
}

/// A step that asks for the analysis of the script `source()`, read from
/// `path()`, under `env_mode()` and with `call_indirection()`.
pub struct AnalyzeRequest {
    engine: Engine,
    entry: WorklistEntry,
    source: String,
}

/// One step of a discovery.
pub enum DiscoveryStep {
    Resolve(ResolveRequest),
    Read(ReadRequest),
    Analyze(AnalyzeRequest),
    Done(Result<Discovery, DiscoveryError>),
}

impl View for ResolveRequest {
    type V = Progress;

    open spec fn view(&self) -> Progress {
        Progress::Resolve {
            state: self.state(),
            specifier: self.specifier_view(),
            containing_file: self.containing_file_view(),
            call_indirection: self.flag(),
        }
    }
}

impl View for ReadRequest {
    type V = Progress;

    open spec fn view(&self) -> Progress {
        Progress::Read { state: self.state(), entry: self.entry() }
    }
}

impl View for AnalyzeRequest {
    type V = Progress;

    open spec fn view(&self) -> Progress {
        Progress::Analyze { state: self.state(), entry: self.entry(), source: self.source_view() }
    }
}

impl View for DiscoveryStep {
    type V = Progress;

    open spec fn view(&self) -> Progress {
        match *self {
            DiscoveryStep::Resolve(request) => request@,
            DiscoveryStep::Read(request) => request@,
            DiscoveryStep::Analyze(request) => request@,
            DiscoveryStep::Done(end) => Progress::Done(end_view(end)),
        }
    }
}

impl ResolveRequest {
    #[verifier::type_invariant]
    spec fn in_order(self) -> bool {
        self.engine.next <= self.engine.pending.len() && orderly(self@)
    }

    /// What the discovery keeps while it waits.
    pub closed spec fn state(self) -> State {
        self.engine@
    }

    /// The specifier to resolve.
    pub closed spec fn specifier_view(self) -> Seq<char> {
        self.specifier@
    }

    /// The file that names the specifier, if one does.
    pub closed spec fn containing_file_view(self) -> Option<Seq<char>> {
        optional(self.containing_file)
    }

    /// The flag with which the file that the specifier resolves to will be
    /// analysed.
    pub closed spec fn flag(self) -> bool {
        self.call_indirection
    }

    /// The directory from which the specifier is resolved.
    pub fn base_dir(&self) -> (r: &str)
        ensures
            r@ == self.state().base_dir,
    {
        self.engine.base_dir.as_str()
    }

    /// The specifier to resolve.
    pub fn specifier(&self) -> (r: &str)
        ensures
            r@ == self.specifier_view(),
    {
        self.specifier.as_str()
    }

    /// The file that names the specifier, if one does.
    pub fn containing_file(&self) -> (r: Option<&str>)
        ensures
            file_view(r) == self.containing_file_view(),
    {
        match &self.containing_file {
            Some(file) => Some(file.as_str()),
            None => None,
        }
    }

    /// The first step of the resolution that this step asks for.
    pub fn first_step(&self) -> (r: ResolveStep)
        ensures
            r@ == begin(self.state().base_dir, self.specifier_view(), self.containing_file_view()),
    {
        resolve(self.base_dir(), self.specifier(), self.containing_file())
    }

    /// The next step, given what the resolution ended in.
    pub fn answer(self, outcome: Result<String, ResolutionError>) -> (r: DiscoveryStep)
        ensures
            r@ == resolved(self.state(), self.specifier_view(), self.flag(), outcome_view(outcome)),
            orderly(r@),
    {
        proof {
            use_type_invariant(&self);
            lemma_resolved_is_orderly(
                self.state(),
                self.specifier_view(),
                self.flag(),
                outcome_view(outcome),
            );
        }
        match outcome {
            Ok(path) => {
                let mut engine = self.engine;
                let ghost before = engine@;
                let entry = WorklistEntry { path, call_indirection: self.call_indirection };
                engine.worklist.push(entry);
                assert(entries(engine.worklist@) =~= before.worklist.push(entry@));
                assert(engine@ == State { worklist: before.worklist.push(entry@), ..before });
                proceed(engine)
            },
            Err(cause) => DiscoveryStep::Done(
                Err(DiscoveryError::Resolve { specifier: self.specifier, cause }),
            ),
        }
    }
}

impl ReadRequest {
    #[verifier::type_invariant]
    spec fn in_order(self) -> bool {
        self.engine.next <= self.engine.pending.len() && orderly(self@)
    }

    /// What the discovery keeps while it waits.
    pub closed spec fn state(self) -> State {
        self.engine@
    }

    /// The file to read.
    pub closed spec fn entry(self) -> Entry {
        self.entry@
    }

    /// The path of the file to read.
    pub fn path(&self) -> (r: &str)
        ensures
            r@ == self.entry().path,
    {
        self.entry.path.as_str()
    }

    /// The next step, given the text of the file, or why it could not be read.
    pub fn answer(self, outcome: Result<String, String>) -> (r: DiscoveryStep)
        ensures
            r@ == read(self.state(), self.entry(), text_view(outcome)),
            orderly(r@),
    {
        proof {
            use_type_invariant(&self);
            lemma_read_is_orderly(self.state(), self.entry(), text_view(outcome));
        }
        match outcome {
            Ok(source) => {
                if ends_with(self.entry.path.as_str(), ".json") {
                    match analyze_json(source.as_str()) {
                        Ok(output) => {
                            proof {
                                let keys = json_top_level_keys(source@)->0;
                                if let Some(keys) = keys {
                                    lemma_identifiers_are_identifiers(keys);
                                }
                                lemma_absorbed_is_ready(
                                    self.state(),
                                    self.entry(),
                                    output@,
                                    true,
                                );
                            }
                            proceed(absorb(self.engine, self.entry, output, true))
                        },
                        Err(_) => DiscoveryStep::Done(
                            Err(
                                DiscoveryError::Parse {
                                    path: self.entry.path,
                                    message: "invalid JSON".to_owned(),
                                },
                            ),
                        ),
                    }
                } else {
                    DiscoveryStep::Analyze(
                        AnalyzeRequest { engine: self.engine, entry: self.entry, source },
                    )
                }
            },
            Err(message) => DiscoveryStep::Done(
                Err(DiscoveryError::Read { path: self.entry.path, message }),
            ),
        }
    }
}

impl AnalyzeRequest {
    #[verifier::type_invariant]
    spec fn in_order(self) -> bool {
        self.engine.next <= self.engine.pending.len() && orderly(self@)
    }

    /// What the discovery keeps while it waits.
    pub closed spec fn state(self) -> State {
        self.engine@
    }

    /// The file to analyse.
    pub closed spec fn entry(self) -> Entry {
        self.entry@
    }

    /// The text of the file.
    pub closed spec fn source_view(self) -> Seq<char> {
        self.source@
    }

    /// The path of the file to analyse.
    pub fn path(&self) -> (r: &str)
        ensures
            r@ == self.entry().path,
    {
        self.entry.path.as_str()
    }

    /// The text of the file.
    pub fn source(&self) -> (r: &str)
        ensures
            r@ == self.source_view(),
    {
        self.source.as_str()
    }

    /// The environment mode to analyse under.
    pub fn env_mode(&self) -> (r: &str)
        ensures
            r@ == self.state().env_mode,
    {
        self.engine.env_mode.as_str()
    }

    /// Whether the file's exported value is called before use.
    pub fn call_indirection(&self) -> (r: bool)
        ensures
            r == self.entry().call_indirection,
    {
        self.entry.call_indirection
    }

    /// The next step, given what the analysis gave, or why there is none.
    pub fn answer(self, outcome: Result<Output, String>) -> (r: DiscoveryStep)
        ensures
            r@ == analyzed(self.state(), self.entry(), analysis_view(outcome)),
            orderly(r@),
    {
        proof {
            use_type_invariant(&self);
            lemma_analyzed_is_orderly(self.state(), self.entry(), analysis_view(outcome));
        }
        match outcome {
            Ok(output) => {
                proof {
                    lemma_absorbed_is_ready(self.state(), self.entry(), output@, false);
                }
                proceed(absorb(self.engine, self.entry, output, false))
            },
            Err(message) => DiscoveryStep::Done(
                Err(DiscoveryError::Parse { path: self.entry.path, message }),
            ),
        }
    }
}

/// Whether the reexport `raw` can stand for the whole module.
fn is_eligible(raw: &str) -> (r: bool)
    ensures
        r == eligible(raw@),
{
    !starts_with(raw, ".") && !starts_with(raw, "/") && !ends_with(raw, "()")
        && !is_node_builtin_module(raw)
}

/// The engine after the analysis of `entry` gave `output`.
fn absorb(from: Engine, entry: WorklistEntry, output: Output, json: bool) -> (r: Engine)
    ensures
        r@ == absorbed(from@, entry@, output@, json),
        r.next <= r.pending.len(),
{
    let mut engine = from;
    if !engine.analyzed {
        engine.json_entry = json;
        if output.exports.len() == 0 && output.reexports.len() == 1 && is_eligible(
            output.reexports[0].as_str(),
        ) {
            engine.passthrough = Some(output.reexports[0].clone());
        }
    }
    engine.analyzed = true;
    engine.exports.extend(&output.exports);
    engine.current = entry.path;
    engine.pending = output.reexports;
    engine.next = 0;
    assert(names(engine.pending@).skip(0) =~= output@.reexports);
    engine
}

/// The step that follows from what the engine holds.
fn proceed(from: Engine) -> (r: DiscoveryStep)
    requires
        from.next <= from.pending.len(),
        ready(from@),
    ensures
        r@ == advance(from@),
        orderly(r@),
{
    let mut engine = from;
    proof {
        lemma_advance_is_orderly(from@);
    }
    while engine.next < engine.pending.len()
        invariant
            engine.next <= engine.pending.len(),
            ready(engine@),
            advance(engine@) == advance(from@),
            orderly(advance(from@)),
        decreases engine.pending.len() - engine.next,
    {
        let ghost before = engine@;
        let raw = engine.pending[engine.next].clone();
        engine.next = engine.next + 1;
        assert(before.pending[0] == raw@);
        assert(engine@ == State { pending: before.pending.drop_first(), ..before }) by {
            assert(engine@.pending =~= before.pending.drop_first());
        }
        let call_indirection = ends_with(raw.as_str(), "()");
        let specifier = if call_indirection {
            drop_last_chars(raw.as_str(), 2)
        } else {
            raw
        };
        assert(specifier@ == without_call_marker(before.pending[0]));
        if !is_node_builtin_module(specifier.as_str()) {
            let containing_file = Some(engine.current.clone());
            assert(advance(before) == Progress::Resolve {
                state: engine@,
                specifier: specifier@,
                containing_file: optional(containing_file),
                call_indirection,
            });
            return DiscoveryStep::Resolve(
                ResolveRequest { engine, specifier, containing_file, call_indirection },
            );
        }
    }
    assert(engine@.pending.len() == 0);
    let ghost before = engine@;
    match engine.worklist.pop() {
        Some(entry) => {
            assert(entries(engine.worklist@) =~= before.worklist.drop_last());
            assert(entry@ == before.worklist.last());
            assert(engine@ == State { worklist: before.worklist.drop_last(), ..before });
            DiscoveryStep::Read(ReadRequest { engine, entry })
        },
        None => {
            let exports = engine.exports.to_vec();
            DiscoveryStep::Done(
                Ok(
                    Discovery {
                        exports,
                        passthrough: engine.passthrough,
                        json_entry: engine.json_entry,
                    },
                ),
            )
        },
    }
}

/// The first step of the discovery of what the module `entry_specifier`
/// exports, with specifiers resolved from `base_dir` and scripts analysed under
/// `env_mode`.
pub fn discover(base_dir: &str, entry_specifier: &str, env_mode: &str) -> (r: DiscoveryStep)
    ensures
        r@ == start(base_dir@, entry_specifier@, env_mode@),
        orderly(r@),
{
    let worklist: Vec<WorklistEntry> = Vec::new();
    let pending: Vec<String> = Vec::new();
    let engine = Engine {
        base_dir: base_dir.to_owned(),
        env_mode: env_mode.to_owned(),
        worklist,
        exports: NamedExportSet::new(),
        passthrough: None,
        analyzed: false,
        json_entry: false,
        current: String::new(),
        pending,
        next: 0,
    };
    assert(engine@ == initial(base_dir@, env_mode@)) by {
        assert(engine@.worklist =~= Seq::empty());
        assert(engine@.pending =~= Seq::empty());
    }
    DiscoveryStep::Resolve(
        ResolveRequest {
            engine,
            specifier: entry_specifier.to_owned(),
            containing_file: None,
            call_indirection: false,
        },
    )
}

} // verus!
