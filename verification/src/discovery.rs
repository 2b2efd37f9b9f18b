//! What the discovery of a module's exports means: the state it keeps, the steps
//! it takes, and where it ends in a given world.

use vstd::prelude::*;
use crate::analysis::OutputView;
use crate::builtin::is_builtin;
use crate::export_set::merged;
use crate::ident::is_identifier;
use crate::json::{json_output, json_top_level_keys};
use crate::resolution::{resolution, Disk, Outcome, ResolutionErrorView};
use crate::text::without_last;

verus! {

/// The two characters at the end of a reexport specifier which say that the
/// target's exported value is called before its result is used.
pub open spec fn call_marker() -> Seq<char> {
    "()"@
}

/// Whether the reexport specifier `raw` ends in the call marker.
pub open spec fn has_call_marker(raw: Seq<char>) -> bool {
    call_marker().is_suffix_of(raw)
}

/// `raw` without the call marker, where it ends in one.
pub open spec fn without_call_marker(raw: Seq<char>) -> Seq<char> {
    if has_call_marker(raw) {
        without_last(raw, 2)
    } else {
        raw
    }
}

/// Whether a file with this path is read as JSON.
pub open spec fn is_json(path: Seq<char>) -> bool {
    ".json"@.is_suffix_of(path)
}

/// Whether the reexport `raw` can stand for the whole module: it is neither
/// relative nor absolute, not called, and no builtin.
pub open spec fn eligible(raw: Seq<char>) -> bool {
    &&& !"."@.is_prefix_of(raw)
    &&& !"/"@.is_prefix_of(raw)
    &&& !has_call_marker(raw)
    &&& !is_builtin(raw)
}

/// Whether a file with this analysis does nothing but hand on one other module.
pub open spec fn is_passthrough(output: OutputView) -> bool {
    &&& output.exports.len() == 0
    &&& output.reexports.len() == 1
    &&& eligible(output.reexports[0])
}

/// A file that waits to be analysed.
pub struct Entry {
    pub path: Seq<char>,
    pub call_indirection: bool,
}

/// What a discovery keeps between its steps.
pub struct State {
    /// The directory from which specifiers are resolved.
    pub base_dir: Seq<char>,
    /// The environment mode that every analysis is asked with.
    pub env_mode: Seq<char>,
    /// The files that wait, the one to take next at the end.
    pub worklist: Seq<Entry>,
    /// The names found so far, in the order in which they were first found.
    pub exports: Seq<Seq<char>>,
    /// The module that the entry file hands on, where it does nothing else.
    pub passthrough: Option<Seq<char>>,
    /// Whether a file has been analysed.
    pub analyzed: bool,
    /// Whether the entry file was read as JSON.
    pub json_entry: bool,
    /// The file that was analysed last.
    pub current: Seq<char>,
    /// The reexports of `current` that have not been looked at.
    pub pending: Seq<Seq<char>>,
}

/// What a discovery has found.
pub struct DiscoveryView {
    pub exports: Seq<Seq<char>>,
    pub passthrough: Option<Seq<char>>,
    pub json_entry: bool,
}

/// Why a discovery has found nothing.
pub enum DiscoveryErrorView {
    Resolve { specifier: Seq<char>, cause: ResolutionErrorView },
    Read { path: Seq<char>, message: Seq<char> },
    Parse { path: Seq<char>, message: Seq<char> },
}

/// A discovery under way.
pub enum Progress {
    /// `specifier` is to be resolved from `state.base_dir`, as named in
    /// `containing_file`. The file it resolves to will be analysed with
    /// `call_indirection`.
    Resolve {
        state: State,
        specifier: Seq<char>,
        containing_file: Option<Seq<char>>,
        call_indirection: bool,
    },
    /// The file at `entry.path` is to be read.
    Read { state: State, entry: Entry },
    /// The script `source`, read from `entry.path`, is to be analysed under
    /// `state.env_mode`, with `entry.call_indirection`.
    Analyze { state: State, entry: Entry, source: Seq<char> },
    /// The discovery is over.
    Done(Result<DiscoveryView, DiscoveryErrorView>),
}

/// The state before anything was resolved.
pub open spec fn initial(base_dir: Seq<char>, env_mode: Seq<char>) -> State {
    State {
        base_dir,
        env_mode,
        worklist: Seq::empty(),
        exports: Seq::empty(),
        passthrough: None,
        analyzed: false,
        json_entry: false,
        current: Seq::empty(),
        pending: Seq::empty(),
    }
}

/// The first step of a discovery: the entry specifier is resolved, named in no
/// file.
pub open spec fn start(base_dir: Seq<char>, entry: Seq<char>, env_mode: Seq<char>) -> Progress {
    Progress::Resolve {
        state: initial(base_dir, env_mode),
        specifier: entry,
        containing_file: None,
        call_indirection: false,
    }
}

/// What has been found when nothing is left to do.
pub open spec fn result(state: State) -> DiscoveryView {
    DiscoveryView {
        exports: state.exports,
        passthrough: state.passthrough,
        json_entry: state.json_entry,
    }
}

/// The step that follows from `state`. The reexports of the file analysed last
/// come first, in their order: the call marker is taken off, a builtin is
/// passed over, anything else is resolved as named in that file. Then the file
/// that was put on the worklist last is read. With nothing left, the discovery
/// is over.
pub open spec fn advance(state: State) -> Progress
    decreases state.pending.len(),
{
    if state.pending.len() > 0 {
        let raw = state.pending[0];
        let rest = State { pending: state.pending.drop_first(), ..state };
        if is_builtin(without_call_marker(raw)) {
            advance(rest)
        } else {
            Progress::Resolve {
                state: rest,
                specifier: without_call_marker(raw),
                containing_file: Some(state.current),
                call_indirection: has_call_marker(raw),
            }
        }
    } else if state.worklist.len() > 0 {
        Progress::Read {
            state: State { worklist: state.worklist.drop_last(), ..state },
            entry: state.worklist.last(),
        }
    } else {
        Progress::Done(Ok(result(state)))
    }
}

/// The step after a resolution: the path it gave waits on the worklist with the
/// flag of the edge that led to it; a failure ends the discovery.
pub open spec fn resolved(
    state: State,
    specifier: Seq<char>,
    call_indirection: bool,
    outcome: Outcome,
) -> Progress {
    match outcome {
        Ok(path) => advance(
            State { worklist: state.worklist.push(Entry { path, call_indirection }), ..state },
        ),
        Err(cause) => Progress::Done(Err(DiscoveryErrorView::Resolve { specifier, cause })),
    }
}

/// The state after the analysis of `entry` gave `output`. The names are merged
/// into those found before, and the reexports wait to be looked at. Where this
/// is the first file analysed, it says whether the entry was JSON, and its one
/// reexport is kept if the file does nothing but hand that module on.
pub open spec fn absorbed(state: State, entry: Entry, output: OutputView, json: bool) -> State {
    State {
        exports: merged(state.exports, output.exports),
        passthrough: if !state.analyzed && is_passthrough(output) {
            Some(output.reexports[0])
        } else {
            state.passthrough
        },
        analyzed: true,
        json_entry: if state.analyzed {
            state.json_entry
        } else {
            json
        },
        current: entry.path,
        pending: output.reexports,
        ..state
    }
}

/// What is said of a JSON file that does not parse.
pub open spec fn invalid_json() -> Seq<char> {
    "invalid JSON"@
}

/// The step after `entry` was read: a JSON file is analysed at once, a script
/// goes to its analysis, and a file that cannot be read ends the discovery.
pub open spec fn read(state: State, entry: Entry, outcome: Result<Seq<char>, Seq<char>>) -> Progress {
    match outcome {
        Ok(source) => if is_json(entry.path) {
            match json_top_level_keys(source) {
                Some(keys) => advance(absorbed(state, entry, json_output(keys), true)),
                None => Progress::Done(
                    Err(DiscoveryErrorView::Parse { path: entry.path, message: invalid_json() }),
                ),
            }
        } else {
            Progress::Analyze { state, entry, source }
        },
        Err(message) => Progress::Done(Err(DiscoveryErrorView::Read { path: entry.path, message })),
    }
}

/// The step after the analysis of a script: what it gave is absorbed, and a
/// script that cannot be analysed ends the discovery.
pub open spec fn analyzed(
    state: State,
    entry: Entry,
    outcome: Result<OutputView, Seq<char>>,
) -> Progress {
    match outcome {
        Ok(output) => advance(absorbed(state, entry, output, false)),
        Err(message) => Progress::Done(
            Err(DiscoveryErrorView::Parse { path: entry.path, message }),
        ),
    }
}

/// Everything a discovery asks for: the disk, what reading a file gives, and
/// what the analysis of a script gives for its path, its text, the environment
/// mode and the call flag.
pub struct World {
    pub disk: Disk,
    pub sources: spec_fn(Seq<char>) -> Result<Seq<char>, Seq<char>>,
    pub analyses: spec_fn(Seq<char>, Seq<char>, Seq<char>, bool) -> Result<OutputView, Seq<char>>,
}

/// The step that follows `progress` when `world` answers what it asks.
pub open spec fn answered(world: World, progress: Progress) -> Progress {
    match progress {
        Progress::Resolve { state, specifier, containing_file, call_indirection } => resolved(
            state,
            specifier,
            call_indirection,
            resolution(world.disk, state.base_dir, specifier, containing_file),
        ),
        Progress::Read { state, entry } => read(state, entry, (world.sources)(entry.path)),
        Progress::Analyze { state, entry, source } => analyzed(
            state,
            entry,
            (world.analyses)(entry.path, source, state.env_mode, entry.call_indirection),
        ),
        Progress::Done(outcome) => Progress::Done(outcome),
    }
}

/// The step reached from `progress` after `world` has answered `n` times.
pub open spec fn run(world: World, progress: Progress, n: nat) -> Progress
    decreases n,
{
    if n == 0 {
        progress
    } else {
        run(world, answered(world, progress), (n - 1) as nat)
    }
}

/// Whether reading and analysing `entry` in `world` gives `output`: a JSON file
/// gives what its top-level keys say, a script what its analysis under
/// `env_mode` and the entry's flag says.
pub open spec fn gives(world: World, env_mode: Seq<char>, entry: Entry, output: OutputView) -> bool {
    match (world.sources)(entry.path) {
        Ok(source) => if is_json(entry.path) {
            json_top_level_keys(source) matches Some(keys) && output == json_output(keys)
        } else {
            (world.analyses)(entry.path, source, env_mode, entry.call_indirection) == Ok::<
                OutputView,
                Seq<char>,
            >(output)
        },
        Err(_) => false,
    }
}

/// The number of answers that reading and analysing a file takes: one for a
/// JSON file, two for a script.
pub open spec fn answers_for(path: Seq<char>) -> nat {
    if is_json(path) {
        1
    } else {
        2
    }
}

/// The names that a discovery holds at `progress`, unless it has failed.
pub open spec fn found_so_far(progress: Progress) -> Option<Seq<Seq<char>>> {
    match progress {
        Progress::Resolve { state, .. } => Some(state.exports),
        Progress::Read { state, .. } => Some(state.exports),
        Progress::Analyze { state, .. } => Some(state.exports),
        Progress::Done(Ok(found)) => Some(found.exports),
        Progress::Done(Err(_)) => None,
    }
}

/// The passthrough that a discovery holds at `progress`, unless it has failed.
pub open spec fn kept_so_far(progress: Progress) -> Option<Option<Seq<char>>> {
    match progress {
        Progress::Resolve { state, .. } => Some(state.passthrough),
        Progress::Read { state, .. } => Some(state.passthrough),
        Progress::Analyze { state, .. } => Some(state.passthrough),
        Progress::Done(Ok(found)) => Some(found.passthrough),
        Progress::Done(Err(_)) => None,
    }
}

/// What holds of every state from which a discovery goes on: no name is found
/// twice; a module kept as passthrough is eligible; before the first analysis
/// nothing has been found, and at most the entry file waits; and after a JSON
/// entry nothing waits and every name is an identifier.
pub open spec fn ready(state: State) -> bool {
    &&& state.exports.no_duplicates()
    &&& (state.passthrough matches Some(module) ==> eligible(module))
    &&& (!state.analyzed ==> {
        &&& state.worklist.len() <= 1
        &&& state.pending.len() == 0
        &&& state.exports.len() == 0
        &&& state.passthrough is None
        &&& !state.json_entry
    })
    &&& (state.json_entry ==> {
        &&& state.worklist.len() == 0
        &&& state.pending.len() == 0
        &&& forall|i: int| 0 <= i < state.exports.len() ==> is_identifier(#[trigger] state.exports[i])
    })
}

/// What holds of every state between two steps: it is ready, and before the
/// first analysis no file waits.
pub open spec fn well_formed(state: State) -> bool {
    &&& ready(state)
    &&& (!state.analyzed ==> state.worklist.len() == 0)
}

/// What holds of everything a discovery finds: no name twice; a passthrough is
/// eligible; and after a JSON entry every name is an identifier.
pub open spec fn sound(found: DiscoveryView) -> bool {
    &&& found.exports.no_duplicates()
    &&& (found.passthrough matches Some(module) ==> eligible(module))
    &&& (found.json_entry ==> forall|i: int|
        0 <= i < found.exports.len() ==> is_identifier(#[trigger] found.exports[i]))
}

/// What holds of every step of a discovery.
pub open spec fn orderly(progress: Progress) -> bool {
    match progress {
        Progress::Resolve { state, specifier, containing_file, call_indirection } => {
            &&& well_formed(state)
            &&& !state.json_entry
            &&& (state.analyzed ==> containing_file is Some && !is_builtin(specifier))
        },
        Progress::Read { state, entry } => well_formed(state) && !state.json_entry,
        Progress::Analyze { state, entry, source } => {
            &&& well_formed(state)
            &&& !state.json_entry
            &&& !is_json(entry.path)
        },
        Progress::Done(Ok(found)) => sound(found),
        Progress::Done(Err(_)) => true,
    }
}

} // verus!
