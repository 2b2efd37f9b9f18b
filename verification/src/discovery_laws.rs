//! What holds of every discovery.

use vstd::prelude::*;
use crate::analysis::OutputView;
use crate::builtin::is_builtin;
use crate::discovery::{
    absorbed, advance, analyzed, answered, answers_for, eligible, found_so_far, gives,
    has_call_marker, initial, is_json, kept_so_far, orderly, read, ready, resolved,
    result, run, sound, start, well_formed, without_call_marker, DiscoveryErrorView, DiscoveryView, Entry,
    Progress, State, World,
};
use crate::encoder::{records, rendered, sentinel};
use crate::export_set::{lemma_merged, lemma_merged_new_names, merged};
use crate::ident::is_identifier;
use crate::json::{identifiers, json_output, json_top_level_keys};
use crate::resolution::{resolution, Outcome, ResolutionErrorView};
use crate::text::without_last;

verus! {

/// Every name among the identifiers of `keys` is an identifier.
pub proof fn lemma_identifiers_are_identifiers(keys: Seq<Seq<char>>)
    ensures
        forall|i: int|
            0 <= i < identifiers(keys).len() ==> is_identifier(#[trigger] identifiers(keys)[i]),
{
    let pred = |key: Seq<char>| is_identifier(key);
    assert forall|i: int| 0 <= i < identifiers(keys).len() implies is_identifier(
        #[trigger] identifiers(keys)[i],
    ) by {
        keys.lemma_filter_pred(pred, i);
    }
}

/// Names that are all identifiers are their own identifiers.
pub proof fn lemma_identifiers_of_identifiers(names: Seq<Seq<char>>)
    requires
        forall|i: int| 0 <= i < names.len() ==> is_identifier(#[trigger] names[i]),
    ensures
        identifiers(names) == names,
    decreases names.len(),
{
    reveal(Seq::filter);
    if names.len() > 0 {
        let earlier = names.drop_last();
        assert forall|i: int| 0 <= i < earlier.len() implies is_identifier(
            #[trigger] earlier[i],
        ) by {
            assert(earlier[i] == names[i]);
        }
        lemma_identifiers_of_identifiers(earlier);
        assert(is_identifier(names[names.len() - 1]));
        assert(earlier.push(names.last()) =~= names);
    }
}

/// From a state that is ready, the discovery goes on in order.
pub proof fn lemma_advance_is_orderly(state: State)
    requires
        ready(state),
    ensures
        orderly(advance(state)),
    decreases state.pending.len(),
{
    if state.pending.len() > 0 {
        let rest = State { pending: state.pending.drop_first(), ..state };
        if is_builtin(without_call_marker(state.pending[0])) {
            lemma_advance_is_orderly(rest);
        }
    }
}

/// What a file gives is absorbed into a state that is ready, if what a JSON
/// file gives has identifiers for names and no reexports.
pub proof fn lemma_absorbed_is_ready(state: State, entry: Entry, output: OutputView, json: bool)
    requires
        well_formed(state),
        !state.json_entry,
        json ==> output.reexports.len() == 0 && forall|i: int|
            0 <= i < output.exports.len() ==> is_identifier(#[trigger] output.exports[i]),
    ensures
        ready(absorbed(state, entry, output, json)),
{
    let after = absorbed(state, entry, output, json);
    lemma_merged(state.exports, output.exports);
    if after.json_entry {
        assert forall|i: int| 0 <= i < after.exports.len() implies is_identifier(
            #[trigger] after.exports[i],
        ) by {
            let name = after.exports[i];
            assert(after.exports.contains(name));
            assert(output.exports.contains(name));
        }
    }
}

/// After a resolution the discovery goes on in order.
pub proof fn lemma_resolved_is_orderly(
    state: State,
    specifier: Seq<char>,
    call_indirection: bool,
    outcome: Outcome,
)
    requires
        well_formed(state),
        !state.json_entry,
    ensures
        orderly(resolved(state, specifier, call_indirection, outcome)),
{
    if let Ok(path) = outcome {
        lemma_advance_is_orderly(
            State { worklist: state.worklist.push(Entry { path, call_indirection }), ..state },
        );
    }
}

/// After a file was read the discovery goes on in order.
pub proof fn lemma_read_is_orderly(state: State, entry: Entry, outcome: Result<Seq<char>, Seq<char>>)
    requires
        well_formed(state),
        !state.json_entry,
    ensures
        orderly(read(state, entry, outcome)),
{
    if let Ok(source) = outcome {
        if is_json(entry.path) {
            if let Some(keys) = json_top_level_keys(source) {
                let output = json_output(keys);
                if let Some(keys) = keys {
                    lemma_identifiers_are_identifiers(keys);
                }
                lemma_absorbed_is_ready(state, entry, output, true);
                lemma_advance_is_orderly(absorbed(state, entry, output, true));
            }
        }
    }
}

/// After an analysis the discovery goes on in order.
pub proof fn lemma_analyzed_is_orderly(
    state: State,
    entry: Entry,
    outcome: Result<OutputView, Seq<char>>,
)
    requires
        well_formed(state),
        !state.json_entry,
    ensures
        orderly(analyzed(state, entry, outcome)),
{
    if let Ok(output) = outcome {
        lemma_absorbed_is_ready(state, entry, output, false);
        lemma_advance_is_orderly(absorbed(state, entry, output, false));
    }
}

/// Whatever the world answers, a discovery in order stays in order.
pub proof fn lemma_answered_is_orderly(world: World, progress: Progress)
    requires
        orderly(progress),
    ensures
        orderly(answered(world, progress)),
{
    match progress {
        Progress::Resolve { state, specifier, containing_file, call_indirection } => {
            lemma_resolved_is_orderly(
                state,
                specifier,
                call_indirection,
                resolution(world.disk, state.base_dir, specifier, containing_file),
            );
        },
        Progress::Read { state, entry } => {
            lemma_read_is_orderly(state, entry, (world.sources)(entry.path));
        },
        Progress::Analyze { state, entry, source } => {
            lemma_analyzed_is_orderly(
                state,
                entry,
                (world.analyses)(entry.path, source, state.env_mode, entry.call_indirection),
            );
        },
        Progress::Done(_) => {},
    }
}

/// Every step of every discovery is in order.
pub proof fn lemma_run_is_orderly(world: World, progress: Progress, n: nat)
    requires
        orderly(progress),
    ensures
        orderly(run(world, progress, n)),
    decreases n,
{
    if n > 0 {
        lemma_answered_is_orderly(world, progress);
        lemma_run_is_orderly(world, answered(world, progress), (n - 1) as nat);
    }
}

/// A discovery that is over stays as it is.
pub proof fn lemma_done_stays(
    world: World,
    end: Result<DiscoveryView, DiscoveryErrorView>,
    n: nat,
)
    ensures
        run(world, Progress::Done(end), n) == Progress::Done(end),
    decreases n,
{
    if n > 0 {
        lemma_done_stays(world, end, (n - 1) as nat);
    }
}

/// Going on from a state changes neither the names found nor the passthrough.
pub proof fn lemma_advance_keeps_what_was_found(state: State)
    ensures
        found_so_far(advance(state)) == Some(state.exports),
        kept_so_far(advance(state)) == Some(state.passthrough),
    decreases state.pending.len(),
{
    if state.pending.len() > 0 {
        if is_builtin(without_call_marker(state.pending[0])) {
            lemma_advance_keeps_what_was_found(
                State { pending: state.pending.drop_first(), ..state },
            );
        }
    }
}

/// A name that was found stays found, at its place, whatever is found later.
pub proof fn lemma_names_stay_found(world: World, progress: Progress, n: nat)
    ensures
        match (found_so_far(progress), found_so_far(run(world, progress, n))) {
            (Some(earlier), Some(later)) => earlier.is_prefix_of(later),
            (None, Some(_)) => false,
            _ => true,
        },
    decreases n,
{
    let next = answered(world, progress);
    if n == 0 {
        if let Some(names) = found_so_far(progress) {
            assert(names.subrange(0, names.len() as int) =~= names);
        }
    } else {
        lemma_names_stay_found(world, next, (n - 1) as nat);
        match progress {
            Progress::Resolve { state, specifier, containing_file, call_indirection } => {
                if let Ok(path) = resolution(world.disk, state.base_dir, specifier, containing_file) {
                    lemma_advance_keeps_what_was_found(
                        State {
                            worklist: state.worklist.push(Entry { path, call_indirection }),
                            ..state
                        },
                    );
                }
            },
            Progress::Read { state, entry } => {
                if let Ok(source) = (world.sources)(entry.path) {
                    if is_json(entry.path) {
                        if let Some(keys) = json_top_level_keys(source) {
                            let after = absorbed(state, entry, json_output(keys), true);
                            lemma_advance_keeps_what_was_found(after);
                            lemma_merged(state.exports, json_output(keys).exports);
                        }
                    }
                }
            },
            Progress::Analyze { state, entry, source } => {
                if let Ok(output) = (world.analyses)(
                    entry.path,
                    source,
                    state.env_mode,
                    entry.call_indirection,
                ) {
                    lemma_advance_keeps_what_was_found(absorbed(state, entry, output, false));
                    lemma_merged(state.exports, output.exports);
                }
            },
            Progress::Done(_) => {},
        }
        if let (Some(earlier), Some(between), Some(later)) = (
            found_so_far(progress),
            found_so_far(next),
            found_so_far(run(world, progress, n)),
        ) {
            assert(earlier.is_prefix_of(between));
            assert(between.is_prefix_of(later));
            assert(earlier =~= later.subrange(0, earlier.len() as int));
        }
    }
}

/// A passthrough that was kept stays kept, whatever is found later.
pub proof fn lemma_passthrough_stays(world: World, progress: Progress, module: Seq<char>, n: nat)
    requires
        orderly(progress),
        kept_so_far(progress) == Some(Some(module)),
    ensures
        match kept_so_far(run(world, progress, n)) {
            Some(kept) => kept == Some(module),
            None => true,
        },
    decreases n,
{
    if n > 0 {
        let next = answered(world, progress);
        lemma_answered_is_orderly(world, progress);
        match progress {
            Progress::Resolve { state, specifier, containing_file, call_indirection } => {
                if let Ok(path) = resolution(world.disk, state.base_dir, specifier, containing_file) {
                    lemma_advance_keeps_what_was_found(
                        State {
                            worklist: state.worklist.push(Entry { path, call_indirection }),
                            ..state
                        },
                    );
                }
            },
            Progress::Read { state, entry } => {
                if let Ok(source) = (world.sources)(entry.path) {
                    if is_json(entry.path) {
                        if let Some(keys) = json_top_level_keys(source) {
                            lemma_advance_keeps_what_was_found(
                                absorbed(state, entry, json_output(keys), true),
                            );
                        }
                    }
                }
            },
            Progress::Analyze { state, entry, source } => {
                if let Ok(output) = (world.analyses)(
                    entry.path,
                    source,
                    state.env_mode,
                    entry.call_indirection,
                ) {
                    lemma_advance_keeps_what_was_found(absorbed(state, entry, output, false));
                }
            },
            Progress::Done(_) => {},
        }
        if kept_so_far(next) is Some {
            lemma_passthrough_stays(world, next, module, (n - 1) as nat);
        } else {
            lemma_done_stays(world, next->Done_0, (n - 1) as nat);
        }
    }
}

/// Reading and analysing a file ends with what it gives absorbed.
pub proof fn lemma_file_is_absorbed(
    world: World,
    state: State,
    entry: Entry,
    output: OutputView,
    n: nat,
)
    requires
        gives(world, state.env_mode, entry, output),
        n >= answers_for(entry.path),
    ensures
        run(world, Progress::Read { state, entry }, n) == run(
            world,
            advance(absorbed(state, entry, output, is_json(entry.path))),
            (n - answers_for(entry.path)) as nat,
        ),
{
    let asked = Progress::Read { state, entry };
    assert(run(world, asked, n) == run(world, answered(world, asked), (n - 1) as nat));
    if !is_json(entry.path) {
        let source = (world.sources)(entry.path)->Ok_0;
        let next = Progress::Analyze { state, entry, source };
        assert(answered(world, asked) == next);
        assert(run(world, next, (n - 1) as nat) == run(
            world,
            answered(world, next),
            (n - 2) as nat,
        ));
    }
}

/// No name is found twice, and no record is written twice, however the names
/// were reached.
pub proof fn lemma_no_name_twice(
    world: World,
    base_dir: Seq<char>,
    entry: Seq<char>,
    env_mode: Seq<char>,
    n: nat,
)
    ensures
        run(world, start(base_dir, entry, env_mode), n) matches Progress::Done(Ok(found))
            ==> found.exports.no_duplicates() && records(found).no_duplicates(),
{
    lemma_run_is_orderly(world, start(base_dir, entry, env_mode), n);
    if let Progress::Done(Ok(found)) = run(world, start(base_dir, entry, env_mode), n) {
        lemma_records_of_sound(found);
    }
}

/// What a discovery in order has found is written as it stands: a passthrough
/// as one record, and otherwise every name, a JSON entry's names too.
pub proof fn lemma_records_of_sound(found: DiscoveryView)
    requires
        sound(found),
    ensures
        records(found) == match found.passthrough {
            Some(module) => seq![sentinel() + module],
            None => found.exports,
        },
        records(found).no_duplicates(),
{
    if found.passthrough is None && found.json_entry {
        lemma_identifiers_of_identifiers(found.exports);
    }
}

/// A JSON entry: the names found are its top-level keys that are identifiers,
/// each once, and they are what is written. Keys that are no identifiers are
/// left out.
pub proof fn lemma_json_entry(
    world: World,
    base_dir: Seq<char>,
    entry: Seq<char>,
    env_mode: Seq<char>,
    path: Seq<char>,
    source: Seq<char>,
    n: nat,
)
    requires
        resolution(world.disk, base_dir, entry, None) == Ok::<
            Seq<char>,
            ResolutionErrorView,
        >(path),
        is_json(path),
        (world.sources)(path) == Ok::<Seq<char>, Seq<char>>(source),
        json_top_level_keys(source) is Some,
        n >= 2,
    ensures
        run(world, start(base_dir, entry, env_mode), n) matches Progress::Done(Ok(found)) && {
            let names = json_output(json_top_level_keys(source)->0).exports;
            &&& found.json_entry
            &&& found.passthrough is None
            &&& found.exports == merged(Seq::empty(), names)
            &&& records(found) == found.exports
            &&& forall|name: Seq<char>| found.exports.contains(name) <==> names.contains(name)
            &&& forall|i: int|
                0 <= i < found.exports.len() ==> is_identifier(#[trigger] found.exports[i])
        },
{
    let first = start(base_dir, entry, env_mode);
    let state = initial(base_dir, env_mode);
    let file = Entry { path, call_indirection: false };
    let asked = Progress::Read { state, entry: file };
    let output = json_output(json_top_level_keys(source)->0);
    assert(state.worklist.push(file).drop_last() =~= state.worklist);
    assert(answered(world, first) == asked);
    assert(run(world, first, n) == run(world, asked, (n - 1) as nat));
    lemma_file_is_absorbed(world, state, file, output, (n - 1) as nat);
    let after = absorbed(state, file, output, true);
    assert(after.pending =~= Seq::empty());
    assert(advance(after) == Progress::Done(Ok(result(after))));
    lemma_done_stays(world, Ok(result(after)), (n - 2) as nat);
    lemma_run_is_orderly(world, first, n);
    lemma_records_of_sound(result(after));
    lemma_merged(Seq::empty(), output.exports);
}

/// A script that hands nothing on: the names found are the names it exports,
/// each once, in the order in which they come first, and they are what is
/// written. Names that differ from each other are found as they stand.
pub proof fn lemma_single_script(
    world: World,
    base_dir: Seq<char>,
    entry: Seq<char>,
    env_mode: Seq<char>,
    path: Seq<char>,
    names: Seq<Seq<char>>,
    n: nat,
)
    requires
        resolution(world.disk, base_dir, entry, None) == Ok::<
            Seq<char>,
            ResolutionErrorView,
        >(path),
        !is_json(path),
        gives(
            world,
            env_mode,
            Entry { path, call_indirection: false },
            OutputView { exports: names, reexports: Seq::empty() },
        ),
        n >= 3,
    ensures
        run(world, start(base_dir, entry, env_mode), n) matches Progress::Done(Ok(found)) && {
            &&& found.exports == merged(Seq::empty(), names)
            &&& found.passthrough is None
            &&& records(found) == found.exports
            &&& (names.no_duplicates() ==> found.exports == names)
        },
{
    let first = start(base_dir, entry, env_mode);
    let state = initial(base_dir, env_mode);
    let file = Entry { path, call_indirection: false };
    let asked = Progress::Read { state, entry: file };
    let output = OutputView { exports: names, reexports: Seq::empty() };
    assert(state.worklist.push(file).drop_last() =~= state.worklist);
    assert(answered(world, first) == asked);
    assert(run(world, first, n) == run(world, asked, (n - 1) as nat));
    lemma_file_is_absorbed(world, state, file, output, (n - 1) as nat);
    let after = absorbed(state, file, output, false);
    assert(advance(after) == Progress::Done(Ok(result(after))));
    lemma_done_stays(world, Ok(result(after)), (n - 3) as nat);
    if names.no_duplicates() {
        lemma_merged_new_names(Seq::empty(), names);
        assert(Seq::<Seq<char>>::empty() + names =~= names);
    }
}

/// The state after the entry file `path` gave `output`.
pub open spec fn after_entry(
    base_dir: Seq<char>,
    env_mode: Seq<char>,
    path: Seq<char>,
    output: OutputView,
) -> State {
    absorbed(
        initial(base_dir, env_mode),
        Entry { path, call_indirection: false },
        output,
        is_json(path),
    )
}

/// The entry file is resolved, read and analysed, and the discovery goes on
/// from what it gave.
pub proof fn lemma_entry_is_absorbed(
    world: World,
    base_dir: Seq<char>,
    entry: Seq<char>,
    env_mode: Seq<char>,
    path: Seq<char>,
    output: OutputView,
    n: nat,
)
    requires
        resolution(world.disk, base_dir, entry, None) == Ok::<
            Seq<char>,
            ResolutionErrorView,
        >(path),
        gives(world, env_mode, Entry { path, call_indirection: false }, output),
        n >= 1 + answers_for(path),
    ensures
        run(world, start(base_dir, entry, env_mode), n) == run(
            world,
            advance(after_entry(base_dir, env_mode, path, output)),
            (n - 1 - answers_for(path)) as nat,
        ),
{
    let first = start(base_dir, entry, env_mode);
    let state = initial(base_dir, env_mode);
    let file = Entry { path, call_indirection: false };
    let asked = Progress::Read { state, entry: file };
    assert(state.worklist.push(file).drop_last() =~= state.worklist);
    assert(answered(world, first) == asked);
    assert(run(world, first, n) == run(world, asked, (n - 1) as nat));
    lemma_file_is_absorbed(world, state, file, output, (n - 1) as nat);
}

/// A module hands on what the module it reexports exports: where the entry
/// file names one other module, and that module hands nothing on, every name
/// of either is found, those of the entry file first.
pub proof fn lemma_reexported_names_are_found(
    world: World,
    base_dir: Seq<char>,
    entry: Seq<char>,
    env_mode: Seq<char>,
    path: Seq<char>,
    own: Seq<Seq<char>>,
    reexport: Seq<char>,
    target: Seq<char>,
    theirs: Seq<Seq<char>>,
    n: nat,
)
    requires
        resolution(world.disk, base_dir, entry, None) == Ok::<
            Seq<char>,
            ResolutionErrorView,
        >(path),
        gives(
            world,
            env_mode,
            Entry { path, call_indirection: false },
            OutputView { exports: own, reexports: seq![reexport] },
        ),
        !is_builtin(without_call_marker(reexport)),
        resolution(world.disk, base_dir, without_call_marker(reexport), Some(path)) == Ok::<
            Seq<char>,
            ResolutionErrorView,
        >(target),
        gives(
            world,
            env_mode,
            Entry { path: target, call_indirection: has_call_marker(reexport) },
            OutputView { exports: theirs, reexports: Seq::empty() },
        ),
        n >= 6,
    ensures
        run(world, start(base_dir, entry, env_mode), n) matches Progress::Done(Ok(found)) && {
            &&& found.exports == merged(merged(Seq::empty(), own), theirs)
            &&& forall|name: Seq<char>|
                found.exports.contains(name) <==> own.contains(name) || theirs.contains(name)
        },
{
    let output = OutputView { exports: own, reexports: seq![reexport] };
    let theirs_output = OutputView { exports: theirs, reexports: Seq::empty() };
    lemma_entry_is_absorbed(world, base_dir, entry, env_mode, path, output, n);
    let after = after_entry(base_dir, env_mode, path, output);
    let left = (n - 1 - answers_for(path)) as nat;
    let rest = State { pending: after.pending.drop_first(), ..after };
    let flag = has_call_marker(reexport);
    let asked = Progress::Resolve {
        state: rest,
        specifier: without_call_marker(reexport),
        containing_file: Some(path),
        call_indirection: flag,
    };
    assert(after.pending[0] == reexport);
    assert(advance(after) == asked);
    assert(run(world, asked, left) == run(world, answered(world, asked), (left - 1) as nat));
    let file = Entry { path: target, call_indirection: flag };
    assert(rest.pending =~= Seq::empty());
    assert(rest.worklist.push(file).drop_last() =~= rest.worklist);
    let reading = Progress::Read { state: rest, entry: file };
    assert(answered(world, asked) == reading);
    lemma_file_is_absorbed(world, rest, file, theirs_output, (left - 1) as nat);
    let last = absorbed(rest, file, theirs_output, is_json(target));
    assert(advance(last) == Progress::Done(Ok(result(last))));
    lemma_done_stays(world, Ok(result(last)), (left - 1 - answers_for(target)) as nat);
    lemma_merged(Seq::empty(), own);
    lemma_merged(merged(Seq::empty(), own), theirs);
}

/// A reexport that ends in the call marker is resolved without it, as named in
/// the file that holds it, and the file it resolves to waits with the flag set:
/// it is the next to be read, and it is read with the flag.
pub proof fn lemma_call_marker_sets_flag(state: State, path: Seq<char>)
    requires
        state.pending.len() > 0,
        has_call_marker(state.pending[0]),
        !is_builtin(without_call_marker(state.pending[0])),
    ensures
        advance(state) matches Progress::Resolve {
            state: rest,
            specifier,
            containing_file,
            call_indirection,
        } && {
            &&& specifier == without_last(state.pending[0], 2)
            &&& containing_file == Some(state.current)
            &&& call_indirection
            &&& rest == State { pending: state.pending.drop_first(), ..state }
            &&& resolved(rest, specifier, call_indirection, Ok(path)) == advance(
                State {
                    worklist: state.worklist.push(Entry { path, call_indirection: true }),
                    pending: state.pending.drop_first(),
                    ..state
                },
            )
            &&& (state.pending.len() == 1 ==> resolved(
                rest,
                specifier,
                call_indirection,
                Ok(path),
            ) == Progress::Read {
                state: State { pending: Seq::empty(), ..state },
                entry: Entry { path, call_indirection: true },
            })
        },
{
    let rest = State { pending: state.pending.drop_first(), ..state };
    let pushed = State {
        worklist: state.worklist.push(Entry { path, call_indirection: true }),
        ..rest
    };
    if state.pending.len() == 1 {
        assert(rest.pending =~= Seq::empty());
        assert(pushed.worklist.drop_last() =~= state.worklist);
    }
}

/// A reexport that names a builtin module is passed over: nothing is resolved
/// for it, and nothing is put on the worklist.
pub proof fn lemma_builtin_is_passed_over(state: State)
    requires
        state.pending.len() > 0,
        is_builtin(without_call_marker(state.pending[0])),
    ensures
        advance(state) == advance(State { pending: state.pending.drop_first(), ..state }),
{
}

/// Where every reexport that is left names a builtin module, the discovery
/// goes on as if none were left.
pub proof fn lemma_builtins_are_passed_over(state: State)
    requires
        forall|i: int|
            0 <= i < state.pending.len() ==> is_builtin(
                without_call_marker(#[trigger] state.pending[i]),
            ),
    ensures
        advance(state) == advance(State { pending: Seq::empty(), ..state }),
    decreases state.pending.len(),
{
    if state.pending.len() > 0 {
        let rest = State { pending: state.pending.drop_first(), ..state };
        assert(is_builtin(without_call_marker(state.pending[0])));
        assert forall|i: int| 0 <= i < rest.pending.len() implies is_builtin(
            without_call_marker(#[trigger] rest.pending[i]),
        ) by {
            assert(rest.pending[i] == state.pending[i + 1]);
        }
        lemma_builtins_are_passed_over(rest);
    } else {
        assert(state.pending =~= Seq::empty());
    }
}

/// No step of a discovery asks for a builtin module that a file reexports, and
/// no passthrough names one.
pub proof fn lemma_no_builtin_is_resolved(
    world: World,
    base_dir: Seq<char>,
    entry: Seq<char>,
    env_mode: Seq<char>,
    n: nat,
)
    ensures
        match run(world, start(base_dir, entry, env_mode), n) {
            Progress::Resolve { state, specifier, .. } => state.analyzed ==> !is_builtin(
                specifier,
            ),
            Progress::Done(Ok(found)) => found.passthrough matches Some(module) ==> !is_builtin(
                module,
            ),
            _ => true,
        },
{
    lemma_run_is_orderly(world, start(base_dir, entry, env_mode), n);
}

/// An entry file that exports nothing itself and hands on one eligible module
/// is a passthrough: whatever that module turns out to export, the one record
/// written is the sentinel and the module as the file names it.
pub proof fn lemma_passthrough_entry(
    world: World,
    base_dir: Seq<char>,
    entry: Seq<char>,
    env_mode: Seq<char>,
    path: Seq<char>,
    module: Seq<char>,
    n: nat,
)
    requires
        resolution(world.disk, base_dir, entry, None) == Ok::<
            Seq<char>,
            ResolutionErrorView,
        >(path),
        gives(
            world,
            env_mode,
            Entry { path, call_indirection: false },
            OutputView { exports: Seq::empty(), reexports: seq![module] },
        ),
        eligible(module),
        n >= 1 + answers_for(path),
    ensures
        match run(world, start(base_dir, entry, env_mode), n) {
            Progress::Done(Ok(found)) => {
                &&& found.passthrough == Some(module)
                &&& records(found) == seq![sentinel() + module]
            },
            Progress::Done(Err(_)) => true,
            later => kept_so_far(later) == Some(Some(module)),
        },
{
    let output = OutputView { exports: Seq::empty(), reexports: seq![module] };
    lemma_entry_is_absorbed(world, base_dir, entry, env_mode, path, output, n);
    let after = after_entry(base_dir, env_mode, path, output);
    let left = (n - 1 - answers_for(path)) as nat;
    assert(after.passthrough == Some(module));
    assert(!is_json(path)) by {
        if is_json(path) {
            let source = (world.sources)(path)->Ok_0;
            let keys = json_top_level_keys(source)->0;
            assert(json_output(keys).reexports.len() == 0);
            assert(output.reexports.len() == 1);
        }
    }
    lemma_absorbed_is_ready(
        initial(base_dir, env_mode),
        Entry { path, call_indirection: false },
        output,
        false,
    );
    lemma_advance_is_orderly(after);
    lemma_advance_keeps_what_was_found(after);
    lemma_passthrough_stays(world, advance(after), module, left);
}

/// The end of a discovery, and the text written for it, depend on nothing but
/// the base directory, the entry specifier, the environment mode and what the
/// world answers: two worlds with the same files, the same packages, the same
/// sources and the same analyses give the same end, answer for answer.
pub proof fn lemma_same_answers_same_text(
    one: World,
    other: World,
    base_dir: Seq<char>,
    entry: Seq<char>,
    env_mode: Seq<char>,
    n: nat,
)
    requires
        one.disk.files == other.disk.files,
        one.disk.packages == other.disk.packages,
        one.sources == other.sources,
        one.analyses == other.analyses,
    ensures
        run(one, start(base_dir, entry, env_mode), n) == run(
            other,
            start(base_dir, entry, env_mode),
            n,
        ),
        match (
            run(one, start(base_dir, entry, env_mode), n),
            run(other, start(base_dir, entry, env_mode), n),
        ) {
            (Progress::Done(Ok(first)), Progress::Done(Ok(second))) => rendered(records(first))
                == rendered(records(second)),
            _ => true,
        },
{
    assert(one.disk == other.disk);
    assert(one == other);
}

} // verus!
