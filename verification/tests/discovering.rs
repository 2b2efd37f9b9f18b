use cjs_exports::analysis::Output;
use cjs_exports::engine::{discover, Discovery, DiscoveryError, DiscoveryStep};
use cjs_exports::resolution::ResolutionError;

fn owned(names: &[&str]) -> Vec<String> {
    names.iter().map(|name| name.to_string()).collect()
}

fn output(exports: &[&str], reexports: &[&str]) -> Output {
    Output { exports: owned(exports), reexports: owned(reexports) }
}

fn resolved(step: DiscoveryStep, specifier: &str, file: Option<&str>, path: &str) -> DiscoveryStep {
    match step {
        DiscoveryStep::Resolve(request) => {
            assert_eq!(request.base_dir(), "/proj");
            assert_eq!(request.specifier(), specifier);
            assert_eq!(request.containing_file(), file);
            request.answer(Ok(path.to_string()))
        }
        _ => panic!("{specifier} is not asked for"),
    }
}

fn read(step: DiscoveryStep, path: &str, source: &str) -> DiscoveryStep {
    match step {
        DiscoveryStep::Read(request) => {
            assert_eq!(request.path(), path);
            request.answer(Ok(source.to_string()))
        }
        _ => panic!("{path} is not read"),
    }
}

fn analyzed(step: DiscoveryStep, path: &str, flag: bool, given: Output) -> DiscoveryStep {
    match step {
        DiscoveryStep::Analyze(request) => {
            assert_eq!(request.path(), path);
            assert_eq!(request.env_mode(), "production");
            assert_eq!(request.call_indirection(), flag);
            request.answer(Ok(given))
        }
        _ => panic!("{path} is not analysed"),
    }
}

fn script(step: DiscoveryStep, path: &str, flag: bool, given: Output) -> DiscoveryStep {
    analyzed(read(step, path, "/* script */"), path, flag, given)
}

fn done(step: DiscoveryStep) -> Result<Discovery, DiscoveryError> {
    match step {
        DiscoveryStep::Done(end) => end,
        DiscoveryStep::Resolve(request) => panic!("{} is still asked for", request.specifier()),
        DiscoveryStep::Read(request) => panic!("{} is still read", request.path()),
        DiscoveryStep::Analyze(request) => panic!("{} is still analysed", request.path()),
    }
}

fn entry(specifier: &str, path: &str) -> DiscoveryStep {
    resolved(discover("/proj", specifier, "production"), specifier, None, path)
}

const A: &str = "/proj/node_modules/a/index.js";
const B: &str = "/proj/node_modules/b/index.js";
const C: &str = "/proj/node_modules/c/index.js";

#[test]
fn assigned_names_are_found_in_the_order_of_their_first_assignment() {
    let step = script(entry("a", A), A, false, output(&["foo", "bar", "foo", "baz"], &[]));
    assert_eq!(
        done(step),
        Ok(Discovery { exports: owned(&["foo", "bar", "baz"]), passthrough: None, json_entry: false })
    );
}

#[test]
fn a_json_entry_exports_its_identifier_keys() {
    let path = "/proj/node_modules/a/data.json";
    let step = read(entry("a/data.json", path), path, "{\"a\": 1, \"foo-bar\": 2, \"1x\": 3, \"b\": 4}");
    assert_eq!(
        done(step),
        Ok(Discovery { exports: owned(&["a", "b"]), passthrough: None, json_entry: true })
    );
}

#[test]
fn a_reexported_module_hands_its_names_on() {
    let step = script(entry("a", A), A, false, output(&["own"], &["./b"]));
    let step = resolved(step, "./b", Some(A), B);
    let step = script(step, B, false, output(&["x"], &[]));
    let found = done(step).unwrap();
    assert_eq!(found.exports, owned(&["own", "x"]));
    assert_eq!(found.passthrough, None);
}

#[test]
fn the_call_marker_is_taken_off_and_sets_the_flag() {
    let step = script(entry("a", A), A, false, output(&["own"], &["./factory()"]));
    let step = resolved(step, "./factory", Some(A), B);
    let step = script(step, B, true, output(&["made"], &[]));
    assert_eq!(done(step).unwrap().exports, owned(&["own", "made"]));
}

#[test]
fn a_builtin_reexport_is_passed_over() {
    let step = script(entry("a", A), A, false, output(&["own"], &["fs", "node:path", "util()"]));
    assert_eq!(
        done(step),
        Ok(Discovery { exports: owned(&["own"]), passthrough: None, json_entry: false })
    );
}

#[test]
fn a_builtin_between_reexports_does_not_stop_the_others() {
    let step = script(entry("a", A), A, false, output(&[], &["fs", "./b"]));
    let step = resolved(step, "./b", Some(A), B);
    let step = script(step, B, false, output(&["x"], &[]));
    let found = done(step).unwrap();
    assert_eq!(found.exports, owned(&["x"]));
    assert_eq!(found.passthrough, None);
}

#[test]
fn an_entry_that_only_hands_on_one_package_is_a_passthrough() {
    let step = script(entry("a", A), A, false, output(&[], &["other-pkg"]));
    let step = resolved(step, "other-pkg", Some(A), B);
    let step = script(step, B, false, output(&["x", "y"], &[]));
    let found = done(step).unwrap();
    assert_eq!(found.passthrough, Some("other-pkg".to_string()));
    assert_eq!(found.exports, owned(&["x", "y"]));
}

#[test]
fn reexports_that_are_not_eligible_make_no_passthrough() {
    for raw in ["./b", "../b", "/abs/b", "b()"] {
        let step = script(entry("a", A), A, false, output(&[], &[raw]));
        let specifier = raw.strip_suffix("()").unwrap_or(raw);
        let step = resolved(step, specifier, Some(A), B);
        let step = script(step, B, raw.ends_with("()"), output(&["x"], &[]));
        assert_eq!(done(step).unwrap().passthrough, None);
    }
    let step = script(entry("a", A), A, false, output(&[], &["fs"]));
    assert_eq!(done(step).unwrap().passthrough, None);
}

#[test]
fn only_the_entry_can_be_a_passthrough() {
    let step = script(entry("a", A), A, false, output(&["own"], &["./b"]));
    let step = resolved(step, "./b", Some(A), B);
    let step = script(step, B, false, output(&[], &["c"]));
    let step = resolved(step, "c", Some(B), C);
    let step = script(step, C, false, output(&["deep"], &[]));
    let found = done(step).unwrap();
    assert_eq!(found.passthrough, None);
    assert_eq!(found.exports, owned(&["own", "deep"]));
}

#[test]
fn a_name_reached_twice_is_found_once() {
    let step = script(entry("a", A), A, false, output(&["shared"], &["./b", "./c"]));
    let step = resolved(step, "./b", Some(A), B);
    let step = resolved(step, "./c", Some(A), C);
    let step = script(step, C, false, output(&["shared", "c"], &[]));
    let step = script(step, B, false, output(&["b", "shared", "c"], &[]));
    assert_eq!(done(step).unwrap().exports, owned(&["shared", "c", "b"]));
}

#[test]
fn the_file_found_last_is_read_first() {
    let step = script(entry("a", A), A, false, output(&[], &["./b", "./c"]));
    let step = resolved(step, "./b", Some(A), B);
    let step = resolved(step, "./c", Some(A), C);
    match step {
        DiscoveryStep::Read(request) => assert_eq!(request.path(), C),
        _ => panic!("no file is read"),
    }
}

#[test]
fn a_reexported_json_file_is_analysed_at_once() {
    let path = "/proj/node_modules/a/data.json";
    let step = script(entry("a", A), A, false, output(&["own"], &["./data.json"]));
    let step = resolved(step, "./data.json", Some(A), path);
    let step = read(step, path, "{\"k\": 1, \"not-a-name\": 2}");
    assert_eq!(
        done(step),
        Ok(Discovery { exports: owned(&["own", "k"]), passthrough: None, json_entry: false })
    );
}

#[test]
fn a_specifier_that_does_not_resolve_ends_the_discovery() {
    let cause = ResolutionError::NotFound("./missing".to_string());
    let step = script(entry("a", A), A, false, output(&["own"], &["./missing"]));
    let step = match step {
        DiscoveryStep::Resolve(request) => request.answer(Err(cause.clone())),
        _ => panic!("nothing is asked for"),
    };
    assert_eq!(
        done(step),
        Err(DiscoveryError::Resolve { specifier: "./missing".to_string(), cause })
    );
}

#[test]
fn a_file_that_cannot_be_read_ends_the_discovery() {
    let step = match entry("a", A) {
        DiscoveryStep::Read(request) => request.answer(Err("no such file".to_string())),
        _ => panic!("nothing is read"),
    };
    assert_eq!(
        done(step),
        Err(DiscoveryError::Read { path: A.to_string(), message: "no such file".to_string() })
    );
}

#[test]
fn a_script_that_cannot_be_analysed_ends_the_discovery() {
    let step = match read(entry("a", A), A, "not a script") {
        DiscoveryStep::Analyze(request) => {
            assert_eq!(request.source(), "not a script");
            request.answer(Err("unexpected token".to_string()))
        }
        _ => panic!("nothing is analysed"),
    };
    assert_eq!(
        done(step),
        Err(DiscoveryError::Parse { path: A.to_string(), message: "unexpected token".to_string() })
    );
}

#[test]
fn a_json_file_that_does_not_parse_ends_the_discovery() {
    let path = "/proj/node_modules/a/data.json";
    let step = read(entry("a/data.json", path), path, "{\"a\": ");
    assert_eq!(
        done(step),
        Err(DiscoveryError::Parse { path: path.to_string(), message: "invalid JSON".to_string() })
    );
}

#[test]
fn the_same_answers_give_the_same_end() {
    let run = || {
        let step = script(entry("a", A), A, false, output(&["one", "two"], &["./b"]));
        let step = resolved(step, "./b", Some(A), B);
        done(script(step, B, false, output(&["three"], &[])))
    };
    assert_eq!(run(), run());
}
