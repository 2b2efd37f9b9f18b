use cjs_exports::resolution::ResolutionError;
use cjs_exports::resolver::{resolve, ResolveStep};

fn probed(step: ResolveStep, expected: &str, is_file: bool) -> ResolveStep {
    match step {
        ResolveStep::Probe(request) => {
            assert_eq!(request.path(), expected);
            request.answer(Ok(is_file))
        }
        ResolveStep::Delegate(_) => panic!("the package resolver is asked instead of {expected}"),
        ResolveStep::Done(end) => panic!("the resolution is over with {end:?} before {expected}"),
    }
}

fn absent(step: ResolveStep, paths: &[&str]) -> ResolveStep {
    let mut step = step;
    for path in paths {
        step = probed(step, path, false);
    }
    step
}


fn done(step: ResolveStep) -> Result<String, ResolutionError> {
    match step {
        ResolveStep::Done(end) => end,
        ResolveStep::Probe(request) => panic!("{} is still probed", request.path()),
        ResolveStep::Delegate(_) => panic!("the package resolver is still asked"),
    }
}

const BARE: [&str; 5] = [
    "/proj/node_modules/pkg/sub",
    "/proj/node_modules/pkg/sub.js",
    "/proj/node_modules/pkg/sub.cjs",
    "/proj/node_modules/pkg/sub/index.cjs",
    "/proj/node_modules/pkg/sub/index.js",
];

#[test]
fn an_absolute_path_is_its_own_result() {
    assert_eq!(done(resolve("/proj", "/abs/file.js", None)), Ok("/abs/file.js".to_string()));
    assert_eq!(done(resolve("/proj", "/abs/dir", Some("/x/y.js"))), Ok("/abs/dir".to_string()));
}

#[test]
fn a_file_url_is_its_own_result() {
    assert_eq!(done(resolve("/proj", "file:///a/b.js", None)), Ok("file:///a/b.js".to_string()));
}

#[test]
fn a_relative_specifier_needs_a_file() {
    assert_eq!(
        done(resolve("/proj", "./lib", None)),
        Err(ResolutionError::NotFound("./lib".to_string()))
    );
    assert_eq!(
        done(resolve("/proj", "../lib", None)),
        Err(ResolutionError::NotFound("../lib".to_string()))
    );
}

#[test]
fn bare_dots_stand_for_index_files() {
    assert_eq!(
        done(resolve("/proj", ".", None)),
        Err(ResolutionError::NotFound("./index.js".to_string()))
    );
    assert_eq!(
        done(resolve("/proj", "..", None)),
        Err(ResolutionError::NotFound("../index.js".to_string()))
    );
    let step = resolve("/proj", ".", Some("/proj/node_modules/pkg/lib/a.js"));
    let step = probed(step, "/proj/node_modules/pkg/lib/./index.js", true);
    assert_eq!(done(step), Ok("/proj/node_modules/pkg/lib/./index.js".to_string()));
    let step = resolve("/proj", "..", Some("/proj/node_modules/pkg/lib/a.js"));
    let step = probed(step, "/proj/node_modules/pkg/lib/../index.js", true);
    assert_eq!(done(step), Ok("/proj/node_modules/pkg/lib/../index.js".to_string()));
}

#[test]
fn a_specifier_that_still_begins_with_a_dot_is_not_found() {
    assert_eq!(
        done(resolve("/proj", ".hidden", None)),
        Err(ResolutionError::NotFound(".hidden".to_string()))
    );
    assert_eq!(
        done(resolve("/proj", "./x", Some("entry.js"))),
        Err(ResolutionError::NotFound("./x".to_string()))
    );
}

#[test]
fn a_bare_specifier_is_probed_under_node_modules_in_order() {
    let step = absent(resolve("/proj", "pkg/sub", None), &BARE);
    match step {
        ResolveStep::Delegate(request) => {
            assert_eq!(request.base_dir(), "/proj");
            assert_eq!(request.specifier(), "pkg/sub");
            assert_eq!(request.condition_names(), vec!["node".to_string(), "require".to_string()]);
        }
        _ => panic!("the package resolver is not asked"),
    }
}

#[test]
fn the_exact_path_wins_where_it_is_a_file() {
    let step = probed(resolve("/proj", "pkg/sub", None), BARE[0], true);
    assert_eq!(done(step), Ok(BARE[0].to_string()));
}

#[test]
fn the_cjs_file_is_found_after_the_js_file() {
    let step = absent(resolve("/proj", "pkg/sub", None), &BARE[..2]);
    let step = probed(step, BARE[2], true);
    assert_eq!(done(step), Ok("/proj/node_modules/pkg/sub.cjs".to_string()));
}

#[test]
fn the_js_file_wins_over_the_cjs_file() {
    let step = absent(resolve("/proj", "pkg/sub", None), &BARE[..1]);
    let step = probed(step, BARE[1], true);
    assert_eq!(done(step), Ok("/proj/node_modules/pkg/sub.js".to_string()));
}

#[test]
fn index_files_are_probed_cjs_first() {
    let step = absent(resolve("/proj", "pkg/sub", None), &BARE[..3]);
    let step = probed(step, BARE[3], true);
    assert_eq!(done(step), Ok("/proj/node_modules/pkg/sub/index.cjs".to_string()));
    let step = absent(resolve("/proj", "pkg/sub", None), &BARE[..4]);
    let step = probed(step, BARE[4], true);
    assert_eq!(done(step), Ok("/proj/node_modules/pkg/sub/index.js".to_string()));
}
