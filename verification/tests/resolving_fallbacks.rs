use cjs_exports::resolution::{PackageError, PackageErrorKind, ResolutionError};
use cjs_exports::resolver::{resolve, ResolveStep};

fn probed(step: ResolveStep, expected: &str, outcome: Result<bool, String>) -> ResolveStep {
    match step {
        ResolveStep::Probe(request) => {
            assert_eq!(request.path(), expected);
            request.answer(outcome)
        }
        ResolveStep::Delegate(_) => panic!("the package resolver is asked instead of {expected}"),
        ResolveStep::Done(end) => panic!("the resolution is over with {end:?} before {expected}"),
    }
}

fn absent(step: ResolveStep, paths: &[&str]) -> ResolveStep {
    let mut step = step;
    for path in paths {
        step = probed(step, path, Ok(false));
    }
    step
}

fn delegated(step: ResolveStep, outcome: Result<String, PackageError>) -> ResolveStep {
    match step {
        ResolveStep::Delegate(request) => request.answer(outcome),
        ResolveStep::Probe(request) => panic!("{} is probed", request.path()),
        ResolveStep::Done(end) => panic!("the resolution is over with {end:?}"),
    }
}

fn done(step: ResolveStep) -> Result<String, ResolutionError> {
    match step {
        ResolveStep::Done(end) => end,
        ResolveStep::Probe(request) => panic!("{} is still probed", request.path()),
        ResolveStep::Delegate(_) => panic!("the package resolver is still asked"),
    }
}

fn refusal() -> PackageError {
    PackageError { kind: PackageErrorKind::PathNotExported, message: "not exported".to_string() }
}

const PLAIN: [&str; 5] = [
    "/proj/node_modules/pkg",
    "/proj/node_modules/pkg.js",
    "/proj/node_modules/pkg.cjs",
    "/proj/node_modules/pkg/index.cjs",
    "/proj/node_modules/pkg/index.js",
];

#[test]
fn a_js_path_has_its_cjs_sibling_probed_last() {
    let step = resolve("/proj", "pkg/a.js", None);
    let step = absent(
        step,
        &[
            "/proj/node_modules/pkg/a.js",
            "/proj/node_modules/pkg/a.js.js",
            "/proj/node_modules/pkg/a.js.cjs",
            "/proj/node_modules/pkg/a.js/index.cjs",
            "/proj/node_modules/pkg/a.js/index.js",
        ],
    );
    let step = probed(step, "/proj/node_modules/pkg/a.cjs", Ok(true));
    assert_eq!(done(step), Ok("/proj/node_modules/pkg/a.cjs".to_string()));
}

#[test]
fn a_cjs_path_has_its_js_sibling_probed_last() {
    let step = resolve("/proj", "pkg/a.cjs", None);
    let step = absent(
        step,
        &[
            "/proj/node_modules/pkg/a.cjs",
            "/proj/node_modules/pkg/a.cjs.js",
            "/proj/node_modules/pkg/a.cjs.cjs",
            "/proj/node_modules/pkg/a.cjs/index.cjs",
            "/proj/node_modules/pkg/a.cjs/index.js",
        ],
    );
    let step = probed(step, "/proj/node_modules/pkg/a.js", Ok(true));
    assert_eq!(done(step), Ok("/proj/node_modules/pkg/a.js".to_string()));
}

#[test]
fn a_relative_specifier_is_placed_beside_the_file_that_names_it() {
    let step = resolve("/proj", "./util", Some("/proj/node_modules/pkg/lib/main.js"));
    let step = probed(step, "/proj/node_modules/pkg/lib/./util", Ok(false));
    let step = probed(step, "/proj/node_modules/pkg/lib/./util.js", Ok(true));
    assert_eq!(done(step), Ok("/proj/node_modules/pkg/lib/./util.js".to_string()));
}

#[test]
fn a_relative_specifier_goes_to_the_package_resolver_as_a_path() {
    let step = resolve("/proj", "../x", Some("/m/lib/a.js"));
    let step = absent(
        step,
        &[
            "/m/lib/../x",
            "/m/lib/../x.js",
            "/m/lib/../x.cjs",
            "/m/lib/../x/index.cjs",
            "/m/lib/../x/index.js",
        ],
    );
    match step {
        ResolveStep::Delegate(request) => {
            assert_eq!(request.base_dir(), "/proj");
            assert_eq!(request.specifier(), "/m/lib/../x");
        }
        _ => panic!("the package resolver is not asked"),
    }
}

#[test]
fn the_package_resolver_has_the_last_word_on_a_path() {
    let step = absent(resolve("/proj", "pkg", None), &PLAIN);
    let step = delegated(step, Ok("/proj/node_modules/pkg/dist/main.js".to_string()));
    assert_eq!(done(step), Ok("/proj/node_modules/pkg/dist/main.js".to_string()));
}

#[test]
fn another_error_of_the_package_resolver_is_handed_on() {
    let error = PackageError { kind: PackageErrorKind::Other, message: "broken".to_string() };
    let step = absent(resolve("/proj", "pkg", None), &PLAIN);
    let step = delegated(step, Err(error.clone()));
    assert_eq!(done(step), Err(ResolutionError::Package(error)));
}

#[test]
fn a_path_that_is_not_exported_is_probed_once_more() {
    let step = absent(resolve("/proj", "pkg", None), &PLAIN);
    let step = delegated(step, Err(refusal()));
    let step = probed(step, "/proj/node_modules/pkg.cjs", Ok(true));
    assert_eq!(done(step), Ok("/proj/node_modules/pkg.cjs".to_string()));
}

#[test]
fn the_second_probe_tries_js_after_cjs() {
    let step = absent(resolve("/proj", "pkg", None), &PLAIN);
    let step = delegated(step, Err(refusal()));
    let step = probed(step, "/proj/node_modules/pkg.cjs", Ok(false));
    let step = probed(step, "/proj/node_modules/pkg.js", Ok(true));
    assert_eq!(done(step), Ok("/proj/node_modules/pkg.js".to_string()));
}

#[test]
fn the_refusal_is_handed_on_where_nothing_is_found() {
    let step = absent(resolve("/proj", "pkg", None), &PLAIN);
    let step = delegated(step, Err(refusal()));
    let step = absent(step, &["/proj/node_modules/pkg.cjs", "/proj/node_modules/pkg.js"]);
    assert_eq!(done(step), Err(ResolutionError::Package(refusal())));
}

#[test]
fn a_probe_that_fails_ends_the_resolution() {
    let step = probed(resolve("/proj", "pkg", None), PLAIN[0], Ok(false));
    let step = probed(step, PLAIN[1], Err("permission denied".to_string()));
    assert_eq!(
        done(step),
        Err(ResolutionError::Io {
            path: "/proj/node_modules/pkg.js".to_string(),
            message: "permission denied".to_string(),
        })
    );
}

#[test]
fn a_base_directory_with_a_trailing_separator_is_not_doubled() {
    let step = probed(resolve("/proj/", "pkg", None), "/proj/node_modules/pkg", Ok(true));
    assert_eq!(done(step), Ok("/proj/node_modules/pkg".to_string()));
}
