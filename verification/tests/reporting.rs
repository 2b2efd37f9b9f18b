use cjs_exports::engine::DiscoveryError;
use cjs_exports::report::{describe, explain};
use cjs_exports::resolution::{PackageError, PackageErrorKind, ResolutionError};

#[test]
fn a_module_that_is_not_found_is_named() {
    let cause = ResolutionError::NotFound("./lib".to_string());
    assert_eq!(explain(&cause), "cannot find module './lib'");
    let error = DiscoveryError::Resolve { specifier: "./lib".to_string(), cause };
    assert_eq!(describe(&error), "failed to resolve './lib': cannot find module './lib'");
}

#[test]
fn the_package_resolver_speaks_for_itself() {
    let cause = ResolutionError::Package(PackageError {
        kind: PackageErrorKind::PathNotExported,
        message: "\"./x\" is not exported".to_string(),
    });
    assert_eq!(explain(&cause), "\"./x\" is not exported");
    let error = DiscoveryError::Resolve { specifier: "pkg/x".to_string(), cause };
    assert_eq!(describe(&error), "failed to resolve 'pkg/x': \"./x\" is not exported");
}

#[test]
fn a_failed_probe_names_the_path() {
    let cause = ResolutionError::Io { path: "/p/a.js".to_string(), message: "denied".to_string() };
    assert_eq!(explain(&cause), "cannot probe '/p/a.js': denied");
}

#[test]
fn a_file_that_cannot_be_read_is_named() {
    let error = DiscoveryError::Read { path: "/p/a.js".to_string(), message: "gone".to_string() };
    assert_eq!(describe(&error), "failed to read '/p/a.js': gone");
}

#[test]
fn a_file_that_cannot_be_analysed_is_named() {
    let error = DiscoveryError::Parse { path: "/p/a.js".to_string(), message: "bad".to_string() };
    assert_eq!(describe(&error), "failed to parse module '/p/a.js': bad");
}
