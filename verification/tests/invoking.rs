use cjs_exports::analysis::{parse, Options, Output, Parsed, ScriptRequest};
use cjs_exports::engine::DiscoveryStep;
use cjs_exports::invocation::{Invocation, InvocationError};
use cjs_exports::resolver::ResolveStep;

fn owned(names: &[&str]) -> Vec<String> {
    names.iter().map(|name| name.to_string()).collect()
}

#[test]
fn one_argument_names_the_module() {
    let made = Invocation::from_argument(Some("pkg".to_string()), "/proj".to_string(), None);
    assert_eq!(
        made,
        Ok(Invocation {
            base_dir: "/proj".to_string(),
            package: None,
            specifier: "pkg".to_string(),
            env_mode: "production".to_string(),
        })
    );
}

#[test]
fn the_environment_mode_is_taken_where_it_is_given() {
    let made = Invocation::from_argument(
        Some("pkg".to_string()),
        "/proj".to_string(),
        Some("development".to_string()),
    );
    assert_eq!(made.unwrap().env_mode, "development");
}

#[test]
fn no_argument_is_no_module() {
    let made = Invocation::from_argument(None, "/proj".to_string(), None);
    assert_eq!(made, Err(InvocationError::MissingSpecifier));
}

#[test]
fn lines_give_directory_package_module_and_mode() {
    let made = Invocation::from_lines(&owned(&["/proj", "consumer", "pkg/sub", "development"]));
    assert_eq!(
        made,
        Ok(Invocation {
            base_dir: "/proj".to_string(),
            package: Some("consumer".to_string()),
            specifier: "pkg/sub".to_string(),
            env_mode: "development".to_string(),
        })
    );
}

#[test]
fn the_mode_line_may_be_left_out() {
    let made = Invocation::from_lines(&owned(&["/proj", "consumer", "pkg"])).unwrap();
    assert_eq!(made.env_mode, "production");
}

#[test]
fn fewer_than_three_lines_are_too_few() {
    assert_eq!(Invocation::from_lines(&owned(&["/proj", "c"])), Err(InvocationError::MissingLines));
    assert_eq!(Invocation::from_lines(&Vec::new()), Err(InvocationError::MissingLines));
}

#[test]
fn an_invocation_begins_with_its_entry() {
    let made = Invocation::from_argument(Some("pkg".to_string()), "/proj".to_string(), None);
    match made.unwrap().begin() {
        DiscoveryStep::Resolve(request) => {
            assert_eq!(request.base_dir(), "/proj");
            assert_eq!(request.specifier(), "pkg");
            assert_eq!(request.containing_file(), None);
            match request.first_step() {
                ResolveStep::Probe(probe) => assert_eq!(probe.path(), "/proj/node_modules/pkg"),
                _ => panic!("nothing is probed"),
            }
        }
        _ => panic!("the entry is not asked for"),
    }
}

#[test]
fn options_that_are_left_out_take_their_defaults() {
    let unset = Options::unset();
    assert_eq!(unset, Options { node_env: None, call_mode: None });
    assert_eq!(unset.env_mode(), "production");
    assert!(!unset.call_indirection());
    let set = Options { node_env: Some("test".to_string()), call_mode: Some(true) };
    assert_eq!(set.env_mode(), "test");
    assert!(set.call_indirection());
}

#[test]
fn one_script_is_analysed_with_the_options() {
    let options = Options { node_env: None, call_mode: Some(true) };
    match parse("lib/a.js", "exports.a = 1", &options) {
        Parsed::Script(request) => assert_eq!(
            request,
            ScriptRequest {
                filename: "lib/a.js".to_string(),
                source: "exports.a = 1".to_string(),
                env_mode: "production".to_string(),
                call_indirection: true,
            }
        ),
        Parsed::Json(_) => panic!("a script is read as JSON"),
    }
}

#[test]
fn one_json_file_is_analysed_at_once() {
    match parse("data.json", "{\"a\": 1, \"b-c\": 2}", &Options::unset()) {
        Parsed::Json(end) => {
            assert_eq!(end, Ok(Output { exports: owned(&["a"]), reexports: vec![] }))
        }
        Parsed::Script(_) => panic!("JSON is read as a script"),
    }
    match parse("data.json", "{", &Options::unset()) {
        Parsed::Json(end) => assert_eq!(end, Err("invalid JSON".to_string())),
        Parsed::Script(_) => panic!("JSON is read as a script"),
    }
}
