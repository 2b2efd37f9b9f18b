use cjs_exports::encoder::{encode, render};
use cjs_exports::engine::Discovery;

fn owned(names: &[&str]) -> Vec<String> {
    names.iter().map(|name| name.to_string()).collect()
}

#[test]
fn each_name_is_a_record_in_its_order() {
    let found = Discovery { exports: owned(&["b", "a", "c"]), passthrough: None, json_entry: false };
    assert_eq!(encode(&found), owned(&["b", "a", "c"]));
    assert_eq!(render(&encode(&found)), "b\na\nc\n");
}

#[test]
fn a_passthrough_is_one_record_with_the_sentinel() {
    let found = Discovery {
        exports: owned(&["x", "y"]),
        passthrough: Some("other-pkg".to_string()),
        json_entry: false,
    };
    assert_eq!(encode(&found), owned(&["@other-pkg"]));
    assert_eq!(render(&encode(&found)), "@other-pkg\n");
}

#[test]
fn names_of_a_json_entry_are_checked_once_more() {
    let found = Discovery {
        exports: owned(&["ok", "foo-bar", "1x", "$fine"]),
        passthrough: None,
        json_entry: true,
    };
    assert_eq!(encode(&found), owned(&["ok", "$fine"]));
    assert_eq!(render(&encode(&found)), "ok\n$fine\n");
}

#[test]
fn names_of_a_script_entry_are_written_as_they_are() {
    let found = Discovery {
        exports: owned(&["ok", "foo-bar"]),
        passthrough: None,
        json_entry: false,
    };
    assert_eq!(encode(&found), owned(&["ok", "foo-bar"]));
}

#[test]
fn nothing_found_is_nothing_written() {
    let found = Discovery { exports: vec![], passthrough: None, json_entry: false };
    assert_eq!(encode(&found), Vec::<String>::new());
    assert_eq!(render(&encode(&found)), "");
}

#[test]
fn the_same_discovery_is_written_the_same() {
    let found = Discovery { exports: owned(&["a", "b"]), passthrough: None, json_entry: false };
    assert_eq!(render(&encode(&found)), render(&encode(&found.clone())));
}
