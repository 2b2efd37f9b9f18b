use cjs_exports::export_set::NamedExportSet;

fn owned(names: &[&str]) -> Vec<String> {
    names.iter().map(|name| name.to_string()).collect()
}

#[test]
fn a_new_set_is_empty() {
    let set = NamedExportSet::new();
    assert_eq!(set.len(), 0);
    assert_eq!(set.to_vec(), Vec::<String>::new());
}

#[test]
fn names_keep_the_order_of_their_first_insertion() {
    let mut set = NamedExportSet::new();
    assert!(set.insert("b".to_string()));
    assert!(set.insert("a".to_string()));
    assert!(set.insert("c".to_string()));
    assert_eq!(set.to_vec(), owned(&["b", "a", "c"]));
    assert_eq!(set.len(), 3);
}

#[test]
fn a_name_that_is_there_is_not_inserted_again() {
    let mut set = NamedExportSet::new();
    assert!(set.insert("x".to_string()));
    assert!(set.insert("y".to_string()));
    assert!(!set.insert("x".to_string()));
    assert_eq!(set.to_vec(), owned(&["x", "y"]));
    assert_eq!(set.len(), 2);
}

#[test]
fn extending_inserts_from_first_to_last() {
    let mut set = NamedExportSet::new();
    set.insert("b".to_string());
    set.extend(&owned(&["a", "b", "c", "a"]));
    assert_eq!(set.to_vec(), owned(&["b", "a", "c"]));
}

#[test]
fn extending_by_nothing_changes_nothing() {
    let mut set = NamedExportSet::new();
    set.insert("only".to_string());
    set.extend(&Vec::new());
    assert_eq!(set.to_vec(), owned(&["only"]));
}
