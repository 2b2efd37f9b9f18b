//! The exports of a JSON file: its top-level keys that are identifiers.

use vstd::prelude::*;
use crate::analysis::{Output, OutputView};
use crate::ident::{is_identifier, is_js_identifier};
use crate::text::names;

verus! {

/// `serde_json::Error`, as a type whose inside is not looked into.
#[verifier::external_type_specification]
#[verifier::external_body]
pub struct ExJsonError(serde_json::Error);

/// What `serde_json` makes of a text: `None` where it is not one JSON value,
/// `Some(None)` where the value is no object, and `Some(Some(keys))` for an
/// object, whose keys are `keys` in the order in which its map hands them out.
pub uninterp spec fn json_top_level_keys(source: Seq<char>) -> Option<Option<Seq<Seq<char>>>>;

/// `serde_json::from_str` to a `Value`, then `Value::as_object` and
/// `Map::keys`: the keys of the top-level object, `None` for a value that is no
/// object, the parser's error for a text that is not one JSON value.
#[verifier::external_body]
fn top_level_keys(source: &str) -> (r: Result<Option<Vec<String>>, serde_json::Error>)
    ensures
        match r {
            Ok(Some(keys)) => json_top_level_keys(source@) == Some(Some(names(keys@))),
            Ok(None) => json_top_level_keys(source@) == Some(None::<Seq<Seq<char>>>),
            Err(_) => json_top_level_keys(source@) is None,
        },
{
    let value: serde_json::Value = serde_json::from_str(source)?;
    match value.as_object() {
        Some(object) => Ok(Some(object.keys().cloned().collect())),
        None => Ok(None),
    }
}

/// A text that was to be JSON and is not.
#[derive(Clone, Copy, Debug, PartialEq, Eq)]
pub struct MalformedJson;

/// The names among `keys` that are identifiers, in their order.
pub open spec fn identifiers(keys: Seq<Seq<char>>) -> Seq<Seq<char>> {
    keys.filter(|key: Seq<char>| is_identifier(key))
}

/// What a JSON file with these top-level keys offers: the keys that are
/// identifiers, and no reexports. A value that is no object offers nothing.
pub open spec fn json_output(keys: Option<Seq<Seq<char>>>) -> OutputView {
    match keys {
        Some(keys) => OutputView { exports: identifiers(keys), reexports: Seq::empty() },
        None => OutputView { exports: Seq::empty(), reexports: Seq::empty() },
    }
}

/// The names among `keys` that are identifiers, in their order.
pub fn identifier_keys(keys: &Vec<String>) -> (r: Vec<String>)
    ensures
        names(r@) == identifiers(names(keys@)),
{
    let ghost all = names(keys@);
    let ghost pred = |key: Seq<char>| is_identifier(key);
    let mut r: Vec<String> = Vec::new();
    let mut i: usize = 0;
    proof {
        assert(all.take(0) =~= Seq::<Seq<char>>::empty());
        reveal(Seq::filter);
        assert(names(r@) =~= all.take(0).filter(pred));
    }
    while i < keys.len()
        invariant
            i <= keys.len(),
            all == names(keys@),
            pred == (|key: Seq<char>| is_identifier(key)),
            names(r@) == all.take(i as int).filter(pred),
        decreases keys.len() - i,
    {
        proof {
            assert(all.take(i + 1) =~= all.take(i as int).push(all[i as int]));
            Seq::lemma_filter_push(all.take(i as int), all[i as int], pred);
        }
        if is_js_identifier(keys[i].as_str()) {
            let ghost before = names(r@);
            r.push(keys[i].clone());
            assert(names(r@) =~= before.push(all[i as int]));
        }
        i += 1;
    }
    assert(all.take(keys.len() as int) =~= all);
    r
}

/// What the analysis of a JSON file gives, from its top-level keys.
pub fn output_of_keys(keys: Option<Vec<String>>) -> (r: Output)
    ensures
        r@ == json_output(
            match keys {
                Some(keys) => Some(names(keys@)),
                None => None,
            },
        ),
{
    match keys {
        Some(keys) => {
            let exports = identifier_keys(&keys);
            let reexports: Vec<String> = Vec::new();
            assert(names(reexports@) =~= Seq::<Seq<char>>::empty());
            Output { exports, reexports }
        },
        None => {
            let exports: Vec<String> = Vec::new();
            let reexports: Vec<String> = Vec::new();
            assert(names(exports@) =~= Seq::<Seq<char>>::empty());
            Output { exports, reexports }
        },
    }
}

/// The analysis of a JSON file: its top-level keys that are identifiers, in the
/// order of the parsed object, and no reexports. A text that is not JSON is an
/// error; a JSON value that is no object offers nothing.
pub fn analyze_json(source: &str) -> (r: Result<Output, MalformedJson>)
    ensures
        match json_top_level_keys(source@) {
            Some(keys) => r matches Ok(output) && output@ == json_output(keys),
            None => r is Err,
        },
{
    match top_level_keys(source) {
        Ok(keys) => Ok(output_of_keys(keys)),
        Err(_) => Err(MalformedJson),
    }
}

} // verus!
