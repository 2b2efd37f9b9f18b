//! How what was found is written out: one record to a line.

use vstd::prelude::*;
use crate::discovery::DiscoveryView;
use crate::engine::Discovery;
use crate::json::{identifier_keys, identifiers};
use crate::text::{followed, names};

verus! {

/// What stands before the module in the record of a passthrough.
pub open spec fn sentinel() -> Seq<char> {
    "@"@
}

/// What ends a record.
pub open spec fn line_end() -> Seq<char> {
    "\n"@
}

/// The records for what was found. A passthrough is one record: the sentinel
/// and the module. Otherwise each name is a record, in the order in which the
/// names were found; after a JSON entry only the names that are identifiers
/// are.
pub open spec fn records(found: DiscoveryView) -> Seq<Seq<char>> {
    match found.passthrough {
        Some(module) => seq![sentinel() + module],
        None => if found.json_entry {
            identifiers(found.exports)
        } else {
            found.exports
        },
    }
}

/// The records as they are written: each followed by a line end.
pub open spec fn rendered(records: Seq<Seq<char>>) -> Seq<char>
    decreases records.len(),
{
    if records.len() == 0 {
        Seq::empty()
    } else {
        rendered(records.drop_last()) + records.last() + line_end()
    }
}

/// The strings of `list`, once more.
fn copied(list: &Vec<String>) -> (r: Vec<String>)
    ensures
        names(r@) == names(list@),
{
    let mut r: Vec<String> = Vec::new();
    let mut i: usize = 0;
    while i < list.len()
        invariant
            i <= list.len(),
            r.len() == i,
            forall|j: int| 0 <= j < i ==> r@[j]@ == list@[j]@,
        decreases list.len() - i,
    {
        r.push(list[i].clone());
        i += 1;
    }
    assert(names(r@) =~= names(list@));
    r
}

/// The records for what was found.
pub fn encode(found: &Discovery) -> (r: Vec<String>)
    ensures
        names(r@) == records(found@),
{
    match &found.passthrough {
        Some(module) => {
            let mut r: Vec<String> = Vec::new();
            r.push(followed("@", module.as_str()));
            assert(names(r@) =~= seq![sentinel() + module@]);
            r
        },
        None => {
            if found.json_entry {
                identifier_keys(&found.exports)
            } else {
                copied(&found.exports)
            }
        },
    }
}

/// The records as they are written: each followed by a line end.
pub fn render(records: &Vec<String>) -> (r: String)
    ensures
        r@ == rendered(names(records@)),
{
    let mut r = String::new();
    let mut i: usize = 0;
    while i < records.len()
        invariant
            i <= records.len(),
            r@ == rendered(names(records@).take(i as int)),
        decreases records.len() - i,
    {
        proof {
            let upto = names(records@).take(i + 1);
            assert(upto.drop_last() =~= names(records@).take(i as int));
            assert(upto.last() == records@[i as int]@);
        }
        r.append(records[i].as_str());
        r.append("\n");
        i += 1;
    }
    assert(names(records@).take(records.len() as int) =~= names(records@));
    r
}

} // verus!
