//! The set of named exports: each name once, in the order in which the names
//! were first found.

use vstd::prelude::*;
use indexmap::IndexSet;
use std::hash::RandomState;
use crate::text::names;

verus! {

/// `set` with `name` at its end, unless `set` holds it already.
pub open spec fn inserted(set: Seq<Seq<char>>, name: Seq<char>) -> Seq<Seq<char>> {
    if set.contains(name) {
        set
    } else {
        set.push(name)
    }
}

/// `set` after each of `found` has been inserted, from the first to the last.
pub open spec fn merged(set: Seq<Seq<char>>, found: Seq<Seq<char>>) -> Seq<Seq<char>>
    decreases found.len(),
{
    if found.len() == 0 {
        set
    } else {
        inserted(merged(set, found.drop_last()), found.last())
    }
}

/// Inserting keeps what was there where it was, adds the name, and repeats
/// nothing.
pub proof fn lemma_inserted(set: Seq<Seq<char>>, name: Seq<char>)
    ensures
        set.is_prefix_of(inserted(set, name)),
        inserted(set, name).contains(name),
        forall|other: Seq<char>|
            inserted(set, name).contains(other) <==> set.contains(other) || other == name,
        set.no_duplicates() ==> inserted(set, name).no_duplicates(),
{
    let after = inserted(set, name);
    if set.contains(name) {
        assert(set.subrange(0, set.len() as int) =~= set);
    } else {
        assert(after.subrange(0, set.len() as int) =~= set);
        assert(after[set.len() as int] == name);
        assert forall|other: Seq<char>| after.contains(other) implies set.contains(other) || other
            == name by {
            let i = choose|i: int| 0 <= i < after.len() && after[i] == other;
            if i < set.len() {
                assert(set[i] == other);
            }
        }
        assert forall|other: Seq<char>| set.contains(other) implies after.contains(other) by {
            let i = choose|i: int| 0 <= i < set.len() && set[i] == other;
            assert(after[i] == other);
        }
    }
}

/// Merging keeps what was there where it was, adds every name that was found
/// and no other, and repeats nothing.
pub proof fn lemma_merged(set: Seq<Seq<char>>, found: Seq<Seq<char>>)
    ensures
        set.is_prefix_of(merged(set, found)),
        forall|name: Seq<char>|
            merged(set, found).contains(name) <==> set.contains(name) || found.contains(name),
        set.no_duplicates() ==> merged(set, found).no_duplicates(),
    decreases found.len(),
{
    if found.len() == 0 {
        assert(set.subrange(0, set.len() as int) =~= set);
    } else {
        let earlier = found.drop_last();
        let before = merged(set, earlier);
        let after = merged(set, found);
        lemma_merged(set, earlier);
        lemma_inserted(before, found.last());
        assert(after.subrange(0, set.len() as int) =~= before.subrange(0, set.len() as int));
        assert forall|name: Seq<char>| found.contains(name) implies after.contains(name) by {
            let i = choose|i: int| 0 <= i < found.len() && found[i] == name;
            if i < earlier.len() {
                assert(earlier[i] == name);
                assert(earlier.contains(name));
                assert(before.contains(name));
            } else {
                assert(name == found.last());
            }
        }
        assert forall|name: Seq<char>| after.contains(name) implies set.contains(name)
            || found.contains(name) by {
            if before.contains(name) && !set.contains(name) {
                let i = choose|i: int| 0 <= i < earlier.len() && earlier[i] == name;
                assert(found[i] == name);
            } else if !before.contains(name) {
                assert(found[found.len() - 1] == name);
            }
        }
    }
}

/// Names that differ from each other and from all of `set` are merged as they
/// stand, in their order.
pub proof fn lemma_merged_new_names(set: Seq<Seq<char>>, found: Seq<Seq<char>>)
    requires
        found.no_duplicates(),
        forall|i: int| 0 <= i < found.len() ==> !set.contains(#[trigger] found[i]),
    ensures
        merged(set, found) == set + found,
    decreases found.len(),
{
    if found.len() == 0 {
        assert(set + found =~= set);
    } else {
        let earlier = found.drop_last();
        lemma_merged_new_names(set, earlier);
        let before = set + earlier;
        let name = found.last();
        assert(!before.contains(name)) by {
            if before.contains(name) {
                let i = choose|i: int| 0 <= i < before.len() && before[i] == name;
                if i < set.len() {
                    assert(set[i] == name);
                    assert(set.contains(found[found.len() - 1]));
                } else {
                    assert(found[i - set.len()] == found[found.len() - 1]);
                }
            }
        }
        assert(before.push(name) =~= set + found);
    }
}

/// Merging twice is merging what was found first and then what was found next.
pub proof fn lemma_merged_twice(set: Seq<Seq<char>>, first: Seq<Seq<char>>, next: Seq<Seq<char>>)
    ensures
        merged(merged(set, first), next) == merged(set, first + next),
    decreases next.len(),
{
    if next.len() == 0 {
        assert(first + next =~= first);
    } else {
        lemma_merged_twice(set, first, next.drop_last());
        assert((first + next).drop_last() =~= first + next.drop_last());
        assert((first + next).last() == next.last());
    }
}

/// `indexmap::IndexSet`, as a type whose inside is not looked into.
#[verifier::external_type_specification]
#[verifier::external_body]
#[verifier::reject_recursive_types(T)]
#[verifier::reject_recursive_types(S)]
pub struct ExIndexSet<T, S>(IndexSet<T, S>);

/// What an `indexmap::IndexSet` of strings holds, in the order in which it hands
/// its items out.
pub uninterp spec fn index_set_items(set: IndexSet<String, RandomState>) -> Seq<Seq<char>>;

/// `IndexSet::new`: a set that holds nothing.
#[verifier::external_body]
fn index_set_new() -> (set: IndexSet<String, RandomState>)
    ensures
        index_set_items(set) == Seq::<Seq<char>>::empty(),
{
    IndexSet::new()
}

/// `IndexSet::insert`: a name that the set holds already leaves it as it is, and
/// the call returns `false`; any other is put after the last item, and the call
/// returns `true`.
#[verifier::external_body]
fn index_set_insert(set: &mut IndexSet<String, RandomState>, name: String) -> (added: bool)
    ensures
        added == !index_set_items(*old(set)).contains(name@),
        index_set_items(*final(set)) == inserted(index_set_items(*old(set)), name@),
{
    set.insert(name)
}

/// `IndexSet::len`: the number of items.
#[verifier::external_body]
fn index_set_len(set: &IndexSet<String, RandomState>) -> (n: usize)
    ensures
        n == index_set_items(*set).len(),
{
    set.len()
}

/// `IndexSet::iter`: the items, each once, in the set's order.
#[verifier::external_body]
fn index_set_to_vec(set: &IndexSet<String, RandomState>) -> (items: Vec<String>)
    ensures
        names(items@) == index_set_items(*set),
{
    set.iter().cloned().collect()
}

/// An insertion-ordered set of names.
pub struct NamedExportSet {
    items: IndexSet<String, RandomState>,
}

impl View for NamedExportSet {
    type V = Seq<Seq<char>>;

    closed spec fn view(&self) -> Seq<Seq<char>> {
        index_set_items(self.items)
    }
}

impl NamedExportSet {
    /// Whether no name stands in the set twice. It holds of a new set, and every
    /// method keeps it.
    pub open spec fn distinct(&self) -> bool {
        self@.no_duplicates()
    }

    /// A set without names.
    pub fn new() -> (r: Self)
        ensures
            r@ == Seq::<Seq<char>>::empty(),
            r.distinct(),
    {
        NamedExportSet { items: index_set_new() }
    }

    /// Puts `name` at the end of the set, unless the set holds it already.
    /// Returns whether the set has grown.
    pub fn insert(&mut self, name: String) -> (added: bool)
        ensures
            added == !old(self)@.contains(name@),
            final(self)@ == inserted(old(self)@, name@),
            old(self).distinct() ==> final(self).distinct(),
    {
        proof {
            lemma_inserted(self@, name@);
        }
        index_set_insert(&mut self.items, name)
    }

    /// Inserts each of `found`, from the first to the last.
    pub fn extend(&mut self, found: &Vec<String>)
        ensures
            final(self)@ == merged(old(self)@, names(found@)),
            old(self).distinct() ==> final(self).distinct(),
    {
        let mut i: usize = 0;
        while i < found.len()
            invariant
                i <= found.len(),
                self@ == merged(old(self)@, names(found@).take(i as int)),
                old(self).distinct() ==> self.distinct(),
            decreases found.len() - i,
        {
            proof {
                let upto = names(found@).take(i + 1);
                assert(upto.drop_last() =~= names(found@).take(i as int));
                assert(upto.last() == found@[i as int]@);
            }
            self.insert(found[i].clone());
            i += 1;
        }
        assert(names(found@).take(found.len() as int) =~= names(found@));
    }

    /// The number of names.
    pub fn len(&self) -> (n: usize)
        ensures
            n == self@.len(),
    {
        index_set_len(&self.items)
    }

    /// The names, in the order in which they were first inserted.
    pub fn to_vec(&self) -> (r: Vec<String>)
        ensures
            names(r@) == self@,
    {
        index_set_to_vec(&self.items)
    }
}

} // verus!
