//! Lookup in the session-scoped item catalog. The catalog is the list the
//! server returned; an item's name is its key, and where a name repeats the
//! entry listed last wins, as it would in a map filled front to back.

use vstd::prelude::*;
use crate::models::Item;

verus! {

/// The index of the last catalog entry carrying `name`, if any.
pub open spec fn catalog_lookup(items: Seq<Item>, name: Seq<char>) -> Option<int>
    decreases items.len(),
{
    if items.len() == 0 {
        None
    } else if items.last().name@ == name {
        Some(items.len() - 1)
    } else {
        catalog_lookup(items.drop_last(), name)
    }
}

/// Finds the catalog entry named `name`: the entry listed last under that
/// name, or nothing when the catalog has none.
#[verifier::loop_isolation(false)]
pub fn find_item<'a>(items: &'a Vec<Item>, name: &str) -> (r: Option<&'a Item>)
    ensures
        catalog_lookup(items@, name@) matches Some(k) ==> (r matches Some(it) && *it
            == items@[k]),
        catalog_lookup(items@, name@) is None ==> r is None,
{
    let name_owned: String = name.to_owned();
    let mut i: usize = items.len();
    proof {
        assert(items@.subrange(0, items@.len() as int) =~= items@);
    }
    while i > 0
        invariant
            name_owned@ == name@,
            i <= items.len(),
            catalog_lookup(items@, name@) == catalog_lookup(items@.subrange(0, i as int), name@),
        decreases i,
    {
        proof {
            assert(items@.subrange(0, i as int).last() == items@[i - 1]);
            assert(items@.subrange(0, i as int).drop_last() =~= items@.subrange(0, i - 1));
        }
        if items[i - 1].name == name_owned {
            return Some(&items[i - 1]);
        }
        i = i - 1;
    }
    proof {
        assert(items@.subrange(0, 0) =~= Seq::<Item>::empty());
    }
    None
}

} // verus!
