//! Walking a sorted map in the order of its keys.

use std::collections::BTreeMap;
use vstd::prelude::*;
use vstd::std_specs::btree::increasing_seq;
use vstd::std_specs::cmp::OrdSpec;
use vstd::std_specs::iter::IteratorSpec;

verus! {

/// The keys of `map`, each once, from the lowest to the highest.
pub fn keys_in_order<V>(map: &BTreeMap<u64, V>) -> (keys: Vec<u64>)
    ensures
        forall|i: int, j: int| 0 <= i < j < keys@.len() ==> keys@[i] < keys@[j],
        forall|i: int| 0 <= i < keys@.len() ==> map@.contains_key(#[trigger] keys@[i]),
        forall|key: u64| map@.contains_key(key) ==> keys@.contains(key),
{
    let mut keys: Vec<u64> = Vec::new();
    for key in walk: map.keys()
        invariant
            keys@.len() == walk.index(),
            walk.seq() == map.keys().remaining(),
            forall|i: int| 0 <= i < keys@.len() ==> keys@[i] == *walk.seq()[i],
    {
        keys.push(*key);
    }
    proof {
        let walked = map.keys().remaining();
        assert(keys@.len() == walked.len());
        assert(increasing_seq(walked));
        assert forall|i: int, j: int| 0 <= i < j < keys@.len() implies keys@[i] < keys@[j] by {
            assert(keys@[i] == *walked[i]);
            assert(keys@[j] == *walked[j]);
            assert(OrdSpec::cmp_spec(&walked[i], &walked[j]) is Less);
        }
        assert forall|i: int| 0 <= i < keys@.len() implies map@.contains_key(
            #[trigger] keys@[i],
        ) by {
            assert(walked.unref()[i] == keys@[i]);
            assert(walked.unref().to_set().contains(keys@[i]));
        }
        assert forall|key: u64| map@.contains_key(key) implies keys@.contains(key) by {
            assert(walked.unref().to_set().contains(key));
            let i = choose|i: int| 0 <= i < walked.unref().len() && walked.unref()[i] == key;
            assert(keys@[i] == key);
        }
    }
    keys
}

} // verus!
