//! Generic container-transformation helpers: filter/collect utilities over
//! sequence and key-value containers, driven by a caller-supplied test
//! function. The test function is an arbitrary callable, so the contracts
//! speak of it through `call_requires` / `call_ensures`: each helper's
//! result is pinned to a trace of the test function's answers.

use std::collections::HashMap;
use std::hash::Hash;
use vstd::prelude::*;
use vstd::std_specs::iter::IteratorSpec;

verus! {

broadcast use vstd::std_specs::hash::group_hash_axioms;

/// The values of the `Some` entries of `s`, in order.
pub open spec fn filter_somes<R>(s: Seq<Option<R>>) -> Seq<R>
    decreases s.len(),
{
    if s.len() == 0 {
        Seq::empty()
    } else {
        let rest = filter_somes(s.drop_last());
        match s.last() {
            Option::Some(r) => rest.push(r),
            Option::None => rest,
        }
    }
}

/// The map built by inserting the `Some` entries of `s` in order (a later
/// entry under the same key wins).
pub open spec fn insert_somes<K, R>(s: Seq<Option<(K, R)>>) -> Map<K, R>
    decreases s.len(),
{
    if s.len() == 0 {
        Map::empty()
    } else {
        let rest = insert_somes(s.drop_last());
        match s.last() {
            Option::Some(p) => rest.insert(p.0, p.1),
            Option::None => rest,
        }
    }
}

/// `picks` is a possible trace of `test_fn`'s answers over the elements of
/// `refs`, one answer per element, in order.
pub open spec fn picked_over<T, R, F: Fn(&T) -> Option<R>>(
    refs: Seq<T>,
    test_fn: F,
    picks: Seq<Option<R>>,
) -> bool {
    &&& picks.len() == refs.len()
    &&& forall|i: int|
        0 <= i < refs.len() ==> call_ensures(test_fn, (&refs[i],), #[trigger] picks[i])
}

/// Keeps, in input order, the values that `test_fn` yields for the elements
/// of `refs`: the result is exactly the `Some` answers of one run of the
/// test function over the whole vector.
pub fn vec_field_to_vec<T, R, F: Fn(&T) -> Option<R>>(refs: &Vec<T>, test_fn: F) -> (data: Vec<R>)
    requires
        forall|i: int| 0 <= i < refs@.len() ==> call_requires(test_fn, (&refs@[i],)),
    ensures
        exists|picks: Seq<Option<R>>|
            #[trigger] picked_over(refs@, test_fn, picks) && data@ == filter_somes(picks),
{
    let mut data: Vec<R> = Vec::new();
    let ghost mut picks: Seq<Option<R>> = Seq::empty();
    let mut j: usize = 0;
    while j < refs.len()
        invariant
            j <= refs@.len(),
            picks.len() == j,
            forall|i: int| 0 <= i < refs@.len() ==> call_requires(test_fn, (&refs@[i],)),
            forall|i: int| 0 <= i < j ==> call_ensures(test_fn, (&refs@[i],), #[trigger] picks[i]),
            data@ == filter_somes(picks),
        decreases refs@.len() - j,
    {
        let r = &refs[j];
        let res = test_fn(r);
        proof {
            let prev = picks;
            picks = picks.push(res);
            assert(picks.drop_last() =~= prev);
            assert(filter_somes(picks) == match res {
                Option::Some(item) => filter_somes(prev).push(item),
                Option::None => filter_somes(prev),
            });
        }
        if let Some(item) = res {
            data.push(item);
        }
        j += 1;
    }
    proof {
        assert(picked_over(refs@, test_fn, picks));
    }
    data
}

/// Collects the key/value pairs that `test_fn` yields for the elements of
/// `refs` into a hash map, a later pair under the same key replacing an
/// earlier one: the result is the map of the `Some` answers of one run of
/// the test function over the whole vector.
pub fn vec_field_hashmap<T, K: Eq + Hash, R, F: Fn(&T) -> Option<(K, R)>>(
    refs: &Vec<T>,
    test_fn: F,
) -> (data: HashMap<K, R>)
    requires
        forall|i: int| 0 <= i < refs@.len() ==> call_requires(test_fn, (&refs@[i],)),
    ensures
        exists|picks: Seq<Option<(K, R)>>|
            #[trigger] picked_over(refs@, test_fn, picks)
                && (vstd::std_specs::hash::obeys_key_model::<K>() ==> data@ == insert_somes(
                picks,
            )),
{
    let mut data: HashMap<K, R> = HashMap::new();
    let ghost mut picks: Seq<Option<(K, R)>> = Seq::empty();
    let mut j: usize = 0;
    while j < refs.len()
        invariant
            j <= refs@.len(),
            picks.len() == j,
            forall|i: int| 0 <= i < refs@.len() ==> call_requires(test_fn, (&refs@[i],)),
            forall|i: int|
                0 <= i < j ==> call_ensures(test_fn, (&refs@[i],), #[trigger] picks[i]),
            vstd::std_specs::hash::obeys_key_model::<K>() ==> data@ == insert_somes(picks),
        decreases refs@.len() - j,
    {
        let r = &refs[j];
        let res = test_fn(r);
        proof {
            let prev = picks;
            picks = picks.push(res);
            assert(picks.drop_last() =~= prev);
            assert(insert_somes(picks) == match res {
                Option::Some(p) => insert_somes(prev).insert(p.0, p.1),
                Option::None => insert_somes(prev),
            });
        }
        if let Some((key, val)) = res {
            data.insert(key, val);
        }
        j += 1;
    }
    proof {
        assert(picked_over(refs@, test_fn, picks));
    }
    data
}

/// `picks` is a possible trace of `test_fn`'s answers over the key/value
/// entries of `entries`, one answer per entry, in order.
pub open spec fn picked_over_entries<K, V, R, F: Fn(&K, &V) -> Option<R>>(
    entries: Seq<(&K, &V)>,
    test_fn: F,
    picks: Seq<Option<R>>,
) -> bool {
    &&& picks.len() == entries.len()
    &&& forall|i: int|
        0 <= i < entries.len() ==> call_ensures(
            test_fn,
            (entries[i].0, entries[i].1),
            #[trigger] picks[i],
        )
}

/// Keeps the values that `test_fn` yields for the entries of the map, in
/// the order the map hands its entries out: the result is exactly the
/// `Some` answers of one run of the test function over every entry.
pub fn hashmap_field_to_vec<K, V, R, F: Fn(&K, &V) -> Option<R>>(
    refs: &HashMap<K, V>,
    test_fn: F,
) -> (data: Vec<R>)
    requires
        vstd::std_specs::hash::obeys_key_model::<K>(),
        forall|k: &K, v: &V| call_requires(test_fn, (k, v)),
    ensures
        ({
            let entries = vstd::std_specs::hash::spec_hash_map_iter(refs).remaining();
            &&& entries.len() == refs@.dom().len()
            &&& forall|i: int|
                0 <= i < entries.len() ==> refs@.contains_key(*(#[trigger] entries[i]).0)
                    && refs@[*entries[i].0] == *entries[i].1
            &&& forall|k: K| #[trigger]
                refs@.contains_key(k) ==> entries.contains((&k, &refs@[k]))
            &&& exists|picks: Seq<Option<R>>|
                #[trigger] picked_over_entries(entries, test_fn, picks) && data@ == filter_somes(
                    picks,
                )
        }),
{
    let mut data: Vec<R> = Vec::new();
    let ghost mut picks: Seq<Option<R>> = Seq::empty();
    for pair in it: refs.iter()
        invariant
            forall|k: &K, v: &V| call_requires(test_fn, (k, v)),
            picks.len() == it.index(),
            forall|i: int|
                0 <= i < it.index() ==> call_ensures(
                    test_fn,
                    (it.seq()[i].0, it.seq()[i].1),
                    #[trigger] picks[i],
                ),
            data@ == filter_somes(picks),
            it.seq() == vstd::std_specs::hash::spec_hash_map_iter(refs).remaining(),
    {
        let res = test_fn(pair.0, pair.1);
        proof {
            let prev = picks;
            picks = picks.push(res);
            assert(picks.drop_last() =~= prev);
            assert(filter_somes(picks) == match res {
                Option::Some(val) => filter_somes(prev).push(val),
                Option::None => filter_somes(prev),
            });
        }
        if let Some(val) = res {
            data.push(val);
        }
    }
    proof {
        let entries = vstd::std_specs::hash::spec_hash_map_iter(refs).remaining();
        assert(picked_over_entries(entries, test_fn, picks));
    }
    data
}

/// Whether some element of `refs` passes `test_fn` against `target`: true
/// exactly when one call of the test function answered true; on a false
/// result, every element was tried and answered false.
pub fn vec_find_ok<T: Eq, V: Eq, F: Fn(&T, &V) -> bool>(
    refs: &Vec<T>,
    target: V,
    test_fn: F,
) -> (found: bool)
    requires
        forall|i: int| 0 <= i < refs@.len() ==> call_requires(test_fn, (&refs@[i], &target)),
    ensures
        found ==> exists|i: int|
            0 <= i < refs@.len() && call_ensures(test_fn, (&refs@[i], &target), true),
        !found ==> forall|i: int|
            0 <= i < refs@.len() ==> call_ensures(test_fn, (&refs@[i], &target), false),
{
    let mut j: usize = 0;
    while j < refs.len()
        invariant
            j <= refs@.len(),
            forall|i: int| 0 <= i < refs@.len() ==> call_requires(test_fn, (&refs@[i], &target)),
            forall|i: int| 0 <= i < j ==> call_ensures(test_fn, (&refs@[i], &target), false),
        decreases refs@.len() - j,
    {
        let r = &refs[j];
        if test_fn(r, &target) == true {
            return true;
        }
        j += 1;
    }
    false
}

} // verus!
