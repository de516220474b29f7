//! Keeping the console's lists in step with what the API reports: bounded
//! live feeds, and replacing or removing a record by its identifier.

use vstd::prelude::*;
use crate::model::Keyed;

verus! {

/// `s` with `item` put in front, cut back by its last element when that
/// makes it longer than `cap`.
pub open spec fn prepended_bounded<T>(s: Seq<T>, item: T, cap: nat) -> Seq<T> {
    let p = seq![item] + s;
    if p.len() > cap {
        p.drop_last()
    } else {
        p
    }
}

/// `i` is the first position of `s` whose record has identifier `key`.
pub open spec fn is_first_key<T: Keyed>(s: Seq<T>, key: u128, i: int) -> bool {
    &&& 0 <= i < s.len()
    &&& s[i].key_of() == key
    &&& forall|j: int| 0 <= j < i ==> (#[trigger] s[j]).key_of() != key
}

/// No record of `s` has identifier `key`.
pub open spec fn lacks_key<T: Keyed>(s: Seq<T>, key: u128) -> bool {
    forall|j: int| 0 <= j < s.len() ==> (#[trigger] s[j]).key_of() != key
}

/// The records of `s` whose identifier is not `key`, in order.
pub open spec fn without_key<T: Keyed>(s: Seq<T>, key: u128) -> Seq<T> {
    s.filter(key_differs(key))
}

/// The test "identifier differs from `key`".
pub open spec fn key_differs<T: Keyed>(key: u128) -> spec_fn(T) -> bool {
    |x: T| x.key_of() != key
}

/// Puts `item` at the front of a live feed and drops the oldest entry when
/// the feed grows past `cap`.
pub fn prepend_bounded<T>(list: &mut Vec<T>, item: T, cap: usize)
    ensures
        final(list)@ == prepended_bounded(old(list)@, item, cap as nat),
{
    list.insert(0, item);
    assert(list@ =~= seq![item] + old(list)@);
    if list.len() > cap {
        list.pop();
    }
}

/// Puts a new record at the front of a list.
pub fn prepend<T>(list: &mut Vec<T>, item: T)
    ensures
        final(list)@ == seq![item] + old(list)@,
{
    list.insert(0, item);
    assert(list@ =~= seq![item] + old(list)@);
}

/// The first position of `key` in a list of identifiers.
pub fn first_index_of(keys: &Vec<u128>, key: u128) -> (r: Option<usize>)
    ensures
        r matches Some(i) ==> i < keys.len() && keys@[i as int] == key && forall|j: int|
            0 <= j < i ==> keys@[j] != key,
        r is None ==> forall|j: int| 0 <= j < keys.len() ==> keys@[j] != key,
{
    let mut i: usize = 0;
    while i < keys.len()
        invariant
            i <= keys.len(),
            forall|j: int| 0 <= j < i ==> keys@[j] != key,
        decreases keys.len() - i,
    {
        if keys[i] == key {
            return Some(i);
        }
        i = i + 1;
    }
    None
}

/// The first position of a record with identifier `key`.
pub fn position_of_key<T: Keyed>(list: &Vec<T>, key: u128) -> (r: Option<usize>)
    ensures
        r matches Some(i) ==> is_first_key(list@, key, i as int),
        r is None ==> lacks_key(list@, key),
{
    let mut i: usize = 0;
    while i < list.len()
        invariant
            i <= list.len(),
            forall|j: int| 0 <= j < i ==> (#[trigger] list@[j]).key_of() != key,
        decreases list.len() - i,
    {
        if list[i].key() == key {
            return Some(i);
        }
        i = i + 1;
    }
    None
}

/// Replaces the first record with identifier `key` by `item`; a list
/// without that identifier is left as it is.
pub fn replace_first_with_key<T: Keyed>(list: &mut Vec<T>, key: u128, item: T)
    ensures
        lacks_key(old(list)@, key) ==> final(list)@ == old(list)@,
        forall|i: int|
            is_first_key(old(list)@, key, i) ==> final(list)@ == old(list)@.update(i, item),
{
    match position_of_key(list, key) {
        Some(p) => {
            list.set(p, item);
        },
        None => {},
    }
}

/// Removes every record with identifier `key`, keeping the others in order.
pub fn remove_with_key<T: Keyed>(list: Vec<T>, key: u128) -> (r: Vec<T>)
    ensures
        r@ == without_key(list@, key),
{
    let ghost all = list@;
    let mut kept: Vec<T> = Vec::new();
    for x in it: list.into_iter()
        invariant
            it.seq() == all,
            kept@ == all.take(it.index() as int).filter(key_differs::<T>(key)),
    {
        proof {
            assert(all.take(it.index() + 1) == all.take(it.index() as int).push(x));
            all.take(it.index() as int).lemma_filter_push(x, key_differs::<T>(key));
        }
        if x.key() != key {
            kept.push(x);
        }
    }
    assert(all.take(all.len() as int) == all);
    kept
}

} // verus!
