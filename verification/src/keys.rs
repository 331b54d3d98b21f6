use vstd::prelude::*;
use std::collections::{HashMap, HashSet};
use vstd::std_specs::hash::{spec_hash_keys_iter, spec_hash_map_iter};
use vstd::std_specs::iter::IteratorSpec;

use crate::ids::Id;

verus! {

broadcast use vstd::std_specs::hash::group_hash_axioms;

/// The keys of a map, each once, in the map's iteration order.
pub fn map_keys<V>(m: &HashMap<Id, V>) -> (r: Vec<Id>)
    ensures
        r@.no_duplicates(),
        r@.len() == m@.len(),
        forall|j: int| 0 <= j < r@.len() ==> m@.contains_key(#[trigger] r@[j]),
        forall|k: Id| m@.contains_key(k) ==> r@.contains(k),
{
    let mut r: Vec<Id> = Vec::new();
    let ghost s = spec_hash_map_iter(m).remaining();
    for entry in it: m.iter()
        invariant
            s == spec_hash_map_iter(m).remaining(),
            r@.len() == it.index(),
            forall|j: int| 0 <= j < r@.len() ==> r@[j] == *(#[trigger] s[j]).0,
    {
        let ghost idx = it.index();
        assert(it.seq() == s);
        assert(entry == it.seq()[idx]);
        let (k, _v) = entry;
        r.push(*k);
    }
    assert forall|k: Id| m@.contains_key(k) implies r@.contains(k) by {
        assert(s.contains((&k, &m@[k])));
        let j = choose|j: int| 0 <= j < s.len() && s[j] == (&k, &m@[k]);
        assert(r@[j] == k);
    }
    assert forall|i: int, j: int| 0 <= i < r@.len() && 0 <= j < r@.len() && i != j implies r@[i] != r@[j] by {
        assert(r@[i] == *s[i].0);
        assert(r@[j] == *s[j].0);
        if r@[i] == r@[j] {
            assert(m@[*s[i].0] == *s[i].1);
            assert(m@[*s[j].0] == *s[j].1);
            assert(s[i] == s[j]);
        }
    }
    assert forall|j: int| 0 <= j < r@.len() implies m@.contains_key(#[trigger] r@[j]) by {
        assert(r@[j] == *s[j].0);
        assert(m@.contains_key(*s[j].0));
    }
    assert(m@.dom().len() == s.len());
    r
}

/// The elements of a set, each once, in the set's iteration order.
pub fn set_items(s: &HashSet<Id>) -> (r: Vec<Id>)
    ensures
        r@.no_duplicates(),
        r@.len() == s@.len(),
        r@.to_set() == s@,
        forall|j: int| 0 <= j < r@.len() ==> s@.contains(#[trigger] r@[j]),
        forall|k: Id| s@.contains(k) ==> r@.contains(k),
{
    let mut r: Vec<Id> = Vec::new();
    let ghost q = spec_hash_keys_iter(s).remaining();
    for x in it: s.iter()
        invariant
            q == spec_hash_keys_iter(s).remaining(),
            r@.len() == it.index(),
            forall|j: int| 0 <= j < r@.len() ==> r@[j] == *(#[trigger] q[j]),
    {
        let ghost idx = it.index();
        assert(it.seq() == q);
        assert(x == it.seq()[idx]);
        r.push(*x);
    }
    assert(r@ =~= q.unref());
    assert forall|j: int| 0 <= j < r@.len() implies s@.contains(#[trigger] r@[j]) by {
        assert(r@.to_set().contains(r@[j]));
    }
    assert forall|k: Id| s@.contains(k) implies r@.contains(k) by {
        assert(r@.to_set().contains(k));
    }
    r
}

/// A copy of a set.
pub fn copy_set(s: &HashSet<Id>) -> (r: HashSet<Id>)
    ensures
        r@ == s@,
{
    let items = set_items(s);
    let mut r: HashSet<Id> = HashSet::new();
    let mut i: usize = 0;
    while i < items.len()
        invariant
            i <= items@.len(),
            r@ == items@.take(i as int).to_set(),
        decreases items@.len() - i,
    {
        r.insert(items[i]);
        proof { lemma_take_one_more(items@, i as int); }
        assert(r@ =~= items@.take(i + 1).to_set());
        i = i + 1;
    }
    assert(items@.take(i as int) == items@);
    r
}

/// Taking one more element of a sequence adds exactly that element.
pub proof fn lemma_take_one_more<T>(s: Seq<T>, i: int)
    requires
        0 <= i < s.len(),
    ensures
        forall|x: T| #[trigger] s.take(i + 1).contains(x) <==> s.take(i).contains(x) || x == s[i],
{
    assert(s.take(i + 1) =~= s.take(i).push(s[i]));
    assert forall|x: T| #[trigger] s.take(i + 1).contains(x) <==> s.take(i).contains(x) || x == s[i] by {
        if s.take(i).contains(x) {
            let w = choose|w: int| 0 <= w < i && #[trigger] s.take(i)[w] == x;
            assert(s.take(i + 1)[w] == x);
        }
        if x == s[i] {
            assert(s.take(i + 1)[i] == x);
        }
        if s.take(i + 1).contains(x) {
            let w = choose|w: int| 0 <= w < i + 1 && #[trigger] s.take(i + 1)[w] == x;
            if w < i {
                assert(s.take(i)[w] == x);
            }
        }
    }
}

/// Taking one more element of a sequence adds that element to its set.
pub proof fn lemma_take_one_more_set<T>(s: Seq<T>, i: int)
    requires
        0 <= i < s.len(),
    ensures
        s.take(i + 1).to_set() == s.take(i).to_set().insert(s[i]),
{
    lemma_take_one_more(s, i);
    assert(s.take(i + 1).to_set() =~= s.take(i).to_set().insert(s[i]));
}

} // verus!
