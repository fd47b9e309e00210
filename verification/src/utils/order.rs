//! Walking over ordered maps.

use std::collections::BTreeMap;
use vstd::prelude::*;

verus! {

/// Whether `keys` lists each key once, the smaller ones first.
pub open spec fn ascending<K>(keys: Seq<K>, below: spec_fn(K, K) -> bool) -> bool {
    forall|i: int, j: int| 0 <= i < j < keys.len() ==> below(#[trigger] keys[i], #[trigger] keys[j])
}

/// Whether `below` says of no two keys both that the first is below the second and the reverse.
pub open spec fn asymmetric<K>(below: spec_fn(K, K) -> bool) -> bool {
    forall|a: K, b: K| #[trigger] below(a, b) ==> !below(b, a)
}

/// The order of session, monitor and stream numbers.
pub open spec fn id_below() -> spec_fn(u64, u64) -> bool {
    |a: u64, b: u64| a < b
}

/// The order of transfer serials.
pub open spec fn serial_below() -> spec_fn(u32, u32) -> bool {
    |a: u32, b: u32| a < b
}

/// The numbers of a set, the smaller ones first.
pub open spec fn ids_of(set: Set<u64>) -> Seq<u64> {
    choose|keys: Seq<u64>| ascending(keys, id_below()) && #[trigger] keys.to_set() == set
}

/// The serials of a set, the smaller ones first.
pub open spec fn serials_of(set: Set<u32>) -> Seq<u32> {
    choose|keys: Seq<u32>| ascending(keys, serial_below()) && #[trigger] keys.to_set() == set
}

/// Only one ascending list has the keys of a given set.
proof fn lemma_ascending_unique<K>(a: Seq<K>, b: Seq<K>, below: spec_fn(K, K) -> bool)
    requires
        asymmetric(below),
        ascending(a, below),
        ascending(b, below),
        a.to_set() == b.to_set(),
    ensures
        a == b,
    decreases a.len(),
{
    if a.len() == 0 {
        if b.len() > 0 {
            assert(b.to_set().contains(b[0]));
            assert(a.to_set().contains(b[0]));
        }
        assert(a =~= b);
    } else {
        assert(a.to_set().contains(a.last()));
        assert(b.to_set().contains(a.last()));
        assert(b.len() > 0);
        assert(b.to_set().contains(b.last()));
        assert(a.to_set().contains(b.last()));
        let i = choose|i: int| 0 <= i < b.len() && b[i] == a.last();
        let j = choose|j: int| 0 <= j < a.len() && a[j] == b.last();
        if i < b.len() - 1 {
            assert(below(b[i], b[b.len() - 1]));
            if j < a.len() - 1 {
                assert(below(a[j], a[a.len() - 1]));
            }
        }
        assert(a.last() == b.last());
        let x = a.drop_last();
        let y = b.drop_last();
        assert forall|k: K| x.to_set().contains(k) == y.to_set().contains(k) by {
            if x.to_set().contains(k) {
                let m = choose|m: int| 0 <= m < x.len() && x[m] == k;
                assert(below(a[m], a[a.len() - 1]));
                assert(a[m] == k);
                assert(a.to_set().contains(k));
                let n = choose|n: int| 0 <= n < b.len() && b[n] == k;
                assert(n < b.len() - 1);
                assert(y[n] == k);
            }
            if y.to_set().contains(k) {
                let m = choose|m: int| 0 <= m < y.len() && y[m] == k;
                assert(below(b[m], b[b.len() - 1]));
                assert(b[m] == k);
                assert(b.to_set().contains(k));
                let n = choose|n: int| 0 <= n < a.len() && a[n] == k;
                assert(n < a.len() - 1);
                assert(x[n] == k);
            }
        }
        assert(x.to_set() =~= y.to_set());
        assert(ascending(x, below)) by {
            assert forall|p: int, q: int| 0 <= p < q < x.len() implies below(
                #[trigger] x[p],
                #[trigger] x[q],
            ) by {
                assert(below(a[p], a[q]));
            }
        }
        assert(ascending(y, below)) by {
            assert forall|p: int, q: int| 0 <= p < q < y.len() implies below(
                #[trigger] y[p],
                #[trigger] y[q],
            ) by {
                assert(below(b[p], b[q]));
            }
        }
        lemma_ascending_unique(x, y, below);
        assert(a =~= x.push(a.last()));
        assert(b =~= y.push(b.last()));
    }
}

/// What `ids_of` is, said of a list at hand.
pub proof fn lemma_ids_of(keys: Seq<u64>, set: Set<u64>)
    requires
        ascending(keys, id_below()),
        keys.to_set() == set,
    ensures
        ids_of(set) == keys,
{
    lemma_ascending_unique(ids_of(set), keys, id_below());
}

/// What `serials_of` is, said of a list at hand.
pub proof fn lemma_serials_of(keys: Seq<u32>, set: Set<u32>)
    requires
        ascending(keys, serial_below()),
        keys.to_set() == set,
    ensures
        serials_of(set) == keys,
{
    lemma_ascending_unique(serials_of(set), keys, serial_below());
}

/// Whether `below` orders all keys, one below the other.
pub open spec fn strict_order<K>(below: spec_fn(K, K) -> bool) -> bool {
    &&& forall|a: K, b: K| #[trigger] below(a, b) ==> !below(b, a)
    &&& forall|a: K, b: K| a != b ==> #[trigger] below(a, b) || below(b, a)
    &&& forall|a: K, b: K, c: K| #[trigger] below(a, b) && #[trigger] below(b, c) ==> below(a, c)
}

/// A finite set that is not empty has a key that no other one is above.
proof fn lemma_last<K>(set: Set<K>, below: spec_fn(K, K) -> bool) -> (last: K)
    requires
        strict_order(below),
        set.finite(),
        set.len() > 0,
    ensures
        set.contains(last),
        forall|k: K| #[trigger] set.contains(k) && k != last ==> below(k, last),
    decreases set.len(),
{
    let any = set.choose();
    let rest = set.remove(any);
    if rest.len() == 0 {
        assert forall|k: K| #[trigger] set.contains(k) && k != any implies below(k, any) by {
            assert(rest.contains(k));
        }
        any
    } else {
        let last = lemma_last(rest, below);
        assert forall|k: K| #[trigger] set.contains(k) && k != any implies rest.contains(k) by {}
        if below(last, any) {
            assert forall|k: K| #[trigger] set.contains(k) && k != any implies below(k, any) by {
                assert(rest.contains(k));
                if k != last {
                    assert(below(k, last));
                }
            }
            any
        } else {
            assert(below(any, last) || below(last, any));
            last
        }
    }
}

/// The keys of a finite set can be listed, the smaller ones first.
proof fn lemma_listed<K>(set: Set<K>, below: spec_fn(K, K) -> bool) -> (keys: Seq<K>)
    requires
        strict_order(below),
        set.finite(),
    ensures
        ascending(keys, below),
        keys.to_set() == set,
    decreases set.len(),
{
    if set.len() == 0 {
        assert(Seq::<K>::empty().to_set() =~= set);
        Seq::empty()
    } else {
        let last = lemma_last(set, below);
        let rest = lemma_listed(set.remove(last), below);
        let keys = rest.push(last);
        assert forall|k: K| keys.to_set().contains(k) == set.contains(k) by {
            crate::utils::lists::lemma_push_contains(rest, last, k);
            assert(rest.to_set().contains(k) == rest.contains(k));
            assert(keys.to_set().contains(k) == keys.contains(k));
        }
        assert(keys.to_set() =~= set);
        assert forall|i: int, j: int| 0 <= i < j < keys.len() implies below(
            #[trigger] keys[i],
            #[trigger] keys[j],
        ) by {
            if j == rest.len() {
                assert(rest.to_set().contains(rest[i]));
                assert(set.remove(last).contains(rest[i]));
            } else {
                assert(below(rest[i], rest[j]));
            }
        }
        keys
    }
}

/// Every finite set of numbers is listed whole, each number once.
pub proof fn ids_are_listed(set: Set<u64>)
    requires
        set.finite(),
    ensures
        ids_of(set).to_set() == set,
        forall|id: u64| #[trigger] ids_of(set).contains(id) == set.contains(id),
        forall|i: int, j: int|
            0 <= i < j < ids_of(set).len() ==> #[trigger] ids_of(set)[i] < #[trigger] ids_of(
                set,
            )[j],
{
    let keys = lemma_listed(set, id_below());
    lemma_ids_of(keys, set);
    assert forall|id: u64| #[trigger] ids_of(set).contains(id) == set.contains(id) by {
        assert(keys.to_set().contains(id) == keys.contains(id));
    }
    assert forall|i: int, j: int| 0 <= i < j < keys.len() implies #[trigger] keys[i]
        < #[trigger] keys[j] by {
        assert(id_below()(keys[i], keys[j]));
    }
}

/// Every finite set of serials is listed whole, each serial once.
pub proof fn serials_are_listed(set: Set<u32>)
    requires
        set.finite(),
    ensures
        serials_of(set).to_set() == set,
        forall|serial: u32| #[trigger] serials_of(set).contains(serial) == set.contains(serial),
        forall|i: int, j: int|
            0 <= i < j < serials_of(set).len() ==> #[trigger] serials_of(set)[i]
                < #[trigger] serials_of(set)[j],
{
    let keys = lemma_listed(set, serial_below());
    lemma_serials_of(keys, set);
    assert forall|serial: u32| #[trigger] serials_of(set).contains(serial) == set.contains(
        serial,
    ) by {
        assert(keys.to_set().contains(serial) == keys.contains(serial));
    }
    assert forall|i: int, j: int| 0 <= i < j < keys.len() implies #[trigger] keys[i]
        < #[trigger] keys[j] by {
        assert(serial_below()(keys[i], keys[j]));
    }
}

/// What an increasing list of numbers is.
proof fn lemma_increasing(keys: Seq<u64>)
    requires
        vstd::std_specs::btree::increasing_seq(keys),
    ensures
        ascending(keys, id_below()),
{
    assert forall|i: int, j: int| 0 <= i < j < keys.len() implies id_below()(
        #[trigger] keys[i],
        #[trigger] keys[j],
    ) by {
        assert(vstd::std_specs::cmp::OrdSpec::cmp_spec(&keys[i], &keys[j]) is Less);
    }
}

/// The keys of a map, the smaller ones first.
pub fn ids_in<V>(map: &BTreeMap<u64, V>) -> (keys: Vec<u64>)
    ensures
        keys@ == ids_of(map@.dom()),
        keys@.to_set() == map@.dom(),
        ascending(keys@, id_below()),
{
    broadcast use vstd::std_specs::btree::group_btree_axioms;

    let walk = map.iter();
    let ghost all = vstd::std_specs::iter::IteratorSpec::remaining(&walk);
    let mut keys: Vec<u64> = Vec::new();
    for entry in entries: walk
        invariant
            entries.seq() == all,
            keys.len() == entries.index(),
            forall|i: int| 0 <= i < keys.len() ==> keys@[i] == *(#[trigger] all[i]).0,
    {
        keys.push(*entry.0);
    }
    proof {
        assert(keys@ =~= all.map_values(|kv: (&u64, &V)| *kv.0));
        assert forall|k: u64| keys@.to_set().contains(k) == map@.dom().contains(k) by {
            if map@.contains_key(k) {
                let i = choose|i: int| 0 <= i < all.len() && all[i] == (&k, &map@[k]);
                assert(keys@[i] == k);
            }
            if keys@.to_set().contains(k) {
                let i = choose|i: int| 0 <= i < keys@.len() && keys@[i] == k;
                assert(map@.contains_key(*all[i].0));
            }
        }
        assert(keys@.to_set() =~= map@.dom());
        assert(vstd::std_specs::btree::increasing_seq(keys@));
        lemma_increasing(keys@);
        lemma_ids_of(keys@, map@.dom());
    }
    keys
}

/// What an increasing list of serials is.
proof fn lemma_increasing_serials(keys: Seq<u32>)
    requires
        vstd::std_specs::btree::increasing_seq(keys),
    ensures
        ascending(keys, serial_below()),
{
    assert forall|i: int, j: int| 0 <= i < j < keys.len() implies serial_below()(
        #[trigger] keys[i],
        #[trigger] keys[j],
    ) by {
        assert(vstd::std_specs::cmp::OrdSpec::cmp_spec(&keys[i], &keys[j]) is Less);
    }
}

/// The keys of a map, the smaller ones first.
pub fn serials_in<V>(map: &BTreeMap<u32, V>) -> (keys: Vec<u32>)
    ensures
        keys@ == serials_of(map@.dom()),
        keys@.to_set() == map@.dom(),
        ascending(keys@, serial_below()),
{
    broadcast use vstd::std_specs::btree::group_btree_axioms;

    let walk = map.iter();
    let ghost all = vstd::std_specs::iter::IteratorSpec::remaining(&walk);
    let mut keys: Vec<u32> = Vec::new();
    for entry in entries: walk
        invariant
            entries.seq() == all,
            keys.len() == entries.index(),
            forall|i: int| 0 <= i < keys.len() ==> keys@[i] == *(#[trigger] all[i]).0,
    {
        keys.push(*entry.0);
    }
    proof {
        assert(keys@ =~= all.map_values(|kv: (&u32, &V)| *kv.0));
        assert forall|k: u32| keys@.to_set().contains(k) == map@.dom().contains(k) by {
            if map@.contains_key(k) {
                let i = choose|i: int| 0 <= i < all.len() && all[i] == (&k, &map@[k]);
                assert(keys@[i] == k);
            }
            if keys@.to_set().contains(k) {
                let i = choose|i: int| 0 <= i < keys@.len() && keys@[i] == k;
                assert(map@.contains_key(*all[i].0));
            }
        }
        assert(keys@.to_set() =~= map@.dom());
        assert(vstd::std_specs::btree::increasing_seq(keys@));
        lemma_increasing_serials(keys@);
        lemma_serials_of(keys@, map@.dom());
    }
    keys
}

/// The keys of a map are listed once each, the smaller ones first.
pub proof fn keys_are_listed_in_order<V>(
    sessions: BTreeMap<u64, V>,
    ids: Vec<u64>,
    id: u64,
    transfers: BTreeMap<u32, V>,
    serials: Vec<u32>,
    serial: u32,
    i: int,
    j: int,
)
    requires
        call_ensures(ids_in::<V>, (&sessions,), ids),
        call_ensures(serials_in::<V>, (&transfers,), serials),
    ensures
        ids@.contains(id) == sessions@.contains_key(id),
        0 <= i < j < ids@.len() ==> ids@[i] < ids@[j],
        serials@.contains(serial) == transfers@.contains_key(serial),
        0 <= i < j < serials@.len() ==> serials@[i] < serials@[j],
{
    assert(ids@.to_set().contains(id) == ids@.contains(id));
    assert(serials@.to_set().contains(serial) == serials@.contains(serial));
    if 0 <= i < j < ids@.len() {
        assert(id_below()(ids@[i], ids@[j]));
    }
    if 0 <= i < j < serials@.len() {
        assert(serial_below()(serials@[i], serials@[j]));
    }
}

} // verus!
