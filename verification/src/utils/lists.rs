//! Sequences of values seen through their views.

use vstd::prelude::*;

verus! {

/// The views of the items of `items`, in the same order.
pub open spec fn views<T: View>(items: Seq<T>) -> Seq<T::V> {
    items.map_values(|item: T| item@)
}

/// The view of what an option holds, if it holds anything.
pub open spec fn view_of<T: View>(item: Option<T>) -> Option<T::V> {
    match item {
        Some(item) => Some(item@),
        None => None,
    }
}

/// Adding an item adds its view.
pub broadcast proof fn lemma_views_push<T: View>(items: Seq<T>, item: T)
    ensures
        #[trigger] views(items.push(item)) == views(items).push(item@),
{
    assert(views(items.push(item)) =~= views(items).push(item@));
}

/// The views of two lists in a row.
pub broadcast proof fn lemma_views_add<T: View>(a: Seq<T>, b: Seq<T>)
    ensures
        #[trigger] views(a + b) == views(a) + views(b),
{
    assert(views(a + b) =~= views(a) + views(b));
}

/// The views of an empty list.
pub broadcast proof fn lemma_views_empty<T: View>()
    ensures
        #[trigger] views(Seq::<T>::empty()) == Seq::<T::V>::empty(),
{
    assert(views(Seq::<T>::empty()) =~= Seq::<T::V>::empty());
}

pub broadcast group group_views {
    lemma_views_push,
    lemma_views_add,
    lemma_views_empty,
}

/// Whether a list was only added to.
pub open spec fn only_added<T: View>(before: Seq<T>, after: Seq<T>) -> bool {
    before.len() <= after.len() && views(after).take(before.len() as int) == views(before)
}

/// What stands behind the items that were there before.
pub open spec fn new_of<T: View>(before: Seq<T>, after: Seq<T>) -> Seq<T::V> {
    views(after).skip(before.len() as int)
}

/// Adding some views to a list adds nothing else and takes nothing away.
pub proof fn lemma_new_of<T: View>(before: Seq<T>, after: Seq<T>, new: Seq<T::V>)
    requires
        views(after) == views(before) + new,
    ensures
        only_added(before, after),
        new_of(before, after) == new,
{
    assert(views(before).len() == before.len());
    assert(views(after).len() == after.len());
    assert(views(after).take(before.len() as int) =~= views(before));
    assert(new_of(before, after) =~= new);
}

/// The views of the values of a map.
pub open spec fn map_views<V: View>(map: Map<u64, V>) -> Map<u64, V::V> {
    map.map_values(|value: V| value@)
}

/// Putting a value in puts its view in.
pub broadcast proof fn lemma_map_views_insert<V: View>(map: Map<u64, V>, key: u64, value: V)
    ensures
        #[trigger] map_views(map.insert(key, value)) == map_views(map).insert(key, value@),
{
    assert(map_views(map.insert(key, value)) =~= map_views(map).insert(key, value@));
}

/// Taking a value out takes its view out.
pub broadcast proof fn lemma_map_views_remove<V: View>(map: Map<u64, V>, key: u64)
    ensures
        #[trigger] map_views(map.remove(key)) == map_views(map).remove(key),
{
    assert(map_views(map.remove(key)) =~= map_views(map).remove(key));
}

/// Finding a value finds its view.
pub broadcast proof fn lemma_map_views_contains<V: View>(map: Map<u64, V>, key: u64)
    ensures
        #[trigger] map_views(map).contains_key(key) == map.contains_key(key),
        map.contains_key(key) ==> map_views(map)[key] == map[key]@,
{
}

pub broadcast group group_map_views {
    lemma_map_views_insert,
    lemma_map_views_remove,
    lemma_map_views_contains,
}

/// Where the first wanted item stands.
pub open spec fn first_index<T>(items: Seq<T>, wanted: spec_fn(T) -> bool) -> Option<int>
    decreases items.len(),
{
    if items.len() == 0 {
        None
    } else {
        match first_index(items.drop_last(), wanted) {
            Some(index) => Some(index),
            None => if wanted(items.last()) {
                Some(items.len() - 1)
            } else {
                None
            },
        }
    }
}

/// What `first_index` finds.
pub proof fn lemma_first_index<T>(items: Seq<T>, wanted: spec_fn(T) -> bool)
    ensures
        match first_index(items, wanted) {
            Some(index) => 0 <= index < items.len() && wanted(items[index]) && forall|i: int|
                0 <= i < index ==> !wanted(#[trigger] items[i]),
            None => forall|i: int| 0 <= i < items.len() ==> !wanted(#[trigger] items[i]),
        },
    decreases items.len(),
{
    if items.len() > 0 {
        lemma_first_index(items.drop_last(), wanted);
        assert forall|i: int| 0 <= i < items.len() - 1 implies #[trigger] items[i]
            == items.drop_last()[i] by {}
    }
}

/// What `first_index` is, said of an item at hand.
pub proof fn lemma_is_first<T>(items: Seq<T>, wanted: spec_fn(T) -> bool, index: int)
    requires
        0 <= index < items.len(),
        wanted(items[index]),
        forall|i: int| 0 <= i < index ==> !wanted(#[trigger] items[i]),
    ensures
        first_index(items, wanted) == Some(index),
{
    lemma_first_index(items, wanted);
    match first_index(items, wanted) {
        Some(other) => {
            assert(wanted(items[other]));
        },
        None => {},
    }
}

/// Filtering a list one item longer.
pub proof fn lemma_filter_push<T>(items: Seq<T>, item: T, keep: spec_fn(T) -> bool)
    ensures
        items.push(item).filter(keep) == if keep(item) {
            items.filter(keep).push(item)
        } else {
            items.filter(keep)
        },
{
    reveal(Seq::filter);
    assert(items.push(item).drop_last() =~= items);
}

/// Filtering the empty list.
pub proof fn lemma_filter_empty<T>(keep: spec_fn(T) -> bool)
    ensures
        Seq::<T>::empty().filter(keep) == Seq::<T>::empty(),
{
    reveal(Seq::filter);
}

/// A filtered list holds exactly the items that are let through.
pub proof fn lemma_filter_contains<T>(items: Seq<T>, keep: spec_fn(T) -> bool, item: T)
    ensures
        items.filter(keep).contains(item) == (items.contains(item) && keep(item)),
    decreases items.len(),
{
    reveal(Seq::filter);
    if items.len() > 0 {
        let rest = items.drop_last();
        lemma_filter_contains(rest, keep, item);
        lemma_push_contains(rest, items.last(), item);
        lemma_push_contains(rest.filter(keep), items.last(), item);
        assert(rest.push(items.last()) =~= items);
    }
}

/// What a list one item longer holds.
pub proof fn lemma_push_contains<T>(items: Seq<T>, last: T, item: T)
    ensures
        items.push(last).contains(item) == (items.contains(item) || last == item),
{
    if items.contains(item) {
        let i = choose|i: int| 0 <= i < items.len() && items[i] == item;
        assert(items.push(last)[i] == item);
    }
    if last == item {
        assert(items.push(last)[items.len() as int] == item);
    }
}

/// What two lists in a row hold.
pub proof fn lemma_add_contains<T>(a: Seq<T>, b: Seq<T>, item: T)
    ensures
        (a + b).contains(item) == (a.contains(item) || b.contains(item)),
{
    if a.contains(item) {
        let i = choose|i: int| 0 <= i < a.len() && a[i] == item;
        assert((a + b)[i] == item);
    }
    if b.contains(item) {
        let i = choose|i: int| 0 <= i < b.len() && b[i] == item;
        assert((a + b)[a.len() + i] == item);
    }
}

/// The first `i + 1` items are the first `i` items and the next one.
pub proof fn lemma_take_push<T>(items: Seq<T>, i: int)
    requires
        0 <= i < items.len(),
    ensures
        items.take(i + 1) == items.take(i).push(items[i]),
{
    assert(items.take(i + 1) =~= items.take(i).push(items[i]));
}

/// Five lists in a row, whichever are put together first.
pub proof fn lemma_add_five<T>(
    start: Seq<T>,
    a: Seq<T>,
    b: Seq<T>,
    c: Seq<T>,
    d: Seq<T>,
    e: Seq<T>,
)
    ensures
        start + (a + b + c + d + e) == start + a + b + c + d + e,
{
    assert(start + (a + b + c + d + e) =~= start + a + b + c + d + e);
}

/// Whether an option holds the given number.
pub fn holds(option: Option<u64>, id: u64) -> (held: bool)
    ensures
        held == (option == Some(id)),
{
    match option {
        Some(value) => value == id,
        None => false,
    }
}

/// A copy of a list of texts.
pub fn clone_texts(texts: &Vec<String>) -> (copy: Vec<String>)
    ensures
        copy@ == texts@,
        views(copy@) == views(texts@),
{
    let mut copy: Vec<String> = Vec::new();
    for i in 0..texts.len()
        invariant
            copy@ == texts@.take(i as int),
    {
        copy.push(texts[i].clone());
        proof {
            lemma_take_push(texts@, i as int);
        }
    }
    assert(texts@.take(texts.len() as int) =~= texts@);
    copy
}

/// Whether `texts` holds a text that reads `text`.
pub fn contains_text(texts: &Vec<String>, text: &String) -> (found: bool)
    ensures
        found == views(texts@).contains(text@),
{
    for i in 0..texts.len()
        invariant
            forall|j: int| 0 <= j < i ==> #[trigger] texts@[j]@ != text@,
    {
        if texts[i] == *text {
            assert(views(texts@)[i as int] == text@);
            return true;
        }
    }
    assert forall|j: int| 0 <= j < views(texts@).len() implies views(texts@)[j] != text@ by {
        assert(texts@[j]@ != text@);
    }
    false
}

/// An option holds a number exactly if it is that number; a copy of a list of texts reads the same;
/// and a text is found in a list exactly if one of the texts reads the same.
pub proof fn texts_are_compared_by_what_they_read(
    option: Option<u64>,
    id: u64,
    held: bool,
    texts: Vec<String>,
    copy: Vec<String>,
    text: String,
    found: bool,
    i: int,
)
    requires
        call_ensures(holds, (option, id), held),
        call_ensures(clone_texts, (&texts,), copy),
        call_ensures(contains_text, (&texts, &text), found),
    ensures
        held == (option matches Some(value) && value == id),
        copy@.len() == texts@.len(),
        0 <= i < texts@.len() ==> copy@[i]@ == texts@[i]@,
        0 <= i < texts@.len() && texts@[i]@ == text@ ==> found,
        found ==> exists|j: int| 0 <= j < texts@.len() && (#[trigger] texts@[j])@ == text@,
{
    assert(views(texts@).len() == texts@.len());
    if 0 <= i < texts@.len() {
        assert(views(texts@)[i] == texts@[i]@);
    }
    if found {
        let j = choose|j: int| 0 <= j < views(texts@).len() && views(texts@)[j] == text@;
        assert(texts@[j]@ == text@);
    }
}

} // verus!
