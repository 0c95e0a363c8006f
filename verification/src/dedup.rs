//! Stable removal of duplicates: of the items that share a key only the
//! first stays, and the order of what stays is kept.

use vstd::prelude::*;
#[allow(deprecated)]
use egui::ahash::{HashSet, HashSetExt, RandomState};

verus! {

/// ahash's `RandomState`, the hasher of the key set. Nothing is known of
/// its inside.
#[verifier::external_type_specification]
#[verifier::external_body]
pub struct ExRandomState(RandomState);

/// The keys that a key set holds, each by its characters.
pub uninterp spec fn seen_keys(set: HashSet<String>) -> Set<Seq<char>>;

/// `HashSetExt::new` of ahash, which builds an empty `std` hash set over
/// ahash's default hasher.
#[verifier::external_body]
fn new_key_set() -> (set: HashSet<String>)
    ensures
        seen_keys(set) == Set::<Seq<char>>::empty(),
{
    HashSet::new()
}

/// `HashSet::insert` on a set of strings hashed by ahash: the key is in the
/// set afterwards, nothing else changes, and the result tells whether the
/// key was new. Strings are equal exactly if their characters are.
#[verifier::external_body]
fn insert_key(set: &mut HashSet<String>, key: String) -> (fresh: bool)
    ensures
        fresh == !seen_keys(*old(set)).contains(key@),
        seen_keys(*final(set)) == seen_keys(*old(set)).insert(key@),
{
    set.insert(key)
}

/// The items whose key occurs at no earlier position, in their order.
/// `keys[i]` is the key of `items[i]`.
pub open spec fn dedup_by_keys<T, K>(items: Seq<T>, keys: Seq<K>) -> Seq<T>
    recommends
        items.len() == keys.len(),
    decreases items.len(),
{
    if items.len() == 0 {
        Seq::empty()
    } else {
        let earlier = dedup_by_keys(items.drop_last(), keys.drop_last());
        if keys.drop_last().contains(keys.last()) {
            earlier
        } else {
            earlier.push(items.last())
        }
    }
}

/// Position `i` holds the first occurrence of its key.
pub open spec fn is_first_occurrence<K>(keys: Seq<K>, i: int) -> bool {
    &&& 0 <= i < keys.len()
    &&& forall|j: int| 0 <= j < i ==> keys[j] != keys[i]
}

/// The positions `0, 1, ..` up to `len`.
pub open spec fn positions(len: nat) -> Seq<int> {
    Seq::new(len, |i: int| i)
}

/// The positions that removal of duplicates keeps.
pub open spec fn first_positions<K>(keys: Seq<K>) -> Seq<int> {
    dedup_by_keys(positions(keys.len()), keys)
}

/// No key occurs at two positions.
pub open spec fn all_distinct<K>(keys: Seq<K>) -> bool {
    forall|i: int, j: int| 0 <= i < j < keys.len() ==> keys[i] != keys[j]
}

/// The kept positions are exactly the positions of first occurrences, in
/// ascending order.
pub proof fn lemma_first_positions<K>(keys: Seq<K>)
    ensures
        first_positions(keys).len() <= keys.len(),
        forall|r: int|
            0 <= r < first_positions(keys).len() ==> is_first_occurrence(
                keys,
                #[trigger] first_positions(keys)[r],
            ),
        forall|r: int, s: int|
            0 <= r < s < first_positions(keys).len() ==> first_positions(keys)[r]
                < first_positions(keys)[s],
        forall|i: int| is_first_occurrence(keys, i) ==> first_positions(keys).contains(i),
    decreases keys.len(),
{
    if keys.len() > 0 {
        let last = keys.len() - 1;
        let front = keys.drop_last();
        lemma_first_positions(front);
        let kept = first_positions(keys);
        let before = first_positions(front);
        assert(positions(keys.len()).drop_last() =~= positions(front.len()));
        assert(forall|p: int, j: int| 0 <= j < p < last ==> front[j] == keys[j] && front[p] == keys[p]);
        assert forall|p: int| 0 <= p < last implies (is_first_occurrence(front, p)
            <==> is_first_occurrence(keys, p)) by {
            if is_first_occurrence(front, p) {
                assert forall|j: int| 0 <= j < p implies keys[j] != keys[p] by {
                    assert(front[j] != front[p]);
                }
            }
            if is_first_occurrence(keys, p) {
                assert forall|j: int| 0 <= j < p implies front[j] != front[p] by {
                    assert(keys[j] != keys[p]);
                }
            }
        }
        assert(front.contains(keys[last]) <==> !is_first_occurrence(keys, last)) by {
            if front.contains(keys[last]) {
                let j = choose|j: int| 0 <= j < front.len() && front[j] == keys[last];
                assert(keys[j] == keys[last]);
            } else {
                assert forall|j: int| 0 <= j < last implies keys[j] != keys[last] by {
                    assert(front[j] == keys[j]);
                }
            }
        }
        assert forall|r: int| 0 <= r < kept.len() implies is_first_occurrence(
            keys,
            #[trigger] kept[r],
        ) by {
            if r < before.len() {
                assert(kept[r] == before[r]);
                assert(is_first_occurrence(front, before[r]));
            }
        }
        assert forall|r: int, s: int| 0 <= r < s < kept.len() implies kept[r] < kept[s] by {
            assert(is_first_occurrence(front, before[r]));
            if s < before.len() {
                assert(kept[s] == before[s]);
            }
        }
        assert forall|i: int| is_first_occurrence(keys, i) implies kept.contains(i) by {
            if i < last {
                assert(before.contains(i));
                let r = choose|r: int| 0 <= r < before.len() && before[r] == i;
                assert(kept[r] == i);
            } else {
                assert(kept[kept.len() - 1] == i);
            }
        }
    }
}

/// Each item of the result is the item at a kept position: the result holds
/// the first item of every key, in first-seen order.
pub proof fn lemma_dedup_first_seen<T, K>(items: Seq<T>, keys: Seq<K>)
    requires
        items.len() == keys.len(),
    ensures
        dedup_by_keys(items, keys).len() == first_positions(keys).len(),
        forall|r: int|
            0 <= r < first_positions(keys).len() ==> #[trigger] dedup_by_keys(items, keys)[r]
                == items[first_positions(keys)[r]],
    decreases items.len(),
{
    if items.len() > 0 {
        lemma_dedup_first_seen(items.drop_last(), keys.drop_last());
        lemma_first_positions(keys.drop_last());
        assert(positions(keys.len()).drop_last() =~= positions(keys.drop_last().len()));
        let before = first_positions(keys.drop_last());
        assert forall|r: int| 0 <= r < first_positions(keys).len() implies #[trigger] dedup_by_keys(
            items,
            keys,
        )[r] == items[first_positions(keys)[r]] by {
            if r < before.len() {
                assert(is_first_occurrence(keys.drop_last(), before[r]));
                assert(items.drop_last()[before[r]] == items[before[r]]);
            }
        }
    }
}

/// The keys of the result, in the order of the result.
pub open spec fn kept_keys<K>(keys: Seq<K>) -> Seq<K> {
    dedup_by_keys(keys, keys)
}

/// Every key of the input is the key of exactly one item of the result.
pub proof fn lemma_dedup_keys_once<K>(keys: Seq<K>)
    ensures
        all_distinct(kept_keys(keys)),
        forall|i: int| 0 <= i < keys.len() ==> kept_keys(keys).contains(#[trigger] keys[i]),
        forall|r: int| 0 <= r < kept_keys(keys).len() ==> keys.contains(#[trigger] kept_keys(keys)[r]),
    decreases keys.len(),
{
    if keys.len() > 0 {
        let front = keys.drop_last();
        let last = keys.last();
        lemma_dedup_keys_once(front);
        let before = kept_keys(front);
        let kept = kept_keys(keys);
        assert forall|r: int| 0 <= r < before.len() implies front.contains(before[r]) && keys.contains(
            before[r],
        ) by {
            assert(front.contains(before[r]));
            let j = choose|j: int| 0 <= j < front.len() && front[j] == before[r];
            assert(keys[j] == before[r]);
        }
        assert forall|i: int| 0 <= i < keys.len() implies kept.contains(#[trigger] keys[i]) by {
            if i < front.len() {
                assert(front[i] == keys[i]);
                assert(before.contains(front[i]));
                let r = choose|r: int| 0 <= r < before.len() && before[r] == front[i];
                assert(kept[r] == keys[i]);
            } else if front.contains(last) {
                let j = choose|j: int| 0 <= j < front.len() && front[j] == last;
                assert(before.contains(front[j]));
                let r = choose|r: int| 0 <= r < before.len() && before[r] == front[j];
                assert(kept[r] == keys[i]);
            } else {
                assert(kept[kept.len() - 1] == keys[i]);
            }
        }
        assert forall|r: int| 0 <= r < kept.len() implies keys.contains(#[trigger] kept[r]) by {
            if r < before.len() {
                assert(kept[r] == before[r]);
            } else {
                assert(keys[keys.len() - 1] == kept[r]);
            }
        }
        assert forall|r: int, s: int| 0 <= r < s < kept.len() implies kept[r] != kept[s] by {
            if s < before.len() {
                assert(kept[r] == before[r] && kept[s] == before[s]);
            } else {
                assert(kept[r] == before[r]);
                assert(front.contains(before[r]));
            }
        }
    }
}

/// Where no key occurs twice, nothing is removed.
pub proof fn lemma_dedup_of_distinct<T, K>(items: Seq<T>, keys: Seq<K>)
    requires
        items.len() == keys.len(),
        all_distinct(keys),
    ensures
        dedup_by_keys(items, keys) == items,
    decreases items.len(),
{
    if items.len() > 0 {
        let front = keys.drop_last();
        assert(all_distinct(front)) by {
            assert forall|i: int, j: int| 0 <= i < j < front.len() implies front[i] != front[j] by {
                assert(keys[i] != keys[j]);
            }
        }
        lemma_dedup_of_distinct(items.drop_last(), front);
        if front.contains(keys.last()) {
            let j = choose|j: int| 0 <= j < front.len() && front[j] == keys.last();
            assert(keys[j] != keys[keys.len() - 1]);
        }
        assert(items.drop_last().push(items.last()) =~= items);
    } else {
        assert(dedup_by_keys(items, keys) =~= items);
    }
}

/// Removing duplicates a second time changes nothing.
pub proof fn lemma_dedup_idempotent<T, K>(items: Seq<T>, keys: Seq<K>)
    requires
        items.len() == keys.len(),
    ensures
        dedup_by_keys(dedup_by_keys(items, keys), kept_keys(keys)) == dedup_by_keys(items, keys),
{
    lemma_dedup_keys_once(keys);
    lemma_dedup_first_seen(items, keys);
    lemma_dedup_first_seen(keys, keys);
    lemma_dedup_of_distinct(dedup_by_keys(items, keys), kept_keys(keys));
}

/// The result depends on the keys only through which positions hold equal
/// keys.
pub proof fn lemma_dedup_by_equivalent_keys<T, K, L>(items: Seq<T>, keys: Seq<K>, others: Seq<L>)
    requires
        items.len() == keys.len(),
        keys.len() == others.len(),
        forall|i: int, j: int|
            0 <= i < j < keys.len() ==> ((keys[i] == keys[j]) <==> (others[i] == others[j])),
    ensures
        dedup_by_keys(items, keys) == dedup_by_keys(items, others),
    decreases items.len(),
{
    if items.len() > 0 {
        let last = keys.len() - 1;
        let front = keys.drop_last();
        let other_front = others.drop_last();
        assert forall|i: int, j: int| 0 <= i < j < front.len() implies ((front[i] == front[j]) <==> (
        other_front[i] == other_front[j])) by {
            assert((keys[i] == keys[j]) <==> (others[i] == others[j]));
        }
        lemma_dedup_by_equivalent_keys(items.drop_last(), front, other_front);
        if front.contains(keys.last()) {
            let j = choose|j: int| 0 <= j < front.len() && front[j] == keys.last();
            assert(keys[j] == keys[last]);
            assert(other_front[j] == others.last());
        }
        if other_front.contains(others.last()) {
            let j = choose|j: int| 0 <= j < other_front.len() && other_front[j] == others.last();
            assert(others[j] == others[last]);
            assert(front[j] == keys.last());
        }
    }
}

/// The characters of each key.
pub open spec fn key_texts(keys: Seq<String>) -> Seq<Seq<char>> {
    Seq::new(keys.len(), |i: int| keys[i]@)
}

/// `keys` are keys that `key_selector` may give for `items`, one for one.
pub open spec fn keys_selected<T, F: Fn(&T) -> String>(
    key_selector: F,
    items: Seq<T>,
    keys: Seq<String>,
) -> bool {
    &&& keys.len() == items.len()
    &&& forall|i: int|
        0 <= i < items.len() ==> call_ensures(key_selector, (&items[i],), #[trigger] keys[i])
}

/// Keeps the first item of every key and drops the later ones.
///
/// The selector is called once for each item, in order. The result is
/// stated over the keys that these calls returned.
pub fn remove_duplicates_by<T, F>(items: Vec<T>, key_selector: F) -> (result: Vec<T>) where
    F: Fn(&T) -> String,

    requires
        forall|i: int| 0 <= i < items@.len() ==> call_requires(key_selector, (&#[trigger] items@[i],)),
    ensures
        exists|keys: Seq<String>|
            #[trigger] keys_selected(key_selector, items@, keys) && result@ == dedup_by_keys(
                items@,
                key_texts(keys),
            ),
{
    let ghost all = items@;
    let mut seen: HashSet<String> = new_key_set();
    let mut result: Vec<T> = Vec::new();
    let ghost mut keys: Seq<String> = Seq::empty();
    for item in iter: items.into_iter()
        invariant
            iter.seq() == all,
            forall|i: int| 0 <= i < all.len() ==> call_requires(key_selector, (&#[trigger] all[i],)),
            keys_selected(key_selector, all.take(iter.index()), keys),
            forall|k: Seq<char>| seen_keys(seen).contains(k) <==> key_texts(keys).contains(k),
            result@ == dedup_by_keys(all.take(iter.index()), key_texts(keys)),
    {
        let ghost n = iter.index();
        assert(item == all[n]);
        let key: String = key_selector(&item);
        let ghost texts = key_texts(keys);
        proof {
            keys = keys.push(key);
            assert(key_texts(keys) =~= texts.push(key@));
            assert(key_texts(keys).drop_last() =~= texts);
            assert(all.take(n + 1).drop_last() =~= all.take(n));
            assert(all.take(n + 1).last() == item);
            assert forall|k: Seq<char>|
                texts.push(key@).contains(k) <==> (texts.contains(k) || k == key@) by {
                if texts.contains(k) {
                    let j = choose|j: int| 0 <= j < texts.len() && texts[j] == k;
                    assert(texts.push(key@)[j] == k);
                }
                if k == key@ {
                    assert(texts.push(key@)[texts.len() as int] == k);
                }
            }
        }
        if insert_key(&mut seen, key) {
            result.push(item);
        }
    }
    proof {
        assert(all.take(all.len() as int) =~= all);
    }
    result
}

} // verus!
