//! Reconciling what is held under stable keys with a new order of keys:
//! what a key held before stays with it, a key that is gone loses what it
//! held, and a new key starts empty.

use vstd::prelude::*;
use std::collections::HashMap;
use std::collections::HashSet;

verus! {

broadcast use vstd::std_specs::hash::group_hash_axioms;

/// The keys of the entries, in order.
pub open spec fn keys_of<C>(entries: Seq<(u64, C)>) -> Seq<u64> {
    Seq::new(entries.len(), |i: int| entries[i].0)
}

/// No key occurs twice.
pub open spec fn distinct(keys: Seq<u64>) -> bool {
    forall|i: int, j: int| 0 <= i < j < keys.len() ==> keys[i] != keys[j]
}

/// The first `n` keys without repetitions: each key stands where it first
/// occurred.
pub open spec fn first_seen(keys: Seq<u64>, n: int) -> Seq<u64>
    decreases n,
{
    if n <= 0 {
        Seq::empty()
    } else {
        let before = first_seen(keys, n - 1);
        if before.contains(keys[n - 1]) {
            before
        } else {
            before.push(keys[n - 1])
        }
    }
}

/// Whether the entries have the key.
pub open spec fn has_key<C>(entries: Seq<(u64, C)>, key: u64) -> bool {
    exists|j: int| 0 <= j < entries.len() && entries[j].0 == key
}

/// A place where the entries have the key.
pub open spec fn position<C>(entries: Seq<(u64, C)>, key: u64) -> int {
    choose|j: int| 0 <= j < entries.len() && entries[j].0 == key
}

/// What the entries hold under `key`, if they have the key.
pub open spec fn held<C>(entries: Seq<(u64, C)>, key: u64) -> Option<C> {
    if has_key(entries, key) {
        Some(entries[position(entries, key)].1)
    } else {
        None
    }
}

/// Among distinct keys an entry is what its key holds.
pub proof fn lemma_held_at<C>(entries: Seq<(u64, C)>, at: int)
    requires
        distinct(keys_of(entries)),
        0 <= at < entries.len(),
    ensures
        held(entries, entries[at].0) == Some(entries[at].1),
        has_key(entries, entries[at].0),
{
    let key = entries[at].0;
    assert(has_key(entries, key));
    let c = position(entries, key);
    assert(0 <= c < entries.len() && entries[c].0 == key);
    assert(keys_of(entries)[c] == key);
    assert(keys_of(entries)[at] == key);
    if c < at {
        assert(false);
    }
    if at < c {
        assert(false);
    }
}

/// The keys that `first_seen` keeps are those that occur, and none twice.
pub proof fn lemma_first_seen(keys: Seq<u64>, n: int)
    requires
        0 <= n <= keys.len(),
    ensures
        distinct(first_seen(keys, n)),
        first_seen(keys, n).len() <= n,
        forall|k: u64|
            first_seen(keys, n).contains(k) <==> exists|i: int| 0 <= i < n && keys[i] == k,
    decreases n,
{
    if n > 0 {
        lemma_first_seen(keys, n - 1);
        let before = first_seen(keys, n - 1);
        let last = keys[n - 1];
        let now = first_seen(keys, n);
        assert forall|k: u64| now.contains(k) <==> exists|i: int| 0 <= i < n && keys[i] == k by {
            if now.contains(k) {
                let p = choose|p: int| 0 <= p < now.len() && now[p] == k;
                if p < before.len() {
                    assert(before[p] == k);
                    assert(before.contains(k));
                    let i = choose|i: int| 0 <= i < n - 1 && keys[i] == k;
                    assert(0 <= i < n && keys[i] == k);
                } else {
                    assert(keys[n - 1] == k);
                }
            }
            if exists|i: int| 0 <= i < n && keys[i] == k {
                let i = choose|i: int| 0 <= i < n && keys[i] == k;
                if i < n - 1 {
                    assert(before.contains(k));
                    let p = choose|p: int| 0 <= p < before.len() && before[p] == k;
                    assert(now[p] == k);
                } else {
                    if before.contains(last) {
                    } else {
                        assert(now[before.len() as int] == k);
                    }
                }
            }
        }
        if !before.contains(last) {
            assert forall|i: int, j: int| 0 <= i < j < now.len() implies now[i] != now[j] by {
                if j == before.len() {
                    if now[i] == now[j] {
                        assert(before[i] == last);
                        assert(before.contains(last));
                    }
                }
            }
        }
    }
}

/// The entries from `from` on as a map, the later entry of a key giving way
/// to the earlier.
pub open spec fn map_from<C>(entries: Seq<(u64, C)>, from: int) -> Map<u64, C>
    decreases entries.len() - from,
{
    if from >= entries.len() || from < 0 {
        Map::empty()
    } else {
        map_from(entries, from + 1).insert(entries[from].0, entries[from].1)
    }
}

proof fn lemma_map_from<C>(entries: Seq<(u64, C)>, from: int)
    requires
        distinct(keys_of(entries)),
        0 <= from <= entries.len(),
    ensures
        forall|k: u64| #[trigger]
            map_from(entries, from).contains_key(k) <==> exists|j: int|
                from <= j < entries.len() && entries[j].0 == k,
        forall|j: int|
            from <= j < entries.len() ==> #[trigger] map_from(entries, from)[entries[j].0]
                == entries[j].1,
    decreases entries.len() - from,
{
    if from < entries.len() {
        lemma_map_from(entries, from + 1);
        let here = map_from(entries, from);
        let rest = map_from(entries, from + 1);
        assert forall|k: u64| #[trigger]
            here.contains_key(k) <==> exists|j: int|
                from <= j < entries.len() && entries[j].0 == k by {
            if here.contains_key(k) {
                if k == entries[from].0 {
                } else {
                    assert(rest.contains_key(k));
                    let j = choose|j: int| from + 1 <= j < entries.len() && entries[j].0 == k;
                    assert(from <= j < entries.len() && entries[j].0 == k);
                }
            }
            if exists|j: int| from <= j < entries.len() && entries[j].0 == k {
                let j = choose|j: int| from <= j < entries.len() && entries[j].0 == k;
                if j > from {
                    assert(from + 1 <= j < entries.len() && entries[j].0 == k);
                    assert(rest.contains_key(k));
                }
            }
        }
        assert forall|j: int| from <= j < entries.len() implies #[trigger] here[entries[j].0]
            == entries[j].1 by {
            if j > from {
                assert(keys_of(entries)[from] != keys_of(entries)[j]);
                assert(rest[entries[j].0] == entries[j].1);
            }
        }
    }
}

/// What the slot of `key` holds: nothing where the key is missing or its
/// slot is empty.
pub open spec fn slot_of<C>(entries: Seq<(u64, Option<C>)>, key: u64) -> Option<C> {
    match held(entries, key) {
        Some(slot) => slot,
        None => None,
    }
}

/// The places among the first `n` of `keys` whose key the old entries had,
/// in rising order.
pub open spec fn kept_places<C>(old_entries: Seq<(u64, C)>, keys: Seq<u64>, n: int) -> Seq<usize>
    decreases n,
{
    if n <= 0 {
        Seq::empty()
    } else {
        let before = kept_places(old_entries, keys, n - 1);
        if has_key(old_entries, keys[n - 1]) {
            before.push((n - 1) as usize)
        } else {
            before
        }
    }
}

/// Lays out what `contents` held in the order of `keys`.
///
/// The first result has one slot for each key of `keys`, where the key first
/// occurs. The slot of a key that `contents` had holds what was held under
/// it; the slot of a new key is empty. What was held under a key that `keys`
/// does not name is dropped. The second result lists the places of the keys
/// that `contents` had, and the third says of each place whether `contents`
/// had its key.
pub fn reconcile<C>(contents: Vec<(u64, Option<C>)>, keys: &Vec<u64>) -> (r: (
    Vec<(u64, Option<C>)>,
    Vec<usize>,
    Vec<bool>,
))
    requires
        distinct(keys_of(contents@)),
    ensures
        keys_of(r.0@) == first_seen(keys@, keys.len() as int),
        distinct(keys_of(r.0@)),
        forall|i: int| 0 <= i < r.0.len() ==> (#[trigger] r.0[i]).1 == slot_of(contents@, r.0[i].0),
        r.1@ == kept_places(contents@, keys_of(r.0@), r.0.len() as int),
        r.2.len() == r.0.len(),
        forall|i: int| 0 <= i < r.0.len() ==> #[trigger] r.2[i] == has_key(contents@, r.0[i].0),
{
    let ghost orig = contents@;
    let mut contents = contents;
    let mut existing: HashMap<u64, Option<C>> = HashMap::new();
    while contents.len() > 0
        invariant
            contents@ == orig.take(contents.len() as int),
            contents.len() <= orig.len(),
            existing@ == map_from(orig, contents.len() as int),
        decreases contents.len(),
    {
        let ghost n = contents.len();
        let entry = contents.pop().unwrap();
        assert(entry == orig[n - 1]);
        assert(contents@ =~= orig.take(n - 1));
        existing.insert(entry.0, entry.1);
    }
    proof {
        lemma_map_from(orig, 0);
    }
    let ghost all = existing@;
    let mut seen: HashSet<u64> = HashSet::new();
    let mut out: Vec<(u64, Option<C>)> = Vec::new();
    let mut kept: Vec<usize> = Vec::new();
    let mut had: Vec<bool> = Vec::new();
    let mut i: usize = 0;
    while i < keys.len()
        invariant
            i <= keys.len(),
            out.len() <= i,
            distinct(keys_of(orig)),
            all == map_from(orig, 0),
            keys_of(out@) == first_seen(keys@, i as int),
            kept@ == kept_places(orig, keys_of(out@), out.len() as int),
            had.len() == out.len(),
            forall|p: int| 0 <= p < out.len() ==> #[trigger] had[p] == has_key(orig, out[p].0),
            forall|k: u64| seen@.contains(k) <==> keys_of(out@).contains(k),
            forall|k: u64| #[trigger]
                existing@.contains_key(k) <==> all.contains_key(k) && !seen@.contains(k),
            forall|k: u64| #[trigger] existing@.contains_key(k) ==> existing@[k] == all[k],
            forall|p: int| 0 <= p < out.len() ==> (#[trigger] out[p]).1 == slot_of(orig, out[p].0),
            forall|k: u64| #[trigger]
                all.contains_key(k) <==> exists|j: int| 0 <= j < orig.len() && orig[j].0 == k,
            forall|j: int| 0 <= j < orig.len() ==> #[trigger] all[orig[j].0] == orig[j].1,
        decreases keys.len() - i,
    {
        let key = keys[i];
        let ghost before = out@;
        if !seen.contains(&key) {
            seen.insert(key);
            let was = existing.remove(&key);
            proof {
                if all.contains_key(key) {
                    let j = choose|j: int| 0 <= j < orig.len() && orig[j].0 == key;
                    lemma_held_at(orig, j);
                    assert(all[orig[j].0] == orig[j].1);
                    assert(was == held(orig, key));
                } else {
                    assert(was == held(orig, key));
                }
                assert(was is Some <==> has_key(orig, key));
            }
            let known = was.is_some();
            let slot = match was {
                Some(slot) => {
                    kept.push(out.len());
                    slot
                },
                None => None,
            };
            had.push(known);
            out.push((key, slot));
            proof {
                assert(keys_of(out@) =~= keys_of(before).push(key));
                lemma_kept_places_prefix(orig, keys_of(before), keys_of(out@), before.len() as int);
                assert forall|k: u64| seen@.contains(k) <==> keys_of(out@).contains(k) by {
                    if keys_of(out@).contains(k) {
                        let p = choose|p: int| 0 <= p < out.len() && keys_of(out@)[p] == k;
                        if p < before.len() {
                            assert(keys_of(before)[p] == k);
                        }
                    }
                    if seen@.contains(k) {
                        if k == key {
                            assert(keys_of(out@)[before.len() as int] == k);
                        } else {
                            assert(keys_of(before).contains(k));
                            let p = choose|p: int| 0 <= p < before.len() && keys_of(before)[p] == k;
                            assert(keys_of(out@)[p] == k);
                        }
                    }
                }
            }
        }
        i += 1;
    }
    proof {
        lemma_first_seen(keys@, keys.len() as int);
    }
    (out, kept, had)
}

/// The kept places among the first `n` keys depend on those keys alone.
pub proof fn lemma_kept_places_prefix<C>(
    old_entries: Seq<(u64, C)>,
    a: Seq<u64>,
    b: Seq<u64>,
    n: int,
)
    requires
        0 <= n <= a.len(),
        n <= b.len(),
        forall|i: int| 0 <= i < n ==> a[i] == b[i],
    ensures
        kept_places(old_entries, a, n) == kept_places(old_entries, b, n),
    decreases n,
{
    if n > 0 {
        lemma_kept_places_prefix(old_entries, a, b, n - 1);
    }
}

} // verus!
