use vstd::prelude::*;

verus! {

/// No two elements of `s` share a key.
pub open spec fn unique_keys<T, K>(s: Seq<T>, key: spec_fn(T) -> K) -> bool {
    forall|i: int, j: int|
        0 <= i < s.len() && 0 <= j < s.len() && #[trigger] key(s[i]) == #[trigger] key(s[j])
            ==> i == j
}

/// Whether some element of `s` has key `k`.
pub open spec fn has_key<T, K>(s: Seq<T>, key: spec_fn(T) -> K, k: K) -> bool {
    exists|i: int| 0 <= i < s.len() && #[trigger] key(s[i]) == k
}

/// The element of `s` with key `k`, if there is one (the keys being unique,
/// there is at most one).
pub open spec fn find_by<T, K>(s: Seq<T>, key: spec_fn(T) -> K, k: K) -> Option<T> {
    if has_key(s, key, k) {
        Some(s[choose|i: int| 0 <= i < s.len() && #[trigger] key(s[i]) == k])
    } else {
        None
    }
}

/// With unique keys, looking up the key of an element finds that element.
pub proof fn lemma_find_at<T, K>(s: Seq<T>, key: spec_fn(T) -> K, i: int)
    requires
        unique_keys(s, key),
        0 <= i < s.len(),
    ensures
        find_by(s, key, key(s[i])) == Some(s[i]),
{
    let k = key(s[i]);
    assert(has_key(s, key, k));
    let j = choose|j: int| 0 <= j < s.len() && #[trigger] key(s[j]) == k;
    assert(key(s[i]) == key(s[j]));
}

/// Replacing an element by one with the same key keeps the keys unique,
/// makes the key find the new element and leaves every other key as it was.
pub proof fn lemma_update_keyed<T, K>(s: Seq<T>, key: spec_fn(T) -> K, i: int, x: T)
    requires
        unique_keys(s, key),
        0 <= i < s.len(),
        key(x) == key(s[i]),
    ensures
        unique_keys(s.update(i, x), key),
        find_by(s.update(i, x), key, key(x)) == Some(x),
        forall|k: K| k != key(x) ==> find_by(s.update(i, x), key, k) == find_by(s, key, k),
{
    let t = s.update(i, x);
    assert forall|a: int, b: int|
        0 <= a < t.len() && 0 <= b < t.len() && #[trigger] key(t[a]) == #[trigger] key(t[b]) implies a
        == b by {
        let ka = if a == i { key(s[i]) } else { key(s[a]) };
        let kb = if b == i { key(s[i]) } else { key(s[b]) };
        assert(key(s[if a == i { i } else { a }]) == ka);
        assert(key(s[if b == i { i } else { b }]) == kb);
    }
    lemma_find_at(t, key, i);
    assert forall|k: K| k != key(x) implies find_by(t, key, k) == find_by(s, key, k) by {
        if has_key(s, key, k) {
            let j = choose|j: int| 0 <= j < s.len() && #[trigger] key(s[j]) == k;
            assert(j != i);
            assert(t[j] == s[j]);
            lemma_find_at(s, key, j);
            lemma_find_at(t, key, j);
        }
        if has_key(t, key, k) {
            let j = choose|j: int| 0 <= j < t.len() && #[trigger] key(t[j]) == k;
            assert(j != i);
            assert(t[j] == s[j]);
            assert(key(s[j]) == k);
        }
    }
}

/// Appending an element whose key is absent keeps the keys unique, makes the
/// key find the new element and leaves every other key as it was.
pub proof fn lemma_push_keyed<T, K>(s: Seq<T>, key: spec_fn(T) -> K, x: T)
    requires
        unique_keys(s, key),
        !has_key(s, key, key(x)),
    ensures
        unique_keys(s.push(x), key),
        find_by(s.push(x), key, key(x)) == Some(x),
        forall|k: K| k != key(x) ==> find_by(s.push(x), key, k) == find_by(s, key, k),
{
    let t = s.push(x);
    let n = s.len() as int;
    assert forall|a: int, b: int|
        0 <= a < t.len() && 0 <= b < t.len() && #[trigger] key(t[a]) == #[trigger] key(t[b]) implies a
        == b by {
        if a < n {
            assert(t[a] == s[a]);
        }
        if b < n {
            assert(t[b] == s[b]);
        }
        if a < n && b == n {
            assert(key(s[a]) == key(x));
        }
        if b < n && a == n {
            assert(key(s[b]) == key(x));
        }
    }
    assert(t[n] == x);
    lemma_find_at(t, key, n);
    assert forall|k: K| k != key(x) implies find_by(t, key, k) == find_by(s, key, k) by {
        if has_key(s, key, k) {
            let j = choose|j: int| 0 <= j < s.len() && #[trigger] key(s[j]) == k;
            assert(t[j] == s[j]);
            lemma_find_at(s, key, j);
            lemma_find_at(t, key, j);
        }
        if has_key(t, key, k) {
            let j = choose|j: int| 0 <= j < t.len() && #[trigger] key(t[j]) == k;
            assert(j != n);
            assert(t[j] == s[j]);
            assert(key(s[j]) == k);
        }
    }
}

/// Removing an element keeps the keys unique, makes its key absent and
/// leaves every other key as it was.
pub proof fn lemma_remove_keyed<T, K>(s: Seq<T>, key: spec_fn(T) -> K, i: int)
    requires
        unique_keys(s, key),
        0 <= i < s.len(),
    ensures
        unique_keys(s.remove(i), key),
        !has_key(s.remove(i), key, key(s[i])),
        find_by(s.remove(i), key, key(s[i])) is None,
        forall|k: K| k != key(s[i]) ==> find_by(s.remove(i), key, k) == find_by(s, key, k),
{
    let t = s.remove(i);
    assert forall|a: int| 0 <= a < t.len() implies #[trigger] t[a] == s[if a < i {
        a
    } else {
        a + 1
    }] by {}
    assert forall|a: int, b: int|
        0 <= a < t.len() && 0 <= b < t.len() && #[trigger] key(t[a]) == #[trigger] key(t[b]) implies a
        == b by {
        let sa = if a < i { a } else { a + 1 };
        let sb = if b < i { b } else { b + 1 };
        assert(t[a] == s[sa]);
        assert(t[b] == s[sb]);
    }
    if has_key(t, key, key(s[i])) {
        let j = choose|j: int| 0 <= j < t.len() && #[trigger] key(t[j]) == key(s[i]);
        let sj = if j < i { j } else { j + 1 };
        assert(t[j] == s[sj]);
    }
    assert forall|k: K| k != key(s[i]) implies find_by(t, key, k) == find_by(s, key, k) by {
        if has_key(s, key, k) {
            let j = choose|j: int| 0 <= j < s.len() && #[trigger] key(s[j]) == k;
            assert(j != i);
            let tj = if j < i { j } else { j - 1 };
            assert(t[tj] == s[j]);
            lemma_find_at(s, key, j);
            lemma_find_at(t, key, tj);
        }
        if has_key(t, key, k) {
            let j = choose|j: int| 0 <= j < t.len() && #[trigger] key(t[j]) == k;
            let sj = if j < i { j } else { j + 1 };
            assert(t[j] == s[sj]);
            assert(key(s[sj]) == k);
        }
    }
}


/// The map from keys to elements of a keyed sequence.
pub open spec fn keyed_map<T, K>(s: Seq<T>, key: spec_fn(T) -> K) -> Map<K, T> {
    Map::new(|k: K| has_key(s, key, k), |k: K| find_by(s, key, k)->0)
}

/// With unique keys, the map holds each element under its key.
pub proof fn lemma_map_at<T, K>(s: Seq<T>, key: spec_fn(T) -> K, i: int)
    requires
        unique_keys(s, key),
        0 <= i < s.len(),
    ensures
        keyed_map(s, key).contains_key(key(s[i])),
        keyed_map(s, key)[key(s[i])] == s[i],
{
    lemma_find_at(s, key, i);
}

/// Replacing an element by one with the same key updates the map there.
pub proof fn lemma_map_update<T, K>(s: Seq<T>, key: spec_fn(T) -> K, i: int, x: T)
    requires
        unique_keys(s, key),
        0 <= i < s.len(),
        key(x) == key(s[i]),
    ensures
        unique_keys(s.update(i, x), key),
        keyed_map(s.update(i, x), key) == keyed_map(s, key).insert(key(x), x),
{
    lemma_update_keyed(s, key, i, x);
    let t = s.update(i, x);
    assert(has_key(t, key, key(x))) by {
        assert(key(t[i]) == key(x));
    }
    assert forall|k: K| k != key(x) implies has_key(t, key, k) == has_key(s, key, k) by {
        if has_key(s, key, k) {
            assert(find_by(s, key, k) is Some);
        }
        if has_key(t, key, k) {
            assert(find_by(t, key, k) is Some);
        }
    }
    assert(keyed_map(t, key) =~= keyed_map(s, key).insert(key(x), x));
}

/// Appending an element with an absent key adds it to the map.
pub proof fn lemma_map_push<T, K>(s: Seq<T>, key: spec_fn(T) -> K, x: T)
    requires
        unique_keys(s, key),
        !has_key(s, key, key(x)),
    ensures
        unique_keys(s.push(x), key),
        keyed_map(s.push(x), key) == keyed_map(s, key).insert(key(x), x),
{
    lemma_push_keyed(s, key, x);
    let t = s.push(x);
    assert(has_key(t, key, key(x))) by {
        assert(key(t[s.len() as int]) == key(x));
    }
    assert forall|k: K| k != key(x) implies has_key(t, key, k) == has_key(s, key, k) by {
        if has_key(s, key, k) {
            assert(find_by(s, key, k) is Some);
        }
        if has_key(t, key, k) {
            assert(find_by(t, key, k) is Some);
        }
    }
    assert(keyed_map(t, key) =~= keyed_map(s, key).insert(key(x), x));
}

/// Removing an element removes its key from the map.
pub proof fn lemma_map_remove<T, K>(s: Seq<T>, key: spec_fn(T) -> K, i: int)
    requires
        unique_keys(s, key),
        0 <= i < s.len(),
    ensures
        unique_keys(s.remove(i), key),
        keyed_map(s.remove(i), key) == keyed_map(s, key).remove(key(s[i])),
{
    lemma_remove_keyed(s, key, i);
    let t = s.remove(i);
    assert forall|k: K| k != key(s[i]) implies has_key(t, key, k) == has_key(s, key, k) by {
        if has_key(s, key, k) {
            assert(find_by(s, key, k) is Some);
        }
        if has_key(t, key, k) {
            assert(find_by(t, key, k) is Some);
        }
    }
    assert(keyed_map(t, key) =~= keyed_map(s, key).remove(key(s[i])));
}


/// With unique keys, the elements of a filtered sequence are exactly the
/// values of the keyed map that satisfy the predicate.
pub proof fn lemma_filter_map_values<T, K>(s: Seq<T>, key: spec_fn(T) -> K, pred: spec_fn(T) -> bool)
    requires
        unique_keys(s, key),
    ensures
        forall|i: int|
            0 <= i < s.filter(pred).len() ==> {
                let x = #[trigger] s.filter(pred)[i];
                &&& pred(x)
                &&& keyed_map(s, key).contains_key(key(x))
                &&& keyed_map(s, key)[key(x)] == x
            },
        forall|k: K|
            keyed_map(s, key).contains_key(k) && pred(keyed_map(s, key)[k]) ==> s.filter(
                pred,
            ).contains(#[trigger] keyed_map(s, key)[k]),
{
    let f = s.filter(pred);
    assert forall|i: int| 0 <= i < f.len() implies {
        let x = #[trigger] f[i];
        &&& pred(x)
        &&& keyed_map(s, key).contains_key(key(x))
        &&& keyed_map(s, key)[key(x)] == x
    } by {
        s.lemma_filter_pred(pred, i);
        assert(f.contains(f[i]));
        s.lemma_filter_contains_rev(pred, f[i]);
        let j = choose|j: int| 0 <= j < s.len() && s[j] == f[i];
        lemma_map_at(s, key, j);
    }
    assert forall|k: K| keyed_map(s, key).contains_key(k) && pred(keyed_map(s, key)[k]) implies s.filter(
        pred,
    ).contains(#[trigger] keyed_map(s, key)[k]) by {
        let j = choose|j: int| 0 <= j < s.len() && #[trigger] key(s[j]) == k;
        lemma_map_at(s, key, j);
        s.lemma_filter_contains(pred, j);
    }
}

} // verus!
