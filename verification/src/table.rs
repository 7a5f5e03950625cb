use vstd::prelude::*;

verus! {

/// The map that a list of keys and a list of values stand for: the key at
/// each position maps to the value at the same position. It is meant for
/// lists of equal length in which no key occurs twice.
pub open spec fn table<K, V>(keys: Seq<K>, vals: Seq<V>) -> Map<K, V> {
    Map::new(|k: K| keys.contains(k), |k: K| vals[keys.index_of(k)])
}

/// The key at position `i` maps to the value at position `i`.
pub proof fn lemma_table_at<K, V>(keys: Seq<K>, vals: Seq<V>, i: int)
    requires
        keys.no_duplicates(),
        keys.len() == vals.len(),
        0 <= i < keys.len(),
    ensures
        table(keys, vals).dom().contains(keys[i]),
        table(keys, vals)[keys[i]] == vals[i],
{
    assert(keys.contains(keys[i]));
    let j = keys.index_of(keys[i]);
    assert(0 <= j < keys.len() && keys[j] == keys[i]);
}

/// A key that occurs nowhere in the list is not in the map.
pub proof fn lemma_table_missing<K, V>(keys: Seq<K>, vals: Seq<V>, k: K)
    requires
        forall|i: int| 0 <= i < keys.len() ==> keys[i] != k,
    ensures
        !table(keys, vals).dom().contains(k),
{
}

/// Appending a key that is new, with its value, inserts the pair into the
/// map and keeps the keys free of duplicates.
pub proof fn lemma_table_push<K, V>(keys: Seq<K>, vals: Seq<V>, k: K, v: V)
    requires
        keys.no_duplicates(),
        keys.len() == vals.len(),
        forall|i: int| 0 <= i < keys.len() ==> keys[i] != k,
    ensures
        keys.push(k).no_duplicates(),
        table(keys.push(k), vals.push(v)) == table(keys, vals).insert(k, v),
{
    let keys2 = keys.push(k);
    let vals2 = vals.push(v);
    assert(keys2.no_duplicates());
    assert forall|x: K| #[trigger] table(keys2, vals2).dom().contains(x) == table(
        keys,
        vals,
    ).insert(k, v).dom().contains(x) by {
        if keys2.contains(x) {
            let j = choose|j: int| 0 <= j < keys2.len() && keys2[j] == x;
            if j < keys.len() {
                assert(keys[j] == x);
            }
        }
        if keys.contains(x) {
            let j = choose|j: int| 0 <= j < keys.len() && keys[j] == x;
            assert(keys2[j] == x);
        }
        if x == k {
            assert(keys2[keys.len() as int] == k);
        }
    }
    assert forall|x: K| #[trigger]
        table(keys2, vals2).dom().contains(x) implies table(keys2, vals2)[x] == table(
        keys,
        vals,
    ).insert(k, v)[x] by {
        let j = keys2.index_of(x);
        assert(0 <= j < keys2.len() && keys2[j] == x);
        lemma_table_at(keys2, vals2, j);
        if j < keys.len() {
            assert(keys[j] == x);
            lemma_table_at(keys, vals, j);
        }
    }
    assert(table(keys2, vals2) =~= table(keys, vals).insert(k, v));
}

/// Replacing the value at position `i` replaces what the key at that
/// position maps to, and nothing else.
pub proof fn lemma_table_update<K, V>(keys: Seq<K>, vals: Seq<V>, i: int, v: V)
    requires
        keys.no_duplicates(),
        keys.len() == vals.len(),
        0 <= i < keys.len(),
    ensures
        table(keys, vals.update(i, v)) == table(keys, vals).insert(keys[i], v),
{
    let vals2 = vals.update(i, v);
    assert(keys.contains(keys[i]));
    assert forall|x: K| #[trigger]
        table(keys, vals2).dom().contains(x) implies table(keys, vals2)[x] == table(
        keys,
        vals,
    ).insert(keys[i], v)[x] by {
        let j = keys.index_of(x);
        assert(0 <= j < keys.len() && keys[j] == x);
        lemma_table_at(keys, vals2, j);
        lemma_table_at(keys, vals, j);
    }
    assert(table(keys, vals2) =~= table(keys, vals).insert(keys[i], v));
}

/// The map that a list of rows stands for, when `key` picks the key of a
/// row and `val` what the row is worth: each row's key maps to its worth.
pub open spec fn rows_table<R, K, V>(
    rows: Seq<R>,
    key: spec_fn(R) -> K,
    val: spec_fn(R) -> V,
) -> Map<K, V> {
    table(rows.map_values(key), rows.map_values(val))
}

/// Whether no two rows have the same key.
pub open spec fn rows_distinct<R, K>(rows: Seq<R>, key: spec_fn(R) -> K) -> bool {
    rows.map_values(key).no_duplicates()
}

/// The row at position `i` is in the map, under its key.
pub proof fn lemma_rows_at<R, K, V>(
    rows: Seq<R>,
    key: spec_fn(R) -> K,
    val: spec_fn(R) -> V,
    i: int,
)
    requires
        rows_distinct(rows, key),
        0 <= i < rows.len(),
    ensures
        rows_table(rows, key, val).dom().contains(key(rows[i])),
        rows_table(rows, key, val)[key(rows[i])] == val(rows[i]),
{
    lemma_table_at(rows.map_values(key), rows.map_values(val), i);
}

/// A key that no row has is not in the map.
pub proof fn lemma_rows_missing<R, K, V>(
    rows: Seq<R>,
    key: spec_fn(R) -> K,
    val: spec_fn(R) -> V,
    k: K,
)
    requires
        forall|i: int| 0 <= i < rows.len() ==> key(#[trigger] rows[i]) != k,
    ensures
        !rows_table(rows, key, val).dom().contains(k),
{
    lemma_table_missing(rows.map_values(key), rows.map_values(val), k);
}

/// Appending a row whose key no row has inserts it into the map and keeps
/// the keys distinct.
pub proof fn lemma_rows_push<R, K, V>(
    rows: Seq<R>,
    key: spec_fn(R) -> K,
    val: spec_fn(R) -> V,
    row: R,
)
    requires
        rows_distinct(rows, key),
        forall|i: int| 0 <= i < rows.len() ==> key(#[trigger] rows[i]) != key(row),
    ensures
        rows_distinct(rows.push(row), key),
        rows_table(rows.push(row), key, val) == rows_table(rows, key, val).insert(
            key(row),
            val(row),
        ),
{
    assert(rows.push(row).map_values(key) =~= rows.map_values(key).push(key(row)));
    assert(rows.push(row).map_values(val) =~= rows.map_values(val).push(val(row)));
    lemma_table_push(rows.map_values(key), rows.map_values(val), key(row), val(row));
}

/// Replacing the row at position `i` by one with the same key replaces
/// what that key maps to, and nothing else; the keys stay distinct.
pub proof fn lemma_rows_update<R, K, V>(
    rows: Seq<R>,
    key: spec_fn(R) -> K,
    val: spec_fn(R) -> V,
    i: int,
    row: R,
)
    requires
        rows_distinct(rows, key),
        0 <= i < rows.len(),
        key(row) == key(rows[i]),
    ensures
        rows_distinct(rows.update(i, row), key),
        rows_table(rows.update(i, row), key, val) == rows_table(rows, key, val).insert(
            key(row),
            val(row),
        ),
{
    assert(rows.update(i, row).map_values(key) =~= rows.map_values(key));
    assert(rows.update(i, row).map_values(val) =~= rows.map_values(val).update(i, val(row)));
    lemma_table_update(rows.map_values(key), rows.map_values(val), i, val(row));
}

} // verus!
