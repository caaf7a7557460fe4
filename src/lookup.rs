use vstd::prelude::*;

verus! {

/// The keys of a list of pairs, as character sequences.
pub open spec fn keys_of<V>(pairs: Seq<(String, V)>) -> Seq<Seq<char>> {
    pairs.map_values(|p: (String, V)| p.0@)
}

/// The position of the last occurrence of `key` in `keys`, if any. Where a
/// key occurs twice, the later entry wins, as when the pairs are collected
/// into a map.
pub open spec fn last_index_of(keys: Seq<Seq<char>>, key: Seq<char>) -> Option<int>
    decreases keys.len(),
{
    if keys.len() == 0 {
        None
    } else if keys.last() == key {
        Some(keys.len() - 1)
    } else {
        last_index_of(keys.drop_last(), key)
    }
}

/// `last_index_of` is the greatest position that holds the key.
pub proof fn lemma_last_index_of(keys: Seq<Seq<char>>, key: Seq<char>)
    ensures
        match last_index_of(keys, key) {
            Some(i) => 0 <= i < keys.len() && keys[i] == key && forall|j: int|
                i < j < keys.len() ==> keys[j] != key,
            None => forall|j: int| 0 <= j < keys.len() ==> keys[j] != key,
        },
    decreases keys.len(),
{
    if keys.len() > 0 && keys.last() != key {
        lemma_last_index_of(keys.drop_last(), key);
        assert(forall|j: int| 0 <= j < keys.len() - 1 ==> keys.drop_last()[j] == keys[j]);
    }
}

/// The position of the last pair whose key is `key`.
pub fn find_last<V>(pairs: &Vec<(String, V)>, key: &String) -> (r: Option<usize>)
    ensures
        r matches Some(i) ==> i < pairs@.len() && last_index_of(keys_of(pairs@), key@) == Some(
            i as int,
        ),
        r is None ==> last_index_of(keys_of(pairs@), key@) is None,
{
    proof {
        lemma_last_index_of(keys_of(pairs@), key@);
    }
    assert(forall|j: int| 0 <= j < pairs@.len() ==> #[trigger] keys_of(pairs@)[j] == pairs@[j].0@);
    let mut i: usize = pairs.len();
    while i > 0
        invariant
            i <= pairs@.len(),
            forall|j: int| i <= j < pairs@.len() ==> pairs@[j].0@ != key@,
            forall|j: int| 0 <= j < pairs@.len() ==> #[trigger] keys_of(pairs@)[j] == pairs@[j].0@,
            match last_index_of(keys_of(pairs@), key@) {
                Some(k) => 0 <= k < pairs@.len() && keys_of(pairs@)[k] == key@ && forall|j: int|
                    k < j < pairs@.len() ==> keys_of(pairs@)[j] != key@,
                None => forall|j: int| 0 <= j < pairs@.len() ==> keys_of(pairs@)[j] != key@,
            },
        decreases i,
    {
        if pairs[i - 1].0 == *key {
            proof {
                let m = i - 1;
                assert(keys_of(pairs@)[m as int] == key@);
                if let Some(k) = last_index_of(keys_of(pairs@), key@) {
                    if k < m {
                        assert(keys_of(pairs@)[m as int] != key@);
                    } else if k > m {
                        assert(pairs@[k].0@ != key@);
                    }
                }
            }
            return Some(i - 1);
        }
        i = i - 1;
    }
    None
}

} // verus!
