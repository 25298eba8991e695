//! Laws of the store, stated over its mathematical contents: the
//! `Map<Seq<char>, Seq<char>>` that `Database`'s view yields and that the
//! contracts of `store` and `read` speak of.

use vstd::prelude::*;

verus! {

/// Storing a value under a key and then reading that key yields exactly that
/// value, whatever the mapping held before.
pub proof fn lemma_store_then_read(m: Map<Seq<char>, Seq<char>>, k: Seq<char>, v: Seq<char>)
    ensures
        m.insert(k, v).contains_key(k),
        m.insert(k, v)[k] == v,
{
}

/// A key that no store has written stays absent: it is absent from the empty
/// mapping, and a store under any other key does not bring it in. With
/// `read`'s contract, reading such a key always fails with `NO_KEY_FOUND`.
pub proof fn lemma_never_stored_absent(
    m: Map<Seq<char>, Seq<char>>,
    k: Seq<char>,
    k2: Seq<char>,
    v2: Seq<char>,
)
    requires
        !m.contains_key(k),
        k2 != k,
    ensures
        !Map::<Seq<char>, Seq<char>>::empty().contains_key(k),
        !m.insert(k2, v2).contains_key(k),
{
}

/// Storing twice under one key keeps only the second value: an overwrite,
/// not an append. The first value leaves no trace in the mapping.
pub proof fn lemma_overwrite(
    m: Map<Seq<char>, Seq<char>>,
    k: Seq<char>,
    v1: Seq<char>,
    v2: Seq<char>,
)
    ensures
        m.insert(k, v1).insert(k, v2) == m.insert(k, v2),
        m.insert(k, v1).insert(k, v2)[k] == v2,
{
    assert(m.insert(k, v1).insert(k, v2) =~= m.insert(k, v2));
}

/// Stores under distinct keys are independent: each key reads back its own
/// value, and the two stores commute, so whichever order the lock grants
/// them leaves the same mapping.
pub proof fn lemma_distinct_keys_independent(
    m: Map<Seq<char>, Seq<char>>,
    k1: Seq<char>,
    v1: Seq<char>,
    k2: Seq<char>,
    v2: Seq<char>,
)
    requires
        k1 != k2,
    ensures
        m.insert(k1, v1).insert(k2, v2)[k1] == v1,
        m.insert(k1, v1).insert(k2, v2)[k2] == v2,
        m.insert(k1, v1).insert(k2, v2) == m.insert(k2, v2).insert(k1, v1),
{
    assert(m.insert(k1, v1).insert(k2, v2) =~= m.insert(k2, v2).insert(k1, v1));
}

} // verus!
