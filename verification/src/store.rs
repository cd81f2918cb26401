//! Key-addressed stores, modeled as association sequences with unique
//! keys and first-match lookup.

use vstd::prelude::*;

verus! {

/// First-match lookup of a key in an association sequence.
pub open spec fn assoc_lookup<K, V>(s: Seq<(K, V)>, key: K) -> Option<V>
    decreases s.len(),
{
    if s.len() == 0 {
        None
    } else if s[0].0 == key {
        Some(s[0].1)
    } else {
        assoc_lookup(s.drop_first(), key)
    }
}

/// No key occurs twice.
pub open spec fn keys_unique<K, V>(s: Seq<(K, V)>) -> bool {
    forall|i: int, j: int| 0 <= i < j < s.len() ==> (#[trigger] s[i]).0 != (#[trigger] s[j]).0
}

/// Lookup in the tail of the scan: skipping a non-matching entry
/// changes nothing.
pub proof fn lemma_lookup_skip_step<K, V>(s: Seq<(K, V)>, i: int, key: K)
    requires
        0 <= i < s.len(),
        s[i].0 != key,
    ensures
        assoc_lookup(s.skip(i), key) == assoc_lookup(s.skip(i + 1), key),
{
    assert(s.skip(i)[0] == s[i]);
    assert(s.skip(i).drop_first() =~= s.skip(i + 1));
}

/// An entry at any index is what lookup finds, provided keys are
/// unique.
pub proof fn lemma_lookup_at_index<K, V>(s: Seq<(K, V)>, key: K, i: int)
    requires
        keys_unique(s),
        0 <= i < s.len(),
        s[i].0 == key,
    ensures
        assoc_lookup(s, key) == Some(s[i].1),
    decreases i,
{
    if i == 0 {
    } else {
        assert(s[0].0 != key);
        assert(keys_unique(s.drop_first())) by {
            assert(forall|p: int, q: int|
                0 <= p < q < s.drop_first().len() ==> (#[trigger] s.drop_first()[p]).0 != (
                #[trigger] s.drop_first()[q]).0) by {
                assert(forall|p: int|
                    0 <= p < s.drop_first().len() ==> s.drop_first()[p] == s[p + 1]);
            }
        }
        assert(s.drop_first()[i - 1] == s[i]);
        lemma_lookup_at_index(s.drop_first(), key, i - 1);
    }
}

/// Appending a fresh entry: the new key is found, every other key is
/// unaffected, and uniqueness is kept.
pub proof fn lemma_lookup_push<K, V>(s: Seq<(K, V)>, key: K, value: V, q: K)
    ensures
        assoc_lookup(s, q) is Some ==> assoc_lookup(s.push((key, value)), q) == assoc_lookup(
            s,
            q,
        ),
        assoc_lookup(s, q) is None && q == key ==> assoc_lookup(s.push((key, value)), q) == Some(
            value,
        ),
        assoc_lookup(s, q) is None && q != key ==> assoc_lookup(s.push((key, value)), q) is None,
    decreases s.len(),
{
    if s.len() == 0 {
        assert(s.push((key, value))[0] == (key, value));
        if q != key {
            assert(s.push((key, value)).drop_first() =~= s);
        }
    } else {
        assert(s.push((key, value))[0] == s[0]);
        if s[0].0 == q {
        } else {
            assert(s.push((key, value)).drop_first() =~= s.drop_first().push((key, value)));
            lemma_lookup_push(s.drop_first(), key, value, q);
        }
    }
}

/// A push of a key that lookup does not find keeps keys unique.
pub proof fn lemma_push_fresh_unique<K, V>(s: Seq<(K, V)>, key: K, value: V)
    requires
        keys_unique(s),
        assoc_lookup(s, key) is None,
    ensures
        keys_unique(s.push((key, value))),
    decreases s.len(),
{
    assert forall|i: int| 0 <= i < s.len() implies (#[trigger] s[i]).0 != key by {
        lemma_lookup_at_index(s, s[i].0, i);
    }
    assert(forall|i: int| 0 <= i < s.len() ==> s.push((key, value))[i] == s[i]);
    assert(s.push((key, value))[s.len() as int] == (key, value));
}

/// Overwriting the entry at the key's index: that key now maps to the
/// new value, every other key is unaffected, uniqueness is kept.
pub proof fn lemma_lookup_update<K, V>(s: Seq<(K, V)>, i: int, key: K, value: V, q: K)
    requires
        keys_unique(s),
        0 <= i < s.len(),
        s[i].0 == key,
    ensures
        assoc_lookup(s.update(i, (key, value)), key) == Some(value),
        q != key ==> assoc_lookup(s.update(i, (key, value)), q) == assoc_lookup(s, q),
        keys_unique(s.update(i, (key, value))),
    decreases i,
{
    let t = s.update(i, (key, value));
    assert(keys_unique(t)) by {
        assert(forall|p: int| 0 <= p < t.len() && p != i ==> t[p] == s[p]);
        assert(t[i].0 == s[i].0);
        assert(forall|p: int, q2: int|
            0 <= p < q2 < t.len() ==> (#[trigger] t[p]).0 != (#[trigger] t[q2]).0);
    }
    if i == 0 {
        assert(t[0] == (key, value));
        if q != key {
            assert(t.drop_first() =~= s.drop_first());
        }
    } else {
        assert(t[0] == s[0]);
        assert(s[0].0 != key);
        assert(keys_unique(s.drop_first())) by {
            assert(forall|p: int| 0 <= p < s.drop_first().len() ==> s.drop_first()[p] == s[p + 1]);
        }
        assert(t.drop_first() =~= s.drop_first().update(i - 1, (key, value)));
        assert(s.drop_first()[i - 1] == s[i]);
        lemma_lookup_update(s.drop_first(), i - 1, key, value, q);
        if q == key {
        } else if s[0].0 == q {
        } else {
        }
    }
}

} // verus!
