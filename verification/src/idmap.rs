//! First-match lookup over association lists keyed by window or desktop
//! identifiers, with the induction lemmas the state modules need.
//!
//! State that the original tool keeps per window or per desktop is held as
//! a list of key/value pairs; a key's binding is the first pair carrying
//! it. The lemmas here say how that binding behaves under appending and
//! under replacing the first matching pair.

use vstd::prelude::*;

verus! {

/// The value bound to `key`: the first pair carrying it, if any.
pub open spec fn lookup<V>(pairs: Seq<(u32, V)>, key: u32) -> Option<V>
    decreases pairs.len(),
{
    if pairs.len() == 0 {
        None
    } else if pairs[0].0 == key {
        Some(pairs[0].1)
    } else {
        lookup(pairs.drop_first(), key)
    }
}

/// Appending a pair binds its key only where the key was unbound.
pub proof fn lemma_lookup_push<V>(pairs: Seq<(u32, V)>, p: (u32, V), key: u32)
    ensures
        lookup(pairs.push(p), key) == (if lookup(pairs, key) is Some {
            lookup(pairs, key)
        } else if p.0 == key {
            Some(p.1)
        } else {
            None::<V>
        }),
    decreases pairs.len(),
{
    if pairs.len() == 0 {
        assert(pairs.push(p)[0] == p);
        assert(pairs.push(p).drop_first() =~= Seq::<(u32, V)>::empty());
        assert(lookup(Seq::<(u32, V)>::empty(), key) is None);
    } else {
        assert(pairs.push(p)[0] == pairs[0]);
        assert(pairs.push(p).drop_first() =~= pairs.drop_first().push(p));
        lemma_lookup_push(pairs.drop_first(), p, key);
        assert(lookup(pairs.push(p), key) == if pairs[0].0 == key {
            Some(pairs[0].1)
        } else {
            lookup(pairs.drop_first().push(p), key)
        });
    }
}

/// Replacing the pair at `idx` with one of the same key leaves every other
/// key's binding unchanged.
pub proof fn lemma_lookup_update_other<V>(pairs: Seq<(u32, V)>, idx: int, q: (u32, V), key: u32)
    requires
        0 <= idx < pairs.len(),
        pairs[idx].0 == q.0,
        key != q.0,
    ensures
        lookup(pairs.update(idx, q), key) == lookup(pairs, key),
    decreases pairs.len(),
{
    let up = pairs.update(idx, q);
    if idx == 0 {
        assert(up[0] == q);
        assert(up.drop_first() =~= pairs.drop_first());
    } else {
        assert(up[0] == pairs[0]);
        if pairs[0].0 != key {
            assert(up.drop_first() =~= pairs.drop_first().update(idx - 1, q));
            lemma_lookup_update_other(pairs.drop_first(), idx - 1, q, key);
        }
    }
}

/// Replacing the first pair carrying a key binds that key to the new
/// value.
pub proof fn lemma_lookup_update_first<V>(pairs: Seq<(u32, V)>, idx: int, q: (u32, V))
    requires
        0 <= idx < pairs.len(),
        pairs[idx].0 == q.0,
        forall|j: int| 0 <= j < idx ==> pairs[j].0 != q.0,
    ensures
        lookup(pairs.update(idx, q), q.0) == Some(q.1),
    decreases pairs.len(),
{
    let up = pairs.update(idx, q);
    if idx == 0 {
        assert(up[0] == q);
    } else {
        assert(up[0] == pairs[0]);
        assert(up.drop_first() =~= pairs.drop_first().update(idx - 1, q));
        lemma_lookup_update_first(pairs.drop_first(), idx - 1, q);
    }
}

/// Whether a list of identifiers contains one.
pub fn contains_id(v: &Vec<u32>, id: u32) -> (r: bool)
    ensures
        r == v@.contains(id),
{
    let n = v.len();
    for i in 0..n
        invariant
            n == v@.len(),
            forall|j: int| 0 <= j < i ==> v@[j] != id,
    {
        if v[i] == id {
            return true;
        }
    }
    false
}

} // verus!
