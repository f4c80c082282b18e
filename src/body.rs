use vstd::prelude::*;

use crate::kv::KvPair;

verus! {

/// The key-to-value mapping that a sequence of pairs describes: each pair in
/// turn sets its key, so that a later pair overrides an earlier one.
pub open spec fn body_map(ps: Seq<KvPair>) -> Map<Seq<char>, Seq<char>>
    decreases ps.len(),
{
    if ps.len() == 0 {
        Map::empty()
    } else {
        body_map(ps.drop_last()).insert(ps.last().k@, ps.last().v@)
    }
}

/// The distinct keys of `ps`, in the order in which each first appears.
pub open spec fn first_keys(ps: Seq<KvPair>) -> Seq<Seq<char>>
    decreases ps.len(),
{
    if ps.len() == 0 {
        Seq::empty()
    } else {
        let pre = first_keys(ps.drop_last());
        if pre.contains(ps.last().k@) {
            pre
        } else {
            pre.push(ps.last().k@)
        }
    }
}

/// The keys of `ps`, in order.
pub open spec fn keys_of(ps: Seq<KvPair>) -> Seq<Seq<char>> {
    ps.map_values(|p: KvPair| p.k@)
}

/// No key occurs twice.
pub open spec fn keys_unique(ps: Seq<KvPair>) -> bool {
    forall|i: int, j: int| 0 <= i < j < ps.len() ==> ps[i].k@ != ps[j].k@
}

/// Duplicate keys: the last pair that holds a key wins. The mapping holds
/// that key, with the value of that last pair.
pub proof fn lemma_last_wins(ps: Seq<KvPair>, i: int)
    requires
        0 <= i < ps.len(),
        forall|j: int| i < j < ps.len() ==> ps[j].k@ != ps[i].k@,
    ensures
        body_map(ps).contains_key(ps[i].k@),
        body_map(ps)[ps[i].k@] == ps[i].v@,
    decreases ps.len(),
{
    if i < ps.len() - 1 {
        lemma_last_wins(ps.drop_last(), i);
    }
}

/// The mapping holds no key that no pair gave: each of its keys is the key
/// of some pair.
pub proof fn lemma_map_keys_from_pairs(ps: Seq<KvPair>, key: Seq<char>)
    requires
        body_map(ps).contains_key(key),
    ensures
        exists|i: int| 0 <= i < ps.len() && ps[i].k@ == key,
    decreases ps.len(),
{
    if ps.last().k@ != key {
        lemma_map_keys_from_pairs(ps.drop_last(), key);
        let i = choose|i: int| 0 <= i < ps.drop_last().len() && ps.drop_last()[i].k@ == key;
        assert(ps[i].k@ == key);
    }
}

/// Replacing the pair that holds a key, in pairs with unique keys, sets that
/// key in the mapping.
proof fn lemma_update_unique(ps: Seq<KvPair>, j: int, p: KvPair)
    requires
        keys_unique(ps),
        0 <= j < ps.len(),
        ps[j].k@ == p.k@,
    ensures
        body_map(ps.update(j, p)) == body_map(ps).insert(p.k@, p.v@),
    decreases ps.len(),
{
    let qs = ps.update(j, p);
    if j == ps.len() - 1 {
        assert(qs.drop_last() =~= ps.drop_last());
        assert(body_map(ps).insert(p.k@, p.v@) =~= body_map(ps.drop_last()).insert(p.k@, p.v@));
    } else {
        assert(qs.drop_last() =~= ps.drop_last().update(j, p));
        lemma_update_unique(ps.drop_last(), j, p);
        assert(ps.last().k@ != p.k@);
        assert(body_map(qs) =~= body_map(ps).insert(p.k@, p.v@));
    }
}

/// Collects the body pairs into a mapping with unique keys: each key appears
/// once, where it first appeared, with the value of its last occurrence.
pub fn collect_body(pairs: &Vec<KvPair>) -> (r: Vec<KvPair>)
    ensures
        keys_unique(r@),
        keys_of(r@) == first_keys(pairs@),
        body_map(r@) == body_map(pairs@),
        r@.len() == body_map(pairs@).dom().len(),
{
    let mut out: Vec<KvPair> = Vec::new();
    let mut i: usize = 0;
    while i < pairs.len()
        invariant
            i <= pairs.len(),
            keys_unique(out@),
            keys_of(out@) == first_keys(pairs@.subrange(0, i as int)),
            body_map(out@) == body_map(pairs@.subrange(0, i as int)),
        decreases pairs.len() - i,
    {
        let p = pairs[i].clone();
        assert(pairs@.subrange(0, i + 1).drop_last() =~= pairs@.subrange(0, i as int));
        let mut j: usize = 0;
        let mut found = false;
        while j < out.len() && !found
            invariant
                j <= out.len(),
                found ==> j < out.len() && out@[j as int].k@ == p.k@,
                !found ==> forall|m: int| 0 <= m < j ==> out@[m].k@ != p.k@,
            decreases out.len() - j + (if found { 0int } else { 1int }),
        {
            if out[j].k == p.k {
                found = true;
            } else {
                j = j + 1;
            }
        }
        if found {
            proof {
                lemma_update_unique(out@, j as int, p);
                assert(keys_of(out@)[j as int] == p.k@);
                assert(keys_of(out@.update(j as int, p)) =~= keys_of(out@));
            }
            out.set(j, p);
        } else {
            proof {
                assert(out@.push(p).drop_last() =~= out@);
                assert(!keys_of(out@).contains(p.k@));
                assert(keys_of(out@.push(p)) =~= keys_of(out@).push(p.k@));
            }
            out.push(p);
        }
        i = i + 1;
    }
    assert(pairs@.subrange(0, pairs.len() as int) =~= pairs@);
    proof {
        lemma_unique_len(out@);
    }
    out
}

/// With unique keys there are as many pairs as keys in the mapping.
proof fn lemma_unique_len(ps: Seq<KvPair>)
    requires
        keys_unique(ps),
    ensures
        body_map(ps).dom().len() == ps.len(),
        body_map(ps).dom().finite(),
    decreases ps.len(),
{
    if ps.len() > 0 {
        let qs = ps.drop_last();
        lemma_unique_len(qs);
        if body_map(qs).contains_key(ps.last().k@) {
            lemma_map_keys_from_pairs(qs, ps.last().k@);
        }
    }
}

} // verus!
