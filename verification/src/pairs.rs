//! Key-value pair lists and the mapping they denote.
//!
//! Both the cache model and the pronunciation mapping of a word record keep
//! their data as a list of `(key, value)` string pairs; the mapping that such
//! a list denotes is the one where a later pair overrides an earlier pair
//! with the same key.

use vstd::prelude::*;
use crate::strutil::str_eq;

verus! {

/// The mapping denoted by a pair list read front to back: a later pair with
/// the same key overrides an earlier one.
pub open spec fn pairs_map(ps: Seq<(Seq<char>, Seq<char>)>) -> Map<Seq<char>, Seq<char>>
    decreases ps.len(),
{
    if ps.len() == 0 {
        Map::empty()
    } else {
        pairs_map(ps.drop_last()).insert(ps.last().0, ps.last().1)
    }
}

/// Whether some pair of the list carries the key.
pub open spec fn has_key(ps: Seq<(Seq<char>, Seq<char>)>, k: Seq<char>) -> bool {
    exists|i: int| 0 <= i < ps.len() && ps[i].0 == k
}

/// For a pair list whose keys are pairwise distinct, the denoted mapping
/// holds exactly the listed keys, each at its listed value.
pub proof fn lemma_pairs_map_of_distinct(ps: Seq<(Seq<char>, Seq<char>)>)
    requires
        forall|i: int, j: int| 0 <= i < j < ps.len() ==> ps[i].0 != ps[j].0,
    ensures
        forall|k: Seq<char>| #[trigger] pairs_map(ps).contains_key(k) == has_key(ps, k),
        forall|i: int| 0 <= i < ps.len() ==> pairs_map(ps)[#[trigger] ps[i].0] == ps[i].1,
    decreases ps.len(),
{
    if ps.len() > 0 {
        let head = ps.drop_last();
        lemma_pairs_map_of_distinct(head);
        assert forall|k: Seq<char>| #[trigger] pairs_map(ps).contains_key(k) == has_key(
            ps,
            k,
        ) by {
            if pairs_map(ps).contains_key(k) {
                if k == ps.last().0 {
                    assert(ps[ps.len() - 1].0 == k);
                } else {
                    assert(pairs_map(head).contains_key(k));
                    assert(has_key(head, k));
                    let i = choose|i: int| 0 <= i < head.len() && head[i].0 == k;
                    assert(ps[i] == head[i]);
                    assert(ps[i].0 == k);
                }
                assert(has_key(ps, k));
            }
            if has_key(ps, k) {
                let i = choose|i: int| 0 <= i < ps.len() && ps[i].0 == k;
                if i < ps.len() - 1 {
                    assert(head[i] == ps[i]);
                    assert(has_key(head, k));
                    assert(pairs_map(head).contains_key(k));
                } else {
                    assert(ps.last().0 == k);
                }
                assert(pairs_map(ps).contains_key(k));
            }
        }
        assert forall|i: int| 0 <= i < ps.len() implies pairs_map(ps)[#[trigger] ps[i].0]
            == ps[i].1 by {
            if i < ps.len() - 1 {
                assert(ps[i].0 != ps.last().0);
                assert(head[i] == ps[i]);
            }
        }
    }
}

/// Looks a key up in a pair list, returning the value that `pairs_map`
/// assigns to it: the value of the last pair carrying the key.
pub fn lookup_last(pairs: &Vec<(String, String)>, key: &str) -> (r: Option<String>)
    ensures
        match r {
            Some(v) => pairs_map(pairs.deep_view()).contains_key(key@) && v@ == pairs_map(
                pairs.deep_view(),
            )[key@],
            None => !pairs_map(pairs.deep_view()).contains_key(key@),
        },
{
    let ghost full = pairs.deep_view();
    let mut i: usize = pairs.len();
    proof {
        assert(full.take(i as int) =~= full);
    }
    while i > 0
        invariant
            full == pairs.deep_view(),
            i <= pairs@.len(),
            full.len() == pairs@.len(),
            pairs_map(full).contains_key(key@) == pairs_map(full.take(i as int)).contains_key(
                key@,
            ),
            pairs_map(full).contains_key(key@) ==> pairs_map(full)[key@] == pairs_map(
                full.take(i as int),
            )[key@],
        decreases i,
    {
        i = i - 1;
        proof {
            assert(full.take(i + 1).drop_last() =~= full.take(i as int));
            assert(full.take(i + 1).last() == full[i as int]);
        }
        if str_eq(pairs[i].0.as_str(), key) {
            return Some(pairs[i].1.clone());
        }
    }
    proof {
        assert(full.take(0) =~= Seq::<(Seq<char>, Seq<char>)>::empty());
    }
    None
}

} // verus!
