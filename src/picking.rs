use vstd::prelude::*;

verus! {

/// The first index at or after `k` whose entry of `hits` is `true`.
pub open spec fn first_hit_from(hits: Seq<bool>, k: int) -> Option<int>
    decreases hits.len() - k,
{
    if k < 0 || k >= hits.len() {
        None
    } else if hits[k] {
        Some(k)
    } else {
        first_hit_from(hits, k + 1)
    }
}

/// The first index whose entry of `hits` is `true`.
pub open spec fn first_hit_index(hits: Seq<bool>) -> Option<int> {
    first_hit_from(hits, 0)
}

proof fn lemma_first_hit_from(hits: Seq<bool>, k: int)
    requires
        0 <= k <= hits.len(),
    ensures
        match first_hit_from(hits, k) {
            Some(m) => k <= m < hits.len() && hits[m] && forall|j: int| k <= j < m ==> !hits[j],
            None => forall|j: int| k <= j < hits.len() ==> !hits[j],
        },
    decreases hits.len() - k,
{
    if k < hits.len() && !hits[k] {
        lemma_first_hit_from(hits, k + 1);
    }
}

/// Picks the body that the cursor hits: `hits[i]` says whether body `i` of the
/// snapshot lies within its hit slop of the cursor's world position. The first
/// hit in index order wins; no hit gives `None`.
pub fn first_hit(hits: &Vec<bool>) -> (r: Option<usize>)
    ensures
        r matches Some(i) ==> first_hit_index(hits@) == Some(i as int),
        r is None ==> first_hit_index(hits@) is None,
        match r {
            Some(i) => i < hits@.len() && hits@[i as int] && forall|j: int| 0 <= j < i ==> !hits@[j],
            None => forall|j: int| 0 <= j < hits@.len() ==> !hits@[j],
        },
{
    let mut i: usize = 0;
    while i < hits.len()
        invariant
            i <= hits@.len(),
            forall|j: int| 0 <= j < i ==> !hits@[j],
            first_hit_index(hits@) == first_hit_from(hits@, i as int),
        decreases hits@.len() - i,
    {
        if hits[i] {
            return Some(i);
        }
        i = i + 1;
    }
    None
}

/// Picking is a function of the hit tests alone, so the same snapshot, viewport
/// and cursor give the same pick; and where two bodies are both hit, the one
/// with the lower index is the one picked, or one lower still.
pub proof fn lemma_lowest_index_is_picked(hits: Seq<bool>, i: int, j: int)
    requires
        0 <= i < j < hits.len(),
        hits[i],
        hits[j],
    ensures
        first_hit_index(hits) matches Some(k) && k <= i && hits[k],
        forall|m: int| 0 <= m < hits.len() && hits[m] ==> (first_hit_index(hits) matches Some(k) && k <= m),
{
    lemma_first_hit_from(hits, 0);
}

} // verus!
