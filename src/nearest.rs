//! Nearest-hit selection over the primitives of a scene.
//!
//! Each primitive reports either a miss (`None`) or the distance along the ray
//! at which it was struck. Distances are strictly positive, and a positive
//! `f32` orders exactly as its IEEE-754 bit pattern read as a `u32` does, so a
//! candidate is held here as `Option<u32>` and compared as an integer.

use vstd::prelude::*;

verus! {

/// Candidate `i` is the hit that the scene reports: it was struck, nothing was
/// struck nearer, and every candidate before it that was struck lies strictly
/// farther (ties go to the earliest primitive).
pub open spec fn is_nearest(d: Seq<Option<u32>>, i: int) -> bool {
    &&& 0 <= i < d.len()
    &&& d[i] is Some
    &&& forall|j: int| 0 <= j < d.len() && #[trigger] d[j] is Some ==> d[i]->0 <= d[j]->0
    &&& forall|j: int| 0 <= j < i && #[trigger] d[j] is Some ==> d[i]->0 < d[j]->0
}

/// Every primitive missed.
pub open spec fn all_miss(d: Seq<Option<u32>>) -> bool {
    forall|j: int| 0 <= j < d.len() ==> #[trigger] d[j] is None
}

/// Scans the candidates in order and keeps a new one only when it is strictly
/// nearer than the best so far. Returns the index of the reported hit, or
/// `None` when every primitive missed (also for an empty scene).
pub fn nearest_hit(d: &Vec<Option<u32>>) -> (r: Option<usize>)
    ensures
        match r {
            None => all_miss(d@),
            Some(i) => is_nearest(d@, i as int),
        },
{
    let mut best: Option<(usize, u32)> = None;
    let mut k: usize = 0;
    while k < d.len()
        invariant
            k <= d.len(),
            match best {
                None => forall|j: int| 0 <= j < k ==> #[trigger] d@[j] is None,
                Some((b, t)) => {
                    &&& b < k
                    &&& d@[b as int] == Some(t)
                    &&& forall|j: int| 0 <= j < k && #[trigger] d@[j] is Some ==> t <= d@[j]->0
                    &&& forall|j: int| 0 <= j < b && #[trigger] d@[j] is Some ==> t < d@[j]->0
                },
            },
        decreases d.len() - k,
    {
        if let Some(t) = d[k] {
            match best {
                None => {
                    best = Some((k, t));
                },
                Some((_, bt)) => {
                    if t < bt {
                        best = Some((k, t));
                    }
                },
            }
        }
        k = k + 1;
    }
    match best {
        None => None,
        Some((b, _)) => Some(b),
    }
}

/// Reordering the primitives of a scene does not change the distance of the
/// hit it reports, nor whether it reports one. Where no two primitives are
/// struck at the same distance, that distance belongs to one primitive only,
/// so the same hit is reported.
pub proof fn lemma_nearest_order_independent(
    a: Seq<Option<u32>>,
    b: Seq<Option<u32>>,
    i: int,
    j: int,
)
    requires
        a.to_multiset() == b.to_multiset(),
    ensures
        all_miss(a) <==> all_miss(b),
        is_nearest(a, i) && is_nearest(b, j) ==> a[i] == b[j],
{
    broadcast use vstd::seq_lib::group_to_multiset_ensures;

    assert forall|k: int| 0 <= k < a.len() implies b.contains(#[trigger] a[k]) by {
        assert(a.contains(a[k]));
        assert(a.to_multiset().count(a[k]) > 0);
    }
    assert forall|k: int| 0 <= k < b.len() implies a.contains(#[trigger] b[k]) by {
        assert(b.contains(b[k]));
        assert(b.to_multiset().count(b[k]) > 0);
    }
    if all_miss(a) && !all_miss(b) {
        let k = choose|k: int| 0 <= k < b.len() && !(#[trigger] b[k] is None);
        let m = choose|m: int| 0 <= m < a.len() && a[m] == b[k];
        assert(a[m] is None);
    }
    if all_miss(b) && !all_miss(a) {
        let k = choose|k: int| 0 <= k < a.len() && !(#[trigger] a[k] is None);
        let m = choose|m: int| 0 <= m < b.len() && b[m] == a[k];
        assert(b[m] is None);
    }
    if is_nearest(a, i) && is_nearest(b, j) {
        let m = choose|m: int| 0 <= m < b.len() && b[m] == a[i];
        let n = choose|n: int| 0 <= n < a.len() && a[n] == b[j];
        assert(b[j]->0 <= b[m]->0);
        assert(a[i]->0 <= a[n]->0);
    }
}

} // verus!
