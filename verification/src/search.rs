//! Best-match selection over a candidate set.
//!
//! The storage collaborator prefilters the catalog with an approximate
//! index and hands over a small candidate set; this module rescores every
//! candidate exactly and applies the threshold policy. Among candidates
//! that reach the threshold the highest score wins, and an exact tie goes
//! to the candidate the store returned first.

use vstd::prelude::*;

use crate::catalog::{same_record, CatalogRecord};
use crate::fingerprint::{bits_of, hamming, lemma_hamming_bound, Fingerprint};
use crate::score::{
    lemma_meets_monotone, meets, Score, Threshold, WidthMismatchError,
};

verus! {

/// The best catalog match for a query, with its exact score.
pub struct MatchResult {
    pub record: CatalogRecord,
    pub score: Score,
}

/// Exact Hamming distance between a query fingerprint, given by its
/// bytes, and candidate `i`.
pub open spec fn cand_dist(q: Seq<u8>, cs: Seq<CatalogRecord>, i: int) -> int {
    hamming(bits_of(q), cs[i].fingerprint.bits()) as int
}

/// Exact score of candidate `i` against the query.
pub open spec fn cand_score(q: Seq<u8>, cs: Seq<CatalogRecord>, i: int) -> Score {
    Score { dist: cand_dist(q, cs, i) as u64, width: (q.len() * 8) as u64 }
}

/// Every candidate shares the query's width.
pub open spec fn widths_ok(q: Seq<u8>, cs: Seq<CatalogRecord>) -> bool {
    forall|i: int| 0 <= i < cs.len() ==> (#[trigger] cs[i].fingerprint)@.len() == q.len()
}

/// Some candidate reaches the threshold.
pub open spec fn some_candidate_meets(q: Seq<u8>, cs: Seq<CatalogRecord>, t: Threshold) -> bool {
    exists|i: int| 0 <= i < cs.len() && meets(#[trigger] cand_score(q, cs, i), t)
}

/// `m` is the selected match, taken from position `i`: it carries candidate
/// `i`'s data and exact score, reaches the threshold, no candidate scores
/// higher, and every earlier candidate scores strictly lower.
pub open spec fn is_best_at(
    q: Seq<u8>,
    cs: Seq<CatalogRecord>,
    t: Threshold,
    m: MatchResult,
    i: int,
) -> bool {
    &&& 0 <= i < cs.len()
    &&& same_record(m.record, cs[i])
    &&& m.score == cand_score(q, cs, i)
    &&& meets(m.score, t)
    &&& forall|j: int| 0 <= j < cs.len() ==> m.score.dist <= #[trigger] cand_dist(q, cs, j)
    &&& forall|j: int| 0 <= j < i ==> m.score.dist < #[trigger] cand_dist(q, cs, j)
}

/// Rescans the candidate set exactly and selects the best match at or
/// above the threshold, if any; an empty set never matches. A candidate
/// whose width differs from the query's is a contract violation and is
/// rejected outright.
pub fn find_best_match(
    query: &Fingerprint,
    threshold: &Threshold,
    candidates: &Vec<CatalogRecord>,
) -> (r: Result<Option<MatchResult>, WidthMismatchError>)
    requires
        query.wf(),
        threshold.wf(),
        forall|i: int| 0 <= i < candidates@.len() ==> (#[trigger] candidates@[i]).wf(),
    ensures
        r is Ok <==> widths_ok(query@, candidates@),
        candidates@.len() == 0 ==> r matches Ok(None),
        r matches Ok(o) ==> ((o is Some) <==> some_candidate_meets(
            query@,
            candidates@,
            *threshold,
        )),
        r matches Ok(Some(m)) ==> m.score.wf() && meets(m.score, *threshold),
        r matches Ok(Some(m)) ==> exists|i: int|
            is_best_at(query@, candidates@, *threshold, m, i),
{
    let n = candidates.len();
    let mut best: Option<(usize, u64)> = None;
    let mut i: usize = 0;
    while i < n
        invariant
            query.wf(),
            threshold.wf(),
            n == candidates@.len(),
            forall|k: int| 0 <= k < n ==> (#[trigger] candidates@[k]).wf(),
            0 <= i <= n,
            forall|k: int| 0 <= k < i ==> (#[trigger] candidates@[k].fingerprint)@.len()
                == query@.len(),
            (best is None) <==> i == 0,
            best matches Some((bi, bd)) ==> 0 <= bi < i && bd == cand_dist(
                query@,
                candidates@,
                bi as int,
            ),
            best matches Some((bi, bd)) ==> forall|k: int| 0 <= k < i ==> bd
                <= #[trigger] cand_dist(query@, candidates@, k),
            best matches Some((bi, bd)) ==> forall|k: int| 0 <= k < bi ==> bd
                < #[trigger] cand_dist(query@, candidates@, k),
        decreases n - i,
    {
        let c = &candidates[i];
        if c.fingerprint.as_bytes().len() != query.as_bytes().len() {
            return Err(WidthMismatchError);
        }
        let d = query.hamming_distance(&c.fingerprint);
        match best {
            None => {
                best = Some((i, d));
            },
            Some((_, bd)) => {
                if d < bd {
                    best = Some((i, d));
                }
            },
        }
        i = i + 1;
    }
    match best {
        None => Ok(None),
        Some((bi, bd)) => {
            let s = Score { dist: bd, width: query.width() };
            proof {
                lemma_hamming_bound(query.bits(), candidates@[bi as int].fingerprint.bits());
            }
            let meets_threshold = crate::score::score_meets(&s, threshold);
            if meets_threshold {
                proof {
                    assert(s == cand_score(query@, candidates@, bi as int));
                }
                let m = MatchResult { record: candidates[bi].clone(), score: s };
                proof {
                    assert(is_best_at(query@, candidates@, *threshold, m, bi as int));
                }
                Ok(Some(m))
            } else {
                proof {
                    assert forall|k: int| 0 <= k < n implies !meets(
                        #[trigger] cand_score(query@, candidates@, k),
                        *threshold,
                    ) by {
                        lemma_hamming_bound(query.bits(), candidates@[k].fingerprint.bits());
                        let h = hamming(query.bits(), candidates@[k].fingerprint.bits());
                        assert(h <= query.bits().len());
                        assert(cand_score(query@, candidates@, k).dist == h as u64);
                        assert(bd <= cand_dist(query@, candidates@, k));
                        assert(s.dist <= cand_score(query@, candidates@, k).dist);
                        if meets(cand_score(query@, candidates@, k), *threshold) {
                            lemma_meets_monotone(
                                s,
                                cand_score(query@, candidates@, k),
                                *threshold,
                            );
                        }
                    }
                }
                Ok(None)
            }
        },
    }
}

} // verus!
