//! Normalized similarity between equal-width fingerprints, and the
//! threshold policy applied to it.
//!
//! A similarity is the exact rational `(width - distance) / width`, held as
//! two integers so no rounding enters the matching policy. `1` means the
//! fingerprints are identical, `0` that every bit differs.

use vstd::prelude::*;

use crate::fingerprint::{
    hamming, lemma_hamming_bound, lemma_hamming_self, lemma_hamming_symmetric, Fingerprint,
};

verus! {

/// Largest fingerprint width in bits; follows from the byte bound on
/// `Fingerprint` and keeps threshold products inside `u64`.
pub const MAX_WIDTH_BITS: u64 = 0x0800_0000;

/// Largest denominator a threshold ratio may use.
pub const MAX_THRESHOLD_DEN: u64 = 0xFFFF_FFFF;

/// Error returned when two fingerprints of different widths are compared.
#[derive(PartialEq, Eq, Structural, Debug, Clone, Copy)]
pub struct WidthMismatchError;

/// Error returned for a threshold ratio outside `[0, 1]`.
#[derive(PartialEq, Eq, Structural, Debug, Clone, Copy)]
pub struct InvalidThresholdError;

/// Exact similarity of two fingerprints of width `width` (in bits) at
/// Hamming distance `dist`: the rational `(width - dist) / width`.
#[derive(PartialEq, Eq, Structural, Debug, Clone, Copy)]
pub struct Score {
    pub dist: u64,
    pub width: u64,
}

impl Score {
    /// Well-formed: positive bounded width, distance within it.
    pub open spec fn wf(self) -> bool {
        0 < self.width <= MAX_WIDTH_BITS && self.dist <= self.width
    }

    /// Numerator of the similarity value.
    pub open spec fn num(self) -> int {
        self.width - self.dist
    }

    /// Denominator of the similarity value.
    pub open spec fn den(self) -> int {
        self.width as int
    }

    /// Similarity `1`: the fingerprints are identical.
    pub open spec fn is_perfect(self) -> bool {
        self.dist == 0
    }
}

/// The score the similarity model assigns to a pair of fingerprints.
pub open spec fn score_of(a: Fingerprint, b: Fingerprint) -> Score {
    Score { dist: hamming(a.bits(), b.bits()) as u64, width: a.spec_width() as u64 }
}

/// A similarity threshold in `[0, 1]`, as the exact ratio `num / den`.
#[derive(PartialEq, Eq, Structural, Debug, Clone, Copy)]
pub struct Threshold {
    pub num: u64,
    pub den: u64,
}

impl Threshold {
    /// Well-formed: a ratio in `[0, 1]` with a bounded denominator.
    pub open spec fn wf(self) -> bool {
        0 < self.den <= MAX_THRESHOLD_DEN && self.num <= self.den
    }
}

/// Builds a threshold from a ratio; a ratio outside `[0, 1]` or with a
/// zero or oversized denominator is rejected, not clamped.
pub fn threshold_from_ratio(num: u64, den: u64) -> (r: Result<Threshold, InvalidThresholdError>)
    ensures
        r is Ok <==> (0 < den <= MAX_THRESHOLD_DEN && num <= den),
        r matches Ok(t) ==> t.num == num && t.den == den && t.wf(),
{
    if den == 0 || den > MAX_THRESHOLD_DEN || num > den {
        Err(InvalidThresholdError)
    } else {
        Ok(Threshold { num, den })
    }
}

/// The default threshold, `0.95`, used when a caller supplies none.
pub fn default_threshold() -> (t: Threshold)
    ensures
        t.num == 95 && t.den == 100,
        t.wf(),
{
    Threshold { num: 95, den: 100 }
}

/// A score reaches a threshold when `(width - dist) / width >= num / den`,
/// compared exactly by cross multiplication.
pub open spec fn meets(s: Score, t: Threshold) -> bool {
    s.num() * t.den >= t.num * s.den()
}

/// Scores two fingerprints. Equal widths always succeed with the exact
/// similarity; differing widths are rejected, never truncated or padded.
pub fn score(a: &Fingerprint, b: &Fingerprint) -> (r: Result<Score, WidthMismatchError>)
    requires
        a.wf(),
        b.wf(),
    ensures
        r is Ok <==> a.same_width(*b),
        r matches Ok(s) ==> s == score_of(*a, *b) && s.wf(),
        r matches Ok(s) ==> s.dist == hamming(a.bits(), b.bits()) && s.width == a.spec_width(),
        a@ == b@ ==> (r matches Ok(s) && s.is_perfect()),
{
    if a.as_bytes().len() != b.as_bytes().len() {
        return Err(WidthMismatchError);
    }
    let dist = a.hamming_distance(b);
    let width = a.width();
    proof {
        lemma_hamming_bound(a.bits(), b.bits());
        if a@ == b@ {
            lemma_hamming_self(a.bits());
        }
    }
    Ok(Score { dist, width })
}

/// Decides whether a score reaches a threshold, by exact cross
/// multiplication; no rounding is involved.
pub fn score_meets(s: &Score, t: &Threshold) -> (b: bool)
    requires
        s.wf(),
        t.wf(),
    ensures
        b == meets(*s, *t),
{
    let lhs_a: u64 = s.width - s.dist;
    proof {
        assert(lhs_a * t.den <= MAX_WIDTH_BITS * MAX_THRESHOLD_DEN) by (nonlinear_arith)
            requires
                lhs_a <= MAX_WIDTH_BITS,
                t.den <= MAX_THRESHOLD_DEN,
        ;
        assert(t.num * s.width <= MAX_THRESHOLD_DEN * MAX_WIDTH_BITS) by (nonlinear_arith)
            requires
                t.num <= MAX_THRESHOLD_DEN,
                s.width <= MAX_WIDTH_BITS,
        ;
    }
    lhs_a * t.den >= t.num * s.width
}

/// A score of `1` is assigned exactly to a fingerprint compared with
/// itself, and its numerator equals its denominator.
pub proof fn lemma_score_identity(a: Fingerprint)
    requires
        a.wf(),
    ensures
        score_of(a, a).is_perfect(),
        score_of(a, a).num() == score_of(a, a).den(),
{
    lemma_hamming_self(a.bits());
}

/// Scoring is symmetric in its two fingerprints.
pub proof fn lemma_score_symmetric(a: Fingerprint, b: Fingerprint)
    requires
        a.wf(),
        b.wf(),
        a.same_width(b),
    ensures
        score_of(a, b) == score_of(b, a),
{
    lemma_hamming_symmetric(a.bits(), b.bits());
}

/// Every well-formed score lies in `[0, 1]`.
pub proof fn lemma_score_bounded(s: Score)
    requires
        s.wf(),
    ensures
        0 <= s.num() <= s.den(),
{
}

/// At one width, a smaller distance reaches every threshold a larger
/// distance reaches.
pub proof fn lemma_meets_monotone(s1: Score, s2: Score, t: Threshold)
    requires
        s1.wf(),
        s2.wf(),
        t.wf(),
        s1.width == s2.width,
        s1.dist <= s2.dist,
        meets(s2, t),
    ensures
        meets(s1, t),
{
    assert(s1.num() * t.den >= s2.num() * t.den) by (nonlinear_arith)
        requires
            s1.num() >= s2.num(),
            t.den >= 0,
    ;
}

} // verus!
