//! Fingerprints, scoring, and best-match selection on concrete values.

use iridium::catalog::CatalogRecord;
use iridium::fingerprint::Fingerprint;
use iridium::score::{default_threshold, score, score_meets, threshold_from_ratio, Score, Threshold};
use iridium::search::find_best_match;

fn fp(bytes: Vec<u8>) -> Fingerprint {
    Fingerprint::from_bytes(bytes).unwrap()
}

fn record(id: i32, fingerprint: Fingerprint) -> CatalogRecord {
    CatalogRecord {
        id,
        category: b"scam".to_vec(),
        source: b"https://example.test/img.png".to_vec(),
        reported_by: 7,
        added_at: 1_700_000_000,
        content_hash: None,
        fingerprint,
    }
}

#[test]
fn fingerprint_rejects_empty_bytes() {
    assert!(Fingerprint::from_bytes(Vec::new()).is_err());
}

#[test]
fn fingerprint_keeps_bytes_and_width() {
    let f = fp(vec![0xAB; 8]);
    assert_eq!(f.as_bytes().as_slice(), &[0xAB; 8]);
    assert_eq!(f.width(), 64);
}

#[test]
fn score_of_identical_fingerprints_is_one() {
    let a = fp(vec![0x5C, 0x01, 0xFF, 0x00, 0x12, 0x34, 0x56, 0x78]);
    let b = fp(vec![0x5C, 0x01, 0xFF, 0x00, 0x12, 0x34, 0x56, 0x78]);
    let s = score(&a, &b).unwrap();
    assert_eq!(s.dist, 0);
    assert_eq!(s.width, 64);
    assert_eq!(1.0 - s.dist as f32 / s.width as f32, 1.0);
}

#[test]
fn score_is_symmetric() {
    let a = fp(vec![0xF0, 0x0F, 0xAA, 0x55, 0x00, 0xFF, 0x12, 0x9C]);
    let b = fp(vec![0x0F, 0xF0, 0xAB, 0x54, 0x10, 0xEF, 0x92, 0x1C]);
    let ab = score(&a, &b).unwrap();
    let ba = score(&b, &a).unwrap();
    assert_eq!(ab, ba);
    assert!(ab.dist <= ab.width);
}

#[test]
fn score_counts_differing_bits_exactly() {
    // b differs from a in exactly 3 bits: one in the first byte, two in
    // the second.
    let a = fp(vec![0x00; 8]);
    let b = fp(vec![0x01, 0x03, 0x00, 0x00, 0x00, 0x00, 0x00, 0x00]);
    let s = score(&a, &b).unwrap();
    assert_eq!(s.dist, 3);
    assert_eq!(s.width, 64);
    assert_eq!(1.0 - s.dist as f32 / s.width as f32, 0.953125);
}

#[test]
fn score_of_opposite_fingerprints_is_zero() {
    let a = fp(vec![0x00; 8]);
    let b = fp(vec![0xFF; 8]);
    let s = score(&a, &b).unwrap();
    assert_eq!(s.dist, 64);
    assert_eq!(s.width, 64);
}

#[test]
fn score_rejects_width_mismatch() {
    let a = fp(vec![0x00; 8]);
    let b = fp(vec![0x00; 9]);
    assert!(score(&a, &b).is_err());
}

#[test]
fn threshold_rejects_ratio_above_one() {
    assert!(threshold_from_ratio(3, 2).is_err());
    assert!(threshold_from_ratio(1, 0).is_err());
    assert!(threshold_from_ratio(95, 100).is_ok());
}

#[test]
fn threshold_default_is_ninety_five_percent() {
    let t = default_threshold();
    assert_eq!((t.num, t.den), (95, 100));
}

#[test]
fn score_meets_compares_exactly() {
    // 8 of 80 bits differ: similarity is exactly 0.90.
    let s = Score { dist: 8, width: 80 };
    assert!(score_meets(&s, &Threshold { num: 9, den: 10 }));
    assert!(score_meets(&s, &Threshold { num: 90, den: 100 }));
    assert!(!score_meets(&s, &Threshold { num: 99, den: 100 }));
    assert!(!score_meets(&s, &Threshold { num: 901, den: 1000 }));
}

#[test]
fn threshold_accepts_whole_range_bounds() {
    assert!(threshold_from_ratio(0, 1).is_ok());
    assert!(threshold_from_ratio(1, 1).is_ok());
    assert!(threshold_from_ratio(1_000_000, 1_000_000).is_ok());
}

#[test]
fn score_meets_zero_and_one_thresholds() {
    let s = Score { dist: 64, width: 64 };
    assert!(score_meets(&s, &Threshold { num: 0, den: 1 }));
    assert!(!score_meets(&s, &Threshold { num: 1, den: 1 }));
    let perfect = Score { dist: 0, width: 64 };
    assert!(score_meets(&perfect, &Threshold { num: 1, den: 1 }));
}

#[test]
fn empty_candidate_set_never_matches() {
    let q = fp(vec![0x42; 8]);
    let none: Vec<CatalogRecord> = Vec::new();
    for t in [
        Threshold { num: 0, den: 1 },
        Threshold { num: 95, den: 100 },
        Threshold { num: 1, den: 1 },
    ] {
        let r = find_best_match(&q, &t, &none).unwrap();
        assert!(r.is_none());
    }
}

#[test]
fn no_candidate_below_threshold_is_returned() {
    // The closest candidate scores exactly 0.90; with threshold 0.99 the
    // search reports no match.
    let q = fp(vec![0x00; 10]);
    let close = fp(vec![0xFF, 0x00, 0x00, 0x00, 0x00, 0x00, 0x00, 0x00, 0x00, 0x00]);
    let far = fp(vec![0xFF; 10]);
    let candidates = vec![record(1, far), record(2, close)];
    let r = find_best_match(&q, &Threshold { num: 99, den: 100 }, &candidates).unwrap();
    assert!(r.is_none());
    // The same catalog matches once the threshold drops to 0.90.
    let r = find_best_match(&q, &Threshold { num: 90, den: 100 }, &candidates).unwrap();
    let m = r.unwrap();
    assert_eq!(m.record.id, 2);
    assert_eq!(m.score.dist, 8);
    assert_eq!(m.score.width, 80);
}

#[test]
fn best_match_prefers_highest_score() {
    let q = fp(vec![0x00; 8]);
    let candidates = vec![
        record(1, fp(vec![0x0F, 0x00, 0x00, 0x00, 0x00, 0x00, 0x00, 0x00])),
        record(2, fp(vec![0x01, 0x00, 0x00, 0x00, 0x00, 0x00, 0x00, 0x00])),
        record(3, fp(vec![0x03, 0x00, 0x00, 0x00, 0x00, 0x00, 0x00, 0x00])),
    ];
    let t = Threshold { num: 1, den: 2 };
    let m = find_best_match(&q, &t, &candidates).unwrap().unwrap();
    assert_eq!(m.record.id, 2);
    assert_eq!(m.score.dist, 1);
}

#[test]
fn best_match_tie_goes_to_first_candidate() {
    let q = fp(vec![0x00; 8]);
    let candidates = vec![
        record(10, fp(vec![0x80, 0x00, 0x00, 0x00, 0x00, 0x00, 0x00, 0x00])),
        record(20, fp(vec![0x00, 0x00, 0x00, 0x00, 0x00, 0x00, 0x00, 0x01])),
    ];
    let t = Threshold { num: 0, den: 1 };
    let m = find_best_match(&q, &t, &candidates).unwrap().unwrap();
    assert_eq!(m.record.id, 10);
    assert_eq!(m.score.dist, 1);
}

#[test]
fn best_match_rejects_width_mismatch_in_catalog() {
    let q = fp(vec![0x00; 8]);
    let candidates = vec![record(1, fp(vec![0x00; 9]))];
    let t = Threshold { num: 0, den: 1 };
    assert!(find_best_match(&q, &t, &candidates).is_err());
}
