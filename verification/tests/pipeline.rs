//! The codec and the submission pipeline against the real image stack.

use iridium::api::{Api, ApiError};
use iridium::catalog::CatalogRecord;
use iridium::codec::compute_fingerprint;
use iridium::score::Threshold;
use iridium::submit::{build_submission, submission_fetch_url, SubmissionError, SubmitRequest};

/// Encodes a small gradient image as PNG bytes in memory.
fn png_bytes() -> Vec<u8> {
    let img = image::ImageBuffer::from_fn(32, 32, |x: u32, y: u32| {
        image::Rgba([(x * 8) as u8, (y * 8) as u8, 128u8, 255u8])
    });
    let mut bytes: Vec<u8> = Vec::new();
    let mut cursor = std::io::Cursor::new(&mut bytes);
    img.write_to(&mut cursor, image::ImageFormat::Png).unwrap();
    bytes
}

#[test]
fn fingerprint_of_png_has_eight_bytes() {
    let fp = compute_fingerprint(&png_bytes()).unwrap();
    assert_eq!(fp.as_bytes().len(), 8);
    assert_eq!(fp.width(), 64);
}

#[test]
fn fingerprint_is_deterministic() {
    let a = compute_fingerprint(&png_bytes()).unwrap();
    let b = compute_fingerprint(&png_bytes()).unwrap();
    assert_eq!(a.as_bytes(), b.as_bytes());
}

#[test]
fn garbage_bytes_do_not_decode() {
    let garbage = vec![0x13, 0x37, 0x00, 0x42, 0xFF, 0xFE];
    assert!(compute_fingerprint(&garbage).is_err());
}

#[test]
fn submission_rewrites_cdn_source() {
    let req = SubmitRequest {
        url: b"https://cdn.discordapp.com/avatars/42/abcd.png?size=128".to_vec(),
        category: b"scam".to_vec(),
        reported_by: 7,
        content_hash: Some(b"d41d8cd98f00b204e9800998ecf8427e".to_vec()),
    };
    assert_eq!(
        submission_fetch_url(&req),
        b"https://cdn.discordapp.com/avatars/42/abcd.png?size=1024".to_vec()
    );
    let record = build_submission(&req, &png_bytes()).unwrap();
    assert_eq!(record.category, b"scam".to_vec());
    assert_eq!(
        record.source,
        b"https://cdn.discordapp.com/avatars/42/abcd.png?size=1024".to_vec()
    );
    assert_eq!(record.reported_by, 7);
    assert_eq!(
        record.content_hash,
        Some(b"d41d8cd98f00b204e9800998ecf8427e".to_vec())
    );
    assert_eq!(record.fingerprint.as_bytes().len(), 8);
}

#[test]
fn submission_of_undecodable_bytes_fails_before_storage() {
    let req = SubmitRequest {
        url: b"https://example.test/broken".to_vec(),
        category: b"scam".to_vec(),
        reported_by: 7,
        content_hash: None,
    };
    let r = build_submission(&req, &vec![0u8, 1, 2, 3]);
    assert_eq!(r.err().unwrap(), SubmissionError::DecodeFailed);
}

#[test]
fn submitted_image_checks_back_with_score_one() {
    // A curator submits an image; checking the very same image against the
    // resulting catalog entry matches with similarity 1.0 at the default
    // threshold.
    let bytes = png_bytes();
    let req = SubmitRequest {
        url: b"https://cdn.discordapp.com/avatars/42/abcd.png?size=128".to_vec(),
        category: b"scam".to_vec(),
        reported_by: 7,
        content_hash: None,
    };
    let new_record = build_submission(&req, &bytes).unwrap();
    let catalog = vec![CatalogRecord {
        id: 1,
        category: new_record.category,
        source: new_record.source,
        reported_by: new_record.reported_by,
        added_at: 1_700_000_000,
        content_hash: new_record.content_hash,
        fingerprint: new_record.fingerprint,
    }];
    let plan = Api::plan_check(Some(42), Some(b"abcd".to_vec()), None).unwrap();
    let m = Api::run_check(&bytes, &plan.threshold, &catalog).unwrap();
    assert_eq!(m.record.id, 1);
    assert_eq!(m.record.category, b"scam".to_vec());
    assert_eq!(m.score.dist, 0);
    assert_eq!(1.0 - m.score.dist as f32 / m.score.width as f32, 1.0);
}

#[test]
fn check_of_undecodable_bytes_is_invalid_input() {
    let catalog: Vec<CatalogRecord> = Vec::new();
    let t = Threshold { num: 95, den: 100 };
    let e = Api::run_check(&vec![1u8, 2, 3], &t, &catalog).err().unwrap();
    assert_eq!(e, ApiError::InvalidInput);
    assert_eq!(e.status_code(), 400);
}

#[test]
fn check_against_empty_catalog_is_no_match() {
    let catalog: Vec<CatalogRecord> = Vec::new();
    let t = Threshold { num: 95, den: 100 };
    let e = Api::run_check(&png_bytes(), &t, &catalog).err().unwrap();
    assert_eq!(e, ApiError::NoMatch);
    assert_eq!(e.status_code(), 404);
}
