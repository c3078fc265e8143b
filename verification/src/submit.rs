//! The submission pipeline's decisions: which URL to fetch, and the record
//! handed to storage once the bytes are in hand.
//!
//! Fetching itself and the storage append are the collaborators' work; the
//! pipeline here turns their plain inputs and outputs into exact results.

use vstd::prelude::*;

use crate::catalog::{clone_bytes, NewRecord};
use crate::cdn::{rewrite_cdn_url, rewritten_url};
use crate::codec::{compute_fingerprint, decodable, perceptual_hash};

verus! {

/// Why a submission failed.
#[derive(PartialEq, Eq, Structural, Debug, Clone, Copy)]
pub enum SubmissionError {
    /// The image bytes could not be fetched from the source URL.
    FetchFailed,
    /// The fetched bytes are not a decodable image.
    DecodeFailed,
    /// The storage collaborator did not append the record.
    StorageFailed,
}

/// A curator's submission of a newly confirmed phishing image.
pub struct SubmitRequest {
    /// Where the image lives; a known CDN URL is rewritten before the fetch.
    pub url: Vec<u8>,
    /// Label to store with the record.
    pub category: Vec<u8>,
    /// Numeric identifier of the reporter.
    pub reported_by: i64,
    /// Optional checksum of the image content.
    pub content_hash: Option<Vec<u8>>,
}

/// The URL the pipeline fetches: the submitted URL, with a known CDN size
/// parameter rewritten to request the maximum resolution.
pub fn submission_fetch_url(req: &SubmitRequest) -> (r: Vec<u8>)
    ensures
        r@ == rewritten_url(req.url@),
{
    rewrite_cdn_url(&req.url)
}

/// Turns the fetched image bytes into the record handed to storage.
/// Undecodable bytes abort with `DecodeFailed` before any storage effect;
/// on decodable bytes the record is owed, carrying the request's data and
/// the bytes' fingerprint, with the rewritten URL as its source.
pub fn build_submission(req: &SubmitRequest, image_bytes: &Vec<u8>) -> (r: Result<
    NewRecord,
    SubmissionError,
>)
    ensures
        r is Ok <==> decodable(image_bytes@),
        !decodable(image_bytes@) ==> (r matches Err(e) && e == SubmissionError::DecodeFailed),
        r matches Ok(nr) ==> nr.wf() && nr.category@ == req.category@ && nr.source@
            == rewritten_url(req.url@) && nr.reported_by == req.reported_by
            && nr.fingerprint@ == perceptual_hash(image_bytes@),
        r matches Ok(nr) ==> (match (nr.content_hash, req.content_hash) {
            (None, None) => true,
            (Some(a), Some(b)) => a@ == b@,
            _ => false,
        }),
{
    let fp = match compute_fingerprint(image_bytes) {
        Ok(fp) => fp,
        Err(_) => {
            return Err(SubmissionError::DecodeFailed);
        },
    };
    Ok(
        NewRecord {
            category: clone_bytes(&req.category),
            source: rewrite_cdn_url(&req.url),
            reported_by: req.reported_by,
            content_hash: match &req.content_hash {
                Some(h) => Some(clone_bytes(h)),
                None => None,
            },
            fingerprint: fp,
        },
    )
}

/// Interprets the storage collaborator's append result: an error or an
/// append of no rows is a storage failure, one or more appended rows is
/// success.
pub fn interpret_append(rows: Option<u64>) -> (r: Result<(), SubmissionError>)
    ensures
        r is Ok <==> (rows matches Some(n) && n > 0),
        r matches Err(e) ==> e == SubmissionError::StorageFailed,
{
    match rows {
        Some(n) if n > 0 => Ok(()),
        _ => Err(SubmissionError::StorageFailed),
    }
}

} // verus!
