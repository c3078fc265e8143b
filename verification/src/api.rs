//! Request-level orchestration: parameter validation, the computing half
//! of the check flow, and the error taxonomy the HTTP facade maps to
//! status codes.

use vstd::prelude::*;

use crate::catalog::CatalogRecord;
use crate::cdn::{avatar_url, avatar_url_spec};
use crate::codec::{compute_fingerprint, decodable, perceptual_hash};
use crate::gate::GateOutcome;
use crate::score::{
    default_threshold, threshold_from_ratio, Threshold, MAX_THRESHOLD_DEN,
};
use crate::search::{
    find_best_match, is_best_at, some_candidate_meets, widths_ok, MatchResult,
};
use crate::submit::SubmissionError;

verus! {

/// The error taxonomy of the service; each kind maps to one status code.
#[derive(PartialEq, Eq, Structural, Debug, Clone, Copy)]
pub enum ApiError {
    /// Malformed or missing parameters, a threshold outside `[0, 1]`, or
    /// an undecodable image.
    InvalidInput,
    /// Missing, invalid or unparseable credential.
    Unauthenticated,
    /// A valid identity without authorization.
    Denied,
    /// No candidate at or above the threshold.
    NoMatch,
    /// An upstream service failed.
    UpstreamFailure,
    /// The storage collaborator failed.
    StorageFailure,
    /// Any other failure not attributable to the caller.
    InternalError,
}

/// The status code each error kind maps to.
pub open spec fn spec_status_code(e: ApiError) -> u16 {
    match e {
        ApiError::InvalidInput => 400,
        ApiError::Unauthenticated => 401,
        ApiError::Denied => 403,
        ApiError::NoMatch => 404,
        ApiError::UpstreamFailure => 500,
        ApiError::StorageFailure => 500,
        ApiError::InternalError => 500,
    }
}

impl ApiError {
    /// The HTTP status code this error maps to.
    pub fn status_code(&self) -> (c: u16)
        ensures
            c == spec_status_code(*self),
    {
        match self {
            ApiError::InvalidInput => 400,
            ApiError::Unauthenticated => 401,
            ApiError::Denied => 403,
            ApiError::NoMatch => 404,
            ApiError::UpstreamFailure => 500,
            ApiError::StorageFailure => 500,
            ApiError::InternalError => 500,
        }
    }
}

/// The validated plan for one check request.
pub struct CheckPlan {
    /// The avatar URL to fetch.
    pub fetch_url: Vec<u8>,
    /// The threshold to apply: the caller's, or the default.
    pub threshold: Threshold,
}

/// The core's request surface, shared by the facade's handlers.
pub struct Api;

impl Api {
    /// Validates the check parameters and plans the avatar fetch. The
    /// avatar hash and the user id are both required. A supplied
    /// threshold ratio outside `[0, 1]` is rejected, not clamped; an
    /// absent one falls back to the default.
    pub fn plan_check(id: Option<u64>, hash: Option<Vec<u8>>, threshold: Option<(u64, u64)>) -> (r:
        Result<CheckPlan, ApiError>)
        ensures
            r is Ok <==> (id is Some && hash is Some && (match threshold {
                None => true,
                Some((n, d)) => 0 < d <= MAX_THRESHOLD_DEN && n <= d,
            })),
            r matches Err(e) ==> e == ApiError::InvalidInput,
            r matches Ok(p) ==> p.threshold.wf() && (match threshold {
                None => p.threshold.num == 95 && p.threshold.den == 100,
                Some((n, d)) => p.threshold.num == n && p.threshold.den == d,
            }),
            r matches Ok(p) ==> (match (id, hash) {
                (Some(i), Some(h)) => p.fetch_url@ == avatar_url_spec(i as nat, h@),
                _ => false,
            }),
    {
        match (id, hash) {
            (Some(i), Some(h)) => {
                let t = match threshold {
                    None => default_threshold(),
                    Some((n, d)) => {
                        match threshold_from_ratio(n, d) {
                            Ok(t) => t,
                            Err(_) => {
                                return Err(ApiError::InvalidInput);
                            },
                        }
                    },
                };
                Ok(CheckPlan { fetch_url: avatar_url(i, &h), threshold: t })
            },
            _ => Err(ApiError::InvalidInput),
        }
    }

    /// The computing half of a check: fingerprints the fetched avatar
    /// bytes and rescores the store's candidates exactly. Undecodable
    /// bytes are the caller's fault; no candidate at the threshold is no
    /// match; a stored candidate of the wrong width is an internal fault.
    pub fn run_check(
        image_bytes: &Vec<u8>,
        threshold: &Threshold,
        candidates: &Vec<CatalogRecord>,
    ) -> (r: Result<MatchResult, ApiError>)
        requires
            threshold.wf(),
            forall|i: int| 0 <= i < candidates@.len() ==> (#[trigger] candidates@[i]).wf(),
        ensures
            !decodable(image_bytes@) ==> (r matches Err(e) && e == ApiError::InvalidInput),
            decodable(image_bytes@) ==> (match r {
                Ok(m) => exists|i: int|
                    is_best_at(
                        perceptual_hash(image_bytes@),
                        candidates@,
                        *threshold,
                        m,
                        i,
                    ),
                Err(e) => {
                    ||| (e == ApiError::NoMatch && widths_ok(
                        perceptual_hash(image_bytes@),
                        candidates@,
                    ) && !some_candidate_meets(
                        perceptual_hash(image_bytes@),
                        candidates@,
                        *threshold,
                    ))
                    ||| (e == ApiError::InternalError && !widths_ok(
                        perceptual_hash(image_bytes@),
                        candidates@,
                    ))
                },
            }),
    {
        let fp = match compute_fingerprint(image_bytes) {
            Ok(fp) => fp,
            Err(_) => {
                return Err(ApiError::InvalidInput);
            },
        };
        match find_best_match(&fp, threshold, candidates) {
            Ok(Some(m)) => Ok(m),
            Ok(None) => Err(ApiError::NoMatch),
            Err(_) => Err(ApiError::InternalError),
        }
    }
}

/// What the facade answers for a gate outcome: nothing for an authorized
/// caller, else the error to return.
pub fn gate_error(outcome: &GateOutcome) -> (r: Option<ApiError>)
    ensures
        match *outcome {
            GateOutcome::Authorized(_) => r is None,
            GateOutcome::Unauthenticated => r == Some(ApiError::Unauthenticated),
            GateOutcome::Denied => r == Some(ApiError::Denied),
            GateOutcome::InternalError => r == Some(ApiError::InternalError),
        },
{
    match outcome {
        GateOutcome::Authorized(_) => None,
        GateOutcome::Unauthenticated => Some(ApiError::Unauthenticated),
        GateOutcome::Denied => Some(ApiError::Denied),
        GateOutcome::InternalError => Some(ApiError::InternalError),
    }
}

/// The error kind of a failed submission: an unfetchable source is an
/// upstream failure, undecodable bytes are the caller's fault, a failed
/// append is a storage failure.
pub fn submission_error_kind(e: &SubmissionError) -> (r: ApiError)
    ensures
        match *e {
            SubmissionError::FetchFailed => r == ApiError::UpstreamFailure,
            SubmissionError::DecodeFailed => r == ApiError::InvalidInput,
            SubmissionError::StorageFailed => r == ApiError::StorageFailure,
        },
{
    match e {
        SubmissionError::FetchFailed => ApiError::UpstreamFailure,
        SubmissionError::DecodeFailed => ApiError::InvalidInput,
        SubmissionError::StorageFailed => ApiError::StorageFailure,
    }
}

} // verus!
