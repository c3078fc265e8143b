//! Perceptual-hash phishing-image matching engine with a request
//! authorization gate.
//!
//! The library holds the verified core: fingerprint similarity scoring,
//! two-phase best-match search over a candidate set, CDN URL rewriting for
//! submissions, and the identity-gate state machine. Network and storage
//! collaborators live outside and hand the core plain values.

pub mod api;
pub mod catalog;
pub mod cdn;
pub mod codec;
pub mod fingerprint;
pub mod gate;
pub mod score;
pub mod search;
pub mod submit;
