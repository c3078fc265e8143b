//! Fingerprint computation from raw image bytes.
//!
//! The decoding-and-hashing primitive is an external library assumed
//! correct; its result is a pure function of the input bytes, named here
//! and never restated. Everything downstream of the primitive takes the
//! fingerprint as a plain value and is verified.

use vstd::prelude::*;

use crate::fingerprint::Fingerprint;

verus! {

/// Error returned when bytes are not a supported, valid image.
#[derive(PartialEq, Eq, Structural, Debug, Clone, Copy)]
pub struct DecodeError;

/// Whether the image decoder accepts a byte string.
pub uninterp spec fn decodable(bytes: Seq<u8>) -> bool;

/// The perceptual hash of a decodable byte string: eight bytes derived
/// from the decoded image's content alone.
pub uninterp spec fn perceptual_hash(bytes: Seq<u8>) -> Seq<u8>;

/// Relies on `image::load_from_memory`, which decodes a byte string on its
/// content alone, and on `image_hasher`'s `Hasher::hash_image` under the
/// default `HasherConfig` (gradient hash, 64 bits / 8 bytes), which is a
/// deterministic function of the decoded image.
#[verifier::external_body]
fn hash_image_bytes(bytes: &Vec<u8>) -> (r: Result<Vec<u8>, DecodeError>)
    ensures
        r is Ok <==> decodable(bytes@),
        r matches Ok(h) ==> h@ == perceptual_hash(bytes@) && h@.len() == 8,
{
    match image::load_from_memory(bytes) {
        Ok(img) => {
            let hasher = image_hasher::HasherConfig::new().to_hasher();
            Ok(hasher.hash_image(&img).as_bytes().to_vec())
        },
        Err(_) => Err(DecodeError),
    }
}

/// Decodes image bytes and computes their fixed-width fingerprint. A pure
/// function of the bytes; undecodable input is reported, never a panic.
pub fn compute_fingerprint(bytes: &Vec<u8>) -> (r: Result<Fingerprint, DecodeError>)
    ensures
        r is Ok <==> decodable(bytes@),
        r matches Ok(fp) ==> fp@ == perceptual_hash(bytes@) && fp@.len() == 8 && fp.wf(),
{
    match hash_image_bytes(bytes) {
        Ok(h) => match Fingerprint::from_bytes(h) {
            Ok(fp) => Ok(fp),
            Err(_) => {
                proof {
                    assert(false);
                }
                Err(DecodeError)
            },
        },
        Err(e) => Err(e),
    }
}

} // verus!
