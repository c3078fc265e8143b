//! Catalog records: the flagged images the matcher searches over.
//!
//! Records are owned by the storage collaborator; this core only reads them
//! during a search or builds a new one during a submission. Timestamps are
//! carried as Unix seconds and text fields as byte strings, so the record
//! is a plain value the storage layer can persist in any form.

use vstd::prelude::*;

use crate::fingerprint::Fingerprint;

verus! {

/// Copies a byte string.
pub fn clone_bytes(v: &Vec<u8>) -> (r: Vec<u8>)
    ensures
        r@ == v@,
{
    let mut r: Vec<u8> = Vec::new();
    let mut i: usize = 0;
    while i < v.len()
        invariant
            0 <= i <= v@.len(),
            r@ =~= v@.take(i as int),
        decreases v@.len() - i,
    {
        r.push(v[i]);
        i = i + 1;
    }
    proof {
        assert(r@ =~= v@);
    }
    r
}

/// One flagged image in the catalog, immutable once appended.
pub struct CatalogRecord {
    /// Unique identifier, assigned by storage.
    pub id: i32,
    /// Label the curators gave the image.
    pub category: Vec<u8>,
    /// Origin URL the image was fetched from.
    pub source: Vec<u8>,
    /// Numeric identifier of the reporter.
    pub reported_by: i64,
    /// When the record was appended, in Unix seconds.
    pub added_at: i64,
    /// Optional checksum of the image content.
    pub content_hash: Option<Vec<u8>>,
    /// Perceptual fingerprint of the image.
    pub fingerprint: Fingerprint,
}

/// Two records carry the same data, field for field.
pub open spec fn same_record(a: CatalogRecord, b: CatalogRecord) -> bool {
    &&& a.id == b.id
    &&& a.category@ == b.category@
    &&& a.source@ == b.source@
    &&& a.reported_by == b.reported_by
    &&& a.added_at == b.added_at
    &&& match (a.content_hash, b.content_hash) {
        (None, None) => true,
        (Some(x), Some(y)) => x@ == y@,
        _ => false,
    }
    &&& a.fingerprint@ == b.fingerprint@
}

impl CatalogRecord {
    /// Well-formed: the fingerprint is.
    pub open spec fn wf(self) -> bool {
        self.fingerprint.wf()
    }
}

impl Clone for CatalogRecord {
    /// Copies the record; the copy carries the same data.
    fn clone(&self) -> (r: Self)
        ensures
            same_record(r, *self),
            r.wf() == self.wf(),
    {
        CatalogRecord {
            id: self.id,
            category: clone_bytes(&self.category),
            source: clone_bytes(&self.source),
            reported_by: self.reported_by,
            added_at: self.added_at,
            content_hash: match &self.content_hash {
                Some(h) => Some(clone_bytes(h)),
                None => None,
            },
            fingerprint: self.fingerprint.clone(),
        }
    }
}

/// A record as the submission pipeline hands it to storage: everything but
/// the identifier and timestamp, which storage assigns on append.
pub struct NewRecord {
    /// Label the curators gave the image.
    pub category: Vec<u8>,
    /// Origin URL the image was fetched from, after any CDN rewrite.
    pub source: Vec<u8>,
    /// Numeric identifier of the reporter.
    pub reported_by: i64,
    /// Optional checksum of the image content.
    pub content_hash: Option<Vec<u8>>,
    /// Perceptual fingerprint of the fetched image.
    pub fingerprint: Fingerprint,
}

impl NewRecord {
    /// Well-formed: the fingerprint is.
    pub open spec fn wf(self) -> bool {
        self.fingerprint.wf()
    }
}

} // verus!
