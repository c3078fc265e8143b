//! Fixed-width bit fingerprints and their Hamming distance.

use vstd::prelude::*;

verus! {

/// Largest number of bytes a fingerprint may hold; keeps every product in
/// the scoring arithmetic inside `u64`.
pub const MAX_FINGERPRINT_BYTES: usize = 0x0100_0000;

/// Bit `j` (least-significant first) of byte `x`.
pub open spec fn byte_bit(x: u8, j: int) -> bool {
    (x >> (j as u8)) & 1 == 1
}

/// The bit sequence a byte string denotes, eight bits per byte.
pub open spec fn bits_of(bytes: Seq<u8>) -> Seq<bool> {
    Seq::new(bytes.len() * 8, |p: int| byte_bit(bytes[p / 8], p % 8))
}

/// Number of positions at which two equal-length bit sequences differ.
pub open spec fn hamming(u: Seq<bool>, v: Seq<bool>) -> nat
    decreases u.len(),
{
    if u.len() == 0 {
        0
    } else {
        hamming(u.drop_last(), v.drop_last()) + if u.last() != v.last() {
            1nat
        } else {
            0nat
        }
    }
}

/// A sequence is at Hamming distance zero from itself.
pub proof fn lemma_hamming_self(u: Seq<bool>)
    ensures
        hamming(u, u) == 0,
    decreases u.len(),
{
    if u.len() > 0 {
        lemma_hamming_self(u.drop_last());
    }
}

/// Hamming distance is symmetric.
pub proof fn lemma_hamming_symmetric(u: Seq<bool>, v: Seq<bool>)
    requires
        u.len() == v.len(),
    ensures
        hamming(u, v) == hamming(v, u),
    decreases u.len(),
{
    if u.len() > 0 {
        lemma_hamming_symmetric(u.drop_last(), v.drop_last());
    }
}

/// Hamming distance never exceeds the length.
pub proof fn lemma_hamming_bound(u: Seq<bool>, v: Seq<bool>)
    requires
        u.len() == v.len(),
    ensures
        hamming(u, v) <= u.len(),
    decreases u.len(),
{
    if u.len() > 0 {
        lemma_hamming_bound(u.drop_last(), v.drop_last());
    }
}

/// Sequences that agree everywhere are at distance zero, and extending both
/// sequences by one position adds one exactly when the new bits differ.
proof fn lemma_hamming_extend(u: Seq<bool>, v: Seq<bool>, k: int)
    requires
        u.len() == v.len(),
        0 <= k < u.len(),
    ensures
        hamming(u.take(k + 1), v.take(k + 1)) == hamming(u.take(k), v.take(k)) + if u[k] != v[k] {
            1nat
        } else {
            0nat
        },
{
    assert(u.take(k + 1).drop_last() =~= u.take(k));
    assert(v.take(k + 1).drop_last() =~= v.take(k));
    assert(u.take(k + 1).last() == u[k]);
    assert(v.take(k + 1).last() == v[k]);
}

/// A bit of an exclusive or is set exactly when the operands' bits differ.
proof fn lemma_xor_bit(a: u8, b: u8, j: u8)
    by (bit_vector)
    ensures
        (((a ^ b) >> j) & 1 == 1) <==> (((a >> j) & 1 == 1) != ((b >> j) & 1 == 1)),
{
}

/// A perceptual fingerprint: a nonempty, bounded byte string read as a
/// fixed-width bit sequence.
pub struct Fingerprint {
    bytes: Vec<u8>,
}

/// Error returned when a byte string cannot form a fingerprint.
#[derive(PartialEq, Eq, Structural, Debug, Clone, Copy)]
pub struct InvalidWidthError;

impl Fingerprint {
    /// The byte string of the fingerprint.
    pub closed spec fn view(self) -> Seq<u8> {
        self.bytes@
    }

    /// Well-formed: nonempty and small enough for the scoring arithmetic.
    pub open spec fn wf(self) -> bool {
        0 < self@.len() <= MAX_FINGERPRINT_BYTES
    }

    /// The bit sequence the fingerprint denotes.
    pub open spec fn bits(self) -> Seq<bool> {
        bits_of(self@)
    }

    /// Width of the fingerprint in bits.
    pub open spec fn spec_width(self) -> int {
        self@.len() * 8int
    }

    /// Two fingerprints are comparable when they share one width.
    pub open spec fn same_width(self, other: Fingerprint) -> bool {
        self@.len() == other@.len()
    }

    /// Wraps a byte string; rejects empty or oversized input rather than
    /// truncating or padding.
    pub fn from_bytes(bytes: Vec<u8>) -> (r: Result<Fingerprint, InvalidWidthError>)
        ensures
            r is Ok <==> 0 < bytes@.len() <= MAX_FINGERPRINT_BYTES,
            r matches Ok(fp) ==> fp@ == bytes@ && fp.wf(),
    {
        if bytes.len() == 0 || bytes.len() > MAX_FINGERPRINT_BYTES {
            Err(InvalidWidthError)
        } else {
            Ok(Fingerprint { bytes })
        }
    }

    /// The fingerprint's bytes, for callers that persist it.
    pub fn as_bytes(&self) -> (r: &Vec<u8>)
        ensures
            r@ == self@,
    {
        &self.bytes
    }

    /// Counts the bit positions at which two equal-width fingerprints
    /// differ: the population count of their bytewise exclusive or.
    pub fn hamming_distance(&self, other: &Fingerprint) -> (d: u64)
        requires
            self.wf(),
            other.wf(),
            self.same_width(*other),
        ensures
            d == hamming(self.bits(), other.bits()),
            d <= self.spec_width(),
    {
        let n = self.bytes.len();
        let mut d: u64 = 0;
        let mut i: usize = 0;
        proof {
            assert(self.bits().take(0) =~= Seq::<bool>::empty());
            assert(other.bits().take(0) =~= Seq::<bool>::empty());
        }
        while i < n
            invariant
                self.wf(),
                other.wf(),
                n == self@.len(),
                n == other@.len(),
                0 <= i <= n,
                d == hamming(self.bits().take(8 * i), other.bits().take(8 * i)),
                d <= 8 * i,
            decreases n - i,
        {
            let x = self.bytes[i] ^ other.bytes[i];
            let mut j: u8 = 0;
            while j < 8
                invariant
                    self.wf(),
                    other.wf(),
                    n == self@.len(),
                    n == other@.len(),
                    0 <= i < n,
                    0 <= j <= 8,
                    x == self@[i as int] ^ other@[i as int],
                    d == hamming(
                        self.bits().take(8 * i + j),
                        other.bits().take(8 * i + j),
                    ),
                    d <= 8 * i + j,
                decreases 8 - j,
            {
                let ghost p: int = 8 * i + j;
                proof {
                    lemma_xor_bit(self@[i as int], other@[i as int], j);
                    assert(p / 8 == i && p % 8 == j);
                    assert(self.bits()[p] == byte_bit(self@[i as int], j as int));
                    assert(other.bits()[p] == byte_bit(other@[i as int], j as int));
                    lemma_hamming_extend(self.bits(), other.bits(), p);
                }
                if (x >> j) & 1 == 1 {
                    d = d + 1;
                }
                j = j + 1;
            }
            i = i + 1;
        }
        proof {
            assert(self.bits().take(8 * n as int) =~= self.bits());
            assert(other.bits().take(8 * n as int) =~= other.bits());
        }
        d
    }

    /// Width in bits.
    pub fn width(&self) -> (w: u64)
        requires
            self.wf(),
        ensures
            w == self.spec_width(),
            w == self.bits().len(),
    {
        (self.bytes.len() as u64) * 8
    }
}

impl Clone for Fingerprint {
    /// Clones the fingerprint; the copy denotes the same byte string.
    fn clone(&self) -> (r: Self)
        ensures
            r@ == self@,
    {
        let mut bytes: Vec<u8> = Vec::new();
        let mut i: usize = 0;
        while i < self.bytes.len()
            invariant
                0 <= i <= self.bytes@.len(),
                bytes@ =~= self.bytes@.take(i as int),
            decreases self.bytes@.len() - i,
        {
            bytes.push(self.bytes[i]);
            i = i + 1;
        }
        proof {
            assert(bytes@ =~= self.bytes@);
        }
        Fingerprint { bytes }
    }
}

} // verus!
