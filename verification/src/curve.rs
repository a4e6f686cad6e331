//! Trusted boundary to the elliptic-curve library. Group elements and field
//! scalars stay opaque; every value that crosses the boundary carries the
//! canonical byte encoding that determines it, and the contracts speak only
//! of those bytes. Canonical encodings are unique, so byte equality is value
//! equality on everything this module hands out.

use vstd::prelude::*;

verus! {

use curve25519_dalek::ristretto::CompressedRistretto;
use curve25519_dalek::ristretto::RistrettoPoint;
use curve25519_dalek::scalar::Scalar;
use curve25519_dalek::traits::IsIdentity;
use curve25519_dalek::traits::VartimeMultiscalarMul;

#[verifier::external_type_specification]
#[verifier::external_body]
pub struct ExScalar(Scalar);

#[verifier::external_type_specification]
#[verifier::external_body]
pub struct ExRistrettoPoint(RistrettoPoint);

/// Whether 32 bytes are the canonical encoding of a field scalar.
pub uninterp spec fn scalar_ok(b: Seq<u8>) -> bool;

/// The canonical encoding of the negation of the scalar encoded by `b`.
pub uninterp spec fn neg_scalar_of(b: Seq<u8>) -> Seq<u8>;

/// The canonical encoding of the scalar obtained by reducing a 64-byte
/// little-endian integer modulo the group order.
pub uninterp spec fn wide_scalar_of(b: Seq<u8>) -> Seq<u8>;

/// Whether 32 bytes are the canonical compressed encoding of a group element.
pub uninterp spec fn ristretto_ok(b: Seq<u8>) -> bool;

/// The canonical compressed encoding of the multiscalar multiplication
/// `sum scalars[i] * points[i]`, each operand given by its canonical
/// encoding.
pub uninterp spec fn msm_compressed_of(scalars: Seq<Seq<u8>>, points: Seq<Seq<u8>>) -> Seq<u8>;

/// The canonical compressed encoding of the group's identity element, which
/// is the all-zero byte string.
pub open spec fn identity_encoding() -> Seq<u8> {
    Seq::new(32, |i: int| 0u8)
}

/// A validated scalar together with its canonical 32-byte encoding. Only
/// this module constructs these, and it maintains that the encoding held in
/// `src` is always the canonical encoding of `s`. The view of the value is
/// that encoding.
#[derive(Clone, Copy)]
pub struct CanonicalScalar {
    s: Scalar,
    src: [u8; 32],
}

impl View for CanonicalScalar {
    type V = Seq<u8>;

    closed spec fn view(&self) -> Seq<u8> {
        self.src@
    }
}

/// A decoded group element together with its canonical compressed 32-byte
/// encoding. Only this module constructs these, and it maintains that the
/// encoding held in `src` is always the canonical encoding of `p`. The view
/// of the value is that encoding.
#[derive(Clone, Copy)]
pub struct DecodedPoint {
    p: RistrettoPoint,
    src: [u8; 32],
}

impl View for DecodedPoint {
    type V = Seq<u8>;

    closed spec fn view(&self) -> Seq<u8> {
        self.src@
    }
}

/// The canonical encodings of a list of validated scalars.
pub open spec fn scalar_srcs(v: Seq<CanonicalScalar>) -> Seq<Seq<u8>> {
    Seq::new(v.len(), |i: int| v[i]@)
}

/// The canonical encodings of a list of decoded group elements.
pub open spec fn point_srcs(v: Seq<DecodedPoint>) -> Seq<Seq<u8>> {
    Seq::new(v.len(), |i: int| v[i]@)
}

impl CanonicalScalar {
    /// The canonical encoding this scalar was validated from.
    pub fn to_bytes(&self) -> (r: [u8; 32])
        ensures
            r@ == self@,
    {
        self.src
    }
}

/// Relies on Scalar::from_canonical_bytes: it returns a scalar exactly when
/// the 32 bytes are a canonical (fully reduced) encoding, and that scalar's
/// encoding is the input itself.
#[verifier::external_body]
pub(crate) fn scalar_from_canonical(b: &[u8; 32]) -> (r: Option<CanonicalScalar>)
    ensures
        match r {
            Some(s) => scalar_ok(b@) && s@ == b@,
            None => !scalar_ok(b@),
        },
{
    Scalar::from_canonical_bytes(*b).map(|s| CanonicalScalar { s, src: *b })
}

/// Relies on core::ops::Neg for Scalar: negation modulo the group order,
/// returned fully reduced, so the result's encoding is canonical.
#[verifier::external_body]
pub(crate) fn scalar_neg(x: &CanonicalScalar) -> (r: CanonicalScalar)
    ensures
        r@ == neg_scalar_of(x@),
        scalar_ok(r@),
{
    let s = -x.s;
    CanonicalScalar { src: s.to_bytes(), s }
}

/// Relies on Scalar::from_bytes_mod_order_wide: reduction of a 512-bit
/// little-endian integer modulo the group order, returned fully reduced.
#[verifier::external_body]
pub(crate) fn scalar_from_wide(b: &[u8; 64]) -> (r: CanonicalScalar)
    ensures
        r@ == wide_scalar_of(b@),
        scalar_ok(r@),
{
    let s = Scalar::from_bytes_mod_order_wide(b);
    CanonicalScalar { src: s.to_bytes(), s }
}

/// Relies on CompressedRistretto::decompress: it returns a group element
/// exactly when the 32 bytes are a canonical compressed encoding, and that
/// element compresses back to the input bytes.
#[verifier::external_body]
pub(crate) fn point_decompress(b: &[u8; 32]) -> (r: Option<DecodedPoint>)
    ensures
        match r {
            Some(p) => ristretto_ok(b@) && p@ == b@,
            None => !ristretto_ok(b@),
        },
{
    CompressedRistretto::from_slice(b).decompress().map(|p| DecodedPoint { p, src: *b })
}

/// Relies on RistrettoPoint::vartime_multiscalar_mul: the weighted sum of
/// the given group elements, a pure function of the operands' canonical
/// encodings; the sum is compressed to obtain the result's encoding.
#[verifier::external_body]
pub(crate) fn msm(scalars: &Vec<CanonicalScalar>, points: &Vec<DecodedPoint>) -> (r: DecodedPoint)
    requires
        scalars@.len() == points@.len(),
    ensures
        r@ == msm_compressed_of(scalar_srcs(scalars@), point_srcs(points@)),
{
    let p = RistrettoPoint::vartime_multiscalar_mul(
        scalars.iter().map(|x| x.s),
        points.iter().map(|x| x.p),
    );
    DecodedPoint { src: p.compress().to_bytes(), p }
}

/// Relies on IsIdentity::is_identity for RistrettoPoint: true exactly for
/// the identity element, whose canonical compressed encoding is the all-zero
/// byte string.
#[verifier::external_body]
pub(crate) fn point_is_identity(p: &DecodedPoint) -> (r: bool)
    ensures
        r == (p@ == identity_encoding()),
{
    p.p.is_identity()
}

} // verus!
