//! The group primitive: the prime-order ristretto255 group, exposing scalar
//! sampling, a uniform-bytes-to-point map, scalar multiplication, canonical
//! point encoding and decoding, and identity-element detection.
//!
//! A group element is opaque, so every [`GroupPoint`] carries a ghost
//! [`PointModel`] that records where the point came from: a base point (mapped
//! from uniform bytes, or decoded from a canonical encoding) together with the
//! multiset of secret scalars it has been multiplied by. In a commutative
//! group the element `((B * s1) * s2) * ...` depends only on the base `B` and
//! on the multiset `{s1, s2, ...}`, never on the order of the
//! multiplications, so the model determines the element, and the element's
//! encoding and identity test are uninterpreted functions of the model.

use vstd::multiset::Multiset;
use vstd::prelude::*;

use curve25519_dalek::ristretto::CompressedRistretto;
use curve25519_dalek::ristretto::RistrettoPoint;
use curve25519_dalek::scalar::Scalar;
use curve25519_dalek::traits::Identity;

verus! {

#[verifier::external_type_specification]
#[verifier::external_body]
pub struct ExRistrettoPoint(RistrettoPoint);

#[verifier::external_type_specification]
#[verifier::external_body]
pub struct ExScalar(Scalar);

/// Where a point's base came from.
#[verifier::ext_equal]
pub enum PointBase {
    /// Mapped from 64 uniform bytes.
    Uniform(Seq<u8>),
    /// Decoded from a canonical 32-byte encoding.
    Decoded(Seq<u8>),
}

/// The model of a group element: a base point and the multiset of secret
/// scalars (each identified by the 64-byte seed it was reduced from) that the
/// base has been multiplied by.
#[verifier::ext_equal]
pub struct PointModel {
    pub base: PointBase,
    pub factors: Multiset<Seq<u8>>,
}

/// The canonical compressed 32-byte encoding of the group element that a
/// model denotes.
pub uninterp spec fn point_encoding(m: PointModel) -> Seq<u8>;

/// Whether the group element that a model denotes is the group's identity
/// element.
pub uninterp spec fn point_is_identity(m: PointModel) -> bool;

/// Whether a byte string is the canonical encoding of some group element.
pub uninterp spec fn point_decodable(bytes: Seq<u8>) -> bool;

/// A secret scalar: an integer modulo the group order, reduced from 64 bytes
/// of input ("wide" reduction). Its view is the seed it was reduced from.
pub struct SecretScalar {
    inner: Scalar,
    seed: Ghost<Seq<u8>>,
}

impl View for SecretScalar {
    type V = Seq<u8>;

    closed spec fn view(&self) -> Seq<u8> {
        self.seed@
    }
}

/// An element of the ristretto255 group, carrying its ghost model.
pub struct GroupPoint {
    inner: RistrettoPoint,
    model: Ghost<PointModel>,
}

impl View for GroupPoint {
    type V = PointModel;

    closed spec fn view(&self) -> PointModel {
        self.model@
    }
}

/// Relies on `<RistrettoPoint as Clone>::clone`, which is derived beside
/// `Copy`: the clone is the same group element.
pub assume_specification[ <RistrettoPoint as Clone>::clone ](p: &RistrettoPoint) -> (r:
    RistrettoPoint)
    ensures
        r == *p,
;

impl Clone for GroupPoint {
    /// The clone denotes the same group element, so it keeps the model.
    fn clone(&self) -> (r: Self)
        ensures
            r@ == self@,
    {
        GroupPoint { inner: self.inner.clone(), model: self.model }
    }
}

/// Fills a buffer with bytes from the operating system's secure random
/// source.
///
/// Relies on `getrandom::fill`. Nothing can be promised of the bytes
/// themselves. A failure of the source is fatal (the process panics): falling
/// back to weaker randomness would make every key derived from it unsafe.
#[verifier::external_body]
fn random_bytes(n: usize) -> (r: Vec<u8>)
    ensures
        r@.len() == n,
{
    let mut buf = vec![0u8; n];
    getrandom::fill(buf.as_mut_slice()).expect("rng failure");
    buf
}

/// Relies on `Scalar::from_bytes_mod_order_wide`: the deterministic reduction
/// of 64 bytes modulo the group order, which avoids sampling bias. The
/// scalar's view records the seed.
#[verifier::external_body]
fn scalar_from_wide_bytes(seed: &[u8]) -> (r: SecretScalar)
    requires
        seed@.len() == 64,
    ensures
        r@ == seed@,
{
    let arr: [u8; 64] = seed.try_into().unwrap();
    SecretScalar { inner: Scalar::from_bytes_mod_order_wide(&arr), seed: Ghost(arbitrary()) }
}

/// Samples a scalar uniformly: 64 bytes of secure randomness, reduced wide.
pub(crate) fn sample_scalar() -> (r: SecretScalar)
    ensures
        r@.len() == 64,
{
    let seed = random_bytes(64);
    scalar_from_wide_bytes(seed.as_slice())
}

/// Maps 64 uniform bytes to a group element.
///
/// Relies on `RistrettoPoint::from_uniform_bytes`: a deterministic map whose
/// output is uniformly distributed when the input is; the model records the
/// input bytes as the point's base.
#[verifier::external_body]
pub fn point_from_uniform_bytes(bytes: &[u8]) -> (r: GroupPoint)
    requires
        bytes@.len() == 64,
    ensures
        r@ == (PointModel { base: PointBase::Uniform(bytes@), factors: Multiset::empty() }),
{
    let arr: [u8; 64] = bytes.try_into().unwrap();
    GroupPoint { inner: RistrettoPoint::from_uniform_bytes(&arr), model: Ghost(arbitrary()) }
}

/// Multiplies a point by a secret scalar.
///
/// Relies on the `Mul` impl of `&RistrettoPoint` by `&Scalar`: scalar
/// multiplication in a commutative group of prime order, where
/// `(P * a) * b == P * (a * b) == (P * b) * a`, so the resulting element
/// depends only on the base and on the multiset of scalars applied, which is
/// what the model records.
#[verifier::external_body]
pub(crate) fn scalar_mul(p: &GroupPoint, s: &SecretScalar) -> (r: GroupPoint)
    ensures
        r@ == (PointModel { base: p@.base, factors: p@.factors.insert(s@) }),
{
    GroupPoint { inner: &p.inner * &s.inner, model: Ghost(arbitrary()) }
}

/// Encodes a point canonically as 32 bytes.
///
/// Relies on `RistrettoPoint::compress`: the canonical compressed encoding, a
/// deterministic function of the group element and hence of the point's
/// model.
#[verifier::external_body]
pub fn encode_point(p: &GroupPoint) -> (r: Vec<u8>)
    ensures
        r@ == point_encoding(p@),
        r@.len() == 32,
{
    p.inner.compress().as_bytes().to_vec()
}

/// Decodes a canonical 32-byte encoding into a group element, rejecting
/// malformed or non-canonical input.
///
/// Relies on `CompressedRistretto::from_slice`, which fails on any slice that
/// is not 32 bytes long, and on `CompressedRistretto::decompress`, which
/// returns a point exactly when the bytes are the canonical encoding of one;
/// both are deterministic in the input bytes.
#[verifier::external_body]
pub fn decode_point(bytes: &[u8]) -> (r: Option<GroupPoint>)
    ensures
        r is Some <==> point_decodable(bytes@),
        bytes@.len() != 32 ==> r is None,
        r matches Some(p) ==> p@ == (PointModel {
            base: PointBase::Decoded(bytes@),
            factors: Multiset::empty(),
        }),
{
    match CompressedRistretto::from_slice(bytes) {
        Ok(compressed) => match compressed.decompress() {
            Some(point) => Some(GroupPoint { inner: point, model: Ghost(arbitrary()) }),
            None => None,
        },
        Err(_) => None,
    }
}

/// Whether a point is the group's identity element.
///
/// Relies on `Identity::identity` for `RistrettoPoint` and on its `PartialEq`
/// impl (constant-time equality of group elements): the answer is a
/// deterministic function of the group element and hence of the point's
/// model.
#[verifier::external_body]
pub(crate) fn is_identity(p: &GroupPoint) -> (r: bool)
    ensures
        r == point_is_identity(p@),
{
    p.inner == RistrettoPoint::identity()
}

} // verus!
