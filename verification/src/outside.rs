//! Trusted boundary to the digest and group primitives: the Sha512 wide
//! digest from `sha2` and the Ristretto group from `curve25519_dalek`.
//!
//! The accumulator's running sum lives in the Ristretto group.  A point is
//! opaque here; its canonical 32-byte compressed encoding (`point_code`)
//! stands for it in specifications.  The whole construction maps a multiset
//! of byte strings to one point -- identity for the empty multiset, plus
//! `multiplicity * hash_to_group(element)` for each element -- and because
//! group addition is commutative and associative and scalar multiplication
//! distributes over it, that point, and hence its encoding, is a function of
//! the multiset alone; `digest_of` names that encoding.

use vstd::prelude::*;
use vstd::multiset::Multiset;
use crate::model::copies_of;
use curve25519_dalek::ristretto::RistrettoPoint;
use curve25519_dalek::scalar::Scalar;
use sha2::Digest;
use sha2::Sha512;

verus! {

#[verifier::external_type_specification]
#[verifier::external_body]
pub struct ExSha512(Sha512);

#[verifier::external_type_specification]
#[verifier::external_body]
pub struct ExRistrettoPoint(RistrettoPoint);

/// The bytes fed into a Sha512 digest state since it was created.
pub uninterp spec fn sha512_input(h: Sha512) -> Seq<u8>;

/// The canonical 32-byte compressed encoding of a Ristretto point.
pub uninterp spec fn point_code(p: RistrettoPoint) -> Seq<u8>;

/// The compressed encoding of the multiset-hash point of a multiset of byte
/// strings: the group sum, over the multiset, of each element's
/// hash-to-group image scaled by its multiplicity.
pub uninterp spec fn digest_of(m: Multiset<Seq<u8>>) -> Seq<u8>;

/// Relies on `sha2::Sha512::new` (via `digest::Digest`): a freshly created
/// digest state has been fed no bytes.
#[verifier::external_body]
pub(crate) fn fresh_hasher() -> (h: Sha512)
    ensures
        sha512_input(h) == Seq::<u8>::empty(),
{
    Sha512::new()
}

/// Relies on `digest::Digest::update` for `sha2::Sha512`: feeding bytes
/// incrementally appends them to the digest input.
#[verifier::external_body]
pub(crate) fn hasher_update(h: &mut Sha512, data: &[u8])
    ensures
        sha512_input(*final(h)) == sha512_input(*old(h)) + data@,
{
    h.update(data);
}

/// Relies on `RistrettoPoint::default`, which is the group identity: the
/// sum over the empty multiset.
#[verifier::external_body]
pub(crate) fn identity_point() -> (p: RistrettoPoint)
    ensures
        point_code(p) == digest_of(Multiset::<Seq<u8>>::empty()),
{
    RistrettoPoint::default()
}

/// Relies on `RistrettoPoint::from_hash` (a deterministic hash-to-group map,
/// a function of the digest input alone), `Scalar::from` (reduction of a u64
/// into the scalar field), scalar multiplication and point addition from
/// `curve25519_dalek`.  If `acc` is the sum point of a multiset `s`, then
/// adding `Scalar::from(multiplicity) * from_hash(h)` to it gives the sum
/// point of `s` plus `multiplicity` copies of the bytes fed into `h`.
#[verifier::external_body]
pub(crate) fn commit_point(acc: &RistrettoPoint, h: &Sha512, multiplicity: u64) -> (r:
    RistrettoPoint)
    ensures
        forall|s: Multiset<Seq<u8>>|
            point_code(*acc) == #[trigger] digest_of(s) ==> point_code(r) == digest_of(
                s.add(copies_of(sha512_input(*h), multiplicity as nat)),
            ),
{
    acc + RistrettoPoint::from_hash(h.clone()) * Scalar::from(multiplicity)
}

/// Relies on point addition in `curve25519_dalek`: adding the sum points of
/// two multisets yields the sum point of their multiset union.
#[verifier::external_body]
pub(crate) fn add_points(a: &RistrettoPoint, b: &RistrettoPoint) -> (r: RistrettoPoint)
    ensures
        forall|s1: Multiset<Seq<u8>>, s2: Multiset<Seq<u8>>|
            point_code(*a) == #[trigger] digest_of(s1) && point_code(*b) == #[trigger] digest_of(
                s2,
            ) ==> point_code(r) == digest_of(s1.add(s2)),
{
    a + b
}

/// Relies on `RistrettoPoint::compress` and `CompressedRistretto::as_bytes`:
/// the canonical 32-byte encoding; equal points give identical bytes.
#[verifier::external_body]
pub(crate) fn compress_point(p: &RistrettoPoint) -> (r: [u8; 32])
    ensures
        r@ == point_code(*p),
{
    *p.compress().as_bytes()
}

} // verus!
