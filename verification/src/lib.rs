//! A commutative, incremental hash for multisets of byte strings.
//!
//! Each element is mapped through a wide digest and a hash-to-group map to a
//! point of the Ristretto group, scaled by its multiplicity, and added into
//! a running sum; finalization compresses the sum to 32 bytes.  Because the
//! group is abelian, the result does not depend on the order elements were
//! added, nor on how a repeated element's count was split across calls.

pub mod model;
pub mod outside;

use vstd::prelude::*;
use vstd::multiset::Multiset;
use crate::model::AccModel;
use crate::outside::digest_of;
use crate::outside::point_code;
use crate::outside::sha512_input;
use crate::outside::fresh_hasher;
use crate::outside::hasher_update;
use crate::outside::identity_point;
use crate::outside::commit_point;
use crate::outside::add_points;
use crate::outside::compress_point;
use curve25519_dalek::ristretto::RistrettoPoint;
use sha2::Sha512;

verus! {

/// The sole failure of this library: `add` or a finalize was called while a
/// partially fed element was outstanding (an `update` with no `end_update`
/// after it).
#[derive(Clone, Copy, Debug, PartialEq, Eq)]
pub struct ProtocolViolation;

/// An incremental hasher for multisets of byte strings, built on the
/// Ristretto group.
///
/// Its abstract state (the view `@`) is an [`AccModel`]: the multiset of
/// committed elements, the bytes of a partially fed element, and whether
/// such an element is outstanding.
pub struct RistrettoHash {
    hasher: Sha512,
    updating: bool,
    acc: RistrettoPoint,
    committed: Ghost<Multiset<Seq<u8>>>,
    fed: Ghost<Seq<u8>>,
}

impl View for RistrettoHash {
    type V = AccModel;

    closed spec fn view(&self) -> AccModel {
        AccModel {
            committed: self.committed@,
            pending: self.fed@,
            accumulating: self.updating,
        }
    }
}

impl RistrettoHash {
    /// The internal invariant: the running-sum point encodes the digest of
    /// the committed multiset, the digest state holds exactly the pending
    /// bytes, and nothing is pending while idle.
    pub closed spec fn wf(self) -> bool {
        &&& point_code(self.acc) == digest_of(self.committed@)
        &&& sha512_input(self.hasher) == self.fed@
        &&& (!self.updating ==> self.fed@ == Seq::<u8>::empty())
    }

    /// Creates an accumulator in the idle state, with the running sum at the
    /// group identity.
    pub fn new() -> (r: RistrettoHash)
        ensures
            r.wf(),
            r@ == AccModel::init(),
    {
        RistrettoHash {
            hasher: fresh_hasher(),
            updating: false,
            acc: identity_point(),
            committed: Ghost(Multiset::empty()),
            fed: Ghost(Seq::empty()),
        }
    }

    /// Whether a partially fed element is outstanding (an `update` with no
    /// `end_update` after it), in which case `add` and the finalizers fail.
    pub fn is_pending(&self) -> (b: bool)
        ensures
            b == self@.accumulating,
    {
        self.updating
    }

    /// Feeds one chunk of an element's bytes.  The element is not committed
    /// until `end_update` is called; until then the instance is
    /// accumulating.  Always succeeds.
    pub fn update(&mut self, chunk: &[u8])
        requires
            old(self).wf(),
        ensures
            final(self).wf(),
            final(self)@ == old(self)@.after_update(chunk@),
    {
        self.updating = true;
        hasher_update(&mut self.hasher, chunk);
        proof {
            self.fed@ = self.fed@ + chunk@;
        }
    }

    /// Commits the element whose bytes were fed since the last commit or
    /// reset, with the given multiplicity, and returns the instance to the
    /// idle state.  Always succeeds; with no prior `update` it commits the
    /// empty byte string.  The multiplicity is reduced into the group's
    /// scalar field; multiplicity zero leaves the running sum unchanged.
    pub fn end_update(&mut self, multiplicity: u64)
        requires
            old(self).wf(),
        ensures
            final(self).wf(),
            final(self)@ == old(self)@.after_end_update(multiplicity as nat),
    {
        let new_acc = commit_point(&self.acc, &self.hasher, multiplicity);
        self.acc = new_acc;
        self.hasher = fresh_hasher();
        self.updating = false;
        proof {
            self.committed@ = self.committed@.add(
                crate::model::copies_of(self.fed@, multiplicity as nat),
            );
            self.fed@ = Seq::empty();
        }
    }

    /// Feeds a whole element and commits it with the given multiplicity in
    /// one step.  Fails with `ProtocolViolation`, leaving the state
    /// unchanged, exactly when a partially fed element is outstanding.
    pub fn add(&mut self, data: &[u8], multiplicity: u64) -> (r: Result<(), ProtocolViolation>)
        requires
            old(self).wf(),
        ensures
            final(self).wf(),
            r is Ok <==> !old(self)@.accumulating,
            r is Err ==> *final(self) == *old(self),
            r is Ok ==> final(self)@ == old(self)@.after_add(data@, multiplicity as nat),
    {
        if self.updating {
            return Err(ProtocolViolation);
        }
        self.updating = true;
        hasher_update(&mut self.hasher, data);
        proof {
            self.fed@ = self.fed@ + data@;
        }
        self.end_update(multiplicity);
        proof {
            assert(old(self)@.pending + data@ =~= data@);
            assert(self@.committed =~= old(self)@.after_add(data@, multiplicity as nat).committed);
            assert(self@ == old(self)@.after_add(data@, multiplicity as nat));
        }
        Ok(())
    }

    /// Compresses the running sum to the canonical 32-byte digest,
    /// consuming the instance.  Fails with `ProtocolViolation` exactly when
    /// a partially fed element is outstanding.
    pub fn finalize(self) -> (r: Result<[u8; 32], ProtocolViolation>)
        requires
            self.wf(),
        ensures
            r is Ok <==> !self@.accumulating,
            r is Ok ==> r->Ok_0@ == self@.digest(),
    {
        if self.updating {
            return Err(ProtocolViolation);
        }
        Ok(compress_point(&self.acc))
    }

    /// Compresses the running sum to the canonical 32-byte digest, then
    /// resets the instance to the initial idle state for reuse.  Fails with
    /// `ProtocolViolation`, leaving the state unchanged, exactly when a
    /// partially fed element is outstanding.
    pub fn finalize_and_reset(&mut self) -> (r: Result<[u8; 32], ProtocolViolation>)
        requires
            old(self).wf(),
        ensures
            final(self).wf(),
            r is Ok <==> !old(self)@.accumulating,
            r is Err ==> *final(self) == *old(self),
            r is Ok ==> r->Ok_0@ == old(self)@.digest() && final(self)@ == AccModel::init(),
    {
        if self.updating {
            return Err(ProtocolViolation);
        }
        let out = compress_point(&self.acc);
        self.reset();
        Ok(out)
    }

    /// Returns the instance to the exact initial state: running sum at the
    /// group identity, nothing pending, digest state fresh.  Always
    /// succeeds.
    pub fn reset(&mut self)
        ensures
            final(self).wf(),
            final(self)@ == AccModel::init(),
    {
        self.hasher = fresh_hasher();
        self.updating = false;
        self.acc = identity_point();
        proof {
            self.committed@ = Multiset::empty();
            self.fed@ = Seq::empty();
        }
    }

    /// Folds another accumulator's running sum into this one by group
    /// addition, so that independently built instances over disjoint parts
    /// of a multiset can be combined before the one final compression.
    /// Fails with `ProtocolViolation`, leaving the state unchanged, exactly
    /// when either instance has a partially fed element outstanding.
    pub fn merge(&mut self, other: &RistrettoHash) -> (r: Result<(), ProtocolViolation>)
        requires
            old(self).wf(),
            other.wf(),
        ensures
            final(self).wf(),
            r is Ok <==> !old(self)@.accumulating && !other@.accumulating,
            r is Err ==> *final(self) == *old(self),
            r is Ok ==> final(self)@ == (AccModel {
                committed: old(self)@.committed.add(other@.committed),
                pending: Seq::<u8>::empty(),
                accumulating: false,
            }),
    {
        if self.updating || other.updating {
            return Err(ProtocolViolation);
        }
        let new_acc = add_points(&self.acc, &other.acc);
        self.acc = new_acc;
        proof {
            self.committed@ = self.committed@.add(other.committed@);
        }
        Ok(())
    }
}

} // verus!
