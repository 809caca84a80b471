//! Mathematical model of the accumulator: the multiset of committed
//! elements, the bytes of the element currently being fed, and whether
//! such an element is outstanding.

use vstd::prelude::*;
use vstd::multiset::Multiset;
use crate::outside::digest_of;

verus! {

broadcast use vstd::multiset::group_multiset_axioms;

/// The abstract state of an accumulator: which elements have been
/// committed (with their multiplicities), which bytes of a partially fed
/// element are outstanding, and whether the instance is mid-element.
pub struct AccModel {
    pub committed: Multiset<Seq<u8>>,
    pub pending: Seq<u8>,
    pub accumulating: bool,
}

/// The multiset holding `m` copies of the byte string `x` and nothing else.
pub open spec fn copies_of(x: Seq<u8>, m: nat) -> Multiset<Seq<u8>>
    decreases m,
{
    if m == 0 {
        Multiset::empty()
    } else {
        copies_of(x, (m - 1) as nat).insert(x)
    }
}

impl AccModel {
    /// The state of a freshly constructed (or freshly reset) instance.
    pub open spec fn init() -> AccModel {
        AccModel { committed: Multiset::empty(), pending: Seq::empty(), accumulating: false }
    }

    /// The state after one chunk of an element's bytes has been fed.
    pub open spec fn after_update(self, chunk: Seq<u8>) -> AccModel {
        AccModel { committed: self.committed, pending: self.pending + chunk, accumulating: true }
    }

    /// The state after the outstanding element is committed with the given
    /// multiplicity.
    pub open spec fn after_end_update(self, multiplicity: nat) -> AccModel {
        AccModel {
            committed: self.committed.add(copies_of(self.pending, multiplicity)),
            pending: Seq::empty(),
            accumulating: false,
        }
    }

    /// The state after a whole element is fed and committed in one step.
    pub open spec fn after_add(self, x: Seq<u8>, multiplicity: nat) -> AccModel {
        AccModel {
            committed: self.committed.add(copies_of(x, multiplicity)),
            pending: self.pending,
            accumulating: self.accumulating,
        }
    }

    /// The digest this state compresses to: a function of the committed
    /// multiset alone.
    pub open spec fn digest(self) -> Seq<u8> {
        digest_of(self.committed)
    }
}

/// The state after `x` has been added `n` separate times, each with
/// multiplicity one.
pub open spec fn after_adds(m: AccModel, x: Seq<u8>, n: nat) -> AccModel
    decreases n,
{
    if n == 0 {
        m
    } else {
        after_adds(m, x, (n - 1) as nat).after_add(x, 1)
    }
}

/// `copies_of(x, m)` counts `m` for `x` and nothing for anything else.
pub proof fn lemma_copies_of_count(x: Seq<u8>, m: nat, y: Seq<u8>)
    ensures
        copies_of(x, m).count(y) == if y == x {
            m
        } else {
            0nat
        },
    decreases m,
{
    if m > 0 {
        lemma_copies_of_count(x, (m - 1) as nat, y);
    }
}

/// Multiplicity folding: adding `x` once with multiplicity `n` yields the
/// same state, and so the same digest, as adding `x` `n` times with
/// multiplicity one.
pub proof fn lemma_multiplicity_folding(m: AccModel, x: Seq<u8>, n: nat)
    ensures
        after_adds(m, x, n) == m.after_add(x, n),
        after_adds(m, x, n).digest() == m.after_add(x, n).digest(),
    decreases n,
{
    if n == 0 {
        assert(m.committed.add(copies_of(x, 0)) =~= m.committed);
    } else {
        lemma_multiplicity_folding(m, x, (n - 1) as nat);
        let prev = m.after_add(x, (n - 1) as nat);
        assert(prev.after_add(x, 1).committed =~= m.after_add(x, n).committed) by {
            assert forall|y: Seq<u8>|
                prev.after_add(x, 1).committed.count(y) == m.after_add(
                    x,
                    n,
                ).committed.count(y) by {
                lemma_copies_of_count(x, 1, y);
                lemma_copies_of_count(x, n, y);
                lemma_copies_of_count(x, (n - 1) as nat, y);
            }
        }
    }
}

/// Commutativity: adding `a` then `b` yields the same state, and so the
/// same digest, as adding `b` then `a`, with any multiplicities.
pub proof fn lemma_commutativity(m: AccModel, a: Seq<u8>, ma: nat, b: Seq<u8>, mb: nat)
    ensures
        m.after_add(a, ma).after_add(b, mb) == m.after_add(b, mb).after_add(a, ma),
        m.after_add(a, ma).after_add(b, mb).digest() == m.after_add(b, mb).after_add(a, ma).digest(),
{
    assert(m.after_add(a, ma).after_add(b, mb).committed =~= m.after_add(b, mb).after_add(
        a,
        ma,
    ).committed);
}

/// Chunked equivalence: feeding an element in two chunks and committing it
/// yields the same state, and so the same digest, as adding the
/// concatenated bytes in one step, from an idle state.
pub proof fn lemma_chunked_equivalence(m: AccModel, c1: Seq<u8>, c2: Seq<u8>, mult: nat)
    requires
        !m.accumulating,
        m.pending == Seq::<u8>::empty(),
    ensures
        m.after_update(c1).after_update(c2).after_end_update(mult) == m.after_add(c1 + c2, mult),
        m.after_update(c1).after_update(c2).after_end_update(mult).digest() == m.after_add(
            c1 + c2,
            mult,
        ).digest(),
{
    assert(m.pending + c1 + c2 =~= c1 + c2);
}

/// Zero multiplicity is identity: adding any element with multiplicity zero
/// leaves the state exactly as it was.
pub proof fn lemma_zero_multiplicity(m: AccModel, x: Seq<u8>)
    ensures
        m.after_add(x, 0) == m,
{
    assert(m.committed.add(copies_of(x, 0)) =~= m.committed);
}

/// Merge consistency: the union of two independently built committed
/// multisets does not depend on the order of the merge, so one final
/// compression of the merged sum gives one digest.
pub proof fn lemma_merge_consistency(s1: Multiset<Seq<u8>>, s2: Multiset<Seq<u8>>)
    ensures
        s1.add(s2) == s2.add(s1),
        digest_of(s1.add(s2)) == digest_of(s2.add(s1)),
{
    assert(s1.add(s2) =~= s2.add(s1));
}

} // verus!
