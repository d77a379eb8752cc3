//! Request identifiers: a counter that starts at 1 and never repeats.
use vstd::prelude::*;

verus! {

/// Source of request identifiers. Each identifier is one more than the last;
/// the first is 1. Callers on several threads share one correlator behind a
/// lock, so that requests are served one after another.
#[derive(Debug)]
pub struct RequestCorrelator {
    last: u64,
}

/// The identifiers that `n` requests get, one after another, from a
/// correlator that has issued `start` so far.
pub open spec fn issued_ids(start: nat, n: nat) -> Seq<nat> {
    Seq::new(n, |k: int| (start + k + 1) as nat)
}

impl RequestCorrelator {
    /// The identifier issued most recently, 0 before the first.
    pub closed spec fn issued(&self) -> nat {
        self.last as nat
    }

    /// A correlator that has issued nothing yet.
    pub fn new() -> (c: Self)
        ensures
            c.issued() == 0,
    {
        RequestCorrelator { last: 0 }
    }

    /// The identifier issued most recently, 0 before the first.
    pub fn last_id(&self) -> (id: u64)
        ensures
            id == self.issued(),
    {
        self.last
    }

    /// Whether every identifier has been issued.
    pub fn is_exhausted(&self) -> (b: bool)
        ensures
            b == (self.issued() == u64::MAX),
    {
        self.last == u64::MAX
    }

    /// Issues the next identifier: one more than the last.
    pub fn next_id(&mut self) -> (id: u64)
        requires
            old(self).issued() < u64::MAX,
        ensures
            id == old(self).issued() + 1,
            final(self).issued() == id,
            issued_ids(old(self).issued(), 1) == seq![id as nat],
    {
        self.last = self.last + 1;
        assert(issued_ids(old(self).issued(), 1) =~= seq![self.last as nat]);
        self.last
    }
}

/// A run of requests is a run of single requests: the first gets the next
/// identifier, the others follow from there.
pub proof fn lemma_issued_ids_step(start: nat, n: nat)
    requires
        n > 0,
    ensures
        issued_ids(start, n) == seq![(start + 1) as nat] + issued_ids(start + 1, (n - 1) as nat),
{
    assert(issued_ids(start, n) =~= seq![(start + 1) as nat] + issued_ids(
        start + 1,
        (n - 1) as nat,
    ));
}

/// Uniqueness: the identifiers of any run of requests rise strictly, so no
/// two requests get the same one, and none gets 0.
pub proof fn lemma_issued_ids_distinct(start: nat, n: nat, i: int, j: int)
    requires
        0 <= i < j < n,
    ensures
        issued_ids(start, n)[i] < issued_ids(start, n)[j],
        issued_ids(start, n)[i] != issued_ids(start, n)[j],
        issued_ids(start, n)[i] > start,
{
}

} // verus!
