//! The record store for deals: a keyed store whose create-once guarantee
//! makes the (client, gig) pair unique across all records. Each record
//! carries the escrow sub-account funding it.

use vstd::prelude::*;

use crate::model::{Deal, Identity};

verus! {

/// A deal record together with the balance of the escrow sub-account that
/// funds it, in the smallest unit of the deal's settlement currency. The
/// escrow is controlled by the deal record, not by either party.
#[derive(Clone, Copy, PartialEq, Eq, Debug)]
pub struct OpenedDeal {
    pub deal: Deal,
    pub escrow: u64,
}

/// Whether two deal records would occupy the same derived storage slot: the
/// store keys a deal by the accepting client and the accepted gig.
pub open spec fn same_pair(a: Deal, b: Deal) -> bool {
    a.client == b.client && a.gig == b.gig
}

/// The deal records created so far, in creation order.
pub struct DealStore {
    pub records: Vec<OpenedDeal>,
}

impl DealStore {
    /// Create-once invariant: no two records share a (client, gig) pair.
    pub open spec fn wf(self) -> bool {
        forall|i: int, j: int|
            0 <= i < j < self.records@.len() ==> !same_pair(
                (#[trigger] self.records@[i]).deal,
                (#[trigger] self.records@[j]).deal,
            )
    }

    /// Whether a deal keyed by (client, gig) is already stored.
    pub open spec fn has_deal_for(self, client: Identity, gig: Identity) -> bool {
        exists|i: int|
            0 <= i < self.records@.len() && (#[trigger] self.records@[i]).deal.client == client
                && self.records@[i].deal.gig == gig
    }

    /// An empty store.
    pub fn new() -> (s: Self)
        ensures
            s.wf(),
            s.records@.len() == 0,
    {
        DealStore { records: Vec::new() }
    }

    /// Looks for a record keyed by (client, gig).
    pub fn contains_pair(&self, client: Identity, gig: Identity) -> (found: bool)
        ensures
            found == self.has_deal_for(client, gig),
    {
        let n: usize = self.records.len();
        let mut i: usize = 0;
        while i < n
            invariant
                n == self.records@.len(),
                i <= n,
                forall|k: int|
                    0 <= k < i ==> !((#[trigger] self.records@[k]).deal.client == client
                        && self.records@[k].deal.gig == gig),
            decreases n - i,
        {
            if self.records[i].deal.client == client && self.records[i].deal.gig == gig {
                return true;
            }
            i += 1;
        }
        false
    }
}

} // verus!
