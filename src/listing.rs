//! The record kept for each asset: its standing sale offer, if any, and its
//! bid book.

use crate::amount::{lt, Amount};
use crate::book::{book_sorted, book_unique, book_wf, Bid};
use crate::party::{AssetContract, Party};
use vstd::prelude::*;

verus! {

/// Whether the asset is offered for sale.
#[derive(Clone, Copy, Debug)]
pub enum Sale {
    Unlisted,
    Active { seller: Party, ask_price: Amount },
}

#[derive(Clone, Debug)]
pub struct Listing {
    pub asset_id: String,
    pub asset_contract: AssetContract,
    pub sale: Sale,
    /// Sorted ascending by amount, the best offer last.
    pub bids: Vec<Bid>,
}

/// Every bid is below the ask of an active sale, which is never zero.
pub open spec fn sale_wf(sale: Sale, bids: Seq<Bid>) -> bool {
    match sale {
        Sale::Unlisted => true,
        Sale::Active { ask_price, .. } => ask_price@ > 0 && forall|i: int|
            0 <= i < bids.len() ==> bids[i].amount@ < ask_price@,
    }
}

impl Listing {
    pub open spec fn wf(&self) -> bool {
        book_wf(self.bids@) && sale_wf(self.sale, self.bids@)
    }

    pub open spec fn spec_seller(&self) -> Option<Party> {
        match self.sale {
            Sale::Unlisted => None,
            Sale::Active { seller, .. } => Some(seller),
        }
    }

    /// The empty listing of an asset: no sale offer and no bids.
    pub fn fresh(asset_contract: AssetContract, asset_id: String) -> (r: Listing)
        ensures
            r.wf(),
            r.asset_contract == asset_contract,
            r.asset_id == asset_id,
            r.sale == Sale::Unlisted,
            r.bids@.len() == 0,
    {
        Listing { asset_id, asset_contract, sale: Sale::Unlisted, bids: Vec::new() }
    }

    pub fn is_active(&self) -> (r: bool)
        ensures
            r == (self.sale is Active),
    {
        match self.sale {
            Sale::Unlisted => false,
            Sale::Active { .. } => true,
        }
    }

    pub fn seller(&self) -> (r: Option<Party>)
        ensures
            r == self.spec_seller(),
    {
        match self.sale {
            Sale::Unlisted => None,
            Sale::Active { seller, .. } => Some(seller),
        }
    }

    /// The best standing offer: the last bid of the book.
    pub fn top_bid(&self) -> (r: Option<Bid>)
        ensures
            self.bids@.len() == 0 ==> r is None,
            self.bids@.len() > 0 ==> r == Some(self.bids@.last()),
    {
        if self.bids.len() == 0 {
            None
        } else {
            Some(self.bids[self.bids.len() - 1])
        }
    }

    /// Whether the record keeps the listing's invariants; a record read from
    /// storage is handed to the operations only where it does.
    pub fn is_well_formed(&self) -> (r: bool)
        ensures
            r == self.wf(),
    {
        let n = self.bids.len();
        let mut i: usize = 1;
        while i < n
            invariant
                n == self.bids@.len(),
                1 <= i,
                n > 0 ==> i <= n,
                forall|a: int, b: int|
                    0 <= a < b < i && b < n ==> self.bids@[a].amount@ <= self.bids@[b].amount@,
            decreases n - i,
        {
            if lt(self.bids[i].amount, self.bids[i - 1].amount) {
                assert(!book_sorted(self.bids@)) by {
                    assert(self.bids@[i - 1].amount@ > self.bids@[i as int].amount@);
                }
                return false;
            }
            assert forall|a: int, b: int|
                0 <= a < b < i + 1 && b < n implies self.bids@[a].amount@
                <= self.bids@[b].amount@ by {
                if b == i && a < i - 1 {
                    assert(self.bids@[a].amount@ <= self.bids@[i - 1].amount@);
                }
            }
            i = i + 1;
        }
        assert(book_sorted(self.bids@));
        let mut i: usize = 0;
        while i < n
            invariant
                n == self.bids@.len(),
                0 <= i <= n,
                forall|a: int, b: int|
                    0 <= a < i && 0 <= b < n && a != b ==> self.bids@[a].bidder
                        != self.bids@[b].bidder,
            decreases n - i,
        {
            let mut j: usize = 0;
            while j < n
                invariant
                    n == self.bids@.len(),
                    0 <= i < n,
                    0 <= j <= n,
                    forall|a: int, b: int|
                        0 <= a < i && 0 <= b < n && a != b ==> self.bids@[a].bidder
                            != self.bids@[b].bidder,
                    forall|b: int| 0 <= b < j && b != i ==> self.bids@[i as int].bidder
                        != self.bids@[b].bidder,
                decreases n - j,
            {
                if j != i && self.bids[i].bidder == self.bids[j].bidder {
                    assert(!book_unique(self.bids@)) by {
                        assert(self.bids@[i as int].bidder == self.bids@[j as int].bidder);
                    }
                    return false;
                }
                j = j + 1;
            }
            i = i + 1;
        }
        assert(book_unique(self.bids@));
        match self.sale {
            Sale::Unlisted => true,
            Sale::Active { ask_price, .. } => {
                if ask_price.is_zero() {
                    return false;
                }
                if n > 0 && !lt(self.bids[n - 1].amount, ask_price) {
                    assert(!sale_wf(self.sale, self.bids@)) by {
                        assert(self.bids@[n - 1].amount@ >= ask_price@);
                    }
                    return false;
                }
                assert forall|k: int| 0 <= k < n implies self.bids@[k].amount@ < ask_price@ by {
                    assert(self.bids@[k].amount@ <= self.bids@[n - 1].amount@);
                }
                true
            },
        }
    }
}

} // verus!
