//! Properties of the operations taken together.

use crate::amount::Amount;
use crate::book::{lemma_place_then_withdraw, Bid};
use crate::config::Config;
use crate::error::MarketError;
use crate::listing::{Listing, Sale};
use crate::market::{
    bid_done, bid_error, revoke_bid_done, revoke_bid_error, revoke_sell_done, revoke_sell_error,
};
use crate::party::{AssetContract, Party};
use crate::settlement::{net_flow, Outcome, Payment};
use vstd::prelude::*;

verus! {

/// A bid that goes onto the book and is then withdrawn by its bidder comes
/// back whole: the withdrawal is accepted, pays back exactly the amount bid,
/// and leaves the book as it was before the bid, escrow included.
pub proof fn lemma_bid_then_revoke_bid(
    l: Listing,
    c: Config,
    contract: AssetContract,
    id: Seq<char>,
    bidder: Party,
    amount: Amount,
    mid: Listing,
    placed: Outcome,
    fin: Listing,
    withdrawn: Outcome,
)
    requires
        l.wf(),
        bid_error(l, c, contract, id, bidder, amount@) is None,
        !(l.sale matches Sale::Active { ask_price, .. } && amount@ >= ask_price@),
        bid_done(l, mid, c, bidder, amount, placed),
        revoke_bid_done(mid, fin, bidder, withdrawn),
    ensures
        revoke_bid_error(mid, c, contract, id, bidder) is None,
        withdrawn.payments@ == seq![Payment::Payout { to: bidder, amount }],
        fin.bids@ == l.bids@,
        fin.bids@.len() == l.bids@.len(),
        fin.sale == l.sale,
        net_flow(placed.payments@) + net_flow(withdrawn.payments@) == 0,
{
    let b = Bid { bidder, amount };
    lemma_place_then_withdraw(l.bids@, b);
    reveal_with_fuel(net_flow, 2);
}

/// A sale offer withdrawn once cannot be withdrawn again: the second request
/// is refused as not active, and a refused request changes nothing.
pub proof fn lemma_revoke_sell_twice(
    l: Listing,
    c: Config,
    contract: AssetContract,
    id: Seq<char>,
    caller: Party,
    mid: Listing,
    o: Outcome,
)
    requires
        revoke_sell_error(l, c, contract, id, caller) is None,
        revoke_sell_done(l, mid, o),
    ensures
        revoke_sell_error(mid, c, contract, id, caller) == Some(MarketError::NotActive),
{
}

} // verus!
