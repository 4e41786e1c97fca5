//! The trading operations. Each takes the listing of one asset, validates the
//! request, updates the listing and reports the payments, custody move and
//! event that the ledger is to carry out. A refused request changes nothing.

use crate::amount::{
    amount_limit, amount_of, checked_add, difference, lemma_amount_canonical, lt, Amount,
};
use crate::book::{
    bid_index, book_total, book_wf, find_bidder, has_bidder, insert_bid, insert_sorted,
    lemma_book_total_insert, lemma_book_total_remove, lemma_insert_below, lemma_insert_wf,
    lemma_remove_below, lemma_remove_wf, Bid, insertion_point,
};
use crate::config::Config;
use crate::error::MarketError;
use crate::events::MarketPlaceEvent;
use crate::listing::{Listing, Sale};
use crate::party::{AssetContract, Party};
use crate::settlement::{
    collects, fee_of, flow, lemma_net_flow_push, net_flow, pays, push_settlement, settles,
    split_proceeds, Custodian, CustodyMove, Outcome, Payment,
};
use vstd::prelude::*;

verus! {

/// The smallest bid accepted: 100 units of the currency, in its base unit.
pub const MIN_BID: u64 = 100_000_000_000;

/// Why a request naming `contract` and `id` does not reach the listing `l`.
pub open spec fn asset_error(l: Listing, c: Config, contract: AssetContract, id: Seq<char>) -> Option<
    MarketError,
> {
    if contract != c.supported_contract {
        Some(MarketError::UnsupportedAsset)
    } else if l.asset_contract != contract || l.asset_id@ != id {
        Some(MarketError::AssetMismatch)
    } else {
        None
    }
}

/// Whether a trade at `price` can be split under the configured fee rate.
pub open spec fn splittable(c: Config, price: nat) -> bool {
    price * c.fee_rate < amount_limit()
}

/// Escrow changes by exactly what the book gains or loses.
pub open spec fn escrow_balanced(old: Listing, new: Listing, o: Outcome) -> bool {
    net_flow(o.payments@) == book_total(new.bids@) - book_total(old.bids@)
}

/// The listing after a trade: no longer for sale, asset and book as given.
pub open spec fn closed(old: Listing, new: Listing, bids: Seq<Bid>) -> bool {
    &&& new.sale == Sale::Unlisted
    &&& new.asset_id == old.asset_id
    &&& new.asset_contract == old.asset_contract
    &&& new.bids@ == bids
}

/// The asset leaves `from` for `to`.
pub open spec fn moves(o: Outcome, from: Custodian, to: Custodian) -> bool {
    o.custody == Some(CustodyMove { from, to })
}

/// The record of a trade of `l`'s asset.
pub open spec fn done_sell(l: Listing, seller: Party, buyer: Party, value: Amount) -> MarketPlaceEvent {
    MarketPlaceEvent::DoneSell {
        nft_contract: l.asset_contract,
        token_id: l.asset_id,
        offeror: seller,
        buyer,
        value,
    }
}

fn check_asset(listing: &Listing, config: &Config, contract: AssetContract, id: &String) -> (r:
    Result<(), MarketError>)
    ensures
        r is Err <==> asset_error(*listing, *config, contract, id@) is Some,
        r matches Err(e) ==> asset_error(*listing, *config, contract, id@) == Some(e),
{
    if contract != config.supported_contract {
        return Err(MarketError::UnsupportedAsset);
    }
    if listing.asset_contract != contract || listing.asset_id != *id {
        return Err(MarketError::AssetMismatch);
    }
    Ok(())
}

/// Ends the sale of `listing` with a trade at `price` to `buyer`, the asset
/// leaving `from`: appends the seller's and the fee receiver's payouts.
fn close_sale(
    listing: &mut Listing,
    config: &Config,
    seller: Party,
    buyer: Party,
    price: Amount,
    split: (Amount, Amount),
    from: Custodian,
    payments: Vec<Payment>,
) -> (r: Outcome)
    requires
        split.1@ == fee_of(price@, config.fee_rate as nat),
        split.0@ == price@ - split.1@,
    ensures
        closed(*old(listing), *final(listing), old(listing).bids@),
        r.payments@.len() == payments@.len() + 2,
        r.payments@.take(payments@.len() as int) == payments@,
        settles(r.payments@.skip(payments@.len() as int), seller, config.fee_receiver, price@, config.fee_rate as nat),
        net_flow(r.payments@) == net_flow(payments@) - price@,
        moves(r, from, Custodian::Account(buyer)),
        r.event == done_sell(*old(listing), seller, buyer, price),
{
    listing.sale = Sale::Unlisted;
    let mut payments = payments;
    let ghost before = payments@;
    push_settlement(&mut payments, seller, config.fee_receiver, split);
    proof {
        let p0 = Payment::Payout { to: seller, amount: split.0 };
        let p1 = Payment::Payout { to: config.fee_receiver, amount: split.1 };
        lemma_net_flow_push(before, p0);
        lemma_net_flow_push(before.push(p0), p1);
        assert(payments@.take(before.len() as int) =~= before);
        assert(payments@.skip(before.len() as int) =~= seq![p0, p1]);
    }
    let event = MarketPlaceEvent::DoneSell {
        nft_contract: listing.asset_contract,
        token_id: listing.asset_id.clone(),
        offeror: seller,
        buyer,
        value: price,
    };
    Outcome {
        payments,
        custody: Some(CustodyMove { from, to: Custodian::Account(buyer) }),
        event,
    }
}


/// Why `increase_bid` refuses a request.
pub open spec fn increase_bid_error(
    l: Listing,
    c: Config,
    contract: AssetContract,
    id: Seq<char>,
    bidder: Party,
    added: nat,
) -> Option<MarketError> {
    if asset_error(l, c, contract, id) is Some {
        asset_error(l, c, contract, id)
    } else if !has_bidder(l.bids@, bidder) {
        Some(MarketError::BidNotFound)
    } else {
        let raised = l.bids@[bid_index(l.bids@, bidder)].amount@ + added;
        if raised >= amount_limit() {
            Some(MarketError::Overflow)
        } else {
            match l.sale {
                Sale::Active { ask_price, .. } => if raised >= ask_price@ && !splittable(
                    c,
                    ask_price@,
                ) {
                    Some(MarketError::Overflow)
                } else {
                    None
                },
                Sale::Unlisted => None,
            }
        }
    }
}

/// What a successful `increase_bid` does. Where the raised bid reaches the ask
/// of an active sale, the bidder pays only the shortfall and buys at the ask;
/// else the bid is moved to its new place in the book.
pub open spec fn increase_bid_done(
    old: Listing,
    new: Listing,
    c: Config,
    bidder: Party,
    added: Amount,
    o: Outcome,
) -> bool {
    let i = bid_index(old.bids@, bidder);
    let held = old.bids@[i].amount@;
    let raised = held + added@;
    match old.sale {
        Sale::Active { seller, ask_price } if raised >= ask_price@ => {
            &&& closed(old, new, old.bids@.remove(i))
            &&& o.payments@.len() == 3
            &&& collects(o.payments@[0], (ask_price@ - held) as nat)
            &&& settles(o.payments@.skip(1), seller, c.fee_receiver, ask_price@, c.fee_rate as nat)
            &&& moves(o, Custodian::Market, Custodian::Account(bidder))
            &&& o.event == done_sell(old, seller, bidder, ask_price)
        },
        _ => {
            &&& new.sale == old.sale
            &&& new.asset_id == old.asset_id
            &&& new.asset_contract == old.asset_contract
            &&& new.bids@ == insert_bid(
                old.bids@.remove(i),
                Bid { bidder, amount: amount_of(raised) },
            )
            &&& o.payments@ == seq![Payment::Collect { amount: added }]
            &&& o.custody is None
            &&& o.event == (MarketPlaceEvent::Bid {
                nft_contract: old.asset_contract,
                token_id: old.asset_id,
                offeror: old.spec_seller(),
                bidder,
                value: amount_of(raised),
            })
        },
    }
}

/// `bidder` adds `added` to its standing bid.
pub fn increase_bid(
    listing: &mut Listing,
    config: &Config,
    asset_contract: AssetContract,
    asset_id: &String,
    bidder: Party,
    added: Amount,
) -> (r: Result<Outcome, MarketError>)
    requires
        old(listing).wf(),
        config.wf(),
    ensures
        final(listing).wf(),
        r is Err <==> increase_bid_error(
            *old(listing),
            *config,
            asset_contract,
            asset_id@,
            bidder,
            added@,
        ) is Some,
        r matches Err(e) ==> increase_bid_error(
            *old(listing),
            *config,
            asset_contract,
            asset_id@,
            bidder,
            added@,
        ) == Some(e) && *final(listing) == *old(listing),
        r matches Ok(o) ==> increase_bid_done(*old(listing), *final(listing), *config, bidder, added, o)
            && escrow_balanced(*old(listing), *final(listing), o),
{
    match check_asset(listing, config, asset_contract, asset_id) {
        Err(e) => return Err(e),
        Ok(()) => {},
    }
    let idx = match find_bidder(&listing.bids, &bidder) {
        None => return Err(MarketError::BidNotFound),
        Some(i) => i,
    };
    let ghost old_bids = listing.bids@;
    let held = listing.bids[idx].amount;
    let raised = match checked_add(held, added) {
        None => return Err(MarketError::Overflow),
        Some(v) => v,
    };
    proof {
        lemma_amount_canonical(raised);
        lemma_remove_wf(old_bids, idx as int);
        lemma_book_total_remove(old_bids, idx as int);
    }
    if let Sale::Active { seller, ask_price } = listing.sale {
        if !lt(raised, ask_price) {
            let split = match split_proceeds(ask_price, config.fee_rate) {
                None => return Err(MarketError::Overflow),
                Some(s) => s,
            };
            let shortfall = difference(ask_price, held);
            let mut payments: Vec<Payment> = Vec::new();
            payments.push(Payment::Collect { amount: shortfall });
            proof {
                lemma_net_flow_push(Seq::empty(), Payment::Collect { amount: shortfall });
                assert(Seq::<Payment>::empty().push(Payment::Collect { amount: shortfall })
                    =~= payments@);
            }
            listing.bids.remove(idx);
            let o = close_sale(
                listing,
                config,
                seller,
                bidder,
                ask_price,
                split,
                Custodian::Market,
                payments,
            );
            return Ok(o);
        }
    }
    listing.bids.remove(idx);
    let ghost removed = listing.bids@;
    let entry = Bid { bidder, amount: raised };
    insert_sorted(&mut listing.bids, entry);
    proof {
        lemma_insert_wf(removed, entry);
        lemma_book_total_insert(removed, insertion_point(removed, raised@), entry);
        if let Sale::Active { ask_price, .. } = listing.sale {
            lemma_remove_below(old_bids, idx as int, ask_price@);
            lemma_insert_below(removed, entry, ask_price@);
        }
    }
    let mut payments: Vec<Payment> = Vec::new();
    payments.push(Payment::Collect { amount: added });
    proof {
        lemma_net_flow_push(Seq::empty(), Payment::Collect { amount: added });
        assert(Seq::<Payment>::empty().push(Payment::Collect { amount: added }) =~= payments@);
        assert(payments@ =~= seq![Payment::Collect { amount: added }]);
    }
    let event = MarketPlaceEvent::Bid {
        nft_contract: listing.asset_contract,
        token_id: listing.asset_id.clone(),
        offeror: listing.seller(),
        bidder,
        value: raised,
    };
    Ok(Outcome { payments, custody: None, event })
}


/// A list of one payment.
fn one_payment(p: Payment) -> (r: Vec<Payment>)
    ensures
        r@ == seq![p],
        net_flow(r@) == flow(p),
{
    let mut r: Vec<Payment> = Vec::new();
    r.push(p);
    proof {
        lemma_net_flow_push(Seq::empty(), p);
        assert(Seq::<Payment>::empty().push(p) =~= r@);
    }
    r
}

/// Why `bid` refuses a request.
pub open spec fn bid_error(
    l: Listing,
    c: Config,
    contract: AssetContract,
    id: Seq<char>,
    bidder: Party,
    amount: nat,
) -> Option<MarketError> {
    if amount < MIN_BID {
        Some(MarketError::BelowMinimumBid)
    } else if asset_error(l, c, contract, id) is Some {
        asset_error(l, c, contract, id)
    } else if has_bidder(l.bids@, bidder) {
        Some(MarketError::AlreadyBidding)
    } else {
        match l.sale {
            Sale::Active { ask_price, .. } => if amount >= ask_price@ && !splittable(
                c,
                ask_price@,
            ) {
                Some(MarketError::Overflow)
            } else {
                None
            },
            Sale::Unlisted => None,
        }
    }
}

/// What a successful `bid` does. A bid that reaches the ask of an active sale
/// buys at the ask, and only the ask is collected; else the whole amount is
/// collected and the bid takes its place in the book.
pub open spec fn bid_done(old: Listing, new: Listing, c: Config, bidder: Party, amount: Amount, o: Outcome) -> bool {
    match old.sale {
        Sale::Active { seller, ask_price } if amount@ >= ask_price@ => {
            &&& closed(old, new, old.bids@)
            &&& o.payments@.len() == 3
            &&& collects(o.payments@[0], ask_price@)
            &&& settles(o.payments@.skip(1), seller, c.fee_receiver, ask_price@, c.fee_rate as nat)
            &&& moves(o, Custodian::Market, Custodian::Account(bidder))
            &&& o.event == done_sell(old, seller, bidder, ask_price)
        },
        _ => {
            &&& new.sale == old.sale
            &&& new.asset_id == old.asset_id
            &&& new.asset_contract == old.asset_contract
            &&& new.bids@ == insert_bid(old.bids@, Bid { bidder, amount })
            &&& o.payments@ == seq![Payment::Collect { amount }]
            &&& o.custody is None
            &&& o.event == (MarketPlaceEvent::Bid {
                nft_contract: old.asset_contract,
                token_id: old.asset_id,
                offeror: old.spec_seller(),
                bidder,
                value: amount,
            })
        },
    }
}

/// `bidder` offers `amount` for the asset.
pub fn bid(
    listing: &mut Listing,
    config: &Config,
    asset_contract: AssetContract,
    asset_id: &String,
    bidder: Party,
    amount: Amount,
) -> (r: Result<Outcome, MarketError>)
    requires
        old(listing).wf(),
        config.wf(),
    ensures
        final(listing).wf(),
        r is Err <==> bid_error(*old(listing), *config, asset_contract, asset_id@, bidder, amount@) is Some,
        r matches Err(e) ==> bid_error(*old(listing), *config, asset_contract, asset_id@, bidder, amount@)
            == Some(e) && *final(listing) == *old(listing),
        r matches Ok(o) ==> bid_done(*old(listing), *final(listing), *config, bidder, amount, o)
            && escrow_balanced(*old(listing), *final(listing), o),
{
    if lt(amount, Amount::from_u64(MIN_BID)) {
        return Err(MarketError::BelowMinimumBid);
    }
    match check_asset(listing, config, asset_contract, asset_id) {
        Err(e) => return Err(e),
        Ok(()) => {},
    }
    match find_bidder(&listing.bids, &bidder) {
        Some(_) => return Err(MarketError::AlreadyBidding),
        None => {},
    }
    if let Sale::Active { seller, ask_price } = listing.sale {
        if !lt(amount, ask_price) {
            let split = match split_proceeds(ask_price, config.fee_rate) {
                None => return Err(MarketError::Overflow),
                Some(s) => s,
            };
            let payments = one_payment(Payment::Collect { amount: ask_price });
            let o = close_sale(
                listing,
                config,
                seller,
                bidder,
                ask_price,
                split,
                Custodian::Market,
                payments,
            );
            return Ok(o);
        }
    }
    let ghost old_bids = listing.bids@;
    let entry = Bid { bidder, amount };
    insert_sorted(&mut listing.bids, entry);
    proof {
        lemma_insert_wf(old_bids, entry);
        lemma_book_total_insert(old_bids, insertion_point(old_bids, amount@), entry);
        if let Sale::Active { ask_price, .. } = listing.sale {
            lemma_insert_below(old_bids, entry, ask_price@);
        }
    }
    let payments = one_payment(Payment::Collect { amount });
    let event = MarketPlaceEvent::Bid {
        nft_contract: listing.asset_contract,
        token_id: listing.asset_id.clone(),
        offeror: listing.seller(),
        bidder,
        value: amount,
    };
    Ok(Outcome { payments, custody: None, event })
}

/// Why `buy` refuses a request.
pub open spec fn buy_error(
    l: Listing,
    c: Config,
    contract: AssetContract,
    id: Seq<char>,
    paid: nat,
) -> Option<MarketError> {
    if asset_error(l, c, contract, id) is Some {
        asset_error(l, c, contract, id)
    } else {
        match l.sale {
            Sale::Unlisted => Some(MarketError::NotActive),
            Sale::Active { ask_price, .. } => if paid < ask_price@ {
                Some(MarketError::NotEnoughFunds)
            } else if !splittable(c, ask_price@) {
                Some(MarketError::Overflow)
            } else {
                None
            },
        }
    }
}

/// What a successful `buy` does: the ask is collected, a standing bid of the
/// buyer is refunded and taken off the book, and the asset is sold at the ask.
pub open spec fn buy_done(old: Listing, new: Listing, c: Config, buyer: Party, o: Outcome) -> bool {
    match old.sale {
        Sale::Active { seller, ask_price } => {
            &&& if has_bidder(old.bids@, buyer) {
                let i = bid_index(old.bids@, buyer);
                &&& closed(old, new, old.bids@.remove(i))
                &&& o.payments@.len() == 4
                &&& pays(o.payments@[1], buyer, old.bids@[i].amount@)
                &&& settles(o.payments@.skip(2), seller, c.fee_receiver, ask_price@, c.fee_rate as nat)
            } else {
                &&& closed(old, new, old.bids@)
                &&& o.payments@.len() == 3
                &&& settles(o.payments@.skip(1), seller, c.fee_receiver, ask_price@, c.fee_rate as nat)
            }
            &&& collects(o.payments@[0], ask_price@)
            &&& moves(o, Custodian::Market, Custodian::Account(buyer))
            &&& o.event == done_sell(old, seller, buyer, ask_price)
        },
        Sale::Unlisted => false,
    }
}

/// `buyer`, who pays `paid`, buys the asset at its ask.
pub fn buy(
    listing: &mut Listing,
    config: &Config,
    asset_contract: AssetContract,
    asset_id: &String,
    buyer: Party,
    paid: Amount,
) -> (r: Result<Outcome, MarketError>)
    requires
        old(listing).wf(),
        config.wf(),
    ensures
        final(listing).wf(),
        r is Err <==> buy_error(*old(listing), *config, asset_contract, asset_id@, paid@) is Some,
        r matches Err(e) ==> buy_error(*old(listing), *config, asset_contract, asset_id@, paid@)
            == Some(e) && *final(listing) == *old(listing),
        r matches Ok(o) ==> buy_done(*old(listing), *final(listing), *config, buyer, o)
            && escrow_balanced(*old(listing), *final(listing), o),
{
    match check_asset(listing, config, asset_contract, asset_id) {
        Err(e) => return Err(e),
        Ok(()) => {},
    }
    let (seller, ask_price) = match listing.sale {
        Sale::Unlisted => return Err(MarketError::NotActive),
        Sale::Active { seller, ask_price } => (seller, ask_price),
    };
    if lt(paid, ask_price) {
        return Err(MarketError::NotEnoughFunds);
    }
    let split = match split_proceeds(ask_price, config.fee_rate) {
        None => return Err(MarketError::Overflow),
        Some(s) => s,
    };
    let ghost old_bids = listing.bids@;
    let mut payments = one_payment(Payment::Collect { amount: ask_price });
    match find_bidder(&listing.bids, &buyer) {
        Some(i) => {
            let refund = Payment::Payout { to: buyer, amount: listing.bids[i].amount };
            proof {
                lemma_net_flow_push(payments@, refund);
                lemma_remove_wf(old_bids, i as int);
                lemma_book_total_remove(old_bids, i as int);
            }
            payments.push(refund);
            listing.bids.remove(i);
        },
        None => {},
    }
    let o = close_sale(listing, config, seller, buyer, ask_price, split, Custodian::Market, payments);
    proof {
        if has_bidder(old_bids, buyer) {
            assert(o.payments@[1] == o.payments@.take(2)[1]);
        }
        assert(o.payments@[0] == o.payments@.take(1)[0]);
    }
    Ok(o)
}

/// Why `revoke_bid` refuses a request.
pub open spec fn revoke_bid_error(
    l: Listing,
    c: Config,
    contract: AssetContract,
    id: Seq<char>,
    caller: Party,
) -> Option<MarketError> {
    if asset_error(l, c, contract, id) is Some {
        asset_error(l, c, contract, id)
    } else if !has_bidder(l.bids@, caller) {
        Some(MarketError::BidNotFound)
    } else {
        None
    }
}

/// What a successful `revoke_bid` does: the caller's bid leaves the book and
/// its whole amount is paid back.
pub open spec fn revoke_bid_done(old: Listing, new: Listing, caller: Party, o: Outcome) -> bool {
    let i = bid_index(old.bids@, caller);
    &&& new.sale == old.sale
    &&& new.asset_id == old.asset_id
    &&& new.asset_contract == old.asset_contract
    &&& new.bids@ == old.bids@.remove(i)
    &&& o.payments@ == seq![Payment::Payout { to: caller, amount: old.bids@[i].amount }]
    &&& o.custody is None
    &&& o.event == (MarketPlaceEvent::RevokeBid {
        nft_contract: old.asset_contract,
        token_id: old.asset_id,
        offeror: old.spec_seller(),
        bidder: caller,
        value: old.bids@[i].amount,
        is_revoke: true,
    })
}

/// `caller` withdraws its bid.
pub fn revoke_bid(
    listing: &mut Listing,
    config: &Config,
    asset_contract: AssetContract,
    asset_id: &String,
    caller: Party,
) -> (r: Result<Outcome, MarketError>)
    requires
        old(listing).wf(),
        config.wf(),
    ensures
        final(listing).wf(),
        r is Err <==> revoke_bid_error(*old(listing), *config, asset_contract, asset_id@, caller) is Some,
        r matches Err(e) ==> revoke_bid_error(*old(listing), *config, asset_contract, asset_id@, caller)
            == Some(e) && *final(listing) == *old(listing),
        r matches Ok(o) ==> revoke_bid_done(*old(listing), *final(listing), caller, o)
            && escrow_balanced(*old(listing), *final(listing), o),
{
    match check_asset(listing, config, asset_contract, asset_id) {
        Err(e) => return Err(e),
        Ok(()) => {},
    }
    let i = match find_bidder(&listing.bids, &caller) {
        None => return Err(MarketError::BidNotFound),
        Some(i) => i,
    };
    let ghost old_bids = listing.bids@;
    let value = listing.bids[i].amount;
    proof {
        lemma_remove_wf(old_bids, i as int);
        lemma_book_total_remove(old_bids, i as int);
        if let Sale::Active { ask_price, .. } = listing.sale {
            lemma_remove_below(old_bids, i as int, ask_price@);
        }
    }
    listing.bids.remove(i);
    let payments = one_payment(Payment::Payout { to: caller, amount: value });
    let event = MarketPlaceEvent::RevokeBid {
        nft_contract: listing.asset_contract,
        token_id: listing.asset_id.clone(),
        offeror: listing.seller(),
        bidder: caller,
        value,
        is_revoke: true,
    };
    Ok(Outcome { payments, custody: None, event })
}


/// Whether an ask of `price` meets the best bid of `l`'s book.
pub open spec fn meets_top(l: Listing, price: nat) -> bool {
    l.bids@.len() > 0 && price <= l.bids@.last().amount@
}

/// What a trade against the best bid at `price` does: the bid leaves the book,
/// its excess over `price` goes back to the bidder, the seller and the fee
/// receiver are paid, and the asset goes from `from` to the bidder.
pub open spec fn sold_to_top(
    old: Listing,
    new: Listing,
    c: Config,
    seller: Party,
    price: Amount,
    from: Custodian,
    o: Outcome,
) -> bool {
    let top = old.bids@.last();
    &&& closed(old, new, old.bids@.drop_last())
    &&& if top.amount@ > price@ {
        &&& o.payments@.len() == 3
        &&& pays(o.payments@[0], top.bidder, (top.amount@ - price@) as nat)
        &&& settles(o.payments@.skip(1), seller, c.fee_receiver, price@, c.fee_rate as nat)
    } else {
        settles(o.payments@, seller, c.fee_receiver, price@, c.fee_rate as nat)
    }
    &&& moves(o, from, Custodian::Account(top.bidder))
    &&& o.event == done_sell(old, seller, top.bidder, price)
}

/// Sells to the best bid at `price`, which it meets.
fn sell_to_top(
    listing: &mut Listing,
    config: &Config,
    seller: Party,
    price: Amount,
    split: (Amount, Amount),
    from: Custodian,
) -> (r: Outcome)
    requires
        book_wf(old(listing).bids@),
        meets_top(*old(listing), price@),
        split.1@ == fee_of(price@, config.fee_rate as nat),
        split.0@ == price@ - split.1@,
    ensures
        book_wf(final(listing).bids@),
        sold_to_top(*old(listing), *final(listing), *config, seller, price, from, r),
        escrow_balanced(*old(listing), *final(listing), r),
{
    let ghost old_bids = listing.bids@;
    let top = listing.bids[listing.bids.len() - 1];
    listing.bids.pop();
    proof {
        let n = old_bids.len() - 1;
        assert(old_bids.drop_last() =~= old_bids.remove(n));
        lemma_remove_wf(old_bids, n);
        lemma_book_total_remove(old_bids, n);
    }
    let mut payments: Vec<Payment> = Vec::new();
    if lt(price, top.amount) {
        let refund = difference(top.amount, price);
        payments = one_payment(Payment::Payout { to: top.bidder, amount: refund });
    }
    let o = close_sale(listing, config, seller, top.bidder, price, split, from, payments);
    proof {
        if top.amount@ > price@ {
            assert(o.payments@[0] == o.payments@.take(1)[0]);
        } else {
            assert(o.payments@.skip(0) =~= o.payments@);
            reveal_with_fuel(net_flow, 1);
        }
    }
    o
}

/// Why `sell` refuses a request.
pub open spec fn sell_error(
    l: Listing,
    c: Config,
    contract: AssetContract,
    id: Seq<char>,
    ask: nat,
) -> Option<MarketError> {
    if asset_error(l, c, contract, id) is Some {
        asset_error(l, c, contract, id)
    } else if ask == 0 {
        Some(MarketError::AskTooLow)
    } else if meets_top(l, ask) && !splittable(c, ask) {
        Some(MarketError::Overflow)
    } else {
        None
    }
}

/// What a successful `sell` does. An ask that the best bid meets sells the
/// asset to that bidder at once, straight from the seller; else the listing
/// becomes active and the asset goes into the market's custody.
pub open spec fn sell_done(old: Listing, new: Listing, c: Config, seller: Party, ask: Amount, o: Outcome) -> bool {
    if meets_top(old, ask@) {
        sold_to_top(old, new, c, seller, ask, Custodian::Account(seller), o)
    } else {
        &&& new.sale == (Sale::Active { seller, ask_price: ask })
        &&& new.asset_id == old.asset_id
        &&& new.asset_contract == old.asset_contract
        &&& new.bids@ == old.bids@
        &&& o.payments@.len() == 0
        &&& moves(o, Custodian::Account(seller), Custodian::Market)
        &&& o.event == (MarketPlaceEvent::Sell {
            nft_contract: old.asset_contract,
            token_id: old.asset_id,
            offeror: seller,
            minimum_offer: ask,
            is_active: true,
        })
    }
}

/// `caller` offers the asset for sale at `ask`.
pub fn sell(
    listing: &mut Listing,
    config: &Config,
    asset_contract: AssetContract,
    asset_id: &String,
    caller: Party,
    ask: Amount,
) -> (r: Result<Outcome, MarketError>)
    requires
        old(listing).wf(),
        config.wf(),
    ensures
        final(listing).wf(),
        r is Err <==> sell_error(*old(listing), *config, asset_contract, asset_id@, ask@) is Some,
        r matches Err(e) ==> sell_error(*old(listing), *config, asset_contract, asset_id@, ask@)
            == Some(e) && *final(listing) == *old(listing),
        r matches Ok(o) ==> sell_done(*old(listing), *final(listing), *config, caller, ask, o)
            && escrow_balanced(*old(listing), *final(listing), o),
{
    match check_asset(listing, config, asset_contract, asset_id) {
        Err(e) => return Err(e),
        Ok(()) => {},
    }
    if ask.is_zero() {
        return Err(MarketError::AskTooLow);
    }
    let n = listing.bids.len();
    if n > 0 && !lt(listing.bids[n - 1].amount, ask) {
        let split = match split_proceeds(ask, config.fee_rate) {
            None => return Err(MarketError::Overflow),
            Some(s) => s,
        };
        let o = sell_to_top(listing, config, caller, ask, split, Custodian::Account(caller));
        return Ok(o);
    }
    listing.sale = Sale::Active { seller: caller, ask_price: ask };
    proof {
        assert forall|i: int| 0 <= i < listing.bids@.len() implies listing.bids@[i].amount@
            < ask@ by {
            assert(listing.bids@[i].amount@ <= listing.bids@[n - 1].amount@);
        }
        reveal_with_fuel(net_flow, 1);
    }
    let event = MarketPlaceEvent::Sell {
        nft_contract: listing.asset_contract,
        token_id: listing.asset_id.clone(),
        offeror: caller,
        minimum_offer: ask,
        is_active: true,
    };
    Ok(Outcome {
        payments: Vec::new(),
        custody: Some(CustodyMove { from: Custodian::Account(caller), to: Custodian::Market }),
        event,
    })
}

/// Why `change_price` refuses a request.
pub open spec fn change_price_error(l: Listing, c: Config, caller: Party, id: Seq<char>, new_price: nat) -> Option<
    MarketError,
> {
    if l.asset_id@ != id {
        Some(MarketError::AssetMismatch)
    } else {
        match l.sale {
            Sale::Unlisted => Some(MarketError::NotActive),
            Sale::Active { seller, .. } => if caller != seller {
                Some(MarketError::NotSeller)
            } else if new_price == 0 {
                Some(MarketError::AskTooLow)
            } else if meets_top(l, new_price) && !splittable(c, new_price) {
                Some(MarketError::Overflow)
            } else {
                None
            },
        }
    }
}

/// What a successful `change_price` does. A price that the best bid meets
/// sells the asset to that bidder at the new price; else the ask changes.
pub open spec fn change_price_done(old: Listing, new: Listing, c: Config, new_price: Amount, o: Outcome) -> bool {
    match old.sale {
        Sale::Active { seller, .. } => if meets_top(old, new_price@) {
            sold_to_top(old, new, c, seller, new_price, Custodian::Market, o)
        } else {
            &&& new.sale == (Sale::Active { seller, ask_price: new_price })
            &&& new.asset_id == old.asset_id
            &&& new.asset_contract == old.asset_contract
            &&& new.bids@ == old.bids@
            &&& o.payments@.len() == 0
            &&& o.custody is None
            &&& o.event == (MarketPlaceEvent::Sell {
                nft_contract: old.asset_contract,
                token_id: old.asset_id,
                offeror: seller,
                minimum_offer: new_price,
                is_active: true,
            })
        },
        Sale::Unlisted => false,
    }
}

/// The seller sets a new ask.
pub fn change_price(
    listing: &mut Listing,
    config: &Config,
    caller: Party,
    asset_id: &String,
    new_price: Amount,
) -> (r: Result<Outcome, MarketError>)
    requires
        old(listing).wf(),
        config.wf(),
    ensures
        final(listing).wf(),
        r is Err <==> change_price_error(*old(listing), *config, caller, asset_id@, new_price@) is Some,
        r matches Err(e) ==> change_price_error(*old(listing), *config, caller, asset_id@, new_price@)
            == Some(e) && *final(listing) == *old(listing),
        r matches Ok(o) ==> change_price_done(*old(listing), *final(listing), *config, new_price, o)
            && escrow_balanced(*old(listing), *final(listing), o),
{
    if listing.asset_id != *asset_id {
        return Err(MarketError::AssetMismatch);
    }
    let seller = match listing.sale {
        Sale::Unlisted => return Err(MarketError::NotActive),
        Sale::Active { seller, .. } => seller,
    };
    if caller != seller {
        return Err(MarketError::NotSeller);
    }
    if new_price.is_zero() {
        return Err(MarketError::AskTooLow);
    }
    let n = listing.bids.len();
    if n > 0 && !lt(listing.bids[n - 1].amount, new_price) {
        let split = match split_proceeds(new_price, config.fee_rate) {
            None => return Err(MarketError::Overflow),
            Some(s) => s,
        };
        let o = sell_to_top(listing, config, seller, new_price, split, Custodian::Market);
        return Ok(o);
    }
    listing.sale = Sale::Active { seller, ask_price: new_price };
    proof {
        assert forall|i: int| 0 <= i < listing.bids@.len() implies listing.bids@[i].amount@
            < new_price@ by {
            assert(listing.bids@[i].amount@ <= listing.bids@[n - 1].amount@);
        }
        reveal_with_fuel(net_flow, 1);
    }
    let event = MarketPlaceEvent::Sell {
        nft_contract: listing.asset_contract,
        token_id: listing.asset_id.clone(),
        offeror: seller,
        minimum_offer: new_price,
        is_active: true,
    };
    Ok(Outcome { payments: Vec::new(), custody: None, event })
}

/// Why `revoke_sell` refuses a request.
pub open spec fn revoke_sell_error(
    l: Listing,
    c: Config,
    contract: AssetContract,
    id: Seq<char>,
    caller: Party,
) -> Option<MarketError> {
    if asset_error(l, c, contract, id) is Some {
        asset_error(l, c, contract, id)
    } else {
        match l.sale {
            Sale::Unlisted => Some(MarketError::NotActive),
            Sale::Active { seller, .. } => if caller != seller {
                Some(MarketError::NotSeller)
            } else {
                None
            },
        }
    }
}

/// What a successful `revoke_sell` does: the sale ends, the bids stay, and the
/// asset goes back to the seller.
pub open spec fn revoke_sell_done(old: Listing, new: Listing, o: Outcome) -> bool {
    match old.sale {
        Sale::Active { seller, ask_price } => {
            &&& new.sale == Sale::Unlisted
            &&& new.asset_id == old.asset_id
            &&& new.asset_contract == old.asset_contract
            &&& new.bids@ == old.bids@
            &&& o.payments@.len() == 0
            &&& moves(o, Custodian::Market, Custodian::Account(seller))
            &&& o.event == (MarketPlaceEvent::Revoke {
                nft_contract: old.asset_contract,
                token_id: old.asset_id,
                offeror: seller,
                minimum_offer: ask_price,
                is_active: false,
            })
        },
        Sale::Unlisted => false,
    }
}

/// The seller withdraws the sale offer.
pub fn revoke_sell(
    listing: &mut Listing,
    config: &Config,
    asset_contract: AssetContract,
    asset_id: &String,
    caller: Party,
) -> (r: Result<Outcome, MarketError>)
    requires
        old(listing).wf(),
        config.wf(),
    ensures
        final(listing).wf(),
        r is Err <==> revoke_sell_error(*old(listing), *config, asset_contract, asset_id@, caller) is Some,
        r matches Err(e) ==> revoke_sell_error(*old(listing), *config, asset_contract, asset_id@, caller)
            == Some(e) && *final(listing) == *old(listing),
        r matches Ok(o) ==> revoke_sell_done(*old(listing), *final(listing), o)
            && escrow_balanced(*old(listing), *final(listing), o),
{
    match check_asset(listing, config, asset_contract, asset_id) {
        Err(e) => return Err(e),
        Ok(()) => {},
    }
    let (seller, ask_price) = match listing.sale {
        Sale::Unlisted => return Err(MarketError::NotActive),
        Sale::Active { seller, ask_price } => (seller, ask_price),
    };
    if caller != seller {
        return Err(MarketError::NotSeller);
    }
    listing.sale = Sale::Unlisted;
    proof {
        reveal_with_fuel(net_flow, 1);
    }
    let event = MarketPlaceEvent::Revoke {
        nft_contract: listing.asset_contract,
        token_id: listing.asset_id.clone(),
        offeror: seller,
        minimum_offer: ask_price,
        is_active: false,
    };
    Ok(Outcome {
        payments: Vec::new(),
        custody: Some(CustodyMove { from: Custodian::Market, to: Custodian::Account(seller) }),
        event,
    })
}

/// Why `accept_price` refuses a request.
pub open spec fn accept_price_error(
    l: Listing,
    c: Config,
    caller: Party,
    id: Seq<char>,
    bidder: Party,
    price: nat,
) -> Option<MarketError> {
    if l.asset_id@ != id {
        Some(MarketError::AssetMismatch)
    } else {
        match l.sale {
            Sale::Unlisted => Some(MarketError::NotActive),
            Sale::Active { seller, .. } => if caller != seller {
                Some(MarketError::NotSeller)
            } else if !has_bidder(l.bids@, bidder) || l.bids@[bid_index(l.bids@, bidder)].amount@
                != price {
                Some(MarketError::BidNotFound)
            } else if !splittable(c, price) {
                Some(MarketError::Overflow)
            } else {
                None
            },
        }
    }
}

/// What a successful `accept_price` does: the accepted bid leaves the book and
/// the asset is sold to its bidder at its amount.
pub open spec fn accept_price_done(old: Listing, new: Listing, c: Config, bidder: Party, price: Amount, o: Outcome) -> bool {
    match old.sale {
        Sale::Active { seller, .. } => {
            &&& closed(old, new, old.bids@.remove(bid_index(old.bids@, bidder)))
            &&& settles(o.payments@, seller, c.fee_receiver, price@, c.fee_rate as nat)
            &&& moves(o, Custodian::Market, Custodian::Account(bidder))
            &&& o.event == done_sell(old, seller, bidder, price)
        },
        Sale::Unlisted => false,
    }
}

/// The seller accepts the standing bid of `bidder` at `price`.
pub fn accept_price(
    listing: &mut Listing,
    config: &Config,
    caller: Party,
    asset_id: &String,
    bidder: Party,
    price: Amount,
) -> (r: Result<Outcome, MarketError>)
    requires
        old(listing).wf(),
        config.wf(),
    ensures
        final(listing).wf(),
        r is Err <==> accept_price_error(*old(listing), *config, caller, asset_id@, bidder, price@) is Some,
        r matches Err(e) ==> accept_price_error(*old(listing), *config, caller, asset_id@, bidder, price@)
            == Some(e) && *final(listing) == *old(listing),
        r matches Ok(o) ==> accept_price_done(*old(listing), *final(listing), *config, bidder, price, o)
            && escrow_balanced(*old(listing), *final(listing), o),
{
    if listing.asset_id != *asset_id {
        return Err(MarketError::AssetMismatch);
    }
    let seller = match listing.sale {
        Sale::Unlisted => return Err(MarketError::NotActive),
        Sale::Active { seller, .. } => seller,
    };
    if caller != seller {
        return Err(MarketError::NotSeller);
    }
    let i = match find_bidder(&listing.bids, &bidder) {
        None => return Err(MarketError::BidNotFound),
        Some(i) => i,
    };
    let held = listing.bids[i].amount;
    if lt(held, price) || lt(price, held) {
        return Err(MarketError::BidNotFound);
    }
    let split = match split_proceeds(price, config.fee_rate) {
        None => return Err(MarketError::Overflow),
        Some(s) => s,
    };
    let ghost old_bids = listing.bids@;
    proof {
        lemma_remove_wf(old_bids, i as int);
        lemma_book_total_remove(old_bids, i as int);
        reveal_with_fuel(net_flow, 1);
    }
    listing.bids.remove(i);
    let o = close_sale(listing, config, seller, bidder, price, split, Custodian::Market, Vec::new());
    proof {
        assert(o.payments@.skip(0) =~= o.payments@);
    }
    Ok(o)
}

} // verus!
