use marketplace::amount::Amount;
use marketplace::book::Bid;
use marketplace::config::{init, Config};
use marketplace::error::{ErrorKind, MarketError};
use marketplace::events::MarketPlaceEvent;
use marketplace::listing::{Listing, Sale};
use marketplace::market::{
    accept_price, bid, buy, change_price, increase_bid, revoke_bid, revoke_sell, sell, MIN_BID,
};
use marketplace::party::{AssetContract, Party};
use marketplace::settlement::{Custodian, CustodyMove, Outcome, Payment};

fn party(n: u8) -> Party {
    Party::new([n; 32])
}

fn nft() -> AssetContract {
    AssetContract::new([200; 32])
}

fn owner() -> Party {
    party(1)
}

fn fee_receiver() -> Party {
    party(2)
}

fn config(rate: u64) -> Config {
    init(owner(), fee_receiver(), rate, nft()).unwrap()
}

fn token() -> String {
    "token-7".to_string()
}

fn amt(v: u64) -> Amount {
    Amount::from_u64(v)
}

fn value(a: &Amount) -> u128 {
    assert_eq!(a.w2, 0);
    assert_eq!(a.w3, 0);
    (a.w0 as u128) + ((a.w1 as u128) << 64)
}

fn payout(p: &Payment) -> (Party, u128) {
    match p {
        Payment::Payout { to, amount } => (*to, value(amount)),
        Payment::Collect { .. } => panic!("expected a payout"),
    }
}

fn collected(p: &Payment) -> u128 {
    match p {
        Payment::Collect { amount } => value(amount),
        Payment::Payout { .. } => panic!("expected a collection"),
    }
}

fn net_flow(o: &Outcome) -> i128 {
    o.payments
        .iter()
        .map(|p| match p {
            Payment::Collect { amount } => value(amount) as i128,
            Payment::Payout { amount, .. } => -(value(amount) as i128),
        })
        .sum()
}

fn book_total(l: &Listing) -> i128 {
    l.bids.iter().map(|b| value(&b.amount) as i128).sum()
}

fn book(l: &Listing) -> Vec<(Party, u128)> {
    l.bids.iter().map(|b| (b.bidder, value(&b.amount))).collect()
}

fn fresh() -> Listing {
    Listing::fresh(nft(), token())
}

fn same_listing(a: &Listing, b: &Listing) -> bool {
    a.asset_id == b.asset_id
        && a.asset_contract == b.asset_contract
        && book(a) == book(b)
        && match (a.sale, b.sale) {
            (Sale::Unlisted, Sale::Unlisted) => true,
            (
                Sale::Active { seller: s1, ask_price: p1 },
                Sale::Active { seller: s2, ask_price: p2 },
            ) => s1 == s2 && p1 == p2,
            _ => false,
        }
}

fn place(l: &mut Listing, c: &Config, who: u8, v: u64) -> Outcome {
    bid(l, c, nft(), &token(), party(who), amt(v)).unwrap()
}

fn is_unlisted(l: &Listing) -> bool {
    matches!(l.sale, Sale::Unlisted)
}

fn moved(o: &Outcome) -> CustodyMove {
    o.custody.unwrap()
}

fn to_account(c: Custodian) -> Party {
    match c {
        Custodian::Account(p) => p,
        Custodian::Market => panic!("expected an account"),
    }
}

#[test]
fn book_stays_sorted_and_unique_through_operations() {
    let c = config(20);
    let mut l = fresh();
    place(&mut l, &c, 10, 300 * 1_000_000_000);
    place(&mut l, &c, 11, 150 * 1_000_000_000);
    place(&mut l, &c, 12, 200 * 1_000_000_000);
    assert!(l.is_well_formed());
    increase_bid(&mut l, &c, nft(), &token(), party(11), amt(200 * 1_000_000_000)).unwrap();
    assert!(l.is_well_formed());
    revoke_bid(&mut l, &c, nft(), &token(), party(12)).unwrap();
    assert!(l.is_well_formed());
    let amounts: Vec<u128> = book(&l).iter().map(|e| e.1).collect();
    assert_eq!(amounts, vec![300 * 1_000_000_000, 350 * 1_000_000_000]);
    assert_eq!(book(&l)[1].0, party(11));
}

#[test]
fn equal_bids_keep_the_earlier_one_on_top() {
    let c = config(20);
    let mut l = fresh();
    place(&mut l, &c, 10, MIN_BID);
    place(&mut l, &c, 11, MIN_BID);
    assert_eq!(book(&l), vec![(party(11), MIN_BID as u128), (party(10), MIN_BID as u128)]);
    assert_eq!(l.top_bid().unwrap().bidder, party(10));
}

#[test]
fn bid_below_minimum_fails_and_changes_nothing() {
    let c = config(20);
    let mut l = fresh();
    place(&mut l, &c, 10, MIN_BID);
    let before = l.clone();
    let r = bid(&mut l, &c, nft(), &token(), party(11), amt(MIN_BID - 1));
    assert_eq!(r.unwrap_err(), MarketError::BelowMinimumBid);
    assert_eq!(MarketError::BelowMinimumBid.kind(), ErrorKind::Funds);
    assert!(same_listing(&before, &l));
    let r = bid(&mut l, &c, AssetContract::new([9; 32]), &token(), party(11), amt(99));
    assert_eq!(r.unwrap_err(), MarketError::BelowMinimumBid);
}

#[test]
fn bid_then_revoke_returns_the_escrowed_amount() {
    let c = config(20);
    let mut l = fresh();
    place(&mut l, &c, 10, 400 * 1_000_000_000);
    let before = l.clone();
    let placed = place(&mut l, &c, 11, 250 * 1_000_000_000);
    assert_eq!(collected(&placed.payments[0]), 250 * 1_000_000_000);
    assert_eq!(l.bids.len(), 2);
    let back = revoke_bid(&mut l, &c, nft(), &token(), party(11)).unwrap();
    assert_eq!(back.payments.len(), 1);
    assert_eq!(payout(&back.payments[0]), (party(11), 250 * 1_000_000_000));
    assert!(same_listing(&before, &l));
    assert_eq!(net_flow(&placed) + net_flow(&back), 0);
    assert_eq!(back.event.event_type(), "revokebid");
}

#[test]
fn listing_below_top_bid_settles_at_once() {
    let c = config(20);
    let mut l = fresh();
    place(&mut l, &c, 10, 100 * 1_000_000_000);
    place(&mut l, &c, 11, 500 * 1_000_000_000);
    let before_total = book_total(&l);
    let seller = party(5);
    let o = sell(&mut l, &c, nft(), &token(), seller, amt(400 * 1_000_000_000)).unwrap();
    assert!(is_unlisted(&l));
    assert_eq!(book(&l), vec![(party(10), 100 * 1_000_000_000)]);
    assert_eq!(o.payments.len(), 3);
    assert_eq!(payout(&o.payments[0]), (party(11), 100 * 1_000_000_000));
    assert_eq!(payout(&o.payments[1]), (seller, 392 * 1_000_000_000));
    assert_eq!(payout(&o.payments[2]), (fee_receiver(), 8 * 1_000_000_000));
    let m = moved(&o);
    assert_eq!(to_account(m.from), seller);
    assert_eq!(to_account(m.to), party(11));
    assert_eq!(net_flow(&o), book_total(&l) - before_total);
    assert_eq!(o.event.event_type(), "donesell");
}

#[test]
fn listing_at_exactly_the_top_bid_settles_without_refund() {
    let c = config(20);
    let mut l = fresh();
    place(&mut l, &c, 11, 500 * 1_000_000_000);
    let o = sell(&mut l, &c, nft(), &token(), party(5), amt(500 * 1_000_000_000)).unwrap();
    assert_eq!(o.payments.len(), 2);
    assert_eq!(payout(&o.payments[0]), (party(5), 490 * 1_000_000_000));
    assert_eq!(payout(&o.payments[1]), (fee_receiver(), 10 * 1_000_000_000));
    assert!(is_unlisted(&l));
    assert!(l.bids.is_empty());
}

#[test]
fn listing_above_top_bid_takes_custody() {
    let c = config(20);
    let mut l = fresh();
    place(&mut l, &c, 11, 100 * 1_000_000_000);
    let o = sell(&mut l, &c, nft(), &token(), party(5), amt(700 * 1_000_000_000)).unwrap();
    assert!(o.payments.is_empty());
    assert_eq!(to_account(moved(&o).from), party(5));
    assert!(matches!(moved(&o).to, Custodian::Market));
    assert!(l.is_active());
    assert_eq!(l.seller(), Some(party(5)));
    assert_eq!(o.event.event_type(), "sell");
    match &o.event {
        MarketPlaceEvent::Sell { minimum_offer, is_active, .. } => {
            assert_eq!(value(minimum_offer), 700 * 1_000_000_000);
            assert!(*is_active);
        }
        _ => panic!("expected a sell event"),
    }
}

#[test]
fn increase_crossing_the_ask_pays_only_the_shortfall() {
    let c = config(20);
    let mut l = fresh();
    place(&mut l, &c, 11, 300 * 1_000_000_000);
    sell(&mut l, &c, nft(), &token(), party(5), amt(1_000 * 1_000_000_000)).unwrap();
    let before_total = book_total(&l);
    let o = increase_bid(&mut l, &c, nft(), &token(), party(11), amt(900 * 1_000_000_000)).unwrap();
    assert_eq!(o.payments.len(), 3);
    assert_eq!(collected(&o.payments[0]), 700 * 1_000_000_000);
    assert_eq!(payout(&o.payments[1]), (party(5), 980 * 1_000_000_000));
    assert_eq!(payout(&o.payments[2]), (fee_receiver(), 20 * 1_000_000_000));
    assert!(matches!(moved(&o).from, Custodian::Market));
    assert_eq!(to_account(moved(&o).to), party(11));
    assert!(is_unlisted(&l));
    assert!(l.bids.is_empty());
    assert_eq!(net_flow(&o), book_total(&l) - before_total);
}

#[test]
fn increase_below_the_ask_moves_the_bid() {
    let c = config(20);
    let mut l = fresh();
    place(&mut l, &c, 10, 200 * 1_000_000_000);
    place(&mut l, &c, 11, 150 * 1_000_000_000);
    sell(&mut l, &c, nft(), &token(), party(5), amt(1_000 * 1_000_000_000)).unwrap();
    let o = increase_bid(&mut l, &c, nft(), &token(), party(11), amt(100 * 1_000_000_000)).unwrap();
    assert_eq!(collected(&o.payments[0]), 100 * 1_000_000_000);
    assert_eq!(book(&l), vec![(party(10), 200 * 1_000_000_000), (party(11), 250 * 1_000_000_000)]);
    assert!(l.is_active());
    assert_eq!(o.event.event_type(), "bid");
}

#[test]
fn settlement_splits_fee_in_thousandths() {
    let c = config(20);
    let mut l = fresh();
    sell(&mut l, &c, nft(), &token(), party(5), amt(1000)).unwrap();
    let o = buy(&mut l, &c, nft(), &token(), party(6), amt(1000)).unwrap();
    assert_eq!(collected(&o.payments[0]), 1000);
    assert_eq!(payout(&o.payments[1]), (party(5), 980));
    assert_eq!(payout(&o.payments[2]), (fee_receiver(), 20));
    let paid_out: u128 = o.payments[1..].iter().map(|p| payout(p).1).sum();
    assert_eq!(paid_out, 1000);
    assert_eq!(to_account(moved(&o).to), party(6));
    assert!(is_unlisted(&l));
}

#[test]
fn buy_refunds_the_buyers_own_bid() {
    let c = config(20);
    let mut l = fresh();
    place(&mut l, &c, 6, 200 * 1_000_000_000);
    place(&mut l, &c, 7, 300 * 1_000_000_000);
    sell(&mut l, &c, nft(), &token(), party(5), amt(1_000 * 1_000_000_000)).unwrap();
    let o = buy(&mut l, &c, nft(), &token(), party(6), amt(1_000 * 1_000_000_000)).unwrap();
    assert_eq!(o.payments.len(), 4);
    assert_eq!(collected(&o.payments[0]), 1_000 * 1_000_000_000);
    assert_eq!(payout(&o.payments[1]), (party(6), 200 * 1_000_000_000));
    assert_eq!(book(&l), vec![(party(7), 300 * 1_000_000_000)]);
    assert_eq!(net_flow(&o), -200 * 1_000_000_000);
}

#[test]
fn buy_below_ask_is_refused() {
    let c = config(20);
    let mut l = fresh();
    sell(&mut l, &c, nft(), &token(), party(5), amt(1000)).unwrap();
    let r = buy(&mut l, &c, nft(), &token(), party(6), amt(999));
    assert_eq!(r.unwrap_err(), MarketError::NotEnoughFunds);
    assert!(l.is_active());
    let mut empty = fresh();
    let r = buy(&mut empty, &c, nft(), &token(), party(6), amt(999));
    assert_eq!(r.unwrap_err(), MarketError::NotActive);
}

#[test]
fn bid_reaching_the_ask_buys_at_the_ask() {
    let c = config(0);
    let mut l = fresh();
    sell(&mut l, &c, nft(), &token(), party(5), amt(MIN_BID)).unwrap();
    let o = bid(&mut l, &c, nft(), &token(), party(6), amt(MIN_BID * 3)).unwrap();
    assert_eq!(collected(&o.payments[0]), MIN_BID as u128);
    assert_eq!(payout(&o.payments[1]), (party(5), MIN_BID as u128));
    assert_eq!(payout(&o.payments[2]), (fee_receiver(), 0));
    assert!(is_unlisted(&l));
    assert!(l.bids.is_empty());
}

#[test]
fn accept_of_an_absent_bid_is_refused() {
    let c = config(20);
    let mut l = fresh();
    place(&mut l, &c, 11, 300 * 1_000_000_000);
    sell(&mut l, &c, nft(), &token(), party(5), amt(1_000 * 1_000_000_000)).unwrap();
    let before = l.clone();
    let r = accept_price(&mut l, &c, party(5), &token(), party(11), amt(299 * 1_000_000_000));
    assert_eq!(r.unwrap_err(), MarketError::BidNotFound);
    assert_eq!(MarketError::BidNotFound.kind(), ErrorKind::State);
    let r = accept_price(&mut l, &c, party(5), &token(), party(12), amt(300 * 1_000_000_000));
    assert_eq!(r.unwrap_err(), MarketError::BidNotFound);
    assert!(same_listing(&before, &l));
    let r = accept_price(&mut l, &c, party(6), &token(), party(11), amt(300 * 1_000_000_000));
    assert_eq!(r.unwrap_err(), MarketError::NotSeller);
}

#[test]
fn accept_settles_at_the_bid() {
    let c = config(20);
    let mut l = fresh();
    place(&mut l, &c, 10, 200 * 1_000_000_000);
    place(&mut l, &c, 11, 300 * 1_000_000_000);
    sell(&mut l, &c, nft(), &token(), party(5), amt(1_000 * 1_000_000_000)).unwrap();
    let o = accept_price(&mut l, &c, party(5), &token(), party(10), amt(200 * 1_000_000_000)).unwrap();
    assert_eq!(o.payments.len(), 2);
    assert_eq!(payout(&o.payments[0]), (party(5), 196 * 1_000_000_000));
    assert_eq!(payout(&o.payments[1]), (fee_receiver(), 4 * 1_000_000_000));
    assert_eq!(book(&l), vec![(party(11), 300 * 1_000_000_000)]);
    assert!(is_unlisted(&l));
}

#[test]
fn revoke_twice_fails_the_second_time() {
    let c = config(20);
    let mut l = fresh();
    place(&mut l, &c, 11, 300 * 1_000_000_000);
    sell(&mut l, &c, nft(), &token(), party(5), amt(1_000 * 1_000_000_000)).unwrap();
    let o = revoke_sell(&mut l, &c, nft(), &token(), party(5)).unwrap();
    assert!(matches!(moved(&o).from, Custodian::Market));
    assert_eq!(to_account(moved(&o).to), party(5));
    assert_eq!(o.event.event_type(), "revoke");
    assert!(is_unlisted(&l));
    assert_eq!(l.bids.len(), 1);
    let after_first = l.clone();
    let r = revoke_sell(&mut l, &c, nft(), &token(), party(5));
    assert_eq!(r.unwrap_err(), MarketError::NotActive);
    assert_eq!(MarketError::NotActive.kind(), ErrorKind::State);
    assert!(same_listing(&after_first, &l));
}

#[test]
fn only_the_seller_manages_the_listing() {
    let c = config(20);
    let mut l = fresh();
    sell(&mut l, &c, nft(), &token(), party(5), amt(1000)).unwrap();
    assert_eq!(
        revoke_sell(&mut l, &c, nft(), &token(), party(6)).unwrap_err(),
        MarketError::NotSeller
    );
    assert_eq!(
        change_price(&mut l, &c, party(6), &token(), amt(2000)).unwrap_err(),
        MarketError::NotSeller
    );
    assert_eq!(MarketError::NotSeller.kind(), ErrorKind::Authorization);
}

#[test]
fn change_price_updates_or_settles() {
    let c = config(20);
    let mut l = fresh();
    place(&mut l, &c, 11, 300 * 1_000_000_000);
    sell(&mut l, &c, nft(), &token(), party(5), amt(1_000 * 1_000_000_000)).unwrap();
    let o = change_price(&mut l, &c, party(5), &token(), amt(800 * 1_000_000_000)).unwrap();
    assert!(o.payments.is_empty());
    assert!(o.custody.is_none());
    match l.sale {
        Sale::Active { ask_price, .. } => assert_eq!(value(&ask_price), 800 * 1_000_000_000),
        Sale::Unlisted => panic!("still for sale"),
    }
    assert_eq!(
        change_price(&mut l, &c, party(5), &token(), amt(0)).unwrap_err(),
        MarketError::AskTooLow
    );
    let o = change_price(&mut l, &c, party(5), &token(), amt(250 * 1_000_000_000)).unwrap();
    assert_eq!(payout(&o.payments[0]), (party(11), 50 * 1_000_000_000));
    assert_eq!(payout(&o.payments[1]), (party(5), 245 * 1_000_000_000));
    assert_eq!(payout(&o.payments[2]), (fee_receiver(), 5 * 1_000_000_000));
    assert!(matches!(moved(&o).from, Custodian::Market));
    assert_eq!(to_account(moved(&o).to), party(11));
    assert!(is_unlisted(&l));
    assert!(l.bids.is_empty());
    assert_eq!(
        change_price(&mut l, &c, party(5), &token(), amt(250)).unwrap_err(),
        MarketError::NotActive
    );
}

#[test]
fn zero_ask_is_refused() {
    let c = config(20);
    let mut l = fresh();
    let r = sell(&mut l, &c, nft(), &token(), party(5), amt(0));
    assert_eq!(r.unwrap_err(), MarketError::AskTooLow);
    assert_eq!(MarketError::AskTooLow.kind(), ErrorKind::Validation);
    assert!(is_unlisted(&l));
}

#[test]
fn other_assets_are_refused() {
    let c = config(20);
    let mut l = fresh();
    let other = AssetContract::new([9; 32]);
    assert_eq!(
        sell(&mut l, &c, other, &token(), party(5), amt(10)).unwrap_err(),
        MarketError::UnsupportedAsset
    );
    assert_eq!(
        bid(&mut l, &c, nft(), &"token-8".to_string(), party(5), amt(MIN_BID)).unwrap_err(),
        MarketError::AssetMismatch
    );
    assert_eq!(
        change_price(&mut l, &c, party(5), &"token-8".to_string(), amt(10)).unwrap_err(),
        MarketError::AssetMismatch
    );
}

#[test]
fn duplicate_and_missing_bids_are_refused() {
    let c = config(20);
    let mut l = fresh();
    place(&mut l, &c, 11, MIN_BID);
    assert_eq!(
        bid(&mut l, &c, nft(), &token(), party(11), amt(MIN_BID * 2)).unwrap_err(),
        MarketError::AlreadyBidding
    );
    assert_eq!(
        revoke_bid(&mut l, &c, nft(), &token(), party(12)).unwrap_err(),
        MarketError::BidNotFound
    );
    assert_eq!(
        increase_bid(&mut l, &c, nft(), &token(), party(12), amt(1)).unwrap_err(),
        MarketError::BidNotFound
    );
    assert_eq!(l.bids.len(), 1);
}

#[test]
fn increase_past_256_bits_is_refused() {
    let c = config(20);
    let mut l = fresh();
    place(&mut l, &c, 11, MIN_BID);
    let max = Amount { w0: u64::MAX, w1: u64::MAX, w2: u64::MAX, w3: u64::MAX };
    let r = increase_bid(&mut l, &c, nft(), &token(), party(11), max);
    assert_eq!(r.unwrap_err(), MarketError::Overflow);
    assert_eq!(book(&l), vec![(party(11), MIN_BID as u128)]);
}

#[test]
fn stored_records_are_checked() {
    let mut l = fresh();
    l.bids.push(Bid { bidder: party(10), amount: amt(5) });
    l.bids.push(Bid { bidder: party(11), amount: amt(3) });
    assert!(!l.is_well_formed());
    l.bids.swap(0, 1);
    assert!(l.is_well_formed());
    l.bids.push(Bid { bidder: party(10), amount: amt(9) });
    assert!(!l.is_well_formed());
    l.bids.pop();
    l.sale = Sale::Active { seller: party(5), ask_price: amt(5) };
    assert!(!l.is_well_formed());
    l.sale = Sale::Active { seller: party(5), ask_price: amt(6) };
    assert!(l.is_well_formed());
}
