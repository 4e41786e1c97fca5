//! What an operation asks of the ledger, and how a trade price is split
//! between seller and fee receiver.

use crate::amount::{amount_limit, checked_mul, difference, div, Amount};
use crate::config::FEE_DENOMINATOR;
use crate::events::MarketPlaceEvent;
use crate::party::Party;
use vstd::prelude::*;

verus! {

/// A movement of currency that the market's escrow takes part in.
#[derive(Clone, Copy, Debug)]
pub enum Payment {
    /// Take `amount` from the caller's funding source into escrow.
    Collect { amount: Amount },
    /// Pay `amount` out of escrow to `to`.
    Payout { to: Party, amount: Amount },
}

/// Who holds an asset.
#[derive(Clone, Copy, Debug)]
pub enum Custodian {
    /// The market itself, in escrow.
    Market,
    Account(Party),
}

/// A transfer of the listed asset from one holder to another.
#[derive(Clone, Copy, Debug)]
pub struct CustodyMove {
    pub from: Custodian,
    pub to: Custodian,
}

/// What a successful operation asks of the ledger: the payments, in order;
/// then, once the listing is stored, the custody move, if any; and the event.
#[derive(Clone, Debug)]
pub struct Outcome {
    pub payments: Vec<Payment>,
    pub custody: Option<CustodyMove>,
    pub event: MarketPlaceEvent,
}

/// How a payment changes the escrow balance.
pub open spec fn flow(p: Payment) -> int {
    match p {
        Payment::Collect { amount } => amount@ as int,
        Payment::Payout { amount, .. } => -(amount@ as int),
    }
}

/// How a sequence of payments changes the escrow balance.
pub open spec fn net_flow(ps: Seq<Payment>) -> int
    decreases ps.len(),
{
    if ps.len() == 0 {
        0
    } else {
        net_flow(ps.drop_last()) + flow(ps.last())
    }
}

pub proof fn lemma_net_flow_push(ps: Seq<Payment>, p: Payment)
    ensures
        net_flow(ps.push(p)) == net_flow(ps) + flow(p),
{
    assert(ps.push(p).drop_last() =~= ps);
}

pub open spec fn collects(p: Payment, a: nat) -> bool {
    p matches Payment::Collect { amount } && amount@ == a
}

pub open spec fn pays(p: Payment, to: Party, a: nat) -> bool {
    p matches Payment::Payout { to: t, amount } && t == to && amount@ == a
}

/// The platform's fee on a trade at `price`, at `rate` thousandths.
pub open spec fn fee_of(price: nat, rate: nat) -> nat {
    price * rate / (FEE_DENOMINATOR as nat)
}

/// The two payouts of a trade at `price`: the seller's share, then the fee.
pub open spec fn settles(ps: Seq<Payment>, seller: Party, receiver: Party, price: nat, rate: nat) -> bool {
    &&& ps.len() == 2
    &&& pays(ps[0], seller, (price - fee_of(price, rate)) as nat)
    &&& pays(ps[1], receiver, fee_of(price, rate))
}

/// The fee never exceeds the price.
pub proof fn lemma_fee_bounded(price: nat, rate: nat)
    requires
        rate <= FEE_DENOMINATOR,
    ensures
        fee_of(price, rate) <= price,
{
    assert(price * rate <= price * 1000) by (nonlinear_arith)
        requires rate <= 1000;
    assert(price * rate / 1000 <= price * 1000 / 1000) by (nonlinear_arith)
        requires price * rate <= price * 1000;
    assert(price * 1000 / 1000 == price) by (nonlinear_arith);
}

/// The seller's share and the fee of a trade at `price`; `None` where the
/// product of price and rate does not fit in 256 bits.
pub fn split_proceeds(price: Amount, fee_rate: u64) -> (r: Option<(Amount, Amount)>)
    requires
        fee_rate <= FEE_DENOMINATOR,
    ensures
        r is Some <==> price@ * fee_rate < amount_limit(),
        r matches Some((s, f)) ==> f@ == fee_of(price@, fee_rate as nat) && s@ == price@ - f@,
{
    match checked_mul(price, fee_rate) {
        None => None,
        Some(product) => {
            let fee = div(product, FEE_DENOMINATOR);
            proof {
                lemma_fee_bounded(price@, fee_rate as nat);
            }
            let seller = difference(price, fee);
            Some((seller, fee))
        },
    }
}

/// Appends the two payouts of a trade at `price`, split as `split`.
pub(crate) fn push_settlement(
    payments: &mut Vec<Payment>,
    seller: Party,
    receiver: Party,
    split: (Amount, Amount),
)
    ensures
        final(payments)@ == old(payments)@.push(Payment::Payout { to: seller, amount: split.0 }).push(
            Payment::Payout { to: receiver, amount: split.1 },
        ),
{
    payments.push(Payment::Payout { to: seller, amount: split.0 });
    payments.push(Payment::Payout { to: receiver, amount: split.1 });
}

} // verus!
