//! The deposit helper's decision: which market call a deposit may be relayed
//! to. Any other name is refused before it reaches the market.

use vstd::prelude::*;

verus! {

#[derive(Clone, Copy, Debug, PartialEq, Eq, Structural)]
pub enum DepositCall {
    Buy,
    Bid,
    IncreaseBid,
}

pub open spec fn spec_deposit_call(name: Seq<char>) -> Option<DepositCall> {
    if name == "buy"@ {
        Some(DepositCall::Buy)
    } else if name == "bid"@ {
        Some(DepositCall::Bid)
    } else if name == "increase_bid"@ {
        Some(DepositCall::IncreaseBid)
    } else {
        None
    }
}

/// The market call named `name`, where a deposit may be relayed to it.
pub fn deposit_call(name: &String) -> (r: Option<DepositCall>)
    ensures
        r == spec_deposit_call(name@),
{
    if *name == "buy".to_string() {
        Some(DepositCall::Buy)
    } else if *name == "bid".to_string() {
        Some(DepositCall::Bid)
    } else if *name == "increase_bid".to_string() {
        Some(DepositCall::IncreaseBid)
    } else {
        None
    }
}

impl DepositCall {
    pub open spec fn spec_owner_arg(self) -> Seq<char> {
        match self {
            DepositCall::Buy => "buyer"@,
            DepositCall::Bid => "bidder"@,
            DepositCall::IncreaseBid => "bidder"@,
        }
    }

    /// The argument of the call that names the account to be registered as
    /// the asset's future owner.
    pub fn owner_arg(&self) -> (r: String)
        ensures
            r@ == self.spec_owner_arg(),
    {
        match self {
            DepositCall::Buy => "buyer".to_string(),
            DepositCall::Bid => "bidder".to_string(),
            DepositCall::IncreaseBid => "bidder".to_string(),
        }
    }
}

} // verus!
