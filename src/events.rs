//! The record that each successful operation leaves for outside observers.

use crate::amount::Amount;
use crate::party::{AssetContract, Party};
use vstd::prelude::*;

verus! {

#[derive(Clone, Debug)]
pub enum MarketPlaceEvent {
    Sell {
        nft_contract: AssetContract,
        token_id: String,
        offeror: Party,
        minimum_offer: Amount,
        is_active: bool,
    },
    Revoke {
        nft_contract: AssetContract,
        token_id: String,
        offeror: Party,
        minimum_offer: Amount,
        is_active: bool,
    },
    DoneSell {
        nft_contract: AssetContract,
        token_id: String,
        offeror: Party,
        buyer: Party,
        value: Amount,
    },
    ChangePrice {
        nft_contract: AssetContract,
        token_id: String,
        offeror: Party,
        new_price: Amount,
        is_active: bool,
    },
    Bid {
        nft_contract: AssetContract,
        token_id: String,
        offeror: Option<Party>,
        bidder: Party,
        value: Amount,
    },
    RevokeBid {
        nft_contract: AssetContract,
        token_id: String,
        offeror: Option<Party>,
        bidder: Party,
        value: Amount,
        is_revoke: bool,
    },
}

impl MarketPlaceEvent {
    pub open spec fn spec_event_type(&self) -> Seq<char> {
        match self {
            MarketPlaceEvent::Sell { .. } => "sell"@,
            MarketPlaceEvent::ChangePrice { .. } => "change_price"@,
            MarketPlaceEvent::Revoke { .. } => "revoke"@,
            MarketPlaceEvent::DoneSell { .. } => "donesell"@,
            MarketPlaceEvent::Bid { .. } => "bid"@,
            MarketPlaceEvent::RevokeBid { .. } => "revokebid"@,
        }
    }

    /// The event's kind, as observers key it.
    pub fn event_type(&self) -> (r: String)
        ensures
            r@ == self.spec_event_type(),
    {
        match self {
            MarketPlaceEvent::Sell { .. } => "sell".to_string(),
            MarketPlaceEvent::ChangePrice { .. } => "change_price".to_string(),
            MarketPlaceEvent::Revoke { .. } => "revoke".to_string(),
            MarketPlaceEvent::DoneSell { .. } => "donesell".to_string(),
            MarketPlaceEvent::Bid { .. } => "bid".to_string(),
            MarketPlaceEvent::RevokeBid { .. } => "revokebid".to_string(),
        }
    }
}

} // verus!
