//! Why an operation was refused. A refused operation changes nothing.

use vstd::prelude::*;

verus! {

/// The broad class of a refusal.
#[derive(Clone, Copy, Debug, PartialEq, Eq, Structural)]
pub enum ErrorKind {
    Validation,
    Authorization,
    State,
    Funds,
}

#[derive(Clone, Copy, Debug, PartialEq, Eq, Structural)]
pub enum MarketError {
    /// An ask price of zero.
    AskTooLow,
    /// The asset contract is not the one the market trades.
    UnsupportedAsset,
    /// The asset contract or identifier differs from the stored listing.
    AssetMismatch,
    /// An amount that does not fit in 256 bits.
    Overflow,
    /// The caller is not the listing's seller.
    NotSeller,
    /// The caller is not the market's owner.
    NotOwner,
    /// The listing has no standing sale offer.
    NotActive,
    /// The bidder already has a bid on this listing.
    AlreadyBidding,
    /// No bid of that bidder (at that price) is on the book.
    BidNotFound,
    /// A bid below the minimum.
    BelowMinimumBid,
    /// A payment below the ask price.
    NotEnoughFunds,
    /// A fee rate above the allowed ceiling.
    FeeTooHigh,
}

impl MarketError {
    pub open spec fn spec_kind(self) -> ErrorKind {
        match self {
            MarketError::AskTooLow => ErrorKind::Validation,
            MarketError::UnsupportedAsset => ErrorKind::Validation,
            MarketError::AssetMismatch => ErrorKind::Validation,
            MarketError::Overflow => ErrorKind::Validation,
            MarketError::NotSeller => ErrorKind::Authorization,
            MarketError::NotOwner => ErrorKind::Authorization,
            MarketError::NotActive => ErrorKind::State,
            MarketError::AlreadyBidding => ErrorKind::State,
            MarketError::BidNotFound => ErrorKind::State,
            MarketError::BelowMinimumBid => ErrorKind::Funds,
            MarketError::NotEnoughFunds => ErrorKind::Funds,
            MarketError::FeeTooHigh => ErrorKind::Funds,
        }
    }

    pub fn kind(&self) -> (r: ErrorKind)
        ensures
            r == self.spec_kind(),
    {
        match self {
            MarketError::AskTooLow => ErrorKind::Validation,
            MarketError::UnsupportedAsset => ErrorKind::Validation,
            MarketError::AssetMismatch => ErrorKind::Validation,
            MarketError::Overflow => ErrorKind::Validation,
            MarketError::NotSeller => ErrorKind::Authorization,
            MarketError::NotOwner => ErrorKind::Authorization,
            MarketError::NotActive => ErrorKind::State,
            MarketError::AlreadyBidding => ErrorKind::State,
            MarketError::BidNotFound => ErrorKind::State,
            MarketError::BelowMinimumBid => ErrorKind::Funds,
            MarketError::NotEnoughFunds => ErrorKind::Funds,
            MarketError::FeeTooHigh => ErrorKind::Funds,
        }
    }
}

} // verus!
