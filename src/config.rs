//! The market's configuration and the owner's administrative operations.

use crate::amount::Amount;
use crate::error::MarketError;
use crate::party::{AssetContract, Party};
use crate::settlement::{Custodian, CustodyMove, Payment};
use vstd::prelude::*;

verus! {

/// Fee rates are in thousandths of the trade price.
pub const FEE_DENOMINATOR: u64 = 1000;

/// The highest fee rate the owner may set: 20%.
pub const MAX_FEE_RATE: u64 = 200;

#[derive(Clone, Copy, Debug)]
pub struct Config {
    pub owner: Party,
    pub fee_receiver: Party,
    /// The fee, in thousandths of each trade price.
    pub fee_rate: u64,
    /// The asset contract whose assets the market trades.
    pub supported_contract: AssetContract,
}

impl Config {
    pub open spec fn wf(&self) -> bool {
        self.fee_rate <= MAX_FEE_RATE
    }
}

/// A new configuration; refused where the fee rate is above the ceiling.
pub fn init(owner: Party, fee_receiver: Party, fee_rate: u64, supported_contract: AssetContract) -> (r:
    Result<Config, MarketError>)
    ensures
        fee_rate > MAX_FEE_RATE ==> r == Err::<Config, MarketError>(MarketError::FeeTooHigh),
        fee_rate <= MAX_FEE_RATE ==> r == Ok::<Config, MarketError>(
            Config { owner, fee_receiver, fee_rate, supported_contract },
        ),
{
    if fee_rate > MAX_FEE_RATE {
        return Err(MarketError::FeeTooHigh);
    }
    Ok(Config { owner, fee_receiver, fee_rate, supported_contract })
}

/// The owner sets a new fee rate.
pub fn change_fee(config: &mut Config, caller: Party, new_fee: u64) -> (r: Result<(), MarketError>)
    ensures
        caller != old(config).owner ==> r == Err::<(), MarketError>(MarketError::NotOwner),
        caller == old(config).owner && new_fee > MAX_FEE_RATE ==> r == Err::<(), MarketError>(
            MarketError::FeeTooHigh,
        ),
        r is Err ==> *final(config) == *old(config),
        r is Ok ==> *final(config) == (Config { fee_rate: new_fee, ..*old(config) }),
        caller == old(config).owner && new_fee <= MAX_FEE_RATE ==> r is Ok,
{
    if caller != config.owner {
        return Err(MarketError::NotOwner);
    }
    if new_fee > MAX_FEE_RATE {
        return Err(MarketError::FeeTooHigh);
    }
    config.fee_rate = new_fee;
    Ok(())
}

/// The owner hands ownership to `new_owner`.
pub fn transfer_owner(config: &mut Config, caller: Party, new_owner: Party) -> (r: Result<
    (),
    MarketError,
>)
    ensures
        caller != old(config).owner ==> r == Err::<(), MarketError>(MarketError::NotOwner)
            && *final(config) == *old(config),
        caller == old(config).owner ==> r is Ok && *final(config) == (Config {
            owner: new_owner,
            ..*old(config)
        }),
{
    if caller != config.owner {
        return Err(MarketError::NotOwner);
    }
    config.owner = new_owner;
    Ok(())
}

/// The owner names the account that receives the fees.
pub fn set_fee_receiver(config: &mut Config, caller: Party, fee_receiver: Party) -> (r: Result<
    (),
    MarketError,
>)
    ensures
        caller != old(config).owner ==> r == Err::<(), MarketError>(MarketError::NotOwner)
            && *final(config) == *old(config),
        caller == old(config).owner ==> r is Ok && *final(config) == (Config {
            fee_receiver,
            ..*old(config)
        }),
{
    if caller != config.owner {
        return Err(MarketError::NotOwner);
    }
    config.fee_receiver = fee_receiver;
    Ok(())
}

/// The owner names the asset contract whose assets the market trades.
pub fn set_support_token(config: &mut Config, caller: Party, contract: AssetContract) -> (r:
    Result<(), MarketError>)
    ensures
        caller != old(config).owner ==> r == Err::<(), MarketError>(MarketError::NotOwner)
            && *final(config) == *old(config),
        caller == old(config).owner ==> r is Ok && *final(config) == (Config {
            supported_contract: contract,
            ..*old(config)
        }),
{
    if caller != config.owner {
        return Err(MarketError::NotOwner);
    }
    config.supported_contract = contract;
    Ok(())
}

/// The owner takes `amount` out of escrow: the payout to make.
pub fn emergency_withdraw_cspr(config: &Config, caller: Party, amount: Amount) -> (r: Result<
    Payment,
    MarketError,
>)
    ensures
        caller != config.owner ==> r == Err::<Payment, MarketError>(MarketError::NotOwner),
        caller == config.owner ==> r == Ok::<Payment, MarketError>(
            Payment::Payout { to: config.owner, amount },
        ),
{
    if caller != config.owner {
        return Err(MarketError::NotOwner);
    }
    Ok(Payment::Payout { to: config.owner, amount })
}

/// The owner takes assets out of the market's custody: the move to make for
/// each of them.
pub fn emergency_withdraw_nfts(config: &Config, caller: Party) -> (r: Result<
    CustodyMove,
    MarketError,
>)
    ensures
        caller != config.owner ==> r == Err::<CustodyMove, MarketError>(MarketError::NotOwner),
        caller == config.owner ==> r == Ok::<CustodyMove, MarketError>(
            CustodyMove { from: Custodian::Market, to: Custodian::Account(config.owner) },
        ),
{
    if caller != config.owner {
        return Err(MarketError::NotOwner);
    }
    Ok(CustodyMove { from: Custodian::Market, to: Custodian::Account(config.owner) })
}

} // verus!
