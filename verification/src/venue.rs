//! The venue's account state, as far as the guard reads it.

use vstd::prelude::*;
use crate::types::{MarketInfo, RiskError};

verus! {

/// One market's slot in the venue's account, decoded: the four figures that
/// the position signals are taken from.
#[derive(Clone, Copy, Debug, PartialEq, Eq)]
pub struct PerpAccount {
    /// Confirmed net position in base lots.
    pub base_position: i64,
    /// Fills of this account as taker that wait to be applied.
    pub taker_base: i64,
    /// Total quantity in open bids.
    pub bids_quantity: i64,
    /// Total quantity in open asks.
    pub asks_quantity: i64,
}

/// The position signals that a venue slot yields for the market it stands for.
pub open spec fn snapshot_of(slot: PerpAccount, market_index: u8) -> MarketInfo {
    MarketInfo {
        market_index,
        perp_position: slot.base_position,
        perp_unconsumed_position: slot.taker_base,
        perp_long_order_quantity: slot.bids_quantity,
        perp_short_order_quantity: slot.asks_quantity,
    }
}

/// Takes the position signals for `market_index` from the account's slots,
/// which the venue keeps one per market, in the order of the market indices.
///
/// Fails with `InvalidMarketIndex` exactly if the account has no slot for the
/// market.
pub fn get_mango_account_info(perp_accounts: &[PerpAccount], market_index: u8) -> (outcome: Result<
    MarketInfo,
    RiskError,
>)
    ensures
        market_index < perp_accounts@.len() ==> outcome == Ok::<MarketInfo, RiskError>(
            snapshot_of(perp_accounts@[market_index as int], market_index),
        ),
        market_index >= perp_accounts@.len() ==> outcome == Err::<MarketInfo, RiskError>(
            RiskError::InvalidMarketIndex,
        ),
{
    let index: usize = market_index as usize;
    if index >= perp_accounts.len() {
        return Err(RiskError::InvalidMarketIndex);
    }
    let slot = perp_accounts[index];
    Ok(
        MarketInfo {
            market_index,
            perp_position: slot.base_position,
            perp_unconsumed_position: slot.taker_base,
            perp_long_order_quantity: slot.bids_quantity,
            perp_short_order_quantity: slot.asks_quantity,
        },
    )
}

} // verus!
