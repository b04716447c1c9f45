//! The whole check, from the caller's claim to the decision.

use vstd::prelude::*;
use crate::config::{load, load_outcome};
use crate::exposure::{evaluate, risk_outcome};
use crate::types::{Identity, MarketType, OrderSide, RiskCheckerAccount, RiskDecision, RiskError};
use crate::venue::{get_mango_account_info, snapshot_of, PerpAccount};

verus! {

/// What a check works on: the caller, the content of the caller's
/// configuration slot, and the caller's slots at the venue, read just before
/// the check.
#[derive(Debug, PartialEq, Eq)]
pub struct CheckRisk {
    /// The caller.
    pub authority: Identity,
    /// The slot at the caller's address: `None` if nothing was created there.
    pub risk_checker_account: Option<RiskCheckerAccount>,
    /// The caller's venue slots, one per market, in the order of the indices.
    pub perp_accounts: Vec<PerpAccount>,
}

/// What a check owes for each input. The conditions come in a fixed order and
/// the first that fails decides the error: the configuration must exist and
/// belong to the caller, the market must be a perpetual one and have a slot
/// at the venue; then the evaluator decides on that slot's signals.
pub open spec fn check_outcome(
    ctx: CheckRisk,
    market_type: MarketType,
    order_direction: OrderSide,
    order_amount: i64,
) -> Result<RiskDecision, RiskError> {
    match load_outcome(ctx.risk_checker_account, ctx.authority) {
        Err(e) => Err(e),
        Ok(config) => if market_type != MarketType::Perp {
            Err(RiskError::UnsupportedMarketType)
        } else if config.market_index >= ctx.perp_accounts@.len() {
            Err(RiskError::InvalidMarketIndex)
        } else {
            risk_outcome(
                config,
                snapshot_of(ctx.perp_accounts@[config.market_index as int], config.market_index),
                order_direction,
                order_amount,
            )
        },
    }
}

/// Decides whether the caller may place an order of `order_amount` on
/// `order_direction` in the market that the caller's configuration governs.
///
/// A denied order is an `Ok` decision with `allowed == false`; an `Err` says
/// why no decision was made.
pub fn check_risk(
    ctx: &CheckRisk,
    market_type: MarketType,
    order_direction: OrderSide,
    order_amount: i64,
) -> (outcome: Result<RiskDecision, RiskError>)
    ensures
        outcome == check_outcome(*ctx, market_type, order_direction, order_amount),
{
    let config = match load(&ctx.risk_checker_account, &ctx.authority) {
        Ok(config) => config,
        Err(e) => {
            return Err(e);
        },
    };
    match market_type {
        MarketType::Perp => {},
        MarketType::Spot => {
            return Err(RiskError::UnsupportedMarketType);
        },
    }
    let info = match get_mango_account_info(ctx.perp_accounts.as_slice(), config.market_index) {
        Ok(info) => info,
        Err(e) => {
            return Err(e);
        },
    };
    evaluate(&config, &info, order_direction, order_amount)
}

} // verus!
