//! The risk evaluator: projects the exposure that an order could lead to and
//! holds it against the configured bound.
//!
//! The projection stacks, on top of the position the account is already
//! committed to, the whole incoming order and every resting order on the
//! order's own side. Resting orders on the other side could only bring the
//! exposure back towards zero, so they are left out.

use vstd::prelude::*;
use crate::types::{MarketInfo, OrderSide, RiskCheckerAccount, RiskDecision, RiskError};

verus! {

/// The position the account is committed to: the settled position with the
/// pending fills folded in.
pub open spec fn net_position(info: MarketInfo) -> int {
    info.perp_position + info.perp_unconsumed_position
}

/// The exposure that the order adds if it fills completely at once.
pub open spec fn order_delta(side: OrderSide, quantity: int) -> int {
    match side {
        OrderSide::Long => quantity,
        OrderSide::Short => -quantity,
    }
}

/// The exposure that resting orders on the order's own side add if they all
/// fill.
pub open spec fn resting_worst_case(info: MarketInfo, side: OrderSide) -> int {
    match side {
        OrderSide::Long => info.perp_long_order_quantity as int,
        OrderSide::Short => -(info.perp_short_order_quantity as int),
    }
}

/// The exposure the account would hold if the order and every resting order
/// on its side filled, as an unbounded integer.
pub open spec fn projected_exposure(info: MarketInfo, side: OrderSide, quantity: int) -> int {
    net_position(info) + order_delta(side, quantity) + resting_worst_case(info, side)
}

/// The magnitude of an exposure.
pub open spec fn magnitude(exposure: int) -> int {
    if exposure < 0 {
        -exposure
    } else {
        exposure
    }
}

/// Whether an exposure lies in the closed interval from `-bound` to `bound`.
pub open spec fn within_bound(exposure: int, bound: int) -> bool {
    -bound <= exposure <= bound
}

/// Whether both resting quantities and the order quantity are at least zero.
pub open spec fn quantities_sound(info: MarketInfo, quantity: int) -> bool {
    &&& info.perp_long_order_quantity >= 0
    &&& info.perp_short_order_quantity >= 0
    &&& quantity >= 0
}

/// Whether an exposure fits the signed 64-bit type that positions are kept in.
pub open spec fn representable(exposure: int) -> bool {
    i64::MIN <= exposure <= i64::MAX
}

/// What the evaluator owes for each input: the first condition that fails
/// decides the error, and only a projection that met them all is held against
/// the bound.
pub open spec fn risk_outcome(
    config: RiskCheckerAccount,
    info: MarketInfo,
    side: OrderSide,
    quantity: i64,
) -> Result<RiskDecision, RiskError> {
    let exposure = projected_exposure(info, side, quantity as int);
    if info.market_index != config.market_index {
        Err(RiskError::InvalidMarketIndex)
    } else if !quantities_sound(info, quantity as int) {
        Err(RiskError::NegativeQuantity)
    } else if !representable(exposure) {
        Err(RiskError::ExposureOverflow)
    } else {
        Ok(
            RiskDecision {
                allowed: within_bound(exposure, config.valid_range as int),
                projected_exposure: exposure as i64,
                bound: config.valid_range,
            },
        )
    }
}

/// Decides whether an order of `order_amount` on `order_direction` is
/// admissible for the account whose position signals are `info`, under the
/// bound in `config`.
///
/// The result is a function of the arguments alone, so a repeated call on the
/// same arguments gives the same answer. A denied order is an `Ok` decision
/// with `allowed == false`; an `Err` means that no decision could be made.
pub fn evaluate(
    config: &RiskCheckerAccount,
    info: &MarketInfo,
    order_direction: OrderSide,
    order_amount: i64,
) -> (outcome: Result<RiskDecision, RiskError>)
    ensures
        outcome == risk_outcome(*config, *info, order_direction, order_amount),
        outcome matches Ok(decision) ==> {
            &&& decision.projected_exposure as int == projected_exposure(
                *info,
                order_direction,
                order_amount as int,
            )
            &&& decision.bound == config.valid_range
            &&& decision.allowed == (magnitude(decision.projected_exposure as int)
                <= config.valid_range)
        },
        outcome == Err::<RiskDecision, RiskError>(RiskError::ExposureOverflow) <==> {
            &&& info.market_index == config.market_index
            &&& quantities_sound(*info, order_amount as int)
            &&& !representable(projected_exposure(*info, order_direction, order_amount as int))
        },
{
    if info.market_index != config.market_index {
        return Err(RiskError::InvalidMarketIndex);
    }
    if info.perp_long_order_quantity < 0 || info.perp_short_order_quantity < 0 || order_amount
        < 0 {
        return Err(RiskError::NegativeQuantity);
    }
    let net: i128 = info.perp_position as i128 + info.perp_unconsumed_position as i128;
    let exposure: i128 = match order_direction {
        OrderSide::Long => net + order_amount as i128 + info.perp_long_order_quantity as i128,
        OrderSide::Short => net - order_amount as i128 - info.perp_short_order_quantity as i128,
    };
    if exposure < i64::MIN as i128 || exposure > i64::MAX as i128 {
        return Err(RiskError::ExposureOverflow);
    }
    let bound: i128 = config.valid_range as i128;
    Ok(
        RiskDecision {
            allowed: -bound <= exposure && exposure <= bound,
            projected_exposure: exposure as i64,
            bound: config.valid_range,
        },
    )
}

} // verus!
