//! What holds of the evaluator on every input, proved from its definition.

use vstd::prelude::*;
use crate::exposure::{
    magnitude, projected_exposure, quantities_sound, representable, risk_outcome, within_bound,
};
use crate::types::{MarketInfo, OrderSide, RiskCheckerAccount, RiskDecision, RiskError};

verus! {

/// The other direction.
pub open spec fn opposite(side: OrderSide) -> OrderSide {
    match side {
        OrderSide::Long => OrderSide::Short,
        OrderSide::Short => OrderSide::Long,
    }
}

/// Whether `b` is the account `a` seen with long and short exchanged: both
/// positions negated, and the two resting quantities swapped.
pub open spec fn mirrored(a: MarketInfo, b: MarketInfo) -> bool {
    &&& b.market_index == a.market_index
    &&& b.perp_position == -a.perp_position
    &&& b.perp_unconsumed_position == -a.perp_unconsumed_position
    &&& b.perp_long_order_quantity == a.perp_short_order_quantity
    &&& b.perp_short_order_quantity == a.perp_long_order_quantity
}

/// Whenever a decision is made, the order is allowed exactly if the magnitude
/// of the projected exposure does not exceed the configured bound.
pub proof fn law_allowed_iff_magnitude_within_bound(
    config: RiskCheckerAccount,
    info: MarketInfo,
    side: OrderSide,
    quantity: i64,
)
    requires
        risk_outcome(config, info, side, quantity) is Ok,
    ensures
        risk_outcome(config, info, side, quantity)->Ok_0.allowed == (magnitude(
            projected_exposure(info, side, quantity as int),
        ) <= config.valid_range),
{
}

/// The decision does not depend on which direction is called positive: the
/// mirrored account with the order on the other side has the negated exposure
/// and is allowed exactly if the first is.
pub proof fn law_decision_ignores_sign_convention(
    config: RiskCheckerAccount,
    info: MarketInfo,
    mirror: MarketInfo,
    side: OrderSide,
    quantity: i64,
)
    requires
        mirrored(info, mirror),
        risk_outcome(config, info, side, quantity) is Ok,
    ensures
        projected_exposure(mirror, opposite(side), quantity as int) == -projected_exposure(
            info,
            side,
            quantity as int,
        ),
        representable(projected_exposure(mirror, opposite(side), quantity as int)) ==> {
            &&& risk_outcome(config, mirror, opposite(side), quantity) is Ok
            &&& risk_outcome(config, mirror, opposite(side), quantity)->Ok_0.allowed
                == risk_outcome(config, info, side, quantity)->Ok_0.allowed
        },
{
}

/// The bound is a closed interval: an exposure of exactly the bound, on either
/// side of zero, is within it, and one unit further out is not.
pub proof fn law_bound_is_closed(bound: int)
    requires
        bound >= 0,
    ensures
        within_bound(bound, bound),
        within_bound(-bound, bound),
        !within_bound(bound + 1, bound),
        !within_bound(-bound - 1, bound),
{
}

/// A decision whose exposure sits exactly on the bound allows the order; one
/// whose exposure is one unit beyond it, on either side, denies it.
pub proof fn law_decision_at_the_bound(
    config: RiskCheckerAccount,
    info: MarketInfo,
    side: OrderSide,
    quantity: i64,
)
    requires
        risk_outcome(config, info, side, quantity) is Ok,
    ensures
        magnitude(projected_exposure(info, side, quantity as int)) == config.valid_range
            ==> risk_outcome(config, info, side, quantity)->Ok_0.allowed,
        magnitude(projected_exposure(info, side, quantity as int)) == config.valid_range + 1
            ==> !risk_outcome(config, info, side, quantity)->Ok_0.allowed,
{
}

/// A larger order moves the projected exposure further in the order's own
/// direction, by exactly the difference of the two quantities.
pub proof fn law_exposure_moves_with_order(
    info: MarketInfo,
    side: OrderSide,
    smaller: int,
    larger: int,
)
    requires
        smaller <= larger,
    ensures
        side == OrderSide::Long ==> projected_exposure(info, side, larger) == projected_exposure(
            info,
            side,
            smaller,
        ) + (larger - smaller),
        side == OrderSide::Short ==> projected_exposure(info, side, larger) == projected_exposure(
            info,
            side,
            smaller,
        ) - (larger - smaller),
{
}

/// Growing an order never turns a denial into an approval, as long as the
/// larger order's exposure is at least as far from zero as the smaller one's.
pub proof fn law_denial_survives_larger_order(
    config: RiskCheckerAccount,
    info: MarketInfo,
    side: OrderSide,
    smaller: i64,
    larger: i64,
)
    requires
        smaller <= larger,
        risk_outcome(config, info, side, smaller) is Ok,
        risk_outcome(config, info, side, larger) is Ok,
        !risk_outcome(config, info, side, smaller)->Ok_0.allowed,
        magnitude(projected_exposure(info, side, larger as int)) >= magnitude(
            projected_exposure(info, side, smaller as int),
        ),
    ensures
        !risk_outcome(config, info, side, larger)->Ok_0.allowed,
{
}

/// An order denied for pushing the exposure beyond the bound on its own side
/// stays denied at every larger quantity for which a decision is made.
pub proof fn law_denial_on_own_side_is_monotone(
    config: RiskCheckerAccount,
    info: MarketInfo,
    side: OrderSide,
    smaller: i64,
    larger: i64,
)
    requires
        smaller <= larger,
        risk_outcome(config, info, side, smaller) is Ok,
        risk_outcome(config, info, side, larger) is Ok,
        !risk_outcome(config, info, side, smaller)->Ok_0.allowed,
        side == OrderSide::Long ==> projected_exposure(info, side, smaller as int) >= 0,
        side == OrderSide::Short ==> projected_exposure(info, side, smaller as int) <= 0,
    ensures
        !risk_outcome(config, info, side, larger)->Ok_0.allowed,
{
}

/// Resting orders on the other side of the book do not enter the projection:
/// two snapshots that differ only in the resting quantity opposite to the
/// order have the same projected exposure, and, where both quantities are
/// sound, the same outcome.
pub proof fn law_opposite_resting_orders_are_ignored(
    config: RiskCheckerAccount,
    info: MarketInfo,
    other: MarketInfo,
    side: OrderSide,
    quantity: i64,
)
    requires
        other.market_index == info.market_index,
        other.perp_position == info.perp_position,
        other.perp_unconsumed_position == info.perp_unconsumed_position,
        side == OrderSide::Long ==> other.perp_long_order_quantity
            == info.perp_long_order_quantity,
        side == OrderSide::Short ==> other.perp_short_order_quantity
            == info.perp_short_order_quantity,
    ensures
        projected_exposure(other, side, quantity as int) == projected_exposure(
            info,
            side,
            quantity as int,
        ),
        quantities_sound(info, quantity as int) && quantities_sound(other, quantity as int)
            ==> risk_outcome(config, other, side, quantity) == risk_outcome(
            config,
            info,
            side,
            quantity,
        ),
{
}

/// Two evaluations of the same arguments agree: whatever the evaluator
/// returns is fixed by its arguments.
pub proof fn law_same_arguments_same_outcome(
    config: RiskCheckerAccount,
    info: MarketInfo,
    side: OrderSide,
    quantity: i64,
    first: Result<RiskDecision, RiskError>,
    second: Result<RiskDecision, RiskError>,
)
    requires
        first == risk_outcome(config, info, side, quantity),
        second == risk_outcome(config, info, side, quantity),
    ensures
        first == second,
{
}

/// A projection that does not fit the position type is reported as an
/// overflow, and a decision always carries the true sum: the figure never
/// wraps or saturates.
pub proof fn law_overflow_is_never_silent(
    config: RiskCheckerAccount,
    info: MarketInfo,
    side: OrderSide,
    quantity: i64,
)
    requires
        info.market_index == config.market_index,
        quantities_sound(info, quantity as int),
    ensures
        !representable(projected_exposure(info, side, quantity as int)) ==> risk_outcome(
            config,
            info,
            side,
            quantity,
        ) == Err::<RiskDecision, RiskError>(RiskError::ExposureOverflow),
        representable(projected_exposure(info, side, quantity as int)) ==> {
            &&& risk_outcome(config, info, side, quantity) is Ok
            &&& risk_outcome(config, info, side, quantity)->Ok_0.projected_exposure as int
                == projected_exposure(info, side, quantity as int)
        },
{
}

} // verus!
