use mango_markets_trading_risk_check::exposure::evaluate;
use mango_markets_trading_risk_check::types::{
    Identity, MarketInfo, OrderSide, RiskCheckerAccount, RiskDecision, RiskError,
};

fn config(valid_range: u64) -> RiskCheckerAccount {
    RiskCheckerAccount { authority: Identity::new([7u8; 32]), bump: 254, market_index: 3, valid_range }
}

fn info(position: i64, unconsumed: i64, resting_long: i64, resting_short: i64) -> MarketInfo {
    MarketInfo {
        market_index: 3,
        perp_position: position,
        perp_unconsumed_position: unconsumed,
        perp_long_order_quantity: resting_long,
        perp_short_order_quantity: resting_short,
    }
}

fn decision(allowed: bool, projected_exposure: i64, bound: u64) -> Result<RiskDecision, RiskError> {
    Ok(RiskDecision { allowed, projected_exposure, bound })
}

#[test]
fn long_order_within_the_bound_is_allowed() {
    let got = evaluate(&config(200), &info(100, 0, 50, 0), OrderSide::Long, 40);
    assert_eq!(got, decision(true, 190, 200));
}

#[test]
fn long_order_beyond_the_bound_is_denied() {
    let got = evaluate(&config(200), &info(100, 0, 50, 0), OrderSide::Long, 60);
    assert_eq!(got, decision(false, 210, 200));
}

#[test]
fn short_order_stacks_resting_asks() {
    let got = evaluate(&config(200), &info(-100, 0, 0, 50), OrderSide::Short, 40);
    assert_eq!(got, decision(true, -190, 200));
    let got = evaluate(&config(200), &info(-100, 0, 0, 50), OrderSide::Short, 60);
    assert_eq!(got, decision(false, -210, 200));
}

#[test]
fn pending_fills_are_folded_into_the_position() {
    let got = evaluate(&config(200), &info(100, -30, 50, 0), OrderSide::Long, 40);
    assert_eq!(got, decision(true, 160, 200));
    let got = evaluate(&config(200), &info(100, 30, 50, 0), OrderSide::Long, 40);
    assert_eq!(got, decision(false, 220, 200));
}

#[test]
fn exposure_on_the_bound_is_allowed() {
    let got = evaluate(&config(200), &info(100, 0, 50, 0), OrderSide::Long, 50);
    assert_eq!(got, decision(true, 200, 200));
    let got = evaluate(&config(200), &info(-100, 0, 0, 50), OrderSide::Short, 50);
    assert_eq!(got, decision(true, -200, 200));
}

#[test]
fn exposure_one_beyond_the_bound_is_denied() {
    let got = evaluate(&config(200), &info(100, 0, 50, 0), OrderSide::Long, 51);
    assert_eq!(got, decision(false, 201, 200));
    let got = evaluate(&config(200), &info(-100, 0, 0, 50), OrderSide::Short, 51);
    assert_eq!(got, decision(false, -201, 200));
}

#[test]
fn zero_bound_allows_only_a_flat_account() {
    assert_eq!(evaluate(&config(0), &info(0, 0, 0, 0), OrderSide::Long, 0), decision(true, 0, 0));
    assert_eq!(evaluate(&config(0), &info(0, 0, 0, 0), OrderSide::Long, 1), decision(false, 1, 0));
    assert_eq!(evaluate(&config(0), &info(0, 0, 0, 0), OrderSide::Short, 1), decision(false, -1, 0));
    assert_eq!(evaluate(&config(0), &info(5, 0, 0, 0), OrderSide::Short, 5), decision(true, 0, 0));
}

#[test]
fn widest_bound_allows_every_representable_exposure() {
    let got = evaluate(&config(u64::MAX), &info(i64::MAX, 0, 0, 0), OrderSide::Long, 0);
    assert_eq!(got, decision(true, i64::MAX, u64::MAX));
    let got = evaluate(&config(u64::MAX), &info(i64::MIN, 0, 0, 0), OrderSide::Short, 0);
    assert_eq!(got, decision(true, i64::MIN, u64::MAX));
}

#[test]
fn bound_above_the_position_range_is_compared_exactly() {
    let bound: u64 = 9_223_372_036_854_775_807;
    let got = evaluate(&config(bound), &info(i64::MIN, 0, 0, 0), OrderSide::Long, 0);
    assert_eq!(got, decision(false, i64::MIN, bound));
    let got = evaluate(&config(bound + 1), &info(i64::MIN, 0, 0, 0), OrderSide::Long, 0);
    assert_eq!(got, decision(true, i64::MIN, bound + 1));
}

#[test]
fn resting_orders_on_the_other_side_do_not_count() {
    let base = evaluate(&config(200), &info(100, 0, 50, 0), OrderSide::Long, 40);
    let with_asks = evaluate(&config(200), &info(100, 0, 50, 1_000_000), OrderSide::Long, 40);
    assert_eq!(base, with_asks);
    assert_eq!(with_asks, decision(true, 190, 200));
    let base = evaluate(&config(200), &info(-100, 0, 0, 50), OrderSide::Short, 40);
    let with_bids = evaluate(&config(200), &info(-100, 0, 777, 50), OrderSide::Short, 40);
    assert_eq!(base, with_bids);
    assert_eq!(with_bids, decision(true, -190, 200));
}

#[test]
fn order_against_the_position_reduces_exposure() {
    let got = evaluate(&config(200), &info(250, 0, 0, 0), OrderSide::Short, 60);
    assert_eq!(got, decision(true, 190, 200));
    let got = evaluate(&config(200), &info(250, 0, 0, 0), OrderSide::Short, 40);
    assert_eq!(got, decision(false, 210, 200));
}

#[test]
fn repeated_evaluation_gives_the_same_decision() {
    let c = config(200);
    let i = info(100, -20, 50, 10);
    let first = evaluate(&c, &i, OrderSide::Long, 70);
    let second = evaluate(&c, &i, OrderSide::Long, 70);
    assert_eq!(first, second);
    assert_eq!(first, decision(true, 200, 200));
}

#[test]
fn denied_order_stays_denied_when_it_grows() {
    let c = config(200);
    let i = info(100, 0, 50, 0);
    let mut quantity: i64 = 51;
    while quantity < 400 {
        let got = evaluate(&c, &i, OrderSide::Long, quantity).unwrap();
        assert!(!got.allowed);
        assert_eq!(got.projected_exposure, 150 + quantity);
        quantity += 17;
    }
}

#[test]
fn mirrored_account_gets_the_mirrored_decision() {
    let long = evaluate(&config(200), &info(100, -5, 50, 9), OrderSide::Long, 60).unwrap();
    let short = evaluate(&config(200), &info(-100, 5, 9, 50), OrderSide::Short, 60).unwrap();
    assert_eq!(long.projected_exposure, 205);
    assert_eq!(short.projected_exposure, -205);
    assert_eq!(long.allowed, short.allowed);
    assert!(!long.allowed);
}

#[test]
fn sum_above_the_position_range_is_an_overflow() {
    let got = evaluate(&config(u64::MAX), &info(i64::MAX, 0, 0, 0), OrderSide::Long, 1);
    assert_eq!(got, Err(RiskError::ExposureOverflow));
    let got = evaluate(&config(u64::MAX), &info(i64::MAX, i64::MAX, i64::MAX, 0), OrderSide::Long, i64::MAX);
    assert_eq!(got, Err(RiskError::ExposureOverflow));
    let got = evaluate(&config(5), &info(i64::MAX - 10, 4, 4, 0), OrderSide::Long, 3);
    assert_eq!(got, Err(RiskError::ExposureOverflow));
}

#[test]
fn sum_below_the_position_range_is_an_overflow() {
    let got = evaluate(&config(u64::MAX), &info(i64::MIN, 0, 0, 0), OrderSide::Short, 1);
    assert_eq!(got, Err(RiskError::ExposureOverflow));
    let got = evaluate(&config(u64::MAX), &info(i64::MIN, i64::MIN, 0, i64::MAX), OrderSide::Short, i64::MAX);
    assert_eq!(got, Err(RiskError::ExposureOverflow));
}

#[test]
fn large_terms_that_cancel_are_no_overflow() {
    let got = evaluate(&config(10), &info(i64::MAX, i64::MIN, 0, 0), OrderSide::Long, 0);
    assert_eq!(got, decision(true, -1, 10));
    let got = evaluate(&config(10), &info(i64::MAX, i64::MAX, 0, i64::MAX), OrderSide::Short, i64::MAX);
    assert_eq!(got, decision(true, 0, 10));
    let got = evaluate(&config(10), &info(i64::MIN, i64::MIN, i64::MAX, 0), OrderSide::Long, i64::MAX);
    assert_eq!(got, decision(true, -2, 10));
}

#[test]
fn negative_order_amount_is_rejected() {
    let got = evaluate(&config(200), &info(100, 0, 50, 0), OrderSide::Long, -1);
    assert_eq!(got, Err(RiskError::NegativeQuantity));
    let got = evaluate(&config(200), &info(100, 0, 50, 0), OrderSide::Short, i64::MIN);
    assert_eq!(got, Err(RiskError::NegativeQuantity));
}

#[test]
fn negative_resting_quantity_is_rejected() {
    let got = evaluate(&config(200), &info(100, 0, -1, 0), OrderSide::Long, 40);
    assert_eq!(got, Err(RiskError::NegativeQuantity));
    let got = evaluate(&config(200), &info(100, 0, 50, -1), OrderSide::Long, 40);
    assert_eq!(got, Err(RiskError::NegativeQuantity));
    let got = evaluate(&config(200), &info(100, 0, -1, 50), OrderSide::Short, 40);
    assert_eq!(got, Err(RiskError::NegativeQuantity));
}

#[test]
fn signals_of_another_market_are_rejected() {
    let mut other = info(100, 0, 50, 0);
    other.market_index = 4;
    let got = evaluate(&config(200), &other, OrderSide::Long, 40);
    assert_eq!(got, Err(RiskError::InvalidMarketIndex));
}

#[test]
fn first_failing_condition_decides_the_error() {
    let mut other = info(i64::MAX, 0, -1, 0);
    other.market_index = 0;
    assert_eq!(evaluate(&config(200), &other, OrderSide::Long, -5), Err(RiskError::InvalidMarketIndex));
    let negative = info(i64::MAX, i64::MAX, 0, -1);
    assert_eq!(evaluate(&config(200), &negative, OrderSide::Long, 5), Err(RiskError::NegativeQuantity));
}
