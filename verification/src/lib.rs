//! Pre-trade risk guard for a derivatives trading account.
//!
//! Before an order proceeds, the guard projects the account's exposure in one
//! market from four position signals and the incoming order, and compares the
//! projection with the bound that the account's authority configured.
//!
//! - [`types`]: the values that pass between caller and library.
//! - [`config`]: creating a configuration record and testing a claim to it.
//! - [`store`]: a store of such records in memory.
//! - [`venue`]: the venue's account state, as far as it is read.
//! - [`exposure`]: the projection and the decision.
//! - [`check`]: the whole check, from the caller's claim to the decision.
//! - [`laws`]: what holds of the decision on every input.

pub mod types;
pub mod config;
pub mod store;
pub mod venue;
pub mod exposure;
pub mod check;
pub mod laws;

pub use check::{check_risk, CheckRisk};
pub use config::{initialize, Initialize};
pub use types::{MarketInfo, MarketType, OrderSide, RiskCheckerAccount};
pub use venue::get_mango_account_info;
