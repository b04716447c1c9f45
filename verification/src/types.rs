//! The value types shared by the configuration store and the risk evaluator.

use vstd::prelude::*;

verus! {

/// The identity of an account holder: the 32 bytes of its public key.
#[derive(Clone, Copy, Debug, PartialEq, Eq)]
pub struct Identity {
    pub bytes: [u8; 32],
}

impl View for Identity {
    type V = Seq<u8>;

    open spec fn view(&self) -> Seq<u8> {
        self.bytes@
    }
}

impl Identity {
    /// Wraps the bytes of a public key.
    pub fn new(bytes: [u8; 32]) -> (id: Identity)
        ensures
            id@ == bytes@,
            id.bytes == bytes,
    {
        Identity { bytes }
    }

    /// Whether two identities hold the same 32 bytes.
    pub fn same(&self, other: &Identity) -> (equal: bool)
        ensures
            equal == (self@ == other@),
    {
        let mut i: usize = 0;
        while i < 32
            invariant
                i <= 32,
                forall|j: int| 0 <= j < i ==> self.bytes@[j] == other.bytes@[j],
            decreases 32 - i,
        {
            if self.bytes[i] != other.bytes[i] {
                return false;
            }
            i += 1;
        }
        proof {
            assert(self.bytes@ =~= other.bytes@);
        }
        true
    }
}

/// Which accounting rules a market follows.
#[derive(Clone, Copy, Debug, PartialEq, Eq)]
pub enum MarketType {
    Perp,
    Spot,
}

/// The direction of an order.
#[derive(Clone, Copy, Debug, PartialEq, Eq)]
pub enum OrderSide {
    Long,
    Short,
}

/// Why a check ended without a decision.
#[derive(Clone, Copy, Debug, PartialEq, Eq)]
pub enum RiskError {
    /// A configuration already exists for this authority and market.
    ConfigurationAlreadyExists,
    /// No configuration exists for this authority and market.
    ConfigurationNotFound,
    /// The stored configuration belongs to another authority.
    AuthorityMismatch,
    /// The market is of a type whose accounting the guard does not cover.
    UnsupportedMarketType,
    /// The market of the position signals is not the configured one, or the
    /// venue has no position slot for it.
    InvalidMarketIndex,
    /// An order quantity or a resting quantity is below zero.
    NegativeQuantity,
    /// The projected exposure does not fit the position type.
    ExposureOverflow,
}

/// The bound that an authority configured for one market.
#[derive(Clone, Copy, Debug, PartialEq, Eq)]
pub struct RiskCheckerAccount {
    /// The only identity that may use this configuration.
    pub authority: Identity,
    /// Addressing token of the storage layer; the evaluator never reads it.
    pub bump: u8,
    /// The market that this configuration governs.
    pub market_index: u8,
    /// The largest absolute exposure permitted, in base lots.
    pub valid_range: u64,
}

impl Default for RiskCheckerAccount {
    /// The record of a slot that was allotted but not yet written: every byte
    /// and every figure zero.
    fn default() -> (record: RiskCheckerAccount)
        ensures
            record.authority@ == Seq::new(32, |i: int| 0u8),
            record.bump == 0,
            record.market_index == 0,
            record.valid_range == 0,
    {
        let zero = Identity::new([0u8; 32]);
        proof {
            assert(zero@ =~= Seq::new(32, |i: int| 0u8));
        }
        RiskCheckerAccount { authority: zero, bump: 0, market_index: 0, valid_range: 0 }
    }
}

/// The four position signals of one account in one market, taken fresh from
/// the venue for a single check.
#[derive(Clone, Copy, Debug, PartialEq, Eq)]
pub struct MarketInfo {
    /// The market that the signals were read for.
    pub market_index: u8,
    /// Confirmed net position; positive is net long.
    pub perp_position: i64,
    /// Fills executed but not yet folded into the position.
    pub perp_unconsumed_position: i64,
    /// Total quantity resting in open bids. Never negative in a sound snapshot.
    pub perp_long_order_quantity: i64,
    /// Total quantity resting in open asks. Never negative in a sound snapshot.
    pub perp_short_order_quantity: i64,
}

/// What the evaluator decided, and on what figures.
#[derive(Clone, Copy, Debug, PartialEq, Eq)]
pub struct RiskDecision {
    /// Whether the order may proceed.
    pub allowed: bool,
    /// The exposure the account would hold in the worst case.
    pub projected_exposure: i64,
    /// The configured bound that the exposure was held against.
    pub bound: u64,
}

} // verus!
