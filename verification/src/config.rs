//! The configuration record of an authority for one market: how it is
//! created, and how a caller's claim to it is tested.
//!
//! Where a record lives is the storage layer's business. It derives one
//! address from the authority and the market, and hands over what it found
//! there: a record, or nothing.

use vstd::prelude::*;
use crate::types::{Identity, RiskCheckerAccount, RiskError};

verus! {

/// What an initialisation works on: the caller, the addressing token that the
/// storage layer derived, and the slot at the caller's address for the market.
#[derive(Clone, Copy, Debug, PartialEq, Eq)]
pub struct Initialize {
    /// The caller, who becomes the record's authority.
    pub authority: Identity,
    /// The addressing token to keep in the record.
    pub bump: u8,
    /// The slot: `None` while no configuration was created there.
    pub risk_checker_account: Option<RiskCheckerAccount>,
}

/// The record that a successful initialisation leaves in the slot.
pub open spec fn created_record(
    authority: Identity,
    bump: u8,
    market_index: u8,
    valid_range: u64,
) -> RiskCheckerAccount {
    RiskCheckerAccount { authority, bump, market_index, valid_range }
}

/// Creates the caller's configuration for `market_index` with the bound
/// `valid_range`.
///
/// A slot that already holds a record is left as it is and the call fails:
/// creating twice is an error, not a repetition without effect.
pub fn initialize(ctx: &mut Initialize, market_index: u8, valid_range: u64) -> (outcome: Result<
    (),
    RiskError,
>)
    ensures
        final(ctx).authority == old(ctx).authority,
        final(ctx).bump == old(ctx).bump,
        old(ctx).risk_checker_account is Some ==> {
            &&& outcome == Err::<(), RiskError>(RiskError::ConfigurationAlreadyExists)
            &&& *final(ctx) == *old(ctx)
        },
        old(ctx).risk_checker_account is None ==> {
            &&& outcome == Ok::<(), RiskError>(())
            &&& final(ctx).risk_checker_account == Some(
                created_record(old(ctx).authority, old(ctx).bump, market_index, valid_range),
            )
        },
{
    if ctx.risk_checker_account.is_some() {
        return Err(RiskError::ConfigurationAlreadyExists);
    }
    ctx.risk_checker_account = Some(
        RiskCheckerAccount { authority: ctx.authority, bump: ctx.bump, market_index, valid_range },
    );
    Ok(())
}

/// What a lookup owes the caller `authority` for the content `slot` of the
/// caller's address.
pub open spec fn load_outcome(slot: Option<RiskCheckerAccount>, authority: Identity) -> Result<
    RiskCheckerAccount,
    RiskError,
> {
    match slot {
        None => Err(RiskError::ConfigurationNotFound),
        Some(record) => if record.authority@ == authority@ {
            Ok(record)
        } else {
            Err(RiskError::AuthorityMismatch)
        },
    }
}

/// Hands out the record in `slot` if there is one and it belongs to
/// `authority`.
pub fn load(slot: &Option<RiskCheckerAccount>, authority: &Identity) -> (outcome: Result<
    RiskCheckerAccount,
    RiskError,
>)
    ensures
        outcome == load_outcome(*slot, *authority),
{
    match slot {
        None => Err(RiskError::ConfigurationNotFound),
        Some(record) => {
            if record.authority.same(authority) {
                Ok(*record)
            } else {
                Err(RiskError::AuthorityMismatch)
            }
        },
    }
}

} // verus!
