//! A configuration store in memory: at most one record for each pair of an
//! authority and a market.

use vstd::prelude::*;
use crate::config::{created_record, initialize, load, load_outcome, Initialize};
use crate::types::{Identity, RiskCheckerAccount, RiskError};

verus! {

/// Whether `record` is the configuration of `authority` for `market_index`.
pub open spec fn governs(record: RiskCheckerAccount, authority: Seq<u8>, market_index: u8) -> bool {
    record.authority@ == authority && record.market_index == market_index
}

/// The records created so far, oldest first.
pub struct ConfigStore {
    records: Vec<RiskCheckerAccount>,
}

impl View for ConfigStore {
    type V = Seq<RiskCheckerAccount>;

    closed spec fn view(&self) -> Seq<RiskCheckerAccount> {
        self.records@
    }
}

impl ConfigStore {
    /// No two records are for the same authority and market.
    pub open spec fn well_formed(&self) -> bool {
        forall|i: int, j: int|
            0 <= i < j < self@.len() ==> !governs(
                #[trigger] self@[j],
                (#[trigger] self@[i]).authority@,
                self@[i].market_index,
            )
    }

    /// Whether a record exists for the authority and the market.
    pub open spec fn holds(&self, authority: Seq<u8>, market_index: u8) -> bool {
        exists|i: int| 0 <= i < self@.len() && governs(#[trigger] self@[i], authority, market_index)
    }

    /// What the store keeps for the authority and the market: the one record
    /// that governs them, or nothing.
    pub open spec fn slot(&self, authority: Seq<u8>, market_index: u8) -> Option<
        RiskCheckerAccount,
    > {
        if self.holds(authority, market_index) {
            Some(
                self@[choose|i: int|
                    0 <= i < self@.len() && governs(#[trigger] self@[i], authority, market_index)],
            )
        } else {
            None
        }
    }

    /// In a well-formed store, a record that governs a pair is the pair's slot.
    pub proof fn lemma_governing_record_is_slot(&self, i: int, authority: Seq<u8>, market_index: u8)
        requires
            self.well_formed(),
            0 <= i < self@.len(),
            governs(self@[i], authority, market_index),
        ensures
            self.holds(authority, market_index),
            self.slot(authority, market_index) == Some(self@[i]),
    {
        let k = choose|k: int|
            0 <= k < self@.len() && governs(#[trigger] self@[k], authority, market_index);
        if k < i {
            assert(!governs(self@[i], self@[k].authority@, self@[k].market_index));
        } else if i < k {
            assert(!governs(self@[k], self@[i].authority@, self@[i].market_index));
        }
    }

    /// A store without records.
    pub fn new() -> (store: ConfigStore)
        ensures
            store@.len() == 0,
            store.well_formed(),
    {
        ConfigStore { records: Vec::new() }
    }

    /// The number of records.
    pub fn len(&self) -> (n: usize)
        ensures
            n == self@.len(),
    {
        self.records.len()
    }

    /// Looks up the slot of `authority` for `market_index`.
    pub fn find(&self, authority: &Identity, market_index: u8) -> (found: Option<
        RiskCheckerAccount,
    >)
        requires
            self.well_formed(),
        ensures
            found == self.slot(authority@, market_index),
            found matches Some(record) ==> governs(record, authority@, market_index),
    {
        let mut i: usize = 0;
        while i < self.records.len()
            invariant
                i <= self.records.len(),
                self.well_formed(),
                forall|j: int| 0 <= j < i ==> !governs(#[trigger] self@[j], authority@, market_index),
            decreases self.records.len() - i,
        {
            let record = self.records[i];
            if record.market_index == market_index && record.authority.same(authority) {
                proof {
                    self.lemma_governing_record_is_slot(i as int, authority@, market_index);
                }
                return Some(record);
            }
            i += 1;
        }
        None
    }

    /// Creates the configuration of `authority` for `market_index` with the
    /// bound `valid_range`, and hands out the new record.
    ///
    /// Fails, and changes nothing, if the pair already has a record.
    pub fn create(
        &mut self,
        authority: Identity,
        bump: u8,
        market_index: u8,
        valid_range: u64,
    ) -> (outcome: Result<RiskCheckerAccount, RiskError>)
        requires
            old(self).well_formed(),
        ensures
            final(self).well_formed(),
            old(self).holds(authority@, market_index) ==> {
                &&& outcome == Err::<RiskCheckerAccount, RiskError>(
                    RiskError::ConfigurationAlreadyExists,
                )
                &&& final(self)@ == old(self)@
            },
            !old(self).holds(authority@, market_index) ==> {
                &&& outcome == Ok::<RiskCheckerAccount, RiskError>(
                    created_record(authority, bump, market_index, valid_range),
                )
                &&& final(self)@ == old(self)@.push(
                    created_record(authority, bump, market_index, valid_range),
                )
                &&& final(self).slot(authority@, market_index) == Some(
                    created_record(authority, bump, market_index, valid_range),
                )
            },
            forall|other: Seq<u8>, market: u8|
                !(other == authority@ && market == market_index) ==> #[trigger] final(self).slot(
                    other,
                    market,
                ) == old(self).slot(other, market),
    {
        let mut ctx = Initialize {
            authority,
            bump,
            risk_checker_account: self.find(&authority, market_index),
        };
        match initialize(&mut ctx, market_index, valid_range) {
            Err(e) => Err(e),
            Ok(()) => {
                let record = RiskCheckerAccount { authority, bump, market_index, valid_range };
                let ghost before = self@;
                self.records.push(record);
                proof {
                    let last = before.len() as int;
                    assert(self@[last] == record);
                    assert forall|i: int, j: int| 0 <= i < j < self@.len() implies !governs(
                        #[trigger] self@[j],
                        (#[trigger] self@[i]).authority@,
                        self@[i].market_index,
                    ) by {
                        if j < last {
                            assert(self@[i] == before[i] && self@[j] == before[j]);
                        } else {
                            assert(self@[i] == before[i]);
                            assert(!governs(before[i], authority@, market_index));
                        }
                    }
                    self.lemma_governing_record_is_slot(last, authority@, market_index);
                    assert forall|other: Seq<u8>, market: u8|
                        !(other == authority@ && market == market_index) implies #[trigger] self.slot(
                        other,
                        market,
                    ) == old(self).slot(other, market) by {
                        if old(self).holds(other, market) {
                            let k = choose|k: int|
                                0 <= k < before.len() && governs(#[trigger] before[k], other, market);
                            assert(self@[k] == before[k]);
                            old(self).lemma_governing_record_is_slot(k, other, market);
                            self.lemma_governing_record_is_slot(k, other, market);
                        } else if self.holds(other, market) {
                            let k = choose|k: int|
                                0 <= k < self@.len() && governs(#[trigger] self@[k], other, market);
                            assert(k < last);
                            assert(self@[k] == before[k]);
                            assert(governs(before[k], other, market));
                        }
                    }
                }
                Ok(record)
            },
        }
    }

    /// Hands out the record of `authority` for `market_index`.
    ///
    /// Fails with `ConfigurationNotFound` exactly if the pair has no record.
    /// A record found under a caller's own key is the caller's, so no other
    /// error comes from here.
    pub fn load(&self, authority: &Identity, market_index: u8) -> (outcome: Result<
        RiskCheckerAccount,
        RiskError,
    >)
        requires
            self.well_formed(),
        ensures
            outcome == load_outcome(self.slot(authority@, market_index), *authority),
            self.holds(authority@, market_index) ==> outcome == Ok::<
                RiskCheckerAccount,
                RiskError,
            >(self.slot(authority@, market_index)->Some_0),
            !self.holds(authority@, market_index) ==> outcome == Err::<
                RiskCheckerAccount,
                RiskError,
            >(RiskError::ConfigurationNotFound),
    {
        let found = self.find(authority, market_index);
        load(&found, authority)
    }
}

} // verus!
