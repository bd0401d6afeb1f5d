//! The allowance subsystem: per (owner, spender) authorization to move up
//! to an amount of instruments on the owner's behalf, bounded by a ledger
//! height.  An expired record is lazily treated as zero — no operation ever
//! needs to clear it.

use vstd::prelude::*;
use crate::events::ApproveEvent;
use crate::events::Event;
use crate::state::CarbonAsset;
use crate::state::pair_key;
use crate::types::Account;
use crate::types::AllowanceData;
use crate::types::ContractError;

verus! {

broadcast use vstd::std_specs::hash::group_hash_axioms;

impl CarbonAsset {
    /// The amount `spender` may currently move on `from`'s behalf at ledger
    /// height `current_ledger`: zero when no record exists or the record
    /// has expired, the stored amount otherwise.
    pub fn allowance(&self, from: Account, spender: Account, current_ledger: u32) -> (r: i128)
        ensures
            r == self.spec_allowance(from, spender, current_ledger),
    {
        let key = pair_key(from, spender);
        match self.allowances.get(&key) {
            Some(a) => if a.live_until_ledger < current_ledger {
                0
            } else {
                a.amount
            },
            None => 0,
        }
    }

    /// Grants `spender` an allowance of `amount` valid through ledger
    /// height `live_until_ledger`, overwriting any earlier record, and
    /// publishes an `Approve` event.  A nonzero amount whose expiry already
    /// lies behind the current height is rejected with
    /// `InvalidStatusTransition`, the interface's invalid-argument kind.
    /// The host attests that `from` authorized the call.
    pub fn approve(
        &mut self,
        from: Account,
        spender: Account,
        amount: i128,
        live_until_ledger: u32,
        current_ledger: u32,
    ) -> (r: Result<(), ContractError>)
        requires
            old(self).wf(),
        ensures
            final(self).wf(),
            match r {
                Ok(()) => {
                    &&& !(amount != 0 && live_until_ledger < current_ledger)
                    &&& final(self).allowances@ == old(self).allowances@.insert(
                        pair_key(from, spender),
                        AllowanceData { amount, live_until_ledger },
                    )
                    &&& final(self).config == old(self).config
                    &&& final(self).tokens@ == old(self).tokens@
                    &&& final(self).owner_tokens@ == old(self).owner_tokens@
                    &&& final(self).events@ == old(self).events@.push(
                        Event::Approve(
                            ApproveEvent { from, spender, amount, live_until_ledger },
                        ),
                    )
                },
                Err(e) => {
                    &&& *final(self) == *old(self)
                    &&& e == ContractError::InvalidStatusTransition
                    &&& amount != 0 && live_until_ledger < current_ledger
                },
            },
    {
        if amount != 0 && live_until_ledger < current_ledger {
            return Err(ContractError::InvalidStatusTransition);
        }
        let key = pair_key(from, spender);
        self.allowances.insert(key, AllowanceData { amount, live_until_ledger });
        self.events.push(
            Event::Approve(ApproveEvent { from, spender, amount, live_until_ledger }),
        );
        Ok(())
    }

    /// Computes the allowance record left after `spender` draws `amount`
    /// from `from`'s allowance at the given height: the stored record (or a
    /// zeroed default), its amount treated as zero when expired, less the
    /// draw.  Fails `NotAuthorized` when the available amount is smaller
    /// than the draw.  Computing and persisting are split so the transfer
    /// orchestrator can combine the spend with a transfer as one
    /// all-or-nothing unit; the caller stores the returned record.
    pub(crate) fn spend_allowance(
        &self,
        from: Account,
        spender: Account,
        amount: i128,
        current_ledger: u32,
    ) -> (r: Result<AllowanceData, ContractError>)
        requires
            self.spec_allowance(from, spender, current_ledger) - amount <= i128::MAX,
        ensures
            match r {
                Ok(a) => {
                    &&& self.spec_allowance(from, spender, current_ledger) >= amount
                    &&& a.amount == self.spec_allowance(from, spender, current_ledger) - amount
                    &&& a.live_until_ledger == match self.spec_allowance_record(from, spender) {
                        Some(rec) => rec.live_until_ledger,
                        None => 0u32,
                    }
                },
                Err(e) => {
                    &&& e == ContractError::NotAuthorized
                    &&& self.spec_allowance(from, spender, current_ledger) < amount
                },
            },
    {
        let key = pair_key(from, spender);
        let mut record = match self.allowances.get(&key) {
            Some(a) => *a,
            None => AllowanceData { amount: 0, live_until_ledger: 0 },
        };
        if record.live_until_ledger < current_ledger {
            record.amount = 0;
        }
        if record.amount < amount {
            return Err(ContractError::NotAuthorized);
        }
        record.amount = record.amount - amount;
        Ok(record)
    }
}

} // verus!
