//! Minting: creation of new instruments.  Ids are assigned monotonically
//! from 1 and never re-used, a fresh token starts `Issued` with quality
//! score zero, and the minting owner receives it immediately.

use vstd::prelude::*;
use crate::events::Event;
use crate::events::MintEvent;
use crate::events::StatusChangeEvent;
use crate::state::CarbonAsset;
use crate::state::Config;
use crate::state::TokenEntry;
use crate::types::Account;
use crate::types::AssetStatus;
use crate::types::CarbonAssetMetadata;
use crate::types::ContractError;

verus! {

impl CarbonAsset {
    /// Mints a new token to `owner` and returns its id: the current value
    /// of the id counter, which moves on by one.  Admin only (the host
    /// attests that `caller` authorized the call); fails `NotInitialized`
    /// before setup and `NotAuthorized` for any other caller.  The id
    /// counter is a 32-bit value the host would trap on exhausting, so the
    /// registry must not be at the last assignable id.
    pub fn mint(&mut self, caller: Account, owner: Account, metadata: CarbonAssetMetadata) -> (r:
        Result<u32, ContractError>)
        requires
            old(self).wf(),
            old(self).token_count() + 2 <= u32::MAX,
        ensures
            final(self).wf(),
            match r {
                Ok(token_id) => {
                    &&& old(self).initialized()
                    &&& caller == old(self).spec_admin()
                    &&& token_id == old(self).spec_config().next_token_id
                    &&& token_id as int == old(self).token_count() + 1
                    &&& final(self).config == Some(
                        Config {
                            next_token_id: (token_id + 1) as u32,
                            ..old(self).spec_config()
                        },
                    )
                    &&& final(self).tokens@ == old(self).tokens@.push(
                        TokenEntry {
                            owner: Some(owner),
                            slot: old(self).owner_seq(owner).len() as usize,
                            metadata,
                            status: AssetStatus::Issued,
                            quality_score: 0,
                            burned: false,
                        },
                    )
                    &&& final(self).owner_seq(owner) == old(self).owner_seq(owner).push(token_id)
                    &&& final(self).spec_balance_of(owner) == old(self).spec_balance_of(owner) + 1
                    &&& forall|a: Account|
                        a != owner ==> final(self).owner_seq(a) == old(self).owner_seq(a)
                    &&& final(self).allowances@ == old(self).allowances@
                    &&& final(self).events@ == old(self).events@ + seq![
                        Event::Mint(
                            MintEvent {
                                token_id,
                                owner,
                                project_id: metadata.project_id,
                                vintage_year: metadata.vintage_year,
                                methodology_id: metadata.methodology_id,
                            },
                        ),
                        Event::StatusChange(
                            StatusChangeEvent {
                                token_id,
                                old_status: None,
                                new_status: AssetStatus::Issued,
                                changed_by: caller,
                            },
                        ),
                    ]
                },
                Err(e) => {
                    &&& *final(self) == *old(self)
                    &&& (e == ContractError::NotInitialized || e == ContractError::NotAuthorized)
                    &&& (e == ContractError::NotInitialized <==> !old(self).initialized())
                    &&& (e == ContractError::NotAuthorized <==> old(self).initialized() && caller
                        != old(self).spec_admin())
                },
            },
    {
        let admin = match self.get_admin() {
            Ok(a) => a,
            Err(e) => {
                return Err(e);
            },
        };
        if caller != admin {
            return Err(ContractError::NotAuthorized);
        }
        let token_id = match &self.config {
            Some(c) => c.next_token_id,
            None => unreached(),
        };
        let ghost pre = *old(self);
        let ghost meta0 = metadata;
        let project_id = metadata.project_id.clone();
        let vintage_year = metadata.vintage_year;
        let methodology_id = metadata.methodology_id;
        self.tokens.push(
            TokenEntry {
                owner: None,
                slot: 0,
                metadata,
                status: AssetStatus::Issued,
                quality_score: 0,
                burned: false,
            },
        );
        match &mut self.config {
            Some(c) => {
                c.next_token_id = token_id + 1;
            },
            None => unreached(),
        }
        let ghost mid = *self;
        self.add_token_to_owner(owner, token_id);
        proof {
            assert forall|a: Account| a != owner implies self.owner_seq(a) == pre.owner_seq(a) by {
                assert(self.owner_seq(a) == mid.owner_seq(a));
                assert(mid.owner_seq(a) == pre.owner_seq(a));
            }
        }
        self.events.push(
            Event::Mint(
                MintEvent { token_id, owner, project_id, vintage_year, methodology_id },
            ),
        );
        self.events.push(
            Event::StatusChange(
                StatusChangeEvent {
                    token_id,
                    old_status: None,
                    new_status: AssetStatus::Issued,
                    changed_by: caller,
                },
            ),
        );
        proof {
            let entry = TokenEntry {
                owner: Some(owner),
                slot: pre.owner_seq(owner).len() as usize,
                metadata: meta0,
                status: AssetStatus::Issued,
                quality_score: 0,
                burned: false,
            };
            assert(self.tokens@ =~= pre.tokens@.push(entry));
            assert(self.events@ =~= pre.events@ + seq![
                Event::Mint(
                    MintEvent {
                        token_id,
                        owner,
                        project_id: meta0.project_id,
                        vintage_year: meta0.vintage_year,
                        methodology_id: meta0.methodology_id,
                    },
                ),
                Event::StatusChange(
                    StatusChangeEvent {
                        token_id,
                        old_status: None,
                        new_status: AssetStatus::Issued,
                        changed_by: caller,
                    },
                ),
            ]);
        }
        Ok(token_id)
    }
}

} // verus!
