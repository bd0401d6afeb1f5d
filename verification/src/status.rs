//! The status state machine (`Issued → Listed/Locked → Retired/Invalidated`)
//! and the quality-score updates.  All transitions funnel through one
//! internal setter that treats a same-status write as a success without
//! mutation or event and refuses to move a frozen token.

use vstd::prelude::*;
use crate::events::Event;
use crate::events::QualityScoreUpdatedEvent;
use crate::events::StatusChangeEvent;
use crate::state::CarbonAsset;
use crate::state::Config;
use crate::state::TokenEntry;
use crate::types::Account;
use crate::types::AssetStatus;
use crate::types::ContractError;

verus! {

impl CarbonAsset {
    /// The single internal transition: a no-op when the status already
    /// matches (success, no event), `StatusFrozen` when the current status
    /// is terminal, otherwise the write plus a `StatusChange` event naming
    /// the acting account.
    pub(crate) fn set_status_internal(
        &mut self,
        token_id: u32,
        new_status: AssetStatus,
        changed_by: Account,
    ) -> (r: Result<(), ContractError>)
        requires
            old(self).wf(),
        ensures
            final(self).wf(),
            final(self).config == old(self).config,
            final(self).owner_tokens@ == old(self).owner_tokens@,
            final(self).allowances@ == old(self).allowances@,
            match r {
                Ok(()) => {
                    &&& old(self).has_token(token_id)
                    &&& (old(self).spec_token(token_id).status == new_status ==> *final(self)
                        == *old(self))
                    &&& (old(self).spec_token(token_id).status != new_status ==> {
                        &&& !old(self).spec_token(token_id).status.spec_is_frozen()
                        &&& final(self).tokens@ == old(self).tokens@.update(
                            token_id - 1,
                            TokenEntry {
                                status: new_status,
                                ..old(self).spec_token(token_id)
                            },
                        )
                        &&& final(self).events@ == old(self).events@.push(
                            Event::StatusChange(
                                StatusChangeEvent {
                                    token_id,
                                    old_status: Some(old(self).spec_token(token_id).status),
                                    new_status,
                                    changed_by,
                                },
                            ),
                        )
                    })
                },
                Err(e) => {
                    &&& *final(self) == *old(self)
                    &&& (e == ContractError::TokenNotFound || e == ContractError::StatusFrozen)
                    &&& (e == ContractError::TokenNotFound <==> !old(self).has_token(token_id))
                    &&& (e == ContractError::StatusFrozen <==> old(self).has_token(token_id)
                        && old(self).spec_token(token_id).status != new_status && old(
                        self,
                    ).spec_token(token_id).status.spec_is_frozen())
                },
            },
    {
        let current = match self.get_status(token_id) {
            Ok(s) => s,
            Err(e) => {
                return Err(e);
            },
        };
        if current == new_status {
            return Ok(());
        }
        if current.is_frozen() {
            return Err(ContractError::StatusFrozen);
        }
        let ghost pre = *old(self);
        self.tokens[(token_id - 1) as usize].status = new_status;
        self.events.push(
            Event::StatusChange(
                StatusChangeEvent { token_id, old_status: Some(current), new_status, changed_by },
            ),
        );
        proof {
            lemma_wf_after_entry_update(pre, *self, token_id);
        }
        Ok(())
    }

    /// Explicit admin-driven status change.  Rejects `Issued` as a target
    /// (the initial status is mint-only), refuses frozen tokens, and
    /// otherwise defers to the internal setter, so a same-status write
    /// succeeds without an event.  The host attests that `caller`
    /// authorized the call.
    pub fn set_status(&mut self, caller: Account, token_id: u32, new_status: AssetStatus) -> (r:
        Result<(), ContractError>)
        requires
            old(self).wf(),
        ensures
            final(self).wf(),
            match r {
                Ok(()) => {
                    &&& old(self).initialized()
                    &&& caller == old(self).spec_admin()
                    &&& old(self).has_token(token_id)
                    &&& !old(self).spec_token(token_id).status.spec_is_frozen()
                    &&& new_status != AssetStatus::Issued
                    &&& (old(self).spec_token(token_id).status == new_status ==> *final(self)
                        == *old(self))
                    &&& (old(self).spec_token(token_id).status != new_status ==> {
                        &&& final(self).config == old(self).config
                        &&& final(self).owner_tokens@ == old(self).owner_tokens@
                        &&& final(self).allowances@ == old(self).allowances@
                        &&& final(self).tokens@ == old(self).tokens@.update(
                            token_id - 1,
                            TokenEntry {
                                status: new_status,
                                ..old(self).spec_token(token_id)
                            },
                        )
                        &&& final(self).events@ == old(self).events@.push(
                            Event::StatusChange(
                                StatusChangeEvent {
                                    token_id,
                                    old_status: Some(old(self).spec_token(token_id).status),
                                    new_status,
                                    changed_by: caller,
                                },
                            ),
                        )
                    })
                },
                Err(e) => {
                    &&& *final(self) == *old(self)
                    &&& (e == ContractError::NotInitialized || e == ContractError::NotAuthorized
                        || e == ContractError::TokenNotFound || e == ContractError::StatusFrozen
                        || e == ContractError::InvalidStatusTransition)
                    &&& (e == ContractError::NotInitialized <==> !old(self).initialized())
                    &&& (e == ContractError::NotAuthorized <==> old(self).initialized() && caller
                        != old(self).spec_admin())
                    &&& (e == ContractError::TokenNotFound <==> old(self).initialized() && caller
                        == old(self).spec_admin() && !old(self).has_token(token_id))
                    &&& (e == ContractError::StatusFrozen <==> old(self).initialized() && caller
                        == old(self).spec_admin() && old(self).has_token(token_id) && old(
                        self,
                    ).spec_token(token_id).status.spec_is_frozen())
                    &&& (e == ContractError::InvalidStatusTransition <==> old(self).initialized()
                        && caller == old(self).spec_admin() && old(self).has_token(token_id)
                        && !old(self).spec_token(token_id).status.spec_is_frozen() && new_status
                        == AssetStatus::Issued)
                },
            },
    {
        let admin = match self.get_admin() {
            Ok(a) => a,
            Err(e) => {
                return Err(e);
            },
        };
        if caller != admin {
            return Err(ContractError::NotAuthorized);
        }
        let current = match self.get_status(token_id) {
            Ok(s) => s,
            Err(e) => {
                return Err(e);
            },
        };
        if current == AssetStatus::Retired || current == AssetStatus::Invalidated {
            return Err(ContractError::StatusFrozen);
        }
        if new_status == AssetStatus::Issued {
            return Err(ContractError::InvalidStatusTransition);
        }
        self.set_status_internal(token_id, new_status, caller)
    }

    /// Configures (or replaces) the quality-score oracle.  Admin only; the
    /// host attests that `caller` authorized the call.
    pub fn set_oracle(&mut self, caller: Account, oracle: Account) -> (r: Result<
        (),
        ContractError,
    >)
        requires
            old(self).wf(),
        ensures
            final(self).wf(),
            match r {
                Ok(()) => {
                    &&& old(self).initialized()
                    &&& caller == old(self).spec_admin()
                    &&& final(self).config == Some(
                        Config { oracle: Some(oracle), ..old(self).spec_config() },
                    )
                    &&& final(self).tokens@ == old(self).tokens@
                    &&& final(self).owner_tokens@ == old(self).owner_tokens@
                    &&& final(self).allowances@ == old(self).allowances@
                    &&& final(self).events@ == old(self).events@
                },
                Err(e) => {
                    &&& *final(self) == *old(self)
                    &&& (e == ContractError::NotInitialized || e == ContractError::NotAuthorized)
                    &&& (e == ContractError::NotInitialized <==> !old(self).initialized())
                    &&& (e == ContractError::NotAuthorized <==> old(self).initialized() && caller
                        != old(self).spec_admin())
                },
            },
    {
        let admin = match self.get_admin() {
            Ok(a) => a,
            Err(e) => {
                return Err(e);
            },
        };
        if caller != admin {
            return Err(ContractError::NotAuthorized);
        }
        match &mut self.config {
            Some(c) => {
                c.oracle = Some(oracle);
                Ok(())
            },
            None => unreached(),
        }
    }

    /// Rewrites a token's quality score.  Allowed to the admin and to the
    /// configured oracle; works on burned tokens too, whose scores stay
    /// part of the audit record.  The host attests that `caller` authorized
    /// the call.
    pub fn update_quality_score(&mut self, caller: Account, token_id: u32, new_score: i128) -> (r:
        Result<(), ContractError>)
        requires
            old(self).wf(),
        ensures
            final(self).wf(),
            match r {
                Ok(()) => {
                    &&& old(self).initialized()
                    &&& (caller == old(self).spec_admin() || old(self).spec_oracle() == Some(
                        caller,
                    ))
                    &&& old(self).has_token(token_id)
                    &&& final(self).config == old(self).config
                    &&& final(self).owner_tokens@ == old(self).owner_tokens@
                    &&& final(self).allowances@ == old(self).allowances@
                    &&& final(self).tokens@ == old(self).tokens@.update(
                        token_id - 1,
                        TokenEntry {
                            quality_score: new_score,
                            ..old(self).spec_token(token_id)
                        },
                    )
                    &&& final(self).events@ == old(self).events@.push(
                        Event::QualityScoreUpdated(
                            QualityScoreUpdatedEvent {
                                token_id,
                                old_score: old(self).spec_token(token_id).quality_score,
                                new_score,
                                updated_by: caller,
                            },
                        ),
                    )
                },
                Err(e) => {
                    &&& *final(self) == *old(self)
                    &&& (e == ContractError::NotInitialized || e == ContractError::NotAuthorized
                        || e == ContractError::TokenNotFound)
                    &&& (e == ContractError::NotInitialized <==> !old(self).initialized())
                    &&& (e == ContractError::NotAuthorized <==> old(self).initialized() && caller
                        != old(self).spec_admin() && old(self).spec_oracle() != Some(caller))
                    &&& (e == ContractError::TokenNotFound <==> old(self).initialized() && (caller
                        == old(self).spec_admin() || old(self).spec_oracle() == Some(caller))
                        && !old(self).has_token(token_id))
                },
            },
    {
        let admin = match self.get_admin() {
            Ok(a) => a,
            Err(e) => {
                return Err(e);
            },
        };
        if caller != admin {
            let authorized_oracle = match self.get_oracle() {
                Some(oracle) => caller == oracle,
                None => false,
            };
            if !authorized_oracle {
                return Err(ContractError::NotAuthorized);
            }
        }
        let old_score = match self.get_quality_score(token_id) {
            Ok(q) => q,
            Err(e) => {
                return Err(e);
            },
        };
        let ghost pre = *old(self);
        self.tokens[(token_id - 1) as usize].quality_score = new_score;
        self.events.push(
            Event::QualityScoreUpdated(
                QualityScoreUpdatedEvent { token_id, old_score, new_score, updated_by: caller },
            ),
        );
        proof {
            lemma_wf_after_entry_update(pre, *self, token_id);
        }
        Ok(())
    }
}

/// An update that keeps a token's `owner`, `slot` and `burned` fields (a
/// status or quality-score write) preserves the whole invariant.
proof fn lemma_wf_after_entry_update(pre: CarbonAsset, post: CarbonAsset, token_id: u32)
    requires
        pre.wf(),
        pre.has_token(token_id),
        post.config == pre.config,
        post.owner_tokens@ == pre.owner_tokens@,
        post.tokens@.len() == pre.tokens@.len(),
        forall|i: int|
            0 <= i < pre.tokens@.len() && i != token_id - 1 ==> post.tokens@[i] == pre.tokens@[i],
        post.spec_token(token_id).owner == pre.spec_token(token_id).owner,
        post.spec_token(token_id).slot == pre.spec_token(token_id).slot,
        post.spec_token(token_id).burned == pre.spec_token(token_id).burned,
    ensures
        post.wf(),
{
    assert forall|a: Account| #[trigger]
        post.owner_tokens@.contains_key(a) implies post.owner_seq(a) == pre.owner_seq(a) by {}
    assert forall|a: Account, j: int|
        post.owner_tokens@.contains_key(a) && 0 <= j < post.owner_seq(a).len() implies {
        &&& 1 <= post.owner_seq(a)[j]
        &&& post.owner_seq(a)[j] as int <= post.token_count()
        &&& post.spec_token(post.owner_seq(a)[j]).owner == Some(a)
        &&& post.spec_token(post.owner_seq(a)[j]).slot == j
    } by {
        assert(post.owner_seq(a) == pre.owner_seq(a));
        assert(pre.owner_seq(a)[j] == post.owner_seq(a)[j]);
        assert(pre.spec_token(pre.owner_seq(a)[j]).owner == Some(a));
    }
    assert forall|i: int|
        0 <= i < post.token_count() && (#[trigger] post.tokens@[i]).owner is Some implies {
        let a = post.tokens@[i].owner->Some_0;
        &&& post.owner_tokens@.contains_key(a)
        &&& (post.tokens@[i].slot as int) < post.owner_seq(a).len()
        &&& post.owner_seq(a)[post.tokens@[i].slot as int] == (i + 1) as u32
    } by {
        let a = post.tokens@[i].owner->Some_0;
        assert(pre.tokens@[i].owner == Some(a));
        assert(pre.owner_seq(a)[pre.tokens@[i].slot as int] == (i + 1) as u32);
        assert(post.owner_seq(a) == pre.owner_seq(a));
    }
}

} // verus!
