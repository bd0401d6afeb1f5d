//! The burn/retirement subsystem.  Burning permanently removes a token
//! from circulation — its owner record disappears and the burned flag is
//! set — while its metadata, final status and quality score stay queryable
//! as audit remnants.  Burning is the retirement tracker's privilege: the
//! host attests the tracker authorized every operation here.

use vstd::prelude::*;
use crate::events::Event;
use crate::events::Sep41BurnEvent;
use crate::state::CarbonAsset;
use crate::state::TokenEntry;
use crate::state::same_token_mod_slot;
use crate::transfer::burn_eligible;
use crate::transfer::eligible_at;
use crate::transfer::first_fit;
use crate::transfer::lemma_first_fit_prefix_full;
use crate::transfer::lemma_first_fit_props;
use crate::transfer::lemma_first_fit_push;
use crate::types::Account;
use crate::types::AssetStatus;
use crate::types::ContractError;

verus! {

broadcast use vstd::std_specs::hash::group_hash_axioms;

impl CarbonAsset {
    /// Burns one specific token currently owned by `from`: forces its
    /// status to `Retired` first if it is not there yet (publishing the
    /// `StatusChange`, attributed to the retirement tracker), then removes
    /// the owner record and sets the burned flag.  Fails `NotOwner` when
    /// `from` is not the owner, `TokenNotFound` for unknown or already
    /// burned tokens, and `StatusFrozen` for an `Invalidated` token, which
    /// may never burn.
    pub fn burn_token(&mut self, token_id: u32, from: Account) -> (r: Result<(), ContractError>)
        requires
            old(self).wf(),
        ensures
            final(self).wf(),
            match r {
                Ok(()) => {
                    &&& old(self).initialized()
                    &&& old(self).has_token(token_id)
                    &&& !old(self).spec_token(token_id).burned
                    &&& old(self).spec_token(token_id).owner == Some(from)
                    &&& old(self).spec_token(token_id).status != AssetStatus::Invalidated
                    &&& final(self).config == old(self).config
                    &&& final(self).allowances@ == old(self).allowances@
                    &&& final(self).tokens@.len() == old(self).tokens@.len()
                    &&& final(self).spec_token(token_id).owner is None
                    &&& final(self).spec_token(token_id).burned
                    &&& final(self).spec_token(token_id).status == AssetStatus::Retired
                    &&& final(self).spec_token(token_id).metadata == old(self).spec_token(
                        token_id,
                    ).metadata
                    &&& final(self).spec_token(token_id).quality_score == old(self).spec_token(
                        token_id,
                    ).quality_score
                    &&& forall|i: int|
                        0 <= i < old(self).token_count() && i != token_id - 1
                            ==> same_token_mod_slot(final(self).tokens@[i], old(self).tokens@[i])
                    &&& final(self).spec_balance_of(from) == old(self).spec_balance_of(from) - 1
                    &&& forall|a: Account|
                        a != from ==> final(self).owner_seq(a) == old(self).owner_seq(a)
                    &&& final(self).events@ == old(self).events@ + (if old(self).spec_token(
                        token_id,
                    ).status != AssetStatus::Retired {
                        seq![
                            Event::StatusChange(
                                crate::events::StatusChangeEvent {
                                    token_id,
                                    old_status: Some(old(self).spec_token(token_id).status),
                                    new_status: AssetStatus::Retired,
                                    changed_by: old(self).spec_retirement_tracker(),
                                },
                            ),
                        ]
                    } else {
                        Seq::<Event>::empty()
                    })
                },
                Err(e) => {
                    &&& *final(self) == *old(self)
                    &&& (e == ContractError::NotInitialized || e == ContractError::TokenNotFound
                        || e == ContractError::NotOwner || e == ContractError::StatusFrozen)
                    &&& (e == ContractError::NotInitialized <==> !old(self).initialized())
                    &&& (e == ContractError::TokenNotFound <==> old(self).initialized() && !(old(
                        self,
                    ).has_token(token_id) && !old(self).spec_token(token_id).burned))
                    &&& (e == ContractError::NotOwner <==> old(self).initialized() && old(
                        self,
                    ).has_token(token_id) && !old(self).spec_token(token_id).burned && old(
                        self,
                    ).spec_token(token_id).owner != Some(from))
                    &&& (e == ContractError::StatusFrozen <==> old(self).initialized() && old(
                        self,
                    ).has_token(token_id) && !old(self).spec_token(token_id).burned && old(
                        self,
                    ).spec_token(token_id).owner == Some(from) && old(self).spec_token(
                        token_id,
                    ).status == AssetStatus::Invalidated)
                },
            },
    {
        let retirement_tracker = match self.get_retirement_tracker() {
            Ok(t) => t,
            Err(e) => {
                return Err(e);
            },
        };
        let owner = match self.owner_of(token_id) {
            Ok(a) => a,
            Err(e) => {
                return Err(e);
            },
        };
        if owner != from {
            return Err(ContractError::NotOwner);
        }
        let burned = match self.is_burned(token_id) {
            Ok(b) => b,
            Err(_) => unreached(),
        };
        if burned {
            // `owner_of` already rejects burned tokens; the guard mirrors
            // the interface's stated order of checks.
            return Err(ContractError::TokenAlreadyBurned);
        }
        let status = match self.get_status(token_id) {
            Ok(s) => s,
            Err(_) => unreached(),
        };
        if status == AssetStatus::Invalidated {
            return Err(ContractError::StatusFrozen);
        }
        let ghost pre = *old(self);
        if status != AssetStatus::Retired {
            match self.set_status_internal(token_id, AssetStatus::Retired, retirement_tracker) {
                Ok(()) => {},
                Err(_) => unreached(),
            }
        }
        let ghost mid1 = *self;
        match self.remove_token_from_owner(from, token_id) {
            Ok(()) => {},
            Err(_) => unreached(),
        }
        self.tokens[(token_id - 1) as usize].burned = true;
        proof {
            let post = *self;
            assert(post.index_wf()) by {
                assert forall|a: Account, j: int|
                    post.owner_tokens@.contains_key(a) && 0 <= j < post.owner_seq(a).len() implies {
                    &&& 1 <= post.owner_seq(a)[j]
                    &&& post.owner_seq(a)[j] as int <= post.token_count()
                    &&& post.spec_token(post.owner_seq(a)[j]).owner == Some(a)
                    &&& post.spec_token(post.owner_seq(a)[j]).slot == j
                } by {
                    assert(post.owner_seq(a) == mid1.owner_seq(a).update(
                        mid1.spec_token(token_id).slot as int,
                        mid1.owner_seq(a).last(),
                    ).drop_last() || post.owner_seq(a) == mid1.owner_seq(a)) by {
                        if a != from {
                            assert(post.owner_seq(a) == mid1.owner_seq(a));
                        }
                    }
                    assert(post.owner_seq(a)[j] != token_id);
                }
                assert forall|i: int|
                    0 <= i < post.token_count() && (#[trigger] post.tokens@[i]).owner is Some implies {
                    let a = post.tokens@[i].owner->Some_0;
                    &&& post.owner_tokens@.contains_key(a)
                    &&& (post.tokens@[i].slot as int) < post.owner_seq(a).len()
                    &&& post.owner_seq(a)[post.tokens@[i].slot as int] == (i + 1) as u32
                } by {
                    assert(i != token_id - 1);
                }
            }
            assert forall|i: int|
                0 <= i < post.token_count() implies (((#[trigger] post.tokens@[i]).owner is None)
                <==> post.tokens@[i].burned) by {
                if i != token_id - 1 {
                    assert(same_token_mod_slot(mid1.tokens@[i], pre.tokens@[i]));
                }
            }
            if pre.spec_token(token_id).status != AssetStatus::Retired {
                assert(self.events@ =~= pre.events@ + seq![
                    Event::StatusChange(
                        crate::events::StatusChangeEvent {
                            token_id,
                            old_status: Some(pre.spec_token(token_id).status),
                            new_status: AssetStatus::Retired,
                            changed_by: pre.spec_retirement_tracker(),
                        },
                    ),
                ]);
            } else {
                assert(self.events@ =~= pre.events@ + Seq::<Event>::empty());
            }
            assert forall|a: Account| a != from implies self.owner_seq(a) == pre.owner_seq(a) by {
                assert(self.owner_seq(a) == mid1.owner_seq(a));
                assert(mid1.owner_seq(a) == pre.owner_seq(a));
            }
            assert(self.spec_balance_of(from) == pre.spec_balance_of(from) - 1) by {
                assert(mid1.owner_seq(from) == pre.owner_seq(from));
            }
        }
        Ok(())
    }

    /// Resolves, in `owner`'s current sequence order, the first `amount`
    /// ids whose tokens are retired and not burned.  Fails
    /// `TransferNotAllowed` when fewer qualify.
    pub(crate) fn collect_retired_tokens(&self, owner: Account, amount: i128) -> (r: Result<
        Vec<u32>,
        ContractError,
    >)
        requires
            self.wf(),
            amount >= 1,
        ensures
            match r {
                Ok(ids) => {
                    &&& ids@ == self.spec_burn_selection(owner, amount as int)
                    &&& ids@.len() == amount
                },
                Err(e) => {
                    &&& e == ContractError::TransferNotAllowed
                    &&& self.spec_burn_selection(owner, amount as int).len() < amount
                },
            },
    {
        let ghost pred = |t: TokenEntry| burn_eligible(t);
        let ghost s = self.owner_seq(owner);
        let list = match self.owner_tokens.get(&owner) {
            Some(l) => l,
            None => {
                proof {
                    assert(first_fit(self.tokens@, s, amount as int, pred) =~= Seq::<u32>::empty());
                }
                return Err(ContractError::TransferNotAllowed);
            },
        };
        let mut selected: Vec<u32> = Vec::new();
        let mut i: usize = 0;
        proof {
            assert(s.take(0) =~= Seq::<u32>::empty());
        }
        while i < list.len()
            invariant
                self.wf(),
                list@ == s,
                s == self.owner_seq(owner),
                self.owner_tokens@.contains_key(owner),
                pred == (|t: TokenEntry| burn_eligible(t)),
                amount >= 1,
                0 <= i <= list.len(),
                selected@ == first_fit(self.tokens@, s.take(i as int), amount as int, pred),
                selected@.len() < amount,
            decreases list.len() - i,
        {
            let token_id = list[i];
            proof {
                assert(s[i as int] == token_id);
                assert(self.spec_token(token_id).owner == Some(owner));
            }
            let burned = match self.is_burned(token_id) {
                Ok(b) => b,
                Err(_) => unreached(),
            };
            if !burned {
                let status = match self.get_status(token_id) {
                    Ok(st) => st,
                    Err(_) => unreached(),
                };
                if status == AssetStatus::Retired {
                    selected.push(token_id);
                }
            }
            proof {
                assert(s.take(i + 1) =~= s.take(i as int).push(token_id));
                lemma_first_fit_push(self.tokens@, s.take(i as int), token_id, amount as int, pred);
            }
            if selected.len() as i128 == amount {
                proof {
                    lemma_first_fit_prefix_full(self.tokens@, s, i + 1, amount as int, pred);
                }
                return Ok(selected);
            }
            i = i + 1;
        }
        proof {
            assert(s.take(i as int) =~= s);
        }
        Err(ContractError::TransferNotAllowed)
    }

    /// Count-based burn: rejects a non-positive amount with
    /// `InvalidStatusTransition`, takes the first-fit selection of retired
    /// tokens (failing `TransferNotAllowed` when fewer than `amount`
    /// qualify), burns each, and publishes one batch burn event.  The
    /// selected tokens are already retired, so no per-token event appears.
    pub(crate) fn burn_amount_internal(&mut self, from: Account, amount: i128) -> (r: Result<
        (),
        ContractError,
    >)
        requires
            old(self).wf(),
        ensures
            final(self).wf(),
            match r {
                Ok(()) => {
                    let taken = old(self).spec_burn_selection(from, amount as int);
                    &&& 1 <= amount
                    &&& taken.len() == amount
                    &&& final(self).config == old(self).config
                    &&& final(self).allowances@ == old(self).allowances@
                    &&& final(self).tokens@.len() == old(self).tokens@.len()
                    &&& forall|j: int|
                        0 <= j < taken.len() ==> {
                            &&& final(self).spec_token(#[trigger] taken[j]).owner is None
                            &&& final(self).spec_token(taken[j]).burned
                            &&& final(self).spec_token(taken[j]).status == AssetStatus::Retired
                            &&& final(self).spec_token(taken[j]).metadata == old(self).spec_token(
                                taken[j],
                            ).metadata
                            &&& final(self).spec_token(taken[j]).quality_score == old(
                                self,
                            ).spec_token(taken[j]).quality_score
                        }
                    &&& forall|k: int|
                        0 <= k < old(self).token_count() && !taken.contains((k + 1) as u32)
                            ==> same_token_mod_slot(final(self).tokens@[k], old(self).tokens@[k])
                    &&& final(self).spec_balance_of(from) == old(self).spec_balance_of(from)
                        - amount
                    &&& forall|a: Account|
                        a != from ==> final(self).owner_seq(a) == old(self).owner_seq(a)
                    &&& final(self).events@ == old(self).events@.push(
                        Event::Sep41Burn(Sep41BurnEvent { from, amount }),
                    )
                },
                Err(e) => {
                    &&& *final(self) == *old(self)
                    &&& (e == ContractError::InvalidStatusTransition || e
                        == ContractError::TransferNotAllowed)
                    &&& (e == ContractError::InvalidStatusTransition <==> amount <= 0)
                    &&& (e == ContractError::TransferNotAllowed <==> 1 <= amount && old(
                        self,
                    ).spec_burn_selection(from, amount as int).len() < amount)
                },
            },
    {
        if amount <= 0 {
            return Err(ContractError::InvalidStatusTransition);
        }
        let token_ids = match self.collect_retired_tokens(from, amount) {
            Ok(v) => v,
            Err(e) => {
                return Err(e);
            },
        };
        let ghost pre = *old(self);
        let ghost pred = |t: TokenEntry| burn_eligible(t);
        let ghost taken = token_ids@;
        proof {
            lemma_first_fit_props(pre.tokens@, pre.owner_seq(from), amount as int, pred);
            pre.lemma_owner_seq_distinct(from);
            assert forall|j: int| 0 <= j < taken.len() implies pre.spec_token(
                #[trigger] taken[j],
            ).owner == Some(from) by {
                assert(pre.owner_seq(from).contains(taken[j]));
                let k = choose|k: int|
                    0 <= k < pre.owner_seq(from).len() && pre.owner_seq(from)[k] == taken[j];
                assert(pre.spec_token(pre.owner_seq(from)[k]).owner == Some(from));
            }
            assert(pre.has_token(taken[0]));
        }
        let mut i: usize = 0;
        while i < token_ids.len()
            invariant
                0 <= i <= token_ids.len(),
                token_ids@ == taken,
                taken == pre.spec_burn_selection(from, amount as int),
                taken.len() == amount,
                1 <= amount,
                taken.no_duplicates(),
                pred == (|t: TokenEntry| burn_eligible(t)),
                forall|j: int| 0 <= j < taken.len() ==> eligible_at(pre.tokens@, #[trigger] taken[j], pred),
                forall|j: int|
                    0 <= j < taken.len() ==> pre.spec_token(#[trigger] taken[j]).owner == Some(
                        from,
                    ),
                pre.wf(),
                self.wf(),
                self.config == pre.config,
                self.allowances@ == pre.allowances@,
                self.tokens@.len() == pre.tokens@.len(),
                forall|j: int|
                    i <= j < taken.len() ==> same_token_mod_slot(
                        self.spec_token(#[trigger] taken[j]),
                        pre.spec_token(taken[j]),
                    ),
                forall|j: int|
                    0 <= j < i ==> {
                        &&& self.spec_token(#[trigger] taken[j]).owner is None
                        &&& self.spec_token(taken[j]).burned
                        &&& self.spec_token(taken[j]).status == AssetStatus::Retired
                        &&& self.spec_token(taken[j]).metadata == pre.spec_token(taken[j]).metadata
                        &&& self.spec_token(taken[j]).quality_score == pre.spec_token(
                            taken[j],
                        ).quality_score
                    },
                forall|k: int|
                    0 <= k < pre.token_count() && !taken.contains((k + 1) as u32)
                        ==> same_token_mod_slot(self.tokens@[k], pre.tokens@[k]),
                self.spec_balance_of(from) == pre.spec_balance_of(from) - i,
                forall|a: Account| a != from ==> self.owner_seq(a) == pre.owner_seq(a),
                self.events@ == pre.events@,
            decreases token_ids.len() - i,
        {
            let token_id = token_ids[i];
            let ghost snap = *self;
            proof {
                assert(taken[i as int] == token_id);
                assert(same_token_mod_slot(snap.spec_token(token_id), pre.spec_token(token_id)));
                assert(eligible_at(pre.tokens@, token_id, pred));
                assert(snap.initialized()) by {
                    assert(snap.has_token(token_id));
                }
            }
            match self.burn_token(token_id, from) {
                Ok(()) => {},
                Err(_) => {
                    // Every selected token exists, is owned by `from`, and
                    // is retired, so the by-id burn cannot fail.
                    unreached()
                },
            }
            proof {
                assert forall|j: int|
                    i + 1 <= j < taken.len() implies same_token_mod_slot(
                    self.spec_token(#[trigger] taken[j]),
                    pre.spec_token(taken[j]),
                ) by {
                    assert(taken[j] != token_id);
                    assert(same_token_mod_slot(
                        self.tokens@[taken[j] as int - 1],
                        snap.tokens@[taken[j] as int - 1],
                    ));
                }
                assert forall|k: int|
                    0 <= k < pre.token_count() && !taken.contains((k + 1) as u32) implies
                    same_token_mod_slot(self.tokens@[k], pre.tokens@[k]) by {
                    assert(k != token_id - 1) by {
                        assert(taken.contains(taken[i as int]));
                    }
                    assert(same_token_mod_slot(self.tokens@[k], snap.tokens@[k]));
                }
                assert(self.events@ =~= pre.events@);
            }
            i = i + 1;
        }
        self.events.push(Event::Sep41Burn(Sep41BurnEvent { from, amount }));
        Ok(())
    }

    /// Count-based burn of `amount` retired tokens held by `from`.  The
    /// host attests that the retirement tracker authorized the call; fails
    /// `NotInitialized` before setup.
    pub fn burn(&mut self, from: Account, amount: i128) -> (r: Result<(), ContractError>)
        requires
            old(self).wf(),
        ensures
            final(self).wf(),
            match r {
                Ok(()) => {
                    let taken = old(self).spec_burn_selection(from, amount as int);
                    &&& old(self).initialized()
                    &&& 1 <= amount
                    &&& taken.len() == amount
                    &&& final(self).config == old(self).config
                    &&& final(self).allowances@ == old(self).allowances@
                    &&& final(self).tokens@.len() == old(self).tokens@.len()
                    &&& forall|j: int|
                        0 <= j < taken.len() ==> {
                            &&& final(self).spec_token(#[trigger] taken[j]).owner is None
                            &&& final(self).spec_token(taken[j]).burned
                            &&& final(self).spec_token(taken[j]).status == AssetStatus::Retired
                        }
                    &&& forall|k: int|
                        0 <= k < old(self).token_count() && !taken.contains((k + 1) as u32)
                            ==> same_token_mod_slot(final(self).tokens@[k], old(self).tokens@[k])
                    &&& final(self).spec_balance_of(from) == old(self).spec_balance_of(from)
                        - amount
                    &&& forall|a: Account|
                        a != from ==> final(self).owner_seq(a) == old(self).owner_seq(a)
                    &&& final(self).events@ == old(self).events@.push(
                        Event::Sep41Burn(Sep41BurnEvent { from, amount }),
                    )
                },
                Err(e) => {
                    &&& *final(self) == *old(self)
                    &&& (e == ContractError::NotInitialized || e
                        == ContractError::InvalidStatusTransition || e
                        == ContractError::TransferNotAllowed)
                    &&& (e == ContractError::NotInitialized <==> !old(self).initialized())
                    &&& (e == ContractError::InvalidStatusTransition <==> old(self).initialized()
                        && amount <= 0)
                    &&& (e == ContractError::TransferNotAllowed <==> old(self).initialized() && 1
                        <= amount && old(self).spec_burn_selection(from, amount as int).len()
                        < amount)
                },
            },
    {
        match self.get_retirement_tracker() {
            Ok(_) => {},
            Err(e) => {
                return Err(e);
            },
        }
        self.burn_amount_internal(from, amount)
    }

    /// Count-based burn invoked by an explicit spender, who must be the
    /// retirement tracker itself (`NotAuthorized` otherwise).  The host
    /// attests that the tracker authorized the call.
    pub fn burn_from(&mut self, spender: Account, from: Account, amount: i128) -> (r: Result<
        (),
        ContractError,
    >)
        requires
            old(self).wf(),
        ensures
            final(self).wf(),
            match r {
                Ok(()) => {
                    let taken = old(self).spec_burn_selection(from, amount as int);
                    &&& old(self).initialized()
                    &&& spender == old(self).spec_retirement_tracker()
                    &&& 1 <= amount
                    &&& taken.len() == amount
                    &&& final(self).config == old(self).config
                    &&& final(self).allowances@ == old(self).allowances@
                    &&& final(self).tokens@.len() == old(self).tokens@.len()
                    &&& forall|j: int|
                        0 <= j < taken.len() ==> {
                            &&& final(self).spec_token(#[trigger] taken[j]).owner is None
                            &&& final(self).spec_token(taken[j]).burned
                            &&& final(self).spec_token(taken[j]).status == AssetStatus::Retired
                        }
                    &&& forall|k: int|
                        0 <= k < old(self).token_count() && !taken.contains((k + 1) as u32)
                            ==> same_token_mod_slot(final(self).tokens@[k], old(self).tokens@[k])
                    &&& final(self).spec_balance_of(from) == old(self).spec_balance_of(from)
                        - amount
                    &&& forall|a: Account|
                        a != from ==> final(self).owner_seq(a) == old(self).owner_seq(a)
                    &&& final(self).events@ == old(self).events@.push(
                        Event::Sep41Burn(Sep41BurnEvent { from, amount }),
                    )
                },
                Err(e) => {
                    &&& *final(self) == *old(self)
                    &&& (e == ContractError::NotInitialized || e == ContractError::NotAuthorized
                        || e == ContractError::InvalidStatusTransition || e
                        == ContractError::TransferNotAllowed)
                    &&& (e == ContractError::NotInitialized <==> !old(self).initialized())
                    &&& (e == ContractError::NotAuthorized <==> old(self).initialized() && spender
                        != old(self).spec_retirement_tracker())
                    &&& (e == ContractError::InvalidStatusTransition <==> old(self).initialized()
                        && spender == old(self).spec_retirement_tracker() && amount <= 0)
                    &&& (e == ContractError::TransferNotAllowed <==> old(self).initialized()
                        && spender == old(self).spec_retirement_tracker() && 1 <= amount && old(
                        self,
                    ).spec_burn_selection(from, amount as int).len() < amount)
                },
            },
    {
        let retirement_tracker = match self.get_retirement_tracker() {
            Ok(t) => t,
            Err(e) => {
                return Err(e);
            },
        };
        if spender != retirement_tracker {
            return Err(ContractError::NotAuthorized);
        }
        self.burn_amount_internal(from, amount)
    }
}

} // verus!
