//! The ownership index: for every account the list of token ids it holds,
//! with a back-pointer from each owned token to its position in that list.
//! Appending is plain; removal is a swap-remove — the last id of the list
//! overwrites the removed slot and the list shrinks by one — so both are
//! constant-time in the number of tokens the account holds, at the price of
//! not preserving the relative order of the remaining ids.

use vstd::prelude::*;
use crate::state::CarbonAsset;
use crate::state::TokenEntry;
use crate::types::Account;
use crate::types::ContractError;

verus! {

broadcast use vstd::std_specs::hash::group_hash_axioms;

impl CarbonAsset {
    /// Appends `token_id` to `owner`'s sequence (creating the sequence if
    /// the account held nothing) and records the token's position.
    pub(crate) fn add_token_to_owner(&mut self, owner: Account, token_id: u32)
        requires
            old(self).index_wf(),
            old(self).has_token(token_id),
            old(self).spec_token(token_id).owner is None,
        ensures
            final(self).index_wf(),
            final(self).config == old(self).config,
            final(self).allowances@ == old(self).allowances@,
            final(self).events@ == old(self).events@,
            final(self).tokens@ == old(self).tokens@.update(
                token_id - 1,
                TokenEntry {
                    owner: Some(owner),
                    slot: old(self).owner_seq(owner).len() as usize,
                    ..old(self).spec_token(token_id)
                },
            ),
            final(self).owner_seq(owner) == old(self).owner_seq(owner).push(token_id),
            forall|a: Account| a != owner ==> final(self).owner_seq(a) == old(self).owner_seq(a),
    {
        let ghost pre = *old(self);
        let mut list = match self.owner_tokens.remove(&owner) {
            Some(l) => l,
            None => Vec::new(),
        };
        proof {
            assert(list@ == pre.owner_seq(owner));
        }
        list.push(token_id);
        let slot = list.len() - 1;
        self.owner_tokens.insert(owner, list);
        let entry = &mut self.tokens[(token_id - 1) as usize];
        entry.owner = Some(owner);
        entry.slot = slot;
        proof {
            let post = *self;
            assert(post.owner_seq(owner) == pre.owner_seq(owner).push(token_id));
            assert forall|a: Account| a != owner implies post.owner_seq(a) == pre.owner_seq(a) by {
                assert(post.owner_tokens@.contains_key(a) == pre.owner_tokens@.contains_key(a));
            }
            // No list held the token while it was unowned, so every other
            // list element keeps an untouched entry.
            assert forall|a: Account, j: int|
                post.owner_tokens@.contains_key(a) && 0 <= j < post.owner_seq(a).len() implies {
                &&& 1 <= post.owner_seq(a)[j]
                &&& post.owner_seq(a)[j] as int <= post.token_count()
                &&& post.spec_token(post.owner_seq(a)[j]).owner == Some(a)
                &&& post.spec_token(post.owner_seq(a)[j]).slot == j
            } by {
                if a == owner && j == post.owner_seq(owner).len() - 1 {
                } else {
                    assert(pre.owner_seq(a)[j] == post.owner_seq(a)[j]);
                    assert(pre.spec_token(pre.owner_seq(a)[j]).owner == Some(a));
                }
            }
            assert(post.back_pointers_wf()) by {
                assert forall|i: int|
                    0 <= i < post.token_count() && (#[trigger] post.tokens@[i]).owner is Some implies {
                    let a = post.tokens@[i].owner->Some_0;
                    &&& post.owner_tokens@.contains_key(a)
                    &&& (post.tokens@[i].slot as int) < post.owner_seq(a).len()
                    &&& post.owner_seq(a)[post.tokens@[i].slot as int] == (i + 1) as u32
                } by {
                    let a = post.tokens@[i].owner->Some_0;
                    if i != token_id - 1 {
                        assert(post.tokens@[i] == pre.tokens@[i]);
                        assert(pre.owner_seq(a)[pre.tokens@[i].slot as int] == (i + 1) as u32);
                    }
                }
            }
        }
    }

    /// Detaches `token_id` from `owner`'s sequence by swap-remove: the last
    /// id of the sequence moves into the vacated position (unless the
    /// vacated position was last), its back-pointer is rewritten, the
    /// sequence shrinks by one, and a sequence that would become empty is
    /// deleted outright so the store never keeps empty lists.  Fails
    /// `TokenNotFound` when the account has no sequence or the token has no
    /// recorded position, mutating nothing.
    pub(crate) fn remove_token_from_owner(&mut self, owner: Account, token_id: u32) -> (r: Result<
        (),
        ContractError,
    >)
        requires
            old(self).index_wf(),
            old(self).has_token(token_id) && old(self).spec_token(token_id).owner is Some ==> old(
                self,
            ).spec_token(token_id).owner == Some(owner),
        ensures
            final(self).index_wf(),
            final(self).config == old(self).config,
            final(self).allowances@ == old(self).allowances@,
            final(self).events@ == old(self).events@,
            match r {
                Ok(()) => {
                    &&& old(self).has_token(token_id)
                    &&& old(self).spec_token(token_id).owner == Some(owner)
                    &&& final(self).tokens@.len() == old(self).tokens@.len()
                    &&& final(self).spec_token(token_id) == TokenEntry {
                        owner: None,
                        ..old(self).spec_token(token_id)
                    }
                    &&& forall|i: int|
                        0 <= i < old(self).token_count() && i != token_id - 1
                            ==> crate::state::same_token_mod_slot(
                            final(self).tokens@[i],
                            old(self).tokens@[i],
                        )
                    &&& final(self).owner_seq(owner) == old(self).owner_seq(owner).update(
                        old(self).spec_token(token_id).slot as int,
                        old(self).owner_seq(owner).last(),
                    ).drop_last()
                    &&& forall|a: Account|
                        a != owner ==> final(self).owner_seq(a) == old(self).owner_seq(a)
                },
                Err(e) => {
                    &&& e == ContractError::TokenNotFound
                    &&& *final(self) == *old(self)
                    &&& !(old(self).has_token(token_id) && old(self).spec_token(
                        token_id,
                    ).owner is Some)
                },
            },
    {
        let ghost pre = *old(self);
        if !self.owner_tokens.contains_key(&owner) {
            proof {
                // An owned token's list exists, so reaching here means the
                // token is not currently owned.
                if pre.has_token(token_id) && pre.spec_token(token_id).owner is Some {
                    assert(pre.owner_tokens@.contains_key(owner));
                }
            }
            return Err(ContractError::TokenNotFound);
        }
        if token_id == 0 || token_id as usize > self.tokens.len() {
            return Err(ContractError::TokenNotFound);
        }
        let tidx = (token_id - 1) as usize;
        let slot = match self.tokens[tidx].owner {
            Some(_) => self.tokens[tidx].slot,
            None => {
                return Err(ContractError::TokenNotFound);
            },
        };
        let mut list = match self.owner_tokens.remove(&owner) {
            Some(l) => l,
            None => unreached(),
        };
        proof {
            assert(list@ == pre.owner_seq(owner));
            assert(list@[slot as int] == token_id);
            assert(slot < list@.len());
        }
        let last_index = list.len() - 1;
        let last_token = list[last_index];
        if slot != last_index {
            list[slot] = last_token;
            proof {
                // The moved id is some other token of the same owner.
                assert(pre.spec_token(last_token).slot == last_index as int);
                assert(last_token != token_id);
            }
            self.tokens[(last_token - 1) as usize].slot = slot;
        }
        list.pop();
        if list.len() > 0 {
            self.owner_tokens.insert(owner, list);
        }
        self.tokens[tidx].owner = None;
        proof {
            let post = *self;
            let s = pre.owner_seq(owner);
            let ns = s.update(slot as int, s.last()).drop_last();
            assert(post.owner_seq(owner) == ns) by {
                if ns.len() == 0 {
                    assert(!post.owner_tokens@.contains_key(owner));
                } else {
                    assert(post.owner_tokens@[owner]@ =~= ns);
                }
            }
            assert forall|a: Account| a != owner implies post.owner_seq(a) == pre.owner_seq(a) by {
                assert(post.owner_tokens@.contains_key(a) == pre.owner_tokens@.contains_key(a));
            }
            // Ids other than the removed one never change lists, and only
            // the moved last id changes position.
            assert forall|a: Account, j: int|
                post.owner_tokens@.contains_key(a) && 0 <= j < post.owner_seq(a).len() implies {
                &&& 1 <= post.owner_seq(a)[j]
                &&& post.owner_seq(a)[j] as int <= post.token_count()
                &&& post.spec_token(post.owner_seq(a)[j]).owner == Some(a)
                &&& post.spec_token(post.owner_seq(a)[j]).slot == j
            } by {
                if a == owner {
                    let id = post.owner_seq(a)[j];
                    assert(id == ns[j]);
                    if j == slot as int && slot != last_index {
                        assert(id == last_token);
                    } else {
                        assert(id == s[j]);
                        assert(pre.spec_token(id).slot == j);
                        assert(id != token_id);
                        assert(id != last_token || j == slot as int);
                    }
                } else {
                    let id = post.owner_seq(a)[j];
                    assert(pre.owner_seq(a)[j] == id);
                    assert(pre.spec_token(id).owner == Some(a));
                    assert(id != token_id);
                    assert(id != last_token);
                }
            }
            assert(post.back_pointers_wf()) by {
                assert forall|i: int|
                    0 <= i < post.token_count() && (#[trigger] post.tokens@[i]).owner is Some implies {
                    let a = post.tokens@[i].owner->Some_0;
                    &&& post.owner_tokens@.contains_key(a)
                    &&& (post.tokens@[i].slot as int) < post.owner_seq(a).len()
                    &&& post.owner_seq(a)[post.tokens@[i].slot as int] == (i + 1) as u32
                } by {
                    let a = post.tokens@[i].owner->Some_0;
                    assert(pre.tokens@[i].owner == Some(a));
                    if i == last_token - 1 && slot != last_index {
                        assert(a == owner);
                        assert(post.tokens@[i].slot == slot);
                        assert(ns[slot as int] == last_token);
                    } else {
                        assert(post.tokens@[i].slot == pre.tokens@[i].slot);
                        assert(pre.owner_seq(a)[pre.tokens@[i].slot as int] == (i + 1) as u32);
                        if a == owner {
                            let js = pre.tokens@[i].slot as int;
                            assert(s[js] == (i + 1) as u32);
                            assert(js != slot as int);
                            assert(js != s.len() - 1);
                            assert(ns[js] == s[js]);
                        }
                    }
                }
            }
        }
        Ok(())
    }
}

} // verus!
