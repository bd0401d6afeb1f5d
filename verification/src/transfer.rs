//! The transfer orchestrator.  Two vocabularies share one primitive:
//! by-id movement (`transfer_token_internal`) and count-based movement
//! (`transfer` / `transfer_from`), which resolves a count into concrete ids
//! by a deliberate first-fit policy — the first qualifying ids in the
//! owner's current sequence order, an order that swap-removals reshuffle —
//! and then moves each.  The compliance hook runs before any ownership
//! mutation.

use vstd::prelude::*;
use crate::events::Event;
use crate::events::Sep41TransferEvent;
use crate::events::StatusChangeEvent;
use crate::events::TransferEvent;
use crate::state::CarbonAsset;
use crate::state::TokenEntry;
use crate::state::same_token_mod_slot;
use crate::types::Account;
use crate::types::AssetStatus;
use crate::types::ContractError;
use crate::types::OperationType;
use crate::types::ValidationRequest;
use crate::types::ValidationResult;

verus! {

broadcast use vstd::std_specs::hash::group_hash_axioms;

/// A token that may move between accounts: not burned, `Issued` or `Listed`.
pub open spec fn transfer_eligible(t: TokenEntry) -> bool {
    !t.burned && t.status.spec_is_transferable()
}

/// A token the count-based burn may take: not burned and already `Retired`.
pub open spec fn burn_eligible(t: TokenEntry) -> bool {
    !t.burned && t.status == AssetStatus::Retired
}

/// Whether the token with id `id` exists in `tokens` and satisfies `pred`.
pub open spec fn eligible_at(tokens: Seq<TokenEntry>, id: u32, pred: spec_fn(TokenEntry) -> bool) -> bool {
    &&& 1 <= id
    &&& id as int <= tokens.len()
    &&& pred(tokens[id as int - 1])
}

/// The first-fit selection policy of the count-based operations: walk `ids`
/// in order, keep each id whose token satisfies `pred`, and stop once `n`
/// ids are kept.  The result is shorter than `n` exactly when fewer than
/// `n` ids qualify.
pub open spec fn first_fit(
    tokens: Seq<TokenEntry>,
    ids: Seq<u32>,
    n: int,
    pred: spec_fn(TokenEntry) -> bool,
) -> Seq<u32>
    decreases ids.len(),
{
    if n <= 0 || ids.len() == 0 {
        Seq::empty()
    } else if eligible_at(tokens, ids[0], pred) {
        seq![ids[0]] + first_fit(tokens, ids.drop_first(), n - 1, pred)
    } else {
        first_fit(tokens, ids.drop_first(), n, pred)
    }
}

/// Extending the walked sequence by one id extends the selection by that id
/// exactly when the selection is not yet full and the id qualifies.
pub proof fn lemma_first_fit_push(
    tokens: Seq<TokenEntry>,
    ids: Seq<u32>,
    x: u32,
    n: int,
    pred: spec_fn(TokenEntry) -> bool,
)
    ensures
        first_fit(tokens, ids.push(x), n, pred) == if first_fit(tokens, ids, n, pred).len() < n
            && eligible_at(tokens, x, pred) {
            first_fit(tokens, ids, n, pred).push(x)
        } else {
            first_fit(tokens, ids, n, pred)
        },
    decreases ids.len(),
{
    let full = ids.push(x);
    if n <= 0 {
        assert(first_fit(tokens, full, n, pred) =~= first_fit(tokens, ids, n, pred));
    } else if ids.len() == 0 {
        assert(full[0] == x);
        assert(full.drop_first() =~= Seq::<u32>::empty());
        assert(first_fit(tokens, full.drop_first(), n - 1, pred) =~= Seq::<u32>::empty());
        assert(first_fit(tokens, full.drop_first(), n, pred) =~= Seq::<u32>::empty());
        if eligible_at(tokens, x, pred) {
            assert(first_fit(tokens, full, n, pred) =~= first_fit(tokens, ids, n, pred).push(x));
        } else {
            assert(first_fit(tokens, full, n, pred) =~= first_fit(tokens, ids, n, pred));
        }
    } else {
        assert(full[0] == ids[0]);
        assert(full.drop_first() =~= ids.drop_first().push(x));
        if eligible_at(tokens, ids[0], pred) {
            lemma_first_fit_push(tokens, ids.drop_first(), x, n - 1, pred);
            if first_fit(tokens, ids.drop_first(), n - 1, pred).len() < n - 1 && eligible_at(
                tokens,
                x,
                pred,
            ) {
                assert(first_fit(tokens, full, n, pred) =~= first_fit(
                    tokens,
                    ids,
                    n,
                    pred,
                ).push(x));
            } else {
                assert(first_fit(tokens, full, n, pred) =~= first_fit(tokens, ids, n, pred));
            }
        } else {
            lemma_first_fit_push(tokens, ids.drop_first(), x, n, pred);
            if first_fit(tokens, ids.drop_first(), n, pred).len() < n && eligible_at(
                tokens,
                x,
                pred,
            ) {
                assert(first_fit(tokens, full, n, pred) =~= first_fit(
                    tokens,
                    ids,
                    n,
                    pred,
                ).push(x));
            } else {
                assert(first_fit(tokens, full, n, pred) =~= first_fit(tokens, ids, n, pred));
            }
        }
    }
}

/// What the selection guarantees of its result: bounded length, only
/// qualifying ids, ids drawn from the walked sequence, and no duplicates
/// when the walked sequence has none.
pub proof fn lemma_first_fit_props(
    tokens: Seq<TokenEntry>,
    ids: Seq<u32>,
    n: int,
    pred: spec_fn(TokenEntry) -> bool,
)
    ensures
        first_fit(tokens, ids, n, pred).len() <= vstd::math::max(n, 0),
        forall|j: int|
            0 <= j < first_fit(tokens, ids, n, pred).len() ==> eligible_at(
                tokens,
                #[trigger] first_fit(tokens, ids, n, pred)[j],
                pred,
            ),
        forall|j: int|
            0 <= j < first_fit(tokens, ids, n, pred).len() ==> ids.contains(
                #[trigger] first_fit(tokens, ids, n, pred)[j],
            ),
        ids.no_duplicates() ==> first_fit(tokens, ids, n, pred).no_duplicates(),
    decreases ids.len(),
{
    let sel = first_fit(tokens, ids, n, pred);
    if n <= 0 || ids.len() == 0 {
    } else {
        let rest = ids.drop_first();
        lemma_first_fit_props(tokens, rest, n - 1, pred);
        lemma_first_fit_props(tokens, rest, n, pred);
        assert(forall|y: u32| rest.contains(y) ==> ids.contains(y)) by {
            assert forall|y: u32| rest.contains(y) implies ids.contains(y) by {
                let k = choose|k: int| 0 <= k < rest.len() && rest[k] == y;
                assert(ids[k + 1] == y);
            }
        }
        if eligible_at(tokens, ids[0], pred) {
            let tail = first_fit(tokens, rest, n - 1, pred);
            assert(sel == seq![ids[0]] + tail);
            assert(ids.contains(ids[0]));
            assert forall|j: int| 0 <= j < sel.len() implies eligible_at(tokens, sel[j], pred)
                && ids.contains(sel[j]) by {
                if j == 0 {
                } else {
                    assert(sel[j] == tail[j - 1]);
                }
            }
            if ids.no_duplicates() {
                assert(rest.no_duplicates()) by {
                    assert forall|p: int, q: int|
                        0 <= p < rest.len() && 0 <= q < rest.len() && p != q implies rest[p]
                        != rest[q] by {
                        assert(rest[p] == ids[p + 1] && rest[q] == ids[q + 1]);
                    }
                }
                assert forall|p: int, q: int|
                    0 <= p < sel.len() && 0 <= q < sel.len() && p != q implies sel[p] != sel[q] by {
                    if p == 0 || q == 0 {
                        let w = if p == 0 {
                            q
                        } else {
                            p
                        };
                        assert(rest.contains(tail[w - 1]));
                        let k = choose|k: int| 0 <= k < rest.len() && rest[k] == tail[w - 1];
                        assert(ids[k + 1] == tail[w - 1]);
                        assert(ids[0] != ids[k + 1]);
                    } else {
                        assert(sel[p] == tail[p - 1] && sel[q] == tail[q - 1]);
                    }
                }
            }
        } else {
            assert(sel == first_fit(tokens, rest, n, pred));
            if ids.no_duplicates() {
                assert(rest.no_duplicates()) by {
                    assert forall|p: int, q: int|
                        0 <= p < rest.len() && 0 <= q < rest.len() && p != q implies rest[p]
                        != rest[q] by {
                        assert(rest[p] == ids[p + 1] && rest[q] == ids[q + 1]);
                    }
                }
            }
        }
    }
}

/// Once a prefix of the walk already fills the selection, walking further
/// changes nothing.
pub proof fn lemma_first_fit_prefix_full(
    tokens: Seq<TokenEntry>,
    ids: Seq<u32>,
    i: int,
    n: int,
    pred: spec_fn(TokenEntry) -> bool,
)
    requires
        0 <= i <= ids.len(),
        first_fit(tokens, ids.take(i), n, pred).len() == n,
    ensures
        first_fit(tokens, ids, n, pred) == first_fit(tokens, ids.take(i), n, pred),
    decreases ids.len() - i,
{
    if i == ids.len() {
        assert(ids.take(i) =~= ids);
    } else {
        assert(ids.take(i + 1) =~= ids.take(i).push(ids[i]));
        lemma_first_fit_push(tokens, ids.take(i), ids[i], n, pred);
        lemma_first_fit_prefix_full(tokens, ids, i + 1, n, pred);
    }
}

/// The audit records of one by-id transfer: the `Transfer` event, followed
/// by the `StatusChange` of the forced retirement when the destination is
/// the retirement tracker.  `tokens0` is the token table before the whole
/// batch: statuses of selected tokens are untouched until their own move.
pub open spec fn one_transfer_events(
    tokens0: Seq<TokenEntry>,
    token_id: u32,
    from: Account,
    to: Account,
    retiring: bool,
) -> Seq<Event> {
    seq![Event::Transfer(TransferEvent { token_id, from, to })] + if retiring {
        seq![
            Event::StatusChange(
                StatusChangeEvent {
                    token_id,
                    old_status: Some(tokens0[token_id as int - 1].status),
                    new_status: AssetStatus::Retired,
                    changed_by: from,
                },
            ),
        ]
    } else {
        Seq::empty()
    }
}

/// The audit records of a whole count-based transfer batch, in order.
pub open spec fn batch_transfer_events(
    tokens0: Seq<TokenEntry>,
    moved: Seq<u32>,
    from: Account,
    to: Account,
    retiring: bool,
) -> Seq<Event>
    decreases moved.len(),
{
    if moved.len() == 0 {
        Seq::empty()
    } else {
        one_transfer_events(tokens0, moved[0], from, to, retiring) + batch_transfer_events(
            tokens0,
            moved.drop_first(),
            from,
            to,
            retiring,
        )
    }
}

/// Moving one more token appends exactly that token's records.
pub proof fn lemma_batch_events_push(
    tokens0: Seq<TokenEntry>,
    moved: Seq<u32>,
    x: u32,
    from: Account,
    to: Account,
    retiring: bool,
)
    ensures
        batch_transfer_events(tokens0, moved.push(x), from, to, retiring)
            == batch_transfer_events(tokens0, moved, from, to, retiring) + one_transfer_events(
            tokens0,
            x,
            from,
            to,
            retiring,
        ),
    decreases moved.len(),
{
    let full = moved.push(x);
    if moved.len() == 0 {
        assert(full[0] == x);
        assert(full.drop_first() =~= Seq::<u32>::empty());
        assert(batch_transfer_events(tokens0, full.drop_first(), from, to, retiring)
            =~= Seq::<Event>::empty());
        assert(batch_transfer_events(tokens0, full, from, to, retiring) =~= batch_transfer_events(
            tokens0,
            moved,
            from,
            to,
            retiring,
        ) + one_transfer_events(tokens0, x, from, to, retiring));
    } else {
        assert(full[0] == moved[0]);
        assert(full.drop_first() =~= moved.drop_first().push(x));
        lemma_batch_events_push(tokens0, moved.drop_first(), x, from, to, retiring);
        assert(batch_transfer_events(tokens0, full, from, to, retiring) =~= batch_transfer_events(
            tokens0,
            moved,
            from,
            to,
            retiring,
        ) + one_transfer_events(tokens0, x, from, to, retiring));
    }
}

impl CarbonAsset {
    /// The ids a count-based transfer of `amount` from `from` would move:
    /// the first-fit selection of transferable tokens over the owner's
    /// current sequence order.
    pub open spec fn spec_transfer_selection(self, from: Account, amount: int) -> Seq<u32> {
        first_fit(
            self.tokens@,
            self.owner_seq(from),
            amount,
            |t: TokenEntry| transfer_eligible(t),
        )
    }

    /// The ids a count-based burn of `amount` from `from` would take: the
    /// first-fit selection of retired tokens over the owner's current
    /// sequence order.
    pub open spec fn spec_burn_selection(self, from: Account, amount: int) -> Seq<u32> {
        first_fit(self.tokens@, self.owner_seq(from), amount, |t: TokenEntry| burn_eligible(t))
    }

    /// An account's sequence never lists a token twice: each listed id's
    /// back-pointer pins its one position.
    pub proof fn lemma_owner_seq_distinct(self, account: Account)
        requires
            self.wf(),
        ensures
            self.owner_seq(account).no_duplicates(),
    {
        let s = self.owner_seq(account);
        if self.owner_tokens@.contains_key(account) {
            assert forall|p: int, q: int|
                0 <= p < s.len() && 0 <= q < s.len() && p != q implies s[p] != s[q] by {
                assert(self.spec_token(s[p]).slot == p);
                assert(self.spec_token(s[q]).slot == q);
            }
        }
    }

    /// The registry's reading of the compliance hook for a prospective
    /// transfer: unconditional approval when no regulatory-check
    /// collaborator is configured, otherwise the handed-in verdict must
    /// report compliance without demanding a manual authorization.
    pub open spec fn spec_compliance_approves(self, validation: Option<&ValidationResult>) -> bool {
        match self.spec_regulatory_check() {
            Some(_) => validation matches Some(v) && v.spec_approves(),
            None => true,
        }
    }

    /// What the shell must ask the regulatory-check collaborator before a
    /// transfer of `token_id` from `from` to `to`: `None` when no
    /// collaborator is configured (the transfer needs no outside call),
    /// otherwise the request naming the parties, the operation class —
    /// `RETIREMENT` for a move to the retirement tracker, `TRANSFER` for
    /// any other — and the host jurisdiction.  Fails `TokenNotFound` for an
    /// unknown token.
    pub fn compliance_request(&self, from: Account, to: Account, token_id: u32) -> (r: Result<
        Option<ValidationRequest>,
        ContractError,
    >)
        requires
            self.wf(),
        ensures
            match r {
                Ok(req) => {
                    &&& self.has_token(token_id)
                    &&& match req {
                        Some(q) => {
                            &&& self.spec_regulatory_check() is Some
                            &&& q.from == from
                            &&& q.to == to
                            &&& q.operation == (if to == self.spec_retirement_tracker() {
                                OperationType::RETIREMENT
                            } else {
                                OperationType::TRANSFER
                            })
                            &&& q.jurisdiction == self.spec_config().host_jurisdiction
                        },
                        None => self.spec_regulatory_check() is None,
                    }
                },
                Err(e) => e == ContractError::TokenNotFound && !self.has_token(token_id),
            },
    {
        if token_id == 0 || token_id as usize > self.tokens.len() {
            return Err(ContractError::TokenNotFound);
        }
        match &self.config {
            Some(c) => {
                if c.regulatory_check.is_none() {
                    return Ok(None);
                }
                let operation = if to == c.retirement_tracker {
                    OperationType::RETIREMENT
                } else {
                    OperationType::TRANSFER
                };
                Ok(
                    Some(
                        ValidationRequest {
                            from,
                            to,
                            operation,
                            jurisdiction: c.host_jurisdiction.clone(),
                        },
                    ),
                )
            },
            None => {
                proof {
                    // A token exists only after initialization.
                    assert(!self.has_token(token_id));
                }
                unreached()
            },
        }
    }

    /// The compliance hook's outcome for a prospective transfer, exposed so
    /// collaborators and tests can probe it directly: `true` when the
    /// transfer may proceed.  `validation` is the verdict the shell
    /// obtained for the matching [`Self::compliance_request`]; when a
    /// collaborator is configured, a missing verdict counts as not
    /// approved.  Fails `TokenNotFound` for an unknown token.
    pub fn before_transfer(
        &self,
        from: Account,
        to: Account,
        token_id: u32,
        validation: Option<&ValidationResult>,
    ) -> (r: Result<bool, ContractError>)
        requires
            self.wf(),
        ensures
            match r {
                Ok(b) => self.has_token(token_id) && b == self.spec_compliance_approves(
                    validation,
                ),
                Err(e) => e == ContractError::TokenNotFound && !self.has_token(token_id),
            },
    {
        if token_id == 0 || token_id as usize > self.tokens.len() {
            return Err(ContractError::TokenNotFound);
        }
        let configured = match &self.config {
            Some(c) => c.regulatory_check.is_some(),
            None => false,
        };
        if !configured {
            return Ok(true);
        }
        match validation {
            Some(v) => Ok(v.approves()),
            // A configured collaborator whose verdict was not obtained
            // fails closed: the transfer is not approved.
            None => Ok(false),
        }
    }

    /// Resolves, in `owner`'s current sequence order, the first `amount`
    /// ids whose tokens are transferable (`Issued` or `Listed`, not
    /// burned).  Fails `TransferNotAllowed` when fewer qualify.  Callers
    /// cannot choose which ids move: the policy is deliberately
    /// order-dependent, and the order is an artifact of swap-remove
    /// history.
    pub(crate) fn collect_transferable_tokens(&self, owner: Account, amount: i128) -> (r: Result<
        Vec<u32>,
        ContractError,
    >)
        requires
            self.wf(),
            amount >= 1,
        ensures
            match r {
                Ok(ids) => {
                    &&& ids@ == first_fit(
                        self.tokens@,
                        self.owner_seq(owner),
                        amount as int,
                        |t: TokenEntry| transfer_eligible(t),
                    )
                    &&& ids@.len() == amount
                },
                Err(e) => {
                    &&& e == ContractError::TransferNotAllowed
                    &&& first_fit(
                        self.tokens@,
                        self.owner_seq(owner),
                        amount as int,
                        |t: TokenEntry| transfer_eligible(t),
                    ).len() < amount
                },
            },
    {
        let ghost pred = |t: TokenEntry| transfer_eligible(t);
        let ghost s = self.owner_seq(owner);
        let list = match self.owner_tokens.get(&owner) {
            Some(l) => l,
            None => {
                proof {
                    assert(first_fit(self.tokens@, s, amount as int, pred) =~= Seq::<u32>::empty());
                }
                return Err(ContractError::TransferNotAllowed);
            },
        };
        let mut selected: Vec<u32> = Vec::new();
        let mut i: usize = 0;
        proof {
            assert(s.take(0) =~= Seq::<u32>::empty());
        }
        while i < list.len()
            invariant
                self.wf(),
                list@ == s,
                s == self.owner_seq(owner),
                self.owner_tokens@.contains_key(owner),
                pred == (|t: TokenEntry| transfer_eligible(t)),
                amount >= 1,
                0 <= i <= list.len(),
                selected@ == first_fit(self.tokens@, s.take(i as int), amount as int, pred),
                selected@.len() < amount,
            decreases list.len() - i,
        {
            let token_id = list[i];
            proof {
                assert(s[i as int] == token_id);
                assert(self.spec_token(token_id).owner == Some(owner));
            }
            let burned = match self.is_burned(token_id) {
                Ok(b) => b,
                Err(_) => unreached(),
            };
            if !burned {
                let status = match self.get_status(token_id) {
                    Ok(st) => st,
                    Err(_) => unreached(),
                };
                if status == AssetStatus::Issued || status == AssetStatus::Listed {
                    selected.push(token_id);
                }
            }
            proof {
                assert(s.take(i + 1) =~= s.take(i as int).push(token_id));
                lemma_first_fit_push(self.tokens@, s.take(i as int), token_id, amount as int, pred);
            }
            if selected.len() as i128 == amount {
                proof {
                    lemma_first_fit_prefix_full(self.tokens@, s, i + 1, amount as int, pred);
                }
                return Ok(selected);
            }
            i = i + 1;
        }
        proof {
            assert(s.take(i as int) =~= s);
        }
        Err(ContractError::TransferNotAllowed)
    }

    /// The one primitive both transfer vocabularies share.  Checks, in
    /// order: the token exists and is not burned (`TokenNotFound`), `from`
    /// is its owner (`NotOwner`), its status is transferable
    /// (`TransferNotAllowed`), the compliance hook approves
    /// (`ComplianceFailed`).  Only then ownership moves, a `Transfer` event
    /// is published, and a move to the retirement tracker forces status
    /// `Retired`, attributed to `from`.  `validation` is the
    /// regulatory-check verdict the shell obtained; when a collaborator is
    /// configured, a missing verdict counts as not approved.  Authentication of `from` is the host's
    /// business: the count-based path checks it once for a whole batch.
    pub(crate) fn transfer_token_internal(
        &mut self,
        from: Account,
        to: Account,
        token_id: u32,
        validation: Option<&ValidationResult>,
    ) -> (r: Result<(), ContractError>)
        requires
            old(self).wf(),
        ensures
            final(self).wf(),
            match r {
                Ok(()) => {
                    &&& old(self).has_token(token_id)
                    &&& !old(self).spec_token(token_id).burned
                    &&& old(self).spec_token(token_id).owner == Some(from)
                    &&& old(self).spec_token(token_id).status.spec_is_transferable()
                    &&& old(self).spec_compliance_approves(validation)
                    &&& old(self).initialized()
                    &&& final(self).config == old(self).config
                    &&& final(self).allowances@ == old(self).allowances@
                    &&& final(self).tokens@.len() == old(self).tokens@.len()
                    &&& final(self).spec_token(token_id).owner == Some(to)
                    &&& final(self).spec_token(token_id).status == (if to == old(
                        self,
                    ).spec_retirement_tracker() {
                        AssetStatus::Retired
                    } else {
                        old(self).spec_token(token_id).status
                    })
                    &&& final(self).spec_token(token_id).metadata == old(self).spec_token(
                        token_id,
                    ).metadata
                    &&& final(self).spec_token(token_id).quality_score == old(self).spec_token(
                        token_id,
                    ).quality_score
                    &&& !final(self).spec_token(token_id).burned
                    &&& forall|i: int|
                        0 <= i < old(self).token_count() && i != token_id - 1
                            ==> same_token_mod_slot(final(self).tokens@[i], old(self).tokens@[i])
                    &&& (from != to ==> final(self).owner_seq(to) == old(self).owner_seq(
                        to,
                    ).push(token_id))
                    &&& (from != to ==> final(self).spec_balance_of(from) == old(
                        self,
                    ).spec_balance_of(from) - 1)
                    &&& (from != to ==> final(self).spec_balance_of(to) == old(
                        self,
                    ).spec_balance_of(to) + 1)
                    &&& (from == to ==> final(self).spec_balance_of(from) == old(
                        self,
                    ).spec_balance_of(from))
                    &&& forall|a: Account|
                        a != from && a != to ==> final(self).owner_seq(a) == old(self).owner_seq(a)
                    &&& final(self).events@ == old(self).events@ + one_transfer_events(
                        old(self).tokens@,
                        token_id,
                        from,
                        to,
                        to == old(self).spec_retirement_tracker(),
                    )
                },
                Err(e) => {
                    &&& *final(self) == *old(self)
                    &&& (e == ContractError::TokenNotFound || e == ContractError::NotOwner || e
                        == ContractError::TransferNotAllowed || e == ContractError::ComplianceFailed)
                    &&& (e == ContractError::TokenNotFound <==> !(old(self).has_token(token_id)
                        && !old(self).spec_token(token_id).burned))
                    &&& (e == ContractError::NotOwner <==> old(self).has_token(token_id) && !old(
                        self,
                    ).spec_token(token_id).burned && old(self).spec_token(token_id).owner != Some(
                        from,
                    ))
                    &&& (e == ContractError::TransferNotAllowed <==> old(self).has_token(token_id)
                        && !old(self).spec_token(token_id).burned && old(self).spec_token(
                        token_id,
                    ).owner == Some(from) && !old(self).spec_token(
                        token_id,
                    ).status.spec_is_transferable())
                    &&& (e == ContractError::ComplianceFailed <==> old(self).has_token(token_id)
                        && !old(self).spec_token(token_id).burned && old(self).spec_token(
                        token_id,
                    ).owner == Some(from) && old(self).spec_token(
                        token_id,
                    ).status.spec_is_transferable() && !old(self).spec_compliance_approves(
                        validation,
                    ))
                },
            },
    {
        let owner = match self.owner_of(token_id) {
            Ok(a) => a,
            Err(e) => {
                return Err(e);
            },
        };
        if owner != from {
            return Err(ContractError::NotOwner);
        }
        let burned = match self.is_burned(token_id) {
            Ok(b) => b,
            Err(_) => unreached(),
        };
        if burned {
            // `owner_of` already rejects burned tokens, so this guard can
            // never fire; it mirrors the interface's stated order of checks.
            return Err(ContractError::TokenAlreadyBurned);
        }
        let status = match self.get_status(token_id) {
            Ok(s) => s,
            Err(_) => unreached(),
        };
        if status != AssetStatus::Issued && status != AssetStatus::Listed {
            return Err(ContractError::TransferNotAllowed);
        }
        let approved = match self.before_transfer(from, to, token_id, validation) {
            Ok(b) => b,
            Err(_) => unreached(),
        };
        if !approved {
            return Err(ContractError::ComplianceFailed);
        }
        let ghost pre = *old(self);
        match self.remove_token_from_owner(from, token_id) {
            Ok(()) => {},
            Err(_) => {
                proof {
                    assert(false);
                }
            },
        }
        let ghost mid1 = *self;
        self.add_token_to_owner(to, token_id);
        proof {
            assert forall|i: int|
                0 <= i < self.token_count() implies (((#[trigger] self.tokens@[i]).owner is None)
                <==> self.tokens@[i].burned) by {
                if i != token_id - 1 {
                    assert(same_token_mod_slot(mid1.tokens@[i], pre.tokens@[i]));
                    assert(self.tokens@[i].owner == pre.tokens@[i].owner);
                    assert(self.tokens@[i].burned == pre.tokens@[i].burned);
                }
            }
        }
        let ghost mid2 = *self;
        self.events.push(Event::Transfer(TransferEvent { token_id, from, to }));
        proof {
            assert(self.wf());
        }
        let tracker = match self.get_retirement_tracker() {
            Ok(t) => t,
            Err(_) => unreached(),
        };
        let ghost mid3 = *self;
        if to == tracker {
            match self.set_status_internal(token_id, AssetStatus::Retired, from) {
                Ok(()) => {},
                Err(_) => {
                    proof {
                        assert(false);
                    }
                },
            }
            proof {
                assert(self.events@ =~= pre.events@ + one_transfer_events(
                    pre.tokens@,
                    token_id,
                    from,
                    to,
                    true,
                ));
                assert forall|a: Account|
                    a != from && a != to implies self.owner_seq(a) == pre.owner_seq(a) by {
                    assert(self.owner_seq(a) == mid3.owner_seq(a));
                    assert(mid3.owner_seq(a) == mid1.owner_seq(a));
                    assert(mid1.owner_seq(a) == pre.owner_seq(a));
                }
                if from != to {
                    assert(self.owner_seq(to) == mid3.owner_seq(to));
                    assert(mid3.owner_seq(to) == mid1.owner_seq(to).push(token_id));
                    assert(mid1.owner_seq(to) == pre.owner_seq(to));
                    assert(self.owner_seq(from) == mid3.owner_seq(from));
                    assert(mid3.owner_seq(from) == mid1.owner_seq(from));
                }
            }
        } else {
            proof {
                assert(self.events@ =~= pre.events@ + one_transfer_events(
                    pre.tokens@,
                    token_id,
                    from,
                    to,
                    false,
                ));
                assert forall|a: Account|
                    a != from && a != to implies self.owner_seq(a) == pre.owner_seq(a) by {
                    assert(self.owner_seq(a) == mid1.owner_seq(a));
                    assert(mid1.owner_seq(a) == pre.owner_seq(a));
                }
                if from != to {
                    assert(self.owner_seq(to) == mid1.owner_seq(to).push(token_id));
                    assert(mid1.owner_seq(to) == pre.owner_seq(to));
                    assert(self.owner_seq(from) == mid1.owner_seq(from));
                }
            }
        }
        Ok(())
    }

    /// Count-based transfer: rejects a non-positive amount with
    /// `InvalidStatusTransition`, resolves the first-fit selection (failing
    /// `TransferNotAllowed` when fewer than `amount` tokens qualify), moves
    /// each selected token, and publishes one batch transfer event for the
    /// whole batch.  All-or-nothing: the only mid-batch failure the checks
    /// leave open is the compliance verdict, which is the same for every
    /// token of the batch, so it stops the batch before any mutation.
    pub(crate) fn transfer_amount_internal(
        &mut self,
        from: Account,
        to: Account,
        amount: i128,
        validation: Option<&ValidationResult>,
    ) -> (r: Result<(), ContractError>)
        requires
            old(self).wf(),
        ensures
            final(self).wf(),
            match r {
                Ok(()) => {
                    let moved = old(self).spec_transfer_selection(from, amount as int);
                    &&& 1 <= amount
                    &&& moved.len() == amount
                    &&& old(self).spec_compliance_approves(validation)
                    &&& old(self).initialized()
                    &&& final(self).config == old(self).config
                    &&& final(self).allowances@ == old(self).allowances@
                    &&& final(self).tokens@.len() == old(self).tokens@.len()
                    &&& forall|j: int|
                        0 <= j < moved.len() ==> {
                            &&& final(self).spec_token(#[trigger] moved[j]).owner == Some(to)
                            &&& final(self).spec_token(moved[j]).status == (if to == old(
                                self,
                            ).spec_retirement_tracker() {
                                AssetStatus::Retired
                            } else {
                                old(self).spec_token(moved[j]).status
                            })
                            &&& final(self).spec_token(moved[j]).metadata == old(self).spec_token(
                                moved[j],
                            ).metadata
                            &&& final(self).spec_token(moved[j]).quality_score == old(
                                self,
                            ).spec_token(moved[j]).quality_score
                            &&& !final(self).spec_token(moved[j]).burned
                        }
                    &&& forall|k: int|
                        0 <= k < old(self).token_count() && !moved.contains((k + 1) as u32)
                            ==> same_token_mod_slot(final(self).tokens@[k], old(self).tokens@[k])
                    &&& (from != to ==> final(self).spec_balance_of(from) == old(
                        self,
                    ).spec_balance_of(from) - amount)
                    &&& (from != to ==> final(self).spec_balance_of(to) == old(
                        self,
                    ).spec_balance_of(to) + amount)
                    &&& (from == to ==> final(self).spec_balance_of(from) == old(
                        self,
                    ).spec_balance_of(from))
                    &&& forall|a: Account|
                        a != from && a != to ==> final(self).owner_seq(a) == old(self).owner_seq(a)
                    &&& final(self).events@ == old(self).events@ + batch_transfer_events(
                        old(self).tokens@,
                        moved,
                        from,
                        to,
                        to == old(self).spec_retirement_tracker(),
                    ) + seq![Event::Sep41Transfer(Sep41TransferEvent { from, to, amount })]
                },
                Err(e) => {
                    &&& *final(self) == *old(self)
                    &&& (e == ContractError::InvalidStatusTransition || e
                        == ContractError::TransferNotAllowed || e == ContractError::ComplianceFailed)
                    &&& (e == ContractError::InvalidStatusTransition <==> amount <= 0)
                    &&& (e == ContractError::TransferNotAllowed <==> 1 <= amount && old(
                        self,
                    ).spec_transfer_selection(from, amount as int).len() < amount)
                    &&& (e == ContractError::ComplianceFailed <==> 1 <= amount && old(
                        self,
                    ).spec_transfer_selection(from, amount as int).len() == amount && !old(
                        self,
                    ).spec_compliance_approves(validation))
                },
            },
    {
        if amount <= 0 {
            return Err(ContractError::InvalidStatusTransition);
        }
        let token_ids = match self.collect_transferable_tokens(from, amount) {
            Ok(v) => v,
            Err(e) => {
                return Err(e);
            },
        };
        let ghost pre = *old(self);
        let ghost pred = |t: TokenEntry| transfer_eligible(t);
        let ghost moved = token_ids@;
        let ghost retiring = (to == pre.spec_retirement_tracker());
        proof {
            lemma_first_fit_props(pre.tokens@, pre.owner_seq(from), amount as int, pred);
            pre.lemma_owner_seq_distinct(from);
            assert forall|j: int| 0 <= j < moved.len() implies pre.spec_token(
                #[trigger] moved[j],
            ).owner == Some(from) by {
                assert(pre.owner_seq(from).contains(moved[j]));
                let k = choose|k: int|
                    0 <= k < pre.owner_seq(from).len() && pre.owner_seq(from)[k] == moved[j];
                assert(pre.spec_token(pre.owner_seq(from)[k]).owner == Some(from));
            }
            assert(moved.take(0) =~= Seq::<u32>::empty());
            assert(pre.has_token(moved[0]));
        }
        // The verdict is one and the same for every token of the batch, so
        // an adverse verdict stops the batch here, before any mutation —
        // exactly where the first by-id move would have stopped it.
        let first_id = token_ids[0];
        let approved = match self.before_transfer(from, to, first_id, validation) {
            Ok(b) => b,
            Err(_) => unreached(),
        };
        if !approved {
            return Err(ContractError::ComplianceFailed);
        }
        let mut i: usize = 0;
        while i < token_ids.len()
            invariant
                0 <= i <= token_ids.len(),
                token_ids@ == moved,
                moved == pre.spec_transfer_selection(from, amount as int),
                moved.len() == amount,
                1 <= amount,
                moved.no_duplicates(),
                pred == (|t: TokenEntry| transfer_eligible(t)),
                retiring == (to == pre.spec_retirement_tracker()),
                forall|j: int| 0 <= j < moved.len() ==> eligible_at(pre.tokens@, #[trigger] moved[j], pred),
                forall|j: int|
                    0 <= j < moved.len() ==> pre.spec_token(#[trigger] moved[j]).owner == Some(
                        from,
                    ),
                pre.wf(),
                pre.initialized(),
                self.wf(),
                self.config == pre.config,
                self.allowances@ == pre.allowances@,
                self.tokens@.len() == pre.tokens@.len(),
                forall|j: int|
                    i <= j < moved.len() ==> same_token_mod_slot(
                        self.spec_token(#[trigger] moved[j]),
                        pre.spec_token(moved[j]),
                    ),
                forall|j: int|
                    0 <= j < i ==> {
                        &&& self.spec_token(#[trigger] moved[j]).owner == Some(to)
                        &&& self.spec_token(moved[j]).status == (if retiring {
                            AssetStatus::Retired
                        } else {
                            pre.spec_token(moved[j]).status
                        })
                        &&& self.spec_token(moved[j]).metadata == pre.spec_token(moved[j]).metadata
                        &&& self.spec_token(moved[j]).quality_score == pre.spec_token(
                            moved[j],
                        ).quality_score
                        &&& !self.spec_token(moved[j]).burned
                    },
                forall|k: int|
                    0 <= k < pre.token_count() && !moved.contains((k + 1) as u32)
                        ==> same_token_mod_slot(self.tokens@[k], pre.tokens@[k]),
                from != to ==> self.spec_balance_of(from) == pre.spec_balance_of(from) - i,
                from != to ==> self.spec_balance_of(to) == pre.spec_balance_of(to) + i,
                from == to ==> self.spec_balance_of(from) == pre.spec_balance_of(from),
                forall|a: Account|
                    a != from && a != to ==> self.owner_seq(a) == pre.owner_seq(a),
                self.events@ == pre.events@ + batch_transfer_events(
                    pre.tokens@,
                    moved.take(i as int),
                    from,
                    to,
                    retiring,
                ),
                pre.spec_compliance_approves(validation),
            decreases token_ids.len() - i,
        {
            let token_id = token_ids[i];
            let ghost snap = *self;
            proof {
                assert(moved[i as int] == token_id);
                assert(same_token_mod_slot(snap.spec_token(token_id), pre.spec_token(token_id)));
                assert(eligible_at(pre.tokens@, token_id, pred));
            }
            proof {
                assert(snap.spec_compliance_approves(validation)) by {
                    assert(snap.spec_regulatory_check() == pre.spec_regulatory_check());
                }
            }
            match self.transfer_token_internal(from, to, token_id, validation) {
                Ok(()) => {},
                Err(_) => {
                    // Every selected token passed the eligibility and
                    // compliance checks, so the by-id move cannot fail.
                    unreached()
                },
            }
            proof {
                assert(moved.take(i + 1) =~= moved.take(i as int).push(token_id));
                lemma_batch_events_push(
                    pre.tokens@,
                    moved.take(i as int),
                    token_id,
                    from,
                    to,
                    retiring,
                );
                assert(one_transfer_events(snap.tokens@, token_id, from, to, retiring)
                    == one_transfer_events(pre.tokens@, token_id, from, to, retiring)) by {
                    assert(snap.spec_token(token_id).status == pre.spec_token(token_id).status);
                }
                assert(self.events@ =~= pre.events@ + batch_transfer_events(
                    pre.tokens@,
                    moved.take(i + 1),
                    from,
                    to,
                    retiring,
                ));
                assert forall|j: int|
                    i + 1 <= j < moved.len() implies same_token_mod_slot(
                    self.spec_token(#[trigger] moved[j]),
                    pre.spec_token(moved[j]),
                ) by {
                    assert(moved[j] != token_id);
                    assert(same_token_mod_slot(
                        self.tokens@[moved[j] as int - 1],
                        snap.tokens@[moved[j] as int - 1],
                    ));
                }
                assert forall|k: int|
                    0 <= k < pre.token_count() && !moved.contains((k + 1) as u32) implies
                    same_token_mod_slot(self.tokens@[k], pre.tokens@[k]) by {
                    assert(k != token_id - 1) by {
                        assert(moved.contains(moved[i as int]));
                    }
                    assert(same_token_mod_slot(self.tokens@[k], snap.tokens@[k]));
                }
            }
            i = i + 1;
        }
        self.events.push(Event::Sep41Transfer(Sep41TransferEvent { from, to, amount }));
        proof {
            assert(moved.take(i as int) =~= moved);
            assert(self.events@ =~= pre.events@ + batch_transfer_events(
                pre.tokens@,
                moved,
                from,
                to,
                retiring,
            ) + seq![Event::Sep41Transfer(Sep41TransferEvent { from, to, amount })]);
        }
        Ok(())
    }

    /// SEP-41-style count-based transfer from `from` to `to`.  The host
    /// attests that `from` authorized the call; `validation` is the
    /// regulatory-check verdict the shell obtained; when a collaborator is
    /// configured, a missing verdict counts as not approved.
    pub fn transfer(
        &mut self,
        from: Account,
        to: Account,
        amount: i128,
        validation: Option<&ValidationResult>,
    ) -> (r: Result<(), ContractError>)
        requires
            old(self).wf(),
        ensures
            final(self).wf(),
            match r {
                Ok(()) => {
                    let moved = old(self).spec_transfer_selection(from, amount as int);
                    &&& 1 <= amount
                    &&& moved.len() == amount
                    &&& old(self).spec_compliance_approves(validation)
                    &&& final(self).config == old(self).config
                    &&& final(self).allowances@ == old(self).allowances@
                    &&& final(self).tokens@.len() == old(self).tokens@.len()
                    &&& forall|j: int|
                        0 <= j < moved.len() ==> {
                            &&& final(self).spec_token(#[trigger] moved[j]).owner == Some(to)
                            &&& final(self).spec_token(moved[j]).status == (if to == old(
                                self,
                            ).spec_retirement_tracker() {
                                AssetStatus::Retired
                            } else {
                                old(self).spec_token(moved[j]).status
                            })
                        }
                    &&& forall|k: int|
                        0 <= k < old(self).token_count() && !moved.contains((k + 1) as u32)
                            ==> same_token_mod_slot(final(self).tokens@[k], old(self).tokens@[k])
                    &&& (from != to ==> final(self).spec_balance_of(from) == old(
                        self,
                    ).spec_balance_of(from) - amount)
                    &&& (from != to ==> final(self).spec_balance_of(to) == old(
                        self,
                    ).spec_balance_of(to) + amount)
                    &&& (from == to ==> final(self).spec_balance_of(from) == old(
                        self,
                    ).spec_balance_of(from))
                    &&& forall|a: Account|
                        a != from && a != to ==> final(self).owner_seq(a) == old(self).owner_seq(a)
                    &&& final(self).events@ == old(self).events@ + batch_transfer_events(
                        old(self).tokens@,
                        moved,
                        from,
                        to,
                        to == old(self).spec_retirement_tracker(),
                    ) + seq![Event::Sep41Transfer(Sep41TransferEvent { from, to, amount })]
                },
                Err(e) => {
                    &&& *final(self) == *old(self)
                    &&& (e == ContractError::InvalidStatusTransition || e
                        == ContractError::TransferNotAllowed || e == ContractError::ComplianceFailed)
                    &&& (e == ContractError::InvalidStatusTransition <==> amount <= 0)
                    &&& (e == ContractError::TransferNotAllowed <==> 1 <= amount && old(
                        self,
                    ).spec_transfer_selection(from, amount as int).len() < amount)
                    &&& (e == ContractError::ComplianceFailed <==> 1 <= amount && old(
                        self,
                    ).spec_transfer_selection(from, amount as int).len() == amount && !old(
                        self,
                    ).spec_compliance_approves(validation))
                },
            },
    {
        self.transfer_amount_internal(from, to, amount, validation)
    }

    /// Count-based transfer drawn on an allowance: spends `amount` of the
    /// allowance `from` granted `spender` (failing `NotAuthorized` when the
    /// unexpired allowance is smaller), then transfers as
    /// [`Self::transfer`] does, persisting the reduced allowance only if
    /// the whole operation succeeds.  The host attests that `spender`
    /// authorized the call.
    pub fn transfer_from(
        &mut self,
        spender: Account,
        from: Account,
        to: Account,
        amount: i128,
        current_ledger: u32,
        validation: Option<&ValidationResult>,
    ) -> (r: Result<(), ContractError>)
        requires
            old(self).wf(),
            old(self).spec_allowance(from, spender, current_ledger) - amount <= i128::MAX,
        ensures
            final(self).wf(),
            match r {
                Ok(()) => {
                    let moved = old(self).spec_transfer_selection(from, amount as int);
                    &&& old(self).spec_allowance(from, spender, current_ledger) >= amount
                    &&& 1 <= amount
                    &&& moved.len() == amount
                    &&& old(self).spec_compliance_approves(validation)
                    &&& final(self).config == old(self).config
                    &&& final(self).allowances@ == old(self).allowances@.insert(
                        crate::state::spec_pair_key(from, spender),
                        crate::types::AllowanceData {
                            amount: (old(self).spec_allowance(from, spender, current_ledger)
                                - amount) as i128,
                            live_until_ledger: match old(self).spec_allowance_record(
                                from,
                                spender,
                            ) {
                                Some(rec) => rec.live_until_ledger,
                                None => 0u32,
                            },
                        },
                    )
                    &&& final(self).spec_allowance(from, spender, current_ledger) == old(
                        self,
                    ).spec_allowance(from, spender, current_ledger) - amount
                    &&& final(self).tokens@.len() == old(self).tokens@.len()
                    &&& forall|j: int|
                        0 <= j < moved.len() ==> {
                            &&& final(self).spec_token(#[trigger] moved[j]).owner == Some(to)
                            &&& final(self).spec_token(moved[j]).status == (if to == old(
                                self,
                            ).spec_retirement_tracker() {
                                AssetStatus::Retired
                            } else {
                                old(self).spec_token(moved[j]).status
                            })
                        }
                    &&& forall|k: int|
                        0 <= k < old(self).token_count() && !moved.contains((k + 1) as u32)
                            ==> same_token_mod_slot(final(self).tokens@[k], old(self).tokens@[k])
                    &&& (from != to ==> final(self).spec_balance_of(from) == old(
                        self,
                    ).spec_balance_of(from) - amount)
                    &&& (from != to ==> final(self).spec_balance_of(to) == old(
                        self,
                    ).spec_balance_of(to) + amount)
                    &&& (from == to ==> final(self).spec_balance_of(from) == old(
                        self,
                    ).spec_balance_of(from))
                    &&& forall|a: Account|
                        a != from && a != to ==> final(self).owner_seq(a) == old(self).owner_seq(a)
                    &&& final(self).events@ == old(self).events@ + batch_transfer_events(
                        old(self).tokens@,
                        moved,
                        from,
                        to,
                        to == old(self).spec_retirement_tracker(),
                    ) + seq![Event::Sep41Transfer(Sep41TransferEvent { from, to, amount })]
                },
                Err(e) => {
                    &&& *final(self) == *old(self)
                    &&& (e == ContractError::NotAuthorized || e
                        == ContractError::InvalidStatusTransition || e
                        == ContractError::TransferNotAllowed || e == ContractError::ComplianceFailed)
                    &&& (e == ContractError::NotAuthorized <==> old(self).spec_allowance(
                        from,
                        spender,
                        current_ledger,
                    ) < amount)
                    &&& (e == ContractError::InvalidStatusTransition <==> old(self).spec_allowance(
                        from,
                        spender,
                        current_ledger,
                    ) >= amount && amount <= 0)
                    &&& (e == ContractError::TransferNotAllowed <==> old(self).spec_allowance(
                        from,
                        spender,
                        current_ledger,
                    ) >= amount && 1 <= amount && old(self).spec_transfer_selection(
                        from,
                        amount as int,
                    ).len() < amount)
                    &&& (e == ContractError::ComplianceFailed <==> old(self).spec_allowance(
                        from,
                        spender,
                        current_ledger,
                    ) >= amount && 1 <= amount && old(self).spec_transfer_selection(
                        from,
                        amount as int,
                    ).len() == amount && !old(self).spec_compliance_approves(validation))
                },
            },
    {
        let new_allowance = match self.spend_allowance(from, spender, amount, current_ledger) {
            Ok(a) => a,
            Err(e) => {
                return Err(e);
            },
        };
        match self.transfer_amount_internal(from, to, amount, validation) {
            Ok(()) => {},
            Err(e) => {
                return Err(e);
            },
        }
        let key = crate::state::pair_key(from, spender);
        self.allowances.insert(key, new_allowance);
        Ok(())
    }
}

} // verus!
