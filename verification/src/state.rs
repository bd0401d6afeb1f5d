//! The registry state and its well-formedness invariant.
//!
//! The ledger host's transactional key-value store is modelled as explicit
//! typed fields: a configuration scope (one optional [`Config`] record plus
//! the next-token-id counter it carries) and an entry scope (per-token
//! records, the per-account ownership index and the per-pair allowance
//! table).  This module also holds the read-only operation surface, the
//! one-time `initialize` operation and the admin configuration setters.

use vstd::prelude::*;
use std::collections::HashMap;
use crate::events::Event;
use crate::types::Account;
use crate::types::AllowanceData;
use crate::types::AssetStatus;
use crate::types::CarbonAssetMetadata;
use crate::types::ContractError;

verus! {

broadcast use vstd::std_specs::hash::group_hash_axioms;

/// The configuration scope of the durable store.  It exists as a whole from
/// the moment `initialize` succeeds: that one operation writes every one of
/// these keys, so their presence is all-or-nothing.
pub struct Config {
    /// The account allowed to mint, change statuses and reconfigure.
    pub admin: Account,
    /// Display name of the asset.
    pub name: String,
    /// Display symbol of the asset.
    pub symbol: String,
    /// Always zero: the instruments are indivisible.
    pub decimals: u32,
    /// The sole account authorized to burn, and the transfer destination
    /// that auto-triggers retirement.
    pub retirement_tracker: Account,
    /// Jurisdiction handed to the regulatory-check collaborator.
    pub host_jurisdiction: String,
    /// The regulatory-check collaborator, when one is configured.
    pub regulatory_check: Option<Account>,
    /// The quality-score oracle, when one is configured.
    pub oracle: Option<Account>,
    /// Identity the next mint will assign; starts at 1 and never re-uses.
    pub next_token_id: u32,
}

/// The per-token entry scope.  `metadata`, `status`, `quality_score` and
/// `burned` persist for the token's whole life, burn included; `owner` is
/// `Some` exactly while the token is in circulation, and `slot` is the
/// token's position in its owner's sequence while it is.
pub struct TokenEntry {
    pub owner: Option<Account>,
    pub slot: usize,
    pub metadata: CarbonAssetMetadata,
    pub status: AssetStatus,
    pub quality_score: i128,
    pub burned: bool,
}

/// The whole registry: the durable store plus the audit trail the host
/// publishes on its behalf.
pub struct CarbonAsset {
    /// Configuration scope; `None` until `initialize`.
    pub config: Option<Config>,
    /// Entry scope, per token: entry `i` is the token with id `i + 1`.
    pub tokens: Vec<TokenEntry>,
    /// Entry scope, per account: the unordered list of held token ids
    /// (append order).  An account with no tokens has no entry.
    pub owner_tokens: HashMap<Account, Vec<u32>>,
    /// Entry scope, per (owner, spender) pair, keyed by [`spec_pair_key`].
    pub allowances: HashMap<u128, AllowanceData>,
    /// Append-only audit trail.
    pub events: Vec<Event>,
}

/// The store key of the allowance record of `(owner, spender)`: the pair
/// packed into one integer, owner in the high half.  The packing is
/// injective, see [`crate::laws::lemma_pair_key_injective`].
pub open spec fn spec_pair_key(owner: Account, spender: Account) -> u128 {
    (owner as int * 0x1_0000_0000_0000_0000 + spender as int) as u128
}

/// Computes the allowance-table key of an (owner, spender) pair.
#[verifier::when_used_as_spec(spec_pair_key)]
pub fn pair_key(owner: Account, spender: Account) -> (k: u128)
    ensures
        k == spec_pair_key(owner, spender),
{
    owner as u128 * 0x1_0000_0000_0000_0000u128 + spender as u128
}

/// Everything of a token entry but its slot.  Moving some other token of
/// the same owner may renumber this token's slot without touching it
/// otherwise; frame conditions use this relation.
pub open spec fn same_token_mod_slot(a: TokenEntry, b: TokenEntry) -> bool {
    &&& a.owner == b.owner
    &&& a.metadata == b.metadata
    &&& a.status == b.status
    &&& a.quality_score == b.quality_score
    &&& a.burned == b.burned
}

impl CarbonAsset {
    /// The registry accepts work only once `initialize` has succeeded.
    pub open spec fn initialized(self) -> bool {
        self.config is Some
    }

    /// The configuration record (meaningful only when initialized).
    pub open spec fn spec_config(self) -> Config {
        self.config->Some_0
    }

    pub open spec fn spec_admin(self) -> Account {
        self.spec_config().admin
    }

    pub open spec fn spec_retirement_tracker(self) -> Account {
        self.spec_config().retirement_tracker
    }

    /// The configured regulatory-check collaborator, if any.
    pub open spec fn spec_regulatory_check(self) -> Option<Account> {
        if self.initialized() {
            self.spec_config().regulatory_check
        } else {
            None
        }
    }

    /// The configured quality-score oracle, if any.
    pub open spec fn spec_oracle(self) -> Option<Account> {
        if self.initialized() {
            self.spec_config().oracle
        } else {
            None
        }
    }

    /// How many tokens have ever been minted (burned ones included).
    pub open spec fn token_count(self) -> int {
        self.tokens@.len() as int
    }

    /// Token ids run from 1 to the number of tokens minted so far.
    pub open spec fn has_token(self, token_id: u32) -> bool {
        1 <= token_id && token_id as int <= self.token_count()
    }

    /// The entry of a minted token (meaningful only when `has_token`).
    pub open spec fn spec_token(self, token_id: u32) -> TokenEntry {
        self.tokens@[token_id as int - 1]
    }

    /// The sequence of token ids an account currently holds; empty when the
    /// account has no entry.
    pub open spec fn owner_seq(self, account: Account) -> Seq<u32> {
        if self.owner_tokens@.contains_key(account) {
            self.owner_tokens@[account]@
        } else {
            Seq::empty()
        }
    }

    /// How many tokens an account currently holds.
    pub open spec fn spec_balance_of(self, account: Account) -> int {
        self.owner_seq(account).len() as int
    }

    /// The stored allowance record of a pair, if any.
    pub open spec fn spec_allowance_record(self, owner: Account, spender: Account) -> Option<
        AllowanceData,
    > {
        if self.allowances@.contains_key(spec_pair_key(owner, spender)) {
            Some(self.allowances@[spec_pair_key(owner, spender)])
        } else {
            None
        }
    }

    /// The allowance a spender can draw on at ledger height `current`:
    /// zero when no record exists or the record's expiry lies strictly
    /// behind the current height, the stored amount otherwise.
    pub open spec fn spec_allowance(self, owner: Account, spender: Account, current: u32) -> i128 {
        match self.spec_allowance_record(owner, spender) {
            Some(a) => if a.live_until_ledger < current {
                0
            } else {
                a.amount
            },
            None => 0,
        }
    }

    /// Configuration-scope consistency: once initialized, the counter is
    /// one past the last minted id and decimals are pinned at zero; before
    /// initialization nothing has been minted.
    pub open spec fn config_wf(self) -> bool {
        match self.config {
            Some(c) => c.next_token_id as int == self.token_count() + 1 && c.decimals == 0,
            None => self.token_count() == 0,
        }
    }

    /// Every per-account sequence is non-empty (empty ones are deleted) and
    /// lists valid token ids whose entries point back at their position.
    pub open spec fn owner_lists_wf(self) -> bool {
        &&& forall|a: Account| #[trigger]
            self.owner_tokens@.contains_key(a) ==> self.owner_seq(a).len() > 0
        &&& forall|a: Account, j: int|
            #![trigger self.owner_seq(a)[j]]
            self.owner_tokens@.contains_key(a) && 0 <= j < self.owner_seq(a).len() ==> {
                &&& 1 <= self.owner_seq(a)[j]
                &&& self.owner_seq(a)[j] as int <= self.token_count()
                &&& self.spec_token(self.owner_seq(a)[j]).owner == Some(a)
                &&& self.spec_token(self.owner_seq(a)[j]).slot == j
            }
    }

    /// Every currently-owned token sits in its owner's sequence at the slot
    /// its entry records.
    pub open spec fn back_pointers_wf(self) -> bool {
        forall|i: int|
            0 <= i < self.token_count() ==> ((#[trigger] self.tokens@[i]).owner matches Some(a)
                ==> {
                &&& self.owner_tokens@.contains_key(a)
                &&& (self.tokens@[i].slot as int) < self.owner_seq(a).len()
                &&& self.owner_seq(a)[self.tokens@[i].slot as int] == (i + 1) as u32
            })
    }

    /// At operation boundaries a token has an owner record if and only if
    /// it has not been burned.
    pub open spec fn burn_wf(self) -> bool {
        forall|i: int|
            0 <= i < self.token_count() ==> (((#[trigger] self.tokens@[i]).owner is None)
                <==> self.tokens@[i].burned)
    }

    /// The two directions of the ownership index together with the
    /// configuration-scope consistency, but without the burn relation: the
    /// index helpers briefly detach a token from any owner while a transfer
    /// or burn is mid-flight.
    pub open spec fn index_wf(self) -> bool {
        &&& self.config_wf()
        &&& self.owner_lists_wf()
        &&& self.back_pointers_wf()
    }

    /// Well-formedness at public-operation boundaries.  Every public
    /// operation requires it of the state it is given and re-establishes it.
    pub open spec fn wf(self) -> bool {
        &&& self.index_wf()
        &&& self.burn_wf()
    }

    /// An empty registry, as the host hands the contract its blank store.
    pub fn new() -> (r: CarbonAsset)
        ensures
            r.wf(),
            !r.initialized(),
            r.tokens@ == Seq::<TokenEntry>::empty(),
            r.owner_tokens@ == Map::<Account, Vec<u32>>::empty(),
            r.allowances@ == Map::<u128, AllowanceData>::empty(),
            r.events@ == Seq::<Event>::empty(),
    {
        CarbonAsset {
            config: None,
            tokens: Vec::new(),
            owner_tokens: HashMap::new(),
            allowances: HashMap::new(),
            events: Vec::new(),
        }
    }

    /// One-time setup: records the admin, the naming, the retirement
    /// tracker and the host jurisdiction, fixes decimals at zero and starts
    /// the id counter at 1.  Fails `AlreadyInitialized` on any later call,
    /// changing nothing.  The host attests that `admin` authorized the call.
    pub fn initialize(
        &mut self,
        admin: Account,
        name: String,
        symbol: String,
        retirement_tracker: Account,
        host_jurisdiction: String,
    ) -> (r: Result<(), ContractError>)
        requires
            old(self).wf(),
        ensures
            final(self).wf(),
            match r {
                Ok(()) => {
                    &&& !old(self).initialized()
                    &&& final(self).config == Some(
                        Config {
                            admin,
                            name,
                            symbol,
                            decimals: 0,
                            retirement_tracker,
                            host_jurisdiction,
                            regulatory_check: None,
                            oracle: None,
                            next_token_id: 1,
                        },
                    )
                    &&& final(self).tokens@ == old(self).tokens@
                    &&& final(self).owner_tokens@ == old(self).owner_tokens@
                    &&& final(self).allowances@ == old(self).allowances@
                    &&& final(self).events@ == old(self).events@
                },
                Err(e) => {
                    &&& e == ContractError::AlreadyInitialized
                    &&& old(self).initialized()
                    &&& *final(self) == *old(self)
                },
            },
    {
        if self.config.is_some() {
            return Err(ContractError::AlreadyInitialized);
        }
        self.config = Some(
            Config {
                admin,
                name,
                symbol,
                decimals: 0,
                retirement_tracker,
                host_jurisdiction,
                regulatory_check: None,
                oracle: None,
                next_token_id: 1,
            },
        );
        Ok(())
    }

    /// The registry admin.  Fails `NotInitialized` before setup.
    pub fn get_admin(&self) -> (r: Result<Account, ContractError>)
        ensures
            match r {
                Ok(a) => self.initialized() && a == self.spec_admin(),
                Err(e) => e == ContractError::NotInitialized && !self.initialized(),
            },
    {
        match &self.config {
            Some(c) => Ok(c.admin),
            None => Err(ContractError::NotInitialized),
        }
    }

    /// The asset name.  Fails `NotInitialized` before setup.
    pub fn get_name(&self) -> (r: Result<String, ContractError>)
        ensures
            match r {
                Ok(n) => self.initialized() && n == self.spec_config().name,
                Err(e) => e == ContractError::NotInitialized && !self.initialized(),
            },
    {
        match &self.config {
            Some(c) => Ok(c.name.clone()),
            None => Err(ContractError::NotInitialized),
        }
    }

    /// The asset symbol.  Fails `NotInitialized` before setup.
    pub fn get_symbol(&self) -> (r: Result<String, ContractError>)
        ensures
            match r {
                Ok(s) => self.initialized() && s == self.spec_config().symbol,
                Err(e) => e == ContractError::NotInitialized && !self.initialized(),
            },
    {
        match &self.config {
            Some(c) => Ok(c.symbol.clone()),
            None => Err(ContractError::NotInitialized),
        }
    }

    /// Number of decimal places of the count-based interface; zero before
    /// setup and pinned at zero by the invariant afterwards.
    pub fn decimals(&self) -> (r: u32)
        ensures
            r == (if self.initialized() {
                self.spec_config().decimals
            } else {
                0u32
            }),
            self.wf() ==> r == 0u32,
    {
        match &self.config {
            Some(c) => c.decimals,
            None => 0,
        }
    }

    /// The asset name, for callers that know the registry is set up.
    pub fn name(&self) -> (r: String)
        requires
            self.initialized(),
        ensures
            r == self.spec_config().name,
    {
        match &self.config {
            Some(c) => c.name.clone(),
            None => unreached(),
        }
    }

    /// The asset symbol, for callers that know the registry is set up.
    pub fn symbol(&self) -> (r: String)
        requires
            self.initialized(),
        ensures
            r == self.spec_config().symbol,
    {
        match &self.config {
            Some(c) => c.symbol.clone(),
            None => unreached(),
        }
    }

    /// The retirement tracker.  Fails `NotInitialized` before setup.
    pub fn get_retirement_tracker(&self) -> (r: Result<Account, ContractError>)
        ensures
            match r {
                Ok(a) => self.initialized() && a == self.spec_retirement_tracker(),
                Err(e) => e == ContractError::NotInitialized && !self.initialized(),
            },
    {
        match &self.config {
            Some(c) => Ok(c.retirement_tracker),
            None => Err(ContractError::NotInitialized),
        }
    }

    /// The regulatory-check collaborator, `None` when none is configured
    /// (or before setup).
    pub fn get_regulatory_check(&self) -> (r: Option<Account>)
        ensures
            r == self.spec_regulatory_check(),
    {
        match &self.config {
            Some(c) => c.regulatory_check,
            None => None,
        }
    }

    /// The host jurisdiction, `None` before setup.
    pub fn get_host_jurisdiction(&self) -> (r: Option<String>)
        ensures
            match r {
                Some(j) => self.initialized() && j == self.spec_config().host_jurisdiction,
                None => !self.initialized(),
            },
    {
        match &self.config {
            Some(c) => Some(c.host_jurisdiction.clone()),
            None => None,
        }
    }

    /// The quality-score oracle, `None` when none is configured (or before
    /// setup).
    pub fn get_oracle(&self) -> (r: Option<Account>)
        ensures
            r == self.spec_oracle(),
    {
        match &self.config {
            Some(c) => c.oracle,
            None => None,
        }
    }

    /// The current owner of a token.  Fails `TokenNotFound` for an id that
    /// was never minted and for a burned token (ownership ends at burn).
    pub fn owner_of(&self, token_id: u32) -> (r: Result<Account, ContractError>)
        ensures
            match r {
                Ok(a) => self.has_token(token_id) && !self.spec_token(token_id).burned
                    && self.spec_token(token_id).owner == Some(a),
                Err(e) => {
                    &&& e == ContractError::TokenNotFound
                    &&& !(self.has_token(token_id) && !self.spec_token(token_id).burned
                        && self.spec_token(token_id).owner is Some)
                },
            },
    {
        if token_id == 0 || token_id as usize > self.tokens.len() {
            return Err(ContractError::TokenNotFound);
        }
        let entry = &self.tokens[(token_id - 1) as usize];
        if entry.burned {
            return Err(ContractError::TokenNotFound);
        }
        match entry.owner {
            Some(a) => Ok(a),
            None => Err(ContractError::TokenNotFound),
        }
    }

    /// The immutable metadata of a token; available for burned tokens too.
    /// Fails `TokenNotFound` only for an id that was never minted.
    pub fn get_metadata(&self, token_id: u32) -> (r: Result<CarbonAssetMetadata, ContractError>)
        ensures
            match r {
                Ok(m) => self.has_token(token_id) && m == self.spec_token(token_id).metadata,
                Err(e) => e == ContractError::TokenNotFound && !self.has_token(token_id),
            },
    {
        if token_id == 0 || token_id as usize > self.tokens.len() {
            return Err(ContractError::TokenNotFound);
        }
        Ok(self.tokens[(token_id - 1) as usize].metadata.clone())
    }

    /// The lifecycle status of a token; available for burned tokens too.
    /// Fails `TokenNotFound` only for an id that was never minted.
    pub fn get_status(&self, token_id: u32) -> (r: Result<AssetStatus, ContractError>)
        ensures
            match r {
                Ok(s) => self.has_token(token_id) && s == self.spec_token(token_id).status,
                Err(e) => e == ContractError::TokenNotFound && !self.has_token(token_id),
            },
    {
        if token_id == 0 || token_id as usize > self.tokens.len() {
            return Err(ContractError::TokenNotFound);
        }
        Ok(self.tokens[(token_id - 1) as usize].status)
    }

    /// The quality score of a token; available for burned tokens too.
    /// Fails `TokenNotFound` only for an id that was never minted.
    pub fn get_quality_score(&self, token_id: u32) -> (r: Result<i128, ContractError>)
        ensures
            match r {
                Ok(q) => self.has_token(token_id) && q == self.spec_token(token_id).quality_score,
                Err(e) => e == ContractError::TokenNotFound && !self.has_token(token_id),
            },
    {
        if token_id == 0 || token_id as usize > self.tokens.len() {
            return Err(ContractError::TokenNotFound);
        }
        Ok(self.tokens[(token_id - 1) as usize].quality_score)
    }

    /// Whether a token has been burned.  Fails `TokenNotFound` only for an
    /// id that was never minted.
    pub fn is_burned(&self, token_id: u32) -> (r: Result<bool, ContractError>)
        ensures
            match r {
                Ok(b) => self.has_token(token_id) && b == self.spec_token(token_id).burned,
                Err(e) => e == ContractError::TokenNotFound && !self.has_token(token_id),
            },
    {
        if token_id == 0 || token_id as usize > self.tokens.len() {
            return Err(ContractError::TokenNotFound);
        }
        Ok(self.tokens[(token_id - 1) as usize].burned)
    }

    /// How many tokens an account holds; zero for an unknown account.
    pub fn balance_of(&self, owner: Account) -> (r: i128)
        ensures
            r == self.spec_balance_of(owner),
    {
        match self.owner_tokens.get(&owner) {
            Some(list) => list.len() as i128,
            None => 0,
        }
    }

    /// Count-based alias of [`Self::balance_of`].
    pub fn balance(&self, owner: Account) -> (r: i128)
        ensures
            r == self.spec_balance_of(owner),
    {
        self.balance_of(owner)
    }

    /// The token ids an account currently holds, in the index's order:
    /// append order, reshuffled by swap-removals.
    pub fn tokens_of_owner(&self, owner: Account) -> (r: Vec<u32>)
        ensures
            r@ == self.owner_seq(owner),
    {
        match self.owner_tokens.get(&owner) {
            Some(list) => {
                let copy = list.clone();
                proof {
                    assert(copy@ =~= list@);
                }
                copy
            },
            None => Vec::new(),
        }
    }

    /// The audit trail so far, oldest record first.
    pub fn events(&self) -> (r: &Vec<Event>)
        ensures
            r@ == self.events@,
    {
        &self.events
    }

    /// Replaces the retirement tracker.  Admin only; the host attests that
    /// `caller` authorized the call.
    pub fn set_retirement_tracker(
        &mut self,
        caller: Account,
        retirement_tracker: Account,
    ) -> (r: Result<(), ContractError>)
        requires
            old(self).wf(),
        ensures
            final(self).wf(),
            match r {
                Ok(()) => {
                    &&& old(self).initialized()
                    &&& caller == old(self).spec_admin()
                    &&& final(self).config == Some(
                        Config {
                            retirement_tracker,
                            ..old(self).spec_config()
                        },
                    )
                    &&& final(self).tokens@ == old(self).tokens@
                    &&& final(self).owner_tokens@ == old(self).owner_tokens@
                    &&& final(self).allowances@ == old(self).allowances@
                    &&& final(self).events@ == old(self).events@
                },
                Err(e) => {
                    &&& *final(self) == *old(self)
                    &&& (e == ContractError::NotInitialized || e == ContractError::NotAuthorized)
                    &&& (e == ContractError::NotInitialized <==> !old(self).initialized())
                    &&& (e == ContractError::NotAuthorized <==> old(self).initialized() && caller
                        != old(self).spec_admin())
                },
            },
    {
        let admin = self.get_admin()?;
        if caller != admin {
            return Err(ContractError::NotAuthorized);
        }
        match &mut self.config {
            Some(c) => {
                c.retirement_tracker = retirement_tracker;
                Ok(())
            },
            None => unreached(),
        }
    }

    /// Configures (or replaces) the regulatory-check collaborator.  Admin
    /// only; the host attests that `caller` authorized the call.
    pub fn set_regulatory_check(
        &mut self,
        caller: Account,
        regulatory_check: Account,
    ) -> (r: Result<(), ContractError>)
        requires
            old(self).wf(),
        ensures
            final(self).wf(),
            match r {
                Ok(()) => {
                    &&& old(self).initialized()
                    &&& caller == old(self).spec_admin()
                    &&& final(self).config == Some(
                        Config {
                            regulatory_check: Some(regulatory_check),
                            ..old(self).spec_config()
                        },
                    )
                    &&& final(self).tokens@ == old(self).tokens@
                    &&& final(self).owner_tokens@ == old(self).owner_tokens@
                    &&& final(self).allowances@ == old(self).allowances@
                    &&& final(self).events@ == old(self).events@
                },
                Err(e) => {
                    &&& *final(self) == *old(self)
                    &&& (e == ContractError::NotInitialized || e == ContractError::NotAuthorized)
                    &&& (e == ContractError::NotInitialized <==> !old(self).initialized())
                    &&& (e == ContractError::NotAuthorized <==> old(self).initialized() && caller
                        != old(self).spec_admin())
                },
            },
    {
        let admin = self.get_admin()?;
        if caller != admin {
            return Err(ContractError::NotAuthorized);
        }
        match &mut self.config {
            Some(c) => {
                c.regulatory_check = Some(regulatory_check);
                Ok(())
            },
            None => unreached(),
        }
    }

    /// Replaces the host jurisdiction.  Admin only; the host attests that
    /// `caller` authorized the call.
    pub fn set_host_jurisdiction(
        &mut self,
        caller: Account,
        host_jurisdiction: String,
    ) -> (r: Result<(), ContractError>)
        requires
            old(self).wf(),
        ensures
            final(self).wf(),
            match r {
                Ok(()) => {
                    &&& old(self).initialized()
                    &&& caller == old(self).spec_admin()
                    &&& final(self).config == Some(
                        Config {
                            host_jurisdiction,
                            ..old(self).spec_config()
                        },
                    )
                    &&& final(self).tokens@ == old(self).tokens@
                    &&& final(self).owner_tokens@ == old(self).owner_tokens@
                    &&& final(self).allowances@ == old(self).allowances@
                    &&& final(self).events@ == old(self).events@
                },
                Err(e) => {
                    &&& *final(self) == *old(self)
                    &&& (e == ContractError::NotInitialized || e == ContractError::NotAuthorized)
                    &&& (e == ContractError::NotInitialized <==> !old(self).initialized())
                    &&& (e == ContractError::NotAuthorized <==> old(self).initialized() && caller
                        != old(self).spec_admin())
                },
            },
    {
        let admin = self.get_admin()?;
        if caller != admin {
            return Err(ContractError::NotAuthorized);
        }
        match &mut self.config {
            Some(c) => {
                c.host_jurisdiction = host_jurisdiction;
                Ok(())
            },
            None => unreached(),
        }
    }
}

} // verus!
