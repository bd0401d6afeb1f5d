//! Registry-wide laws: properties that relate several operations or hold
//! of every reachable state.  Per-operation guarantees (what a mint
//! returns, when a status change is refused, when a transfer is owed
//! success) live in the `ensures` of the operations themselves; the proof
//! functions here state what those contracts add up to.

use vstd::prelude::*;
use crate::state::CarbonAsset;
use crate::state::spec_pair_key;
use crate::types::Account;
use crate::types::AllowanceData;

verus! {

/// Distinct (owner, spender) pairs never share an allowance-table key, so
/// one pair's approval or spend can never disturb another's record.
pub proof fn lemma_pair_key_injective(o1: Account, s1: Account, o2: Account, s2: Account)
    requires
        spec_pair_key(o1, s1) == spec_pair_key(o2, s2),
    ensures
        o1 == o2 && s1 == s2,
{
    assert(o1 == o2 && s1 == s2) by (nonlinear_arith)
        requires
            o1 as int * 0x1_0000_0000_0000_0000 + s1 as int == o2 as int * 0x1_0000_0000_0000_0000
                + s2 as int,
            s1 <= 0xffff_ffff_ffff_ffffu64,
            s2 <= 0xffff_ffff_ffff_ffffu64,
    ;
}

/// The ownership-index law: in every well-formed state — and every
/// operation both demands and re-establishes well-formedness — an
/// account's listed tokens number exactly its balance, each listed id is a
/// live (unburned) token owned by that account whose back-pointer names
/// its position, and no id appears twice.
pub proof fn lemma_ownership_index_consistent(s: CarbonAsset, account: Account)
    requires
        s.wf(),
    ensures
        s.owner_seq(account).len() == s.spec_balance_of(account),
        forall|j: int|
            0 <= j < s.owner_seq(account).len() ==> {
                &&& s.has_token(#[trigger] s.owner_seq(account)[j])
                &&& s.spec_token(s.owner_seq(account)[j]).owner == Some(account)
                &&& s.spec_token(s.owner_seq(account)[j]).slot == j
                &&& !s.spec_token(s.owner_seq(account)[j]).burned
            },
        s.owner_seq(account).no_duplicates(),
{
    s.lemma_owner_seq_distinct(account);
    if s.owner_tokens@.contains_key(account) {
        assert forall|j: int| 0 <= j < s.owner_seq(account).len() implies {
            &&& s.has_token(#[trigger] s.owner_seq(account)[j])
            &&& s.spec_token(s.owner_seq(account)[j]).owner == Some(account)
            &&& s.spec_token(s.owner_seq(account)[j]).slot == j
            &&& !s.spec_token(s.owner_seq(account)[j]).burned
        } by {
            let id = s.owner_seq(account)[j];
            assert(s.spec_token(id).owner == Some(account));
        }
    }
}

/// The allowance-expiry law: a stored approval of any amount, once the
/// current ledger height has passed its expiry, reads as zero — so a spend
/// of any positive amount against it is refused (`transfer_from` then
/// fails `NotAuthorized`, by its own contract).  `approve` ensures the
/// stored record is exactly `(amount, live_until_ledger)`, which this law
/// takes as its premise.
pub proof fn lemma_allowance_expires(
    s: CarbonAsset,
    owner: Account,
    spender: Account,
    record: AllowanceData,
    current: u32,
    amount: i128,
)
    requires
        s.spec_allowance_record(owner, spender) == Some(record),
        record.live_until_ledger < current,
        amount > 0,
    ensures
        s.spec_allowance(owner, spender, current) == 0,
        s.spec_allowance(owner, spender, current) < amount,
{
}

} // verus!
