//! The append-only audit trail.  Every state-changing operation publishes a
//! structured event after its mutation succeeds; the registry itself never
//! reads an event back.

use vstd::prelude::*;
use crate::types::Account;
use crate::types::AssetStatus;

verus! {

/// Published once per mint, carrying the new token's identity and the parts
/// of its metadata an auditor indexes by.
#[derive(Debug)]
pub struct MintEvent {
    pub token_id: u32,
    pub owner: Account,
    pub project_id: String,
    pub vintage_year: u64,
    pub methodology_id: u32,
}

/// Published once per individual token move.
#[derive(Clone, Copy, Debug, PartialEq, Eq, Structural)]
pub struct TransferEvent {
    pub token_id: u32,
    pub from: Account,
    pub to: Account,
}

/// Published whenever a token's status actually changes.  `old_status` is
/// `None` only for the implicit `Issued` assignment at mint.
#[derive(Clone, Copy, Debug, PartialEq, Eq, Structural)]
pub struct StatusChangeEvent {
    pub token_id: u32,
    pub old_status: Option<AssetStatus>,
    pub new_status: AssetStatus,
    pub changed_by: Account,
}

/// Published when the admin or the oracle rewrites a token's quality score.
#[derive(Clone, Copy, Debug, PartialEq, Eq, Structural)]
pub struct QualityScoreUpdatedEvent {
    pub token_id: u32,
    pub old_score: i128,
    pub new_score: i128,
    pub updated_by: Account,
}

/// Published when an owner grants a spender a count-based allowance.
#[derive(Clone, Copy, Debug, PartialEq, Eq, Structural)]
pub struct ApproveEvent {
    pub from: Account,
    pub spender: Account,
    pub amount: i128,
    pub live_until_ledger: u32,
}

/// Published once per successful count-based transfer, covering the whole
/// batch.
#[derive(Clone, Copy, Debug, PartialEq, Eq, Structural)]
pub struct Sep41TransferEvent {
    pub from: Account,
    pub to: Account,
    pub amount: i128,
}

/// Published once per successful count-based burn, covering the whole batch.
#[derive(Clone, Copy, Debug, PartialEq, Eq, Structural)]
pub struct Sep41BurnEvent {
    pub from: Account,
    pub amount: i128,
}

/// One record of the audit trail.
#[derive(Debug)]
pub enum Event {
    Mint(MintEvent),
    Transfer(TransferEvent),
    StatusChange(StatusChangeEvent),
    QualityScoreUpdated(QualityScoreUpdatedEvent),
    Approve(ApproveEvent),
    Sep41Transfer(Sep41TransferEvent),
    Sep41Burn(Sep41BurnEvent),
}

impl Event {
    /// Returns whether this record is a batch (count-based) transfer event.
    pub fn is_sep41_transfer(&self) -> (r: bool)
        ensures
            r == (self is Sep41Transfer),
    {
        match self {
            Event::Sep41Transfer(_) => true,
            _ => false,
        }
    }

    /// Returns whether this record is a batch (count-based) burn event.
    pub fn is_sep41_burn(&self) -> (r: bool)
        ensures
            r == (self is Sep41Burn),
    {
        match self {
            Event::Sep41Burn(_) => true,
            _ => false,
        }
    }
}

} // verus!
