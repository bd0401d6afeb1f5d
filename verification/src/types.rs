//! Core data types of the registry: accounts, token metadata, lifecycle
//! status, allowances, the regulatory-check interface types and the error
//! kinds of every fallible operation.

use vstd::prelude::*;

verus! {

/// An account identifier of the ledger host.  The host addresses are opaque
/// to the registry: all it ever does is compare them for equality and key
/// records by them, so they are modelled as plain integers.
pub type Account = u64;

/// Lifecycle status of a token.  `Issued` is the only initial status;
/// `Retired` and `Invalidated` are terminal (frozen).
#[derive(Clone, Copy, Debug, PartialEq, Eq, Structural)]
pub enum AssetStatus {
    Issued,
    Listed,
    Locked,
    Retired,
    Invalidated,
}

/// Metadata of a carbon-credit instrument, immutable after mint.
#[derive(Debug)]
pub struct CarbonAssetMetadata {
    pub project_id: String,
    pub vintage_year: u64,
    pub methodology_id: u32,
    pub geo_hash: [u8; 32],
}

impl Clone for CarbonAssetMetadata {
    /// An explicit clone, so that callers know the copy equals its source.
    fn clone(&self) -> (r: Self)
        ensures
            r == *self,
    {
        CarbonAssetMetadata {
            project_id: self.project_id.clone(),
            vintage_year: self.vintage_year,
            methodology_id: self.methodology_id,
            geo_hash: self.geo_hash,
        }
    }
}

/// How a transfer is classified when the regulatory-check collaborator is
/// consulted: a move to the retirement tracker is a retirement, any other
/// move is an ordinary transfer.
#[derive(Clone, Copy, Debug, PartialEq, Eq, Structural)]
pub enum OperationType {
    TRANSFER,
    RETIREMENT,
}

/// The verdict returned by the external regulatory-check collaborator's
/// `validate_transaction` operation.  The registry approves a transfer only
/// if the verdict reports compliance and does not additionally require a
/// manual authorization.
#[derive(Debug)]
pub struct ValidationResult {
    pub is_compliant: bool,
    pub rule_id: Option<String>,
    pub requires_authorization: bool,
    pub authority_address: Option<Account>,
    pub error_message: Option<String>,
}

/// A per-(owner, spender) authorization to move up to `amount` instruments
/// on the owner's behalf, valid through ledger height `live_until_ledger`.
#[derive(Clone, Copy, Debug, PartialEq, Eq, Structural)]
pub struct AllowanceData {
    pub amount: i128,
    pub live_until_ledger: u32,
}

/// Everything the regulatory-check collaborator must be handed:
/// the parties, the operation class, and the registry's host jurisdiction.
#[derive(Debug)]
pub struct ValidationRequest {
    pub from: Account,
    pub to: Account,
    pub operation: OperationType,
    pub jurisdiction: String,
}

/// The typed outcome of every fallible registry operation.  Errors are
/// returned, never silently defaulted, and an operation that errs leaves
/// the registry state unchanged.
#[derive(Clone, Copy, Debug, PartialEq, Eq, Structural)]
pub enum ContractError {
    /// `initialize` was called on an already configured registry.
    AlreadyInitialized,
    /// A configuration key was read before `initialize`.
    NotInitialized,
    /// The acting account lacks the right the operation demands.
    NotAuthorized,
    /// The named account does not own the token.
    NotOwner,
    /// The token id was never minted, or the token no longer has an owner
    /// record (it was burned).
    TokenNotFound,
    /// Reserved for a burn of an already burned token; the ownership check
    /// reports such a token as `TokenNotFound` first, so no operation
    /// currently returns this kind.
    TokenAlreadyBurned,
    /// The token's status is terminal (`Retired`, or `Invalidated` for a
    /// blocked burn) and admits no change.
    StatusFrozen,
    /// An invalid argument: an explicit change to `Issued`, a non-positive
    /// count, or a nonzero approval that would start out expired.
    InvalidStatusTransition,
    /// Fewer tokens qualify than the count-based operation asked for, or a
    /// by-id transfer found the token in a non-transferable status.
    TransferNotAllowed,
    /// The regulatory-check collaborator declined the transfer, or its
    /// verdict was not obtained.
    ComplianceFailed,
    /// Reserved for a compliance check without a configured jurisdiction;
    /// `initialize` always records one, so no operation currently returns
    /// this kind.
    HostJurisdictionNotSet,
}

impl AssetStatus {
    /// A frozen status admits no further status change.
    pub open spec fn spec_is_frozen(self) -> bool {
        self == AssetStatus::Retired || self == AssetStatus::Invalidated
    }

    /// Returns whether this status is terminal (`Retired` or `Invalidated`).
    pub fn is_frozen(self) -> (r: bool)
        ensures
            r == self.spec_is_frozen(),
    {
        self == AssetStatus::Retired || self == AssetStatus::Invalidated
    }

    /// Only an `Issued` or `Listed` token may move between accounts.
    pub open spec fn spec_is_transferable(self) -> bool {
        self == AssetStatus::Issued || self == AssetStatus::Listed
    }

    /// Returns whether a token in this status may be transferred.
    pub fn is_transferable(self) -> (r: bool)
        ensures
            r == self.spec_is_transferable(),
    {
        self == AssetStatus::Issued || self == AssetStatus::Listed
    }
}

impl ValidationResult {
    /// A verdict lets a transfer proceed when it is compliant and does
    /// not ask for a separate sign-off.
    pub open spec fn spec_approves(self) -> bool {
        self.is_compliant && !self.requires_authorization
    }

    /// Returns whether this verdict lets a transfer proceed.
    pub fn approves(&self) -> (r: bool)
        ensures
            r == self.spec_approves(),
    {
        self.is_compliant && !self.requires_authorization
    }
}

} // verus!
