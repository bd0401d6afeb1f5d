//! A tokenized registry of carbon-credit instruments.
//!
//! Each instrument is a uniquely identified, non-fungible record with
//! immutable metadata, a lifecycle status, a quality score and an owner,
//! while the registry also offers a fungible-style transfer/allowance
//! interface that operates over counts of instruments.
//!
//! The registry is designed to run as an isolated unit of logic invoked
//! transactionally by an external ledger host.  Everything the host
//! provides is modelled explicitly:
//! - the host's key-value store is the [`CarbonAsset`] state itself;
//! - the host's ledger-height clock is a `current_ledger` argument;
//! - authorization ("account X has signed this invocation") is attested by
//!   the shell that drives the registry, while the rules deciding *which*
//!   account must have signed are checked here;
//! - the verdict of an external regulatory-check collaborator is handed in
//!   as a [`types::ValidationResult`] argument.
//!
//! Every public operation is all-or-nothing: on any error the state is
//! unchanged, and events are appended only by successful operations.
//! Because the collaborator's verdict arrives as a value rather than as a
//! call into foreign code, no foreign code ever runs while a transfer is
//! mid-flight: the reentrancy window the synchronous call-out would open
//! is closed by construction.

pub mod allowance;
pub mod burn;
pub mod events;
pub mod laws;
pub mod mint;
pub mod owner_index;
pub mod state;
pub mod status;
pub mod transfer;
pub mod types;

pub use state::CarbonAsset;
pub use state::Config;
pub use state::TokenEntry;
pub use types::Account;
pub use types::AllowanceData;
pub use types::AssetStatus;
pub use types::CarbonAssetMetadata;
pub use types::ContractError;
pub use types::OperationType;
pub use types::ValidationResult;
