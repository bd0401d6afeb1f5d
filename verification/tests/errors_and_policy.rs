//! Inputs that produce each error kind, the status state machine's
//! freezing rules, quality-score authorization, and the deliberately
//! order-dependent first-fit selection of the count-based operations.

use carbon_asset::events::Event;
use carbon_asset::types::AssetStatus;
use carbon_asset::types::CarbonAssetMetadata;
use carbon_asset::types::ContractError;
use carbon_asset::CarbonAsset;

const ADMIN: u64 = 1;
const TRACKER: u64 = 2;
const OWNER: u64 = 3;
const BUYER: u64 = 4;
const ORACLE: u64 = 7;
const STRANGER: u64 = 8;

fn setup() -> CarbonAsset {
    let mut reg = CarbonAsset::new();
    reg.initialize(
        ADMIN,
        String::from("Carbon Asset"),
        String::from("C01"),
        TRACKER,
        String::from("US"),
    )
    .unwrap();
    reg
}

fn meta(project: &str) -> CarbonAssetMetadata {
    CarbonAssetMetadata {
        project_id: String::from(project),
        vintage_year: 1704067200,
        methodology_id: 1,
        geo_hash: [7; 32],
    }
}

#[test]
fn operations_before_initialization_fail() {
    let mut reg = CarbonAsset::new();
    assert_eq!(
        reg.mint(ADMIN, OWNER, meta("PROJ-A")),
        Err(ContractError::NotInitialized)
    );
    assert_eq!(reg.get_admin(), Err(ContractError::NotInitialized));
    assert_eq!(reg.burn(OWNER, 1), Err(ContractError::NotInitialized));
    assert_eq!(reg.get_regulatory_check(), None);
    assert_eq!(reg.get_oracle(), None);
    assert_eq!(reg.get_host_jurisdiction(), None);
    assert_eq!(reg.decimals(), 0);
}

#[test]
fn non_admin_calls_are_rejected() {
    let mut reg = setup();
    assert_eq!(
        reg.mint(STRANGER, OWNER, meta("PROJ-A")),
        Err(ContractError::NotAuthorized)
    );
    assert_eq!(
        reg.set_retirement_tracker(STRANGER, STRANGER),
        Err(ContractError::NotAuthorized)
    );
    assert_eq!(
        reg.set_regulatory_check(STRANGER, STRANGER),
        Err(ContractError::NotAuthorized)
    );
    assert_eq!(
        reg.set_host_jurisdiction(STRANGER, String::from("EU")),
        Err(ContractError::NotAuthorized)
    );
    assert_eq!(reg.set_oracle(STRANGER, ORACLE), Err(ContractError::NotAuthorized));
    let token_id = reg.mint(ADMIN, OWNER, meta("PROJ-A")).unwrap();
    assert_eq!(
        reg.set_status(STRANGER, token_id, AssetStatus::Listed),
        Err(ContractError::NotAuthorized)
    );
    assert_eq!(
        reg.burn_from(STRANGER, OWNER, 1),
        Err(ContractError::NotAuthorized)
    );
}

#[test]
fn unknown_tokens_are_not_found() {
    let reg = setup();
    assert_eq!(reg.owner_of(1), Err(ContractError::TokenNotFound));
    assert_eq!(reg.get_metadata(99).unwrap_err(), ContractError::TokenNotFound);
    assert_eq!(reg.get_status(99), Err(ContractError::TokenNotFound));
    assert_eq!(reg.get_quality_score(99), Err(ContractError::TokenNotFound));
    assert_eq!(reg.is_burned(0), Err(ContractError::TokenNotFound));
}

#[test]
fn status_machine_freezes_terminal_states() {
    let mut reg = setup();
    let a = reg.mint(ADMIN, OWNER, meta("PROJ-A")).unwrap();
    let b = reg.mint(ADMIN, OWNER, meta("PROJ-A")).unwrap();

    // Issued cannot be re-entered by an explicit change.
    assert_eq!(
        reg.set_status(ADMIN, a, AssetStatus::Issued),
        Err(ContractError::InvalidStatusTransition)
    );
    // A same-status write on a live token succeeds without an event.
    let before = reg.events().len();
    reg.set_status(ADMIN, a, AssetStatus::Listed).unwrap();
    reg.set_status(ADMIN, a, AssetStatus::Listed).unwrap();
    assert_eq!(reg.events().len(), before + 1);

    reg.set_status(ADMIN, a, AssetStatus::Retired).unwrap();
    assert_eq!(
        reg.set_status(ADMIN, a, AssetStatus::Listed),
        Err(ContractError::StatusFrozen)
    );
    reg.set_status(ADMIN, b, AssetStatus::Invalidated).unwrap();
    assert_eq!(
        reg.set_status(ADMIN, b, AssetStatus::Locked),
        Err(ContractError::StatusFrozen)
    );
    // An invalidated token may never burn.
    assert_eq!(reg.burn_token(b, OWNER), Err(ContractError::StatusFrozen));
    // A retired token transfers nowhere.
    assert_eq!(reg.transfer(OWNER, BUYER, 2, None), Err(ContractError::TransferNotAllowed));
}

#[test]
fn quality_score_updates_are_gated_and_survive_burn() {
    let mut reg = setup();
    let token_id = reg.mint(ADMIN, OWNER, meta("PROJ-A")).unwrap();

    assert_eq!(
        reg.update_quality_score(STRANGER, token_id, 10),
        Err(ContractError::NotAuthorized)
    );
    reg.update_quality_score(ADMIN, token_id, 10).unwrap();
    assert_eq!(reg.get_quality_score(token_id).unwrap(), 10);

    reg.set_oracle(ADMIN, ORACLE).unwrap();
    assert_eq!(reg.get_oracle(), Some(ORACLE));
    reg.update_quality_score(ORACLE, token_id, -3).unwrap();
    assert_eq!(reg.get_quality_score(token_id).unwrap(), -3);
    assert_eq!(
        reg.update_quality_score(ORACLE, 99, 1),
        Err(ContractError::TokenNotFound)
    );

    // The score stays writable and readable after the token burns.
    reg.set_status(ADMIN, token_id, AssetStatus::Retired).unwrap();
    reg.burn_token(token_id, OWNER).unwrap();
    reg.update_quality_score(ORACLE, token_id, 17).unwrap();
    assert_eq!(reg.get_quality_score(token_id).unwrap(), 17);
}

#[test]
fn count_operations_reject_bad_amounts_and_shortfalls() {
    let mut reg = setup();
    reg.mint(ADMIN, OWNER, meta("PROJ-A")).unwrap();

    assert_eq!(
        reg.transfer(OWNER, BUYER, 0, None),
        Err(ContractError::InvalidStatusTransition)
    );
    assert_eq!(
        reg.transfer(OWNER, BUYER, -1, None),
        Err(ContractError::InvalidStatusTransition)
    );
    assert_eq!(
        reg.transfer(OWNER, BUYER, 2, None),
        Err(ContractError::TransferNotAllowed)
    );
    // Burn takes only retired tokens; an issued one does not qualify.
    assert_eq!(reg.burn(OWNER, 1), Err(ContractError::TransferNotAllowed));
    assert_eq!(reg.burn_from(TRACKER, OWNER, 0), Err(ContractError::InvalidStatusTransition));
}

#[test]
fn expired_nonzero_approval_is_rejected() {
    let mut reg = setup();
    assert_eq!(
        reg.approve(OWNER, BUYER, 5, 3, 10),
        Err(ContractError::InvalidStatusTransition)
    );
    // A zero-amount approval may carry any expiry.
    reg.approve(OWNER, BUYER, 0, 3, 10).unwrap();
    assert_eq!(reg.allowance(OWNER, BUYER, 10), 0);
}

#[test]
fn burn_token_demands_the_actual_owner() {
    let mut reg = setup();
    let token_id = reg.mint(ADMIN, OWNER, meta("PROJ-A")).unwrap();
    reg.set_status(ADMIN, token_id, AssetStatus::Retired).unwrap();
    assert_eq!(reg.burn_token(token_id, BUYER), Err(ContractError::NotOwner));
    reg.burn_token(token_id, OWNER).unwrap();
    // A burned token cannot burn again: its owner record is gone.
    assert_eq!(reg.burn_token(token_id, OWNER), Err(ContractError::TokenNotFound));
}

#[test]
fn first_fit_selection_follows_sequence_order() {
    let mut reg = setup();
    let a = reg.mint(ADMIN, OWNER, meta("PROJ-A")).unwrap();
    let b = reg.mint(ADMIN, OWNER, meta("PROJ-A")).unwrap();
    let c = reg.mint(ADMIN, OWNER, meta("PROJ-A")).unwrap();

    // The middle token is locked, so a count of two skips over it.
    reg.set_status(ADMIN, b, AssetStatus::Locked).unwrap();
    reg.transfer(OWNER, BUYER, 2, None).unwrap();

    assert_eq!(reg.tokens_of_owner(BUYER), vec![a, c]);
    assert_eq!(reg.tokens_of_owner(OWNER), vec![b]);
    assert_eq!(reg.owner_of(b).unwrap(), OWNER);
}

#[test]
fn count_burn_takes_retired_tokens_and_logs_once() {
    let mut reg = setup();
    let a = reg.mint(ADMIN, OWNER, meta("PROJ-A")).unwrap();
    let b = reg.mint(ADMIN, OWNER, meta("PROJ-A")).unwrap();
    reg.set_status(ADMIN, a, AssetStatus::Retired).unwrap();
    reg.set_status(ADMIN, b, AssetStatus::Retired).unwrap();

    let before = reg.events().len();
    reg.burn_from(TRACKER, OWNER, 2).unwrap();
    assert_eq!(reg.balance_of(OWNER), 0);
    assert!(reg.is_burned(a).unwrap());
    assert!(reg.is_burned(b).unwrap());
    let burn_events = reg.events()[before..]
        .iter()
        .filter(|e| matches!(e, Event::Sep41Burn(_)))
        .count();
    assert_eq!(burn_events, 1);
    assert_eq!(reg.events().len(), before + 1);
}

#[test]
fn mint_records_metadata_and_events() {
    let mut reg = setup();
    let token_id = reg.mint(ADMIN, OWNER, meta("PROJ-X")).unwrap();

    let m = reg.get_metadata(token_id).unwrap();
    assert_eq!(m.project_id, String::from("PROJ-X"));
    assert_eq!(m.vintage_year, 1704067200);
    assert_eq!(m.methodology_id, 1);
    assert_eq!(m.geo_hash, [7u8; 32]);

    match &reg.events()[reg.events().len() - 2] {
        Event::Mint(ev) => {
            assert_eq!(ev.token_id, token_id);
            assert_eq!(ev.owner, OWNER);
            assert_eq!(ev.project_id, String::from("PROJ-X"));
        },
        other => panic!("expected a mint event, got {:?}", other),
    }
    match &reg.events()[reg.events().len() - 1] {
        Event::StatusChange(ev) => {
            assert_eq!(ev.old_status, None);
            assert_eq!(ev.new_status, AssetStatus::Issued);
            assert_eq!(ev.changed_by, ADMIN);
        },
        other => panic!("expected a status event, got {:?}", other),
    }
    assert_eq!(reg.name(), String::from("Carbon Asset"));
    assert_eq!(reg.symbol(), String::from("C01"));
}
