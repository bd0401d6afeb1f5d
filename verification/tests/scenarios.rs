//! Scenario coverage: the retirement side effect, batch events, allowance
//! expiry at the boundary, repeated initialization, and an adverse
//! regulatory verdict.

use carbon_asset::events::Event;
use carbon_asset::types::AssetStatus;
use carbon_asset::types::CarbonAssetMetadata;
use carbon_asset::types::ContractError;
use carbon_asset::types::OperationType;
use carbon_asset::types::ValidationResult;
use carbon_asset::CarbonAsset;

const ADMIN: u64 = 1;
const TRACKER: u64 = 2;
const OWNER: u64 = 3;
const BUYER: u64 = 4;
const SPENDER: u64 = 5;
const CHECKER: u64 = 9;

fn setup() -> CarbonAsset {
    let mut reg = CarbonAsset::new();
    reg.initialize(
        ADMIN,
        String::from("Carbon Asset"),
        String::from("C01"),
        TRACKER,
        String::from("US"),
    )
    .unwrap();
    reg
}

fn meta(project: &str) -> CarbonAssetMetadata {
    CarbonAssetMetadata {
        project_id: String::from(project),
        vintage_year: 1704067200,
        methodology_id: 1,
        geo_hash: [7; 32],
    }
}

fn verdict(is_compliant: bool, requires_authorization: bool) -> ValidationResult {
    ValidationResult {
        is_compliant,
        rule_id: Some(String::from("RULE-7")),
        requires_authorization,
        authority_address: None,
        error_message: None,
    }
}

#[test]
fn retirement_transfer_retires_and_keeps_audit_record() {
    let mut reg = setup();
    let token_id = reg.mint(ADMIN, OWNER, meta("PROJ-A")).unwrap();

    reg.transfer(OWNER, TRACKER, 1, None).unwrap();

    assert_eq!(reg.get_status(token_id).unwrap(), AssetStatus::Retired);
    // Ownership moved away from the minting owner to the tracker; only a
    // burn removes the owner record altogether.
    assert_eq!(reg.balance_of(OWNER), 0);
    assert_eq!(reg.owner_of(token_id).unwrap(), TRACKER);
    assert_eq!(reg.get_quality_score(token_id).unwrap(), 0);

    // The tracker burns the retired token; ownership is now gone while the
    // audit remnants stay queryable.
    reg.burn_token(token_id, TRACKER).unwrap();
    assert_eq!(reg.owner_of(token_id), Err(ContractError::TokenNotFound));
    assert_eq!(reg.get_status(token_id).unwrap(), AssetStatus::Retired);
    assert_eq!(reg.get_quality_score(token_id).unwrap(), 0);
    assert!(reg.is_burned(token_id).unwrap());
}

#[test]
fn count_transfer_publishes_one_batch_event() {
    let mut reg = setup();
    reg.mint(ADMIN, OWNER, meta("PROJ-A")).unwrap();
    reg.mint(ADMIN, OWNER, meta("PROJ-A")).unwrap();

    let before = reg.events().len();
    reg.transfer(OWNER, BUYER, 2, None).unwrap();

    assert_eq!(reg.balance_of(BUYER), 2);
    assert_eq!(reg.balance_of(OWNER), 0);
    let batch_events = reg.events()[before..]
        .iter()
        .filter(|e| matches!(e, Event::Sep41Transfer(_)))
        .count();
    assert_eq!(batch_events, 1);
    // ... preceded by one per-token transfer record each.
    let per_token = reg.events()[before..]
        .iter()
        .filter(|e| matches!(e, Event::Transfer(_)))
        .count();
    assert_eq!(per_token, 2);
}

#[test]
fn allowance_spent_at_expiry_boundary_then_exhausted() {
    let mut reg = setup();
    reg.mint(ADMIN, OWNER, meta("PROJ-A")).unwrap();
    reg.mint(ADMIN, OWNER, meta("PROJ-A")).unwrap();

    let height = 42;
    // Expiry exactly at the current height is still live.
    reg.approve(OWNER, SPENDER, 1, height, height).unwrap();
    reg.transfer_from(SPENDER, OWNER, BUYER, 1, height, None).unwrap();
    assert_eq!(reg.allowance(OWNER, SPENDER, height), 0);

    let second = reg.transfer_from(SPENDER, OWNER, BUYER, 1, height, None);
    assert_eq!(second, Err(ContractError::NotAuthorized));
    assert_eq!(reg.balance_of(BUYER), 1);
}

#[test]
fn allowance_reads_zero_after_expiry() {
    let mut reg = setup();
    reg.mint(ADMIN, OWNER, meta("PROJ-A")).unwrap();

    reg.approve(OWNER, SPENDER, 5, 10, 0).unwrap();
    assert_eq!(reg.allowance(OWNER, SPENDER, 10), 5);
    assert_eq!(reg.allowance(OWNER, SPENDER, 11), 0);

    let spend = reg.transfer_from(SPENDER, OWNER, BUYER, 1, 11, None);
    assert_eq!(spend, Err(ContractError::NotAuthorized));
}

#[test]
fn initialize_twice_fails_and_changes_nothing() {
    let mut reg = setup();
    let again = reg.initialize(
        ADMIN,
        String::from("Carbon Asset"),
        String::from("C01"),
        TRACKER,
        String::from("US"),
    );
    assert_eq!(again, Err(ContractError::AlreadyInitialized));
    assert_eq!(reg.get_admin().unwrap(), ADMIN);
    assert_eq!(reg.get_name().unwrap(), String::from("Carbon Asset"));
    assert_eq!(reg.get_symbol().unwrap(), String::from("C01"));
    assert_eq!(reg.get_retirement_tracker().unwrap(), TRACKER);
    assert_eq!(reg.get_host_jurisdiction().unwrap(), String::from("US"));
    assert_eq!(reg.decimals(), 0);
}

#[test]
fn adverse_verdict_blocks_every_transfer() {
    let mut reg = setup();
    let token_id = reg.mint(ADMIN, OWNER, meta("PROJ-A")).unwrap();
    reg.set_regulatory_check(ADMIN, CHECKER).unwrap();

    // The shell would consult the collaborator with this request.
    let request = reg.compliance_request(OWNER, BUYER, token_id).unwrap().unwrap();
    assert_eq!(request.operation, OperationType::TRANSFER);
    assert_eq!(request.jurisdiction, String::from("US"));

    let bad = verdict(false, false);
    assert_eq!(
        reg.before_transfer(OWNER, BUYER, token_id, Some(&bad)).unwrap(),
        false
    );
    let attempt = reg.transfer(OWNER, BUYER, 1, Some(&bad));
    assert_eq!(attempt, Err(ContractError::ComplianceFailed));
    assert_eq!(reg.owner_of(token_id).unwrap(), OWNER);
    assert_eq!(reg.balance_of(OWNER), 1);

    // A compliant verdict that still demands manual authorization also
    // blocks the transfer.
    let manual = verdict(true, true);
    let attempt = reg.transfer(OWNER, BUYER, 1, Some(&manual));
    assert_eq!(attempt, Err(ContractError::ComplianceFailed));

    // A clean verdict lets the transfer through.
    let good = verdict(true, false);
    reg.transfer(OWNER, BUYER, 1, Some(&good)).unwrap();
    assert_eq!(reg.owner_of(token_id).unwrap(), BUYER);
}

#[test]
fn retirement_classification_for_tracker_destination() {
    let mut reg = setup();
    let token_id = reg.mint(ADMIN, OWNER, meta("PROJ-A")).unwrap();
    reg.set_regulatory_check(ADMIN, CHECKER).unwrap();

    let request = reg.compliance_request(OWNER, TRACKER, token_id).unwrap().unwrap();
    assert_eq!(request.operation, OperationType::RETIREMENT);

    // Without a configured collaborator there is nothing to ask.
    let mut plain = setup();
    let id = plain.mint(ADMIN, OWNER, meta("PROJ-A")).unwrap();
    assert!(plain.compliance_request(OWNER, BUYER, id).unwrap().is_none());
    assert!(plain.before_transfer(OWNER, BUYER, id, None).unwrap());
}

#[test]
fn minting_accumulates_distinct_ids() {
    let mut reg = setup();
    for _ in 0..4 {
        reg.mint(ADMIN, OWNER, meta("PROJ-A")).unwrap();
    }
    assert_eq!(reg.tokens_of_owner(OWNER), vec![1, 2, 3, 4]);
    assert_eq!(reg.balance_of(OWNER), 4);
    assert_eq!(reg.owner_of(4).unwrap(), OWNER);
}

#[test]
fn ownership_index_stays_consistent_across_operations() {
    let mut reg = setup();
    for _ in 0..5 {
        reg.mint(ADMIN, OWNER, meta("PROJ-A")).unwrap();
    }
    reg.transfer(OWNER, BUYER, 2, None).unwrap();
    reg.set_status(ADMIN, 5, AssetStatus::Retired).unwrap();
    reg.burn_token(5, OWNER).unwrap();

    for account in [OWNER, BUYER, TRACKER, ADMIN] {
        let listed = reg.tokens_of_owner(account);
        assert_eq!(listed.len() as i128, reg.balance_of(account));
        for (j, id) in listed.iter().enumerate() {
            assert_eq!(reg.owner_of(*id).unwrap(), account);
            // No id appears twice in any list.
            assert_eq!(listed.iter().filter(|x| *x == id).count(), 1);
            let _ = j;
        }
    }
    assert_eq!(reg.balance_of(OWNER), 2);
    assert_eq!(reg.balance_of(BUYER), 2);
}
