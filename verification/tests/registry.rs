//! End-to-end exercises of the registry through its public surface: the
//! mint/transfer/allowance flows and the retirement side effect.

use carbon_asset::types::AssetStatus;
use carbon_asset::types::CarbonAssetMetadata;
use carbon_asset::CarbonAsset;

const ADMIN: u64 = 1;
const TRACKER: u64 = 2;
const OWNER: u64 = 3;
const BUYER: u64 = 4;
const SPENDER: u64 = 5;
const RECIPIENT: u64 = 6;

fn setup() -> CarbonAsset {
    let mut reg = CarbonAsset::new();
    reg.initialize(
        ADMIN,
        String::from("Carbon Asset"),
        String::from("C01"),
        TRACKER,
        String::from("US"),
    )
    .unwrap();
    reg
}

fn meta(project: &str, methodology_id: u32, fill: u8) -> CarbonAssetMetadata {
    CarbonAssetMetadata {
        project_id: String::from(project),
        vintage_year: 1704067200,
        methodology_id,
        geo_hash: [fill; 32],
    }
}

#[test]
fn test_mint_and_transfer_token() {
    let mut reg = setup();
    let m = meta("PROJ-1", 1, 7);

    let token_id = reg.mint(ADMIN, OWNER, m).unwrap();
    assert_eq!(token_id, 1);
    assert_eq!(reg.balance(OWNER), 1);
    assert_eq!(reg.owner_of(token_id).unwrap(), OWNER);

    reg.transfer(OWNER, BUYER, 1, None).unwrap();
    assert_eq!(reg.balance(OWNER), 0);
    assert_eq!(reg.balance(BUYER), 1);
    assert_eq!(reg.owner_of(token_id).unwrap(), BUYER);
}

#[test]
fn test_transfer_amount_and_allowance() {
    let mut reg = setup();
    let m = meta("PROJ-1", 1, 9);

    reg.mint(ADMIN, OWNER, m.clone()).unwrap();
    reg.mint(ADMIN, OWNER, m).unwrap();

    reg.transfer(OWNER, BUYER, 2, None).unwrap();
    assert_eq!(reg.balance(OWNER), 0);
    assert_eq!(reg.balance(BUYER), 2);

    let current_ledger = 0;
    reg.approve(BUYER, SPENDER, 1, current_ledger, current_ledger).unwrap();
    reg.transfer_from(SPENDER, BUYER, RECIPIENT, 1, current_ledger, None).unwrap();
    assert_eq!(reg.balance(BUYER), 1);
    assert_eq!(reg.balance(RECIPIENT), 1);
}

#[test]
fn test_transfer_to_retirement_tracker_sets_status() {
    let mut reg = setup();
    let m = meta("PROJ-2", 2, 3);

    let token_id = reg.mint(ADMIN, OWNER, m).unwrap();
    reg.transfer(OWNER, TRACKER, 1, None).unwrap();
    assert_eq!(reg.get_status(token_id).unwrap(), AssetStatus::Retired);
}
